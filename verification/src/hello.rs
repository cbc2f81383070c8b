//! A registry with the same metadata extension but plain hello commands of
//! its own: the base commands ride inside one wrapping message enum, and
//! base errors come back wrapped as well.

use vstd::prelude::*;
use crate::contract::{execute_post, query_post};
use crate::error::StdError;
use crate::expiration::Env;
use crate::metadata::Extension;
use crate::msg::{Empty, InstantiateMsg, MessageInfo, QueryResponse};
use crate::response::{Response, attr_is};
use crate::state::State;

verus! {

/// The errors this registry raises: its own hello error, or a wrapped error
/// of the core.
#[derive(Clone, Debug, PartialEq, Eq)]
pub enum ContractError {
    HelloError { msg: String },
    Cw721ContractError(crate::error::ContractError<crate::error::CustomError>),
}

/// One command: a wrapped core command, or one of the two hello commands.
#[derive(Clone, Debug, PartialEq, Eq)]
pub enum ExecuteMsg {
    DefaultCw721ExecuteMsg(Box<crate::msg::ExecuteMsg<Extension, Empty>>),
    ValidHello {},
    InvalidHello {},
}

/// One query: a wrapped core query, or the hello query.
#[derive(Clone, Debug, PartialEq, Eq)]
pub enum QueryMsg {
    Cw721QueryMsg(crate::msg::QueryMsg<Empty>),
    HelloQuery { value: String },
}

/// The answer to the hello query: the value echoed back.
#[derive(Clone, Debug, PartialEq, Eq)]
pub struct HelloResponse {
    pub msg: String,
}

/// The answer to one query of this registry.
#[derive(Clone, Debug, PartialEq, Eq)]
pub enum HelloQueryResponse {
    /// An answer of the core.
    Base(QueryResponse<Extension>),
    /// The echo of a hello query.
    Hello(HelloResponse),
}

/// Greets: one attribute, nothing changed.
pub fn valid_hello() -> (r: Result<Response, ContractError>)
    ensures
        match r {
            Ok(resp) => {
                &&& resp.attributes@.len() == 1
                &&& attr_is(resp.attributes@[0], "custom_msg"@, "valid_hello"@)
                &&& resp.messages@.len() == 0
            },
            Err(_) => false,
        },
{
    Ok(Response::new().add_attribute("custom_msg", "valid_hello"))
}

/// Always fails with the hello error.
pub fn invalid_hello() -> (r: Result<Response, ContractError>)
    ensures
        match r {
            Ok(_) => false,
            Err(e) => e matches ContractError::HelloError { msg } && msg@ == "invalid_hello"@,
        },
{
    Err(ContractError::HelloError { msg: "invalid_hello".to_owned() })
}

/// Echoes the queried value back.
pub fn handle_custom_query_msg(value: String) -> (r: Result<HelloResponse, StdError>)
    ensures
        r matches Ok(h) && h.msg == value,
{
    Ok(HelloResponse { msg: value })
}

/// Initializes the registry; same as the core's initialization, with core
/// errors wrapped.
pub fn instantiate(
    state: &mut State<Extension>,
    env: Env,
    info: MessageInfo,
    msg: InstantiateMsg,
) -> (r: Result<Response, ContractError>)
    requires
        old(state).wf(),
    ensures
        final(state).wf(),
        r is Ok,
        final(state).contract_info.name == msg.name,
        final(state).contract_info.symbol == msg.symbol,
        final(state).minter == msg.minter,
        final(state).tokens == old(state).tokens,
        final(state).operators == old(state).operators,
        final(state).token_count == old(state).token_count,
{
    match crate::contract::instantiate::<Extension, crate::error::CustomError>(
        state,
        &env,
        &info,
        msg,
    ) {
        Ok(res) => Ok(res),
        Err(err) => Err(ContractError::Cw721ContractError(err)),
    }
}

/// Applies one command: hello commands are handled here, a wrapped core
/// command exactly as the core dispatcher does it, its error wrapped.
pub fn execute(
    state: &mut State<Extension>,
    env: Env,
    info: MessageInfo,
    msg: ExecuteMsg,
) -> (r: Result<Response, ContractError>)
    requires
        old(state).wf(),
    ensures
        final(state).wf(),
        r is Err ==> *final(state) == *old(state),
        match msg {
            ExecuteMsg::DefaultCw721ExecuteMsg(m) => match r {
                Ok(resp) => execute_post(
                    *old(state),
                    *final(state),
                    env,
                    info,
                    *m,
                    Ok::<Response, crate::error::ContractError<crate::error::CustomError>>(resp),
                ),
                Err(e) => e matches ContractError::Cw721ContractError(inner) && execute_post(
                    *old(state),
                    *final(state),
                    env,
                    info,
                    *m,
                    Err(inner),
                ),
            },
            ExecuteMsg::ValidHello {} => *final(state) == *old(state) && match r {
                Ok(resp) => {
                    &&& resp.attributes@.len() == 1
                    &&& attr_is(resp.attributes@[0], "custom_msg"@, "valid_hello"@)
                    &&& resp.messages@.len() == 0
                },
                Err(_) => false,
            },
            ExecuteMsg::InvalidHello {} => *final(state) == *old(state) && match r {
                Ok(_) => false,
                Err(e) => e matches ContractError::HelloError { msg } && msg@ == "invalid_hello"@,
            },
        },
{
    match msg {
        ExecuteMsg::DefaultCw721ExecuteMsg(msg) => {
            let res = crate::contract::execute::<Extension, Empty, crate::error::CustomError>(
                state,
                env,
                info,
                *msg,
            );
            match res {
                Ok(res) => Ok(res),
                Err(err) => Err(ContractError::Cw721ContractError(err)),
            }
        },
        ExecuteMsg::ValidHello {} => valid_hello(),
        ExecuteMsg::InvalidHello {} => invalid_hello(),
    }
}

/// Answers one query: the hello query echoes here, a wrapped core query
/// answers exactly as the core dispatcher does it.
pub fn query(state: &State<Extension>, env: Env, msg: QueryMsg) -> (r: Result<
    HelloQueryResponse,
    StdError,
>)
    requires
        state.wf(),
    ensures
        match msg {
            QueryMsg::Cw721QueryMsg(m) => {
                &&& (r is Ok <==> exists|x: QueryResponse<Extension>|
                    query_post(*state, env, m, Ok(x)))
                &&& match r {
                    Ok(HelloQueryResponse::Base(x)) => query_post(*state, env, m, Ok(x)),
                    Ok(HelloQueryResponse::Hello(_)) => false,
                    Err(e) => query_post(*state, env, m, Err(e)),
                }
            },
            QueryMsg::HelloQuery { value } => r matches Ok(HelloQueryResponse::Hello(h)) && h.msg
                == value,
        },
{
    match msg {
        QueryMsg::Cw721QueryMsg(msg) => match crate::contract::query(state, env, msg) {
            Ok(x) => Ok(HelloQueryResponse::Base(x)),
            Err(e) => Err(e),
        },
        QueryMsg::HelloQuery { value } => match handle_custom_query_msg(value) {
            Ok(h) => Ok(HelloQueryResponse::Hello(h)),
            Err(e) => Err(e),
        },
    }
}

} // verus!
