//! A registry carrying rich per-token metadata, with custom extension
//! commands and queries layered on the core.
//!
//! The core never interprets the metadata: it rides along in the token
//! record's extension slot.  Only the extension command and query land here;
//! everything else forwards to the core dispatchers.

use vstd::prelude::*;
use vstd::pervasive::cloned;
use crate::contract::{execute_post, query_post};
use crate::error::{ContractError, StdError};
use crate::expiration::Env;
use crate::msg::{ExecuteMsg, InstantiateMsg, MessageInfo, QueryMsg, QueryResponse};
use crate::response::{Response, attr_is};
use crate::state::State;

verus! {

/// One display trait of a token, in the shape off-ledger indexers expect.
#[derive(Debug, PartialEq, Eq)]
pub struct Trait {
    pub display_type: Option<String>,
    pub trait_type: String,
    pub value: String,
}

/// Rich per-token metadata, in the shape off-ledger indexers expect.
#[derive(Debug, PartialEq, Eq)]
pub struct Metadata {
    pub image: Option<String>,
    pub image_data: Option<String>,
    pub external_url: Option<String>,
    pub description: Option<String>,
    pub name: Option<String>,
    pub attributes: Option<Vec<Trait>>,
    pub background_color: Option<String>,
    pub animation_url: Option<String>,
    pub youtube_url: Option<String>,
}

fn clone_opt_string(s: &Option<String>) -> (r: Option<String>)
    ensures
        r == *s,
{
    match s {
        Some(v) => Some(v.clone()),
        None => None,
    }
}

impl Clone for Trait {
    /// A cloned trait equals the original, field for field.
    fn clone(&self) -> (res: Self)
        ensures
            res == *self,
    {
        Trait {
            display_type: clone_opt_string(&self.display_type),
            trait_type: self.trait_type.clone(),
            value: self.value.clone(),
        }
    }
}

/// `b` carries exactly the same metadata as `a`: every field equal, with
/// the attribute list compared element for element.  Element-wise equality
/// is everything a list shows; its container carries nothing more, but is
/// not spec-equal across a clone.
pub open spec fn metadata_equiv(a: Metadata, b: Metadata) -> bool {
    &&& b.image == a.image
    &&& b.image_data == a.image_data
    &&& b.external_url == a.external_url
    &&& b.description == a.description
    &&& b.name == a.name
    &&& match (a.attributes, b.attributes) {
        (Some(x), Some(y)) => x@ == y@,
        (None, None) => true,
        _ => false,
    }
    &&& b.background_color == a.background_color
    &&& b.animation_url == a.animation_url
    &&& b.youtube_url == a.youtube_url
}

impl Clone for Metadata {
    /// A cloned metadata record carries exactly the same metadata.
    fn clone(&self) -> (res: Self)
        ensures
            metadata_equiv(*self, res),
    {
        let attributes = match &self.attributes {
            Some(v) => {
                let c = v.clone();
                proof {
                    assert forall|i: int| 0 <= i < c@.len() implies c@[i] == v@[i] by {
                        assert(cloned::<Trait>(v@[i], c@[i]));
                    }
                    assert(c@ =~= v@);
                }
                Some(c)
            },
            None => None,
        };
        Metadata {
            image: clone_opt_string(&self.image),
            image_data: clone_opt_string(&self.image_data),
            external_url: clone_opt_string(&self.external_url),
            description: clone_opt_string(&self.description),
            name: clone_opt_string(&self.name),
            attributes,
            background_color: clone_opt_string(&self.background_color),
            animation_url: clone_opt_string(&self.animation_url),
            youtube_url: clone_opt_string(&self.youtube_url),
        }
    }
}

/// The extension slot of this registry: optional metadata.
pub type Extension = Option<Metadata>;

/// `b` carries exactly the same payload as `a`.
pub open spec fn extension_equiv(a: Extension, b: Extension) -> bool {
    match (a, b) {
        (Some(x), Some(y)) => metadata_equiv(x, y),
        (None, None) => true,
        _ => false,
    }
}

/// For this registry's concrete payload type, a clone carries exactly the
/// same metadata: the extension `nft_info` reports equals the stored one
/// field for field, the attribute list element for element.  With the
/// stored extension pinned by the mint contract, the payload round-trips
/// through mint, store and query unmodified.
pub proof fn lemma_extension_clone_exact(a: Extension, b: Extension)
    requires
        cloned::<Extension>(a, b),
    ensures
        extension_equiv(a, b),
{
}

/// The custom commands this registry accepts besides the core's.
#[derive(Clone, Debug, PartialEq, Eq)]
pub enum CustomExtensionMsg {
    ValidHello {},
    InvalidHello {},
}

/// The errors the custom commands raise.
#[derive(Clone, Debug, PartialEq, Eq)]
pub enum CustomError {
    HelloError { msg: String },
}

/// The custom queries this registry answers besides the core's.
#[derive(Clone, Debug, PartialEq, Eq)]
pub enum CustomQuery {
    HelloQuery {},
}

/// The answer to a hello query.
#[derive(Clone, Debug, PartialEq, Eq)]
pub struct HelloResponse {
    pub msg: String,
}

/// Initializes the registry; same as the core's initialization.
pub fn instantiate(
    state: &mut State<Extension>,
    env: Env,
    info: MessageInfo,
    msg: InstantiateMsg,
) -> (r: Result<Response, ContractError<CustomError>>)
    requires
        old(state).wf(),
    ensures
        final(state).wf(),
        r is Ok,
        final(state).contract_info.name == msg.name,
        final(state).contract_info.symbol == msg.symbol,
        final(state).minter == msg.minter,
        final(state).tokens == old(state).tokens,
        final(state).operators == old(state).operators,
        final(state).token_count == old(state).token_count,
{
    crate::contract::instantiate(state, &env, &info, msg)
}

/// What a handled custom command returns: a greeting attribute for the
/// valid hello, the hello error for the invalid one.
pub open spec fn custom_msg_post(
    msg: CustomExtensionMsg,
    r: Result<Response, ContractError<CustomError>>,
) -> bool {
    match msg {
        CustomExtensionMsg::ValidHello {} => match r {
            Ok(resp) => {
                &&& resp.attributes@.len() == 1
                &&& attr_is(resp.attributes@[0], "custom_msg"@, "hello"@)
                &&& resp.messages@.len() == 0
            },
            Err(_) => false,
        },
        CustomExtensionMsg::InvalidHello {} => match r {
            Ok(_) => false,
            Err(e) => e matches ContractError::CustomError(CustomError::HelloError { msg })
                && msg@ == "no_hello"@,
        },
    }
}

/// Handles one custom command.
pub fn handle_custom_msg(msg: CustomExtensionMsg) -> (r: Result<
    Response,
    ContractError<CustomError>,
>)
    ensures
        custom_msg_post(msg, r),
{
    match msg {
        CustomExtensionMsg::ValidHello {} => Ok(
            Response::new().add_attribute("custom_msg", "hello"),
        ),
        CustomExtensionMsg::InvalidHello {} => Err(
            ContractError::CustomError(CustomError::HelloError { msg: "no_hello".to_owned() }),
        ),
    }
}

/// Handles one custom query: the hello query always gets the same greeting.
pub fn handle_custom_query_msg(msg: CustomQuery) -> (r: Result<HelloResponse, StdError>)
    ensures
        r matches Ok(h) && h.msg@ == "custom_hello_query_response"@,
{
    match msg {
        CustomQuery::HelloQuery {} => Ok(
            HelloResponse { msg: "custom_hello_query_response".to_owned() },
        ),
    }
}

/// Applies one command: the extension command is handled here, everything
/// else exactly as the core dispatcher does it.
pub fn execute(
    state: &mut State<Extension>,
    env: Env,
    info: MessageInfo,
    msg: ExecuteMsg<Extension, CustomExtensionMsg>,
) -> (r: Result<Response, ContractError<CustomError>>)
    requires
        old(state).wf(),
    ensures
        final(state).wf(),
        r is Err ==> *final(state) == *old(state),
        match msg {
            ExecuteMsg::Extension { msg: m } => custom_msg_post(m, r) && *final(state) == *old(
                state,
            ),
            _ => execute_post(*old(state), *final(state), env, info, msg, r),
        },
{
    match msg {
        ExecuteMsg::Extension { msg } => handle_custom_msg(msg),
        other => crate::contract::execute(state, env, info, other),
    }
}

/// The answer to one query of this registry.
#[derive(Clone, Debug, PartialEq, Eq)]
pub enum MetadataQueryResponse {
    /// An answer of the core.
    Base(QueryResponse<Extension>),
    /// The answer to the hello query.
    Hello(HelloResponse),
}

/// Answers one query: the extension query is handled here, everything else
/// exactly as the core dispatcher does it.
pub fn query(state: &State<Extension>, env: Env, msg: QueryMsg<CustomQuery>) -> (r: Result<
    MetadataQueryResponse,
    StdError,
>)
    requires
        state.wf(),
    ensures
        match msg {
            QueryMsg::Extension { msg: _ } => r matches Ok(MetadataQueryResponse::Hello(h))
                && h.msg@ == "custom_hello_query_response"@,
            _ => {
                &&& (r is Ok <==> exists|x: QueryResponse<Extension>|
                    query_post(*state, env, msg, Ok(x)))
                &&& match r {
                    Ok(MetadataQueryResponse::Base(x)) => query_post(*state, env, msg, Ok(x)),
                    Ok(MetadataQueryResponse::Hello(_)) => false,
                    Err(e) => query_post(*state, env, msg, Err(e)),
                }
            },
        },
{
    match msg {
        QueryMsg::Extension { msg } => match handle_custom_query_msg(msg) {
            Ok(h) => Ok(MetadataQueryResponse::Hello(h)),
            Err(e) => Err(e),
        },
        other => match crate::contract::query(state, env, other) {
            Ok(x) => Ok(MetadataQueryResponse::Base(x)),
            Err(e) => Err(e),
        },
    }
}

} // verus!
