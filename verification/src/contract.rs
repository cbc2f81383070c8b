//! The state-transition entry points: initialization, the command
//! dispatcher and the query dispatcher.
//!
//! Each dispatcher's contract restates, arm by arm, the contract of the
//! operation it forwards to, so a caller that only sees the dispatcher loses
//! nothing.

use vstd::prelude::*;
use vstd::pervasive::cloned;
use crate::error::{ContractError, StdError};
use crate::execute::{
    approval_action_resp,
    approve,
    approve_all,
    approve_all_ok,
    approve_ok,
    burn,
    burn_ok,
    burn_resp,
    effective_expiration,
    mint,
    mint_err,
    mint_ok,
    mint_resp,
    operator_action_resp,
    revoke,
    revoke_all,
    revoke_all_ok,
    revoke_ok,
    send_auth_err,
    send_nft,
    spec_can_approve,
    spec_can_send,
    transfer_action_resp,
    transfer_nft,
    transfer_ok,
    update_approvals_err,
};
use crate::expiration::{Env, Expiration, spec_is_expired};
use crate::msg::{
    Binary,
    ContractInfoResponse,
    ExecuteMsg,
    InstantiateMsg,
    MessageInfo,
    QueryMsg,
    QueryResponse,
};
use crate::query::{
    all_nft_info,
    all_tokens,
    approval,
    approvals,
    contract_info,
    humanized,
    matching_approvals,
    minter,
    nft_info,
    num_tokens,
    operator_page,
    opt_view,
    operators,
    owner_of,
    owner_token_page,
    spec_limit,
    take_limit,
    token_not_found,
    token_page,
    tokens,
};
use crate::response::Response;
use crate::state::State;

verus! {

/// Whether the caller asked for expired entries; unnamed means no.
pub open spec fn spec_include_expired(o: Option<bool>) -> bool {
    match o {
        Some(b) => b,
        None => false,
    }
}

/// Initializes the registry: records name, symbol and the minter.  Runs
/// once per contract lifetime, on the empty ledger; the two records are
/// immutable afterwards, since no command touches them.
pub fn instantiate<T, E>(
    state: &mut State<T>,
    env: &Env,
    info: &MessageInfo,
    msg: InstantiateMsg,
) -> (r: Result<Response, ContractError<E>>)
    requires
        old(state).wf(),
    ensures
        final(state).wf(),
        r is Ok,
        final(state).contract_info.name == msg.name,
        final(state).contract_info.symbol == msg.symbol,
        final(state).minter == msg.minter,
        final(state).tokens == old(state).tokens,
        final(state).operators == old(state).operators,
        final(state).token_count == old(state).token_count,
        match r {
            Ok(resp) => resp.attributes@.len() == 0 && resp.messages@.len() == 0,
            Err(_) => false,
        },
{
    let info_rec = ContractInfoResponse { name: msg.name, symbol: msg.symbol };
    match state.set_contract_info::<E>(info_rec) {
        Ok(_) => {},
        Err(e) => {
            return Err(e);
        },
    }
    match state.set_minter::<E>(msg.minter) {
        Ok(_) => {},
        Err(e) => {
            return Err(e);
        },
    }
    Ok(Response::default())
}

/// What `execute` promises, arm by arm: each command behaves exactly as the
/// operation of its name, and an extension command passes through untouched.
pub open spec fn execute_post<T, M, E>(
    pre: State<T>,
    post: State<T>,
    env: Env,
    info: MessageInfo,
    msg: ExecuteMsg<T, M>,
    r: Result<Response, ContractError<E>>,
) -> bool {
    match msg {
            ExecuteMsg::Mint(m) => {
                &&& (r is Ok <==> info.sender@ == pre.minter@ && !pre.has_token(
                    m.token_id@,
                ))
                &&& match r {
                    Ok(resp) => mint_ok(pre, post, info.sender@, m)
                        && mint_resp(resp, info.sender@, m),
                    Err(e) => mint_err(pre, info.sender@, m, e),
                }
            },
            ExecuteMsg::Approve { spender, token_id, expires } => {
                &&& (r is Ok <==> pre.has_token(token_id@) && spec_can_approve(
                    pre,
                    env.block,
                    info.sender@,
                    pre.token_info(token_id@),
                ) && !spec_is_expired(effective_expiration(expires), env.block))
                &&& match r {
                    Ok(resp) => approve_ok(
                        pre,
                        post,
                        token_id@,
                        spender@,
                        effective_expiration(expires),
                    ) && approval_action_resp(resp, "approve"@, info.sender@, spender@, token_id@),
                    Err(e) => update_approvals_err(
                        pre,
                        env.block,
                        info.sender@,
                        token_id@,
                        true,
                        effective_expiration(expires),
                        e,
                    ),
                }
            },
            ExecuteMsg::Revoke { spender, token_id } => {
                &&& (r is Ok <==> pre.has_token(token_id@) && spec_can_approve(
                    pre,
                    env.block,
                    info.sender@,
                    pre.token_info(token_id@),
                ))
                &&& match r {
                    Ok(resp) => revoke_ok(pre, post, token_id@, spender@)
                        && approval_action_resp(resp, "revoke"@, info.sender@, spender@, token_id@),
                    Err(e) => update_approvals_err(
                        pre,
                        env.block,
                        info.sender@,
                        token_id@,
                        false,
                        Expiration::Never,
                        e,
                    ),
                }
            },
            ExecuteMsg::ApproveAll { operator, expires } => {
                &&& (r is Ok <==> !spec_is_expired(effective_expiration(expires), env.block))
                &&& match r {
                    Ok(resp) => approve_all_ok(
                        pre,
                        post,
                        info.sender@,
                        operator@,
                        effective_expiration(expires),
                    ) && operator_action_resp(resp, "approve_all"@, info.sender@, operator@),
                    Err(e) => e == ContractError::<E>::Expired {},
                }
            },
            ExecuteMsg::RevokeAll { operator } => {
                match r {
                    Ok(resp) => revoke_all_ok(pre, post, info.sender@, operator@)
                        && operator_action_resp(resp, "revoke_all"@, info.sender@, operator@),
                    Err(_) => false,
                }
            },
            ExecuteMsg::TransferNft { recipient, token_id } => {
                &&& (r is Ok <==> pre.has_token(token_id@) && spec_can_send(
                    pre,
                    env.block,
                    info.sender@,
                    pre.token_info(token_id@),
                ))
                &&& match r {
                    Ok(resp) => transfer_ok(pre, post, token_id@, recipient@)
                        && transfer_action_resp(
                        resp,
                        "transfer_nft"@,
                        info.sender@,
                        recipient@,
                        token_id@,
                    ) && resp.messages@.len() == 0,
                    Err(e) => send_auth_err(pre, env.block, info.sender@, token_id@, e),
                }
            },
            ExecuteMsg::SendNft { contract, token_id, msg: payload } => {
                &&& (r is Ok <==> pre.has_token(token_id@) && spec_can_send(
                    pre,
                    env.block,
                    info.sender@,
                    pre.token_info(token_id@),
                ))
                &&& match r {
                    Ok(resp) => {
                        &&& transfer_ok(pre, post, token_id@, contract@)
                        &&& transfer_action_resp(
                            resp,
                            "send_nft"@,
                            info.sender@,
                            contract@,
                            token_id@,
                        )
                        &&& resp.messages@.len() == 1
                        &&& resp.messages@[0].contract@ == contract@
                        &&& resp.messages@[0].msg.sender@ == info.sender@
                        &&& resp.messages@[0].msg.token_id@ == token_id@
                        &&& resp.messages@[0].msg.msg == payload
                    },
                    Err(e) => send_auth_err(pre, env.block, info.sender@, token_id@, e),
                }
            },
            ExecuteMsg::Burn { token_id } => {
                &&& (r is Ok <==> pre.has_token(token_id@) && spec_can_send(
                    pre,
                    env.block,
                    info.sender@,
                    pre.token_info(token_id@),
                ))
                &&& match r {
                    Ok(resp) => burn_ok(pre, post, token_id@)
                        && burn_resp(resp, info.sender@, token_id@),
                    Err(e) => send_auth_err(pre, env.block, info.sender@, token_id@, e),
                }
            },
            ExecuteMsg::Extension { .. } => {
                &&& post == pre
                &&& match r {
                    Ok(resp) => resp.attributes@.len() == 0 && resp.messages@.len() == 0,
                    Err(_) => false,
                }
            },
        }
}

/// Applies one command to the ledger.  Every arm forwards to the operation
/// of the same name; an extension command passes through untouched.  On any
/// error the ledger is returned exactly as it was.
pub fn execute<T, M, E>(
    state: &mut State<T>,
    env: Env,
    info: MessageInfo,
    msg: ExecuteMsg<T, M>,
) -> (r: Result<Response, ContractError<E>>)
    requires
        old(state).wf(),
    ensures
        final(state).wf(),
        r is Err ==> *final(state) == *old(state),
        execute_post(*old(state), *final(state), env, info, msg, r),
{
    match msg {
        ExecuteMsg::Mint(m) => mint(state, &env, &info, m),
        ExecuteMsg::Approve { spender, token_id, expires } => approve(
            state,
            &env,
            &info,
            spender,
            token_id,
            expires,
        ),
        ExecuteMsg::Revoke { spender, token_id } => revoke(state, &env, &info, spender, token_id),
        ExecuteMsg::ApproveAll { operator, expires } => approve_all(
            state,
            &env,
            &info,
            operator,
            expires,
        ),
        ExecuteMsg::RevokeAll { operator } => revoke_all(state, &env, &info, operator),
        ExecuteMsg::TransferNft { recipient, token_id } => transfer_nft(
            state,
            &env,
            &info,
            recipient,
            token_id,
        ),
        ExecuteMsg::SendNft { contract, token_id, msg } => send_nft(
            state,
            &env,
            &info,
            contract,
            token_id,
            msg,
        ),
        ExecuteMsg::Burn { token_id } => burn(state, &env, &info, token_id),
        ExecuteMsg::Extension { msg: _ } => Ok(Response::new()),
    }
}

/// What `query` promises, arm by arm: each query answers exactly as the
/// read of its name, and an extension query gets the empty payload back.
pub open spec fn query_post<T: Clone, Q>(
    state: State<T>,
    env: Env,
    msg: QueryMsg<Q>,
    r: Result<QueryResponse<T>, StdError>,
) -> bool {
    match msg {
            QueryMsg::Minter {} => r matches Ok(QueryResponse::Minter(x)) && x.minter
                == state.minter,
            QueryMsg::ContractInfo {} => r matches Ok(QueryResponse::ContractInfo(x)) && x
                == state.contract_info,
            QueryMsg::NumTokens {} => r matches Ok(QueryResponse::NumTokens(x)) && x.count
                == state.token_count,
            QueryMsg::NftInfo { token_id } => {
                &&& (r is Ok <==> state.has_token(token_id@))
                &&& match r {
                    Ok(QueryResponse::NftInfo(x)) => x.token_uri == state.token_info(
                        token_id@,
                    ).token_uri && cloned::<T>(state.token_info(token_id@).extension, x.extension),
                    Ok(_) => false,
                    Err(e) => token_not_found(e),
                }
            },
            QueryMsg::OwnerOf { token_id, include_expired } => {
                &&& (r is Ok <==> state.has_token(token_id@))
                &&& match r {
                    Ok(QueryResponse::OwnerOf(x)) => x.owner == state.token_info(token_id@).owner
                        && x.approvals@ == humanized(
                        state.token_info(token_id@).approvals@,
                        env.block,
                        spec_include_expired(include_expired),
                    ),
                    Ok(_) => false,
                    Err(e) => token_not_found(e),
                }
            },
            QueryMsg::AllNftInfo { token_id, include_expired } => {
                &&& (r is Ok <==> state.has_token(token_id@))
                &&& match r {
                    Ok(QueryResponse::AllNftInfo(x)) => {
                        &&& x.access.owner == state.token_info(token_id@).owner
                        &&& x.access.approvals@ == humanized(
                            state.token_info(token_id@).approvals@,
                            env.block,
                            spec_include_expired(include_expired),
                        )
                        &&& x.info.token_uri == state.token_info(token_id@).token_uri
                        &&& cloned::<T>(state.token_info(token_id@).extension, x.info.extension)
                    },
                    Ok(_) => false,
                    Err(e) => token_not_found(e),
                }
            },
            QueryMsg::AllOperators { owner, include_expired, start_after, limit } => r matches Ok(
                QueryResponse::Operators(x),
            ) && x.operators@ == take_limit(
                operator_page(
                    state.operators@,
                    owner@,
                    env.block,
                    spec_include_expired(include_expired),
                    opt_view(start_after),
                ),
                spec_limit(limit),
            ),
            QueryMsg::AllTokens { start_after, limit } => r matches Ok(QueryResponse::Tokens(x))
                && x.tokens@ == take_limit(
                token_page(state.tokens@, opt_view(start_after)),
                spec_limit(limit),
            ),
            QueryMsg::Tokens { owner, start_after, limit } => r matches Ok(
                QueryResponse::Tokens(x),
            ) && x.tokens@ == take_limit(
                owner_token_page(state.tokens@, owner@, opt_view(start_after)),
                spec_limit(limit),
            ),
            QueryMsg::Approval { token_id, spender, include_expired } => {
                &&& (r is Ok <==> state.has_token(token_id@) && {
                    ||| state.token_info(token_id@).owner@ == spender@
                    ||| matching_approvals(
                        state.token_info(token_id@).approvals@,
                        spender@,
                        env.block,
                        spec_include_expired(include_expired),
                    ).len() > 0
                })
                &&& match r {
                    Ok(QueryResponse::Approval(x)) => if state.token_info(token_id@).owner@
                        == spender@ {
                        x.approval.spender@ == spender@ && x.approval.expires == Expiration::Never
                    } else {
                        x.approval == matching_approvals(
                            state.token_info(token_id@).approvals@,
                            spender@,
                            env.block,
                            spec_include_expired(include_expired),
                        )[0]
                    },
                    Ok(_) => false,
                    Err(e) => if !state.has_token(token_id@) {
                        token_not_found(e)
                    } else {
                        e matches StdError::NotFound { kind } && kind@ == "Approval not found"@
                    },
                }
            },
            QueryMsg::Approvals { token_id, include_expired } => {
                &&& (r is Ok <==> state.has_token(token_id@))
                &&& match r {
                    Ok(QueryResponse::Approvals(x)) => x.approvals@ == humanized(
                        state.token_info(token_id@).approvals@,
                        env.block,
                        spec_include_expired(include_expired),
                    ),
                    Ok(_) => false,
                    Err(e) => token_not_found(e),
                }
            },
            QueryMsg::Extension { .. } => r matches Ok(QueryResponse::Extension(b)) && b.0@
                == Seq::<u8>::empty(),
        }
}

/// Answers one query.  Every arm forwards to the read of the same name; an
/// extension query passes through and gets the empty payload back.
pub fn query<T: Clone, Q>(state: &State<T>, env: Env, msg: QueryMsg<Q>) -> (r: Result<
    QueryResponse<T>,
    StdError,
>)
    requires
        state.wf(),
    ensures
        query_post(*state, env, msg, r),
{
    match msg {
        QueryMsg::Minter {} => Ok(QueryResponse::Minter(minter(state))),
        QueryMsg::ContractInfo {} => Ok(QueryResponse::ContractInfo(contract_info(state))),
        QueryMsg::NftInfo { token_id } => match nft_info(state, token_id) {
            Ok(x) => Ok(QueryResponse::NftInfo(x)),
            Err(e) => Err(e),
        },
        QueryMsg::OwnerOf { token_id, include_expired } => {
            let incl = match include_expired {
                Some(b) => b,
                None => false,
            };
            match owner_of(state, &env, token_id, incl) {
                Ok(x) => Ok(QueryResponse::OwnerOf(x)),
                Err(e) => Err(e),
            }
        },
        QueryMsg::AllNftInfo { token_id, include_expired } => {
            let incl = match include_expired {
                Some(b) => b,
                None => false,
            };
            match all_nft_info(state, &env, token_id, incl) {
                Ok(x) => Ok(QueryResponse::AllNftInfo(x)),
                Err(e) => Err(e),
            }
        },
        QueryMsg::AllOperators { owner, include_expired, start_after, limit } => {
            let incl = match include_expired {
                Some(b) => b,
                None => false,
            };
            Ok(QueryResponse::Operators(operators(state, &env, owner, incl, start_after, limit)))
        },
        QueryMsg::NumTokens {} => Ok(QueryResponse::NumTokens(num_tokens(state))),
        QueryMsg::AllTokens { start_after, limit } => Ok(
            QueryResponse::Tokens(all_tokens(state, start_after, limit)),
        ),
        QueryMsg::Approval { token_id, spender, include_expired } => {
            let incl = match include_expired {
                Some(b) => b,
                None => false,
            };
            match approval(state, &env, token_id, spender, incl) {
                Ok(x) => Ok(QueryResponse::Approval(x)),
                Err(e) => Err(e),
            }
        },
        QueryMsg::Approvals { token_id, include_expired } => {
            let incl = match include_expired {
                Some(b) => b,
                None => false,
            };
            match approvals(state, &env, token_id, incl) {
                Ok(x) => Ok(QueryResponse::Approvals(x)),
                Err(e) => Err(e),
            }
        },
        QueryMsg::Tokens { owner, start_after, limit } => Ok(
            QueryResponse::Tokens(tokens(state, owner, start_after, limit)),
        ),
        QueryMsg::Extension { msg: _ } => Ok(QueryResponse::Extension(Binary::default())),
    }
}

} // verus!
