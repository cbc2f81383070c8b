//! The commands: mint, approve, revoke, operator grants, transfer, send and
//! burn, together with the authorization engine they consult.
//!
//! Every command is all-or-nothing: the contract of each one states that on
//! any error the ledger is returned exactly as it was.

use vstd::prelude::*;
use crate::error::{ContractError, StdError};
use crate::expiration::{BlockInfo, Env, Expiration, spec_is_expired};
use crate::key_order::{lemma_str_lt_total, lemma_str_lt_trans, str_eq, str_lt};
use crate::msg::{Binary, MessageInfo, MintMsg};
use crate::response::{Cw721ReceiveMsg, OutboundMsg, Response, attr_is};
use crate::state::{
    Approval,
    OperatorGrant,
    State,
    TokenEntry,
    TokenInfo,
    grant_key_before,
    grant_lt,
    grants_sorted,
    lemma_grant_insert_effect,
    lemma_grant_remove_effect,
    lemma_grant_update_effect,
    lemma_sorted_token_idx,
    lemma_token_insert_effect,
    lemma_token_remove_effect,
    lemma_token_update_effect,
};

verus! {

// ---------------------------------------------------------------------------
// The authorization engine.
// ---------------------------------------------------------------------------

/// `a` lets `sender` act right now: it names `sender` and has not expired.
pub open spec fn spec_approval_active(a: Approval, sender: Seq<char>, block: BlockInfo) -> bool {
    a.spender@ == sender && !spec_is_expired(a.expires, block)
}

/// `sender` holds a live operator grant from `owner`.
pub open spec fn spec_operator_active<T>(
    s: State<T>,
    block: BlockInfo,
    owner: Seq<char>,
    sender: Seq<char>,
) -> bool {
    s.has_grant(owner, sender) && !spec_is_expired(s.grant_expires(owner, sender), block)
}

/// Who may approve on a token: its owner, or a live operator of its owner.
pub open spec fn spec_can_approve<T>(
    s: State<T>,
    block: BlockInfo,
    sender: Seq<char>,
    token: TokenInfo<T>,
) -> bool {
    token.owner@ == sender || spec_operator_active(s, block, token.owner@, sender)
}

/// Who may move a token: its owner, a spender with a live approval on it, or
/// a live operator of its owner.
pub open spec fn spec_can_send<T>(
    s: State<T>,
    block: BlockInfo,
    sender: Seq<char>,
    token: TokenInfo<T>,
) -> bool {
    ||| token.owner@ == sender
    ||| exists|i: int|
        0 <= i < token.approvals@.len() && spec_approval_active(
            #[trigger] token.approvals@[i],
            sender,
            block,
        )
    ||| spec_operator_active(s, block, token.owner@, sender)
}

/// Decides whether the caller may approve or revoke on the token.
///
/// The owner always may; otherwise only a live operator of the owner may.
pub fn check_can_approve<T, E>(
    state: &State<T>,
    env: &Env,
    info: &MessageInfo,
    token: &TokenInfo<T>,
) -> (r: Result<(), ContractError<E>>)
    requires
        grants_sorted(state.operators@),
    ensures
        r is Ok <==> spec_can_approve(*state, env.block, info.sender@, *token),
        r is Err ==> r == Err::<(), ContractError<E>>(ContractError::Unauthorized {}),
{
    if str_eq(token.owner.as_str(), info.sender.as_str()) {
        return Ok(());
    }
    match state.find_grant(token.owner.as_str(), info.sender.as_str()) {
        Some(i) => {
            let g = &state.operators[i];
            if g.expires.is_expired(&env.block) {
                Err(ContractError::Unauthorized {})
            } else {
                Ok(())
            }
        },
        None => Err(ContractError::Unauthorized {}),
    }
}

/// Decides whether the caller may transfer, send or burn the token.
///
/// The owner always may; otherwise a spender with a live approval on this
/// token, or a live operator of the owner.
pub fn check_can_send<T, E>(
    state: &State<T>,
    env: &Env,
    info: &MessageInfo,
    token: &TokenInfo<T>,
) -> (r: Result<(), ContractError<E>>)
    requires
        grants_sorted(state.operators@),
    ensures
        r is Ok <==> spec_can_send(*state, env.block, info.sender@, *token),
        r is Err ==> r == Err::<(), ContractError<E>>(ContractError::Unauthorized {}),
{
    if str_eq(token.owner.as_str(), info.sender.as_str()) {
        return Ok(());
    }
    let n = token.approvals.len();
    let mut i: usize = 0;
    while i < n
        invariant
            i <= n,
            n == token.approvals@.len(),
            forall|k: int| 0 <= k < i
                ==> !spec_approval_active(#[trigger] token.approvals@[k], info.sender@, env.block),
        decreases n - i,
    {
        let a = &token.approvals[i];
        if str_eq(a.spender.as_str(), info.sender.as_str()) && !a.is_expired(&env.block) {
            return Ok(());
        }
        i = i + 1;
    }
    match state.find_grant(token.owner.as_str(), info.sender.as_str()) {
        Some(j) => {
            let g = &state.operators[j];
            if g.expires.is_expired(&env.block) {
                Err(ContractError::Unauthorized {})
            } else {
                Ok(())
            }
        },
        None => Err(ContractError::Unauthorized {}),
    }
}

// ---------------------------------------------------------------------------
// Mint.
// ---------------------------------------------------------------------------

/// What a successful mint changes: the fresh token exists with an empty
/// approval list, nothing else moved, and the counter went up by one.
pub open spec fn mint_ok<T>(pre: State<T>, post: State<T>, sender: Seq<char>, msg: MintMsg<T>) -> bool {
    &&& sender == pre.minter@
    &&& !pre.has_token(msg.token_id@)
    &&& post.has_token(msg.token_id@)
    &&& post.token_info(msg.token_id@).owner@ == msg.owner@
    &&& post.token_info(msg.token_id@).approvals@ == Seq::<Approval>::empty()
    &&& post.token_info(msg.token_id@).token_uri == msg.token_uri
    &&& post.token_info(msg.token_id@).extension == msg.extension
    &&& forall|id: Seq<char>| id != msg.token_id@
        ==> #[trigger] post.has_token(id) == pre.has_token(id)
    &&& forall|id: Seq<char>| id != msg.token_id@ && pre.has_token(id)
        ==> #[trigger] post.token_info(id) == pre.token_info(id)
    &&& post.token_count == pre.token_count + 1
    &&& post.operators == pre.operators
    &&& post.minter == pre.minter
    &&& post.contract_info == pre.contract_info
}

/// Which error a failed mint returns: `Unauthorized` for any caller but the
/// minter, else `Claimed` exactly when the id is already live.
pub open spec fn mint_err<T, E>(
    pre: State<T>,
    sender: Seq<char>,
    msg: MintMsg<T>,
    e: ContractError<E>,
) -> bool {
    if sender != pre.minter@ {
        e == ContractError::<E>::Unauthorized {}
    } else {
        pre.has_token(msg.token_id@) && e == ContractError::<E>::Claimed {}
    }
}

/// The attributes a successful mint reports.
pub open spec fn mint_resp<T>(resp: Response, sender: Seq<char>, msg: MintMsg<T>) -> bool {
    &&& resp.attributes@.len() == 4
    &&& attr_is(resp.attributes@[0], "action"@, "mint"@)
    &&& attr_is(resp.attributes@[1], "minter"@, sender)
    &&& attr_is(resp.attributes@[2], "owner"@, msg.owner@)
    &&& attr_is(resp.attributes@[3], "token_id"@, msg.token_id@)
    &&& resp.messages@.len() == 0
}

/// Creates a new token.  Only the minter may mint, and only an id that is
/// not already live.
pub fn mint<T, E>(
    state: &mut State<T>,
    env: &Env,
    info: &MessageInfo,
    msg: MintMsg<T>,
) -> (r: Result<Response, ContractError<E>>)
    requires
        old(state).wf(),
    ensures
        final(state).wf(),
        r is Ok <==> info.sender@ == old(state).minter@ && !old(state).has_token(msg.token_id@),
        match r {
            Ok(resp) => mint_ok(*old(state), *final(state), info.sender@, msg)
                && mint_resp(resp, info.sender@, msg),
            Err(e) => *final(state) == *old(state) && mint_err(*old(state), info.sender@, msg, e),
        },
{
    if !str_eq(info.sender.as_str(), state.get_minter().as_str()) {
        return Err(ContractError::Unauthorized {});
    }

    let n = state.tokens.len();
    let pos = state.token_lower_bound(msg.token_id.as_str());
    if pos < n && str_eq(state.tokens[pos].token_id.as_str(), msg.token_id.as_str()) {
        proof {
            lemma_sorted_token_idx(state.tokens@, msg.token_id@, pos as int);
        }
        return Err(ContractError::Claimed {});
    }

    let token_id_attr = msg.token_id.clone();
    let owner_attr = msg.owner.clone();
    let entry = TokenEntry {
        token_id: msg.token_id,
        info: TokenInfo {
            owner: msg.owner,
            approvals: Vec::new(),
            token_uri: msg.token_uri,
            extension: msg.extension,
        },
    };
    proof {
        assert forall|k: int| pos <= k < state.tokens@.len() implies str_lt(
            entry.token_id@,
            #[trigger] state.tokens@[k].token_id@,
        ) by {
            lemma_str_lt_total(state.tokens@[k].token_id@, entry.token_id@);
            if k > pos && state.tokens@[k].token_id@ == entry.token_id@ {
                lemma_str_lt_trans(
                    state.tokens@[pos as int].token_id@,
                    state.tokens@[k].token_id@,
                    entry.token_id@,
                );
            }
        }
        lemma_token_insert_effect(state.tokens@, pos as int, entry);
    }
    state.tokens.insert(pos, entry);
    let new_len = state.tokens.len();
    assert(state.token_count < u64::MAX) by {
        assert(new_len <= usize::MAX);
    }
    state.increment_tokens();

    Ok(
        Response::new()
            .add_attribute("action", "mint")
            .add_attribute("minter", info.sender.as_str())
            .add_attribute("owner", owner_attr.as_str())
            .add_attribute("token_id", token_id_attr.as_str()),
    )
}

// ---------------------------------------------------------------------------
// Approve and revoke.
// ---------------------------------------------------------------------------

/// The approval list with every entry for `spender` removed, order kept.
pub open spec fn approvals_except(s: Seq<Approval>, spender: Seq<char>) -> Seq<Approval>
    decreases s.len(),
{
    if s.len() == 0 {
        Seq::empty()
    } else if s[0].spender@ == spender {
        approvals_except(s.skip(1), spender)
    } else {
        seq![s[0]] + approvals_except(s.skip(1), spender)
    }
}

/// Nothing for `spender` survives `approvals_except`.
pub proof fn lemma_approvals_except_clean(s: Seq<Approval>, spender: Seq<char>)
    ensures
        forall|i: int| 0 <= i < approvals_except(s, spender).len()
            ==> (#[trigger] approvals_except(s, spender)[i]).spender@ != spender,
    decreases s.len(),
{
    if s.len() > 0 {
        lemma_approvals_except_clean(s.skip(1), spender);
    }
}

/// A list with nothing for `spender` passes `approvals_except` unchanged.
pub proof fn lemma_approvals_except_id(s: Seq<Approval>, spender: Seq<char>)
    requires
        forall|i: int| 0 <= i < s.len() ==> (#[trigger] s[i]).spender@ != spender,
    ensures
        approvals_except(s, spender) == s,
    decreases s.len(),
{
    if s.len() > 0 {
        lemma_approvals_except_id(s.skip(1), spender);
        assert(approvals_except(s, spender) =~= s);
    } else {
        assert(approvals_except(s, spender) =~= s);
    }
}

/// Appending an entry for `spender` changes nothing about `approvals_except`.
pub proof fn lemma_approvals_except_push(s: Seq<Approval>, spender: Seq<char>, a: Approval)
    requires
        a.spender@ == spender,
    ensures
        approvals_except(s.push(a), spender) == approvals_except(s, spender),
    decreases s.len(),
{
    if s.len() == 0 {
        assert(s.push(a)[0] == a);
        assert(s.push(a).skip(1) =~= Seq::<Approval>::empty());
        assert(approvals_except(s.push(a), spender)
            == approvals_except(s.push(a).skip(1), spender));
        assert(approvals_except(s.push(a).skip(1), spender) == Seq::<Approval>::empty());
        assert(approvals_except(s, spender) == Seq::<Approval>::empty());
    } else {
        assert(s.push(a).skip(1) =~= s.skip(1).push(a));
        lemma_approvals_except_push(s.skip(1), spender, a);
        assert(s.push(a)[0] == s[0]);
        assert(approvals_except(s.push(a).skip(1), spender)
            == approvals_except(s.skip(1), spender));
        if s[0].spender@ == spender {
            assert(approvals_except(s.push(a), spender)
                == approvals_except(s.push(a).skip(1), spender));
            assert(approvals_except(s, spender) == approvals_except(s.skip(1), spender));
        } else {
            assert(approvals_except(s.push(a), spender)
                == seq![s.push(a)[0]] + approvals_except(s.push(a).skip(1), spender));
            assert(approvals_except(s, spender)
                == seq![s[0]] + approvals_except(s.skip(1), spender));
        }
    }
}

/// The approval list after an approve: everything for `spender` replaced by
/// one fresh entry at the end, everything else kept in order.
pub open spec fn approvals_upserted(
    pre: Seq<Approval>,
    post: Seq<Approval>,
    spender: Seq<char>,
    exp: Expiration,
) -> bool {
    let kept = approvals_except(pre, spender);
    &&& post.len() == kept.len() + 1
    &&& post.take(kept.len() as int) == kept
    &&& post.last().spender@ == spender
    &&& post.last().expires == exp
}

/// The effective expiration of an approve command: what the caller supplied,
/// or never.
pub open spec fn effective_expiration(expires: Option<Expiration>) -> Expiration {
    match expires {
        Some(e) => e,
        None => Expiration::Never,
    }
}

/// What a successful approve changes on the ledger: only the named token's
/// approval list, as `approvals_upserted` says.
pub open spec fn approve_ok<T>(
    pre: State<T>,
    post: State<T>,
    token_id: Seq<char>,
    spender: Seq<char>,
    exp: Expiration,
) -> bool {
    &&& pre.has_token(token_id)
    &&& post.has_token(token_id)
    &&& approvals_upserted(
        pre.token_info(token_id).approvals@,
        post.token_info(token_id).approvals@,
        spender,
        exp,
    )
    &&& post.token_info(token_id).owner == pre.token_info(token_id).owner
    &&& post.token_info(token_id).token_uri == pre.token_info(token_id).token_uri
    &&& post.token_info(token_id).extension == pre.token_info(token_id).extension
    &&& forall|id: Seq<char>| id != token_id ==> #[trigger] post.has_token(id) == pre.has_token(id)
    &&& forall|id: Seq<char>| id != token_id && pre.has_token(id)
        ==> #[trigger] post.token_info(id) == pre.token_info(id)
    &&& post.token_count == pre.token_count
    &&& post.operators == pre.operators
    &&& post.minter == pre.minter
    &&& post.contract_info == pre.contract_info
}

/// What a successful revoke changes: only the named token's approval list,
/// which drops every entry for `spender` (a no-op if there was none).
pub open spec fn revoke_ok<T>(
    pre: State<T>,
    post: State<T>,
    token_id: Seq<char>,
    spender: Seq<char>,
) -> bool {
    &&& pre.has_token(token_id)
    &&& post.has_token(token_id)
    &&& post.token_info(token_id).approvals@
        == approvals_except(pre.token_info(token_id).approvals@, spender)
    &&& post.token_info(token_id).owner == pre.token_info(token_id).owner
    &&& post.token_info(token_id).token_uri == pre.token_info(token_id).token_uri
    &&& post.token_info(token_id).extension == pre.token_info(token_id).extension
    &&& forall|id: Seq<char>| id != token_id ==> #[trigger] post.has_token(id) == pre.has_token(id)
    &&& forall|id: Seq<char>| id != token_id && pre.has_token(id)
        ==> #[trigger] post.token_info(id) == pre.token_info(id)
    &&& post.token_count == pre.token_count
    &&& post.operators == pre.operators
    &&& post.minter == pre.minter
    &&& post.contract_info == pre.contract_info
}

/// `e` is the generic not-found error for a missing token.
pub open spec fn is_not_found<E>(e: ContractError<E>) -> bool {
    e matches ContractError::Std(StdError::NotFound { kind }) && kind@ == "token"@
}

/// Which error a failed approve or revoke returns: not-found when the token
/// does not exist, else `Unauthorized` when the caller may not approve, else
/// (for an approve) `Expired` exactly when the supplied expiration has
/// already passed.
pub open spec fn update_approvals_err<T, E>(
    pre: State<T>,
    block: BlockInfo,
    sender: Seq<char>,
    token_id: Seq<char>,
    add: bool,
    exp: Expiration,
    e: ContractError<E>,
) -> bool {
    if !pre.has_token(token_id) {
        is_not_found(e)
    } else if !spec_can_approve(pre, block, sender, pre.token_info(token_id)) {
        e == ContractError::<E>::Unauthorized {}
    } else {
        add && spec_is_expired(exp, block) && e == ContractError::<E>::Expired {}
    }
}

/// Rebuilds an approval list without `spender`, keeping order.
fn filter_out_spender(approvals: Vec<Approval>, spender: &str) -> (r: Vec<Approval>)
    ensures
        r@ == approvals_except(approvals@, spender@),
{
    let mut rest = approvals;
    let mut kept: Vec<Approval> = Vec::new();
    proof {
        assert(kept@ + approvals_except(rest@, spender@)
            =~= approvals_except(approvals@, spender@));
    }
    loop
        invariant
            kept@ + approvals_except(rest@, spender@) == approvals_except(approvals@, spender@),
        ensures
            rest@.len() == 0,
            kept@ + approvals_except(rest@, spender@) == approvals_except(approvals@, spender@),
        decreases rest@.len(),
    {
        if rest.len() == 0 {
            break;
        }
        let ghost rest0 = rest@;
        let a = rest.remove(0);
        proof {
            assert(rest@ =~= rest0.skip(1));
            assert(a == rest0[0]);
        }
        if !str_eq(a.spender.as_str(), spender) {
            let ghost kept0 = kept@;
            kept.push(a);
            proof {
                assert(kept@ + approvals_except(rest@, spender@)
                    =~= kept0 + approvals_except(rest0, spender@));
            }
        }
    }
    proof {
        assert(approvals_except(rest@, spender@) =~= Seq::<Approval>::empty());
        assert(kept@ =~= approvals_except(approvals@, spender@));
    }
    kept
}

/// The shared body of approve and revoke: loads the token, requires
/// can-approve, drops any existing approval for `spender`, and, for an
/// approve, adds the fresh one unless it is already expired.
pub fn _update_approvals<T, E>(
    state: &mut State<T>,
    env: &Env,
    info: &MessageInfo,
    spender: &str,
    token_id: &str,
    add: bool,
    expires: Option<Expiration>,
) -> (r: Result<(), ContractError<E>>)
    requires
        old(state).wf(),
    ensures
        final(state).wf(),
        r is Ok <==> {
            &&& old(state).has_token(token_id@)
            &&& spec_can_approve(
                *old(state),
                env.block,
                info.sender@,
                old(state).token_info(token_id@),
            )
            &&& (add ==> !spec_is_expired(effective_expiration(expires), env.block))
        },
        match r {
            Ok(_) => if add {
                approve_ok(
                    *old(state),
                    *final(state),
                    token_id@,
                    spender@,
                    effective_expiration(expires),
                )
            } else {
                revoke_ok(*old(state), *final(state), token_id@, spender@)
            },
            Err(e) => *final(state) == *old(state) && update_approvals_err(
                *old(state),
                env.block,
                info.sender@,
                token_id@,
                add,
                effective_expiration(expires),
                e,
            ),
        },
{
    let idx = match state.find_token(token_id) {
        Some(i) => i,
        None => {
            return Err(ContractError::Std(StdError::NotFound { kind: "token".to_owned() }));
        },
    };
    match check_can_approve(state, env, info, &state.tokens[idx].info) {
        Ok(_) => {},
        Err(e) => {
            return Err(e);
        },
    }
    let exp = match expires {
        Some(e) => e,
        None => Expiration::Never,
    };
    if add && exp.is_expired(&env.block) {
        return Err(ContractError::Expired {});
    }

    let ghost pre_tokens = state.tokens@;
    let entry = state.tokens.remove(idx);
    let TokenEntry { token_id: tid, info } = entry;
    let TokenInfo { owner, approvals, token_uri, extension } = info;
    let mut new_approvals = filter_out_spender(approvals, spender);
    if add {
        new_approvals.push(Approval { spender: spender.to_owned(), expires: exp });
    }
    let new_entry = TokenEntry {
        token_id: tid,
        info: TokenInfo { owner, approvals: new_approvals, token_uri, extension },
    };
    proof {
        assert(pre_tokens.remove(idx as int).insert(idx as int, new_entry)
            =~= pre_tokens.update(idx as int, new_entry));
        lemma_token_update_effect(pre_tokens, idx as int, new_entry);
        if add {
            let kept = approvals_except(pre_tokens[idx as int].info.approvals@, spender@);
            assert(new_entry.info.approvals@.take(kept.len() as int) =~= kept);
        }
    }
    state.tokens.insert(idx, new_entry);
    Ok(())
}

/// The attributes a successful approve or revoke reports.
pub open spec fn approval_action_resp(
    resp: Response,
    action: Seq<char>,
    sender: Seq<char>,
    spender: Seq<char>,
    token_id: Seq<char>,
) -> bool {
    &&& resp.attributes@.len() == 4
    &&& attr_is(resp.attributes@[0], "action"@, action)
    &&& attr_is(resp.attributes@[1], "sender"@, sender)
    &&& attr_is(resp.attributes@[2], "spender"@, spender)
    &&& attr_is(resp.attributes@[3], "token_id"@, token_id)
    &&& resp.messages@.len() == 0
}

/// Grants `spender` a per-token approval; the owner or a live operator of
/// the owner may do this, with an expiration that has not already passed.
pub fn approve<T, E>(
    state: &mut State<T>,
    env: &Env,
    info: &MessageInfo,
    spender: String,
    token_id: String,
    expires: Option<Expiration>,
) -> (r: Result<Response, ContractError<E>>)
    requires
        old(state).wf(),
    ensures
        final(state).wf(),
        r is Ok <==> {
            &&& old(state).has_token(token_id@)
            &&& spec_can_approve(
                *old(state),
                env.block,
                info.sender@,
                old(state).token_info(token_id@),
            )
            &&& !spec_is_expired(effective_expiration(expires), env.block)
        },
        match r {
            Ok(resp) => approve_ok(
                *old(state),
                *final(state),
                token_id@,
                spender@,
                effective_expiration(expires),
            ) && approval_action_resp(resp, "approve"@, info.sender@, spender@, token_id@),
            Err(e) => *final(state) == *old(state) && update_approvals_err(
                *old(state),
                env.block,
                info.sender@,
                token_id@,
                true,
                effective_expiration(expires),
                e,
            ),
        },
{
    match _update_approvals(state, env, info, spender.as_str(), token_id.as_str(), true, expires) {
        Ok(_) => {},
        Err(e) => {
            return Err(e);
        },
    }
    Ok(
        Response::new()
            .add_attribute("action", "approve")
            .add_attribute("sender", info.sender.as_str())
            .add_attribute("spender", spender.as_str())
            .add_attribute("token_id", token_id.as_str()),
    )
}

/// Withdraws `spender`'s per-token approval; a no-op if none exists.
pub fn revoke<T, E>(
    state: &mut State<T>,
    env: &Env,
    info: &MessageInfo,
    spender: String,
    token_id: String,
) -> (r: Result<Response, ContractError<E>>)
    requires
        old(state).wf(),
    ensures
        final(state).wf(),
        r is Ok <==> old(state).has_token(token_id@) && spec_can_approve(
            *old(state),
            env.block,
            info.sender@,
            old(state).token_info(token_id@),
        ),
        match r {
            Ok(resp) => revoke_ok(*old(state), *final(state), token_id@, spender@)
                && approval_action_resp(resp, "revoke"@, info.sender@, spender@, token_id@),
            Err(e) => *final(state) == *old(state) && update_approvals_err(
                *old(state),
                env.block,
                info.sender@,
                token_id@,
                false,
                Expiration::Never,
                e,
            ),
        },
{
    match _update_approvals(state, env, info, spender.as_str(), token_id.as_str(), false, None) {
        Ok(_) => {},
        Err(e) => {
            return Err(e);
        },
    }
    Ok(
        Response::new()
            .add_attribute("action", "revoke")
            .add_attribute("sender", info.sender.as_str())
            .add_attribute("spender", spender.as_str())
            .add_attribute("token_id", token_id.as_str()),
    )
}

// ---------------------------------------------------------------------------
// Operator grants.
// ---------------------------------------------------------------------------

/// What a successful approve-all changes: exactly the caller's grant to
/// `operator`, created or overwritten with `exp`.
pub open spec fn approve_all_ok<T>(
    pre: State<T>,
    post: State<T>,
    sender: Seq<char>,
    operator: Seq<char>,
    exp: Expiration,
) -> bool {
    &&& post.has_grant(sender, operator)
    &&& post.grant_expires(sender, operator) == exp
    &&& forall|o: Seq<char>, p: Seq<char>| o != sender || p != operator
        ==> #[trigger] post.has_grant(o, p) == pre.has_grant(o, p)
    &&& forall|o: Seq<char>, p: Seq<char>| (o != sender || p != operator) && pre.has_grant(o, p)
        ==> #[trigger] post.grant_expires(o, p) == pre.grant_expires(o, p)
    &&& post.tokens == pre.tokens
    &&& post.token_count == pre.token_count
    &&& post.minter == pre.minter
    &&& post.contract_info == pre.contract_info
}

/// What a successful revoke-all changes: the caller's grant to `operator` is
/// gone (a no-op if there was none).
pub open spec fn revoke_all_ok<T>(
    pre: State<T>,
    post: State<T>,
    sender: Seq<char>,
    operator: Seq<char>,
) -> bool {
    &&& !post.has_grant(sender, operator)
    &&& forall|o: Seq<char>, p: Seq<char>| o != sender || p != operator
        ==> #[trigger] post.has_grant(o, p) == pre.has_grant(o, p)
    &&& forall|o: Seq<char>, p: Seq<char>| (o != sender || p != operator) && pre.has_grant(o, p)
        ==> #[trigger] post.grant_expires(o, p) == pre.grant_expires(o, p)
    &&& post.tokens == pre.tokens
    &&& post.token_count == pre.token_count
    &&& post.minter == pre.minter
    &&& post.contract_info == pre.contract_info
}

/// The attributes a successful operator command reports.
pub open spec fn operator_action_resp(
    resp: Response,
    action: Seq<char>,
    sender: Seq<char>,
    operator: Seq<char>,
) -> bool {
    &&& resp.attributes@.len() == 3
    &&& attr_is(resp.attributes@[0], "action"@, action)
    &&& attr_is(resp.attributes@[1], "sender"@, sender)
    &&& attr_is(resp.attributes@[2], "operator"@, operator)
    &&& resp.messages@.len() == 0
}

/// Grants `operator` a blanket approval over every token the caller owns,
/// with an expiration that has not already passed.
pub fn approve_all<T, E>(
    state: &mut State<T>,
    env: &Env,
    info: &MessageInfo,
    operator: String,
    expires: Option<Expiration>,
) -> (r: Result<Response, ContractError<E>>)
    requires
        old(state).wf(),
    ensures
        final(state).wf(),
        r is Ok <==> !spec_is_expired(effective_expiration(expires), env.block),
        match r {
            Ok(resp) => approve_all_ok(
                *old(state),
                *final(state),
                info.sender@,
                operator@,
                effective_expiration(expires),
            ) && operator_action_resp(resp, "approve_all"@, info.sender@, operator@),
            Err(e) => *final(state) == *old(state) && e == ContractError::<E>::Expired {},
        },
{
    let exp = match expires {
        Some(e) => e,
        None => Expiration::Never,
    };
    if exp.is_expired(&env.block) {
        return Err(ContractError::Expired {});
    }

    let n = state.operators.len();
    let pos = state.grant_lower_bound(info.sender.as_str(), operator.as_str());
    let g = OperatorGrant {
        owner: info.sender.clone(),
        operator: operator.clone(),
        expires: exp,
    };
    let ghost pre_ops = state.operators@;
    if pos < n && str_eq(state.operators[pos].owner.as_str(), info.sender.as_str())
        && str_eq(state.operators[pos].operator.as_str(), operator.as_str()) {
        proof {
            assert(pre_ops.remove(pos as int).insert(pos as int, g)
                =~= pre_ops.update(pos as int, g));
            lemma_grant_update_effect(pre_ops, pos as int, g);
        }
        state.operators.remove(pos);
        state.operators.insert(pos, g);
    } else {
        proof {
            assert forall|k: int| pos <= k < pre_ops.len() implies grant_lt(
                g,
                #[trigger] pre_ops[k],
            ) by {
                let h = pre_ops[k];
                assert(!grant_key_before(h, info.sender@, operator@));
                lemma_str_lt_total(g.owner@, h.owner@);
                if h.owner@ == g.owner@ {
                    lemma_str_lt_total(g.operator@, h.operator@);
                    if h.operator@ == g.operator@ {
                        if k > pos {
                            assert(grant_lt(pre_ops[pos as int], h));
                            assert(grant_key_before(pre_ops[pos as int], info.sender@, operator@));
                        }
                        assert(false);
                    }
                }
            }
            lemma_grant_insert_effect(pre_ops, pos as int, g);
        }
        state.operators.insert(pos, g);
    }

    Ok(
        Response::new()
            .add_attribute("action", "approve_all")
            .add_attribute("sender", info.sender.as_str())
            .add_attribute("operator", operator.as_str()),
    )
}

/// Withdraws the caller's blanket grant to `operator`; a no-op if none
/// exists.
pub fn revoke_all<T, E>(
    state: &mut State<T>,
    env: &Env,
    info: &MessageInfo,
    operator: String,
) -> (r: Result<Response, ContractError<E>>)
    requires
        old(state).wf(),
    ensures
        final(state).wf(),
        match r {
            Ok(resp) => revoke_all_ok(*old(state), *final(state), info.sender@, operator@)
                && operator_action_resp(resp, "revoke_all"@, info.sender@, operator@),
            Err(_) => false,
        },
{
    match state.find_grant(info.sender.as_str(), operator.as_str()) {
        Some(i) => {
            proof {
                lemma_grant_remove_effect(state.operators@, i as int);
            }
            state.operators.remove(i);
        },
        None => {},
    }

    Ok(
        Response::new()
            .add_attribute("action", "revoke_all")
            .add_attribute("sender", info.sender.as_str())
            .add_attribute("operator", operator.as_str()),
    )
}

// ---------------------------------------------------------------------------
// Transfer, send and burn.
// ---------------------------------------------------------------------------

/// What a successful transfer changes: the named token belongs to
/// `recipient` and its approval list is empty, whatever it held before;
/// nothing else moved.
pub open spec fn transfer_ok<T>(
    pre: State<T>,
    post: State<T>,
    token_id: Seq<char>,
    recipient: Seq<char>,
) -> bool {
    &&& pre.has_token(token_id)
    &&& post.has_token(token_id)
    &&& post.token_info(token_id).owner@ == recipient
    &&& post.token_info(token_id).approvals@ == Seq::<Approval>::empty()
    &&& post.token_info(token_id).token_uri == pre.token_info(token_id).token_uri
    &&& post.token_info(token_id).extension == pre.token_info(token_id).extension
    &&& forall|id: Seq<char>| id != token_id ==> #[trigger] post.has_token(id) == pre.has_token(id)
    &&& forall|id: Seq<char>| id != token_id && pre.has_token(id)
        ==> #[trigger] post.token_info(id) == pre.token_info(id)
    &&& post.token_count == pre.token_count
    &&& post.operators == pre.operators
    &&& post.minter == pre.minter
    &&& post.contract_info == pre.contract_info
}

/// Which error a failed transfer, send or burn returns: not-found when the
/// token does not exist, else `Unauthorized` when the caller may not move
/// it.
pub open spec fn send_auth_err<T, E>(
    pre: State<T>,
    block: BlockInfo,
    sender: Seq<char>,
    token_id: Seq<char>,
    e: ContractError<E>,
) -> bool {
    if !pre.has_token(token_id) {
        is_not_found(e)
    } else {
        !spec_can_send(pre, block, sender, pre.token_info(token_id))
            && e == ContractError::<E>::Unauthorized {}
    }
}

/// The shared body of transfer and send: loads the token, requires
/// can-send, then hands the token to `recipient` and clears its approvals.
pub fn _transfer_nft<T, E>(
    state: &mut State<T>,
    env: &Env,
    info: &MessageInfo,
    recipient: &str,
    token_id: &str,
) -> (r: Result<(), ContractError<E>>)
    requires
        old(state).wf(),
    ensures
        final(state).wf(),
        r is Ok <==> old(state).has_token(token_id@) && spec_can_send(
            *old(state),
            env.block,
            info.sender@,
            old(state).token_info(token_id@),
        ),
        match r {
            Ok(_) => transfer_ok(*old(state), *final(state), token_id@, recipient@),
            Err(e) => *final(state) == *old(state) && send_auth_err(
                *old(state),
                env.block,
                info.sender@,
                token_id@,
                e,
            ),
        },
{
    let idx = match state.find_token(token_id) {
        Some(i) => i,
        None => {
            return Err(ContractError::Std(StdError::NotFound { kind: "token".to_owned() }));
        },
    };
    match check_can_send(state, env, info, &state.tokens[idx].info) {
        Ok(_) => {},
        Err(e) => {
            return Err(e);
        },
    }

    let ghost pre_tokens = state.tokens@;
    let entry = state.tokens.remove(idx);
    let TokenEntry { token_id: tid, info: old_info } = entry;
    let TokenInfo { owner: _, approvals: _, token_uri, extension } = old_info;
    let new_entry = TokenEntry {
        token_id: tid,
        info: TokenInfo {
            owner: recipient.to_owned(),
            approvals: Vec::new(),
            token_uri,
            extension,
        },
    };
    proof {
        assert(pre_tokens.remove(idx as int).insert(idx as int, new_entry)
            =~= pre_tokens.update(idx as int, new_entry));
        lemma_token_update_effect(pre_tokens, idx as int, new_entry);
    }
    state.tokens.insert(idx, new_entry);
    Ok(())
}

/// The attributes a successful transfer or send reports.
pub open spec fn transfer_action_resp(
    resp: Response,
    action: Seq<char>,
    sender: Seq<char>,
    recipient: Seq<char>,
    token_id: Seq<char>,
) -> bool {
    &&& resp.attributes@.len() == 4
    &&& attr_is(resp.attributes@[0], "action"@, action)
    &&& attr_is(resp.attributes@[1], "sender"@, sender)
    &&& attr_is(resp.attributes@[2], "recipient"@, recipient)
    &&& attr_is(resp.attributes@[3], "token_id"@, token_id)
}

/// Moves a token to `recipient`; the owner, an approved spender or a live
/// operator may do this.  Delegated authority never survives the move: the
/// approval list comes out empty.
pub fn transfer_nft<T, E>(
    state: &mut State<T>,
    env: &Env,
    info: &MessageInfo,
    recipient: String,
    token_id: String,
) -> (r: Result<Response, ContractError<E>>)
    requires
        old(state).wf(),
    ensures
        final(state).wf(),
        r is Ok <==> old(state).has_token(token_id@) && spec_can_send(
            *old(state),
            env.block,
            info.sender@,
            old(state).token_info(token_id@),
        ),
        match r {
            Ok(resp) => transfer_ok(*old(state), *final(state), token_id@, recipient@)
                && transfer_action_resp(resp, "transfer_nft"@, info.sender@, recipient@, token_id@)
                && resp.messages@.len() == 0,
            Err(e) => *final(state) == *old(state) && send_auth_err(
                *old(state),
                env.block,
                info.sender@,
                token_id@,
                e,
            ),
        },
{
    match _transfer_nft(state, env, info, recipient.as_str(), token_id.as_str()) {
        Ok(_) => {},
        Err(e) => {
            return Err(e);
        },
    }
    Ok(
        Response::new()
            .add_attribute("action", "transfer_nft")
            .add_attribute("sender", info.sender.as_str())
            .add_attribute("recipient", recipient.as_str())
            .add_attribute("token_id", token_id.as_str()),
    )
}

/// Moves a token to the contract `contract` and notifies it: same ledger
/// change as a transfer, plus one outbound receive message carrying the
/// caller, the token id and the caller-supplied payload.
pub fn send_nft<T, E>(
    state: &mut State<T>,
    env: &Env,
    info: &MessageInfo,
    contract: String,
    token_id: String,
    msg: Binary,
) -> (r: Result<Response, ContractError<E>>)
    requires
        old(state).wf(),
    ensures
        final(state).wf(),
        r is Ok <==> old(state).has_token(token_id@) && spec_can_send(
            *old(state),
            env.block,
            info.sender@,
            old(state).token_info(token_id@),
        ),
        match r {
            Ok(resp) => {
                &&& transfer_ok(*old(state), *final(state), token_id@, contract@)
                &&& transfer_action_resp(resp, "send_nft"@, info.sender@, contract@, token_id@)
                &&& resp.messages@.len() == 1
                &&& resp.messages@[0].contract@ == contract@
                &&& resp.messages@[0].msg.sender@ == info.sender@
                &&& resp.messages@[0].msg.token_id@ == token_id@
                &&& resp.messages@[0].msg.msg == msg
            },
            Err(e) => *final(state) == *old(state) && send_auth_err(
                *old(state),
                env.block,
                info.sender@,
                token_id@,
                e,
            ),
        },
{
    match _transfer_nft(state, env, info, contract.as_str(), token_id.as_str()) {
        Ok(_) => {},
        Err(e) => {
            return Err(e);
        },
    }

    let send = Cw721ReceiveMsg {
        sender: info.sender.clone(),
        token_id: token_id.clone(),
        msg,
    };
    Ok(
        Response::new()
            .add_message(OutboundMsg { contract: contract.clone(), msg: send })
            .add_attribute("action", "send_nft")
            .add_attribute("sender", info.sender.as_str())
            .add_attribute("recipient", contract.as_str())
            .add_attribute("token_id", token_id.as_str()),
    )
}

/// What a successful burn changes: the named token is gone from the table
/// (and with it from the derived owner index), and the counter went down by
/// one; nothing else moved.
pub open spec fn burn_ok<T>(pre: State<T>, post: State<T>, token_id: Seq<char>) -> bool {
    &&& pre.has_token(token_id)
    &&& !post.has_token(token_id)
    &&& forall|id: Seq<char>| id != token_id ==> #[trigger] post.has_token(id) == pre.has_token(id)
    &&& forall|id: Seq<char>| id != token_id && pre.has_token(id)
        ==> #[trigger] post.token_info(id) == pre.token_info(id)
    &&& post.token_count == pre.token_count - 1
    &&& post.operators == pre.operators
    &&& post.minter == pre.minter
    &&& post.contract_info == pre.contract_info
}

/// The attributes a successful burn reports.
pub open spec fn burn_resp(resp: Response, sender: Seq<char>, token_id: Seq<char>) -> bool {
    &&& resp.attributes@.len() == 3
    &&& attr_is(resp.attributes@[0], "action"@, "burn"@)
    &&& attr_is(resp.attributes@[1], "sender"@, sender)
    &&& attr_is(resp.attributes@[2], "token_id"@, token_id)
    &&& resp.messages@.len() == 0
}

/// Destroys a token; the owner, an approved spender or a live operator may
/// do this.
pub fn burn<T, E>(
    state: &mut State<T>,
    env: &Env,
    info: &MessageInfo,
    token_id: String,
) -> (r: Result<Response, ContractError<E>>)
    requires
        old(state).wf(),
    ensures
        final(state).wf(),
        r is Ok <==> old(state).has_token(token_id@) && spec_can_send(
            *old(state),
            env.block,
            info.sender@,
            old(state).token_info(token_id@),
        ),
        match r {
            Ok(resp) => burn_ok(*old(state), *final(state), token_id@)
                && burn_resp(resp, info.sender@, token_id@),
            Err(e) => *final(state) == *old(state) && send_auth_err(
                *old(state),
                env.block,
                info.sender@,
                token_id@,
                e,
            ),
        },
{
    let idx = match state.find_token(token_id.as_str()) {
        Some(i) => i,
        None => {
            return Err(ContractError::Std(StdError::NotFound { kind: "token".to_owned() }));
        },
    };
    match check_can_send(state, env, info, &state.tokens[idx].info) {
        Ok(_) => {},
        Err(e) => {
            return Err(e);
        },
    }

    proof {
        lemma_token_remove_effect(state.tokens@, idx as int);
    }
    state.tokens.remove(idx);
    state.decrement_tokens();

    Ok(
        Response::new()
            .add_attribute("action", "burn")
            .add_attribute("sender", info.sender.as_str())
            .add_attribute("token_id", token_id.as_str()),
    )
}

} // verus!
