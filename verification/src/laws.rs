//! Cross-operation laws of the registry, each proved from the operations'
//! contracts alone: what holds when commands are chained, and what every
//! page of a listing looks like.

use vstd::prelude::*;
use crate::error::ContractError;
use crate::execute::{
    approvals_except,
    approvals_upserted,
    burn_ok,
    lemma_approvals_except_clean,
    lemma_approvals_except_id,
    lemma_approvals_except_push,
    mint_err,
    mint_ok,
};
use crate::expiration::Expiration;
use crate::key_order::{lemma_str_lt_asym, str_lt};
use crate::msg::MintMsg;
use crate::expiration::BlockInfo;
use crate::query::{after_cursor, operator_page, owner_token_page, take_limit, token_page};
use crate::state::{
    Approval,
    OperatorGrant,
    State,
    TokenEntry,
    grant_lt,
    grants_sorted,
    seq_has_grant,
    seq_grant_idx,
    seq_has_token,
    seq_token_idx,
    tokens_sorted,
};

verus! {

/// Minting twice with the same token id fails the second time: after one
/// successful mint the id is live, so no second mint of it can meet the
/// success condition, whoever calls; and when the minter calls, the error
/// prescribed by the mint contract is `Claimed`.
pub proof fn lemma_mint_twice_claimed<T, E>(
    s0: State<T>,
    s1: State<T>,
    sender1: Seq<char>,
    msg1: MintMsg<T>,
    sender2: Seq<char>,
    msg2: MintMsg<T>,
)
    requires
        mint_ok(s0, s1, sender1, msg1),
        msg2.token_id@ == msg1.token_id@,
    ensures
        !(sender2 == s1.minter@ && !s1.has_token(msg2.token_id@)),
        sender2 == s1.minter@ ==> mint_err(s1, sender2, msg2, ContractError::<E>::Claimed {}),
{
}

/// Approving the same spender twice replaces the entry instead of adding
/// one: the second upsert leaves the list length unchanged, and after any
/// upsert the spender appears exactly once, at the end.
pub proof fn lemma_reapprove_same_spender<T>(
    pre: Seq<Approval>,
    mid: Seq<Approval>,
    post: Seq<Approval>,
    spender: Seq<char>,
    exp1: Expiration,
    exp2: Expiration,
)
    requires
        approvals_upserted(pre, mid, spender, exp1),
        approvals_upserted(mid, post, spender, exp2),
    ensures
        post.len() == mid.len(),
        forall|i: int| 0 <= i < mid.len() - 1 ==> (#[trigger] mid[i]).spender@ != spender,
        mid.last().spender@ == spender,
{
    let kept = approvals_except(pre, spender);
    lemma_approvals_except_clean(pre, spender);
    assert(mid =~= kept.push(mid.last()));
    lemma_approvals_except_push(kept, spender, mid.last());
    lemma_approvals_except_id(kept, spender);
    assert(approvals_except(mid, spender) == kept);
}

/// Every id in an owner's token page names a live token of that owner; used
/// by [`lemma_burn_gone_from_pages`] to show a burned id is listed nowhere.
pub proof fn lemma_owner_page_membership<T>(
    tokens: Seq<TokenEntry<T>>,
    owner: Seq<char>,
    start: Option<Seq<char>>,
)
    ensures
        forall|k: int| 0 <= k < owner_token_page(tokens, owner, start).len()
            ==> seq_has_token(tokens, (#[trigger] owner_token_page(tokens, owner, start)[k])@),
    decreases tokens.len(),
{
    if tokens.len() > 0 {
        lemma_owner_page_membership(tokens.drop_last(), owner, start);
        let page = owner_token_page(tokens, owner, start);
        let rest = owner_token_page(tokens.drop_last(), owner, start);
        assert forall|k: int| 0 <= k < page.len() implies seq_has_token(
            tokens,
            (#[trigger] page[k])@,
        ) by {
            if k < rest.len() {
                assert(page[k] == rest[k]);
                let w = seq_token_idx(tokens.drop_last(), rest[k]@);
                assert(tokens.drop_last()[w] == tokens[w]);
                assert(seq_has_token(tokens, rest[k]@));
            } else {
                assert(page[k] == tokens.last().token_id);
                assert(tokens[tokens.len() - 1].token_id@ == page[k]@);
            }
        }
    }
}

/// Every id in the all-tokens page names a live token.
pub proof fn lemma_token_page_membership<T>(tokens: Seq<TokenEntry<T>>, start: Option<Seq<char>>)
    ensures
        forall|k: int| 0 <= k < token_page(tokens, start).len()
            ==> seq_has_token(tokens, (#[trigger] token_page(tokens, start)[k])@),
    decreases tokens.len(),
{
    if tokens.len() > 0 {
        lemma_token_page_membership(tokens.drop_last(), start);
        let page = token_page(tokens, start);
        let rest = token_page(tokens.drop_last(), start);
        assert forall|k: int| 0 <= k < page.len() implies seq_has_token(
            tokens,
            (#[trigger] page[k])@,
        ) by {
            if k < rest.len() {
                assert(page[k] == rest[k]);
                let w = seq_token_idx(tokens.drop_last(), rest[k]@);
                assert(tokens.drop_last()[w] == tokens[w]);
                assert(seq_has_token(tokens, rest[k]@));
            } else {
                assert(page[k] == tokens.last().token_id);
                assert(tokens[tokens.len() - 1].token_id@ == page[k]@);
            }
        }
    }
}

/// A burned token is gone everywhere: it is no longer live, the counter
/// went down by exactly one, and its id shows up neither in the all-tokens
/// listing nor in any owner's listing, whatever cursor is used.
pub proof fn lemma_burn_gone_from_pages<T>(pre: State<T>, post: State<T>, token_id: Seq<char>)
    requires
        burn_ok(pre, post, token_id),
    ensures
        !post.has_token(token_id),
        post.token_count == pre.token_count - 1,
        forall|start: Option<Seq<char>>, k: int|
            0 <= k < token_page(post.tokens@, start).len()
                ==> (#[trigger] token_page(post.tokens@, start)[k])@ != token_id,
        forall|owner: Seq<char>, start: Option<Seq<char>>, k: int|
            0 <= k < owner_token_page(post.tokens@, owner, start).len()
                ==> (#[trigger] owner_token_page(post.tokens@, owner, start)[k])@ != token_id,
{
    assert forall|start: Option<Seq<char>>, k: int|
        0 <= k < token_page(post.tokens@, start).len() implies (#[trigger] token_page(
        post.tokens@,
        start,
    )[k])@ != token_id by {
        lemma_token_page_membership(post.tokens@, start);
    }
    assert forall|owner: Seq<char>, start: Option<Seq<char>>, k: int|
        0 <= k < owner_token_page(post.tokens@, owner, start).len() implies
        (#[trigger] owner_token_page(post.tokens@, owner, start)[k])@ != token_id by {
        lemma_owner_page_membership(post.tokens@, owner, start);
    }
}

/// The ids in the all-tokens page, read off a sorted table, are strictly
/// ascending, all lie strictly after the cursor, and all name live tokens.
pub proof fn lemma_token_page_sorted<T>(tokens: Seq<TokenEntry<T>>, start: Option<Seq<char>>)
    requires
        tokens_sorted(tokens),
    ensures
        forall|k: int, l: int| 0 <= k < l < token_page(tokens, start).len()
            ==> str_lt(
                (#[trigger] token_page(tokens, start)[k])@,
                (#[trigger] token_page(tokens, start)[l])@,
            ),
        forall|k: int| 0 <= k < token_page(tokens, start).len()
            ==> after_cursor((#[trigger] token_page(tokens, start)[k])@, start),
    decreases tokens.len(),
{
    if tokens.len() > 0 {
        assert forall|i: int, j: int| 0 <= i < j < tokens.drop_last().len() implies str_lt(
            #[trigger] tokens.drop_last()[i].token_id@,
            #[trigger] tokens.drop_last()[j].token_id@,
        ) by {
            assert(tokens.drop_last()[i] == tokens[i]);
            assert(tokens.drop_last()[j] == tokens[j]);
        }
        lemma_token_page_sorted(tokens.drop_last(), start);
        lemma_token_page_membership(tokens.drop_last(), start);
        let page = token_page(tokens, start);
        let rest = token_page(tokens.drop_last(), start);
        if page.len() > rest.len() {
            assert forall|k: int| 0 <= k < rest.len() implies str_lt(
                (#[trigger] rest[k])@,
                tokens.last().token_id@,
            ) by {
                let w = seq_token_idx(tokens.drop_last(), rest[k]@);
                assert(tokens.drop_last()[w] == tokens[w]);
                assert(str_lt(tokens[w].token_id@, tokens[tokens.len() - 1].token_id@));
            }
        }
    }
}

/// An operator listing, read off a sorted registry, is strictly ascending
/// by operator, lies strictly after the cursor, and names only grants the
/// owner really gave.
pub proof fn lemma_operator_page_sorted(
    grants: Seq<OperatorGrant>,
    owner: Seq<char>,
    block: BlockInfo,
    include_expired: bool,
    start: Option<Seq<char>>,
)
    requires
        grants_sorted(grants),
    ensures
        forall|k: int, l: int|
            0 <= k < l < operator_page(grants, owner, block, include_expired, start).len()
                ==> str_lt(
                (#[trigger] operator_page(grants, owner, block, include_expired, start)[k]).spender@,
                (#[trigger] operator_page(grants, owner, block, include_expired, start)[l]).spender@,
            ),
        forall|k: int| 0 <= k < operator_page(grants, owner, block, include_expired, start).len()
            ==> after_cursor(
                (#[trigger] operator_page(grants, owner, block, include_expired, start)[k]).spender@,
                start,
            ),
        forall|k: int| 0 <= k < operator_page(grants, owner, block, include_expired, start).len()
            ==> seq_has_grant(
                grants,
                owner,
                (#[trigger] operator_page(grants, owner, block, include_expired, start)[k]).spender@,
            ),
    decreases grants.len(),
{
    if grants.len() > 0 {
        assert forall|i: int, j: int| 0 <= i < j < grants.drop_last().len() implies grant_lt(
            #[trigger] grants.drop_last()[i],
            #[trigger] grants.drop_last()[j],
        ) by {
            assert(grants.drop_last()[i] == grants[i]);
            assert(grants.drop_last()[j] == grants[j]);
        }
        lemma_operator_page_sorted(grants.drop_last(), owner, block, include_expired, start);
        let page = operator_page(grants, owner, block, include_expired, start);
        let rest = operator_page(grants.drop_last(), owner, block, include_expired, start);
        assert forall|k: int| 0 <= k < rest.len() implies seq_has_grant(
            grants,
            owner,
            (#[trigger] rest[k]).spender@,
        ) by {
            let w = seq_grant_idx(grants.drop_last(), owner, rest[k].spender@);
            assert(grants.drop_last()[w] == grants[w]);
            assert(seq_has_grant(grants, owner, rest[k].spender@));
        }
        if page.len() > rest.len() {
            let g = grants.last();
            assert forall|k: int| 0 <= k < rest.len() implies str_lt(
                (#[trigger] rest[k]).spender@,
                g.operator@,
            ) by {
                let w = seq_grant_idx(grants.drop_last(), owner, rest[k].spender@);
                assert(grants.drop_last()[w] == grants[w]);
                assert(grant_lt(grants[w], grants[grants.len() - 1]));
                lemma_str_lt_asym(grants[w].owner@, g.owner@);
            }
        }
    }
}

/// The pagination contract as a whole: a page asked for with cursor `start`
/// and page size `limit` holds at most `limit` ids, each strictly greater
/// than the cursor — so never the cursor itself — and in strictly ascending
/// order.
pub proof fn lemma_pagination<T>(tokens: Seq<TokenEntry<T>>, start: Seq<char>, limit: int)
    requires
        tokens_sorted(tokens),
        limit >= 0,
    ensures
        take_limit(token_page(tokens, Some(start)), limit).len() <= limit,
        forall|k: int| 0 <= k < take_limit(token_page(tokens, Some(start)), limit).len()
            ==> str_lt(start, (#[trigger] take_limit(token_page(tokens, Some(start)), limit)[k])@),
        forall|k: int| 0 <= k < take_limit(token_page(tokens, Some(start)), limit).len()
            ==> (#[trigger] take_limit(token_page(tokens, Some(start)), limit)[k])@ != start,
        forall|k: int, l: int| 0 <= k < l < take_limit(token_page(tokens, Some(start)), limit).len()
            ==> str_lt(
                (#[trigger] take_limit(token_page(tokens, Some(start)), limit)[k])@,
                (#[trigger] take_limit(token_page(tokens, Some(start)), limit)[l])@,
            ),
{
    lemma_token_page_sorted(tokens, Some(start));
    let page = token_page(tokens, Some(start));
    let limited = take_limit(page, limit);
    assert(forall|k: int| 0 <= k < limited.len() ==> limited[k] == page[k]);
    assert forall|k: int| 0 <= k < limited.len() implies (#[trigger] limited[k])@ != start by {
        lemma_str_lt_asym(start, limited[k]@);
    }
}

} // verus!
