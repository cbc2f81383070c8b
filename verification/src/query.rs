//! The read-only projections over the ledger: by-id lookups and the
//! paginated listings.
//!
//! No query needs authorization: ownership and approval data is public.
//! Expired approvals and grants are filtered at read time unless the caller
//! asks for them; they are never deleted.

use vstd::prelude::*;
use vstd::pervasive::cloned;
use crate::error::StdError;
use crate::expiration::{BlockInfo, Env, Expiration, spec_is_expired};
use crate::key_order::{str_eq, str_less, str_lt};
use crate::msg::{
    AllNftInfoResponse,
    ApprovalResponse,
    ApprovalsResponse,
    ContractInfoResponse,
    MinterResponse,
    NftInfoResponse,
    NumTokensResponse,
    OperatorsResponse,
    OwnerOfResponse,
    TokensResponse,
};
use crate::state::{Approval, OperatorGrant, State, TokenEntry, TokenInfo};

verus! {

/// `e` is the generic not-found error for a missing token.
pub open spec fn token_not_found(e: StdError) -> bool {
    e matches StdError::NotFound { kind } && kind@ == "token"@
}

/// Page size used when the caller names none.
pub const DEFAULT_LIMIT: u32 = 10;

/// Smallest page size: a page always carries at least one key when one is
/// available.
pub const MIN_LIMIT: u32 = 1;

/// Largest page size a caller can ask for.
pub const MAX_LIMIT: u32 = 100;

/// The page size actually used: the caller's wish, defaulted to 10 and
/// clamped to the range from 1 to 100.
pub open spec fn spec_limit(limit: Option<u32>) -> int {
    let l: int = match limit {
        Some(l) => l as int,
        None => 10,
    };
    if l < 1 {
        1
    } else if l > 100 {
        100
    } else {
        l
    }
}

/// At most the first `l` elements of `s`.
pub open spec fn take_limit<A>(s: Seq<A>, l: int) -> Seq<A> {
    if s.len() <= l {
        s
    } else {
        s.take(l)
    }
}

/// The view of an optional cursor.
pub open spec fn opt_view(o: Option<String>) -> Option<Seq<char>> {
    match o {
        Some(s) => Some(s@),
        None => None,
    }
}

/// `key` lies strictly after the cursor (or there is no cursor).
pub open spec fn after_cursor(key: Seq<char>, start: Option<Seq<char>>) -> bool {
    match start {
        Some(st) => str_lt(st, key),
        None => true,
    }
}

fn clamp_limit(limit: Option<u32>) -> (r: usize)
    ensures
        r as int == spec_limit(limit),
{
    let l = match limit {
        Some(l) => l,
        None => DEFAULT_LIMIT,
    };
    let l = if l < MIN_LIMIT {
        MIN_LIMIT
    } else if l > MAX_LIMIT {
        MAX_LIMIT
    } else {
        l
    };
    l as usize
}

// ---------------------------------------------------------------------------
// Singleton reads.
// ---------------------------------------------------------------------------

/// Who may mint.
pub fn minter<T>(state: &State<T>) -> (r: MinterResponse)
    ensures
        r.minter == state.minter,
{
    MinterResponse { minter: state.get_minter().clone() }
}

/// Name and symbol of the collection.
pub fn contract_info<T>(state: &State<T>) -> (r: ContractInfoResponse)
    ensures
        r == state.contract_info,
{
    ContractInfoResponse {
        name: state.contract_info.name.clone(),
        symbol: state.contract_info.symbol.clone(),
    }
}

/// How many tokens are live.
pub fn num_tokens<T>(state: &State<T>) -> (r: NumTokensResponse)
    ensures
        r.count == state.token_count,
{
    NumTokensResponse { count: state.token_count() }
}

// ---------------------------------------------------------------------------
// By-id lookups.
// ---------------------------------------------------------------------------

/// Metadata of one token; fails not-found if it does not exist.
pub fn nft_info<T: Clone>(state: &State<T>, token_id: String) -> (r: Result<
    NftInfoResponse<T>,
    StdError,
>)
    requires
        state.wf(),
    ensures
        r is Ok <==> state.has_token(token_id@),
        match r {
            Ok(resp) => {
                &&& resp.token_uri == state.token_info(token_id@).token_uri
                &&& cloned::<T>(state.token_info(token_id@).extension, resp.extension)
            },
            Err(e) => token_not_found(e),
        },
{
    let info = match state.get_token(token_id.as_str()) {
        Some(info) => info,
        None => {
            return Err(StdError::NotFound { kind: "token".to_owned() });
        },
    };
    let token_uri = match &info.token_uri {
        Some(u) => Some(u.clone()),
        None => None,
    };
    Ok(NftInfoResponse { token_uri, extension: info.extension.clone() })
}

/// The approvals of `info`, filtered to the live ones unless expired ones
/// were asked for, in stored order.
pub open spec fn humanized(
    aprs: Seq<Approval>,
    block: BlockInfo,
    include_expired: bool,
) -> Seq<crate::msg::Approval>
    decreases aprs.len(),
{
    if aprs.len() == 0 {
        Seq::empty()
    } else {
        let rest = humanized(aprs.drop_last(), block, include_expired);
        let a = aprs.last();
        if include_expired || !spec_is_expired(a.expires, block) {
            rest.push(crate::msg::Approval { spender: a.spender, expires: a.expires })
        } else {
            rest
        }
    }
}

/// Converts one stored approval to its reported shape.
pub fn humanize_approval(approval: &Approval) -> (r: crate::msg::Approval)
    ensures
        r.spender == approval.spender,
        r.expires == approval.expires,
{
    crate::msg::Approval { spender: approval.spender.clone(), expires: approval.expires }
}

/// Reports a token's approvals, filtered to the live ones unless expired
/// ones were asked for.
pub fn humanize_approvals<T>(
    block: &BlockInfo,
    info: &TokenInfo<T>,
    include_expired: bool,
) -> (r: Vec<crate::msg::Approval>)
    ensures
        r@ == humanized(info.approvals@, *block, include_expired),
{
    let n = info.approvals.len();
    let mut out: Vec<crate::msg::Approval> = Vec::new();
    proof {
        assert(info.approvals@.take(0) =~= Seq::<Approval>::empty());
    }
    let mut i: usize = 0;
    while i < n
        invariant
            i <= n,
            n == info.approvals@.len(),
            out@ == humanized(info.approvals@.take(i as int), *block, include_expired),
        decreases n - i,
    {
        let a = &info.approvals[i];
        proof {
            assert(info.approvals@.take(i + 1int).drop_last() =~= info.approvals@.take(i as int));
            assert(info.approvals@.take(i + 1int).last() == info.approvals@[i as int]);
        }
        if include_expired || !a.is_expired(block) {
            out.push(humanize_approval(a));
        }
        i = i + 1;
    }
    proof {
        assert(info.approvals@.take(n as int) =~= info.approvals@);
    }
    out
}

/// Owner and approvals of one token; fails not-found if it does not exist.
pub fn owner_of<T>(
    state: &State<T>,
    env: &Env,
    token_id: String,
    include_expired: bool,
) -> (r: Result<OwnerOfResponse, StdError>)
    requires
        state.wf(),
    ensures
        r is Ok <==> state.has_token(token_id@),
        match r {
            Ok(resp) => {
                &&& resp.owner == state.token_info(token_id@).owner
                &&& resp.approvals@ == humanized(
                    state.token_info(token_id@).approvals@,
                    env.block,
                    include_expired,
                )
            },
            Err(e) => token_not_found(e),
        },
{
    let info = match state.get_token(token_id.as_str()) {
        Some(info) => info,
        None => {
            return Err(StdError::NotFound { kind: "token".to_owned() });
        },
    };
    Ok(OwnerOfResponse {
        owner: info.owner.clone(),
        approvals: humanize_approvals(&env.block, info, include_expired),
    })
}

/// Owner, approvals and metadata of one token in one answer; fails
/// not-found if it does not exist.
pub fn all_nft_info<T: Clone>(
    state: &State<T>,
    env: &Env,
    token_id: String,
    include_expired: bool,
) -> (r: Result<AllNftInfoResponse<T>, StdError>)
    requires
        state.wf(),
    ensures
        r is Ok <==> state.has_token(token_id@),
        match r {
            Ok(resp) => {
                &&& resp.access.owner == state.token_info(token_id@).owner
                &&& resp.access.approvals@ == humanized(
                    state.token_info(token_id@).approvals@,
                    env.block,
                    include_expired,
                )
                &&& resp.info.token_uri == state.token_info(token_id@).token_uri
                &&& cloned::<T>(state.token_info(token_id@).extension, resp.info.extension)
            },
            Err(e) => token_not_found(e),
        },
{
    let info = match state.get_token(token_id.as_str()) {
        Some(info) => info,
        None => {
            return Err(StdError::NotFound { kind: "token".to_owned() });
        },
    };
    let token_uri = match &info.token_uri {
        Some(u) => Some(u.clone()),
        None => None,
    };
    Ok(AllNftInfoResponse {
        access: OwnerOfResponse {
            owner: info.owner.clone(),
            approvals: humanize_approvals(&env.block, info, include_expired),
        },
        info: NftInfoResponse { token_uri, extension: info.extension.clone() },
    })
}

/// The approvals of a token that name `spender` and pass the expiry filter,
/// in stored order.
pub open spec fn matching_approvals(
    aprs: Seq<Approval>,
    spender: Seq<char>,
    block: BlockInfo,
    include_expired: bool,
) -> Seq<crate::msg::Approval>
    decreases aprs.len(),
{
    if aprs.len() == 0 {
        Seq::empty()
    } else {
        let rest = matching_approvals(aprs.drop_last(), spender, block, include_expired);
        let a = aprs.last();
        if a.spender@ == spender && (include_expired || !spec_is_expired(a.expires, block)) {
            rest.push(crate::msg::Approval { spender: a.spender, expires: a.expires })
        } else {
            rest
        }
    }
}

/// One spender's approval on one token.  The owner counts as holding an
/// implicit approval on their own token that never expires; any other
/// spender must hold a matching entry that passes the expiry filter, or the
/// lookup fails not-found.
pub fn approval<T>(
    state: &State<T>,
    env: &Env,
    token_id: String,
    spender: String,
    include_expired: bool,
) -> (r: Result<ApprovalResponse, StdError>)
    requires
        state.wf(),
    ensures
        r is Ok <==> state.has_token(token_id@) && {
            ||| state.token_info(token_id@).owner@ == spender@
            ||| matching_approvals(
                state.token_info(token_id@).approvals@,
                spender@,
                env.block,
                include_expired,
            ).len() > 0
        },
        match r {
            Ok(resp) => if state.token_info(token_id@).owner@ == spender@ {
                resp.approval.spender@ == spender@ && resp.approval.expires == Expiration::Never
            } else {
                resp.approval == matching_approvals(
                    state.token_info(token_id@).approvals@,
                    spender@,
                    env.block,
                    include_expired,
                )[0]
            },
            Err(e) => if !state.has_token(token_id@) {
                token_not_found(e)
            } else {
                e matches StdError::NotFound { kind } && kind@ == "Approval not found"@
            },
        },
{
    let info = match state.get_token(token_id.as_str()) {
        Some(info) => info,
        None => {
            return Err(StdError::NotFound { kind: "token".to_owned() });
        },
    };

    // The token owner has absolute approval.
    if str_eq(info.owner.as_str(), spender.as_str()) {
        return Ok(ApprovalResponse {
            approval: crate::msg::Approval {
                spender: info.owner.clone(),
                expires: Expiration::Never,
            },
        });
    }

    let ghost aprs = info.approvals@;
    let n = info.approvals.len();
    proof {
        assert(aprs.take(0) =~= Seq::<Approval>::empty());
    }
    let mut i: usize = 0;
    while i < n
        invariant
            i <= n,
            n == aprs.len(),
            aprs == info.approvals@,
            state.has_token(token_id@),
            *info == state.token_info(token_id@),
            info.owner@ != spender@,
            matching_approvals(aprs.take(i as int), spender@, env.block, include_expired)
                =~= Seq::<crate::msg::Approval>::empty(),
        decreases n - i,
    {
        let a = &info.approvals[i];
        proof {
            assert(aprs.take(i + 1int).drop_last() =~= aprs.take(i as int));
            assert(aprs.take(i + 1int).last() == aprs[i as int]);
        }
        if str_eq(a.spender.as_str(), spender.as_str())
            && (include_expired || !a.is_expired(&env.block)) {
            proof {
                lemma_matching_prefix_first(aprs, spender@, env.block, include_expired, i as int);
            }
            return Ok(ApprovalResponse { approval: humanize_approval(a) });
        }
        i = i + 1;
    }
    proof {
        assert(aprs.take(n as int) =~= aprs);
    }
    Err(StdError::NotFound { kind: "Approval not found".to_owned() })
}

/// If nothing before index `i` matches and `aprs[i]` does, then `aprs[i]`
/// heads the matching list.
proof fn lemma_matching_prefix_first(
    aprs: Seq<Approval>,
    spender: Seq<char>,
    block: BlockInfo,
    include_expired: bool,
    i: int,
)
    requires
        0 <= i < aprs.len(),
        matching_approvals(aprs.take(i), spender, block, include_expired)
            == Seq::<crate::msg::Approval>::empty(),
        aprs[i].spender@ == spender,
        include_expired || !spec_is_expired(aprs[i].expires, block),
    ensures
        matching_approvals(aprs, spender, block, include_expired).len() > 0,
        matching_approvals(aprs, spender, block, include_expired)[0]
            == (crate::msg::Approval { spender: aprs[i].spender, expires: aprs[i].expires }),
    decreases aprs.len(),
{
    if i == aprs.len() - 1 {
        assert(aprs.drop_last() =~= aprs.take(i));
        let x = crate::msg::Approval { spender: aprs[i].spender, expires: aprs[i].expires };
        assert(matching_approvals(aprs, spender, block, include_expired)
            == Seq::<crate::msg::Approval>::empty().push(x));
        assert(Seq::<crate::msg::Approval>::empty().push(x)[0] == x);
    } else {
        assert(aprs.drop_last().take(i) =~= aprs.take(i));
        assert(aprs.drop_last()[i] == aprs[i]);
        lemma_matching_prefix_first(aprs.drop_last(), spender, block, include_expired, i);
        let rest = matching_approvals(aprs.drop_last(), spender, block, include_expired);
        assert(rest.len() > 0);
        if aprs.last().spender@ == spender && (include_expired
            || !spec_is_expired(aprs.last().expires, block)) {
            assert(matching_approvals(aprs, spender, block, include_expired)
                == rest.push(crate::msg::Approval {
                    spender: aprs.last().spender,
                    expires: aprs.last().expires,
                }));
        }
    }
}

/// A prefix of the list yields a prefix of the matches; used only through
/// [`lemma_matching_prefix_first`].
proof fn lemma_matching_take_prefix(
    aprs: Seq<Approval>,
    spender: Seq<char>,
    block: BlockInfo,
    include_expired: bool,
    i: int,
)
    requires
        0 <= i <= aprs.len(),
    ensures
        matching_approvals(aprs, spender, block, include_expired).len()
            >= matching_approvals(aprs.take(i), spender, block, include_expired).len(),
    decreases aprs.len() - i,
{
    if i < aprs.len() {
        lemma_matching_take_prefix(aprs, spender, block, include_expired, i + 1);
        assert(aprs.take(i + 1).drop_last() =~= aprs.take(i));
    } else {
        assert(aprs.take(i) =~= aprs);
    }
}

/// All approvals of one token, filtered to the live ones unless expired
/// ones were asked for; fails not-found if the token does not exist.
pub fn approvals<T>(
    state: &State<T>,
    env: &Env,
    token_id: String,
    include_expired: bool,
) -> (r: Result<ApprovalsResponse, StdError>)
    requires
        state.wf(),
    ensures
        r is Ok <==> state.has_token(token_id@),
        match r {
            Ok(resp) => resp.approvals@ == humanized(
                state.token_info(token_id@).approvals@,
                env.block,
                include_expired,
            ),
            Err(e) => token_not_found(e),
        },
{
    let info = match state.get_token(token_id.as_str()) {
        Some(info) => info,
        None => {
            return Err(StdError::NotFound { kind: "token".to_owned() });
        },
    };
    Ok(ApprovalsResponse { approvals: humanize_approvals(&env.block, info, include_expired) })
}

// ---------------------------------------------------------------------------
// Paginated listings.
// ---------------------------------------------------------------------------

/// The operator grants of `owner` that lie after the cursor and pass the
/// expiry filter, in ascending operator order (the registry's order).
pub open spec fn operator_page(
    grants: Seq<OperatorGrant>,
    owner: Seq<char>,
    block: BlockInfo,
    include_expired: bool,
    start: Option<Seq<char>>,
) -> Seq<crate::msg::Approval>
    decreases grants.len(),
{
    if grants.len() == 0 {
        Seq::empty()
    } else {
        let rest = operator_page(grants.drop_last(), owner, block, include_expired, start);
        let g = grants.last();
        if g.owner@ == owner && after_cursor(g.operator@, start) && (include_expired
            || !spec_is_expired(g.expires, block)) {
            rest.push(crate::msg::Approval { spender: g.operator, expires: g.expires })
        } else {
            rest
        }
    }
}

/// The operator grants one owner has given, ascending by operator, at most
/// `limit` of them, starting strictly after the cursor.
pub fn operators<T>(
    state: &State<T>,
    env: &Env,
    owner: String,
    include_expired: bool,
    start_after: Option<String>,
    limit: Option<u32>,
) -> (r: OperatorsResponse)
    requires
        state.wf(),
    ensures
        r.operators@ == take_limit(
            operator_page(
                state.operators@,
                owner@,
                env.block,
                include_expired,
                opt_view(start_after),
            ),
            spec_limit(limit),
        ),
{
    let lim = clamp_limit(limit);
    let n = state.operators.len();
    let mut out: Vec<crate::msg::Approval> = Vec::new();
    proof {
        assert(state.operators@.take(0) =~= Seq::<OperatorGrant>::empty());
    }
    let mut i: usize = 0;
    while i < n
        invariant
            i <= n,
            n == state.operators@.len(),
            out@ == operator_page(
                state.operators@.take(i as int),
                owner@,
                env.block,
                include_expired,
                opt_view(start_after),
            ),
        decreases n - i,
    {
        let g = &state.operators[i];
        proof {
            assert(state.operators@.take(i + 1int).drop_last() =~= state.operators@.take(i as int));
            assert(state.operators@.take(i + 1int).last() == state.operators@[i as int]);
        }
        let after: bool = match &start_after {
            Some(st) => str_less(st.as_str(), g.operator.as_str()),
            None => true,
        };
        if str_eq(g.owner.as_str(), owner.as_str()) && after && (include_expired
            || !g.expires.is_expired(&env.block)) {
            out.push(crate::msg::Approval { spender: g.operator.clone(), expires: g.expires });
        }
        i = i + 1;
    }
    proof {
        assert(state.operators@.take(n as int) =~= state.operators@);
    }
    if out.len() > lim {
        out.truncate(lim);
    }
    OperatorsResponse { operators: out }
}

/// The ids of the tokens of `owner` that lie after the cursor, in ascending
/// id order (the table's order).
pub open spec fn owner_token_page<T>(
    tokens: Seq<TokenEntry<T>>,
    owner: Seq<char>,
    start: Option<Seq<char>>,
) -> Seq<String>
    decreases tokens.len(),
{
    if tokens.len() == 0 {
        Seq::empty()
    } else {
        let rest = owner_token_page(tokens.drop_last(), owner, start);
        let e = tokens.last();
        if e.info.owner@ == owner && after_cursor(e.token_id@, start) {
            rest.push(e.token_id)
        } else {
            rest
        }
    }
}

/// The token ids one owner holds, ascending, at most `limit` of them,
/// starting strictly after the cursor.
pub fn tokens<T>(
    state: &State<T>,
    owner: String,
    start_after: Option<String>,
    limit: Option<u32>,
) -> (r: TokensResponse)
    requires
        state.wf(),
    ensures
        r.tokens@ == take_limit(
            owner_token_page(state.tokens@, owner@, opt_view(start_after)),
            spec_limit(limit),
        ),
{
    let lim = clamp_limit(limit);
    let n = state.tokens.len();
    let mut out: Vec<String> = Vec::new();
    proof {
        assert(state.tokens@.take(0) =~= Seq::<TokenEntry<T>>::empty());
    }
    let mut i: usize = 0;
    while i < n
        invariant
            i <= n,
            n == state.tokens@.len(),
            out@ == owner_token_page(state.tokens@.take(i as int), owner@, opt_view(start_after)),
        decreases n - i,
    {
        let e = &state.tokens[i];
        proof {
            assert(state.tokens@.take(i + 1int).drop_last() =~= state.tokens@.take(i as int));
            assert(state.tokens@.take(i + 1int).last() == state.tokens@[i as int]);
        }
        let after: bool = match &start_after {
            Some(st) => str_less(st.as_str(), e.token_id.as_str()),
            None => true,
        };
        if str_eq(e.info.owner.as_str(), owner.as_str()) && after {
            out.push(e.token_id.clone());
        }
        i = i + 1;
    }
    proof {
        assert(state.tokens@.take(n as int) =~= state.tokens@);
    }
    if out.len() > lim {
        out.truncate(lim);
    }
    TokensResponse { tokens: out }
}

/// The ids of all tokens that lie after the cursor, in ascending id order.
pub open spec fn token_page<T>(
    tokens: Seq<TokenEntry<T>>,
    start: Option<Seq<char>>,
) -> Seq<String>
    decreases tokens.len(),
{
    if tokens.len() == 0 {
        Seq::empty()
    } else {
        let rest = token_page(tokens.drop_last(), start);
        let e = tokens.last();
        if after_cursor(e.token_id@, start) {
            rest.push(e.token_id)
        } else {
            rest
        }
    }
}

/// All live token ids, ascending, at most `limit` of them, starting
/// strictly after the cursor.
pub fn all_tokens<T>(
    state: &State<T>,
    start_after: Option<String>,
    limit: Option<u32>,
) -> (r: TokensResponse)
    requires
        state.wf(),
    ensures
        r.tokens@ == take_limit(
            token_page(state.tokens@, opt_view(start_after)),
            spec_limit(limit),
        ),
{
    let lim = clamp_limit(limit);
    let n = state.tokens.len();
    let mut out: Vec<String> = Vec::new();
    proof {
        assert(state.tokens@.take(0) =~= Seq::<TokenEntry<T>>::empty());
    }
    let mut i: usize = 0;
    while i < n
        invariant
            i <= n,
            n == state.tokens@.len(),
            out@ == token_page(state.tokens@.take(i as int), opt_view(start_after)),
        decreases n - i,
    {
        let e = &state.tokens[i];
        proof {
            assert(state.tokens@.take(i + 1int).drop_last() =~= state.tokens@.take(i as int));
            assert(state.tokens@.take(i + 1int).last() == state.tokens@[i as int]);
        }
        let after: bool = match &start_after {
            Some(st) => str_less(st.as_str(), e.token_id.as_str()),
            None => true,
        };
        if after {
            out.push(e.token_id.clone());
        }
        i = i + 1;
    }
    proof {
        assert(state.tokens@.take(n as int) =~= state.tokens@);
    }
    if out.len() > lim {
        out.truncate(lim);
    }
    TokensResponse { tokens: out }
}

} // verus!
