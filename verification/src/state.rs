//! The ledger: token records, the operator registry, the token counter and
//! the contract metadata.
//!
//! Tokens are held in a single table sorted strictly by token id, and
//! operator grants in a table sorted strictly by the `(owner, operator)`
//! pair.  Strict sortedness makes every key unique, gives range queries
//! their ascending order for free, and is part of the ledger's
//! well-formedness invariant [`State::wf`], which every operation preserves.

use vstd::prelude::*;
use crate::expiration::{BlockInfo, Expiration, spec_is_expired};
use crate::key_order::{
    lemma_str_lt_irrefl,
    lemma_str_lt_total,
    lemma_str_lt_trans,
    str_eq,
    str_less,
    str_lt,
};
use crate::msg::ContractInfoResponse;

verus! {

/// A per-token grant letting one spender move one specific token.
#[derive(Clone, Debug, PartialEq, Eq)]
pub struct Approval {
    /// Account that can transfer or send the token.
    pub spender: String,
    /// When the approval expires.
    pub expires: Expiration,
}

impl Approval {
    /// Whether the approval has passed at the given block.
    pub fn is_expired(&self, block: &BlockInfo) -> (r: bool)
        ensures
            r == spec_is_expired(self.expires, *block),
    {
        self.expires.is_expired(block)
    }
}

/// One token record.
#[derive(Clone, Debug)]
pub struct TokenInfo<T> {
    /// The current owner.
    pub owner: String,
    /// Per-token approvals; cleared on every transfer, and never holding two
    /// entries for the same spender.
    pub approvals: Vec<Approval>,
    /// Universal resource identifier pointing at off-ledger metadata.
    pub token_uri: Option<String>,
    /// Caller-defined payload, carried through unmodified.
    pub extension: T,
}

/// One row of the token table: a token id and its record.
#[derive(Clone, Debug)]
pub struct TokenEntry<T> {
    /// The unique token id.
    pub token_id: String,
    /// The record stored under it.
    pub info: TokenInfo<T>,
}

/// One row of the operator registry: a blanket grant from `owner` to
/// `operator` over every token `owner` owns.
#[derive(Clone, Debug, PartialEq, Eq)]
pub struct OperatorGrant {
    /// The owner who granted.
    pub owner: String,
    /// The operator who may act for the owner.
    pub operator: String,
    /// When the grant expires.
    pub expires: Expiration,
}

// ---------------------------------------------------------------------------
// The token table, modelled over its view.
// ---------------------------------------------------------------------------

/// The table is sorted strictly ascending by token id.
pub open spec fn tokens_sorted<T>(s: Seq<TokenEntry<T>>) -> bool {
    forall|i: int, j: int|
        0 <= i < j < s.len() ==> str_lt(#[trigger] s[i].token_id@, #[trigger] s[j].token_id@)
}

/// A row with this token id exists.
pub open spec fn seq_has_token<T>(s: Seq<TokenEntry<T>>, id: Seq<char>) -> bool {
    exists|i: int| 0 <= i < s.len() && (#[trigger] s[i].token_id@) == id
}

/// The index of the row with this token id (unique in a sorted table).
pub open spec fn seq_token_idx<T>(s: Seq<TokenEntry<T>>, id: Seq<char>) -> int {
    choose|i: int| 0 <= i < s.len() && (#[trigger] s[i].token_id@) == id
}

/// The record stored under this token id.
pub open spec fn seq_token_info<T>(s: Seq<TokenEntry<T>>, id: Seq<char>) -> TokenInfo<T> {
    s[seq_token_idx(s, id)].info
}

/// In a sorted table the row index of a key is the only one carrying it.
pub proof fn lemma_sorted_token_idx<T>(s: Seq<TokenEntry<T>>, id: Seq<char>, i: int)
    requires
        tokens_sorted(s),
        0 <= i < s.len(),
        s[i].token_id@ == id,
    ensures
        seq_has_token(s, id),
        seq_token_idx(s, id) == i,
        seq_token_info(s, id) == s[i].info,
{
    assert(seq_has_token(s, id));
    let j = seq_token_idx(s, id);
    if j != i {
        lemma_str_lt_irrefl(id);
    }
}

/// Inserting a fresh row at its sorted position keeps the table sorted,
/// stores exactly that record under the new key, and leaves every other key
/// untouched.
pub proof fn lemma_token_insert_effect<T>(s: Seq<TokenEntry<T>>, pos: int, e: TokenEntry<T>)
    requires
        tokens_sorted(s),
        0 <= pos <= s.len(),
        forall|k: int| 0 <= k < pos ==> str_lt(#[trigger] s[k].token_id@, e.token_id@),
        forall|k: int| pos <= k < s.len() ==> str_lt(e.token_id@, #[trigger] s[k].token_id@),
    ensures
        tokens_sorted(s.insert(pos, e)),
        !seq_has_token(s, e.token_id@),
        seq_has_token(s.insert(pos, e), e.token_id@),
        seq_token_info(s.insert(pos, e), e.token_id@) == e.info,
        forall|id: Seq<char>| id != e.token_id@
            ==> #[trigger] seq_has_token(s.insert(pos, e), id) == seq_has_token(s, id),
        forall|id: Seq<char>| id != e.token_id@ && seq_has_token(s, id)
            ==> #[trigger] seq_token_info(s.insert(pos, e), id) == seq_token_info(s, id),
{
    let t = s.insert(pos, e);
    assert forall|k: int| 0 <= k < s.len() implies s[k].token_id@ != e.token_id@ by {
        if k < pos {
            lemma_str_lt_irrefl(e.token_id@);
        } else {
            lemma_str_lt_irrefl(e.token_id@);
        }
    }
    assert(!seq_has_token(s, e.token_id@));
    assert forall|i: int, j: int| 0 <= i < j < t.len() implies str_lt(
        #[trigger] t[i].token_id@,
        #[trigger] t[j].token_id@,
    ) by {
        if i == pos {
            assert(t[j] == s[j - 1]);
        } else if j == pos {
            assert(t[i] == s[i]);
        } else if i < pos && j > pos {
            assert(t[i] == s[i]);
            assert(t[j] == s[j - 1]);
            if j - 1 == pos {
            } else {
                assert(str_lt(s[i].token_id@, e.token_id@));
                assert(str_lt(e.token_id@, s[j - 1].token_id@));
                lemma_str_lt_trans(s[i].token_id@, e.token_id@, s[j - 1].token_id@);
            }
        } else if j < pos {
            assert(t[i] == s[i] && t[j] == s[j]);
        } else {
            assert(t[i] == s[i - 1] && t[j] == s[j - 1]);
        }
    }
    assert(t[pos] == e);
    lemma_sorted_token_idx(t, e.token_id@, pos);
    assert forall|id: Seq<char>| id != e.token_id@ implies #[trigger] seq_has_token(t, id)
        == seq_has_token(s, id) by {
        if seq_has_token(s, id) {
            let w = seq_token_idx(s, id);
            lemma_sorted_token_idx(s, id, w);
            if w < pos {
                assert(t[w] == s[w]);
                assert(seq_has_token(t, id));
            } else {
                assert(t[w + 1] == s[w]);
                assert(seq_has_token(t, id));
            }
        }
        if seq_has_token(t, id) {
            let w = seq_token_idx(t, id);
            lemma_sorted_token_idx(t, id, w);
            if w < pos {
                assert(s[w] == t[w]);
                assert(seq_has_token(s, id));
            } else {
                assert(w != pos);
                assert(s[w - 1] == t[w]);
                assert(seq_has_token(s, id));
            }
        }
    }
    assert forall|id: Seq<char>| id != e.token_id@ && seq_has_token(s, id) implies
        #[trigger] seq_token_info(t, id) == seq_token_info(s, id) by {
        let w = seq_token_idx(s, id);
        lemma_sorted_token_idx(s, id, w);
        if w < pos {
            lemma_sorted_token_idx(t, id, w);
        } else {
            lemma_sorted_token_idx(t, id, w + 1);
        }
    }
}

/// Removing one row keeps the table sorted, drops exactly its key, and
/// leaves every other key untouched.
pub proof fn lemma_token_remove_effect<T>(s: Seq<TokenEntry<T>>, i: int)
    requires
        tokens_sorted(s),
        0 <= i < s.len(),
    ensures
        tokens_sorted(s.remove(i)),
        !seq_has_token(s.remove(i), s[i].token_id@),
        forall|id: Seq<char>| id != s[i].token_id@
            ==> #[trigger] seq_has_token(s.remove(i), id) == seq_has_token(s, id),
        forall|id: Seq<char>| id != s[i].token_id@ && seq_has_token(s, id)
            ==> #[trigger] seq_token_info(s.remove(i), id) == seq_token_info(s, id),
{
    let t = s.remove(i);
    assert forall|p: int, q: int| 0 <= p < q < t.len() implies str_lt(
        #[trigger] t[p].token_id@,
        #[trigger] t[q].token_id@,
    ) by {
        let p0: int = if p < i { p } else { p + 1 };
        let q0: int = if q < i { q } else { q + 1 };
        assert(t[p] == s[p0] && t[q] == s[q0]);
    }
    assert forall|k: int| 0 <= k < t.len() implies t[k].token_id@ != s[i].token_id@ by {
        let k0: int = if k < i { k } else { k + 1 };
        assert(t[k] == s[k0]);
        if k0 != i {
            lemma_str_lt_irrefl(s[i].token_id@);
        }
    }
    assert(!seq_has_token(t, s[i].token_id@));
    assert forall|id: Seq<char>| id != s[i].token_id@ implies #[trigger] seq_has_token(t, id)
        == seq_has_token(s, id) by {
        if seq_has_token(s, id) {
            let w = seq_token_idx(s, id);
            lemma_sorted_token_idx(s, id, w);
            if w < i {
                assert(t[w] == s[w]);
            } else {
                assert(w != i);
                assert(t[w - 1] == s[w]);
            }
            assert(seq_has_token(t, id));
        }
        if seq_has_token(t, id) {
            let w = seq_token_idx(t, id);
            lemma_sorted_token_idx(t, id, w);
            let w0: int = if w < i { w } else { w + 1 };
            assert(t[w] == s[w0]);
            assert(seq_has_token(s, id));
        }
    }
    assert forall|id: Seq<char>| id != s[i].token_id@ && seq_has_token(s, id) implies
        #[trigger] seq_token_info(t, id) == seq_token_info(s, id) by {
        let w = seq_token_idx(s, id);
        lemma_sorted_token_idx(s, id, w);
        if w < i {
            lemma_sorted_token_idx(t, id, w);
        } else {
            lemma_sorted_token_idx(t, id, w - 1);
        }
    }
}

/// Replacing the record of one row, keeping its key, keeps the table sorted,
/// stores the new record under that key, and leaves every other key
/// untouched.
pub proof fn lemma_token_update_effect<T>(s: Seq<TokenEntry<T>>, i: int, e: TokenEntry<T>)
    requires
        tokens_sorted(s),
        0 <= i < s.len(),
        e.token_id@ == s[i].token_id@,
    ensures
        tokens_sorted(s.update(i, e)),
        seq_has_token(s.update(i, e), e.token_id@),
        seq_token_info(s.update(i, e), e.token_id@) == e.info,
        forall|id: Seq<char>| id != e.token_id@
            ==> #[trigger] seq_has_token(s.update(i, e), id) == seq_has_token(s, id),
        forall|id: Seq<char>| id != e.token_id@ && seq_has_token(s, id)
            ==> #[trigger] seq_token_info(s.update(i, e), id) == seq_token_info(s, id),
{
    let t = s.update(i, e);
    assert(forall|k: int| 0 <= k < s.len() ==> (#[trigger] t[k].token_id@) == s[k].token_id@);
    assert forall|p: int, q: int| 0 <= p < q < t.len() implies str_lt(
        #[trigger] t[p].token_id@,
        #[trigger] t[q].token_id@,
    ) by {
        assert(str_lt(s[p].token_id@, s[q].token_id@));
    }
    lemma_sorted_token_idx(t, e.token_id@, i);
    assert forall|id: Seq<char>| id != e.token_id@ implies #[trigger] seq_has_token(t, id)
        == seq_has_token(s, id) by {
        if seq_has_token(s, id) {
            let w = seq_token_idx(s, id);
            lemma_sorted_token_idx(s, id, w);
            assert(t[w].token_id@ == id);
            assert(seq_has_token(t, id));
        }
        if seq_has_token(t, id) {
            let w = seq_token_idx(t, id);
            lemma_sorted_token_idx(t, id, w);
            assert(s[w].token_id@ == id);
            assert(seq_has_token(s, id));
        }
    }
    assert forall|id: Seq<char>| id != e.token_id@ && seq_has_token(s, id) implies
        #[trigger] seq_token_info(t, id) == seq_token_info(s, id) by {
        let w = seq_token_idx(s, id);
        lemma_sorted_token_idx(s, id, w);
        assert(w != i);
        assert(t[w] == s[w]);
        lemma_sorted_token_idx(t, id, w);
    }
}

// ---------------------------------------------------------------------------
// The operator registry, modelled over its view.
// ---------------------------------------------------------------------------

/// The `(owner, operator)` pair of `a` comes strictly before that of `b`.
pub open spec fn grant_lt(a: OperatorGrant, b: OperatorGrant) -> bool {
    str_lt(a.owner@, b.owner@) || (a.owner@ == b.owner@ && str_lt(a.operator@, b.operator@))
}

/// The registry is sorted strictly ascending by `(owner, operator)`.
pub open spec fn grants_sorted(s: Seq<OperatorGrant>) -> bool {
    forall|i: int, j: int| 0 <= i < j < s.len() ==> grant_lt(#[trigger] s[i], #[trigger] s[j])
}

/// A grant for this `(owner, operator)` pair exists.
pub open spec fn seq_has_grant(s: Seq<OperatorGrant>, owner: Seq<char>, operator: Seq<char>) -> bool {
    exists|i: int|
        0 <= i < s.len() && (#[trigger] s[i]).owner@ == owner && s[i].operator@ == operator
}

/// The index of the grant for this pair (unique in a sorted registry).
pub open spec fn seq_grant_idx(s: Seq<OperatorGrant>, owner: Seq<char>, operator: Seq<char>) -> int {
    choose|i: int|
        0 <= i < s.len() && (#[trigger] s[i]).owner@ == owner && s[i].operator@ == operator
}

/// The expiration stored for this pair.
pub open spec fn seq_grant_expires(
    s: Seq<OperatorGrant>,
    owner: Seq<char>,
    operator: Seq<char>,
) -> Expiration {
    s[seq_grant_idx(s, owner, operator)].expires
}

/// Two grants with equal keys are not ordered.
proof fn lemma_grant_lt_irrefl(a: OperatorGrant, b: OperatorGrant)
    requires
        a.owner@ == b.owner@,
        a.operator@ == b.operator@,
    ensures
        !grant_lt(a, b),
{
    lemma_str_lt_irrefl(a.owner@);
    lemma_str_lt_irrefl(a.operator@);
}

/// The grant order is transitive.
proof fn lemma_grant_lt_trans(a: OperatorGrant, b: OperatorGrant, c: OperatorGrant)
    requires
        grant_lt(a, b),
        grant_lt(b, c),
    ensures
        grant_lt(a, c),
{
    lemma_str_lt_irrefl(a.owner@);
    lemma_str_lt_irrefl(b.owner@);
    lemma_str_lt_irrefl(c.owner@);
    if str_lt(a.owner@, b.owner@) && str_lt(b.owner@, c.owner@) {
        lemma_str_lt_trans(a.owner@, b.owner@, c.owner@);
    } else if a.owner@ == b.owner@ && b.owner@ == c.owner@ {
        lemma_str_lt_trans(a.operator@, b.operator@, c.operator@);
    }
}

/// In a sorted registry the row index of a pair is the only one carrying it.
pub proof fn lemma_sorted_grant_idx(s: Seq<OperatorGrant>, owner: Seq<char>, operator: Seq<char>, i: int)
    requires
        grants_sorted(s),
        0 <= i < s.len(),
        s[i].owner@ == owner,
        s[i].operator@ == operator,
    ensures
        seq_has_grant(s, owner, operator),
        seq_grant_idx(s, owner, operator) == i,
        seq_grant_expires(s, owner, operator) == s[i].expires,
{
    assert(seq_has_grant(s, owner, operator));
    let j = seq_grant_idx(s, owner, operator);
    if j != i {
        if j < i {
            lemma_grant_lt_irrefl(s[j], s[i]);
        } else {
            lemma_grant_lt_irrefl(s[i], s[j]);
        }
    }
}

/// Inserting a fresh grant at its sorted position keeps the registry
/// sorted, stores exactly that grant under the new pair, and leaves every
/// other pair untouched.
pub proof fn lemma_grant_insert_effect(s: Seq<OperatorGrant>, pos: int, g: OperatorGrant)
    requires
        grants_sorted(s),
        0 <= pos <= s.len(),
        forall|k: int| 0 <= k < pos ==> grant_lt(#[trigger] s[k], g),
        forall|k: int| pos <= k < s.len() ==> grant_lt(g, #[trigger] s[k]),
    ensures
        grants_sorted(s.insert(pos, g)),
        seq_has_grant(s.insert(pos, g), g.owner@, g.operator@),
        seq_grant_expires(s.insert(pos, g), g.owner@, g.operator@) == g.expires,
        forall|o: Seq<char>, p: Seq<char>| o != g.owner@ || p != g.operator@
            ==> #[trigger] seq_has_grant(s.insert(pos, g), o, p) == seq_has_grant(s, o, p),
        forall|o: Seq<char>, p: Seq<char>| (o != g.owner@ || p != g.operator@) && seq_has_grant(s, o, p)
            ==> #[trigger] seq_grant_expires(s.insert(pos, g), o, p) == seq_grant_expires(s, o, p),
{
    let t = s.insert(pos, g);
    assert forall|i: int, j: int| 0 <= i < j < t.len() implies grant_lt(
        #[trigger] t[i],
        #[trigger] t[j],
    ) by {
        if i == pos {
            assert(t[j] == s[j - 1]);
        } else if j == pos {
            assert(t[i] == s[i]);
        } else if i < pos && j > pos {
            assert(t[i] == s[i]);
            assert(t[j] == s[j - 1]);
            if j - 1 != pos {
                lemma_grant_lt_trans(s[i], g, s[j - 1]);
            }
        } else if j < pos {
            assert(t[i] == s[i] && t[j] == s[j]);
        } else {
            assert(t[i] == s[i - 1] && t[j] == s[j - 1]);
        }
    }
    assert(t[pos] == g);
    lemma_sorted_grant_idx(t, g.owner@, g.operator@, pos);
    assert forall|o: Seq<char>, p: Seq<char>| o != g.owner@ || p != g.operator@ implies
        #[trigger] seq_has_grant(t, o, p) == seq_has_grant(s, o, p) by {
        if seq_has_grant(s, o, p) {
            let w = seq_grant_idx(s, o, p);
            lemma_sorted_grant_idx(s, o, p, w);
            if w < pos {
                assert(t[w] == s[w]);
            } else {
                assert(t[w + 1] == s[w]);
            }
            assert(seq_has_grant(t, o, p));
        }
        if seq_has_grant(t, o, p) {
            let w = seq_grant_idx(t, o, p);
            lemma_sorted_grant_idx(t, o, p, w);
            assert(w != pos);
            if w < pos {
                assert(s[w] == t[w]);
            } else {
                assert(s[w - 1] == t[w]);
            }
            assert(seq_has_grant(s, o, p));
        }
    }
    assert forall|o: Seq<char>, p: Seq<char>| (o != g.owner@ || p != g.operator@)
        && seq_has_grant(s, o, p) implies
        #[trigger] seq_grant_expires(t, o, p) == seq_grant_expires(s, o, p) by {
        let w = seq_grant_idx(s, o, p);
        lemma_sorted_grant_idx(s, o, p, w);
        if w < pos {
            lemma_sorted_grant_idx(t, o, p, w);
        } else {
            lemma_sorted_grant_idx(t, o, p, w + 1);
        }
    }
}

/// Removing one grant keeps the registry sorted, drops exactly its pair,
/// and leaves every other pair untouched.
pub proof fn lemma_grant_remove_effect(s: Seq<OperatorGrant>, i: int)
    requires
        grants_sorted(s),
        0 <= i < s.len(),
    ensures
        grants_sorted(s.remove(i)),
        !seq_has_grant(s.remove(i), s[i].owner@, s[i].operator@),
        forall|o: Seq<char>, p: Seq<char>| o != s[i].owner@ || p != s[i].operator@
            ==> #[trigger] seq_has_grant(s.remove(i), o, p) == seq_has_grant(s, o, p),
        forall|o: Seq<char>, p: Seq<char>| (o != s[i].owner@ || p != s[i].operator@)
            && seq_has_grant(s, o, p)
            ==> #[trigger] seq_grant_expires(s.remove(i), o, p) == seq_grant_expires(s, o, p),
{
    let t = s.remove(i);
    assert forall|p: int, q: int| 0 <= p < q < t.len() implies grant_lt(
        #[trigger] t[p],
        #[trigger] t[q],
    ) by {
        let p0: int = if p < i { p } else { p + 1 };
        let q0: int = if q < i { q } else { q + 1 };
        assert(t[p] == s[p0] && t[q] == s[q0]);
    }
    assert forall|k: int| 0 <= k < t.len() implies !(t[k].owner@ == s[i].owner@
        && t[k].operator@ == s[i].operator@) by {
        let k0: int = if k < i { k } else { k + 1 };
        assert(t[k] == s[k0]);
        if k0 != i && t[k].owner@ == s[i].owner@ && t[k].operator@ == s[i].operator@ {
            if k0 < i {
                lemma_grant_lt_irrefl(s[k0], s[i]);
            } else {
                lemma_grant_lt_irrefl(s[i], s[k0]);
            }
        }
    }
    assert(!seq_has_grant(t, s[i].owner@, s[i].operator@));
    assert forall|o: Seq<char>, p: Seq<char>| o != s[i].owner@ || p != s[i].operator@ implies
        #[trigger] seq_has_grant(t, o, p) == seq_has_grant(s, o, p) by {
        if seq_has_grant(s, o, p) {
            let w = seq_grant_idx(s, o, p);
            lemma_sorted_grant_idx(s, o, p, w);
            assert(w != i);
            if w < i {
                assert(t[w] == s[w]);
            } else {
                assert(t[w - 1] == s[w]);
            }
            assert(seq_has_grant(t, o, p));
        }
        if seq_has_grant(t, o, p) {
            let w = seq_grant_idx(t, o, p);
            lemma_sorted_grant_idx(t, o, p, w);
            let w0: int = if w < i { w } else { w + 1 };
            assert(t[w] == s[w0]);
            assert(seq_has_grant(s, o, p));
        }
    }
    assert forall|o: Seq<char>, p: Seq<char>| (o != s[i].owner@ || p != s[i].operator@)
        && seq_has_grant(s, o, p) implies
        #[trigger] seq_grant_expires(t, o, p) == seq_grant_expires(s, o, p) by {
        let w = seq_grant_idx(s, o, p);
        lemma_sorted_grant_idx(s, o, p, w);
        assert(w != i);
        if w < i {
            lemma_sorted_grant_idx(t, o, p, w);
        } else {
            lemma_sorted_grant_idx(t, o, p, w - 1);
        }
    }
}

/// Replacing the expiration of one grant, keeping its pair, keeps the
/// registry sorted, stores the new expiration under that pair, and leaves
/// every other pair untouched.
pub proof fn lemma_grant_update_effect(s: Seq<OperatorGrant>, i: int, g: OperatorGrant)
    requires
        grants_sorted(s),
        0 <= i < s.len(),
        g.owner@ == s[i].owner@,
        g.operator@ == s[i].operator@,
    ensures
        grants_sorted(s.update(i, g)),
        seq_has_grant(s.update(i, g), g.owner@, g.operator@),
        seq_grant_expires(s.update(i, g), g.owner@, g.operator@) == g.expires,
        forall|o: Seq<char>, p: Seq<char>| o != g.owner@ || p != g.operator@
            ==> #[trigger] seq_has_grant(s.update(i, g), o, p) == seq_has_grant(s, o, p),
        forall|o: Seq<char>, p: Seq<char>| (o != g.owner@ || p != g.operator@)
            && seq_has_grant(s, o, p)
            ==> #[trigger] seq_grant_expires(s.update(i, g), o, p) == seq_grant_expires(s, o, p),
{
    let t = s.update(i, g);
    assert forall|p: int, q: int| 0 <= p < q < t.len() implies grant_lt(
        #[trigger] t[p],
        #[trigger] t[q],
    ) by {
        assert(grant_lt(s[p], s[q]));
        assert(t[p].owner@ == s[p].owner@ && t[p].operator@ == s[p].operator@);
        assert(t[q].owner@ == s[q].owner@ && t[q].operator@ == s[q].operator@);
    }
    lemma_sorted_grant_idx(t, g.owner@, g.operator@, i);
    assert forall|o: Seq<char>, p: Seq<char>| o != g.owner@ || p != g.operator@ implies
        #[trigger] seq_has_grant(t, o, p) == seq_has_grant(s, o, p) by {
        if seq_has_grant(s, o, p) {
            let w = seq_grant_idx(s, o, p);
            lemma_sorted_grant_idx(s, o, p, w);
            assert(w != i);
            assert(t[w] == s[w]);
            assert(seq_has_grant(t, o, p));
        }
        if seq_has_grant(t, o, p) {
            let w = seq_grant_idx(t, o, p);
            lemma_sorted_grant_idx(t, o, p, w);
            assert(w != i);
            assert(s[w] == t[w]);
            assert(seq_has_grant(s, o, p));
        }
    }
    assert forall|o: Seq<char>, p: Seq<char>| (o != g.owner@ || p != g.operator@)
        && seq_has_grant(s, o, p) implies
        #[trigger] seq_grant_expires(t, o, p) == seq_grant_expires(s, o, p) by {
        let w = seq_grant_idx(s, o, p);
        lemma_sorted_grant_idx(s, o, p, w);
        assert(w != i);
        assert(t[w] == s[w]);
        lemma_sorted_grant_idx(t, o, p, w);
    }
}

// ---------------------------------------------------------------------------
// The ledger itself.
// ---------------------------------------------------------------------------

/// The whole persisted state of the registry.
#[derive(Clone, Debug)]
pub struct State<T> {
    /// Name and symbol, set once at initialization.
    pub contract_info: ContractInfoResponse,
    /// The one address that may mint, set once at initialization.
    pub minter: String,
    /// Number of live tokens; always equals the length of `tokens`.
    pub token_count: u64,
    /// The token table, sorted strictly ascending by token id.
    pub tokens: Vec<TokenEntry<T>>,
    /// The operator registry, sorted strictly ascending by `(owner, operator)`.
    pub operators: Vec<OperatorGrant>,
}

impl<T> State<T> {
    /// Well-formedness: both tables sorted (hence keyed uniquely) and the
    /// counter equal to the number of live tokens.
    pub open spec fn wf(self) -> bool {
        &&& tokens_sorted(self.tokens@)
        &&& grants_sorted(self.operators@)
        &&& self.token_count as nat == self.tokens@.len()
    }

    /// A token with this id is live.
    pub open spec fn has_token(self, id: Seq<char>) -> bool {
        seq_has_token(self.tokens@, id)
    }

    /// The record of the live token with this id.
    pub open spec fn token_info(self, id: Seq<char>) -> TokenInfo<T> {
        seq_token_info(self.tokens@, id)
    }

    /// A grant from `owner` to `operator` is recorded (expired or not).
    pub open spec fn has_grant(self, owner: Seq<char>, operator: Seq<char>) -> bool {
        seq_has_grant(self.operators@, owner, operator)
    }

    /// The expiration recorded for the grant from `owner` to `operator`.
    pub open spec fn grant_expires(self, owner: Seq<char>, operator: Seq<char>) -> Expiration {
        seq_grant_expires(self.operators@, owner, operator)
    }

    /// An empty ledger: no metadata, no minter, no tokens, no grants.
    pub fn new() -> (s: Self)
        ensures
            s.wf(),
            s.contract_info.name@ == Seq::<char>::empty(),
            s.contract_info.symbol@ == Seq::<char>::empty(),
            s.minter@ == Seq::<char>::empty(),
            s.token_count == 0,
            s.tokens@ == Seq::<TokenEntry<T>>::empty(),
            s.operators@ == Seq::<OperatorGrant>::empty(),
    {
        State {
            contract_info: ContractInfoResponse { name: String::new(), symbol: String::new() },
            minter: String::new(),
            token_count: 0,
            tokens: Vec::new(),
            operators: Vec::new(),
        }
    }

    /// The position where `token_id` is stored, or where it would be
    /// inserted: every row before it is strictly smaller, none from it on is.
    pub fn token_lower_bound(&self, token_id: &str) -> (pos: usize)
        requires
            tokens_sorted(self.tokens@),
        ensures
            pos <= self.tokens@.len(),
            forall|k: int| 0 <= k < pos ==> str_lt(#[trigger] self.tokens@[k].token_id@, token_id@),
            forall|k: int| pos <= k < self.tokens@.len()
                ==> !str_lt(#[trigger] self.tokens@[k].token_id@, token_id@),
    {
        let n = self.tokens.len();
        let mut pos: usize = 0;
        loop
            invariant
                pos <= n,
                n == self.tokens@.len(),
                tokens_sorted(self.tokens@),
                forall|k: int| 0 <= k < pos
                    ==> str_lt(#[trigger] self.tokens@[k].token_id@, token_id@),
            ensures
                pos <= n,
                forall|k: int| 0 <= k < pos
                    ==> str_lt(#[trigger] self.tokens@[k].token_id@, token_id@),
                pos == n || !str_lt(self.tokens@[pos as int].token_id@, token_id@),
            decreases n - pos,
        {
            if pos == n {
                break;
            }
            if !str_less(self.tokens[pos].token_id.as_str(), token_id) {
                break;
            }
            pos = pos + 1;
        }
        proof {
            assert forall|k: int| pos <= k < self.tokens@.len() implies !str_lt(
                #[trigger] self.tokens@[k].token_id@,
                token_id@,
            ) by {
                if k > pos && str_lt(self.tokens@[k].token_id@, token_id@) {
                    lemma_str_lt_trans(
                        self.tokens@[pos as int].token_id@,
                        self.tokens@[k].token_id@,
                        token_id@,
                    );
                }
            }
        }
        pos
    }

    /// Looks the token id up in the table.
    pub fn find_token(&self, token_id: &str) -> (r: Option<usize>)
        requires
            tokens_sorted(self.tokens@),
        ensures
            match r {
                Some(i) => {
                    &&& i < self.tokens@.len()
                    &&& self.tokens@[i as int].token_id@ == token_id@
                    &&& self.has_token(token_id@)
                    &&& seq_token_idx(self.tokens@, token_id@) == i
                    &&& self.token_info(token_id@) == self.tokens@[i as int].info
                },
                None => !self.has_token(token_id@),
            },
    {
        let n = self.tokens.len();
        let pos = self.token_lower_bound(token_id);
        if pos < n && str_eq(self.tokens[pos].token_id.as_str(), token_id) {
            proof {
                lemma_sorted_token_idx(self.tokens@, token_id@, pos as int);
            }
            Some(pos)
        } else {
            proof {
                assert forall|k: int| 0 <= k < self.tokens@.len() implies
                    (#[trigger] self.tokens@[k].token_id@) != token_id@ by {
                    if k < pos {
                        if self.tokens@[k].token_id@ == token_id@ {
                            lemma_str_lt_irrefl(token_id@);
                        }
                    } else if k > pos {
                        if self.tokens@[k].token_id@ == token_id@ {
                            lemma_str_lt_trans(
                                self.tokens@[pos as int].token_id@,
                                self.tokens@[k].token_id@,
                                token_id@,
                            );
                            lemma_str_lt_total(self.tokens@[pos as int].token_id@, token_id@);
                        }
                    }
                }
            }
            None
        }
    }

    /// The record of one live token, or nothing.
    pub fn get_token(&self, token_id: &str) -> (r: Option<&TokenInfo<T>>)
        requires
            tokens_sorted(self.tokens@),
        ensures
            match r {
                Some(info) => self.has_token(token_id@) && *info == self.token_info(token_id@),
                None => !self.has_token(token_id@),
            },
    {
        match self.find_token(token_id) {
            Some(i) => Some(&self.tokens[i].info),
            None => None,
        }
    }

    /// The position where the grant for `(owner, operator)` is stored, or
    /// where it would be inserted.
    pub fn grant_lower_bound(&self, owner: &str, operator: &str) -> (pos: usize)
        requires
            grants_sorted(self.operators@),
        ensures
            pos <= self.operators@.len(),
            forall|k: int| 0 <= k < pos ==> grant_key_before(#[trigger] self.operators@[k], owner@, operator@),
            forall|k: int| pos <= k < self.operators@.len()
                ==> !grant_key_before(#[trigger] self.operators@[k], owner@, operator@),
    {
        let n = self.operators.len();
        let mut pos: usize = 0;
        loop
            invariant
                pos <= n,
                n == self.operators@.len(),
                grants_sorted(self.operators@),
                forall|k: int| 0 <= k < pos
                    ==> grant_key_before(#[trigger] self.operators@[k], owner@, operator@),
            ensures
                pos <= n,
                forall|k: int| 0 <= k < pos
                    ==> grant_key_before(#[trigger] self.operators@[k], owner@, operator@),
                pos == n || !grant_key_before(self.operators@[pos as int], owner@, operator@),
            decreases n - pos,
        {
            if pos == n {
                break;
            }
            let g = &self.operators[pos];
            let before: bool = if str_less(g.owner.as_str(), owner) {
                true
            } else if str_eq(g.owner.as_str(), owner) {
                str_less(g.operator.as_str(), operator)
            } else {
                false
            };
            if !before {
                break;
            }
            pos = pos + 1;
        }
        proof {
            assert forall|k: int| pos <= k < self.operators@.len() implies !grant_key_before(
                #[trigger] self.operators@[k],
                owner@,
                operator@,
            ) by {
                if k > pos && grant_key_before(self.operators@[k], owner@, operator@) {
                    lemma_grant_key_before_trans(
                        self.operators@[pos as int],
                        self.operators@[k],
                        owner@,
                        operator@,
                    );
                }
            }
        }
        pos
    }

    /// Looks the `(owner, operator)` pair up in the registry.
    pub fn find_grant(&self, owner: &str, operator: &str) -> (r: Option<usize>)
        requires
            grants_sorted(self.operators@),
        ensures
            match r {
                Some(i) => {
                    &&& i < self.operators@.len()
                    &&& self.operators@[i as int].owner@ == owner@
                    &&& self.operators@[i as int].operator@ == operator@
                    &&& self.has_grant(owner@, operator@)
                    &&& seq_grant_idx(self.operators@, owner@, operator@) == i
                    &&& self.grant_expires(owner@, operator@)
                        == self.operators@[i as int].expires
                },
                None => !self.has_grant(owner@, operator@),
            },
    {
        let n = self.operators.len();
        let pos = self.grant_lower_bound(owner, operator);
        if pos < n && str_eq(self.operators[pos].owner.as_str(), owner)
            && str_eq(self.operators[pos].operator.as_str(), operator) {
            proof {
                lemma_sorted_grant_idx(self.operators@, owner@, operator@, pos as int);
            }
            Some(pos)
        } else {
            proof {
                assert forall|k: int| 0 <= k < self.operators@.len() implies !(
                    (#[trigger] self.operators@[k]).owner@ == owner@
                    && self.operators@[k].operator@ == operator@) by {
                    let g = self.operators@[k];
                    if g.owner@ == owner@ && g.operator@ == operator@ {
                        if k < pos {
                            lemma_str_lt_irrefl(owner@);
                            lemma_str_lt_irrefl(operator@);
                        } else if k > pos {
                            let h = self.operators@[pos as int];
                            assert(grant_lt(h, g));
                            assert(grant_key_before(h, owner@, operator@));
                        } else {
                        }
                    }
                }
            }
            None
        }
    }

    /// Records the contract metadata.
    pub fn set_contract_info<E>(&mut self, info: ContractInfoResponse) -> (r: Result<
        crate::response::Response,
        crate::error::ContractError<E>,
    >)
        ensures
            r is Ok,
            final(self).contract_info == info,
            final(self).minter == old(self).minter,
            final(self).token_count == old(self).token_count,
            final(self).tokens == old(self).tokens,
            final(self).operators == old(self).operators,
    {
        self.contract_info = info;
        Ok(crate::response::Response::new())
    }

    /// Records the minter address.
    pub fn set_minter<E>(&mut self, minter: String) -> (r: Result<
        crate::response::Response,
        crate::error::ContractError<E>,
    >)
        ensures
            r is Ok,
            final(self).minter == minter,
            final(self).contract_info == old(self).contract_info,
            final(self).token_count == old(self).token_count,
            final(self).tokens == old(self).tokens,
            final(self).operators == old(self).operators,
    {
        self.minter = minter;
        Ok(crate::response::Response::new())
    }

    /// The recorded minter address.
    pub fn get_minter(&self) -> (r: &String)
        ensures
            r == self.minter,
    {
        &self.minter
    }

    /// The current token counter.
    pub fn token_count(&self) -> (r: u64)
        ensures
            r == self.token_count,
    {
        self.token_count
    }

    /// Increments the token counter; the counter never outgrows the token
    /// table, whose length bounds it away from the maximum.
    pub fn increment_tokens(&mut self) -> (r: u64)
        requires
            old(self).token_count < u64::MAX,
        ensures
            final(self).token_count == old(self).token_count + 1,
            r == final(self).token_count,
            final(self).contract_info == old(self).contract_info,
            final(self).minter == old(self).minter,
            final(self).tokens == old(self).tokens,
            final(self).operators == old(self).operators,
    {
        self.token_count = self.token_count + 1;
        self.token_count
    }

    /// Decrements the token counter; a burn only reaches it while a token is
    /// live, which keeps the counter above zero.
    pub fn decrement_tokens(&mut self) -> (r: u64)
        requires
            old(self).token_count > 0,
        ensures
            final(self).token_count == old(self).token_count - 1,
            r == final(self).token_count,
            final(self).contract_info == old(self).contract_info,
            final(self).minter == old(self).minter,
            final(self).tokens == old(self).tokens,
            final(self).operators == old(self).operators,
    {
        self.token_count = self.token_count - 1;
        self.token_count
    }
}

/// The key of `g` comes strictly before the pair `(owner, operator)`.
pub open spec fn grant_key_before(g: OperatorGrant, owner: Seq<char>, operator: Seq<char>) -> bool {
    str_lt(g.owner@, owner) || (g.owner@ == owner && str_lt(g.operator@, operator))
}

/// `grant_key_before` respects the registry order.
proof fn lemma_grant_key_before_trans(
    a: OperatorGrant,
    b: OperatorGrant,
    owner: Seq<char>,
    operator: Seq<char>,
)
    requires
        grant_lt(a, b),
        grant_key_before(b, owner, operator),
    ensures
        grant_key_before(a, owner, operator),
{
    if str_lt(a.owner@, b.owner@) && str_lt(b.owner@, owner) {
        lemma_str_lt_trans(a.owner@, b.owner@, owner);
    } else if a.owner@ == b.owner@ && b.owner@ == owner {
        lemma_str_lt_trans(a.operator@, b.operator@, operator);
    }
}

} // verus!
