//! The scheduler's resolution order for plugin outputs: by entity id, then
//! plugin id (lexicographically), then per-plugin sequence number.
use vstd::prelude::*;
use vstd::string::StrSliceExecFns;
use crate::ids::{EntityId, PluginId};

verus! {

/// Strict lexicographic order on character sequences, by code point.
pub open spec fn chars_lt(a: Seq<char>, b: Seq<char>) -> bool
    decreases a.len(),
{
    if a.len() == 0 {
        b.len() > 0
    } else if b.len() == 0 {
        false
    } else if a[0] != b[0] {
        (a[0] as int) < (b[0] as int)
    } else {
        chars_lt(a.drop_first(), b.drop_first())
    }
}

/// No sequence precedes itself.
pub proof fn lemma_chars_lt_irreflexive(a: Seq<char>)
    ensures
        !chars_lt(a, a),
    decreases a.len(),
{
    if a.len() > 0 {
        lemma_chars_lt_irreflexive(a.drop_first());
    }
}

/// The lexicographic order is transitive.
pub proof fn lemma_chars_lt_transitive(a: Seq<char>, b: Seq<char>, c: Seq<char>)
    requires
        chars_lt(a, b),
        chars_lt(b, c),
    ensures
        chars_lt(a, c),
    decreases a.len(),
{
    if a.len() > 0 && b.len() > 0 && c.len() > 0 {
        if a[0] == b[0] && b[0] == c[0] {
            lemma_chars_lt_transitive(a.drop_first(), b.drop_first(), c.drop_first());
        }
    }
}

/// Of two different sequences, one precedes the other.
pub proof fn lemma_chars_lt_total(a: Seq<char>, b: Seq<char>)
    requires
        a != b,
    ensures
        chars_lt(a, b) || chars_lt(b, a),
    decreases a.len(),
{
    if a.len() > 0 && b.len() > 0 {
        if a[0] == b[0] {
            if a.drop_first() == b.drop_first() {
                assert(a =~= seq![a[0]] + a.drop_first());
                assert(b =~= seq![b[0]] + b.drop_first());
            }
            lemma_chars_lt_total(a.drop_first(), b.drop_first());
        } else {
            assert((a[0] as int) != (b[0] as int));
        }
    } else if a.len() == 0 && b.len() == 0 {
        assert(a =~= b);
    }
}

/// Whether `a` precedes `b` lexicographically.
pub fn str_lt(a: &str, b: &str) -> (r: bool)
    ensures
        r == chars_lt(a@, b@),
{
    let na = a.unicode_len();
    let nb = b.unicode_len();
    let mut i: usize = 0;
    assert(a@.skip(0) =~= a@);
    assert(b@.skip(0) =~= b@);
    while i < na && i < nb
        invariant
            na == a@.len(),
            nb == b@.len(),
            i <= na,
            i <= nb,
            chars_lt(a@, b@) == chars_lt(a@.skip(i as int), b@.skip(i as int)),
        decreases na - i,
    {
        let ca = a.get_char(i);
        let cb = b.get_char(i);
        if ca != cb {
            assert(a@.skip(i as int)[0] == ca);
            assert(b@.skip(i as int)[0] == cb);
            return (ca as u32) < (cb as u32);
        }
        assert(a@.skip(i as int).drop_first() =~= a@.skip(i + 1));
        assert(b@.skip(i as int).drop_first() =~= b@.skip(i + 1));
        i = i + 1;
    }
    assert(a@.skip(i as int).len() == na - i);
    assert(b@.skip(i as int).len() == nb - i);
    i == na && i < nb
}


/// The sort key of an output envelope: the emitting entity, the emitting
/// plugin and the plugin's own emission index.
#[derive(Clone, Debug)]
pub struct EnvelopeKey {
    pub entity_id: EntityId,
    pub plugin_id: PluginId,
    pub sequence: u32,
}

impl View for EnvelopeKey {
    type V = (u64, Seq<char>, u32);

    open spec fn view(&self) -> (u64, Seq<char>, u32) {
        (self.entity_id.0, self.plugin_id@, self.sequence)
    }
}

/// Resolution order on key views: entity id, then plugin id
/// lexicographically, then sequence.
pub open spec fn key_lt(a: (u64, Seq<char>, u32), b: (u64, Seq<char>, u32)) -> bool {
    ||| a.0 < b.0
    ||| (a.0 == b.0 && chars_lt(a.1, b.1))
    ||| (a.0 == b.0 && a.1 == b.1 && a.2 < b.2)
}

/// No key precedes itself.
pub proof fn lemma_key_lt_irreflexive(a: (u64, Seq<char>, u32))
    ensures
        !key_lt(a, a),
{
    lemma_chars_lt_irreflexive(a.1);
}

/// The resolution order is transitive.
pub proof fn lemma_key_lt_transitive(
    a: (u64, Seq<char>, u32),
    b: (u64, Seq<char>, u32),
    c: (u64, Seq<char>, u32),
)
    requires
        key_lt(a, b),
        key_lt(b, c),
    ensures
        key_lt(a, c),
{
    if a.0 == b.0 && b.0 == c.0 {
        if chars_lt(a.1, b.1) && chars_lt(b.1, c.1) {
            lemma_chars_lt_transitive(a.1, b.1, c.1);
        }
    }
}

/// Of two different keys, one precedes the other.
pub proof fn lemma_key_lt_total(a: (u64, Seq<char>, u32), b: (u64, Seq<char>, u32))
    requires
        a != b,
    ensures
        key_lt(a, b) || key_lt(b, a),
{
    if a.0 == b.0 && a.1 != b.1 {
        lemma_chars_lt_total(a.1, b.1);
    }
}

/// The resolution order is a strict total order on envelope keys:
/// irreflexive, asymmetric, transitive, and any two different keys are
/// ordered one way or the other.
pub proof fn lemma_resolution_order_strict_total(
    a: (u64, Seq<char>, u32),
    b: (u64, Seq<char>, u32),
    c: (u64, Seq<char>, u32),
)
    ensures
        !key_lt(a, a),
        key_lt(a, b) ==> !key_lt(b, a),
        key_lt(a, b) && key_lt(b, c) ==> key_lt(a, c),
        a != b ==> (key_lt(a, b) || key_lt(b, a)),
{
    lemma_key_lt_irreflexive(a);
    if key_lt(a, b) && key_lt(b, a) {
        lemma_key_lt_transitive(a, b, a);
    }
    if key_lt(a, b) && key_lt(b, c) {
        lemma_key_lt_transitive(a, b, c);
    }
    if a != b {
        lemma_key_lt_total(a, b);
    }
}

/// Whether key `a` comes before key `b` in resolution order.
pub fn key_precedes(a: &EnvelopeKey, b: &EnvelopeKey) -> (r: bool)
    ensures
        r == key_lt(a@, b@),
{
    if a.entity_id.0 != b.entity_id.0 {
        return a.entity_id.0 < b.entity_id.0;
    }
    let pa = a.plugin_id.as_str();
    let pb = b.plugin_id.as_str();
    if str_lt(pa, pb) {
        return true;
    }
    if str_lt(pb, pa) {
        proof {
            lemma_chars_lt_irreflexive(a@.1);
        }
        return false;
    }
    proof {
        if a@.1 != b@.1 {
            lemma_chars_lt_total(a@.1, b@.1);
        }
    }
    a.sequence < b.sequence
}

/// Whether the indices in `order` list the keys in nondecreasing resolution order.
pub open spec fn sorted_by_key(keys: Seq<(u64, Seq<char>, u32)>, order: Seq<usize>) -> bool {
    forall|i: int, j: int|
        0 <= i < j < order.len() ==> !key_lt(#[trigger] keys[order[j] as int], #[trigger] keys[order[i] as int])
}

/// Whether indices of equal keys appear in `order` in ascending order.
pub open spec fn keeps_equal_keys_in_order(keys: Seq<(u64, Seq<char>, u32)>, order: Seq<usize>) -> bool {
    forall|i: int, j: int|
        0 <= i < j < order.len() && keys[order[i] as int] == keys[order[j] as int]
            ==> #[trigger] order[i] < #[trigger] order[j]
}

/// Whether `order` lists each index of `0..n` exactly once.
pub open spec fn is_index_permutation(order: Seq<usize>, n: nat) -> bool {
    &&& order.len() == n
    &&& forall|i: int| 0 <= i < order.len() ==> #[trigger] order[i] < n
    &&& forall|i: int, j: int| 0 <= i < j < order.len() ==> #[trigger] order[i] != #[trigger] order[j]
}

/// The views of a list of keys.
pub open spec fn key_views(keys: Seq<EnvelopeKey>) -> Seq<(u64, Seq<char>, u32)> {
    keys.map_values(|k: EnvelopeKey| k@)
}

/// The order in which envelopes with these keys are resolved: a permutation
/// of the indices that lists the keys in nondecreasing order, keeping equal
/// keys in their given order. Where the keys are pairwise different, the
/// order is strictly ascending.
pub fn resolution_order(keys: &Vec<EnvelopeKey>) -> (r: Vec<usize>)
    ensures
        is_index_permutation(r@, keys@.len()),
        sorted_by_key(key_views(keys@), r@),
        keeps_equal_keys_in_order(key_views(keys@), r@),
        (forall|i: int, j: int| 0 <= i < j < keys@.len() ==> keys@[i]@ != keys@[j]@) ==>
            (forall|i: int, j: int| 0 <= i < j < r@.len() ==>
                key_lt(#[trigger] keys@[r@[i] as int]@, #[trigger] keys@[r@[j] as int]@)),
{
    let ghost kv = key_views(keys@);
    let mut r: Vec<usize> = Vec::new();
    let mut n: usize = 0;
    while n < keys.len()
        invariant
            kv == key_views(keys@),
            n <= keys@.len(),
            r@.len() == n,
            forall|i: int| 0 <= i < r@.len() ==> #[trigger] r@[i] < n,
            forall|i: int, j: int| 0 <= i < j < r@.len() ==> #[trigger] r@[i] != #[trigger] r@[j],
            sorted_by_key(kv, r@),
            keeps_equal_keys_in_order(kv, r@),
        decreases keys@.len() - n,
    {
        // Find the first position whose key is strictly after keys[n].
        let mut pos: usize = 0;
        while pos < r.len() && !key_precedes(&keys[n], &keys[r[pos]])
            invariant
                kv == key_views(keys@),
                n < keys@.len(),
                pos <= r@.len(),
                forall|i: int| 0 <= i < r@.len() ==> #[trigger] r@[i] < n,
                forall|j: int| 0 <= j < pos ==> !key_lt(kv[n as int], #[trigger] kv[r@[j] as int]),
            decreases r@.len() - pos,
        {
            pos = pos + 1;
        }
        let ghost old_r = r@;
        proof {
            if pos < old_r.len() {
                assert(key_lt(kv[n as int], kv[old_r[pos as int] as int]));
            }
            assert forall|j: int| pos <= j < old_r.len() implies
                !key_lt(#[trigger] kv[old_r[j] as int], kv[n as int]) by {
                if key_lt(kv[old_r[j] as int], kv[n as int]) {
                    lemma_key_lt_transitive(kv[old_r[j] as int], kv[n as int], kv[old_r[pos as int] as int]);
                    if j > pos {
                        assert(!key_lt(kv[old_r[j] as int], kv[old_r[pos as int] as int]));
                    } else {
                        lemma_key_lt_irreflexive(kv[old_r[j] as int]);
                    }
                }
            }
        }
        r.insert(pos, n);
        proof {
            let nr = r@;
            assert(nr == old_r.insert(pos as int, n));
            assert forall|i: int| 0 <= i < nr.len() implies #[trigger] nr[i] < n + 1 by {
                if i < pos {
                    assert(nr[i] == old_r[i]);
                } else if i > pos {
                    assert(nr[i] == old_r[i - 1]);
                }
            }
            assert forall|i: int, j: int| 0 <= i < j < nr.len() implies #[trigger] nr[i] != #[trigger] nr[j] by {
                if i < pos && j < pos {
                    assert(nr[i] == old_r[i] && nr[j] == old_r[j]);
                } else if i < pos && j == pos {
                    assert(nr[i] == old_r[i]);
                } else if i < pos && j > pos {
                    assert(nr[i] == old_r[i] && nr[j] == old_r[j - 1]);
                } else if i == pos {
                    assert(nr[j] == old_r[j - 1]);
                } else {
                    assert(nr[i] == old_r[i - 1] && nr[j] == old_r[j - 1]);
                }
            }
            assert forall|i: int, j: int| 0 <= i < j < nr.len() implies
                !key_lt(#[trigger] kv[nr[j] as int], #[trigger] kv[nr[i] as int]) by {
                if i < pos && j < pos {
                    assert(nr[i] == old_r[i] && nr[j] == old_r[j]);
                } else if i < pos && j == pos {
                    assert(nr[i] == old_r[i]);
                } else if i < pos && j > pos {
                    assert(nr[i] == old_r[i] && nr[j] == old_r[j - 1]);
                    if key_lt(kv[nr[j] as int], kv[nr[i] as int]) {
                        assert(!key_lt(kv[old_r[j - 1] as int], kv[old_r[i] as int]));
                    }
                } else if i == pos {
                    assert(nr[j] == old_r[j - 1]);
                } else {
                    assert(nr[i] == old_r[i - 1] && nr[j] == old_r[j - 1]);
                }
            }
        }
        proof {
            let nr = r@;
            assert forall|i: int, j: int| 0 <= i < j < nr.len() && kv[nr[i] as int] == kv[nr[j] as int]
                implies #[trigger] nr[i] < #[trigger] nr[j] by {
                if i < pos && j < pos {
                    assert(nr[i] == old_r[i] && nr[j] == old_r[j]);
                } else if i < pos && j == pos {
                    assert(nr[i] == old_r[i]);
                } else if i < pos && j > pos {
                    assert(nr[i] == old_r[i] && nr[j] == old_r[j - 1]);
                } else if i == pos {
                    assert(nr[j] == old_r[j - 1]);
                    assert(key_lt(kv[n as int], kv[old_r[pos as int] as int]));
                    if j - 1 > pos {
                        assert(!key_lt(kv[old_r[j - 1] as int], kv[old_r[pos as int] as int]));
                    } else {
                        lemma_key_lt_irreflexive(kv[n as int]);
                    }
                } else {
                    assert(nr[i] == old_r[i - 1] && nr[j] == old_r[j - 1]);
                }
            }
        }
        n = n + 1;
    }
    proof {
        if forall|i: int, j: int| 0 <= i < j < keys@.len() ==> keys@[i]@ != keys@[j]@ {
            assert forall|i: int, j: int| 0 <= i < j < r@.len() implies
                key_lt(#[trigger] keys@[r@[i] as int]@, #[trigger] keys@[r@[j] as int]@) by {
                let a = r@[i] as int;
                let b = r@[j] as int;
                assert(kv[a] == keys@[a]@);
                assert(kv[b] == keys@[b]@);
                assert(!key_lt(kv[b], kv[a]));
                if a < b {
                    assert(keys@[a]@ != keys@[b]@);
                } else {
                    assert(keys@[b]@ != keys@[a]@);
                }
                lemma_key_lt_total(kv[a], kv[b]);
            }
        }
    }
    r
}

} // verus!
