//! The order of paths.
//!
//! Paths are ordered component by component, and a component by its bytes:
//! `a/z` comes before `a-b`, because `a` comes before `a-b`. That is the
//! order of the bytes of the two paths in which the separator `/` ranks
//! below every other byte, and a path comes before every path that it
//! begins.
use vstd::prelude::*;
use vstd::utf8::encode_utf8;

verus! {

/// The rank of a byte of a path: the separator first, then the bytes by
/// their value.
pub open spec fn byte_rank(b: u8) -> int {
    if b == 47 {
        0
    } else {
        b + 1
    }
}

/// Whether the bytes of `a` from index `i` on come before those of `b`, or
/// are the same.
pub open spec fn bytes_le_from(a: Seq<u8>, b: Seq<u8>, i: int) -> bool
    decreases a.len() - i,
{
    if i < 0 {
        false
    } else if i >= a.len() {
        true
    } else if i >= b.len() {
        false
    } else if byte_rank(a[i]) != byte_rank(b[i]) {
        byte_rank(a[i]) < byte_rank(b[i])
    } else {
        bytes_le_from(a, b, i + 1)
    }
}

/// Whether the path `a` comes before the path `b` or is the same path.
pub open spec fn path_le(a: Seq<char>, b: Seq<char>) -> bool {
    bytes_le_from(encode_utf8(a), encode_utf8(b), 0)
}

/// Whether the paths of a list of entries ascend: no entry comes after one
/// that stands behind it.
pub open spec fn ascending<S>(entries: Seq<(Seq<char>, S)>) -> bool {
    forall|i: int, j: int|
        0 <= i < j < entries.len() ==> path_le(#[trigger] entries[i].0, #[trigger] entries[j].0)
}

/// How two paths are ordered.
#[derive(Clone, Copy, Debug, PartialEq, Eq, Structural)]
pub enum PathOrder {
    /// The first comes before the second.
    Before,
    /// They are the same path.
    Same,
    /// The first comes after the second.
    After,
}

/// How two paths are ordered, told by `path_le`.
pub open spec fn spec_path_order(a: Seq<char>, b: Seq<char>) -> PathOrder {
    if path_le(a, b) {
        if path_le(b, a) {
            PathOrder::Same
        } else {
            PathOrder::Before
        }
    } else {
        PathOrder::After
    }
}

/// Compares two paths by their bytes.
pub fn compare_paths(a: &str, b: &str) -> (r: PathOrder)
    ensures
        r == spec_path_order(a@, b@),
{
    let x = a.as_bytes();
    let y = b.as_bytes();
    let mut i: usize = 0;
    while i < x.len() && i < y.len()
        invariant
            x@ == encode_utf8(a@),
            y@ == encode_utf8(b@),
            i <= x.len(),
            i <= y.len(),
            bytes_le_from(x@, y@, 0) == bytes_le_from(x@, y@, i as int),
            bytes_le_from(y@, x@, 0) == bytes_le_from(y@, x@, i as int),
        decreases x.len() - i,
    {
        if x[i] != y[i] {
            let before = if x[i] == 47u8 {
                true
            } else if y[i] == 47u8 {
                false
            } else {
                x[i] < y[i]
            };
            return if before {
                PathOrder::Before
            } else {
                PathOrder::After
            };
        }
        i = i + 1;
    }
    if i < y.len() {
        PathOrder::Before
    } else if i < x.len() {
        PathOrder::After
    } else {
        PathOrder::Same
    }
}

/// Of two paths one comes before the other, or they are the same.
pub proof fn lemma_bytes_le_total(a: Seq<u8>, b: Seq<u8>, i: int)
    requires
        0 <= i,
    ensures
        bytes_le_from(a, b, i) || bytes_le_from(b, a, i),
    decreases a.len() - i,
{
    if i < a.len() && i < b.len() && byte_rank(a[i]) == byte_rank(b[i]) {
        lemma_bytes_le_total(a, b, i + 1);
    }
}

/// What comes before something that comes before a third comes before the
/// third.
pub proof fn lemma_bytes_le_transitive(a: Seq<u8>, b: Seq<u8>, c: Seq<u8>, i: int)
    requires
        0 <= i,
        bytes_le_from(a, b, i),
        bytes_le_from(b, c, i),
    ensures
        bytes_le_from(a, c, i),
    decreases a.len() - i,
{
    if i < a.len() && byte_rank(a[i]) == byte_rank(b[i]) && byte_rank(b[i]) == byte_rank(c[i]) {
        lemma_bytes_le_transitive(a, b, c, i + 1);
    }
}

/// Two paths of which each comes before the other, or is the same, have the
/// same bytes from `i` on.
pub proof fn lemma_bytes_le_antisymmetric(a: Seq<u8>, b: Seq<u8>, i: int)
    requires
        0 <= i <= a.len(),
        i <= b.len(),
        bytes_le_from(a, b, i),
        bytes_le_from(b, a, i),
    ensures
        a.len() == b.len(),
        forall|k: int| i <= k < a.len() ==> a[k] == b[k],
    decreases a.len() - i,
{
    if i < a.len() {
        lemma_bytes_le_antisymmetric(a, b, i + 1);
    }
}

/// The order of paths is a total order: every path is at its own place, of
/// two paths one comes first, what comes before something that comes before
/// a third comes before the third, and two paths that are at the same place
/// are written with the same bytes.
pub proof fn lemma_path_order_is_total(a: Seq<char>, b: Seq<char>, c: Seq<char>)
    ensures
        path_le(a, a),
        path_le(a, b) || path_le(b, a),
        path_le(a, b) && path_le(b, c) ==> path_le(a, c),
        path_le(a, b) && path_le(b, a) ==> encode_utf8(a) == encode_utf8(b),
{
    let (x, y, z) = (encode_utf8(a), encode_utf8(b), encode_utf8(c));
    lemma_bytes_le_total(x, x, 0);
    lemma_bytes_le_total(x, y, 0);
    if path_le(a, b) && path_le(b, c) {
        lemma_bytes_le_transitive(x, y, z, 0);
    }
    if path_le(a, b) && path_le(b, a) {
        lemma_bytes_le_antisymmetric(x, y, 0);
        assert(x =~= y);
    }
}

/// Whether the paths of a list of entries ascend and no two of them are
/// the same path.
pub open spec fn strictly_ascending<S>(entries: Seq<(Seq<char>, S)>) -> bool {
    forall|i: int, j: int|
        0 <= i < j < entries.len() ==> path_le(#[trigger] entries[i].0, #[trigger] entries[j].0)
            && !path_le(entries[j].0, entries[i].0)
}

/// The order of paths leaves no choice: of the entries of a list in which no
/// path occurs twice there is one arrangement that ascends, and no other.
pub proof fn lemma_ascending_arrangement_is_unique<S>(
    s: Seq<(Seq<char>, S)>,
    t: Seq<(Seq<char>, S)>,
)
    requires
        strictly_ascending(s),
        ascending(t),
        s.to_multiset() == t.to_multiset(),
    ensures
        s == t,
    decreases s.len(),
{
    vstd::seq_lib::to_multiset_len(s);
    vstd::seq_lib::to_multiset_len(t);
    assert(s.len() == t.len());
    if s.len() == 0 {
        assert(s =~= t);
    } else {
        vstd::seq_lib::to_multiset_contains(t, t[0]);
        vstd::seq_lib::to_multiset_contains(s, t[0]);
        vstd::seq_lib::to_multiset_contains(s, s[0]);
        vstd::seq_lib::to_multiset_contains(t, s[0]);
        assert(t.contains(t[0]));
        assert(s.contains(s[0]));
        let k = choose|k: int| 0 <= k < s.len() && s[k] == t[0];
        let m = choose|m: int| 0 <= m < t.len() && t[m] == s[0];
        if m != 0 && k != 0 {
            assert(path_le(t[0].0, t[m].0));
            assert(!path_le(s[k].0, s[0].0));
        }
        assert(s[0] == t[0]);
        let s1 = s.remove(0);
        let t1 = t.remove(0);
        vstd::seq_lib::to_multiset_remove(s, 0);
        vstd::seq_lib::to_multiset_remove(t, 0);
        assert forall|i: int, j: int| 0 <= i < j < s1.len() implies path_le(
            #[trigger] s1[i].0,
            #[trigger] s1[j].0,
        ) && !path_le(s1[j].0, s1[i].0) by {
            assert(s1[i] == s[i + 1] && s1[j] == s[j + 1]);
        }
        assert forall|i: int, j: int| 0 <= i < j < t1.len() implies path_le(
            #[trigger] t1[i].0,
            #[trigger] t1[j].0,
        ) by {
            assert(t1[i] == t[i + 1] && t1[j] == t[j + 1]);
        }
        lemma_ascending_arrangement_is_unique(s1, t1);
        assert(s =~= seq![s[0]] + s1);
        assert(t =~= seq![t[0]] + t1);
    }
}

} // verus!
