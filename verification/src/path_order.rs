//! The order in which cache files are pruned: lexicographic order on byte
//! strings, and on paths taken as sequences of components.

use vstd::prelude::*;

verus! {

/// Lexicographic comparison of byte strings: -1, 0 or 1.
pub open spec fn bytes_order(a: Seq<u8>, b: Seq<u8>) -> int
    decreases a.len(),
{
    if a.len() == 0 {
        if b.len() == 0 {
            0
        } else {
            -1
        }
    } else if b.len() == 0 {
        1
    } else if a[0] < b[0] {
        -1
    } else if a[0] > b[0] {
        1
    } else {
        bytes_order(a.drop_first(), b.drop_first())
    }
}

/// Lexicographic comparison of paths, component by component, each
/// component compared as a byte string: -1, 0 or 1.
pub open spec fn path_order(a: Seq<Seq<u8>>, b: Seq<Seq<u8>>) -> int
    decreases a.len(),
{
    if a.len() == 0 {
        if b.len() == 0 {
            0
        } else {
            -1
        }
    } else if b.len() == 0 {
        1
    } else if bytes_order(a[0], b[0]) != 0 {
        bytes_order(a[0], b[0])
    } else {
        path_order(a.drop_first(), b.drop_first())
    }
}

/// Byte strings compare in opposite ways from the two sides.
pub proof fn lemma_bytes_order_antisym(a: Seq<u8>, b: Seq<u8>)
    ensures
        bytes_order(a, b) == -bytes_order(b, a),
        -1 <= bytes_order(a, b) <= 1,
    decreases a.len(),
{
    if a.len() > 0 && b.len() > 0 && a[0] == b[0] {
        lemma_bytes_order_antisym(a.drop_first(), b.drop_first());
    }
}

/// Byte strings that compare equal are equal.
pub proof fn lemma_bytes_order_zero(a: Seq<u8>, b: Seq<u8>)
    ensures
        bytes_order(a, b) == 0 <==> a == b,
    decreases a.len(),
{
    if a.len() > 0 && b.len() > 0 && a[0] == b[0] {
        lemma_bytes_order_zero(a.drop_first(), b.drop_first());
        assert(a == b <==> a.drop_first() == b.drop_first()) by {
            if a.drop_first() == b.drop_first() {
                assert(a =~= seq![a[0]] + a.drop_first());
                assert(b =~= seq![b[0]] + b.drop_first());
            }
        }
    } else if a.len() > 0 && b.len() > 0 {
        assert(a[0] != b[0]);
    } else {
        if a == b {
            assert(a.len() == b.len());
        }
        if a.len() == 0 && b.len() == 0 {
            assert(a =~= b);
        }
    }
}

/// The byte-string order is transitive, strictly when either step is.
pub proof fn lemma_bytes_order_trans(a: Seq<u8>, b: Seq<u8>, c: Seq<u8>)
    requires
        bytes_order(a, b) <= 0,
        bytes_order(b, c) <= 0,
    ensures
        bytes_order(a, c) <= 0,
        (bytes_order(a, b) < 0 || bytes_order(b, c) < 0) ==> bytes_order(a, c) < 0,
    decreases a.len(),
{
    if a.len() > 0 && b.len() > 0 && c.len() > 0 && a[0] == b[0] && b[0] == c[0] {
        lemma_bytes_order_trans(a.drop_first(), b.drop_first(), c.drop_first());
    }
}

/// Paths compare in opposite ways from the two sides.
pub proof fn lemma_path_order_antisym(a: Seq<Seq<u8>>, b: Seq<Seq<u8>>)
    ensures
        path_order(a, b) == -path_order(b, a),
        -1 <= path_order(a, b) <= 1,
    decreases a.len(),
{
    if a.len() > 0 && b.len() > 0 {
        lemma_bytes_order_antisym(a[0], b[0]);
        if bytes_order(a[0], b[0]) == 0 {
            lemma_path_order_antisym(a.drop_first(), b.drop_first());
        }
    }
}

/// Paths that compare equal are equal.
pub proof fn lemma_path_order_zero(a: Seq<Seq<u8>>, b: Seq<Seq<u8>>)
    ensures
        path_order(a, b) == 0 <==> a == b,
    decreases a.len(),
{
    if a.len() > 0 && b.len() > 0 {
        lemma_bytes_order_zero(a[0], b[0]);
        if bytes_order(a[0], b[0]) == 0 {
            lemma_path_order_zero(a.drop_first(), b.drop_first());
            assert(a == b <==> a.drop_first() == b.drop_first()) by {
                if a.drop_first() == b.drop_first() {
                    assert(a =~= seq![a[0]] + a.drop_first());
                    assert(b =~= seq![b[0]] + b.drop_first());
                }
            }
        } else {
            assert(a[0] != b[0]);
        }
    } else {
        if a == b {
            assert(a.len() == b.len());
        }
        if a.len() == 0 && b.len() == 0 {
            assert(a =~= b);
        }
    }
}

/// The path order is transitive, strictly when either step is.
pub proof fn lemma_path_order_trans(a: Seq<Seq<u8>>, b: Seq<Seq<u8>>, c: Seq<Seq<u8>>)
    requires
        path_order(a, b) <= 0,
        path_order(b, c) <= 0,
    ensures
        path_order(a, c) <= 0,
        (path_order(a, b) < 0 || path_order(b, c) < 0) ==> path_order(a, c) < 0,
    decreases a.len(),
{
    if a.len() > 0 && b.len() > 0 && c.len() > 0 {
        lemma_bytes_order_antisym(a[0], b[0]);
        lemma_bytes_order_antisym(b[0], c[0]);
        lemma_bytes_order_antisym(a[0], c[0]);
        lemma_bytes_order_zero(a[0], b[0]);
        lemma_bytes_order_zero(b[0], c[0]);
        let ab = bytes_order(a[0], b[0]);
        let bc = bytes_order(b[0], c[0]);
        if ab <= 0 && bc <= 0 {
            lemma_bytes_order_trans(a[0], b[0], c[0]);
        }
        if ab == 0 && bc == 0 {
            lemma_path_order_trans(a.drop_first(), b.drop_first(), c.drop_first());
        }
    }
}

/// Compare two byte strings in the order of [`bytes_order`].
pub fn compare_bytes(a: &[u8], b: &[u8]) -> (r: i8)
    ensures
        r as int == bytes_order(a@, b@),
{
    let mut i: usize = 0;
    assert(a@.skip(0) =~= a@);
    assert(b@.skip(0) =~= b@);
    while i < a.len() && i < b.len()
        invariant
            i <= a@.len(),
            i <= b@.len(),
            bytes_order(a@, b@) == bytes_order(a@.skip(i as int), b@.skip(i as int)),
        decreases a@.len() - i,
    {
        assert(a@.skip(i as int)[0] == a@[i as int]);
        assert(b@.skip(i as int)[0] == b@[i as int]);
        if a[i] < b[i] {
            return -1;
        }
        if a[i] > b[i] {
            return 1;
        }
        assert(a@.skip(i as int).drop_first() =~= a@.skip(i + 1));
        assert(b@.skip(i as int).drop_first() =~= b@.skip(i + 1));
        i = i + 1;
    }
    if i < a.len() {
        1
    } else if i < b.len() {
        -1
    } else {
        0
    }
}

/// A path's components as byte strings.
pub open spec fn path_view(p: Seq<Vec<u8>>) -> Seq<Seq<u8>> {
    p.map_values(|c: Vec<u8>| c@)
}

/// Compare two paths in the order of [`path_order`].
pub fn compare_paths(a: &Vec<Vec<u8>>, b: &Vec<Vec<u8>>) -> (r: i8)
    ensures
        r as int == path_order(path_view(a@), path_view(b@)),
{
    let ghost pa = path_view(a@);
    let ghost pb = path_view(b@);
    let mut i: usize = 0;
    assert(pa.skip(0) =~= pa);
    assert(pb.skip(0) =~= pb);
    while i < a.len() && i < b.len()
        invariant
            pa == path_view(a@),
            pb == path_view(b@),
            i <= a@.len(),
            i <= b@.len(),
            path_order(pa, pb) == path_order(pa.skip(i as int), pb.skip(i as int)),
        decreases a@.len() - i,
    {
        assert(pa.skip(i as int)[0] == a@[i as int]@);
        assert(pb.skip(i as int)[0] == b@[i as int]@);
        let c = compare_bytes(a[i].as_slice(), b[i].as_slice());
        if c != 0 {
            return c;
        }
        assert(pa.skip(i as int).drop_first() =~= pa.skip(i + 1));
        assert(pb.skip(i as int).drop_first() =~= pb.skip(i + 1));
        i = i + 1;
    }
    if i < a.len() {
        1
    } else if i < b.len() {
        -1
    } else {
        0
    }
}

} // verus!
