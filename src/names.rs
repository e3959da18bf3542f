//! The order in which template names are kept: byte-wise lexicographic order
//! of their UTF-8 encoding, which is the order of `str` comparison.

use vstd::prelude::*;
use vstd::utf8::*;

verus! {

/// Strict lexicographic order on byte sequences; a proper prefix comes first.
pub open spec fn bytes_lt(a: Seq<u8>, b: Seq<u8>) -> bool
    decreases a.len(),
{
    if a.len() == 0 {
        b.len() > 0
    } else if b.len() == 0 {
        false
    } else if a[0] != b[0] {
        a[0] < b[0]
    } else {
        bytes_lt(a.drop_first(), b.drop_first())
    }
}

/// Strict order on template names.
pub open spec fn name_lt(a: Seq<char>, b: Seq<char>) -> bool {
    bytes_lt(encode_utf8(a), encode_utf8(b))
}

pub proof fn lemma_bytes_lt_irreflexive(a: Seq<u8>)
    ensures
        !bytes_lt(a, a),
    decreases a.len(),
{
    if a.len() > 0 {
        lemma_bytes_lt_irreflexive(a.drop_first());
    }
}

pub proof fn lemma_bytes_lt_transitive(a: Seq<u8>, b: Seq<u8>, c: Seq<u8>)
    requires
        bytes_lt(a, b),
        bytes_lt(b, c),
    ensures
        bytes_lt(a, c),
    decreases a.len(),
{
    if a.len() > 0 && b.len() > 0 && c.len() > 0 && a[0] == b[0] && b[0] == c[0] {
        lemma_bytes_lt_transitive(a.drop_first(), b.drop_first(), c.drop_first());
    }
}

pub proof fn lemma_bytes_lt_total(a: Seq<u8>, b: Seq<u8>)
    ensures
        a == b || bytes_lt(a, b) || bytes_lt(b, a),
    decreases a.len(),
{
    if a.len() > 0 && b.len() > 0 && a[0] == b[0] {
        lemma_bytes_lt_total(a.drop_first(), b.drop_first());
        if a.drop_first() == b.drop_first() {
            assert(a =~= seq![a[0]] + a.drop_first());
            assert(b =~= seq![b[0]] + b.drop_first());
        }
    } else if a.len() == 0 && b.len() == 0 {
        assert(a =~= b);
    }
}

pub proof fn lemma_name_lt_irreflexive(a: Seq<char>)
    ensures
        !name_lt(a, a),
{
    lemma_bytes_lt_irreflexive(encode_utf8(a));
}

pub proof fn lemma_name_lt_transitive(a: Seq<char>, b: Seq<char>, c: Seq<char>)
    requires
        name_lt(a, b),
        name_lt(b, c),
    ensures
        name_lt(a, c),
{
    lemma_bytes_lt_transitive(encode_utf8(a), encode_utf8(b), encode_utf8(c));
}

pub proof fn lemma_name_lt_total(a: Seq<char>, b: Seq<char>)
    ensures
        a == b || name_lt(a, b) || name_lt(b, a),
{
    lemma_bytes_lt_total(encode_utf8(a), encode_utf8(b));
    encode_utf8_decode_utf8(a);
    encode_utf8_decode_utf8(b);
}

/// Whether `a` comes strictly before `b` in name order.
pub fn name_less(a: &str, b: &str) -> (r: bool)
    ensures
        r == name_lt(a@, b@),
{
    let x = a.as_bytes();
    let y = b.as_bytes();
    let ghost xs = x@;
    let ghost ys = y@;
    let mut i: usize = 0;
    assert(xs.skip(0) =~= xs);
    assert(ys.skip(0) =~= ys);
    while i < x.len() && i < y.len() && x[i] == y[i]
        invariant
            x@ == xs,
            y@ == ys,
            xs == encode_utf8(a@),
            ys == encode_utf8(b@),
            i <= xs.len(),
            i <= ys.len(),
            bytes_lt(xs, ys) == bytes_lt(xs.skip(i as int), ys.skip(i as int)),
        decreases xs.len() - i,
    {
        assert(xs.skip(i as int).drop_first() =~= xs.skip(i + 1));
        assert(ys.skip(i as int).drop_first() =~= ys.skip(i + 1));
        i = i + 1;
    }
    if i == x.len() {
        i < y.len()
    } else if i == y.len() {
        false
    } else {
        x[i] < y[i]
    }
}

/// Whether two names are the same.
pub fn same_name(a: &str, b: &str) -> (r: bool)
    ensures
        r == (a@ == b@),
{
    proof {
        lemma_name_lt_total(a@, b@);
        lemma_name_lt_irreflexive(a@);
    }
    !name_less(a, b) && !name_less(b, a)
}

} // verus!
