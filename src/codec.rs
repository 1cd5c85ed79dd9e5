use vstd::prelude::*;

verus! {

/// Big-endian bytes of a 64-bit integer.
pub open spec fn u64_be(n: u64) -> Seq<u8> {
    seq![
        (n >> 56u64) as u8,
        (n >> 48u64) as u8,
        (n >> 40u64) as u8,
        (n >> 32u64) as u8,
        (n >> 24u64) as u8,
        (n >> 16u64) as u8,
        (n >> 8u64) as u8,
        n as u8,
    ]
}

/// A byte string preceded by its length.
pub open spec fn len_prefixed(b: Seq<u8>) -> Seq<u8> {
    u64_be(b.len() as u64) + b
}

/// The encodings of the items of `s`, one after another.
pub open spec fn joined<T>(s: Seq<T>, f: spec_fn(T) -> Seq<u8>) -> Seq<u8>
    decreases s.len(),
{
    if s.len() == 0 {
        seq![]
    } else {
        f(s[0]) + joined(s.drop_first(), f)
    }
}

/// Encoding one more item appends its encoding.
pub proof fn lemma_joined_push<T>(s: Seq<T>, f: spec_fn(T) -> Seq<u8>, x: T)
    ensures
        joined(s.push(x), f) == joined(s, f) + f(x),
    decreases s.len(),
{
    if s.len() == 0 {
        assert(s.push(x).drop_first() =~= s);
        assert(joined(s.push(x), f) =~= joined(s, f) + f(x));
    } else {
        assert(s.push(x).drop_first() =~= s.drop_first().push(x));
        lemma_joined_push(s.drop_first(), f, x);
        assert(joined(s.push(x), f) =~= joined(s, f) + f(x));
    }
}

/// Appends the big-endian bytes of `n`.
pub fn put_u64(out: &mut Vec<u8>, n: u64)
    ensures
        final(out)@ == old(out)@ + u64_be(n),
{
    out.push((n >> 56u64) as u8);
    out.push((n >> 48u64) as u8);
    out.push((n >> 40u64) as u8);
    out.push((n >> 32u64) as u8);
    out.push((n >> 24u64) as u8);
    out.push((n >> 16u64) as u8);
    out.push((n >> 8u64) as u8);
    out.push(n as u8);
    assert(final(out)@ =~= old(out)@ + u64_be(n));
}

/// Appends a byte string, preceded by its length.
pub fn put_bytes(out: &mut Vec<u8>, b: &[u8])
    ensures
        final(out)@ == old(out)@ + len_prefixed(b@),
{
    put_u64(out, b.len() as u64);
    let ghost mid = out@;
    let mut i: usize = 0;
    while i < b.len()
        invariant
            0 <= i <= b@.len(),
            out@ == mid + b@.subrange(0, i as int),
        decreases b@.len() - i,
    {
        out.push(b[i]);
        i = i + 1;
        assert(out@ =~= mid + b@.subrange(0, i as int));
    }
    assert(b@.subrange(0, b@.len() as int) =~= b@);
}

/// Whether `f` encodes every item satisfying `ok` so that no two encodings,
/// each followed by anything, can be confused unless the items have the same
/// model `m`.
pub open spec fn prefix_free<T, M>(
    f: spec_fn(T) -> Seq<u8>,
    m: spec_fn(T) -> M,
    ok: spec_fn(T) -> bool,
) -> bool {
    forall|a: T, b: T, q1: Seq<u8>, q2: Seq<u8>|
        #![trigger f(a) + q1, f(b) + q2]
        ok(a) && ok(b) && f(a) + q1 == f(b) + q2 ==> m(a) == m(b) && q1 == q2
}

/// Two concatenations whose first parts have equal lengths agree part by part.
pub proof fn lemma_split_equal(a1: Seq<u8>, b1: Seq<u8>, a2: Seq<u8>, b2: Seq<u8>)
    requires
        a1 + b1 == a2 + b2,
        a1.len() == a2.len(),
    ensures
        a1 == a2,
        b1 == b2,
{
    assert(a1 =~= (a1 + b1).subrange(0, a1.len() as int));
    assert(a2 =~= (a2 + b2).subrange(0, a2.len() as int));
    assert(b1 =~= (a1 + b1).subrange(a1.len() as int, (a1 + b1).len() as int));
    assert(b2 =~= (a2 + b2).subrange(a2.len() as int, (a2 + b2).len() as int));
}

/// The bytes of an integer, followed by anything, determine the integer.
pub proof fn lemma_u64_be_prefix(a: u64, b: u64, r1: Seq<u8>, r2: Seq<u8>)
    requires
        u64_be(a) + r1 == u64_be(b) + r2,
    ensures
        a == b,
        r1 == r2,
{
    lemma_split_equal(u64_be(a), r1, u64_be(b), r2);
    let x = u64_be(a);
    let y = u64_be(b);
    assert(x[0] == y[0] && x[1] == y[1] && x[2] == y[2] && x[3] == y[3]);
    assert(x[4] == y[4] && x[5] == y[5] && x[6] == y[6] && x[7] == y[7]);
    assert(a == b) by (bit_vector)
        requires
            (a >> 56u64) as u8 == (b >> 56u64) as u8,
            (a >> 48u64) as u8 == (b >> 48u64) as u8,
            (a >> 40u64) as u8 == (b >> 40u64) as u8,
            (a >> 32u64) as u8 == (b >> 32u64) as u8,
            (a >> 24u64) as u8 == (b >> 24u64) as u8,
            (a >> 16u64) as u8 == (b >> 16u64) as u8,
            (a >> 8u64) as u8 == (b >> 8u64) as u8,
            a as u8 == b as u8,
    ;
}

/// A length-prefixed byte string, followed by anything, determines the string.
pub proof fn lemma_len_prefixed_prefix(x: Seq<u8>, y: Seq<u8>, r1: Seq<u8>, r2: Seq<u8>)
    requires
        x.len() <= u64::MAX,
        y.len() <= u64::MAX,
        len_prefixed(x) + r1 == len_prefixed(y) + r2,
    ensures
        x == y,
        r1 == r2,
{
    assert(len_prefixed(x) + r1 =~= u64_be(x.len() as u64) + (x + r1));
    assert(len_prefixed(y) + r2 =~= u64_be(y.len() as u64) + (y + r2));
    lemma_u64_be_prefix(x.len() as u64, y.len() as u64, x + r1, y + r2);
    lemma_split_equal(x, r1, y, r2);
}

/// Equally many items, encoded one after another by a prefix-free encoding
/// and followed by anything, determine the items' models.
pub proof fn lemma_joined_prefix<T, M>(
    s1: Seq<T>,
    s2: Seq<T>,
    r1: Seq<u8>,
    r2: Seq<u8>,
    f: spec_fn(T) -> Seq<u8>,
    m: spec_fn(T) -> M,
    ok: spec_fn(T) -> bool,
)
    requires
        s1.len() == s2.len(),
        joined(s1, f) + r1 == joined(s2, f) + r2,
        forall|i: int| 0 <= i < s1.len() ==> ok(#[trigger] s1[i]),
        forall|i: int| 0 <= i < s2.len() ==> ok(#[trigger] s2[i]),
        prefix_free(f, m, ok),
    ensures
        forall|i: int| 0 <= i < s1.len() ==> m(#[trigger] s1[i]) == m(s2[i]),
        r1 == r2,
    decreases s1.len(),
{
    if s1.len() > 0 {
        let q1 = joined(s1.drop_first(), f) + r1;
        let q2 = joined(s2.drop_first(), f) + r2;
        assert(joined(s1, f) + r1 =~= f(s1[0]) + q1);
        assert(joined(s2, f) + r2 =~= f(s2[0]) + q2);
        assert(ok(s1[0]) && ok(s2[0]));
        assert(f(s1[0]) + q1 == f(s2[0]) + q2);
        lemma_joined_prefix(s1.drop_first(), s2.drop_first(), r1, r2, f, m, ok);
        assert forall|i: int| 0 <= i < s1.len() implies m(#[trigger] s1[i]) == m(s2[i]) by {
            if i > 0 {
                assert(s1[i] == s1.drop_first()[i - 1]);
                assert(s2[i] == s2.drop_first()[i - 1]);
            }
        }
    } else {
        assert(joined(s1, f) + r1 =~= r1);
        assert(joined(s2, f) + r2 =~= r2);
    }
}

} // verus!
