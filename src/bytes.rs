use vstd::prelude::*;
use vstd::utf8::{encode_utf8, encode_utf8_decode_utf8};
use vstd::string::StringSliceAdditionalSpecFns;

verus! {

/// Strict lexicographic order on byte strings: the order of Rust's `str`
/// and `String`.
pub open spec fn lex_lt(a: Seq<u8>, b: Seq<u8>) -> bool
    decreases a.len(),
{
    if a.len() == 0 {
        b.len() > 0
    } else if b.len() == 0 {
        false
    } else if a[0] != b[0] {
        a[0] < b[0]
    } else {
        lex_lt(a.drop_first(), b.drop_first())
    }
}

/// The UTF-8 bytes of a string, by which strings are ordered.
pub open spec fn key_bytes(s: Seq<char>) -> Seq<u8> {
    encode_utf8(s)
}

pub proof fn lemma_lex_irreflexive(a: Seq<u8>)
    ensures
        !lex_lt(a, a),
    decreases a.len(),
{
    if a.len() > 0 {
        lemma_lex_irreflexive(a.drop_first());
    }
}

pub proof fn lemma_lex_asymmetric(a: Seq<u8>, b: Seq<u8>)
    ensures
        !(lex_lt(a, b) && lex_lt(b, a)),
    decreases a.len(),
{
    if a.len() > 0 && b.len() > 0 && a[0] == b[0] {
        lemma_lex_asymmetric(a.drop_first(), b.drop_first());
    }
}

pub proof fn lemma_lex_transitive(a: Seq<u8>, b: Seq<u8>, c: Seq<u8>)
    requires
        lex_lt(a, b),
        lex_lt(b, c),
    ensures
        lex_lt(a, c),
    decreases a.len(),
{
    if a.len() > 0 && b.len() > 0 && c.len() > 0 && a[0] == b[0] && b[0] == c[0] {
        lemma_lex_transitive(a.drop_first(), b.drop_first(), c.drop_first());
    }
}

/// Two strings are equal exactly when their UTF-8 bytes are.
pub proof fn lemma_key_bytes_injective(s: Seq<char>, t: Seq<char>)
    ensures
        key_bytes(s) == key_bytes(t) <==> s == t,
{
    encode_utf8_decode_utf8(s);
    encode_utf8_decode_utf8(t);
}

/// Compares two byte strings: negative, zero or positive as `a` is below,
/// equal to or above `b` in lexicographic order.
pub fn compare_bytes(a: &[u8], b: &[u8]) -> (r: i8)
    ensures
        r == 0 <==> a@ == b@,
        r < 0 <==> lex_lt(a@, b@),
        r > 0 <==> lex_lt(b@, a@),
{
    let mut i: usize = 0;
    assert(a@.subrange(0, a@.len() as int) =~= a@);
    assert(b@.subrange(0, b@.len() as int) =~= b@);
    while i < a.len() && i < b.len()
        invariant
            i <= a@.len(),
            i <= b@.len(),
            a@.subrange(0, i as int) == b@.subrange(0, i as int),
            lex_lt(a@, b@) == lex_lt(a@.subrange(i as int, a@.len() as int), b@.subrange(i as int, b@.len() as int)),
            lex_lt(b@, a@) == lex_lt(b@.subrange(i as int, b@.len() as int), a@.subrange(i as int, a@.len() as int)),
        decreases a@.len() - i,
    {
        let x = a[i];
        let y = b[i];
        if x != y {
            proof {
                lemma_lex_asymmetric(a@, b@);
                assert(a@[i as int] != b@[i as int]);
            }
            if x < y {
                return -1;
            } else {
                return 1;
            }
        }
        proof {
            let sa = a@.subrange(i as int, a@.len() as int);
            let sb = b@.subrange(i as int, b@.len() as int);
            assert(sa.drop_first() =~= a@.subrange(i + 1, a@.len() as int));
            assert(sb.drop_first() =~= b@.subrange(i + 1, b@.len() as int));
            assert(a@.subrange(0, i + 1) =~= a@.subrange(0, i as int).push(x));
            assert(b@.subrange(0, i + 1) =~= b@.subrange(0, i as int).push(y));
        }
        i = i + 1;
    }
    proof {
        lemma_lex_irreflexive(a@);
    }
    if a.len() == b.len() {
        assert(a@ =~= a@.subrange(0, i as int));
        assert(b@ =~= b@.subrange(0, i as int));
        0
    } else if a.len() < b.len() {
        assert(a@ != b@);
        -1
    } else {
        assert(a@ != b@);
        1
    }
}

/// Whether two strings hold the same characters.
pub fn str_eq(a: &str, b: &str) -> (r: bool)
    ensures
        r == (a@ == b@),
{
    let c = compare_bytes(a.as_bytes(), b.as_bytes());
    proof {
        lemma_key_bytes_injective(a@, b@);
    }
    c == 0
}

/// Compares two strings in the order of their UTF-8 bytes.
pub fn compare_str(a: &str, b: &str) -> (r: i8)
    ensures
        r == 0 <==> a@ == b@,
        r < 0 <==> lex_lt(key_bytes(a@), key_bytes(b@)),
        r > 0 <==> lex_lt(key_bytes(b@), key_bytes(a@)),
{
    let c = compare_bytes(a.as_bytes(), b.as_bytes());
    proof {
        lemma_key_bytes_injective(a@, b@);
    }
    c
}

} // verus!
