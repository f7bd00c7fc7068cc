//! Lowercase hexadecimal rendering of byte strings, as used for digests.

use vstd::prelude::*;

verus! {

/// The character for one hexadecimal digit value, lowercase.
pub open spec fn hex_digit(n: u8) -> char
    recommends
        n < 16,
{
    if n < 10 {
        (n + 48) as char
    } else {
        (n + 87) as char
    }
}

/// The two lowercase hex characters of one byte, high nibble first.
pub open spec fn hex_of_byte(b: u8) -> Seq<char> {
    seq![hex_digit(b / 16), hex_digit(b % 16)]
}

/// The lowercase hexadecimal rendering of a byte sequence.
pub open spec fn hex_of_bytes(s: Seq<u8>) -> Seq<char>
    decreases s.len(),
{
    if s.len() == 0 {
        Seq::empty()
    } else {
        hex_of_byte(s[0]) + hex_of_bytes(s.drop_first())
    }
}

pub proof fn lemma_hex_of_bytes_len(s: Seq<u8>)
    ensures
        hex_of_bytes(s).len() == 2 * s.len(),
    decreases s.len(),
{
    if s.len() != 0 {
        lemma_hex_of_bytes_len(s.drop_first());
    }
}

/// Rendering distributes over concatenation.
pub proof fn lemma_hex_of_bytes_add(a: Seq<u8>, b: Seq<u8>)
    ensures
        hex_of_bytes(a + b) == hex_of_bytes(a) + hex_of_bytes(b),
    decreases a.len(),
{
    if a.len() == 0 {
        assert(a + b =~= b);
        assert(hex_of_bytes(a) + hex_of_bytes(b) =~= hex_of_bytes(b));
    } else {
        lemma_hex_of_bytes_add(a.drop_first(), b);
        assert((a + b).drop_first() =~= a.drop_first() + b);
        assert(hex_of_byte((a + b)[0]) + (hex_of_bytes(a.drop_first()) + hex_of_bytes(b)) =~= (
        hex_of_byte(a[0]) + hex_of_bytes(a.drop_first())) + hex_of_bytes(b));
    }
}

fn hex_digit_char(n: u8) -> (c: char)
    requires
        n < 16,
    ensures
        c == hex_digit(n),
{
    if n < 10 {
        (n + 48) as char
    } else {
        (n + 87) as char
    }
}

/// Relies on String::push: appends the given character at the end.
#[verifier::external_body]
fn push_char(s: &mut String, c: char)
    ensures
        final (s)@ == old(s)@.push(c),
{
    s.push(c);
}

/// The lowercase hex string of a byte slice, two characters per byte.
pub fn bytes_to_hex(bytes: &[u8]) -> (r: String)
    ensures
        r@ == hex_of_bytes(bytes@),
        r@.len() == 2 * bytes@.len(),
{
    let mut r = String::new();
    let mut i: usize = 0;
    while i < bytes.len()
        invariant
            i <= bytes.len(),
            r@ == hex_of_bytes(bytes@.take(i as int)),
        decreases bytes.len() - i,
    {
        let b = bytes[i];
        let hi = hex_digit_char(b / 16);
        let lo = hex_digit_char(b % 16);
        push_char(&mut r, hi);
        push_char(&mut r, lo);
        proof {
            let x = bytes@[i as int];
            Seq::<u8>::lemma_take_succ(bytes@, i as int);
            lemma_hex_of_bytes_add(bytes@.take(i as int), seq![x]);
            assert(hex_of_bytes(seq![x]) =~= hex_of_byte(x)) by {
                assert(seq![x].drop_first() =~= Seq::<u8>::empty());
                assert(hex_of_bytes(Seq::<u8>::empty()) =~= Seq::<char>::empty());
            }
            assert(r@ =~= hex_of_bytes(bytes@.take(i as int + 1)));
        }
        i = i + 1;
    }
    proof {
        assert(bytes@.take(bytes.len() as int) =~= bytes@);
        lemma_hex_of_bytes_len(bytes@);
    }
    r
}

} // verus!
