//! Lower-case hexadecimal and decimal text for byte strings and counters.
//!
//! Every raw value in the rendered output (addresses, topics, storage keys,
//! selectors, gas numbers) goes through these functions.

use vstd::prelude::*;

verus! {

/// The lower-case digit for a value in `0 .. 16`; the first ten double
/// as the decimal digits.
pub open spec fn digit_char(v: int) -> char {
    if v == 0 {
        '0'
    } else if v == 1 {
        '1'
    } else if v == 2 {
        '2'
    } else if v == 3 {
        '3'
    } else if v == 4 {
        '4'
    } else if v == 5 {
        '5'
    } else if v == 6 {
        '6'
    } else if v == 7 {
        '7'
    } else if v == 8 {
        '8'
    } else if v == 9 {
        '9'
    } else if v == 10 {
        'a'
    } else if v == 11 {
        'b'
    } else if v == 12 {
        'c'
    } else if v == 13 {
        'd'
    } else if v == 14 {
        'e'
    } else {
        'f'
    }
}

/// Two hexadecimal digits for one byte, high nibble first.
pub open spec fn hex_of_byte(b: u8) -> Seq<char> {
    seq![digit_char(b as int / 16), digit_char(b as int % 16)]
}

/// The hexadecimal rendering of a byte string: two digits per byte, in order.
pub open spec fn hex_of(s: Seq<u8>) -> Seq<char>
    decreases s.len(),
{
    if s.len() == 0 {
        Seq::empty()
    } else {
        hex_of_byte(s[0]) + hex_of(s.drop_first())
    }
}

/// The hexadecimal rendering with the usual `0x` prefix.
pub open spec fn hex_with_prefix(s: Seq<u8>) -> Seq<char> {
    seq!['0', 'x'] + hex_of(s)
}

/// The decimal rendering of a natural number, most significant digit first.
pub open spec fn dec_of(n: nat) -> Seq<char>
    decreases n,
{
    if n < 10 {
        seq![digit_char(n as int)]
    } else {
        dec_of(n / 10) + seq![digit_char(n as int % 10)]
    }
}

/// `hex_of` distributes over concatenation of byte strings.
pub proof fn lemma_hex_of_concat(a: Seq<u8>, b: Seq<u8>)
    ensures
        hex_of(a + b) == hex_of(a) + hex_of(b),
    decreases a.len(),
{
    if a.len() == 0 {
        assert(a + b =~= b);
        assert(hex_of(a) + hex_of(b) =~= hex_of(b));
    } else {
        lemma_hex_of_concat(a.drop_first(), b);
        assert((a + b).drop_first() =~= a.drop_first() + b);
        assert(hex_of(a + b) =~= hex_of(a) + hex_of(b));
    }
}

/// Extending the rendered prefix of a byte string by one byte appends the
/// two digits of that byte.
pub proof fn lemma_hex_of_take_step(s: Seq<u8>, i: int)
    requires
        0 <= i < s.len(),
    ensures
        hex_of(s.take(i + 1)) == hex_of(s.take(i)) + hex_of_byte(s[i]),
{
    assert(s.take(i + 1) =~= s.take(i) + seq![s[i]]);
    lemma_hex_of_concat(s.take(i), seq![s[i]]);
    let q = seq![s[i]];
    assert(q.drop_first() =~= Seq::<u8>::empty());
    assert(hex_of(q.drop_first()) =~= Seq::<char>::empty());
    assert(hex_of(q) =~= hex_of_byte(q[0]) + hex_of(q.drop_first()));
    assert(hex_of(q) =~= hex_of_byte(s[i]));
}

/// Appends the two hexadecimal digits of one byte to a string.
fn push_hex_byte(out: &mut String, b: u8)
    ensures
        final(out)@ == old(out)@ + hex_of_byte(b),
{
    let digits = "0123456789abcdef";
    proof {
        reveal_strlit("0123456789abcdef");
    }
    let hi = (b / 16) as usize;
    let lo = (b % 16) as usize;
    assert(digits@.subrange(hi as int, hi as int + 1) =~= seq![digit_char(b as int / 16)]);
    assert(digits@.subrange(lo as int, lo as int + 1) =~= seq![digit_char(b as int % 16)]);
    out.append(digits.substring_ascii(hi, hi + 1));
    out.append(digits.substring_ascii(lo, lo + 1));
    assert(final(out)@ =~= old(out)@ + hex_of_byte(b));
}

/// The hexadecimal rendering of a byte string, without a prefix.
pub fn hex_string(bytes: &[u8]) -> (r: String)
    ensures
        r@ == hex_of(bytes@),
{
    let mut out = String::new();
    let mut i: usize = 0;
    while i < bytes.len()
        invariant
            i <= bytes@.len(),
            out@ == hex_of(bytes@.take(i as int)),
        decreases bytes@.len() - i,
    {
        push_hex_byte(&mut out, bytes[i]);
        proof {
            lemma_hex_of_take_step(bytes@, i as int);
        }
        i = i + 1;
    }
    assert(bytes@.take(bytes@.len() as int) =~= bytes@);
    out
}

/// The hexadecimal rendering of a byte string, with the `0x` prefix.
pub fn hex_string_prefixed(bytes: &[u8]) -> (r: String)
    ensures
        r@ == hex_with_prefix(bytes@),
{
    let mut out = String::from_str("0x");
    proof {
        reveal_strlit("0x");
        assert(out@ =~= seq!['0', 'x']);
    }
    let tail = hex_string(bytes);
    out.append(tail.as_str());
    out
}

/// The decimal rendering of a counter.
pub fn dec_string(n: u64) -> (r: String)
    ensures
        r@ == dec_of(n as nat),
    decreases n,
{
    let digits = "0123456789";
    proof {
        reveal_strlit("0123456789");
    }
    let d = (n % 10) as usize;
    assert(digits@.subrange(d as int, d as int + 1) =~= seq![digit_char(n as int % 10)]);
    if n < 10 {
        String::from_str(digits.substring_ascii(d, d + 1))
    } else {
        let mut out = dec_string(n / 10);
        out.append(digits.substring_ascii(d, d + 1));
        out
    }
}

} // verus!
