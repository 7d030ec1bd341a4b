//! Lowercase hexadecimal encoding of byte strings.
//!
//! The serialized configuration carries principal identifiers and key
//! material as hex strings; this module defines the encoding at the
//! specification level and provides verified encode/decode functions.

use vstd::prelude::*;

verus! {

/// The sixteen lowercase hex digits, in value order.
pub open spec fn hex_digits() -> Seq<char> {
    "0123456789abcdef"@
}

/// The hex digit that stands for the nibble `n`.
pub open spec fn hex_char(n: u8) -> char
    recommends
        n < 16,
{
    hex_digits()[n as int]
}

/// The nibble a character stands for, or `None` if it is not a lowercase
/// hex digit.
pub open spec fn nibble(c: char) -> Option<u8> {
    if c == '0' {
        Some(0u8)
    } else if c == '1' {
        Some(1u8)
    } else if c == '2' {
        Some(2u8)
    } else if c == '3' {
        Some(3u8)
    } else if c == '4' {
        Some(4u8)
    } else if c == '5' {
        Some(5u8)
    } else if c == '6' {
        Some(6u8)
    } else if c == '7' {
        Some(7u8)
    } else if c == '8' {
        Some(8u8)
    } else if c == '9' {
        Some(9u8)
    } else if c == 'a' {
        Some(10u8)
    } else if c == 'b' {
        Some(11u8)
    } else if c == 'c' {
        Some(12u8)
    } else if c == 'd' {
        Some(13u8)
    } else if c == 'e' {
        Some(14u8)
    } else if c == 'f' {
        Some(15u8)
    } else {
        None
    }
}

/// The hex string of a byte string: two digits per byte, high nibble first.
pub open spec fn hex_of_bytes(b: Seq<u8>) -> Seq<char>
    decreases b.len(),
{
    if b.len() == 0 {
        Seq::empty()
    } else {
        seq![hex_char(b[0] / 16), hex_char(b[0] % 16)] + hex_of_bytes(b.drop_first())
    }
}

/// The byte string a hex string stands for, or `None` if the string is not
/// a sequence of lowercase hex digit pairs.
pub open spec fn bytes_of_hex(s: Seq<char>) -> Option<Seq<u8>>
    decreases s.len(),
{
    if s.len() == 0 {
        Some(Seq::empty())
    } else if s.len() == 1 {
        None
    } else {
        match (nibble(s[0]), nibble(s[1])) {
            (Some(hi), Some(lo)) => match bytes_of_hex(s.subrange(2, s.len() as int)) {
                Some(rest) => Some(seq![(hi * 16 + lo) as u8] + rest),
                None => None,
            },
            _ => None,
        }
    }
}

/// Decoding is left inverse to encoding on each nibble.
proof fn lemma_nibble_hex_char(n: u8)
    requires
        n < 16,
    ensures
        nibble(hex_char(n)) == Some(n),
{
    reveal_strlit("0123456789abcdef");
}

/// Appending one byte appends its two digits.
pub proof fn lemma_hex_of_bytes_push(b: Seq<u8>, x: u8)
    ensures
        hex_of_bytes(b.push(x)) == hex_of_bytes(b) + seq![hex_char(x / 16), hex_char(x % 16)],
    decreases b.len(),
{
    let digits = seq![hex_char(x / 16), hex_char(x % 16)];
    if b.len() == 0 {
        assert(b.push(x).len() == 1);
        assert(b.push(x)[0] == x);
        assert(b.push(x).drop_first() =~= Seq::<u8>::empty());
        assert(hex_of_bytes(b.push(x)) == digits + hex_of_bytes(Seq::<u8>::empty()));
        assert(hex_of_bytes(Seq::<u8>::empty()) == Seq::<char>::empty());
        assert(hex_of_bytes(b) == Seq::<char>::empty());
        assert(digits + Seq::<char>::empty() =~= Seq::<char>::empty() + digits);
    } else {
        assert(b.push(x)[0] == b[0]);
        assert(b.push(x).drop_first() =~= b.drop_first().push(x));
        lemma_hex_of_bytes_push(b.drop_first(), x);
        let first = seq![hex_char(b[0] / 16), hex_char(b[0] % 16)];
        assert(hex_of_bytes(b.push(x)) == first + (hex_of_bytes(b.drop_first()) + digits));
        assert(first + (hex_of_bytes(b.drop_first()) + digits) =~= (first + hex_of_bytes(
            b.drop_first(),
        )) + digits);
    }
}

/// A hex string of odd length decodes to nothing.
pub proof fn lemma_bytes_of_hex_odd(s: Seq<char>)
    requires
        s.len() % 2 == 1,
    ensures
        bytes_of_hex(s) is None,
    decreases s.len(),
{
    if s.len() > 1 {
        lemma_bytes_of_hex_odd(s.subrange(2, s.len() as int));
    }
}

/// Round trip: decoding an encoded byte string gives the bytes back.
pub proof fn lemma_hex_round_trip(b: Seq<u8>)
    ensures
        bytes_of_hex(hex_of_bytes(b)) == Some(b),
    decreases b.len(),
{
    if b.len() == 0 {
        assert(bytes_of_hex(hex_of_bytes(b)) =~= Some(b));
    } else {
        let s = hex_of_bytes(b);
        lemma_nibble_hex_char(b[0] / 16);
        lemma_nibble_hex_char(b[0] % 16);
        lemma_hex_round_trip(b.drop_first());
        assert(s.subrange(2, s.len() as int) =~= hex_of_bytes(b.drop_first()));
        assert((b[0] / 16) * 16 + b[0] % 16 == b[0]);
        assert(seq![b[0]] + b.drop_first() =~= b);
    }
}

/// Encode a byte string as lowercase hex, two digits per byte.
pub fn hex_encode(b: &Vec<u8>) -> (r: String)
    ensures
        r@ == hex_of_bytes(b@),
{
    let mut out = String::new();
    let mut i: usize = 0;
    proof {
        assert(b@.subrange(0, 0) =~= Seq::<u8>::empty());
    }
    while i < b.len()
        invariant
            i <= b@.len(),
            out@ == hex_of_bytes(b@.subrange(0, i as int)),
        decreases b@.len() - i,
    {
        let digits = "0123456789abcdef";
        proof {
            reveal_strlit("0123456789abcdef");
            assert(digits.is_ascii());
            assert(digits@ == hex_digits());
            assert(digits@.len() == 16);
        }
        let x = b[i];
        let hi = (x / 16) as usize;
        let lo = (x % 16) as usize;
        let dh = digits.substring_ascii(hi, hi + 1);
        let dl = digits.substring_ascii(lo, lo + 1);
        out.append(dh);
        out.append(dl);
        proof {
            assert(dh@ =~= seq![hex_char(x / 16)]);
            assert(dl@ =~= seq![hex_char(x % 16)]);
            lemma_hex_of_bytes_push(b@.subrange(0, i as int), x);
            assert(b@.subrange(0, i as int).push(x) =~= b@.subrange(0, i + 1 as int));
        }
        i = i + 1;
    }
    proof {
        assert(b@.subrange(0, b@.len() as int) =~= b@);
    }
    out
}

/// Decode a lowercase hex string to bytes; `None` exactly where the string
/// is not a sequence of lowercase hex digit pairs.
pub fn hex_decode(s: &String) -> (r: Option<Vec<u8>>)
    ensures
        match r {
            Some(v) => bytes_of_hex(s@) == Some(v@),
            None => bytes_of_hex(s@) is None,
        },
{
    let st = s.as_str();
    let n = st.unicode_len();
    if n % 2 != 0 {
        proof {
            lemma_bytes_of_hex_odd(s@);
        }
        return None;
    }
    let mut out: Vec<u8> = Vec::new();
    let mut k: usize = 0;
    proof {
        assert(s@.subrange(0, n as int) =~= s@);
        if let Some(rest) = bytes_of_hex(s@) {
            assert(Seq::<u8>::empty() + rest =~= rest);
        }
    }
    while 2 * k < n
        invariant
            0 <= k,
            2 * k <= n,
            n == s@.len(),
            n % 2 == 0,
            st@ == s@,
            out@.len() == k,
            match bytes_of_hex(s@.subrange(2 * k as int, n as int)) {
                Some(rest) => bytes_of_hex(s@) == Some(out@ + rest),
                None => bytes_of_hex(s@) is None,
            },
        decreases n - 2 * k,
    {
        let c1 = st.get_char(2 * k);
        let c2 = st.get_char(2 * k + 1);
        let ghost tail = s@.subrange(2 * k as int, n as int);
        proof {
            assert(tail[0] == s@[2 * k as int]);
            assert(tail[1] == s@[2 * k + 1 as int]);
        }
        let h1 = nibble_of(c1);
        let h2 = nibble_of(c2);
        match (h1, h2) {
            (Some(hi), Some(lo)) => {
                out.push(hi * 16 + lo);
                proof {
                    assert(tail.subrange(2, tail.len() as int) =~= s@.subrange(
                        2 * (k + 1) as int,
                        n as int,
                    ));
                    assert(bytes_of_hex(tail) matches Some(rest) ==> {
                        &&& rest == seq![(hi * 16 + lo) as u8] + bytes_of_hex(
                            tail.subrange(2, tail.len() as int),
                        ).unwrap()
                        &&& out@ + bytes_of_hex(tail.subrange(2, tail.len() as int)).unwrap()
                            == out@.drop_last() + rest
                    });
                }
                k = k + 1;
            },
            _ => {
                return None;
            },
        }
    }
    proof {
        assert(s@.subrange(2 * k as int, n as int) =~= Seq::<char>::empty());
        assert(out@ + Seq::<u8>::empty() =~= out@);
    }
    Some(out)
}

/// The nibble a character stands for, as executable code.
pub fn nibble_of(c: char) -> (r: Option<u8>)
    ensures
        r == nibble(c),
{
    if c == '0' {
        Some(0u8)
    } else if c == '1' {
        Some(1u8)
    } else if c == '2' {
        Some(2u8)
    } else if c == '3' {
        Some(3u8)
    } else if c == '4' {
        Some(4u8)
    } else if c == '5' {
        Some(5u8)
    } else if c == '6' {
        Some(6u8)
    } else if c == '7' {
        Some(7u8)
    } else if c == '8' {
        Some(8u8)
    } else if c == '9' {
        Some(9u8)
    } else if c == 'a' {
        Some(10u8)
    } else if c == 'b' {
        Some(11u8)
    } else if c == 'c' {
        Some(12u8)
    } else if c == 'd' {
        Some(13u8)
    } else if c == 'e' {
        Some(14u8)
    } else if c == 'f' {
        Some(15u8)
    } else {
        None
    }
}

} // verus!
