//! Hexadecimal text of byte strings, as raw genesis keys and values are written:
//! `0x` followed by two lower-case digits per byte.
use vstd::prelude::*;

verus! {

/// The lower-case digit of a value below sixteen.
pub open spec fn nibble_char(n: u8) -> char {
    if n < 10 {
        ((n as u32) + ('0' as u32)) as char
    } else {
        ((n as u32) - 10 + ('a' as u32)) as char
    }
}

/// The value of a hexadecimal digit, in either case.
pub open spec fn digit_value(c: char) -> Option<u8> {
    if '0' <= c && c <= '9' {
        Some(((c as u32) - ('0' as u32)) as u8)
    } else if 'a' <= c && c <= 'f' {
        Some(((c as u32) - ('a' as u32) + 10) as u8)
    } else if 'A' <= c && c <= 'F' {
        Some(((c as u32) - ('A' as u32) + 10) as u8)
    } else {
        None
    }
}

/// The two digits of each byte, high digit first.
pub open spec fn hex_digits(b: Seq<u8>) -> Seq<char> {
    Seq::new(
        2 * b.len(),
        |i: int|
            if i % 2 == 0 {
                nibble_char(b[i / 2] / 16)
            } else {
                nibble_char(b[i / 2] % 16)
            },
    )
}

/// The hexadecimal text of a byte string.
pub open spec fn hex_text(b: Seq<u8>) -> Seq<char> {
    seq!['0', 'x'] + hex_digits(b)
}

/// The digits of a text: without a leading `0x`, and with a `0` in front where their
/// number is odd.
pub open spec fn digits_of(s: Seq<char>) -> Seq<char> {
    let d = if s.len() >= 2 && s[0] == '0' && s[1] == 'x' {
        s.subrange(2, s.len() as int)
    } else {
        s
    };
    if d.len() % 2 == 1 {
        seq!['0'] + d
    } else {
        d
    }
}

/// The bytes written by an even number of digits, if all of them are digits.
pub open spec fn bytes_of_digits(d: Seq<char>) -> Option<Seq<u8>> {
    if forall|i: int| 0 <= i < d.len() ==> (#[trigger] digit_value(d[i])) is Some {
        Some(
            Seq::new(
                d.len() / 2,
                |i: int|
                    (digit_value(d[2 * i])->Some_0 * 16 + digit_value(d[2 * i + 1])->Some_0) as u8,
            ),
        )
    } else {
        None
    }
}

/// The bytes that a hexadecimal text stands for.
pub open spec fn hex_bytes(s: Seq<char>) -> Option<Seq<u8>> {
    bytes_of_digits(digits_of(s))
}

fn nibble(n: u8) -> (c: char)
    requires
        n < 16,
    ensures
        c == nibble_char(n),
{
    if n < 10 {
        ((n + 48) as char)
    } else {
        ((n - 10 + 97) as char)
    }
}

fn value_of_digit(c: char) -> (r: Option<u8>)
    ensures
        r == digit_value(c),
{
    if '0' <= c && c <= '9' {
        Some(((c as u32) - ('0' as u32)) as u8)
    } else if 'a' <= c && c <= 'f' {
        Some(((c as u32) - ('a' as u32) + 10) as u8)
    } else if 'A' <= c && c <= 'F' {
        Some(((c as u32) - ('A' as u32) + 10) as u8)
    } else {
        None
    }
}

/// The hexadecimal text of `b`: `0x`, then two lower-case digits per byte.
pub fn to_hex(b: &[u8]) -> (r: Vec<char>)
    requires
        2 * b@.len() + 2 <= usize::MAX,
    ensures
        r@ == hex_text(b@),
{
    let mut r: Vec<char> = Vec::new();
    r.push('0');
    r.push('x');
    let mut i: usize = 0;
    while i < b.len()
        invariant
            i <= b@.len(),
            r@.len() == 2 + 2 * i,
            r@[0] == '0',
            r@[1] == 'x',
            forall|j: int| 0 <= j < 2 * i ==> #[trigger] r@[j + 2] == hex_digits(b@)[j],
        decreases b@.len() - i,
    {
        let byte = b[i];
        r.push(nibble(byte / 16));
        r.push(nibble(byte % 16));
        proof {
            assert forall|j: int| 0 <= j < 2 * (i + 1) implies #[trigger] r@[j + 2] == hex_digits(b@)[j] by {
                if j >= 2 * i {
                    assert(j / 2 == i as int && (j % 2 == 0 <==> j == 2 * i)) by (nonlinear_arith)
                        requires
                            2 * i <= j < 2 * (i + 1),
                    ;
                }
            }
        }
        i = i + 1;
    }
    assert(r@ =~= hex_text(b@)) by {
        assert forall|j: int| 2 <= j < r@.len() implies r@[j] == hex_text(b@)[j] by {
            assert(r@[(j - 2) + 2] == hex_digits(b@)[j - 2]);
        }
    }
    r
}

/// The bytes that the hexadecimal text `s` stands for, or `None` where a character is no
/// digit. A leading `0x` is optional; an odd number of digits reads as if a `0` led them.
pub fn from_hex(s: &[char]) -> (r: Option<Vec<u8>>)
    ensures
        match r {
            Some(v) => hex_bytes(s@) == Some(v@),
            None => hex_bytes(s@) is None,
        },
{
    let start: usize = if s.len() >= 2 && s[0] == '0' && s[1] == 'x' {
        2
    } else {
        0
    };
    let ghost body = s@.subrange(start as int, s@.len() as int);
    let ghost d = digits_of(s@);
    let mut digits: Vec<char> = Vec::new();
    if (s.len() - start) % 2 == 1 {
        digits.push('0');
    }
    let ghost lead = digits@.len();
    let mut i: usize = start;
    while i < s.len()
        invariant
            start <= i <= s@.len(),
            lead <= 1,
            digits@.len() == lead + (i - start),
            lead == 1 ==> digits@[0] == '0',
            forall|j: int| start <= j < i ==> #[trigger] s@[j] == digits@[lead + j - start],
        decreases s@.len() - i,
    {
        digits.push(s[i]);
        i = i + 1;
    }
    assert(digits@ =~= d) by {
        assert(body.len() % 2 == 1 <==> lead == 1);
        assert forall|j: int| 0 <= j < digits@.len() implies digits@[j] == d[j] by {
            if j >= lead {
                assert(s@[(j - lead + start) as int] == digits@[lead + (j - lead + start) - start]);
            }
        }
    }
    let mut k: usize = 0;
    while k < digits.len()
        invariant
            k <= digits@.len(),
            d == digits_of(s@),
            digits@ == d,
            forall|j: int| 0 <= j < k ==> (#[trigger] digit_value(d[j])) is Some,
        decreases digits@.len() - k,
    {
        if value_of_digit(digits[k]).is_none() {
            assert(!(digit_value(d[k as int]) is Some));
            return None;
        }
        k = k + 1;
    }
    assert(digits@.len() % 2 == 0);
    let len: usize = digits.len();
    let n: usize = len / 2;
    let mut out: Vec<u8> = Vec::new();
    let mut m: usize = 0;
    while m < n
        invariant
            len == digits@.len(),
            d == digits_of(s@),
            n == len / 2,
            len % 2 == 0,
            digits@ == d,
            m <= n,
            forall|j: int| 0 <= j < d.len() ==> (#[trigger] digit_value(d[j])) is Some,
            out@.len() == m,
            forall|j: int|
                0 <= j < m ==> #[trigger] out@[j] == (digit_value(d[2 * j])->Some_0 * 16 + digit_value(
                    d[2 * j + 1],
                )->Some_0) as u8,
        decreases n - m,
    {
        assert(2 * m + 1 < len);
        let hi = value_of_digit(digits[2 * m]).unwrap();
        let lo = value_of_digit(digits[2 * m + 1]).unwrap();
        assert(hi < 16 && lo < 16);
        out.push(hi * 16 + lo);
        m = m + 1;
    }
    assert(out@ =~= bytes_of_digits(d)->Some_0);
    Some(out)
}

proof fn lemma_digit_of_nibble(n: u8)
    requires
        n < 16,
    ensures
        digit_value(nibble_char(n)) == Some(n),
{
}

/// Reading back the hexadecimal text of a byte string gives that byte string.
pub proof fn lemma_hex_round_trip(b: Seq<u8>)
    ensures
        hex_bytes(hex_text(b)) == Some(b),
{
    let t = hex_text(b);
    let d = hex_digits(b);
    assert(t.subrange(2, t.len() as int) =~= d);
    assert(digits_of(t) == d);
    assert forall|i: int| 0 <= i < d.len() implies (#[trigger] digit_value(d[i])) is Some by {
        let q = i / 2;
        assert(0 <= q < b.len());
        lemma_digit_of_nibble(b[q] / 16);
        lemma_digit_of_nibble(b[q] % 16);
    }
    let r = bytes_of_digits(d)->Some_0;
    assert forall|i: int| 0 <= i < b.len() implies #[trigger] r[i] == b[i] by {
        assert((2 * i) / 2 == i && (2 * i) % 2 == 0 && (2 * i + 1) / 2 == i && (2 * i + 1) % 2 == 1);
        lemma_digit_of_nibble(b[i] / 16);
        lemma_digit_of_nibble(b[i] % 16);
    }
    assert(r =~= b);
}

} // verus!
