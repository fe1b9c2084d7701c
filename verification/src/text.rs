//! Byte-level text helpers shared by the response grammars and the request
//! builders: line scanning, decimal codecs, and byte-to-string conversion.

use vstd::prelude::*;

verus! {

/// Carriage return.
pub const CR: u8 = 13;

/// Line feed.
pub const LF: u8 = 10;

/// Space, the token separator of every header line.
pub const SPACE: u8 = 32;

/// Interprets bytes as the characters with the same code points.
pub open spec fn chars_of(s: Seq<u8>) -> Seq<char> {
    s.map(|_i: int, b: u8| b as char)
}

/// Position of the first CRLF pair at or after `from`, if any.
pub open spec fn find_crlf_at(s: Seq<u8>, from: int) -> Option<int>
    decreases s.len() - from,
{
    if from + 2 > s.len() {
        None
    } else if s[from] == CR && s[from + 1] == LF {
        Some(from)
    } else {
        find_crlf_at(s, from + 1)
    }
}

/// Position of the first occurrence of `b` at or after `from`, if any.
pub open spec fn find_byte_at(s: Seq<u8>, b: u8, from: int) -> Option<int>
    decreases s.len() - from,
{
    if from + 1 > s.len() {
        None
    } else if s[from] == b {
        Some(from)
    } else {
        find_byte_at(s, b, from + 1)
    }
}

/// A found CRLF lies in bounds, at or after the start of the search.
pub proof fn lemma_find_crlf_at_some(s: Seq<u8>, from: int, i: int)
    requires
        find_crlf_at(s, from) == Some(i),
    ensures
        from <= i,
        i + 2 <= s.len(),
    decreases s.len() - from,
{
    if from + 2 > s.len() {
    } else if s[from] == CR && s[from + 1] == LF {
    } else {
        lemma_find_crlf_at_some(s, from + 1, i);
    }
}

/// Searching a longer buffer finds the same CRLF, as long as one was found:
/// extending the buffer never moves an already-found line break.
pub proof fn lemma_find_crlf_at_extend(s: Seq<u8>, t: Seq<u8>, from: int)
    requires
        0 <= from,
        s.is_prefix_of(t),
        find_crlf_at(s, from) is Some,
    ensures
        find_crlf_at(t, from) == find_crlf_at(s, from),
    decreases s.len() - from,
{
    if from + 2 > s.len() {
    } else if s[from] == CR && s[from + 1] == LF {
    } else {
        lemma_find_crlf_at_extend(s, t, from + 1);
    }
}

/// Finds the first CRLF pair at or after `from`.
pub fn find_crlf(buf: &[u8], from: usize) -> (r: Option<usize>)
    requires
        from <= buf@.len(),
    ensures
        find_crlf_at(buf@, from as int) == (match r {
            Some(i) => Some(i as int),
            None => None::<int>,
        }),
        r matches Some(i) ==> from <= i && i + 2 <= buf@.len(),
        buf@.len() <= usize::MAX,
{
    let mut i: usize = from;
    while i < buf.len() && i + 1 < buf.len()
        invariant
            from <= i <= buf@.len(),
            find_crlf_at(buf@, from as int) == find_crlf_at(buf@, i as int),
        decreases buf@.len() - i,
    {
        if buf[i] == CR && buf[i + 1] == LF {
            return Some(i);
        }
        i = i + 1;
    }
    None
}

/// Finds the first occurrence of `b` at or after `from`.
pub fn find_byte(buf: &[u8], b: u8, from: usize) -> (r: Option<usize>)
    requires
        from <= buf@.len(),
    ensures
        find_byte_at(buf@, b, from as int) == (match r {
            Some(i) => Some(i as int),
            None => None::<int>,
        }),
        r matches Some(i) ==> from <= i && i + 1 <= buf@.len(),
        buf@.len() <= usize::MAX,
{
    let mut i: usize = from;
    while i < buf.len()
        invariant
            from <= i <= buf@.len(),
            find_byte_at(buf@, b, from as int) == find_byte_at(buf@, b, i as int),
        decreases buf@.len() - i,
    {
        if buf[i] == b {
            return Some(i);
        }
        i = i + 1;
    }
    None
}

/// Whether every byte of `s` is an ASCII decimal digit.
pub open spec fn all_digits(s: Seq<u8>) -> bool {
    forall|i: int| 0 <= i < s.len() ==> 48 <= #[trigger] s[i] <= 57
}

/// The number a sequence of decimal digits denotes.
pub open spec fn digits_val(s: Seq<u8>) -> int
    decreases s.len(),
{
    if s.len() == 0 {
        0
    } else {
        digits_val(s.drop_last()) * 10 + (s.last() - 48)
    }
}

/// A digit string denotes a non-negative number.
pub proof fn lemma_digits_val_nonneg(s: Seq<u8>)
    requires
        all_digits(s),
    ensures
        digits_val(s) >= 0,
    decreases s.len(),
{
    if s.len() > 0 {
        assert(all_digits(s.drop_last()));
        lemma_digits_val_nonneg(s.drop_last());
    }
}

/// Every prefix of a digit string denotes at most what the whole denotes.
pub proof fn lemma_digits_val_prefix_le(s: Seq<u8>, i: int)
    requires
        all_digits(s),
        0 <= i <= s.len(),
    ensures
        digits_val(s.take(i)) <= digits_val(s),
    decreases s.len() - i,
{
    if i < s.len() {
        lemma_digits_val_prefix_le(s, i + 1);
        assert(s.take(i + 1).drop_last() =~= s.take(i));
        assert(all_digits(s.take(i)));
        lemma_digits_val_nonneg(s.take(i));
        assert(digits_val(s.take(i + 1)) == digits_val(s.take(i)) * 10 + (s[i] - 48));
        assert(digits_val(s.take(i)) * 10 >= digits_val(s.take(i))) by (nonlinear_arith)
            requires
                digits_val(s.take(i)) >= 0,
        ;
    } else {
        assert(s.take(i) =~= s);
    }
}

/// Reports whether every byte of `tok` is an ASCII decimal digit.
pub fn check_all_digits(tok: &[u8]) -> (r: bool)
    ensures
        r == all_digits(tok@),
{
    let mut i: usize = 0;
    while i < tok.len()
        invariant
            0 <= i <= tok@.len(),
            forall|j: int| 0 <= j < i ==> 48 <= #[trigger] tok@[j] <= 57,
        decreases tok@.len() - i,
    {
        if tok[i] < 48 || tok[i] > 57 {
            return false;
        }
        i = i + 1;
    }
    true
}

/// Parses an unsigned decimal number, rejecting empty input, any non-digit
/// byte, and any value that does not fit in a `u64`.
pub fn parse_u64(tok: &[u8]) -> (r: Option<u64>)
    ensures
        match r {
            Some(v) => tok@.len() > 0 && all_digits(tok@) && digits_val(tok@) == v as int,
            None => !(tok@.len() > 0 && all_digits(tok@) && digits_val(tok@) <= u64::MAX as int),
        },
{
    if tok.len() == 0 {
        return None;
    }
    let mut acc: u64 = 0;
    let mut i: usize = 0;
    while i < tok.len()
        invariant
            0 <= i <= tok@.len(),
            all_digits(tok@.take(i as int)),
            acc as int == digits_val(tok@.take(i as int)),
        decreases tok@.len() - i,
    {
        let b = tok[i];
        if b < 48 || b > 57 {
            return None;
        }
        let d: u64 = (b - 48) as u64;
        proof {
            assert(tok@.take(i + 1).drop_last() =~= tok@.take(i as int));
            assert(all_digits(tok@.take(i + 1)));
        }
        if acc > u64::MAX / 10 {
            proof {
                assert(acc as int * 10 + d >= acc as int * 10 > u64::MAX as int) by (nonlinear_arith)
                    requires
                        acc as int > u64::MAX as int / 10,
                        d >= 0,
                ;
                if all_digits(tok@) {
                    lemma_digits_val_prefix_le(tok@, i + 1);
                }
            }
            return None;
        }
        let acc10: u64 = acc * 10;
        if d > u64::MAX - acc10 {
            proof {
                if all_digits(tok@) {
                    lemma_digits_val_prefix_le(tok@, i + 1);
                }
            }
            return None;
        }
        acc = acc10 + d;
        i = i + 1;
    }
    proof {
        assert(tok@.take(tok@.len() as int) =~= tok@);
    }
    Some(acc)
}

/// Parses an unsigned decimal number that must fit in a `u32`.
pub fn parse_u32(tok: &[u8]) -> (r: Option<u32>)
    ensures
        match r {
            Some(v) => tok@.len() > 0 && all_digits(tok@) && digits_val(tok@) == v as int,
            None => !(tok@.len() > 0 && all_digits(tok@) && digits_val(tok@) <= u32::MAX as int),
        },
{
    match parse_u64(tok) {
        Some(v) => if v <= u32::MAX as u64 {
            Some(v as u32)
        } else {
            None
        },
        None => None,
    }
}

/// Whether `s` has the shape of a decimal integer literal: digits, with an
/// optional leading minus sign.
pub open spec fn int_literal_shape(s: Seq<u8>) -> bool {
    if s.len() >= 1 && s[0] == 45 {
        s.len() >= 2 && all_digits(s.skip(1))
    } else {
        s.len() >= 1 && all_digits(s)
    }
}

/// The integer a decimal literal denotes.
pub open spec fn int_literal_val(s: Seq<u8>) -> int {
    if s.len() >= 1 && s[0] == 45 {
        -digits_val(s.skip(1))
    } else {
        digits_val(s)
    }
}

/// Parses a signed decimal number that must fit in an `i64`.
pub fn parse_i64(tok: &[u8]) -> (r: Option<i64>)
    ensures
        match r {
            Some(v) => int_literal_shape(tok@) && int_literal_val(tok@) == v as int,
            None => !(int_literal_shape(tok@) && i64::MIN as int <= int_literal_val(tok@)
                <= i64::MAX as int),
        },
{
    if tok.len() >= 1 && tok[0] == 45 {
        let rest = vstd::slice::slice_subrange(tok, 1, tok.len());
        match parse_u64(rest) {
            Some(v) => {
                if v <= i64::MAX as u64 {
                    Some(-(v as i64))
                } else if v == 9223372036854775808u64 {
                    Some(i64::MIN)
                } else {
                    None
                }
            },
            None => {
                proof {
                    if all_digits(tok@.skip(1)) {
                        lemma_digits_val_nonneg(tok@.skip(1));
                    }
                }
                None
            },
        }
    } else {
        match parse_u64(tok) {
            Some(v) => if v <= i64::MAX as u64 {
                Some(v as i64)
            } else {
                None
            },
            None => None,
        }
    }
}

/// The decimal digits of a non-negative number, most significant first.
pub open spec fn dec_digits(n: int) -> Seq<u8>
    decreases n,
{
    if n < 10 {
        seq![(48 + if n >= 0 { n } else { 0 }) as u8]
    } else {
        dec_digits(n / 10).push((48 + n % 10) as u8)
    }
}

/// Renders a `u64` in decimal.
pub fn u64_to_dec(n: u64) -> (r: Vec<u8>)
    ensures
        r@ == dec_digits(n as int),
    decreases n,
{
    if n < 10 {
        let mut v: Vec<u8> = Vec::new();
        v.push(48 + (n as u8));
        proof {
            assert(v@ =~= dec_digits(n as int));
        }
        v
    } else {
        let mut v = u64_to_dec(n / 10);
        v.push(48 + ((n % 10) as u8));
        proof {
            assert(v@ =~= dec_digits(n as int));
        }
        v
    }
}

/// The decimal rendering of an integer: a minus sign for negative values,
/// then the digits of its magnitude.
pub open spec fn dec_int(n: int) -> Seq<u8> {
    if n < 0 {
        seq![45u8] + dec_digits(-n)
    } else {
        dec_digits(n)
    }
}

/// Renders an `i64` in decimal.
pub fn i64_to_dec(n: i64) -> (r: Vec<u8>)
    ensures
        r@ == dec_int(n as int),
{
    if n >= 0 {
        u64_to_dec(n as u64)
    } else {
        let mag: u64 = ((-(n as i128)) as u64);
        let digits = u64_to_dec(mag);
        let mut v: Vec<u8> = Vec::new();
        v.push(45);
        let mut i: usize = 0;
        while i < digits.len()
            invariant
                0 <= i <= digits@.len(),
                v@ == seq![45u8] + digits@.take(i as int),
            decreases digits@.len() - i,
        {
            let b = digits[i];
            v.push(b);
            i = i + 1;
            proof {
                assert(v@ =~= seq![45u8] + digits@.take(i as int));
            }
        }
        proof {
            assert(digits@.take(digits@.len() as int) =~= digits@);
            assert(v@ =~= dec_int(n as int));
        }
        v
    }
}

/// Relies on `String::push`: appends the given character to the end of the
/// string.
#[verifier::external_body]
fn string_push(s: &mut String, c: char)
    ensures
        final(s)@ == old(s)@.push(c),
{
    s.push(c);
}

/// Builds the string whose characters carry the same code points as `bytes`.
pub fn bytes_to_string(bytes: &[u8]) -> (r: String)
    ensures
        r@ == chars_of(bytes@),
{
    let mut s = String::new();
    let mut i: usize = 0;
    while i < bytes.len()
        invariant
            0 <= i <= bytes@.len(),
            s@ == chars_of(bytes@.take(i as int)),
        decreases bytes@.len() - i,
    {
        let b = bytes[i];
        string_push(&mut s, b as char);
        i = i + 1;
        proof {
            assert(s@ =~= chars_of(bytes@.take(i as int)));
        }
    }
    proof {
        assert(bytes@.take(bytes@.len() as int) =~= bytes@);
    }
    s
}

/// Copies the byte range `[a, b)` of `buf` into an owned vector.
pub fn copy_range(buf: &[u8], a: usize, b: usize) -> (r: Vec<u8>)
    requires
        a <= b <= buf@.len(),
    ensures
        r@ == buf@.subrange(a as int, b as int),
{
    vstd::slice::slice_to_vec(vstd::slice::slice_subrange(buf, a, b))
}

} // verus!
