//! Packed-BCD fields as used on the wire by the 104 client: a field is a
//! fixed number of bytes, written from a hex string and padded with zero
//! bytes, and read back as lower-case hex without the zero padding.

use vstd::prelude::*;

verus! {

/// A character that `hex::decode` accepts as one nibble.
pub open spec fn is_hex_digit(c: char) -> bool {
    ('0' <= c && c <= '9') || ('a' <= c && c <= 'f') || ('A' <= c && c <= 'F')
}

/// The nibble value of a hex digit (either case).
pub open spec fn hex_value(c: char) -> int {
    if '0' <= c && c <= '9' {
        c as int - 48
    } else if 'a' <= c && c <= 'f' {
        c as int - 87
    } else {
        c as int - 55
    }
}

/// Text that decodes as hex: an even number of hex digits.
pub open spec fn is_hex_text(s: Seq<char>) -> bool {
    &&& s.len() % 2 == 0
    &&& forall|i: int| 0 <= i < s.len() ==> is_hex_digit(#[trigger] s[i])
}

/// The bytes that hex text stands for, two digits per byte, high nibble first.
pub open spec fn hex_decoded(s: Seq<char>) -> Seq<u8> {
    Seq::new(s.len() / 2, |i: int| (hex_value(s[2 * i]) * 16 + hex_value(s[2 * i + 1])) as u8)
}

/// The lower-case hex digit of a nibble.
pub open spec fn hex_char(d: int) -> char {
    if d < 10 {
        (48 + d) as char
    } else {
        (87 + d) as char
    }
}

/// A byte as two lower-case hex digits.
pub open spec fn byte_hex(b: u8) -> Seq<char> {
    seq![hex_char(b as int / 16), hex_char(b as int % 16)]
}

/// Bytes as lower-case hex, two digits per byte.
pub open spec fn hex_lower(b: Seq<u8>) -> Seq<char>
    decreases b.len(),
{
    if b.len() == 0 {
        Seq::empty()
    } else {
        hex_lower(b.drop_last()) + byte_hex(b.last())
    }
}

/// The bytes without their run of trailing zero bytes.
pub open spec fn strip_trailing_zeros(b: Seq<u8>) -> Seq<u8>
    decreases b.len(),
{
    if b.len() > 0 && b.last() == 0 {
        strip_trailing_zeros(b.drop_last())
    } else {
        b
    }
}

/// `length` zero bytes.
pub open spec fn zeros(length: nat) -> Seq<u8> {
    Seq::new(length, |i: int| 0u8)
}

/// A lower-case hex digit.
pub open spec fn is_lower_hex_digit(c: char) -> bool {
    ('0' <= c && c <= '9') || ('a' <= c && c <= 'f')
}

/// The text that reading a field can give: lower-case hex that does not end in
/// a "00" pair.
pub open spec fn is_canonical_hex(s: Seq<char>) -> bool {
    &&& is_hex_text(s)
    &&& forall|i: int| 0 <= i < s.len() ==> is_lower_hex_digit(#[trigger] s[i])
    &&& !(s.len() >= 2 && s[s.len() - 2] == '0' && s[s.len() - 1] == '0')
}

/// The field that `bcd_encode` writes: the decoded hex padded with zeros up to
/// `length` bytes, or `length` zero bytes where the text is not hex.
pub open spec fn bcd_encoded(input: Seq<char>, length: nat) -> Seq<u8> {
    if is_hex_text(input) {
        hex_decoded(input) + zeros((length - input.len() / 2) as nat)
    } else {
        zeros(length)
    }
}

/// The text that `bcd_decode` reads from a field.
pub open spec fn bcd_decoded(input: Seq<u8>) -> Seq<char> {
    hex_lower(strip_trailing_zeros(input))
}

#[verifier::external_type_specification]
#[verifier::external_body]
pub struct ExFromHexError(hex::FromHexError);

/// `hex::decode`: succeeds exactly on an even number of hex digits of either
/// case, and then gives one byte per pair of digits, high nibble first.
#[verifier::external_body]
fn hex_decode(input: &str) -> (res: Result<Vec<u8>, hex::FromHexError>)
    ensures
        res is Ok <==> is_hex_text(input@),
        res matches Ok(bytes) ==> bytes@ == hex_decoded(input@),
{
    hex::decode(input)
}

/// The lower-case hex digit of a nibble, as a one-character text.
fn hex_digit_text(d: u8) -> (res: &'static str)
    requires
        d < 16,
    ensures
        res@ == seq![hex_char(d as int)],
{
    let digits = "0123456789abcdef";
    proof {
        reveal_strlit("0123456789abcdef");
        assert(digits@ =~= seq![
            '0', '1', '2', '3', '4', '5', '6', '7', '8', '9', 'a', 'b', 'c', 'd', 'e', 'f',
        ]);
        assert(digits@[d as int] == hex_char(d as int));
    }
    let i = d as usize;
    let res = digits.substring_char(i, i + 1);
    assert(res@ =~= seq![hex_char(d as int)]);
    res
}

/// The byte as two lower-case hex digits, high nibble first (what
/// `format!("{:02x}", b)` writes).
fn two_digit_hex(b: u8) -> (res: String)
    ensures
        res@ == byte_hex(b),
{
    let mut res = String::new();
    res.append(hex_digit_text(b / 16));
    res.append(hex_digit_text(b % 16));
    assert(res@ =~= byte_hex(b));
    res
}

/// Writes `input` (hex) into a field of `length` bytes, padding with zero
/// bytes; text that is not hex gives an all-zero field.
pub fn bcd_encode(input: &str, length: usize) -> (res: Vec<u8>)
    requires
        is_hex_text(input@) ==> input@.len() / 2 <= length,
    ensures
        res@ == bcd_encoded(input@, length as nat),
{
    let mut bytes = match hex_decode(input) {
        Ok(bytes) => bytes,
        Err(_) => {
            let field = vec![0u8; length];
            proof {
                assert(field@ =~= zeros(length as nat));
            }
            return field;
        },
    };
    let ghost decoded = bytes@;
    if length - bytes.len() > 0 {
        let missing = length - bytes.len();
        let mut k: usize = 0;
        while k < missing
            invariant
                k <= missing,
                missing == length - decoded.len(),
                bytes@ =~= decoded + zeros(k as nat),
            decreases missing - k,
        {
            bytes.push(0u8);
            k += 1;
        }
    }
    proof {
        assert(bytes@ =~= bcd_encoded(input@, length as nat));
    }
    bytes
}

proof fn lemma_strip_prefix_step(b: Seq<u8>, end: int)
    requires
        0 < end <= b.len(),
        b[end - 1] == 0,
    ensures
        strip_trailing_zeros(b.subrange(0, end)) == strip_trailing_zeros(b.subrange(0, end - 1)),
{
    assert(b.subrange(0, end).drop_last() =~= b.subrange(0, end - 1));
}

/// Reads a field back as lower-case hex, leaving out the trailing zero bytes.
pub fn bcd_decode(input: &[u8]) -> (res: String)
    ensures
        res@ == bcd_decoded(input@),
{
    let mut end: usize = input.len();
    assert(input@.subrange(0, end as int) =~= input@);
    loop
        invariant
            end <= input.len(),
            strip_trailing_zeros(input@) == strip_trailing_zeros(input@.subrange(0, end as int)),
        ensures
            end <= input.len(),
            strip_trailing_zeros(input@) == strip_trailing_zeros(input@.subrange(0, end as int)),
            end == 0 || input@[end - 1] != 0,
        decreases end,
    {
        if end == 0 {
            break;
        }
        if input[end - 1] != 0 {
            break;
        }
        proof {
            lemma_strip_prefix_step(input@, end as int);
        }
        end -= 1;
    }
    assert(strip_trailing_zeros(input@.subrange(0, end as int)) == input@.subrange(0, end as int));
    let mut res = String::new();
    let mut i: usize = 0;
    while i < end
        invariant
            i <= end <= input.len(),
            res@ == hex_lower(input@.subrange(0, i as int)),
            strip_trailing_zeros(input@) == input@.subrange(0, end as int),
        decreases end - i,
    {
        let pair = two_digit_hex(input[i]);
        res.append(pair.as_str());
        proof {
            assert(input@.subrange(0, i + 1).drop_last() =~= input@.subrange(0, i as int));
        }
        i += 1;
    }
    res
}

proof fn lemma_hex_char(d: int)
    requires
        0 <= d < 16,
    ensures
        is_hex_digit(hex_char(d)),
        is_lower_hex_digit(hex_char(d)),
        hex_value(hex_char(d)) == d,
        hex_char(d) == '0' <==> d == 0,
{
}

proof fn lemma_hex_value(c: char)
    requires
        is_lower_hex_digit(c),
    ensures
        0 <= hex_value(c) < 16,
        hex_char(hex_value(c)) == c,
{
}

proof fn lemma_hex_lower_shape(x: Seq<u8>)
    ensures
        hex_lower(x).len() == 2 * x.len(),
        forall|i: int|
            0 <= i < x.len() ==> hex_lower(x)[2 * i] == hex_char(#[trigger] x[i] as int / 16)
                && hex_lower(x)[2 * i + 1] == hex_char(x[i] as int % 16),
    decreases x.len(),
{
    if x.len() > 0 {
        lemma_hex_lower_shape(x.drop_last());
        assert forall|i: int| 0 <= i < x.len() implies hex_lower(x)[2 * i] == hex_char(
            #[trigger] x[i] as int / 16,
        ) && hex_lower(x)[2 * i + 1] == hex_char(x[i] as int % 16) by {
            if i < x.len() - 1 {
                assert(x.drop_last()[i] == x[i]);
            }
        }
    }
}

proof fn lemma_strip_padding(x: Seq<u8>, k: nat)
    ensures
        strip_trailing_zeros(x + zeros(k)) == strip_trailing_zeros(x),
    decreases k,
{
    if k > 0 {
        assert((x + zeros(k)).drop_last() =~= x + zeros((k - 1) as nat));
        lemma_strip_padding(x, (k - 1) as nat);
    } else {
        assert(x + zeros(k) =~= x);
    }
}

proof fn lemma_strip_split(b: Seq<u8>)
    ensures
        strip_trailing_zeros(b).len() <= b.len(),
        strip_trailing_zeros(b) + zeros((b.len() - strip_trailing_zeros(b).len()) as nat) == b,
        strip_trailing_zeros(b).len() == 0 || strip_trailing_zeros(b).last() != 0,
    decreases b.len(),
{
    if b.len() > 0 && b.last() == 0 {
        lemma_strip_split(b.drop_last());
        let s = strip_trailing_zeros(b.drop_last());
        let k = (b.drop_last().len() - s.len()) as nat;
        assert(s + zeros(k + 1) =~= (s + zeros(k)).push(0u8));
        assert(b =~= b.drop_last().push(0u8));
    } else {
        assert(b + zeros(0) =~= b);
    }
}

proof fn lemma_decode_hex_lower(x: Seq<u8>)
    ensures
        is_hex_text(hex_lower(x)),
        hex_decoded(hex_lower(x)) == x,
        forall|i: int| 0 <= i < hex_lower(x).len() ==> is_lower_hex_digit(#[trigger] hex_lower(x)[i]),
{
    lemma_hex_lower_shape(x);
    let h = hex_lower(x);
    assert forall|i: int| 0 <= i < h.len() implies is_hex_digit(#[trigger] h[i]) && is_lower_hex_digit(h[i]) by {
        let j = i / 2;
        assert(0 <= j < x.len());
        lemma_hex_char(x[j] as int / 16);
        lemma_hex_char(x[j] as int % 16);
        if i % 2 == 0 {
            assert(i == 2 * j);
        } else {
            assert(i == 2 * j + 1);
        }
    }
    assert forall|j: int| 0 <= j < x.len() implies #[trigger] hex_decoded(h)[j] == x[j] by {
        lemma_hex_char(x[j] as int / 16);
        lemma_hex_char(x[j] as int % 16);
    }
    assert(hex_decoded(h) =~= x);
}

proof fn lemma_hex_lower_of_decoded(s: Seq<char>)
    requires
        is_hex_text(s),
        forall|i: int| 0 <= i < s.len() ==> is_lower_hex_digit(#[trigger] s[i]),
    ensures
        hex_lower(hex_decoded(s)) == s,
{
    let d = hex_decoded(s);
    lemma_hex_lower_shape(d);
    let h = hex_lower(d);
    assert forall|i: int| 0 <= i < s.len() implies #[trigger] h[i] == s[i] by {
        let j = i / 2;
        lemma_hex_value(s[2 * j]);
        lemma_hex_value(s[2 * j + 1]);
        assert(d[j] as int == hex_value(s[2 * j]) * 16 + hex_value(s[2 * j + 1]));
        if i % 2 == 0 {
            assert(i == 2 * j);
        } else {
            assert(i == 2 * j + 1);
        }
    }
    assert(h =~= s);
}

/// A written field always has the requested size.
pub proof fn lemma_bcd_encoded_len(text: Seq<char>, length: nat)
    requires
        is_hex_text(text) ==> text.len() / 2 <= length,
    ensures
        bcd_encoded(text, length).len() == length,
{
}

/// Whatever a field holds, reading it gives canonical hex (lower case, an even
/// number of digits, no trailing "00" pair).
pub proof fn lemma_bcd_decoded_is_canonical(field: Seq<u8>)
    ensures
        is_canonical_hex(bcd_decoded(field)),
        bcd_decoded(field).len() / 2 <= field.len(),
{
    let s = strip_trailing_zeros(field);
    lemma_strip_split(field);
    lemma_decode_hex_lower(s);
    lemma_hex_lower_shape(s);
    let h = hex_lower(s);
    if h.len() >= 2 && h[h.len() - 2] == '0' && h[h.len() - 1] == '0' {
        let j = s.len() - 1;
        assert(h.len() - 2 == 2 * j);
        lemma_hex_char(s[j] as int / 16);
        lemma_hex_char(s[j] as int % 16);
        assert(s[j] == 0);
    }
}

/// Reading a field back and writing the text into a field of the same size
/// gives the same bytes.
pub proof fn lemma_bcd_encode_of_decode(field: Seq<u8>)
    ensures
        is_hex_text(bcd_decoded(field)),
        bcd_decoded(field).len() / 2 <= field.len(),
        bcd_encoded(bcd_decoded(field), field.len()) == field,
{
    let s = strip_trailing_zeros(field);
    lemma_strip_split(field);
    lemma_decode_hex_lower(s);
    lemma_hex_lower_shape(s);
    lemma_bcd_decoded_is_canonical(field);
}

/// Writing hex text into a field and reading it back gives the text in lower
/// case with its trailing "00" pairs left out: the zero padding never shows,
/// and canonical text comes back unchanged.
pub proof fn lemma_bcd_decode_of_encode(text: Seq<char>, length: nat)
    requires
        is_hex_text(text),
        text.len() / 2 <= length,
    ensures
        bcd_decoded(bcd_encoded(text, length)) == bcd_decoded(hex_decoded(text)),
        is_canonical_hex(text) ==> bcd_decoded(bcd_encoded(text, length)) == text,
{
    let d = hex_decoded(text);
    lemma_strip_padding(d, (length - text.len() / 2) as nat);
    if is_canonical_hex(text) {
        lemma_hex_lower_of_decoded(text);
        if d.len() > 0 {
            let j = d.len() - 1;
            assert(2 * j == text.len() - 2);
            lemma_hex_value(text[2 * j]);
            lemma_hex_value(text[2 * j + 1]);
            if d.last() == 0 {
                assert(hex_value(text[2 * j]) == 0);
                assert(text[2 * j] == '0');
                assert(text[2 * j + 1] == '0');
            }
        }
        assert(strip_trailing_zeros(d) == d);
    }
}

} // verus!
