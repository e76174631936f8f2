//! Base64 text of byte strings, computed by the `base64` crate.
use vstd::prelude::*;

verus! {

/// The digit of a six-bit value in the standard base64 alphabet:
/// `A-Z`, then `a-z`, then `0-9`, then `+` and `/`.
pub open spec fn b64_digit(v: int) -> char {
    if v < 26 {
        (65 + v) as char
    } else if v < 52 {
        (97 + (v - 26)) as char
    } else if v < 62 {
        (48 + (v - 52)) as char
    } else if v == 62 {
        '+'
    } else {
        '/'
    }
}

/// The six-bit value that a standard base64 digit stands for.
pub open spec fn b64_value(c: char) -> int {
    if 'A' <= c && c <= 'Z' {
        c as int - 'A' as int
    } else if 'a' <= c && c <= 'z' {
        c as int - 'a' as int + 26
    } else if '0' <= c && c <= '9' {
        c as int - '0' as int + 52
    } else if c == '+' {
        62
    } else {
        63
    }
}

/// A character that can occur in padded standard base64 text.
pub open spec fn is_base64_char(c: char) -> bool {
    ||| ('A' <= c && c <= 'Z')
    ||| ('a' <= c && c <= 'z')
    ||| ('0' <= c && c <= '9')
    ||| c == '+'
    ||| c == '/'
    ||| c == '='
}

/// The padded base64 text of `bytes` in the standard alphabet: each group of
/// three bytes gives four digits of six bits each; a last group of one or two
/// bytes gives two or three digits, padded with `=` to four characters.
pub open spec fn base64_standard(bytes: Seq<u8>) -> Seq<char>
    decreases bytes.len(),
{
    if bytes.len() == 0 {
        seq![]
    } else if bytes.len() == 1 {
        let x = bytes[0] as int;
        seq![b64_digit(x / 4), b64_digit((x % 4) * 16), '=', '=']
    } else if bytes.len() == 2 {
        let (x, y) = (bytes[0] as int, bytes[1] as int);
        seq![b64_digit(x / 4), b64_digit((x % 4) * 16 + y / 16), b64_digit((y % 16) * 4), '=']
    } else {
        let (x, y, z) = (bytes[0] as int, bytes[1] as int, bytes[2] as int);
        seq![
            b64_digit(x / 4),
            b64_digit((x % 4) * 16 + y / 16),
            b64_digit((y % 16) * 4 + z / 64),
            b64_digit(z % 64),
        ] + base64_standard(bytes.subrange(3, bytes.len() as int))
    }
}

/// The length of padded base64 text for `n` input bytes: four characters
/// for every started group of three bytes.
pub open spec fn base64_len(n: nat) -> nat {
    4 * ((n + 2) / 3)
}

/// Distinct six-bit values have distinct digits, and no digit is `=`.
pub proof fn lemma_b64_digit(v: int, w: int)
    requires
        0 <= v < 64,
        0 <= w < 64,
    ensures
        b64_digit(v) == b64_digit(w) ==> v == w,
        b64_digit(v) != '=',
        is_base64_char(b64_digit(v)),
        b64_value(b64_digit(v)) == v,
{
}

/// The text has four characters per started group of three bytes.
pub proof fn lemma_base64_length(bytes: Seq<u8>)
    ensures
        base64_standard(bytes).len() == base64_len(bytes.len()),
    decreases bytes.len(),
{
    if bytes.len() >= 3 {
        lemma_base64_length(bytes.subrange(3, bytes.len() as int));
    }
}

/// What the text says of each group of three bytes, counting groups from
/// zero: a full group gives four digits holding its 24 bits six at a time; a
/// last group of one byte gives two digits and two `=`, one of two bytes three
/// digits and one `=`. Digits are read back with `b64_value`.
pub open spec fn encodes_group(text: Seq<char>, bytes: Seq<u8>, g: int) -> bool {
    let (i, j) = (3 * g, 4 * g);
    let x = bytes[i] as int;
    let y = if i + 1 < bytes.len() { bytes[i + 1] as int } else { 0 };
    let z = if i + 2 < bytes.len() { bytes[i + 2] as int } else { 0 };
    &&& b64_value(text[j]) == x / 4
    &&& b64_value(text[j + 1]) == (x % 4) * 16 + y / 16
    &&& if i + 1 < bytes.len() {
        b64_value(text[j + 2]) == (y % 16) * 4 + z / 64 && text[j + 2] != '='
    } else {
        text[j + 2] == '='
    }
    &&& if i + 2 < bytes.len() {
        b64_value(text[j + 3]) == z % 64 && text[j + 3] != '='
    } else {
        text[j + 3] == '='
    }
}

/// Each group of three input bytes is written as the four characters at the
/// matching place of the text.
pub proof fn lemma_base64_groups(bytes: Seq<u8>, g: int)
    requires
        0 <= g,
        3 * g < bytes.len(),
    ensures
        4 * g + 4 <= base64_standard(bytes).len(),
        encodes_group(base64_standard(bytes), bytes, g),
    decreases g,
{
    lemma_base64_length(bytes);
    let t = base64_standard(bytes);
    if g == 0 {
        let x = bytes[0] as int;
        let y = if 1 < bytes.len() { bytes[1] as int } else { 0 };
        let z = if 2 < bytes.len() { bytes[2] as int } else { 0 };
        lemma_b64_digit(x / 4, 0);
        lemma_b64_digit((x % 4) * 16 + y / 16, 0);
        lemma_b64_digit((y % 16) * 4 + z / 64, 0);
        lemma_b64_digit(z % 64, 0);
        if bytes.len() == 1 {
            assert(y / 16 == 0);
        } else if bytes.len() == 2 {
            assert(z / 64 == 0);
        }
    } else {
        let rest = bytes.subrange(3, bytes.len() as int);
        lemma_base64_groups(rest, g - 1);
        assert(t.subrange(4, t.len() as int) =~= base64_standard(rest));
        let (i, j) = (3 * g, 4 * g);
        assert(bytes[i] == rest[i - 3]);
        if i + 1 < bytes.len() {
            assert(bytes[i + 1] == rest[i - 2]);
        }
        if i + 2 < bytes.len() {
            assert(bytes[i + 2] == rest[i - 1]);
        }
        assert(t[j] == base64_standard(rest)[j - 4]);
        assert(t[j + 1] == base64_standard(rest)[j - 3]);
        assert(t[j + 2] == base64_standard(rest)[j - 2]);
        assert(t[j + 3] == base64_standard(rest)[j - 1]);
    }
}

/// Every character of the text is a base64 digit or `=`.
pub proof fn lemma_base64_alphabet(bytes: Seq<u8>)
    ensures
        forall|i: int|
            0 <= i < base64_standard(bytes).len() ==> is_base64_char(
                #[trigger] base64_standard(bytes)[i],
            ),
    decreases bytes.len(),
{
    if bytes.len() == 0 {
    } else if bytes.len() < 3 {
        let x = bytes[0] as int;
        lemma_b64_digit(x / 4, 0);
        lemma_b64_digit((x % 4) * 16, 0);
        if bytes.len() == 2 {
            let y = bytes[1] as int;
            lemma_b64_digit((x % 4) * 16 + y / 16, 0);
            lemma_b64_digit((y % 16) * 4, 0);
        }
    } else {
        let (x, y, z) = (bytes[0] as int, bytes[1] as int, bytes[2] as int);
        lemma_b64_digit(x / 4, 0);
        lemma_b64_digit((x % 4) * 16 + y / 16, 0);
        lemma_b64_digit((y % 16) * 4 + z / 64, 0);
        lemma_b64_digit(z % 64, 0);
        let rest = bytes.subrange(3, bytes.len() as int);
        lemma_base64_alphabet(rest);
        let t = base64_standard(bytes);
        assert forall|i: int| 0 <= i < t.len() implies is_base64_char(#[trigger] t[i]) by {
            if i >= 4 {
                assert(t[i] == base64_standard(rest)[i - 4]);
            }
        }
    }
}

/// The six-bit fields of a group of three bytes determine the bytes.
proof fn lemma_group3(x0: u8, x1: u8, x2: u8, y0: u8, y1: u8, y2: u8)
    by (bit_vector)
    requires
        x0 / 4 == y0 / 4,
        (x0 % 4) * 16 + x1 / 16 == (y0 % 4) * 16 + y1 / 16,
        (x1 % 16) * 4 + x2 / 64 == (y1 % 16) * 4 + y2 / 64,
        x2 % 64 == y2 % 64,
    ensures
        x0 == y0,
        x1 == y1,
        x2 == y2,
{
}

/// The six-bit fields of a group of two bytes determine the bytes.
proof fn lemma_group2(x0: u8, x1: u8, y0: u8, y1: u8)
    by (bit_vector)
    requires
        x0 / 4 == y0 / 4,
        (x0 % 4) * 16 + x1 / 16 == (y0 % 4) * 16 + y1 / 16,
        (x1 % 16) * 4 == (y1 % 16) * 4,
    ensures
        x0 == y0,
        x1 == y1,
{
}

/// The six-bit fields of a single byte determine it.
proof fn lemma_group1(x0: u8, y0: u8)
    by (bit_vector)
    requires
        x0 / 4 == y0 / 4,
        (x0 % 4) * 16 == (y0 % 4) * 16,
    ensures
        x0 == y0,
{
}

/// Where a non-empty text has its padding: the fourth character is `=`
/// exactly when the bytes are fewer than three, the third exactly when fewer
/// than two.
proof fn lemma_padding(a: Seq<u8>)
    requires
        a.len() > 0,
    ensures
        base64_standard(a).len() >= 4,
        base64_standard(a)[3] == '=' <==> a.len() < 3,
        base64_standard(a)[2] == '=' <==> a.len() < 2,
{
    lemma_base64_length(a);
    let x = a[0] as int;
    if a.len() == 2 {
        let y = a[1] as int;
        lemma_b64_digit((y % 16) * 4, 0);
    } else if a.len() >= 3 {
        let (y, z) = (a[1] as int, a[2] as int);
        lemma_b64_digit((y % 16) * 4 + z / 64, 0);
        lemma_b64_digit(z % 64, 0);
    }
}

/// Equal texts of single bytes come from the same byte.
proof fn lemma_injective_one(a: Seq<u8>, b: Seq<u8>)
    requires
        a.len() == 1,
        b.len() == 1,
        base64_standard(a) == base64_standard(b),
    ensures
        a == b,
{
    let (x, y) = (a[0] as int, b[0] as int);
    assert(base64_standard(a)[0] == base64_standard(b)[0]);
    assert(base64_standard(a)[1] == base64_standard(b)[1]);
    lemma_b64_digit(x / 4, y / 4);
    lemma_b64_digit((x % 4) * 16, (y % 4) * 16);
    lemma_group1(a[0], b[0]);
    assert(a =~= b);
}

/// Equal texts of two bytes come from the same bytes.
proof fn lemma_injective_two(a: Seq<u8>, b: Seq<u8>)
    requires
        a.len() == 2,
        b.len() == 2,
        base64_standard(a) == base64_standard(b),
    ensures
        a == b,
{
    let (x0, x1, y0, y1) = (a[0] as int, a[1] as int, b[0] as int, b[1] as int);
    assert(base64_standard(a)[0] == base64_standard(b)[0]);
    assert(base64_standard(a)[1] == base64_standard(b)[1]);
    assert(base64_standard(a)[2] == base64_standard(b)[2]);
    lemma_b64_digit(x0 / 4, y0 / 4);
    lemma_b64_digit((x0 % 4) * 16 + x1 / 16, (y0 % 4) * 16 + y1 / 16);
    lemma_b64_digit((x1 % 16) * 4, (y1 % 16) * 4);
    lemma_group2(a[0], a[1], b[0], b[1]);
    assert(a =~= b);
}

/// Equal texts of at least three bytes agree on the first three bytes and on
/// the text of the rest.
proof fn lemma_injective_group(a: Seq<u8>, b: Seq<u8>)
    requires
        a.len() >= 3,
        b.len() >= 3,
        base64_standard(a) == base64_standard(b),
    ensures
        a[0] == b[0],
        a[1] == b[1],
        a[2] == b[2],
        base64_standard(a.subrange(3, a.len() as int)) == base64_standard(
            b.subrange(3, b.len() as int),
        ),
{
    let (ta, tb) = (base64_standard(a), base64_standard(b));
    let (x0, x1, x2) = (a[0] as int, a[1] as int, a[2] as int);
    let (y0, y1, y2) = (b[0] as int, b[1] as int, b[2] as int);
    assert(ta[0] == tb[0] && ta[1] == tb[1] && ta[2] == tb[2] && ta[3] == tb[3]);
    lemma_b64_digit(x0 / 4, y0 / 4);
    lemma_b64_digit((x0 % 4) * 16 + x1 / 16, (y0 % 4) * 16 + y1 / 16);
    lemma_b64_digit((x1 % 16) * 4 + x2 / 64, (y1 % 16) * 4 + y2 / 64);
    lemma_b64_digit(x2 % 64, y2 % 64);
    lemma_group3(a[0], a[1], a[2], b[0], b[1], b[2]);
    assert(base64_standard(a.subrange(3, a.len() as int)) =~= ta.subrange(4, ta.len() as int));
    assert(base64_standard(b.subrange(3, b.len() as int)) =~= tb.subrange(4, tb.len() as int));
}

/// Distinct byte strings have distinct base64 texts.
pub proof fn lemma_base64_injective(a: Seq<u8>, b: Seq<u8>)
    requires
        base64_standard(a) == base64_standard(b),
    ensures
        a == b,
    decreases a.len(),
{
    lemma_base64_length(a);
    lemma_base64_length(b);
    if a.len() == 0 || b.len() == 0 {
        assert(a.len() == 0 && b.len() == 0);
        assert(a =~= b);
        return;
    }
    lemma_padding(a);
    lemma_padding(b);
    if a.len() == 1 {
        lemma_injective_one(a, b);
    } else if a.len() == 2 {
        lemma_injective_two(a, b);
    } else {
        lemma_injective_group(a, b);
        let (ra, rb) = (a.subrange(3, a.len() as int), b.subrange(3, b.len() as int));
        lemma_base64_injective(ra, rb);
        assert(a.len() == b.len());
        assert forall|i: int| 0 <= i < a.len() implies a[i] == b[i] by {
            if i >= 3 {
                assert(a[i] == ra[i - 3] && b[i] == rb[i - 3]);
            }
        }
        assert(a =~= b);
    }
}

/// Calls `base64::encode` (the `STANDARD` engine, with padding).
/// Trusted: the text is the standard padded base64 of the bytes. The crate
/// panics when the text's length does not fit in `usize`, which `requires`
/// rules out.
#[verifier::external_body]
pub(crate) fn encode_base64(bytes: &[u8]) -> (res: String)
    requires
        base64_len(bytes@.len()) <= usize::MAX,
    ensures
        res@ == base64_standard(bytes@),
{
    #[allow(deprecated)]
    base64::encode(bytes)
}

} // verus!
