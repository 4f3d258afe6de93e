use vstd::prelude::*;

verus! {

/// The character that stands for the six-bit value `v` in the URL-safe
/// base64 alphabet: `A`-`Z`, `a`-`z`, `0`-`9`, `-`, `_`.
pub open spec fn base64url_digit(v: int) -> char {
    if v < 26 {
        (65 + v) as u8 as char
    } else if v < 52 {
        (71 + v) as u8 as char
    } else if v < 62 {
        (v - 4) as u8 as char
    } else if v == 62 {
        '-'
    } else {
        '_'
    }
}

/// Whether `c` belongs to the URL-safe base64 alphabet.
pub open spec fn is_base64url_char(c: char) -> bool {
    ('A' <= c && c <= 'Z') || ('a' <= c && c <= 'z') || ('0' <= c && c <= '9') || c == '-' || c
        == '_'
}

/// URL-safe base64 without padding: every three octets give four characters,
/// a final group of one octet gives two and a final group of two gives three.
pub open spec fn base64url_text(data: Seq<u8>) -> Seq<char>
    decreases data.len(),
{
    if data.len() == 0 {
        Seq::empty()
    } else if data.len() == 1 {
        seq![base64url_digit(data[0] as int / 4), base64url_digit((data[0] as int % 4) * 16)]
    } else if data.len() == 2 {
        seq![
            base64url_digit(data[0] as int / 4),
            base64url_digit((data[0] as int % 4) * 16 + data[1] as int / 16),
            base64url_digit((data[1] as int % 16) * 4),
        ]
    } else {
        seq![
            base64url_digit(data[0] as int / 4),
            base64url_digit((data[0] as int % 4) * 16 + data[1] as int / 16),
            base64url_digit((data[1] as int % 16) * 4 + data[2] as int / 64),
            base64url_digit(data[2] as int % 64),
        ] + base64url_text(data.skip(3))
    }
}

/// Encodes octets as URL-safe base64 without padding.
///
/// Trusted: calls `base64::encode_config` with `base64::URL_SAFE_NO_PAD`. The
/// contract claims that the returned text is the unpadded URL-safe base64
/// form of the input as `base64url_text` spells it out.
#[verifier::external_body]
pub(crate) fn base64url(input: &[u8]) -> (text: String)
    ensures
        text@ == base64url_text(input@),
{
    base64::encode_config(input, base64::URL_SAFE_NO_PAD)
}

/// Whether two strings hold the same characters.
pub fn str_eq(a: &str, b: &str) -> (same: bool)
    ensures
        same == (a@ == b@),
{
    let x = String::from_str(a);
    let y = String::from_str(b);
    x == y
}

/// The encoded length is the input length times four thirds, rounded up.
pub proof fn lemma_base64url_len(data: Seq<u8>)
    ensures
        base64url_text(data).len() == (data.len() * 4 + 2) / 3,
    decreases data.len(),
{
    if data.len() >= 3 {
        lemma_base64url_len(data.skip(3));
    }
}

/// A six-bit value is written with a character of the URL-safe alphabet.
pub proof fn lemma_base64url_digit_in_alphabet(v: int)
    requires
        0 <= v < 64,
    ensures
        is_base64url_char(base64url_digit(v)),
{
    if v < 26 {
        assert('A' as u8 == 65 && 'Z' as u8 == 90);
    } else if v < 52 {
        assert('a' as u8 == 97 && 'z' as u8 == 122);
    } else if v < 62 {
        assert('0' as u8 == 48 && '9' as u8 == 57);
    }
}

/// Every character of an encoding belongs to the URL-safe alphabet.
pub proof fn lemma_base64url_alphabet(data: Seq<u8>)
    ensures
        forall|i: int|
            0 <= i < base64url_text(data).len() ==> is_base64url_char(
                #[trigger] base64url_text(data)[i],
            ),
    decreases data.len(),
{
    let text = base64url_text(data);
    if data.len() == 0 {
    } else {
        let a = data[0] as int;
        lemma_base64url_digit_in_alphabet(a / 4);
        if data.len() == 1 {
            lemma_base64url_digit_in_alphabet((a % 4) * 16);
        } else {
            let b = data[1] as int;
            lemma_base64url_digit_in_alphabet((a % 4) * 16 + b / 16);
            if data.len() == 2 {
                lemma_base64url_digit_in_alphabet((b % 16) * 4);
            } else {
                let c = data[2] as int;
                lemma_base64url_digit_in_alphabet((b % 16) * 4 + c / 64);
                lemma_base64url_digit_in_alphabet(c % 64);
                lemma_base64url_alphabet(data.skip(3));
                let rest = base64url_text(data.skip(3));
                assert forall|i: int| 0 <= i < text.len() implies is_base64url_char(
                    #[trigger] text[i],
                ) by {
                    if i >= 4 {
                        assert(text[i] == rest[i - 4]);
                    }
                }
            }
        }
    }
}

/// Two six-bit values that are written with the same character are equal.
pub proof fn lemma_base64url_digit_injective(v: int, w: int)
    requires
        0 <= v < 64,
        0 <= w < 64,
        base64url_digit(v) == base64url_digit(w),
    ensures
        v == w,
{
    assert(base64url_digit(v) as u32 == base64url_digit(w) as u32);
    assert('-' as u32 == 45 && '_' as u32 == 95);
    assert(v < 26 ==> base64url_digit(v) as u32 == 65 + v);
    assert(26 <= v < 52 ==> base64url_digit(v) as u32 == 71 + v);
    assert(52 <= v < 62 ==> base64url_digit(v) as u32 == v - 4);
    assert(w < 26 ==> base64url_digit(w) as u32 == 65 + w);
    assert(26 <= w < 52 ==> base64url_digit(w) as u32 == 71 + w);
    assert(52 <= w < 62 ==> base64url_digit(w) as u32 == w - 4);
}

/// An encoding has one source only: two rows of octets with the same
/// encoding are the same row.
pub proof fn lemma_base64url_injective(a: Seq<u8>, b: Seq<u8>)
    requires
        base64url_text(a) == base64url_text(b),
    ensures
        a == b,
    decreases a.len(),
{
    lemma_base64url_len(a);
    lemma_base64url_len(b);
    assert(a.len() == b.len());
    let ta = base64url_text(a);
    let tb = base64url_text(b);
    if a.len() == 0 {
        assert(a =~= b);
    } else {
        let a0 = a[0] as int;
        let b0 = b[0] as int;
        assert(ta[0] == tb[0]);
        assert(ta[1] == tb[1]);
        lemma_base64url_digit_injective(a0 / 4, b0 / 4);
        if a.len() == 1 {
            lemma_base64url_digit_injective((a0 % 4) * 16, (b0 % 4) * 16);
            assert(a0 == b0);
            assert(a =~= b);
        } else {
            let a1 = a[1] as int;
            let b1 = b[1] as int;
            lemma_base64url_digit_injective((a0 % 4) * 16 + a1 / 16, (b0 % 4) * 16 + b1 / 16);
            assert(a0 == b0);
            assert(ta[2] == tb[2]);
            if a.len() == 2 {
                lemma_base64url_digit_injective((a1 % 16) * 4, (b1 % 16) * 4);
                assert(a1 == b1);
                assert(a =~= b);
            } else {
                let a2 = a[2] as int;
                let b2 = b[2] as int;
                assert(ta[3] == tb[3]);
                lemma_base64url_digit_injective((a1 % 16) * 4 + a2 / 64, (b1 % 16) * 4 + b2 / 64);
                lemma_base64url_digit_injective(a2 % 64, b2 % 64);
                assert(a1 == b1);
                assert(a2 == b2);
                assert(base64url_text(a.skip(3)) =~= ta.skip(4));
                assert(base64url_text(b.skip(3)) =~= tb.skip(4));
                lemma_base64url_injective(a.skip(3), b.skip(3));
                assert forall|i: int| 0 <= i < a.len() implies a[i] == b[i] by {
                    if i >= 3 {
                        assert(a[i] == a.skip(3)[i - 3]);
                        assert(b[i] == b.skip(3)[i - 3]);
                    }
                }
                assert(a =~= b);
            }
        }
    }
}

/// The octets that a base64url text denotes: those of which it is the
/// encoding. A text that is the encoding of nothing denotes none.
pub open spec fn base64url_octets(text: Seq<char>) -> Option<Seq<u8>> {
    if exists|data: Seq<u8>| base64url_text(data) == text {
        Some(choose|data: Seq<u8>| base64url_text(data) == text)
    } else {
        None
    }
}

/// An encoding denotes the octets that were encoded.
pub proof fn lemma_base64url_decodes_back(data: Seq<u8>)
    ensures
        base64url_octets(base64url_text(data)) == Some(data),
{
    let found = choose|d: Seq<u8>| base64url_text(d) == base64url_text(data);
    lemma_base64url_injective(found, data);
}

} // verus!
