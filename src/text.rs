//! The canonical text of a UUID: 32 lower-case hex digits in groups of
//! 8-4-4-4-12, joined by hyphens.
use vstd::prelude::*;

verus! {

/// The lower-case hex digit of a value below 16.
pub open spec fn hex_digit(n: u8) -> char {
    if n < 10 {
        (('0' as u8) + n) as char
    } else {
        (('a' as u8) + (n - 10)) as char
    }
}

/// Whether `c` is one of `0`-`9`, `a`-`f`.
pub open spec fn is_lower_hex(c: char) -> bool {
    ('0' <= c && c <= '9') || ('a' <= c && c <= 'f')
}

/// Two hex digits per byte, high nibble first.
pub open spec fn hex_of(b: Seq<u8>) -> Seq<char>
    decreases b.len(),
{
    if b.len() == 0 {
        Seq::empty()
    } else {
        seq![hex_digit(b[0] / 16), hex_digit(b[0] % 16)] + hex_of(b.drop_first())
    }
}

/// The hyphenated text of 16 bytes.
pub open spec fn canonical_text(b: Seq<u8>) -> Seq<char> {
    hex_of(b.subrange(0, 4)) + seq!['-'] + hex_of(b.subrange(4, 6)) + seq!['-'] + hex_of(
        b.subrange(6, 8),
    ) + seq!['-'] + hex_of(b.subrange(8, 10)) + seq!['-'] + hex_of(b.subrange(10, 16))
}

/// Whether a position of the canonical text holds a hyphen.
pub open spec fn is_hyphen_position(i: int) -> bool {
    i == 8 || i == 13 || i == 18 || i == 23
}

/// The shape of the canonical text: 36 characters, hyphens at 8, 13, 18 and
/// 23, lower-case hex digits everywhere else.
pub open spec fn is_canonical_text(s: Seq<char>) -> bool {
    &&& s.len() == 36
    &&& forall|i: int|
        0 <= i < 36 ==> if is_hyphen_position(i) {
            #[trigger] s[i] == '-'
        } else {
            is_lower_hex(s[i])
        }
}

proof fn lemma_hex_digit(n: u8)
    requires
        n < 16,
    ensures
        is_lower_hex(hex_digit(n)),
{
}

proof fn lemma_hex_of(b: Seq<u8>)
    ensures
        hex_of(b).len() == 2 * b.len(),
        forall|k: int| 0 <= k < hex_of(b).len() ==> is_lower_hex(#[trigger] hex_of(b)[k]),
    decreases b.len(),
{
    if b.len() > 0 {
        lemma_hex_of(b.drop_first());
        lemma_hex_digit(b[0] / 16);
        lemma_hex_digit(b[0] % 16);
        let head = seq![hex_digit(b[0] / 16), hex_digit(b[0] % 16)];
        let tail = hex_of(b.drop_first());
        assert forall|k: int| 0 <= k < hex_of(b).len() implies is_lower_hex(
            #[trigger] hex_of(b)[k],
        ) by {
            if k >= 2 {
                assert(hex_of(b)[k] == tail[k - 2]);
            }
        }
    }
}

/// The text of any 16 bytes has the canonical shape.
pub proof fn lemma_canonical_text_shape(b: Seq<u8>)
    requires
        b.len() == 16,
    ensures
        is_canonical_text(canonical_text(b)),
{
    let g0 = hex_of(b.subrange(0, 4));
    let g1 = hex_of(b.subrange(4, 6));
    let g2 = hex_of(b.subrange(6, 8));
    let g3 = hex_of(b.subrange(8, 10));
    let g4 = hex_of(b.subrange(10, 16));
    lemma_hex_of(b.subrange(0, 4));
    lemma_hex_of(b.subrange(4, 6));
    lemma_hex_of(b.subrange(6, 8));
    lemma_hex_of(b.subrange(8, 10));
    lemma_hex_of(b.subrange(10, 16));
    let h = seq!['-'];
    let s = canonical_text(b);
    assert(s == g0 + h + g1 + h + g2 + h + g3 + h + g4);
    assert forall|i: int| 0 <= i < 36 implies if is_hyphen_position(i) {
        #[trigger] s[i] == '-'
    } else {
        is_lower_hex(s[i])
    } by {
        if i < 8 {
            assert(s[i] == g0[i]);
        } else if i == 8 {
        } else if i < 13 {
            assert(s[i] == g1[i - 9]);
        } else if i == 13 {
        } else if i < 18 {
            assert(s[i] == g2[i - 14]);
        } else if i == 18 {
        } else if i < 23 {
            assert(s[i] == g3[i - 19]);
        } else if i == 23 {
        } else {
            assert(s[i] == g4[i - 24]);
        }
    }
}

/// Relies on uuid's `Uuid::to_hyphenated` and its `Display`: the 16 bytes in
/// order, two lower-case hex digits each, with a hyphen after bytes 4, 6, 8
/// and 10.
#[verifier::external_body]
pub(crate) fn hyphenated(bytes: &[u8; 16]) -> (r: String)
    ensures
        r@ == canonical_text(bytes@),
{
    uuid::Uuid::from_bytes(*bytes).to_hyphenated().to_string()
}

/// The canonical text of a UUID given by its 16 bytes.
pub fn render(bytes: &[u8; 16]) -> (r: String)
    ensures
        r@ == canonical_text(bytes@),
        is_canonical_text(r@),
{
    proof {
        lemma_canonical_text_shape(bytes@);
    }
    hyphenated(bytes)
}

} // verus!
