//! 128-bit identifiers and their text form.

use vstd::prelude::*;

verus! {

/// An opaque 128-bit identifier of a user or of a session.
#[derive(Clone, Copy, Debug, PartialEq, Eq, Hash, Structural)]
pub struct Id {
    pub bits: u128,
}

impl View for Id {
    type V = Id;

    open spec fn view(&self) -> Id {
        *self
    }
}

impl DeepView for Id {
    type V = Id;

    open spec fn deep_view(&self) -> Id {
        *self
    }
}

/// The lower-case hexadecimal digit of a value below sixteen.
pub open spec fn hex_digit(nibble: u128) -> char {
    if nibble == 0 {
        '0'
    } else if nibble == 1 {
        '1'
    } else if nibble == 2 {
        '2'
    } else if nibble == 3 {
        '3'
    } else if nibble == 4 {
        '4'
    } else if nibble == 5 {
        '5'
    } else if nibble == 6 {
        '6'
    } else if nibble == 7 {
        '7'
    } else if nibble == 8 {
        '8'
    } else if nibble == 9 {
        '9'
    } else if nibble == 10 {
        'a'
    } else if nibble == 11 {
        'b'
    } else if nibble == 12 {
        'c'
    } else if nibble == 13 {
        'd'
    } else if nibble == 14 {
        'e'
    } else {
        'f'
    }
}

/// The `k`-th group of four bits of `bits`, counted from the most significant.
pub open spec fn nibble(bits: u128, k: int) -> u128 {
    (bits >> ((124 - 4 * k) as u128)) & 0xf
}

/// Whether position `i` of the text form holds a hyphen.
pub open spec fn is_hyphen(i: int) -> bool {
    i == 8 || i == 13 || i == 18 || i == 23
}

/// The number of the hexadecimal digit that stands at position `i` of the text
/// form.
pub open spec fn digit_index(i: int) -> int {
    if i < 8 {
        i
    } else if i < 13 {
        i - 1
    } else if i < 18 {
        i - 2
    } else if i < 23 {
        i - 3
    } else {
        i - 4
    }
}

/// The text form of an identifier: its 32 hexadecimal digits in lower case,
/// most significant first, in groups of 8, 4, 4, 4 and 12 joined by hyphens.
pub open spec fn hyphenated_text(bits: u128) -> Seq<char> {
    Seq::new(
        36,
        |i: int|
            if is_hyphen(i) {
                '-'
            } else {
                hex_digit(nibble(bits, digit_index(i)))
            },
    )
}

/// What `uuid::Uuid::parse_str` makes of a text: the 128 bits it denotes, or
/// `None` where the text is refused.
pub uninterp spec fn uuid_parse(text: Seq<char>) -> Option<u128>;

/// Whether `text` is the text form of some identifier.
pub open spec fn is_id_text(text: Seq<char>) -> bool {
    exists|bits: u128| #[trigger] hyphenated_text(bits) == text
}

/// The identifier that `text` is the text form of, if it is one.
pub open spec fn canonical_bits(text: Seq<char>) -> Option<u128> {
    if is_id_text(text) {
        Some(choose|bits: u128| #[trigger] hyphenated_text(bits) == text)
    } else {
        None
    }
}

/// What reading `text` as an identifier gives. The text form of an
/// identifier reads as that identifier; any other text reads as
/// `uuid::Uuid::parse_str` takes it.
pub open spec fn parse_text(text: Seq<char>) -> Option<u128> {
    match canonical_bits(text) {
        Some(bits) => Some(bits),
        None => uuid_parse(text),
    }
}

/// Whether `bits` carries the version and variant marks of a random
/// identifier: version 4 in bits 76 to 79, variant `10` in bits 62 and 63.
pub open spec fn random_layout(bits: u128) -> bool {
    bits & 0xF000_C000_0000_0000_0000 == 0x4000_8000_0000_0000_0000
}

/// A hexadecimal digit names one value below sixteen.
proof fn lemma_hex_digit_injective(m: u128, n: u128)
    requires
        m < 16,
        n < 16,
        hex_digit(m) == hex_digit(n),
    ensures
        m == n,
{
}

/// Equal text forms carry the same digit at every position.
proof fn lemma_same_digit(a: u128, b: u128, i: int)
    requires
        hyphenated_text(a) == hyphenated_text(b),
        0 <= i < 36,
        !is_hyphen(i),
    ensures
        nibble(a, digit_index(i)) == nibble(b, digit_index(i)),
{
    let k = digit_index(i);
    let shift = (124 - 4 * k) as u128;
    assert(hyphenated_text(a)[i] == hex_digit(nibble(a, k)));
    assert(hyphenated_text(b)[i] == hex_digit(nibble(b, k)));
    assert((a >> shift) & 0xf < 16) by (bit_vector);
    assert((b >> shift) & 0xf < 16) by (bit_vector);
    lemma_hex_digit_injective(nibble(a, k), nibble(b, k));
}

/// Two identifiers with the same text form are the same identifier.
pub proof fn lemma_text_injective(a: u128, b: u128)
    requires
        hyphenated_text(a) == hyphenated_text(b),
    ensures
        a == b,
{
    lemma_same_digit(a, b, 0);
    lemma_same_digit(a, b, 1);
    lemma_same_digit(a, b, 2);
    lemma_same_digit(a, b, 3);
    lemma_same_digit(a, b, 4);
    lemma_same_digit(a, b, 5);
    lemma_same_digit(a, b, 6);
    lemma_same_digit(a, b, 7);
    lemma_same_digit(a, b, 9);
    lemma_same_digit(a, b, 10);
    lemma_same_digit(a, b, 11);
    lemma_same_digit(a, b, 12);
    lemma_same_digit(a, b, 14);
    lemma_same_digit(a, b, 15);
    lemma_same_digit(a, b, 16);
    lemma_same_digit(a, b, 17);
    lemma_same_digit(a, b, 19);
    lemma_same_digit(a, b, 20);
    lemma_same_digit(a, b, 21);
    lemma_same_digit(a, b, 22);
    lemma_same_digit(a, b, 24);
    lemma_same_digit(a, b, 25);
    lemma_same_digit(a, b, 26);
    lemma_same_digit(a, b, 27);
    lemma_same_digit(a, b, 28);
    lemma_same_digit(a, b, 29);
    lemma_same_digit(a, b, 30);
    lemma_same_digit(a, b, 31);
    lemma_same_digit(a, b, 32);
    lemma_same_digit(a, b, 33);
    lemma_same_digit(a, b, 34);
    lemma_same_digit(a, b, 35);
    assert(a == b) by (bit_vector)
        requires
            (a >> 124) & 0xf == (b >> 124) & 0xf,
            (a >> 120) & 0xf == (b >> 120) & 0xf,
            (a >> 116) & 0xf == (b >> 116) & 0xf,
            (a >> 112) & 0xf == (b >> 112) & 0xf,
            (a >> 108) & 0xf == (b >> 108) & 0xf,
            (a >> 104) & 0xf == (b >> 104) & 0xf,
            (a >> 100) & 0xf == (b >> 100) & 0xf,
            (a >> 96) & 0xf == (b >> 96) & 0xf,
            (a >> 92) & 0xf == (b >> 92) & 0xf,
            (a >> 88) & 0xf == (b >> 88) & 0xf,
            (a >> 84) & 0xf == (b >> 84) & 0xf,
            (a >> 80) & 0xf == (b >> 80) & 0xf,
            (a >> 76) & 0xf == (b >> 76) & 0xf,
            (a >> 72) & 0xf == (b >> 72) & 0xf,
            (a >> 68) & 0xf == (b >> 68) & 0xf,
            (a >> 64) & 0xf == (b >> 64) & 0xf,
            (a >> 60) & 0xf == (b >> 60) & 0xf,
            (a >> 56) & 0xf == (b >> 56) & 0xf,
            (a >> 52) & 0xf == (b >> 52) & 0xf,
            (a >> 48) & 0xf == (b >> 48) & 0xf,
            (a >> 44) & 0xf == (b >> 44) & 0xf,
            (a >> 40) & 0xf == (b >> 40) & 0xf,
            (a >> 36) & 0xf == (b >> 36) & 0xf,
            (a >> 32) & 0xf == (b >> 32) & 0xf,
            (a >> 28) & 0xf == (b >> 28) & 0xf,
            (a >> 24) & 0xf == (b >> 24) & 0xf,
            (a >> 20) & 0xf == (b >> 20) & 0xf,
            (a >> 16) & 0xf == (b >> 16) & 0xf,
            (a >> 12) & 0xf == (b >> 12) & 0xf,
            (a >> 8) & 0xf == (b >> 8) & 0xf,
            (a >> 4) & 0xf == (b >> 4) & 0xf,
            (a >> 0) & 0xf == (b >> 0) & 0xf,
    ;
}

/// The text form of an identifier reads back as that identifier.
pub proof fn lemma_text_reads_back(bits: u128)
    ensures
        is_id_text(hyphenated_text(bits)),
        canonical_bits(hyphenated_text(bits)) == Some(bits),
        parse_text(hyphenated_text(bits)) == Some(bits),
{
    let text = hyphenated_text(bits);
    assert(is_id_text(text));
    let chosen = choose|other: u128| #[trigger] hyphenated_text(other) == text;
    lemma_text_injective(chosen, bits);
}

/// Some identifier has the layout of a random one.
pub proof fn lemma_random_layout_inhabited() -> (id: Id)
    ensures
        id.is_random(),
{
    assert(0x4000_8000_0000_0000_0000u128 & 0xF000_C000_0000_0000_0000 == 0x4000_8000_0000_0000_0000)
        by (bit_vector);
    Id { bits: 0x4000_8000_0000_0000_0000 }
}

impl Id {
    /// The text under which the identifier is stored and sent.
    pub open spec fn text(self) -> Seq<char> {
        hyphenated_text(self.bits)
    }

    /// Whether the identifier has the layout of a randomly drawn one.
    pub open spec fn is_random(self) -> bool {
        random_layout(self.bits)
    }

    /// Draws a fresh random identifier.
    pub fn random() -> (id: Id)
        ensures
            id.is_random(),
    {
        Id { bits: random_bits() }
    }

    /// Reads an identifier from text, in any of the forms the `uuid` crate
    /// accepts.
    pub fn parse(text: &str) -> (id: Option<Id>)
        ensures
            id == Id::parsed(parse_text(text@)),
    {
        match parse_bits(text) {
            Some(bits) => Some(Id { bits }),
            None => None,
        }
    }

    /// The identifier that a parse result stands for.
    pub open spec fn parsed(bits: Option<u128>) -> Option<Id> {
        match bits {
            Some(bits) => Some(Id { bits }),
            None => None,
        }
    }

    /// Writes the identifier as text. The text reads back as the identifier.
    pub fn to_text(&self) -> (text: String)
        ensures
            text@ == self.text(),
            is_id_text(text@),
            parse_text(text@) == Some(self.bits),
    {
        proof {
            lemma_text_reads_back(self.bits);
        }
        hyphenated(self.bits)
    }
}

/// Calls `uuid::Uuid::new_v4`, which draws 128 bits from the operating
/// system's generator and overwrites six of them with the version and variant
/// marks. Nothing else is claimed of the outcome.
#[verifier::external_body]
fn random_bits() -> (bits: u128)
    ensures
        random_layout(bits),
{
    uuid::Uuid::new_v4().as_u128()
}

/// Calls `uuid::Uuid::parse_str` and hands back the bits of the identifier it
/// read, big-endian, or `None` where it refused the text. Of a text of 36
/// characters with hyphens at 8, 13, 18 and 23 and lower-case hexadecimal
/// digits elsewhere, the parser gives the identifier whose digits these are;
/// of any other text, the result is only named.
#[verifier::external_body]
fn parse_bits(text: &str) -> (bits: Option<u128>)
    ensures
        canonical_bits(text@) is Some ==> bits == canonical_bits(text@),
        canonical_bits(text@) is None ==> bits == uuid_parse(text@),
{
    match uuid::Uuid::parse_str(text) {
        Ok(parsed) => Some(parsed.as_u128()),
        Err(_) => None,
    }
}

/// Calls `to_string` on the `uuid::Uuid` made of `bits`, which formats it in
/// the hyphenated lower-case form.
#[verifier::external_body]
fn hyphenated(bits: u128) -> (text: String)
    ensures
        text@ == hyphenated_text(bits),
{
    uuid::Uuid::from_u128(bits).to_string()
}

} // verus!
