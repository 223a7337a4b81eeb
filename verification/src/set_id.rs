use vstd::prelude::*;

verus! {

/// `c` is one of `0`–`9` or `a`–`f`.
pub open spec fn is_lower_hex_digit(c: char) -> bool {
    ('0' <= c && c <= '9') || ('a' <= c && c <= 'f')
}

/// `s` is the lower-case hyphenated text of a random (version 4, RFC 4122 variant)
/// UUID, such as `67e55044-10b1-426f-9247-bb680e5fe0c8`: 36 characters, hyphens at
/// positions 8, 13, 18 and 23, lower-case hex digits elsewhere, the version digit `4`
/// at position 14 and one of `8`, `9`, `a`, `b` at position 19.
pub open spec fn is_random_uuid_text(s: Seq<char>) -> bool {
    &&& s.len() == 36
    &&& forall|i: int|
        0 <= i < 36 ==> if i == 8 || i == 13 || i == 18 || i == 23 {
            s[i] == '-'
        } else {
            is_lower_hex_digit(s[i])
        }
    &&& s[14] == '4'
    &&& (s[19] == '8' || s[19] == '9' || s[19] == 'a' || s[19] == 'b')
}

/// The lower-case hex digit of a nibble.
pub open spec fn hex_digit(n: u8) -> char {
    seq!['0', '1', '2', '3', '4', '5', '6', '7', '8', '9', 'a', 'b', 'c', 'd', 'e', 'f'][n as int]
}

/// Byte `i` of the UUID built from `random`: the version nibble of byte 6 set to 4
/// and the two top bits of byte 8 set to `10` (the RFC 4122 variant).
pub open spec fn random_uuid_byte(random: Seq<u8>, i: int) -> u8 {
    if i == 6 {
        (random[6] & 0x0f) | 0x40
    } else if i == 8 {
        (random[8] & 0x3f) | 0x80
    } else {
        random[i]
    }
}

/// Nibble `j` (0 to 31, most significant first) of the UUID built from `random`.
pub open spec fn random_uuid_nibble(random: Seq<u8>, j: int) -> u8 {
    let b = random_uuid_byte(random, j / 2);
    if j % 2 == 0 {
        b >> 4
    } else {
        b & 0x0f
    }
}

/// The hyphenated lower-case text of the random UUID built from the bytes `random`:
/// the 32 hex digits in groups of 8, 4, 4, 4 and 12, separated by hyphens.
pub open spec fn random_uuid_text(random: Seq<u8>) -> Seq<char> {
    Seq::new(
        36,
        |p: int|
            if p == 8 || p == 13 || p == 18 || p == 23 {
                '-'
            } else {
                let j = if p < 8 {
                    p
                } else if p < 13 {
                    p - 1
                } else if p < 18 {
                    p - 2
                } else if p < 23 {
                    p - 3
                } else {
                    p - 4
                };
                hex_digit(random_uuid_nibble(random, j))
            },
    )
}

/// Fills 16 bytes from the operating system's random source with
/// `rand::RngCore::try_fill_bytes` on `rand::rngs::OsRng` (which calls `getrandom`).
/// The bytes rest on chance and nothing is claimed of them; `None` is returned when
/// the source reports an error, so the call does not panic.
#[verifier::external_body]
fn os_random_bytes() -> (r: Option<[u8; 16]>) {
    let mut bytes = [0u8; 16];
    match rand::RngCore::try_fill_bytes(&mut rand::rngs::OsRng, &mut bytes) {
        Ok(()) => Some(bytes),
        Err(_) => None,
    }
}

/// The text of the random UUID that `uuid::Builder::from_random_bytes` builds from
/// `random`, rendered with `to_string` (uuid's lower-case hyphenated `Display`).
/// `from_random_bytes` keeps the bytes in order, sets the version nibble of byte 6 to
/// 4 and the top bits of byte 8 to the RFC 4122 variant; the text lists the 32 nibbles,
/// most significant first, with hyphens after the 8th, 12th, 16th and 20th.
#[verifier::external_body]
fn random_uuid_to_text(random: [u8; 16]) -> (id: String)
    ensures
        id@ == random_uuid_text(random@),
{
    uuid::Builder::from_random_bytes(random).into_uuid().to_string()
}

proof fn lemma_random_uuid_text_form(random: Seq<u8>)
    requires
        random.len() == 16,
    ensures
        is_random_uuid_text(random_uuid_text(random)),
{
    let s = random_uuid_text(random);
    let hex = seq!['0', '1', '2', '3', '4', '5', '6', '7', '8', '9', 'a', 'b', 'c', 'd', 'e', 'f'];
    assert forall|n: u8| n < 16 implies is_lower_hex_digit(#[trigger] hex_digit(n)) by {
        assert(hex_digit(n) == hex[n as int]);
    }
    assert forall|j: int| 0 <= j < 32 implies #[trigger] random_uuid_nibble(random, j) < 16 by {
        let b = random_uuid_byte(random, j / 2);
        assert(b >> 4 < 16) by (bit_vector);
        assert(b & 0x0f < 16) by (bit_vector);
    }
    let b6 = random[6];
    let b8 = random[8];
    assert(((b6 & 0x0f) | 0x40) >> 4 == 4) by (bit_vector);
    let v = ((b8 & 0x3f) | 0x80) >> 4;
    assert(8 <= v <= 11) by (bit_vector)
        requires
            v == ((b8 & 0x3f) | 0x80) >> 4,
    ;
    assert(random_uuid_nibble(random, 12) == 4);
    assert(random_uuid_nibble(random, 16) == v);
    assert(s[14] == hex[4]);
    assert(s[19] == hex[v as int]);
}

/// Draws a fresh memory-set identifier: the text of a random UUID built from 16 bytes
/// of the operating system's random source, or `None` when that source fails.
pub(crate) fn fresh_set_id() -> (r: Option<String>)
    ensures
        r matches Some(id) ==> is_random_uuid_text(id@),
{
    match os_random_bytes() {
        Some(random) => {
            let id = random_uuid_to_text(random);
            proof {
                lemma_random_uuid_text_form(random@);
            }
            Some(id)
        },
        None => None,
    }
}

} // verus!
