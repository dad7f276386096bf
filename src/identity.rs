use vstd::prelude::*;

verus! {

/// The lower-case hexadecimal digit of a value below 16.
pub open spec fn hex_digit(n: u128) -> u8 {
    if n < 10 {
        (48 + n) as u8
    } else {
        (87 + n) as u8
    }
}

/// The `k`-th four-bit group of `v`, counted from the most significant end.
pub open spec fn nibble(v: u128, k: int) -> u128 {
    (v >> ((31 - k) * 4) as u128) & 0xf
}

/// How many hyphens precede position `i` of the canonical text.
pub open spec fn hyphens_before(i: int) -> int {
    if i < 8 {
        0
    } else if i < 13 {
        1
    } else if i < 18 {
        2
    } else if i < 23 {
        3
    } else {
        4
    }
}

/// Whether position `i` of the canonical text holds a hyphen.
pub open spec fn is_hyphen_position(i: int) -> bool {
    i == 8 || i == 13 || i == 18 || i == 23
}

/// The canonical text of a 128-bit identifier: 32 lower-case hexadecimal
/// digits, most significant first, in groups of 8-4-4-4-12 joined by hyphens.
pub open spec fn canonical_text(v: u128) -> Seq<u8> {
    Seq::new(
        36,
        |i: int|
            if is_hyphen_position(i) {
                45u8
            } else {
                hex_digit(nibble(v, i - hyphens_before(i)))
            },
    )
}

/// Whether `v` has the layout of a random (version 4, RFC 4122 variant) UUID.
pub open spec fn is_random_uuid(v: u128) -> bool {
    &&& (v >> 76u128) & 0xf == 4
    &&& (v >> 62u128) & 0x3 == 2
}

/// Relies on uuid::Uuid::new_v4 and Uuid::as_u128: a random value whose
/// version bits read 4 and whose variant bits read 0b10.
#[verifier::external_body]
fn random_v4() -> (r: u128)
    ensures
        is_random_uuid(r),
{
    uuid::Uuid::new_v4().as_u128()
}

/// Relies on uuid::Uuid::from_u128 and its `Display` impl: the lower-case
/// hyphenated rendering, as bytes.
#[verifier::external_body]
fn hyphenated(v: u128) -> (r: Vec<u8>)
    ensures
        r@ == canonical_text(v),
{
    uuid::Uuid::from_u128(v).to_string().into_bytes()
}

/// The random identity that labels one worker process for its whole run.
#[derive(Clone, Copy, Debug, PartialEq, Eq, Structural)]
pub struct WorkerIdentity {
    /// The identifier as one big-endian 128-bit number.
    pub value: u128,
}

impl WorkerIdentity {
    /// The identity's text as it travels in handshake and acknowledgement
    /// messages.
    pub open spec fn text_spec(self) -> Seq<u8> {
        canonical_text(self.value)
    }

    /// Draws a fresh random identity with a standard UUID layout.
    pub fn generate() -> (r: WorkerIdentity)
        ensures
            is_random_uuid(r.value),
    {
        WorkerIdentity { value: random_v4() }
    }

    /// An identity with a given value.
    pub fn from_value(value: u128) -> (r: WorkerIdentity)
        ensures
            r.value == value,
    {
        WorkerIdentity { value }
    }

    /// The canonical text of the identity.
    pub fn text(&self) -> (r: Vec<u8>)
        ensures
            r@ == self.text_spec(),
            r@.len() == 36,
    {
        hyphenated(self.value)
    }
}

} // verus!
