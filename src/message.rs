use vstd::prelude::*;

use crate::address::{same_ip, Endpoint};
use crate::identity::WorkerIdentity;

verus! {

/// `PyDistrib INIT`, the text that opens every announcement.
pub open spec fn announce_prefix() -> Seq<u8> {
    seq![80u8, 121u8, 68u8, 105u8, 115u8, 116u8, 114u8, 105u8, 98u8, 32u8, 73u8, 78u8, 73u8, 84u8]
}

/// `PyDistrib HANDSHAKE|`, the text that opens every handshake.
pub open spec fn handshake_prefix() -> Seq<u8> {
    seq![
        80u8, 121u8, 68u8, 105u8, 115u8, 116u8, 114u8, 105u8, 98u8, 32u8,
        72u8, 65u8, 78u8, 68u8, 83u8, 72u8, 65u8, 75u8, 69u8, 124u8,
    ]
}

/// `PyDistrib HANDSHAKE ACK|`, the text that opens every acknowledgement.
pub open spec fn ack_prefix() -> Seq<u8> {
    seq![
        80u8, 121u8, 68u8, 105u8, 115u8, 116u8, 114u8, 105u8, 98u8, 32u8,
        72u8, 65u8, 78u8, 68u8, 83u8, 72u8, 65u8, 75u8, 69u8, 32u8, 65u8, 67u8, 75u8, 124u8,
    ]
}

/// The handshake a worker with identity text `id` sends.
pub open spec fn handshake_message(id: Seq<u8>) -> Seq<u8> {
    handshake_prefix() + id
}

/// The acknowledgement a server sends back to a worker with identity text `id`.
pub open spec fn ack_message(id: Seq<u8>) -> Seq<u8> {
    ack_prefix() + id
}

/// ASCII white space: space, tab, line feed, vertical tab, form feed, carriage return.
pub open spec fn is_space(b: u8) -> bool {
    b == 32 || (9 <= b && b <= 13)
}

/// Whether two bytes are the UTF-8 form of U+0085 or U+00A0.
pub open spec fn is_space2(a: u8, b: u8) -> bool {
    a == 0xC2 && (b == 0x85 || b == 0xA0)
}

/// Whether three bytes are the UTF-8 form of U+1680, U+2000 to U+200A,
/// U+2028, U+2029, U+202F, U+205F or U+3000.
pub open spec fn is_space3(a: u8, b: u8, c: u8) -> bool {
    ||| a == 0xE1 && b == 0x9A && c == 0x80
    ||| a == 0xE2 && b == 0x80 && ((0x80 <= c && c <= 0x8A) || c == 0xA8 || c == 0xA9 || c == 0xAF)
    ||| a == 0xE2 && b == 0x81 && c == 0x9F
    ||| a == 0xE3 && b == 0x80 && c == 0x80
}

/// The length in bytes of the white-space character that ends `s`, or 0.
/// White space is what `char::is_whitespace` accepts: the ASCII bytes of
/// `is_space` and the UTF-8 forms of `is_space2` and `is_space3`. Each of
/// these forms opens with a byte that UTF-8 never uses inside a character,
/// so the bytes decode to that character wherever they stand.
pub open spec fn trailing_space_len(s: Seq<u8>) -> int {
    let n = s.len() as int;
    if n >= 1 && is_space(s[n - 1]) {
        1
    } else if n >= 2 && is_space2(s[n - 2], s[n - 1]) {
        2
    } else if n >= 3 && is_space3(s[n - 3], s[n - 2], s[n - 1]) {
        3
    } else {
        0
    }
}

/// The length in bytes of the white-space character that opens `s`, or 0.
pub open spec fn leading_space_len(s: Seq<u8>) -> int {
    let n = s.len() as int;
    if n >= 1 && is_space(s[0]) {
        1
    } else if n >= 2 && is_space2(s[0], s[1]) {
        2
    } else if n >= 3 && is_space3(s[0], s[1], s[2]) {
        3
    } else {
        0
    }
}

/// `s` without its trailing white space, ASCII or not (see
/// `trailing_space_len`).
pub open spec fn trim_end(s: Seq<u8>) -> Seq<u8>
    decreases s.len(),
{
    if trailing_space_len(s) > 0 {
        trim_end(s.subrange(0, s.len() - trailing_space_len(s)))
    } else {
        s
    }
}

/// `s` without its leading white space, ASCII or not.
pub open spec fn trim_start(s: Seq<u8>) -> Seq<u8>
    decreases s.len(),
{
    if leading_space_len(s) > 0 {
        trim_start(s.subrange(leading_space_len(s), s.len() as int))
    } else {
        s
    }
}

/// An ASCII decimal digit.
pub open spec fn is_digit(b: u8) -> bool {
    48 <= b && b <= 57
}

/// Whether every byte of `s` is a decimal digit.
pub open spec fn all_digits(s: Seq<u8>) -> bool {
    forall|i: int| 0 <= i < s.len() ==> is_digit(#[trigger] s[i])
}

/// The number that the decimal digits `s` write.
pub open spec fn decimal_value(s: Seq<u8>) -> nat
    decreases s.len(),
{
    if s.len() == 0 {
        0
    } else {
        decimal_value(s.drop_last()) * 10 + (s.last() - 48) as nat
    }
}

/// The port text of an announcement: what follows the prefix and its
/// separator, with surrounding white space, ASCII or not, removed.
pub open spec fn port_field(s: Seq<u8>) -> Seq<u8> {
    trim_start(trim_end(s.subrange(15, s.len() as int)))
}

/// Whether `s` opens with the announcement prefix and a space.
pub open spec fn has_announce_head(s: Seq<u8>) -> bool {
    s.len() >= 15 && s.subrange(0, 14) == announce_prefix() && s[14] == 32u8
}

/// The port an announcement advertises, or `None` for a malformed one.
pub open spec fn announced_port(s: Seq<u8>) -> Option<u16> {
    if has_announce_head(s) && port_field(s).len() > 0 && all_digits(port_field(s))
        && decimal_value(port_field(s)) <= 65535 {
        Some(decimal_value(port_field(s)) as u16)
    } else {
        None
    }
}

/// Whether a reply with text `payload` from `source` acknowledges the
/// handshake sent to `target` by the worker with identity text `id`: the
/// reply, without its trailing white space (ASCII or not, as
/// `char::is_whitespace` has it), is exactly the acknowledgement. The
/// source port is not compared: a server may answer from another port.
pub open spec fn ack_accepted(payload: Seq<u8>, source: Endpoint, target: Endpoint, id: Seq<u8>) -> bool {
    trim_end(payload) == ack_message(id) && source.ip == target.ip
}

proof fn lemma_decimal_prefix_le(s: Seq<u8>, k: int)
    requires
        all_digits(s),
        0 <= k <= s.len(),
    ensures
        decimal_value(s.subrange(0, k)) <= decimal_value(s),
    decreases s.len(),
{
    if k == s.len() {
        assert(s.subrange(0, k) =~= s);
    } else {
        let t = s.drop_last();
        assert forall|i: int| 0 <= i < t.len() implies is_digit(#[trigger] t[i]) by {
            assert(t[i] == s[i]);
        }
        lemma_decimal_prefix_le(t, k);
        assert(t.subrange(0, k) =~= s.subrange(0, k));
    }
}

fn announce_prefix_bytes() -> (r: Vec<u8>)
    ensures
        r@ == announce_prefix(),
{
    let r = vec![80u8, 121u8, 68u8, 105u8, 115u8, 116u8, 114u8, 105u8, 98u8, 32u8, 73u8, 78u8, 73u8, 84u8];
    assert(r@ =~= announce_prefix());
    r
}

fn handshake_prefix_bytes() -> (r: Vec<u8>)
    ensures
        r@ == handshake_prefix(),
{
    let r = vec![
        80u8, 121u8, 68u8, 105u8, 115u8, 116u8, 114u8, 105u8, 98u8, 32u8,
        72u8, 65u8, 78u8, 68u8, 83u8, 72u8, 65u8, 75u8, 69u8, 124u8,
    ];
    assert(r@ =~= handshake_prefix());
    r
}

fn ack_prefix_bytes() -> (r: Vec<u8>)
    ensures
        r@ == ack_prefix(),
{
    let r = vec![
        80u8, 121u8, 68u8, 105u8, 115u8, 116u8, 114u8, 105u8, 98u8, 32u8,
        72u8, 65u8, 78u8, 68u8, 83u8, 72u8, 65u8, 75u8, 69u8, 32u8, 65u8, 67u8, 75u8, 124u8,
    ];
    assert(r@ =~= ack_prefix());
    r
}

fn space(b: u8) -> (r: bool)
    ensures
        r == is_space(b),
{
    b == 32 || (9 <= b && b <= 13)
}

fn space3(a: u8, b: u8, c: u8) -> (r: bool)
    ensures
        r == is_space3(a, b, c),
{
    (a == 0xE1 && b == 0x9A && c == 0x80) || (a == 0xE2 && b == 0x80 && ((0x80 <= c && c <= 0x8A)
        || c == 0xA8 || c == 0xA9 || c == 0xAF)) || (a == 0xE2 && b == 0x81 && c == 0x9F) || (a
        == 0xE3 && b == 0x80 && c == 0x80)
}

/// The length of the white-space character that ends `data[lo..hi]`, or 0.
fn trailing_space(data: &[u8], lo: usize, hi: usize) -> (r: usize)
    requires
        lo <= hi <= data@.len(),
    ensures
        r as int == trailing_space_len(data@.subrange(lo as int, hi as int)),
{
    let n = hi - lo;
    if n >= 1 && space(data[hi - 1]) {
        1
    } else if n >= 2 && data[hi - 2] == 0xC2 && (data[hi - 1] == 0x85 || data[hi - 1] == 0xA0) {
        2
    } else if n >= 3 && space3(data[hi - 3], data[hi - 2], data[hi - 1]) {
        3
    } else {
        0
    }
}

/// The length of the white-space character that opens `data[lo..hi]`, or 0.
fn leading_space(data: &[u8], lo: usize, hi: usize) -> (r: usize)
    requires
        lo <= hi <= data@.len(),
    ensures
        r as int == leading_space_len(data@.subrange(lo as int, hi as int)),
{
    let n = hi - lo;
    if n >= 1 && space(data[lo]) {
        1
    } else if n >= 2 && data[lo] == 0xC2 && (data[lo + 1] == 0x85 || data[lo + 1] == 0xA0) {
        2
    } else if n >= 3 && space3(data[lo], data[lo + 1], data[lo + 2]) {
        3
    } else {
        0
    }
}

/// `prefix` followed by `rest`.
fn concat(prefix: Vec<u8>, rest: &Vec<u8>) -> (r: Vec<u8>)
    ensures
        r@ == prefix@ + rest@,
{
    let mut r = prefix;
    let mut i: usize = 0;
    while i < rest.len()
        invariant
            0 <= i <= rest@.len(),
            r@ == prefix@ + rest@.subrange(0, i as int),
        decreases rest@.len() - i,
    {
        r.push(rest[i]);
        i = i + 1;
        assert(r@ =~= prefix@ + rest@.subrange(0, i as int));
    }
    assert(rest@.subrange(0, rest@.len() as int) =~= rest@);
    r
}

/// Whether `data[lo..hi]` equals `expected`.
fn range_equals(data: &[u8], lo: usize, hi: usize, expected: &Vec<u8>) -> (r: bool)
    requires
        lo <= hi <= data@.len(),
    ensures
        r == (data@.subrange(lo as int, hi as int) == expected@),
{
    if hi - lo != expected.len() {
        return false;
    }
    let mut i: usize = 0;
    while i < expected.len()
        invariant
            hi - lo == expected@.len(),
            lo <= hi <= data@.len(),
            0 <= i <= expected@.len(),
            forall|j: int| 0 <= j < i ==> data@[lo + j] == expected@[j],
        decreases expected@.len() - i,
    {
        if data[lo + i] != expected[i] {
            assert(data@.subrange(lo as int, hi as int)[i as int] != expected@[i as int]);
            return false;
        }
        i = i + 1;
    }
    assert(data@.subrange(lo as int, hi as int) =~= expected@);
    true
}

/// The end of `data[lo..]` once trailing white space is removed.
fn trimmed_end(data: &[u8], lo: usize) -> (r: usize)
    requires
        lo <= data@.len(),
    ensures
        lo <= r <= data@.len(),
        trim_end(data@.subrange(lo as int, data@.len() as int)) == data@.subrange(lo as int, r as int),
{
    let mut end = data.len();
    loop
        invariant
            lo <= end <= data@.len(),
            trim_end(data@.subrange(lo as int, data@.len() as int)) == trim_end(
                data@.subrange(lo as int, end as int),
            ),
        decreases end,
    {
        let k = trailing_space(data, lo, end);
        if k == 0 {
            return end;
        }
        assert(data@.subrange(lo as int, end as int).subrange(0, end - lo - k) =~= data@.subrange(
            lo as int,
            end - k,
        ));
        end = end - k;
    }
}

/// The start of `data[lo..hi]` once leading white space is removed.
fn trimmed_start(data: &[u8], lo: usize, hi: usize) -> (r: usize)
    requires
        lo <= hi <= data@.len(),
    ensures
        lo <= r <= hi,
        trim_start(data@.subrange(lo as int, hi as int)) == data@.subrange(r as int, hi as int),
{
    let mut start = lo;
    loop
        invariant
            lo <= start <= hi,
            hi <= data@.len(),
            trim_start(data@.subrange(lo as int, hi as int)) == trim_start(
                data@.subrange(start as int, hi as int),
            ),
        decreases hi - start,
    {
        let k = leading_space(data, start, hi);
        if k == 0 {
            return start;
        }
        assert(data@.subrange(start as int, hi as int).subrange(k as int, hi - start) =~= data@.subrange(
            start + k,
            hi as int,
        ));
        start = start + k;
    }
}

/// The port that an announcement advertises, or `None` where the payload
/// does not have the announcement's shape: the prefix `PyDistrib INIT`, a
/// space, and a decimal port number up to 65535, possibly surrounded by white
/// space, ASCII or not.
pub fn parse_announcement(payload: &[u8]) -> (r: Option<u16>)
    ensures
        r == announced_port(payload@),
{
    let s = Ghost(payload@);
    if payload.len() < 15 {
        return None;
    }
    let prefix = announce_prefix_bytes();
    if !range_equals(payload, 0, 14, &prefix) || payload[14] != 32u8 {
        return None;
    }
    let end = trimmed_end(payload, 15);
    assert(trim_end(s@.subrange(15, s@.len() as int)) == s@.subrange(15, end as int));
    let start = trimmed_start(payload, 15, end);
    let f = Ghost(s@.subrange(start as int, end as int));
    assert(port_field(s@) == f@);
    if start == end {
        return None;
    }
    let mut value: u32 = 0;
    let mut i: usize = start;
    while i < end
        invariant
            start <= i <= end <= payload@.len(),
            f@ == s@.subrange(start as int, end as int),
            s@ == payload@,
            has_announce_head(payload@),
            port_field(payload@) == f@,
            all_digits(s@.subrange(start as int, i as int)),
            value as nat == decimal_value(s@.subrange(start as int, i as int)),
            value <= 65535,
        decreases end - i,
    {
        let b = payload[i];
        if b < 48 || b > 57 {
            assert(f@[i - start] == b);
            assert(!is_digit(f@[i - start]));
            return None;
        }
        value = value * 10 + (b - 48) as u32;
        let next = Ghost(s@.subrange(start as int, i + 1));
        assert(next@.drop_last() =~= s@.subrange(start as int, i as int));
        i = i + 1;
        assert forall|j: int| 0 <= j < next@.len() implies is_digit(#[trigger] next@[j]) by {
            if j < next@.len() - 1 {
                assert(next@[j] == s@.subrange(start as int, i - 1)[j]);
            }
        }
        if value > 65535 {
            proof {
                if all_digits(f@) {
                    lemma_decimal_prefix_le(f@, i - start);
                    assert(f@.subrange(0, i - start) =~= next@);
                }
            }
            return None;
        }
    }
    assert(s@.subrange(start as int, i as int) =~= f@);
    Some(value as u16)
}

/// The handshake that the worker with this identity sends.
pub fn handshake_payload(identity: &WorkerIdentity) -> (r: Vec<u8>)
    ensures
        r@ == handshake_message(identity.text_spec()),
{
    let id = identity.text();
    concat(handshake_prefix_bytes(), &id)
}

/// The acknowledgement that the worker with this identity expects.
pub fn ack_payload(identity: &WorkerIdentity) -> (r: Vec<u8>)
    ensures
        r@ == ack_message(identity.text_spec()),
{
    let id = identity.text();
    concat(ack_prefix_bytes(), &id)
}

/// Why a handshake did not succeed.
#[derive(Clone, Copy, Debug, PartialEq, Eq, Structural)]
pub enum HandshakeError {
    /// The reply was not the acknowledgement of this worker's identity.
    Mismatch,
    /// The acknowledgement came from another host than the one addressed.
    WrongSource,
    /// No reply came in time.
    Timeout,
}

/// Checks a reply to the handshake sent to `target`: it must read, after
/// trailing white space (ASCII or not) is removed, exactly as the acknowledgement of this
/// identity, and come from the IP of `target` (from any port).
pub fn check_ack(payload: &[u8], source: Endpoint, target: Endpoint, identity: &WorkerIdentity) -> (r:
    Result<(), HandshakeError>)
    ensures
        r is Ok <==> ack_accepted(payload@, source, target, identity.text_spec()),
        r == Err::<(), HandshakeError>(HandshakeError::Mismatch) <==> trim_end(payload@)
            != ack_message(identity.text_spec()),
        r == Err::<(), HandshakeError>(HandshakeError::WrongSource) <==> (trim_end(payload@)
            == ack_message(identity.text_spec()) && source.ip != target.ip),
{
    let expected = ack_payload(identity);
    let end = trimmed_end(payload, 0);
    assert(payload@.subrange(0, payload@.len() as int) =~= payload@);
    if !range_equals(payload, 0, end, &expected) {
        Err(HandshakeError::Mismatch)
    } else if !same_ip(source.ip, target.ip) {
        Err(HandshakeError::WrongSource)
    } else {
        Ok(())
    }
}

} // verus!
