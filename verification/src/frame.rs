//! The notification frame encoder: five tagged items inside a one-byte
//! command and four-byte length envelope.
use vstd::prelude::*;

use crate::errors::Error;
use crate::identifier::{all_hex_chars, spec_hex_decode, DeviceToken};
use crate::wire::{be16_bytes, be32_bytes, spec_be16, spec_be32};

verus! {

/// The priority at which a notification is sent.
#[derive(Clone, Copy, Debug, PartialEq, Eq, Structural)]
pub enum Priority {
    /// Deliver immediately.
    High,
    /// Deliver at a time convenient for the device.
    Low,
}

/// The single priority byte of the frame: 10 for high, 5 for low.
pub open spec fn spec_priority_byte(p: Priority) -> u8 {
    match p {
        Priority::High => 10,
        Priority::Low => 5,
    }
}

/// Writes the priority as its single wire byte.
pub fn priority_byte(p: Priority) -> (r: u8)
    ensures
        r == spec_priority_byte(p),
{
    match p {
        Priority::High => 10,
        Priority::Low => 5,
    }
}

/// One tagged item: the tag byte, the two-byte big-endian content length,
/// then the content itself.
pub open spec fn spec_item(tag: u8, content: Seq<u8>) -> Seq<u8>
    recommends
        content.len() <= 0xffff,
{
    seq![tag] + spec_be16(content.len() as u16) + content
}

/// The item section of a frame: the five items in their fixed tag order.
/// Tag 1 carries the identifier, 2 the payload, 3 the notification id,
/// 4 the expiration and 5 the priority.
pub open spec fn spec_items(
    token: Seq<u8>,
    payload: Seq<u8>,
    id: u32,
    expiration: u32,
    prio: u8,
) -> Seq<u8> {
    spec_item(1, token) + spec_item(2, payload) + spec_item(3, spec_be32(id)) + spec_item(
        4,
        spec_be32(expiration),
    ) + spec_item(5, seq![prio])
}

/// A whole frame: the command byte 2, the four-byte big-endian length of
/// the item section, then the items.
pub open spec fn spec_frame(
    token: Seq<u8>,
    payload: Seq<u8>,
    id: u32,
    expiration: u32,
    prio: u8,
) -> Seq<u8> {
    let items = spec_items(token, payload, id, expiration, prio);
    seq![2u8] + spec_be32(items.len() as u32) + items
}

/// Appends one tagged item to a buffer.
fn push_item(buf: &mut Vec<u8>, tag: u8, content: &[u8])
    requires
        content@.len() <= 0xffff,
    ensures
        final(buf)@ == old(buf)@ + spec_item(tag, content@),
{
    buf.push(tag);
    let len_bytes = be16_bytes(content.len() as u16);
    buf.push(len_bytes[0]);
    buf.push(len_bytes[1]);
    let mut i: usize = 0;
    while i < content.len()
        invariant
            i <= content@.len(),
            content@.len() <= 0xffff,
            buf@ == old(buf)@ + seq![tag] + spec_be16(content@.len() as u16) + content@.take(
                i as int,
            ),
        decreases content@.len() - i,
    {
        buf.push(content[i]);
        proof {
            assert(content@.take(i + 1) =~= content@.take(i as int).push(content@[i as int]));
        }
        i = i + 1;
    }
    proof {
        assert(content@.take(content@.len() as int) =~= content@);
        assert(buf@ =~= old(buf)@ + spec_item(tag, content@));
    }
}

/// Encodes one notification frame from the identifier, the opaque payload
/// bytes, the notification id, the expiration and the priority.
///
/// A payload over 2048 bytes is rejected with `PayloadTooLarge` before any
/// byte is emitted; any smaller payload encodes, and the bytes are exactly
/// `spec_frame` of the inputs.
pub fn get_notification_bytes(
    token: &DeviceToken,
    payload: &[u8],
    identifier: u32,
    expiration: u32,
    priority: Priority,
) -> (r: Result<Vec<u8>, Error>)
    requires
        token.wf(),
    ensures
        match r {
            Ok(frame) => payload@.len() <= 2048 && frame@ == spec_frame(
                token@,
                payload@,
                identifier,
                expiration,
                spec_priority_byte(priority),
            ),
            Err(e) => e == Error::PayloadTooLarge && payload@.len() > 2048,
        },
{
    if payload.len() > 2048 {
        return Err(Error::PayloadTooLarge);
    }
    let prio = priority_byte(priority);
    let mut items: Vec<u8> = Vec::new();
    push_item(&mut items, 1, token.as_bytes().as_slice());
    push_item(&mut items, 2, payload);
    let id_bytes = be32_bytes(identifier);
    push_item(&mut items, 3, id_bytes.as_slice());
    let exp_bytes = be32_bytes(expiration);
    push_item(&mut items, 4, exp_bytes.as_slice());
    let mut prio_content: Vec<u8> = Vec::new();
    prio_content.push(prio);
    push_item(&mut items, 5, prio_content.as_slice());
    proof {
        assert(prio_content@ =~= seq![spec_priority_byte(priority)]);
        assert(items@ =~= spec_items(
            token@,
            payload@,
            identifier,
            expiration,
            spec_priority_byte(priority),
        ));
    }
    let mut frame: Vec<u8> = Vec::new();
    frame.push(2);
    let len_bytes = be32_bytes(items.len() as u32);
    frame.push(len_bytes[0]);
    frame.push(len_bytes[1]);
    frame.push(len_bytes[2]);
    frame.push(len_bytes[3]);
    let ghost items_view = items@;
    frame.append(&mut items);
    proof {
        assert(frame@ =~= seq![2u8] + spec_be32(items_view.len() as u32) + items_view);
    }
    Ok(frame)
}

/// Relies on `rand::random`: draws a 32-bit value from the thread-local
/// generator. Nothing is promised of the value; callers treat every
/// outcome alike.
#[verifier::external_body]
fn random_u32() -> u32 {
    rand::random::<u32>()
}

/// Relies on `std::time::SystemTime::now`: the clock reading, as whole
/// seconds since the Unix epoch. Nothing is promised of the value.
#[verifier::external_body]
fn unix_time_now() -> u64 {
    match std::time::SystemTime::now().duration_since(std::time::UNIX_EPOCH) {
        Ok(d) => d.as_secs(),
        Err(e) => e.duration().as_secs(),
    }
}

/// The default expiration for a notification: one day past a given clock
/// reading, truncated to the 32 bits of the wire field.
pub fn default_expiration(now: u64) -> (r: u32)
    ensures
        r == (now + 86400) % 0x100000000,
{
    let r = ((now % 0x100000000) + 86400) % 0x100000000;
    proof {
        vstd::arithmetic::div_mod::lemma_add_mod_noop(now as int, 86400, 0x100000000);
        vstd::arithmetic::div_mod::lemma_mod_mod(now as int + 86400, 0x100000000, 1);
        assert((now % 0x100000000 + 86400) % 0x100000000 == (now + 86400) % 0x100000000) by {
            vstd::arithmetic::div_mod::lemma_mod_twice(86400, 0x100000000);
        }
    }
    r as u32
}

/// Encodes a frame with a freshly drawn notification id, and the default
/// expiration of one day from now where none is given. The id is returned
/// beside the bytes so the caller can correlate a later error reply.
#[verifier::rlimit(30)]
pub fn prepare_notification(
    token: &DeviceToken,
    payload: &[u8],
    priority: Option<Priority>,
    expiration: Option<u32>,
) -> (r: Result<(Vec<u8>, u32), Error>)
    requires
        token.wf(),
    ensures
        match r {
            Ok(p) => payload@.len() <= 2048 && spec_prepared(
                token@,
                payload@,
                p.0@,
                p.1,
                priority,
                expiration,
            ),
            Err(e) => e == Error::PayloadTooLarge && payload@.len() > 2048,
        },
{
    let id = random_u32();
    let prio = match priority {
        Some(p) => p,
        None => Priority::High,
    };
    let exp = match expiration {
        Some(e) => e,
        None => default_expiration(unix_time_now()),
    };
    match get_notification_bytes(token, payload, id, exp, prio) {
        Ok(frame) => {
            proof {
                let pb = spec_priority_byte(spec_priority_or_default(priority));
                assert(prio == spec_priority_or_default(priority));
                assert(frame@ == spec_frame(token@, payload@, id, exp, pb));
                if expiration is None {
                    assert(exists|e: u32| frame@ == spec_frame(token@, payload@, id, e, pb));
                }
                assert(spec_prepared(token@, payload@, frame@, id, priority, expiration));
            }
            Ok((frame, id))
        },
        Err(e) => Err(e),
    }
}

/// The priority that applies when none is given: high.
pub open spec fn spec_priority_or_default(p: Option<Priority>) -> Priority {
    match p {
        Some(q) => q,
        None => Priority::High,
    }
}

/// What a prepared frame holds: `spec_frame` of the inputs with the
/// returned notification id, under the given expiration, or under some
/// expiration when the default applied.
pub open spec fn spec_prepared(
    token: Seq<u8>,
    payload: Seq<u8>,
    frame: Seq<u8>,
    id: u32,
    priority: Option<Priority>,
    expiration: Option<u32>,
) -> bool {
    match expiration {
        Some(e) => frame == spec_frame(
            token,
            payload,
            id,
            e,
            spec_priority_byte(spec_priority_or_default(priority)),
        ),
        None => exists|e: u32|
            frame == spec_frame(
                token,
                payload,
                id,
                e,
                spec_priority_byte(spec_priority_or_default(priority)),
            ),
    }
}

/// Prepares one delivery from the identifier's text form: parses the
/// identifier, then encodes the frame with a fresh notification id. A
/// malformed identifier is rejected with `InvalidIdentifier` before the
/// payload ceiling is looked at; an oversized payload with
/// `PayloadTooLarge`. The I/O shell writes the returned bytes over its
/// TLS connection and correlates an error reply by the returned id.
pub fn prepare_delivery(
    identifier_text: &str,
    payload: &[u8],
    priority: Option<Priority>,
    expiration: Option<u32>,
) -> (r: Result<(Vec<u8>, u32), Error>)
    ensures
        match r {
            Ok(p) => identifier_text@.len() == 64 && all_hex_chars(identifier_text@)
                && payload@.len() <= 2048 && spec_prepared(
                spec_hex_decode(identifier_text@),
                payload@,
                p.0@,
                p.1,
                priority,
                expiration,
            ),
            Err(e) => (e == Error::InvalidIdentifier && !(identifier_text@.len() == 64
                && all_hex_chars(identifier_text@))) || (e == Error::PayloadTooLarge
                && identifier_text@.len() == 64 && all_hex_chars(identifier_text@)
                && payload@.len() > 2048),
        },
{
    let token = match DeviceToken::from_str(identifier_text) {
        Ok(t) => t,
        Err(e) => {
            return Err(e);
        },
    };
    prepare_notification(&token, payload, priority, expiration)
}

/// The frame bytes are a function of the inputs alone: two frames encoded
/// from the same identifier, payload, notification id, expiration and
/// priority are byte-identical.
pub proof fn lemma_frame_deterministic(
    token: Seq<u8>,
    payload: Seq<u8>,
    id: u32,
    expiration: u32,
    prio: u8,
    f1: Seq<u8>,
    f2: Seq<u8>,
)
    requires
        f1 == spec_frame(token, payload, id, expiration, prio),
        f2 == spec_frame(token, payload, id, expiration, prio),
    ensures
        f1 == f2,
{
}

} // verus!
