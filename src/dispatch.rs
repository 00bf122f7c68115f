//! The operations as a host calls them: argument buffers in, one result
//! buffer out. Numbers travel as decimal text, payloads as raw bytes.
//!
//! An unknown handle is answered with the operation's reserved reply. A
//! missing or malformed argument, and a device failure where the operation
//! has no reply for it, end the call with an `OpError`.
use crate::codec::decimal_text;
use crate::codec::decimal_u32_value;
use crate::codec::format_u32;
use crate::codec::is_decimal_u32;
use crate::codec::parse_u32;
use crate::device::ClearTarget;
use crate::registry::is_lowest_free;
use crate::registry::LineState;
use crate::registry::fresh_record;
use crate::registry::with_baud_rate;
use crate::registry::with_dtr;
use crate::registry::with_received;
use crate::registry::with_rts;
use crate::registry::with_sent;
use crate::registry::PortRecord;
use crate::registry::PortRegistry;
use crate::registry::SerialError;
use vstd::prelude::*;

verus! {

/// The byte `0`.
pub const REPLY_ZERO: u8 = 48;

/// The byte `1`.
pub const REPLY_ONE: u8 = 49;

/// The byte `n`: no number, or no such handle.
pub const REPLY_NONE: u8 = 110;

/// Why a call failed as a whole.
#[derive(Clone, Copy, Debug, PartialEq, Eq, Structural)]
pub enum OpError {
    /// An argument buffer the operation needs was not passed.
    MissingArgument,
    /// An argument buffer does not hold what the operation expects.
    MalformedArgument,
    /// The registry or the device failed the operation.
    Failed(SerialError),
}

/// What argument `i` decodes to as a `u32` in decimal text.
pub open spec fn decoded_u32(args: Seq<Vec<u8>>, i: int) -> Result<u32, OpError> {
    if i >= args.len() {
        Err(OpError::MissingArgument)
    } else if !is_decimal_u32(args[i]@) {
        Err(OpError::MalformedArgument)
    } else {
        Ok(decimal_u32_value(args[i]@) as u32)
    }
}

/// A result buffer seen as its bytes.
pub open spec fn reply_bytes(r: Result<Vec<u8>, OpError>) -> Result<Seq<u8>, OpError> {
    match r {
        Ok(v) => Ok(v@),
        Err(e) => Err(e),
    }
}

pub open spec fn is_device_failure(r: Result<Vec<u8>, OpError>) -> bool {
    r matches Err(OpError::Failed(SerialError::Device(_)))
}

/// The reply of an acknowledged operation on handle `h`: `unknown` when `h`
/// is not open; else `done`, unless the device failed.
pub open spec fn acked(
    open: Map<u32, PortRecord>,
    h: u32,
    r: Result<Vec<u8>, OpError>,
    done: u8,
    unknown: u8,
) -> bool {
    if open.contains_key(h) {
        reply_bytes(r) == Ok::<Seq<u8>, OpError>(seq![done]) || is_device_failure(r)
    } else {
        reply_bytes(r) == Ok::<Seq<u8>, OpError>(seq![unknown])
    }
}

/// Every byte is ASCII.
pub open spec fn is_ascii(b: Seq<u8>) -> bool {
    forall|i: int| 0 <= i < b.len() ==> b[i] < 128
}

/// The reply to reading an input line on handle `h`: `n` when `h` is not
/// open; else `0` or `1`, unless the device failed.
pub open spec fn line_answered(open: Map<u32, PortRecord>, h: u32, r: Result<Vec<u8>, OpError>) -> bool {
    if open.contains_key(h) {
        reply_bytes(r) == Ok::<Seq<u8>, OpError>(seq![REPLY_ZERO]) || reply_bytes(r) == Ok::<
            Seq<u8>,
            OpError,
        >(seq![REPLY_ONE]) || is_device_failure(r)
    } else {
        reply_bytes(r) == Ok::<Seq<u8>, OpError>(seq![REPLY_NONE])
    }
}

/// The reply to reading `n` bytes on handle `h`, which changed the table
/// from `before` to `after`. For an open handle: exactly `n` bytes, which
/// join the port's received bytes, or a failure of the device or of the
/// stream, with whatever bytes it took recorded; a read of no bytes
/// succeeds. For an unknown handle: that failure, and no change.
pub open spec fn read_answered(
    before: Map<u32, PortRecord>,
    after: Map<u32, PortRecord>,
    h: u32,
    n: nat,
    r: Result<Vec<u8>, OpError>,
) -> bool {
    if before.contains_key(h) {
        &&& match r {
            Ok(v) => v@.len() == n && after == before.insert(
                h,
                with_received(before[h], before[h].received + v@),
            ),
            Err(e) => (e == OpError::Failed(SerialError::EndOfStream) || is_device_failure(r))
                && after == before.insert(h, with_received(before[h], after[h].received)),
        }
        &&& n == 0 ==> r is Ok
    } else {
        r == Err::<Vec<u8>, OpError>(OpError::Failed(SerialError::UnknownHandle)) && after == before
    }
}

/// The reply to driving an output line on handle `h`, which changed the
/// table from `before` to `after`: `1` when the port took the level, and
/// then the port's record is `written`; else `0`, and no change.
pub open spec fn level_answered(
    before: Map<u32, PortRecord>,
    after: Map<u32, PortRecord>,
    h: u32,
    r: Result<Vec<u8>, OpError>,
    written: PortRecord,
) -> bool {
    &&& reply_bytes(r) == Ok::<Seq<u8>, OpError>(seq![REPLY_ONE]) || reply_bytes(r) == Ok::<
        Seq<u8>,
        OpError,
    >(seq![REPLY_ZERO])
    &&& reply_bytes(r) == Ok::<Seq<u8>, OpError>(seq![REPLY_ONE]) ==> before.contains_key(h)
        && after == before.insert(h, written)
    &&& reply_bytes(r) != Ok::<Seq<u8>, OpError>(seq![REPLY_ONE]) ==> after == before
}

/// `after` is `before` with a prefix of `data` joined to the bytes sent.
pub open spec fn sent_prefix(before: PortRecord, after: PortRecord, data: Seq<u8>) -> bool {
    let k = after.sent.len() - before.sent.len();
    &&& 0 <= k <= data.len()
    &&& after == with_sent(before, before.sent + data.subrange(0, k))
}

/// The reply to a byte count on handle `h`: decimal text or `n`, and `n`
/// whenever `h` is not open.
pub open spec fn count_answered(open: Map<u32, PortRecord>, h: u32, r: Result<Vec<u8>, OpError>) -> bool {
    &&& r matches Ok(v) && (v@ == seq![REPLY_NONE] || is_decimal_u32(v@))
    &&& !open.contains_key(h) ==> reply_bytes(r) == Ok::<Seq<u8>, OpError>(seq![REPLY_NONE])
}

/// The selector of `clear`: 0 for received data, 1 for data not yet sent,
/// anything else for both.
pub open spec fn spec_clear_target(n: u32) -> ClearTarget {
    if n == 0 {
        ClearTarget::Input
    } else if n == 1 {
        ClearTarget::Output
    } else {
        ClearTarget::All
    }
}

/// What a byte string decodes to as UTF-8 text; `None` where it is not
/// valid UTF-8.
pub uninterp spec fn utf8_decoded(b: Seq<u8>) -> Option<Seq<char>>;

/// Relies on std::str::from_utf8: the text the bytes encode, or `None` where
/// they are not valid UTF-8; ASCII bytes decode to one character each.
#[verifier::external_body]
fn utf8_text(b: &[u8]) -> (r: Option<String>)
    ensures
        r is Some ==> utf8_decoded(b@) == Some(r->Some_0@),
        r is None ==> utf8_decoded(b@) is None,
        is_ascii(b@) ==> r is Some && r->Some_0@ == b@.map(|i: int, c: u8| c as char),
{
    std::str::from_utf8(b).ok().map(|s| s.to_string())
}

proof fn lemma_replies_differ()
    ensures
        seq![REPLY_ZERO] != seq![REPLY_ONE],
        seq![REPLY_ZERO] != seq![REPLY_NONE],
        seq![REPLY_ONE] != seq![REPLY_NONE],
{
    assert(seq![REPLY_ZERO][0] != seq![REPLY_ONE][0]);
    assert(seq![REPLY_ZERO][0] != seq![REPLY_NONE][0]);
    assert(seq![REPLY_ONE][0] != seq![REPLY_NONE][0]);
}

/// A reply of one byte.
fn single(b: u8) -> (r: Vec<u8>)
    ensures
        r@ == seq![b],
{
    let mut v: Vec<u8> = Vec::new();
    v.push(b);
    assert(v@ =~= seq![b]);
    v
}

/// Decodes argument `i` as a `u32` in decimal text.
pub fn decode_u32(args: &Vec<Vec<u8>>, i: usize) -> (r: Result<u32, OpError>)
    ensures
        r == decoded_u32(args@, i as int),
{
    if i >= args.len() {
        return Err(OpError::MissingArgument);
    }
    match parse_u32(args[i].as_slice()) {
        Some(v) => Ok(v),
        None => Err(OpError::MalformedArgument),
    }
}

/// The buffer selector that `clear` decodes from its number.
pub fn clear_target_of(n: u32) -> (r: ClearTarget)
    ensures
        r == spec_clear_target(n),
{
    if n == 0 {
        ClearTarget::Input
    } else if n == 1 {
        ClearTarget::Output
    } else {
        ClearTarget::All
    }
}

/// The reply to an acknowledged operation: `done` on success, `unknown` for
/// an unknown handle; any other failure ends the call.
pub fn ack_reply(t: Result<(), SerialError>, done: u8, unknown: u8) -> (r: Result<Vec<u8>, OpError>)
    ensures
        t is Ok ==> reply_bytes(r) == Ok::<Seq<u8>, OpError>(seq![done]),
        t matches Err(e) ==> (if e == SerialError::UnknownHandle {
            reply_bytes(r) == Ok::<Seq<u8>, OpError>(seq![unknown])
        } else {
            r == Err::<Vec<u8>, OpError>(OpError::Failed(e))
        }),
{
    match t {
        Ok(()) => Ok(single(done)),
        Err(SerialError::UnknownHandle) => Ok(single(unknown)),
        Err(e) => Err(OpError::Failed(e)),
    }
}

/// The reply to driving an output line: `1` on success, `0` on any failure.
pub fn level_reply(t: Result<(), SerialError>) -> (r: Vec<u8>)
    ensures
        r@ == (if t is Ok { seq![REPLY_ONE] } else { seq![REPLY_ZERO] }),
{
    match t {
        Ok(()) => single(REPLY_ONE),
        Err(_) => single(REPLY_ZERO),
    }
}

/// The reply to a byte count: its decimal text, or `n` on any failure.
pub fn count_reply(t: Result<u32, SerialError>) -> (r: Vec<u8>)
    ensures
        t matches Ok(n) ==> r@ == decimal_text(n as nat),
        t is Err ==> r@ == seq![REPLY_NONE],
{
    match t {
        Ok(n) => format_u32(n),
        Err(_) => single(REPLY_NONE),
    }
}

/// The reply to reading an input line: `0` asserted, `1` not asserted, `n`
/// for an unknown handle; a device failure ends the call.
pub fn line_reply(t: Result<LineState, SerialError>) -> (r: Result<Vec<u8>, OpError>)
    ensures
        t matches Ok(s) ==> reply_bytes(r) == Ok::<Seq<u8>, OpError>(
            if s == LineState::Asserted {
                seq![REPLY_ZERO]
            } else {
                seq![REPLY_ONE]
            },
        ),
        t matches Err(e) ==> (if e == SerialError::UnknownHandle {
            reply_bytes(r) == Ok::<Seq<u8>, OpError>(seq![REPLY_NONE])
        } else {
            r == Err::<Vec<u8>, OpError>(OpError::Failed(e))
        }),
{
    match t {
        Ok(LineState::Asserted) => Ok(single(REPLY_ZERO)),
        Ok(LineState::NotAsserted) => Ok(single(REPLY_ONE)),
        Err(SerialError::UnknownHandle) => Ok(single(REPLY_NONE)),
        Err(e) => Err(OpError::Failed(e)),
    }
}

/// The reply to a read: the bytes read; any failure, an unknown handle
/// included, ends the call, so no failure looks like data.
pub fn data_reply(t: Result<Vec<u8>, SerialError>) -> (r: Result<Vec<u8>, OpError>)
    ensures
        t matches Ok(d) ==> r == Ok::<Vec<u8>, OpError>(d),
        t matches Err(e) ==> r == Err::<Vec<u8>, OpError>(OpError::Failed(e)),
{
    match t {
        Ok(d) => Ok(d),
        Err(e) => Err(OpError::Failed(e)),
    }
}


/// Closes the port whose handle is argument 0: `0` once closed, `1` for an
/// unknown handle.
pub fn op_close_serial(
    ports: &mut PortRegistry,
    args: &Vec<Vec<u8>>,
) -> (r: Result<Vec<u8>, OpError>)
    ensures
        decoded_u32(args@, 0) matches Err(e) ==> r == Err::<Vec<u8>, OpError>(e) && final(ports)@
            == old(ports)@,
        decoded_u32(args@, 0) matches Ok(h) ==> final(ports)@ == old(ports)@.remove(h),
        decoded_u32(args@, 0) matches Ok(h) ==> reply_bytes(r) == Ok::<Seq<u8>, OpError>(
            if old(ports)@.contains_key(h) {
                seq![REPLY_ZERO]
            } else {
                seq![REPLY_ONE]
            },
        ),
{
    let h = match decode_u32(args, 0) {
        Ok(h) => h,
        Err(e) => {
            return Err(e);
        },
    };
    proof {
        lemma_replies_differ();
    }
    ack_reply(ports.close(h), REPLY_ZERO, REPLY_ONE)
}

/// Starts a break on the port whose handle is argument 0: `0` once done, `1`
/// for an unknown handle.
pub fn op_serial_set_break(
    ports: &PortRegistry,
    args: &Vec<Vec<u8>>,
) -> (r: Result<Vec<u8>, OpError>)
    ensures
        decoded_u32(args@, 0) matches Err(e) ==> r == Err::<Vec<u8>, OpError>(e),
        decoded_u32(args@, 0) matches Ok(h) ==> acked(ports@, h, r, REPLY_ZERO, REPLY_ONE),
{
    let h = match decode_u32(args, 0) {
        Ok(h) => h,
        Err(e) => {
            return Err(e);
        },
    };
    ack_reply(ports.set_break(h), REPLY_ZERO, REPLY_ONE)
}

/// Ends a break on the port whose handle is argument 0: `0` once done, `1`
/// for an unknown handle.
pub fn op_serial_clear_break(
    ports: &PortRegistry,
    args: &Vec<Vec<u8>>,
) -> (r: Result<Vec<u8>, OpError>)
    ensures
        decoded_u32(args@, 0) matches Err(e) ==> r == Err::<Vec<u8>, OpError>(e),
        decoded_u32(args@, 0) matches Ok(h) ==> acked(ports@, h, r, REPLY_ZERO, REPLY_ONE),
{
    let h = match decode_u32(args, 0) {
        Ok(h) => h,
        Err(e) => {
            return Err(e);
        },
    };
    ack_reply(ports.clear_break(h), REPLY_ZERO, REPLY_ONE)
}

/// Discards buffered data on the port whose handle is argument 0, as the
/// selector in argument 1 names: `1` once done, `0` for an unknown handle.
pub fn op_serial_clear(ports: &PortRegistry, args: &Vec<Vec<u8>>) -> (r: Result<Vec<u8>, OpError>)
    ensures
        decoded_u32(args@, 0) matches Err(e) ==> r == Err::<Vec<u8>, OpError>(e),
        decoded_u32(args@, 0) is Ok ==>
            (decoded_u32(args@, 1) matches Err(e) ==> r == Err::<Vec<u8>, OpError>(e)),
        decoded_u32(args@, 0) matches Ok(h) ==>
            (decoded_u32(args@, 1) is Ok ==> acked(ports@, h, r, REPLY_ONE, REPLY_ZERO)),
{
    let h = match decode_u32(args, 0) {
        Ok(h) => h,
        Err(e) => {
            return Err(e);
        },
    };
    let n = match decode_u32(args, 1) {
        Ok(n) => n,
        Err(e) => {
            return Err(e);
        },
    };
    ack_reply(ports.clear(h, clear_target_of(n)), REPLY_ONE, REPLY_ZERO)
}

/// Sets the port whose handle is argument 0 to the baud rate in argument 1:
/// `0` once set, `1` for an unknown handle.
pub fn op_serial_set_baud_rate(
    ports: &mut PortRegistry,
    args: &Vec<Vec<u8>>,
) -> (r: Result<Vec<u8>, OpError>)
    ensures
        decoded_u32(args@, 0) matches Err(e) ==> r == Err::<Vec<u8>, OpError>(e),
        decoded_u32(args@, 0) is Ok ==> (decoded_u32(args@, 1) matches Err(e) ==> r == Err::<
            Vec<u8>,
            OpError,
        >(e)),
        decoded_u32(args@, 0) matches Ok(h) ==> (decoded_u32(args@, 1) matches Ok(b) ==> (acked(
            old(ports)@,
            h,
            r,
            REPLY_ZERO,
            REPLY_ONE,
        ) && (if old(ports)@.contains_key(h) && reply_bytes(r) == Ok::<Seq<u8>, OpError>(
            seq![REPLY_ZERO],
        ) {
            final(ports)@ == old(ports)@.insert(h, with_baud_rate(old(ports)@[h], b))
        } else {
            final(ports)@ == old(ports)@
        }))),
        decoded_u32(args@, 0) is Err || decoded_u32(args@, 1) is Err ==> final(ports)@ == old(
            ports,
        )@,
{
    let h = match decode_u32(args, 0) {
        Ok(h) => h,
        Err(e) => {
            return Err(e);
        },
    };
    let n = match decode_u32(args, 1) {
        Ok(n) => n,
        Err(e) => {
            return Err(e);
        },
    };
    proof {
        lemma_replies_differ();
    }
    ack_reply(ports.set_baud_rate(h, n), REPLY_ZERO, REPLY_ONE)
}

/// Opens the device whose path is argument 0 at the baud rate in argument 1,
/// registers it under the least free handle and answers that handle in
/// decimal text.
pub fn op_new_serial(ports: &mut PortRegistry, args: &Vec<Vec<u8>>) -> (r: Result<Vec<u8>, OpError>)
    ensures
        args@.len() < 2 ==> r == Err::<Vec<u8>, OpError>(OpError::MissingArgument),
        args@.len() >= 2 && (!is_decimal_u32(args@[1]@) || utf8_decoded(args@[0]@) is None) ==> r
            == Err::<Vec<u8>, OpError>(OpError::MalformedArgument),
        args@.len() >= 2 && is_decimal_u32(args@[1]@) && utf8_decoded(args@[0]@) is Some ==> (r matches Err(
            e,
        ) ==> e is Failed),
        r == Err::<Vec<u8>, OpError>(OpError::Failed(SerialError::RegistryFull)) <==> (args@.len()
            >= 2 && is_decimal_u32(args@[1]@) && utf8_decoded(args@[0]@) is Some && old(ports)@.len()
            >= u32::MAX),
        r matches Ok(v) ==> args@.len() >= 2 && utf8_decoded(args@[0]@) is Some,
        r matches Ok(v) ==> exists|h: u32|
            #[trigger] is_lowest_free(old(ports)@.dom(), h) && v@ == decimal_text(h as nat)
                && final(ports)@ == old(ports)@.insert(
                h,
                fresh_record(
                    utf8_decoded(args@[0]@)->Some_0,
                    decimal_u32_value(args@[1]@) as u32,
                ),
            ),
        r is Err ==> final(ports)@ == old(ports)@,
        r matches Err(OpError::Failed(e)) ==> (e is Device || e is RegistryFull),
{
    if args.len() < 2 {
        return Err(OpError::MissingArgument);
    }
    let path = utf8_text(args[0].as_slice());
    let baud_rate = match decode_u32(args, 1) {
        Ok(n) => n,
        Err(e) => {
            return Err(e);
        },
    };
    let path = match path {
        Some(p) => p,
        None => {
            return Err(OpError::MalformedArgument);
        },
    };
    match ports.open(path.as_str(), baud_rate) {
        Ok(h) => {
            let v = format_u32(h);
            assert(is_lowest_free(old(ports)@.dom(), h));
            Ok(v)
        },
        Err(e) => Err(OpError::Failed(e)),
    }
}

/// Drives the RTS line of the port whose handle is argument 0: asserted when
/// argument 1 is 1. Answers `1` once done, `0` for an unknown handle or a
/// device failure.
pub fn op_serial_write_request_to_send(
    ports: &mut PortRegistry,
    args: &Vec<Vec<u8>>,
) -> (r: Result<Vec<u8>, OpError>)
    ensures
        decoded_u32(args@, 0) matches Err(e) ==> r == Err::<Vec<u8>, OpError>(e),
        decoded_u32(args@, 0) is Ok ==>
            (decoded_u32(args@, 1) matches Err(e) ==> r == Err::<Vec<u8>, OpError>(e)),
        decoded_u32(args@, 0) matches Ok(h) ==>
            (decoded_u32(args@, 1) matches Ok(v) ==> level_answered(old(ports)@, final(ports)@, h, r, with_rts(old(ports)@[h], v == 1))),
{
    let h = match decode_u32(args, 0) {
        Ok(h) => h,
        Err(e) => {
            return Err(e);
        },
    };
    let level = match decode_u32(args, 1) {
        Ok(n) => n == 1,
        Err(e) => {
            return Err(e);
        },
    };
    proof {
        lemma_replies_differ();
    }
    Ok(level_reply(ports.write_request_to_send(h, level)))
}

/// Drives the DTR line of the port whose handle is argument 0: asserted when
/// argument 1 is 1. Answers `1` once done, `0` for an unknown handle or a
/// device failure.
pub fn op_serial_write_data_terminal_ready(
    ports: &mut PortRegistry,
    args: &Vec<Vec<u8>>,
) -> (r: Result<Vec<u8>, OpError>)
    ensures
        decoded_u32(args@, 0) matches Err(e) ==> r == Err::<Vec<u8>, OpError>(e),
        decoded_u32(args@, 0) is Ok ==>
            (decoded_u32(args@, 1) matches Err(e) ==> r == Err::<Vec<u8>, OpError>(e)),
        decoded_u32(args@, 0) matches Ok(h) ==>
            (decoded_u32(args@, 1) matches Ok(v) ==> level_answered(old(ports)@, final(ports)@, h, r, with_dtr(old(ports)@[h], v == 1))),
{
    let h = match decode_u32(args, 0) {
        Ok(h) => h,
        Err(e) => {
            return Err(e);
        },
    };
    let level = match decode_u32(args, 1) {
        Ok(n) => n == 1,
        Err(e) => {
            return Err(e);
        },
    };
    proof {
        lemma_replies_differ();
    }
    Ok(level_reply(ports.write_data_terminal_ready(h, level)))
}

/// The number of received bytes waiting to be read on the port whose
/// handle is argument 0, in decimal text; `n` for an unknown handle or a
/// device failure.
pub fn op_serial_bytes_to_read(
    ports: &PortRegistry,
    args: &Vec<Vec<u8>>,
) -> (r: Result<Vec<u8>, OpError>)
    ensures
        decoded_u32(args@, 0) matches Err(e) ==> r == Err::<Vec<u8>, OpError>(e),
        decoded_u32(args@, 0) matches Ok(h) ==> count_answered(ports@, h, r),
{
    let h = match decode_u32(args, 0) {
        Ok(h) => h,
        Err(e) => {
            return Err(e);
        },
    };
    let t = ports.bytes_to_read(h);
    proof {
        if let Ok(n) = t {
            crate::codec::law_decimal_round_trip(n);
        }
    }
    Ok(count_reply(t))
}

/// The number of written bytes not yet transmitted on the port whose
/// handle is argument 0, in decimal text; `n` for an unknown handle or a
/// device failure.
pub fn op_serial_bytes_to_write(
    ports: &PortRegistry,
    args: &Vec<Vec<u8>>,
) -> (r: Result<Vec<u8>, OpError>)
    ensures
        decoded_u32(args@, 0) matches Err(e) ==> r == Err::<Vec<u8>, OpError>(e),
        decoded_u32(args@, 0) matches Ok(h) ==> count_answered(ports@, h, r),
{
    let h = match decode_u32(args, 0) {
        Ok(h) => h,
        Err(e) => {
            return Err(e);
        },
    };
    let t = ports.bytes_to_write(h);
    proof {
        if let Ok(n) = t {
            crate::codec::law_decimal_round_trip(n);
        }
    }
    Ok(count_reply(t))
}

/// Writes as much of argument 1 as the port takes in one call to the port
/// whose handle is argument 0: `1` once done, and the bytes it took join the
/// port's record; `0` for an unknown handle.
pub fn op_serial_write(ports: &mut PortRegistry, args: &Vec<Vec<u8>>) -> (r: Result<Vec<u8>, OpError>)
    ensures
        decoded_u32(args@, 0) matches Err(e) ==> r == Err::<Vec<u8>, OpError>(e),
        decoded_u32(args@, 0) is Ok && args@.len() < 2 ==> r == Err::<Vec<u8>, OpError>(
            OpError::MissingArgument,
        ),
        decoded_u32(args@, 0) matches Ok(h) ==> (args@.len() >= 2 ==> acked(
            old(ports)@,
            h,
            r,
            REPLY_ONE,
            REPLY_ZERO,
        )),
        decoded_u32(args@, 0) matches Ok(h) ==> (if reply_bytes(r) == Ok::<Seq<u8>, OpError>(
            seq![REPLY_ONE],
        ) {
            old(ports)@.contains_key(h) && final(ports)@ == old(ports)@.insert(h, final(ports)@[h])
                && sent_prefix(old(ports)@[h], final(ports)@[h], args@[1]@)
        } else {
            final(ports)@ == old(ports)@
        }),
        decoded_u32(args@, 0) is Err ==> final(ports)@ == old(ports)@,
{
    let h = match decode_u32(args, 0) {
        Ok(h) => h,
        Err(e) => {
            return Err(e);
        },
    };
    if args.len() < 2 {
        return Err(OpError::MissingArgument);
    }
    let t = match ports.write(h, args[1].as_slice()) {
        Ok(_) => Ok(()),
        Err(e) => Err(e),
    };
    proof {
        lemma_replies_differ();
        if t is Ok {
            assert(final(ports)@[h] == final(ports)@.insert(h, final(ports)@[h])[h]);
            assert(final(ports)@.insert(h, final(ports)@[h]) =~= final(ports)@);
        }
    }
    ack_reply(t, REPLY_ONE, REPLY_ZERO)
}

/// Writes all of argument 1 to the port whose handle is argument 0: `1`
/// once done, and the bytes join the port's record; `0` for an unknown
/// handle.
pub fn op_serial_write_all(ports: &mut PortRegistry, args: &Vec<Vec<u8>>) -> (r: Result<Vec<u8>, OpError>)
    ensures
        decoded_u32(args@, 0) matches Err(e) ==> r == Err::<Vec<u8>, OpError>(e),
        decoded_u32(args@, 0) is Ok && args@.len() < 2 ==> r == Err::<Vec<u8>, OpError>(
            OpError::MissingArgument,
        ),
        decoded_u32(args@, 0) matches Ok(h) ==> (args@.len() >= 2 ==> acked(
            old(ports)@,
            h,
            r,
            REPLY_ONE,
            REPLY_ZERO,
        )),
        decoded_u32(args@, 0) matches Ok(h) ==> (if reply_bytes(r) == Ok::<Seq<u8>, OpError>(
            seq![REPLY_ONE],
        ) {
            old(ports)@.contains_key(h) && final(ports)@ == old(ports)@.insert(
                h,
                with_sent(old(ports)@[h], old(ports)@[h].sent + args@[1]@),
            )
        } else {
            final(ports)@ == old(ports)@
        }),
        decoded_u32(args@, 0) is Err ==> final(ports)@ == old(ports)@,
{
    let h = match decode_u32(args, 0) {
        Ok(h) => h,
        Err(e) => {
            return Err(e);
        },
    };
    if args.len() < 2 {
        return Err(OpError::MissingArgument);
    }
    proof {
        lemma_replies_differ();
    }
    ack_reply(ports.write_all(h, args[1].as_slice()), REPLY_ONE, REPLY_ZERO)
}

/// Reads exactly as many bytes as argument 1 asks from the port whose handle
/// is argument 0. Too few bytes, and an unknown handle, fail the call.
pub fn op_serial_read(ports: &mut PortRegistry, args: &Vec<Vec<u8>>) -> (r: Result<Vec<u8>, OpError>)
    ensures
        decoded_u32(args@, 0) matches Err(e) ==> r == Err::<Vec<u8>, OpError>(e),
        decoded_u32(args@, 0) is Ok ==> (decoded_u32(args@, 1) matches Err(e) ==> r == Err::<
            Vec<u8>,
            OpError,
        >(e)),
        decoded_u32(args@, 0) is Err || decoded_u32(args@, 1) is Err ==> final(ports)@ == old(
            ports,
        )@,
        decoded_u32(args@, 0) matches Ok(h) ==> (decoded_u32(args@, 1) matches Ok(n) ==> read_answered(
            old(ports)@,
            final(ports)@,
            h,
            n as nat,
            r,
        )),
{
    let h = match decode_u32(args, 0) {
        Ok(h) => h,
        Err(e) => {
            return Err(e);
        },
    };
    let n = match decode_u32(args, 1) {
        Ok(n) => n,
        Err(e) => {
            return Err(e);
        },
    };
    data_reply(ports.read(h, n as usize))
}

/// Reads from the port whose handle is argument 0 until end of stream; the
/// bytes join the port's record. An unknown handle fails the call.
pub fn op_serial_read_all(ports: &mut PortRegistry, args: &Vec<Vec<u8>>) -> (r: Result<Vec<u8>, OpError>)
    ensures
        decoded_u32(args@, 0) matches Err(e) ==> r == Err::<Vec<u8>, OpError>(e) && final(ports)@
            == old(ports)@,
        decoded_u32(args@, 0) matches Ok(h) ==> (!old(ports)@.contains_key(h) ==> r == Err::<
            Vec<u8>,
            OpError,
        >(OpError::Failed(SerialError::UnknownHandle))),
        decoded_u32(args@, 0) matches Ok(h) ==> (old(ports)@.contains_key(h) ==> (r is Ok
            || is_device_failure(r))),
        r matches Ok(v) ==> (decoded_u32(args@, 0) matches Ok(h) && final(ports)@ == old(
            ports,
        )@.insert(h, with_received(old(ports)@[h], old(ports)@[h].received + v@))),
        r is Err ==> final(ports)@ == old(ports)@,
{
    let h = match decode_u32(args, 0) {
        Ok(h) => h,
        Err(e) => {
            return Err(e);
        },
    };
    data_reply(ports.read_all(h))
}

/// The CTS line of the port whose handle is argument 0: `0` asserted, `1`
/// not asserted, `n` for an unknown handle.
pub fn op_serial_read_clear_to_send(
    ports: &mut PortRegistry,
    args: &Vec<Vec<u8>>,
) -> (r: Result<Vec<u8>, OpError>)
    ensures
        final(ports)@ == old(ports)@,
        decoded_u32(args@, 0) matches Err(e) ==> r == Err::<Vec<u8>, OpError>(e),
        decoded_u32(args@, 0) matches Ok(h) ==> line_answered(old(ports)@, h, r),
{
    let h = match decode_u32(args, 0) {
        Ok(h) => h,
        Err(e) => {
            return Err(e);
        },
    };
    line_reply(ports.read_clear_to_send(h))
}

/// The DSR line of the port whose handle is argument 0: `0` asserted, `1`
/// not asserted, `n` for an unknown handle.
pub fn op_serial_read_data_set_ready(
    ports: &mut PortRegistry,
    args: &Vec<Vec<u8>>,
) -> (r: Result<Vec<u8>, OpError>)
    ensures
        final(ports)@ == old(ports)@,
        decoded_u32(args@, 0) matches Err(e) ==> r == Err::<Vec<u8>, OpError>(e),
        decoded_u32(args@, 0) matches Ok(h) ==> line_answered(old(ports)@, h, r),
{
    let h = match decode_u32(args, 0) {
        Ok(h) => h,
        Err(e) => {
            return Err(e);
        },
    };
    line_reply(ports.read_data_set_ready(h))
}

/// The RI line of the port whose handle is argument 0: `0` asserted, `1`
/// not asserted, `n` for an unknown handle.
pub fn op_serial_read_ring_indicator(
    ports: &mut PortRegistry,
    args: &Vec<Vec<u8>>,
) -> (r: Result<Vec<u8>, OpError>)
    ensures
        final(ports)@ == old(ports)@,
        decoded_u32(args@, 0) matches Err(e) ==> r == Err::<Vec<u8>, OpError>(e),
        decoded_u32(args@, 0) matches Ok(h) ==> line_answered(old(ports)@, h, r),
{
    let h = match decode_u32(args, 0) {
        Ok(h) => h,
        Err(e) => {
            return Err(e);
        },
    };
    line_reply(ports.read_ring_indicator(h))
}

/// The DCD line of the port whose handle is argument 0: `0` asserted, `1`
/// not asserted, `n` for an unknown handle.
pub fn op_serial_read_carrier_detect(
    ports: &mut PortRegistry,
    args: &Vec<Vec<u8>>,
) -> (r: Result<Vec<u8>, OpError>)
    ensures
        final(ports)@ == old(ports)@,
        decoded_u32(args@, 0) matches Err(e) ==> r == Err::<Vec<u8>, OpError>(e),
        decoded_u32(args@, 0) matches Ok(h) ==> line_answered(old(ports)@, h, r),
{
    let h = match decode_u32(args, 0) {
        Ok(h) => h,
        Err(e) => {
            return Err(e);
        },
    };
    line_reply(ports.read_carrier_detect(h))
}

/// Once `h` is closed, each operation on `h` answers its unknown-handle
/// reply: its own byte for an acknowledged operation, `n` for a line read,
/// and the unknown-handle failure for a data read, with the table unchanged.
pub proof fn law_closed_handle_replies(
    before: Map<u32, PortRecord>,
    after: Map<u32, PortRecord>,
    later: Map<u32, PortRecord>,
    h: u32,
    r: Result<Vec<u8>, OpError>,
    n: nat,
    done: u8,
    unknown: u8,
)
    requires
        after == before.remove(h),
    ensures
        acked(after, h, r, done, unknown) ==> reply_bytes(r) == Ok::<Seq<u8>, OpError>(
            seq![unknown],
        ),
        line_answered(after, h, r) ==> reply_bytes(r) == Ok::<Seq<u8>, OpError>(seq![REPLY_NONE]),
        read_answered(after, later, h, n, r) ==> r == Err::<Vec<u8>, OpError>(
            OpError::Failed(SerialError::UnknownHandle),
        ) && later == after,
{
}

} // verus!
