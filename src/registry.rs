//! The handle registry: the table of open ports, keyed by small integer
//! handles, and the typed operations on one open port.
use crate::device::clear_port;
use crate::device::clear_port_break;
use crate::device::io_failure;
use crate::device::open_port;
use crate::device::port_bytes_to_read;
use crate::device::port_bytes_to_write;
use crate::device::read_port;
use crate::device::read_port_carrier_detect;
use crate::device::read_port_clear_to_send;
use crate::device::read_port_data_set_ready;
use crate::device::read_port_ring_indicator;
use crate::device::read_port_to_end;
use crate::device::serial_failure;
use crate::device::set_port_baud_rate;
use crate::device::set_port_break;
use crate::device::write_port;
use crate::device::write_port_all;
use crate::device::write_port_data_terminal_ready;
use crate::device::write_port_request_to_send;
use crate::device::ClearTarget;
use crate::device::DeviceFailure;
use std::collections::HashMap;
use vstd::prelude::*;
use vstd::std_specs::hash::group_hash_axioms;

verus! {

broadcast use group_hash_axioms;

/// Why an operation on the registry did not succeed.
#[derive(Clone, Copy, Debug, PartialEq, Eq, Structural)]
pub enum SerialError {
    /// No open port has this handle.
    UnknownHandle,
    /// The operating system failed the operation.
    Device(DeviceFailure),
    /// The port reported end of stream before the requested bytes came.
    EndOfStream,
    /// Every handle value is taken.
    RegistryFull,
}

/// The state of an input control line.
#[derive(Clone, Copy, Debug, PartialEq, Eq, Structural)]
pub enum LineState {
    Asserted,
    NotAsserted,
}

/// What the library knows of one open port: where it was opened, the baud
/// rate and output line levels last set on it, and the bytes that went out
/// and came in through it.
pub struct PortRecord {
    pub path: Seq<char>,
    pub baud_rate: u32,
    pub rts: Option<bool>,
    pub dtr: Option<bool>,
    pub sent: Seq<u8>,
    pub received: Seq<u8>,
}

/// The record of a port just opened at `path` and `baud_rate`.
pub open spec fn fresh_record(path: Seq<char>, baud_rate: u32) -> PortRecord {
    PortRecord {
        path,
        baud_rate,
        rts: None,
        dtr: None,
        sent: Seq::empty(),
        received: Seq::empty(),
    }
}

pub open spec fn with_baud_rate(p: PortRecord, baud_rate: u32) -> PortRecord {
    PortRecord { baud_rate, ..p }
}

pub open spec fn with_rts(p: PortRecord, level: bool) -> PortRecord {
    PortRecord { rts: Some(level), ..p }
}

pub open spec fn with_dtr(p: PortRecord, level: bool) -> PortRecord {
    PortRecord { dtr: Some(level), ..p }
}

pub open spec fn with_sent(p: PortRecord, sent: Seq<u8>) -> PortRecord {
    PortRecord { sent, ..p }
}

pub open spec fn with_received(p: PortRecord, received: Seq<u8>) -> PortRecord {
    PortRecord { received, ..p }
}

/// One open port, with what the library knows of it.
struct Session {
    port: serialport::TTYPort,
    baud_rate: u32,
    path: Ghost<Seq<char>>,
    rts: Ghost<Option<bool>>,
    dtr: Ghost<Option<bool>>,
    sent: Ghost<Seq<u8>>,
    received: Ghost<Seq<u8>>,
}

impl Session {
    spec fn record(&self) -> PortRecord {
        PortRecord {
            path: self.path@,
            baud_rate: self.baud_rate,
            rts: self.rts@,
            dtr: self.dtr@,
            sent: self.sent@,
            received: self.received@,
        }
    }
}

/// The open ports of a process, each under the handle it was given.
pub struct PortRegistry {
    ports: HashMap<u32, Session>,
}

/// `h` is the least handle value that `open` does not hold.
pub open spec fn is_lowest_free(open: Set<u32>, h: u32) -> bool {
    &&& !open.contains(h)
    &&& forall|j: u32| j < h ==> open.contains(j)
}

/// An operation on handle `h` of a registry that held `before` reports an
/// unknown handle exactly when `h` is not open.
pub open spec fn reports_unknown<T>(
    before: Map<u32, PortRecord>,
    h: u32,
    r: Result<T, SerialError>,
) -> bool {
    !before.contains_key(h) <==> r == Err::<T, SerialError>(SerialError::UnknownHandle)
}

/// Any failure other than an unknown handle came from the device.
pub open spec fn fails_only_on_device<T>(r: Result<T, SerialError>) -> bool {
    r matches Err(e) ==> (e is UnknownHandle || e is Device)
}

/// The handle `open` hands out differs from every handle already open, and
/// no other value is the least free one.
pub proof fn law_fresh_handle(open: Set<u32>, h: u32)
    requires
        is_lowest_free(open, h),
    ensures
        forall|k: u32| open.contains(k) ==> k != h,
        forall|g: u32| is_lowest_free(open, g) ==> g == h,
{
    assert forall|g: u32| is_lowest_free(open, g) implies g == h by {
        if g < h {
            assert(open.contains(g));
        } else if h < g {
            assert(open.contains(h));
        }
    }
}

/// Once `close` has freed `closed`, the next `open` hands `closed` out again
/// only when every lower handle is still in use; else it hands out a lower,
/// free one.
pub proof fn law_reuse_after_close(open: Set<u32>, closed: u32, h: u32)
    requires
        open.contains(closed),
        is_lowest_free(open.remove(closed), h),
    ensures
        h <= closed,
        h == closed ==> forall|j: u32| j < closed ==> open.contains(j),
        h < closed ==> !open.contains(h),
{
    if h > closed {
        assert(open.remove(closed).contains(closed));
    }
}

/// Once `close(h)` has taken `h` out of the table, any operation on `h`
/// reports an unknown handle.
pub proof fn law_closed_handle_is_unknown<T>(
    before: Map<u32, PortRecord>,
    after: Map<u32, PortRecord>,
    h: u32,
    r: Result<T, SerialError>,
)
    requires
        after == before.remove(h),
        reports_unknown(after, h, r),
    ensures
        r == Err::<T, SerialError>(SerialError::UnknownHandle),
{
}

/// Two successful baud-rate changes on one handle leave the second in effect,
/// and the set of open handles as it was.
pub proof fn law_last_baud_rate_wins(
    first: Map<u32, PortRecord>,
    between: Map<u32, PortRecord>,
    last: Map<u32, PortRecord>,
    h: u32,
    a: u32,
    b: u32,
)
    requires
        first.contains_key(h),
        between == first.insert(h, with_baud_rate(first[h], a)),
        last == between.insert(h, with_baud_rate(between[h], b)),
    ensures
        last[h].baud_rate == b,
        last.dom() == first.dom(),
{
    assert(last.dom() =~= first.dom());
}

/// The round trip of a loopback port: once `write_all` has sent `data` and
/// `read` has taken `data.len()` bytes, the bytes sent end with `data` and
/// the bytes received end with what the read returned.
pub proof fn law_write_then_read(
    before: Map<u32, PortRecord>,
    written: Map<u32, PortRecord>,
    after: Map<u32, PortRecord>,
    h: u32,
    data: Seq<u8>,
    got: Seq<u8>,
)
    requires
        before.contains_key(h),
        written == before.insert(h, with_sent(before[h], before[h].sent + data)),
        after == written.insert(h, with_received(written[h], written[h].received + got)),
        got.len() == data.len(),
    ensures
        after[h].sent.subrange(before[h].sent.len() as int, after[h].sent.len() as int) == data,
        after[h].received.subrange(before[h].received.len() as int, after[h].received.len() as int)
            == got,
        after[h].received.len() - before[h].received.len() == after[h].sent.len() - before[h].sent.len(),
{
    assert(after[h].sent.subrange(before[h].sent.len() as int, after[h].sent.len() as int) =~= data);
    assert(after[h].received.subrange(before[h].received.len() as int, after[h].received.len() as int)
        =~= got);
}

impl View for PortRegistry {
    /// Each open handle, with the record of its port.
    type V = Map<u32, PortRecord>;

    closed spec fn view(&self) -> Map<u32, PortRecord> {
        Map::new(|h: u32| self.ports@.contains_key(h), |h: u32| self.ports@[h].record())
    }
}

proof fn lemma_prefix_len(n: u32)
    ensures
        Set::new(|j: u32| j < n).finite(),
        Set::new(|j: u32| j < n).len() == n,
    decreases n,
{
    if n == 0 {
        assert(Set::new(|j: u32| j < n) =~= Set::<u32>::empty());
    } else {
        lemma_prefix_len((n - 1) as u32);
        assert(Set::new(|j: u32| j < n) =~= Set::new(|j: u32| j < (n - 1) as u32).insert(
            (n - 1) as u32,
        ));
    }
}

proof fn lemma_replace(m: Map<u32, PortRecord>, h: u32, p: PortRecord)
    requires
        m.contains_key(h),
    ensures
        m.remove(h).insert(h, p) == m.insert(h, p),
        m.insert(h, m[h]) == m,
{
    assert(m.remove(h).insert(h, p) =~= m.insert(h, p));
    assert(m.insert(h, m[h]) =~= m);
}

/// A port result with the device's error in the library's terms; success
/// and its value pass through unchanged.
pub fn from_serial<T>(r: Result<T, serialport::Error>) -> (o: Result<T, SerialError>)
    ensures
        r is Ok <==> o is Ok,
        r matches Ok(v) ==> o == Ok::<T, SerialError>(v),
        o matches Err(e) ==> e is Device,
{
    match r {
        Ok(v) => Ok(v),
        Err(e) => Err(SerialError::Device(serial_failure(e))),
    }
}

/// An I/O result with the error in the library's terms; success and its
/// value pass through unchanged.
pub fn from_io<T>(r: Result<T, std::io::Error>) -> (o: Result<T, SerialError>)
    ensures
        r is Ok <==> o is Ok,
        r matches Ok(v) ==> o == Ok::<T, SerialError>(v),
        o matches Err(e) ==> e is Device,
{
    match r {
        Ok(v) => Ok(v),
        Err(e) => Err(SerialError::Device(io_failure(e))),
    }
}

/// The line state that a control-line read reports as `asserted`.
pub fn line_state(asserted: bool) -> (r: LineState)
    ensures
        r == (if asserted {
            LineState::Asserted
        } else {
            LineState::NotAsserted
        }),
{
    if asserted {
        LineState::Asserted
    } else {
        LineState::NotAsserted
    }
}

/// A line read's result as a line state; failures pass through.
pub fn line_result(r: Result<bool, SerialError>) -> (o: Result<LineState, SerialError>)
    ensures
        r is Ok <==> o is Ok,
        r matches Ok(b) ==> o == Ok::<LineState, SerialError>(line_state_of(b)),
        r matches Err(e) ==> o == Err::<LineState, SerialError>(e),
{
    match r {
        Ok(b) => Ok(line_state(b)),
        Err(e) => Err(e),
    }
}

pub open spec fn line_state_of(asserted: bool) -> LineState {
    if asserted {
        LineState::Asserted
    } else {
        LineState::NotAsserted
    }
}

/// One step of a read that must fill its buffer: the `n` bytes the port put
/// at the front of `chunk` join `data`. No bytes means the stream ended.
pub fn absorb(data: &mut Vec<u8>, chunk: &Vec<u8>, n: usize) -> (r: Result<(), SerialError>)
    requires
        n <= chunk@.len(),
    ensures
        n == 0 ==> r == Err::<(), SerialError>(SerialError::EndOfStream) && final(data)@ == old(
            data,
        )@,
        n > 0 ==> r is Ok && final(data)@ == old(data)@ + chunk@.subrange(0, n as int),
{
    if n == 0 {
        return Err(SerialError::EndOfStream);
    }
    let mut i: usize = 0;
    while i < n
        invariant
            i <= n,
            n <= chunk@.len(),
            data@ == old(data)@ + chunk@.subrange(0, i as int),
        decreases n - i,
    {
        data.push(chunk[i]);
        i = i + 1;
        assert(data@ =~= old(data)@ + chunk@.subrange(0, i as int));
    }
    Ok(())
}

/// Reads from `port` until `len` bytes have come, and returns the bytes it
/// took with the outcome: success once there are `len` of them, or the
/// failure that stopped it.
fn read_exactly(port: &mut serialport::TTYPort, len: usize) -> (r: (Vec<u8>, Result<(), SerialError>))
    ensures
        r.0@.len() <= len,
        r.1 is Ok ==> r.0@.len() == len,
        len == 0 ==> r.1 is Ok,
        r.1 matches Err(e) ==> (e is Device || e is EndOfStream),
{
    let mut data: Vec<u8> = Vec::new();
    while data.len() < len
        invariant
            data@.len() <= len,
        decreases len - data@.len(),
    {
        let missing = len - data.len();
        let mut chunk: Vec<u8> = vec![0u8; missing];
        let n = match from_io(read_port(port, &mut chunk)) {
            Ok(n) => n,
            Err(e) => {
                return (data, Err(e));
            },
        };
        if let Err(e) = absorb(&mut data, &chunk, n) {
            return (data, Err(e));
        }
    }
    (data, Ok(()))
}

impl PortRegistry {
    proof fn lemma_view_dom(&self)
        ensures
            self@.dom() == self.ports@.dom(),
            self@.dom().finite(),
            self@.len() == self.ports@.len(),
    {
        assert(self@.dom() =~= self.ports@.dom());
    }

    /// A registry with no open port.
    pub fn new() -> (r: Self)
        ensures
            r@ == Map::<u32, PortRecord>::empty(),
    {
        let r = PortRegistry { ports: HashMap::new() };
        assert(r@ =~= Map::<u32, PortRecord>::empty());
        r
    }

    /// The number of open ports.
    pub fn len(&self) -> (r: usize)
        ensures
            r == self@.len(),
    {
        proof {
            self.lemma_view_dom();
        }
        self.ports.len()
    }

    /// Whether a port is open under `id`.
    pub fn has_id(&self, id: u32) -> (r: bool)
        ensures
            r == self@.contains_key(id),
    {
        self.ports.contains_key(&id)
    }

    /// The least handle value not in use.
    pub fn get_next_id(&self) -> (r: u32)
        requires
            self@.len() < u32::MAX,
        ensures
            is_lowest_free(self@.dom(), r),
            r as nat <= self@.len(),
    {
        proof {
            self.lemma_view_dom();
        }
        let mut id: u32 = 0;
        while self.ports.contains_key(&id)
            invariant
                forall|j: u32| j < id ==> self@.contains_key(j),
                id <= self@.len(),
                self@.len() < u32::MAX,
                self@.dom() == self.ports@.dom(),
                self@.dom().finite(),
            decreases self@.len() - id,
        {
            proof {
                let below = Set::new(|j: u32| j < (id + 1) as u32);
                lemma_prefix_len((id + 1) as u32);
                assert(below.subset_of(self@.dom()));
                vstd::set_lib::lemma_len_subset(below, self@.dom());
            }
            id = id + 1;
        }
        id
    }

    /// Opens the device at `path` at `baud_rate` and registers it under the
    /// least free handle, which it returns.
    pub fn open(&mut self, path: &str, baud_rate: u32) -> (r: Result<u32, SerialError>)
        ensures
            r matches Ok(h) ==> is_lowest_free(old(self)@.dom(), h) && final(self)@ == old(
                self,
            )@.insert(h, fresh_record(path@, baud_rate)),
            r matches Err(e) ==> final(self)@ == old(self)@ && (e is RegistryFull || e is Device),
            r == Err::<u32, SerialError>(SerialError::RegistryFull) <==> old(self)@.len()
                >= u32::MAX,
    {
        if self.len() >= u32::MAX as usize {
            return Err(SerialError::RegistryFull);
        }
        match from_serial(open_port(path, baud_rate)) {
            Err(e) => Err(e),
            Ok(port) => {
                let id = self.get_next_id();
                let s = Session {
                    port,
                    baud_rate,
                    path: Ghost(path@),
                    rts: Ghost(None),
                    dtr: Ghost(None),
                    sent: Ghost(Seq::empty()),
                    received: Ghost(Seq::empty()),
                };
                self.ports.insert(id, s);
                assert(self@ =~= old(self)@.insert(id, fresh_record(path@, baud_rate)));
                Ok(id)
            },
        }
    }

    /// Closes the port under `h`; its handle becomes free.
    pub fn close(&mut self, h: u32) -> (r: Result<(), SerialError>)
        ensures
            reports_unknown(old(self)@, h, r),
            r is Ok <==> old(self)@.contains_key(h),
            final(self)@ == old(self)@.remove(h),
    {
        let removed = self.ports.remove(&h);
        assert(self@ =~= old(self)@.remove(h));
        match removed {
            Some(_) => Ok(()),
            None => Err(SerialError::UnknownHandle),
        }
    }

    /// Takes the session under `h` out of the table.
    fn take(&mut self, h: u32) -> (r: Option<Session>)
        ensures
            r is Some <==> old(self)@.contains_key(h),
            r matches Some(s) ==> s.record() == old(self)@[h],
            final(self)@ == old(self)@.remove(h),
    {
        let r = self.ports.remove(&h);
        assert(self@ =~= old(self)@.remove(h));
        r
    }

    /// Puts a session back under `h`.
    fn restore(&mut self, h: u32, s: Session)
        ensures
            final(self)@ == old(self)@.insert(h, s.record()),
    {
        let ghost p = s.record();
        self.ports.insert(h, s);
        assert(self@ =~= old(self)@.insert(h, p));
    }

    /// Sets the baud rate of the port under `h`.
    pub fn set_baud_rate(&mut self, h: u32, baud_rate: u32) -> (r: Result<(), SerialError>)
        ensures
            reports_unknown(old(self)@, h, r),
            fails_only_on_device(r),
            r is Ok ==> final(self)@ == old(self)@.insert(h, with_baud_rate(old(self)@[h], baud_rate)),
            r is Err ==> final(self)@ == old(self)@,
    {
        match self.take(h) {
            None => Err(SerialError::UnknownHandle),
            Some(mut s) => {
                let out = from_serial(set_port_baud_rate(&mut s.port, baud_rate));
                if out.is_ok() {
                    s.baud_rate = baud_rate;
                }
                self.restore(h, s);
                proof {
                    lemma_replace(old(self)@, h, with_baud_rate(old(self)@[h], baud_rate));
                }
                out
            },
        }
    }

    /// Starts a break condition on the port under `h`.
    pub fn set_break(&self, h: u32) -> (r: Result<(), SerialError>)
        ensures
            reports_unknown(self@, h, r),
            fails_only_on_device(r),
    {
        match self.ports.get(&h) {
            None => Err(SerialError::UnknownHandle),
            Some(s) => from_serial(set_port_break(&s.port)),
        }
    }

    /// Ends a break condition on the port under `h`.
    pub fn clear_break(&self, h: u32) -> (r: Result<(), SerialError>)
        ensures
            reports_unknown(self@, h, r),
            fails_only_on_device(r),
    {
        match self.ports.get(&h) {
            None => Err(SerialError::UnknownHandle),
            Some(s) => from_serial(clear_port_break(&s.port)),
        }
    }

    /// The number of received bytes waiting to be read on the port under `h`.
    pub fn bytes_to_read(&self, h: u32) -> (r: Result<u32, SerialError>)
        ensures
            reports_unknown(self@, h, r),
            fails_only_on_device(r),
    {
        match self.ports.get(&h) {
            None => Err(SerialError::UnknownHandle),
            Some(s) => from_serial(port_bytes_to_read(&s.port)),
        }
    }

    /// The number of written bytes not yet transmitted on the port under `h`.
    pub fn bytes_to_write(&self, h: u32) -> (r: Result<u32, SerialError>)
        ensures
            reports_unknown(self@, h, r),
            fails_only_on_device(r),
    {
        match self.ports.get(&h) {
            None => Err(SerialError::UnknownHandle),
            Some(s) => from_serial(port_bytes_to_write(&s.port)),
        }
    }

    /// Discards the buffered data that `target` names on the port under `h`.
    pub fn clear(&self, h: u32, target: ClearTarget) -> (r: Result<(), SerialError>)
        ensures
            reports_unknown(self@, h, r),
            fails_only_on_device(r),
    {
        match self.ports.get(&h) {
            None => Err(SerialError::UnknownHandle),
            Some(s) => from_serial(clear_port(&s.port, target)),
        }
    }

    /// Drives the RTS line of the port under `h` to `level`.
    pub fn write_request_to_send(&mut self, h: u32, level: bool) -> (r: Result<(), SerialError>)
        ensures
            reports_unknown(old(self)@, h, r),
            fails_only_on_device(r),
            r is Ok ==> final(self)@ == old(self)@.insert(h, with_rts(old(self)@[h], level)),
            r is Err ==> final(self)@ == old(self)@,
    {
        match self.take(h) {
            None => Err(SerialError::UnknownHandle),
            Some(mut s) => {
                let out = from_serial(write_port_request_to_send(&mut s.port, level));
                if out.is_ok() {
                    s.rts = Ghost(Some(level));
                }
                self.restore(h, s);
                proof {
                    lemma_replace(old(self)@, h, with_rts(old(self)@[h], level));
                }
                out
            },
        }
    }

    /// Drives the DTR line of the port under `h` to `level`.
    pub fn write_data_terminal_ready(&mut self, h: u32, level: bool) -> (r: Result<(), SerialError>)
        ensures
            reports_unknown(old(self)@, h, r),
            fails_only_on_device(r),
            r is Ok ==> final(self)@ == old(self)@.insert(h, with_dtr(old(self)@[h], level)),
            r is Err ==> final(self)@ == old(self)@,
    {
        match self.take(h) {
            None => Err(SerialError::UnknownHandle),
            Some(mut s) => {
                let out = from_serial(write_port_data_terminal_ready(&mut s.port, level));
                if out.is_ok() {
                    s.dtr = Ghost(Some(level));
                }
                self.restore(h, s);
                proof {
                    lemma_replace(old(self)@, h, with_dtr(old(self)@[h], level));
                }
                out
            },
        }
    }

    /// The state of the CTS line of the port under `h`.
    pub fn read_clear_to_send(&mut self, h: u32) -> (r: Result<LineState, SerialError>)
        ensures
            reports_unknown(old(self)@, h, r),
            fails_only_on_device(r),
            final(self)@ == old(self)@,
    {
        match self.take(h) {
            None => Err(SerialError::UnknownHandle),
            Some(mut s) => {
                let out = line_result(from_serial(read_port_clear_to_send(&mut s.port)));
                self.restore(h, s);
                proof {
                    lemma_replace(old(self)@, h, old(self)@[h]);
                }
                out
            },
        }
    }

    /// The state of the DSR line of the port under `h`.
    pub fn read_data_set_ready(&mut self, h: u32) -> (r: Result<LineState, SerialError>)
        ensures
            reports_unknown(old(self)@, h, r),
            fails_only_on_device(r),
            final(self)@ == old(self)@,
    {
        match self.take(h) {
            None => Err(SerialError::UnknownHandle),
            Some(mut s) => {
                let out = line_result(from_serial(read_port_data_set_ready(&mut s.port)));
                self.restore(h, s);
                proof {
                    lemma_replace(old(self)@, h, old(self)@[h]);
                }
                out
            },
        }
    }

    /// The state of the RI line of the port under `h`.
    pub fn read_ring_indicator(&mut self, h: u32) -> (r: Result<LineState, SerialError>)
        ensures
            reports_unknown(old(self)@, h, r),
            fails_only_on_device(r),
            final(self)@ == old(self)@,
    {
        match self.take(h) {
            None => Err(SerialError::UnknownHandle),
            Some(mut s) => {
                let out = line_result(from_serial(read_port_ring_indicator(&mut s.port)));
                self.restore(h, s);
                proof {
                    lemma_replace(old(self)@, h, old(self)@[h]);
                }
                out
            },
        }
    }

    /// The state of the DCD line of the port under `h`.
    pub fn read_carrier_detect(&mut self, h: u32) -> (r: Result<LineState, SerialError>)
        ensures
            reports_unknown(old(self)@, h, r),
            fails_only_on_device(r),
            final(self)@ == old(self)@,
    {
        match self.take(h) {
            None => Err(SerialError::UnknownHandle),
            Some(mut s) => {
                let out = line_result(from_serial(read_port_carrier_detect(&mut s.port)));
                self.restore(h, s);
                proof {
                    lemma_replace(old(self)@, h, old(self)@[h]);
                }
                out
            },
        }
    }

    /// Reads exactly `len` bytes from the port under `h`, waiting for them
    /// as the port's timeout allows; fewer bytes are a failure, never a
    /// result. Every byte taken from the port joins the port's record.
    pub fn read(&mut self, h: u32, len: usize) -> (r: Result<Vec<u8>, SerialError>)
        ensures
            reports_unknown(old(self)@, h, r),
            r matches Ok(data) ==> data@.len() == len && final(self)@ == old(self)@.insert(
                h,
                with_received(old(self)@[h], old(self)@[h].received + data@),
            ),
            r matches Err(e) ==> (e is UnknownHandle || e is Device || e is EndOfStream),
            r is Err && old(self)@.contains_key(h) ==> final(self)@ == old(self)@.insert(
                h,
                with_received(old(self)@[h], final(self)@[h].received),
            ),
            !old(self)@.contains_key(h) ==> final(self)@ == old(self)@,
            old(self)@.contains_key(h) && len == 0 ==> (r matches Ok(data) && data@.len() == 0),
    {
        match self.take(h) {
            None => Err(SerialError::UnknownHandle),
            Some(mut s) => {
                let (data, res) = read_exactly(&mut s.port, len);
                s.received = Ghost(s.received@ + data@);
                self.restore(h, s);
                proof {
                    lemma_replace(
                        old(self)@,
                        h,
                        with_received(old(self)@[h], old(self)@[h].received + data@),
                    );
                }
                match res {
                    Ok(()) => Ok(data),
                    Err(e) => Err(e),
                }
            },
        }
    }

    /// Reads from the port under `h` until end of stream; the bytes join
    /// the port's record.
    pub fn read_all(&mut self, h: u32) -> (r: Result<Vec<u8>, SerialError>)
        ensures
            reports_unknown(old(self)@, h, r),
            fails_only_on_device(r),
            r matches Ok(data) ==> final(self)@ == old(self)@.insert(
                h,
                with_received(old(self)@[h], old(self)@[h].received + data@),
            ),
            r is Err ==> final(self)@ == old(self)@,
    {
        match self.take(h) {
            None => Err(SerialError::UnknownHandle),
            Some(mut s) => {
                let out = from_io(read_port_to_end(&mut s.port));
                if let Ok(data) = &out {
                    s.received = Ghost(s.received@ + data@);
                }
                self.restore(h, s);
                proof {
                    lemma_replace(old(self)@, h, old(self)@[h]);
                    if out is Ok {
                        lemma_replace(
                            old(self)@,
                            h,
                            with_received(old(self)@[h], old(self)@[h].received + out->Ok_0@),
                        );
                    }
                }
                out
            },
        }
    }

    /// Writes as much of `data` as the port under `h` takes in one call and
    /// returns how many bytes that was; they join the port's record.
    pub fn write(&mut self, h: u32, data: &[u8]) -> (r: Result<usize, SerialError>)
        ensures
            reports_unknown(old(self)@, h, r),
            fails_only_on_device(r),
            r matches Ok(n) ==> n <= data@.len() && final(self)@ == old(self)@.insert(
                h,
                with_sent(old(self)@[h], old(self)@[h].sent + data@.subrange(0, n as int)),
            ),
            r is Err ==> final(self)@ == old(self)@,
    {
        match self.take(h) {
            None => Err(SerialError::UnknownHandle),
            Some(mut s) => {
                let out = from_io(write_port(&mut s.port, data));
                if let Ok(n) = out {
                    s.sent = Ghost(s.sent@ + data@.subrange(0, n as int));
                }
                self.restore(h, s);
                proof {
                    lemma_replace(old(self)@, h, old(self)@[h]);
                    if let Ok(n) = out {
                        lemma_replace(
                            old(self)@,
                            h,
                            with_sent(old(self)@[h], old(self)@[h].sent + data@.subrange(0, n as int)),
                        );
                    }
                }
                out
            },
        }
    }

    /// Writes the whole of `data` to the port under `h`, or fails; once
    /// written it joins the port's record.
    pub fn write_all(&mut self, h: u32, data: &[u8]) -> (r: Result<(), SerialError>)
        ensures
            reports_unknown(old(self)@, h, r),
            fails_only_on_device(r),
            r is Ok ==> final(self)@ == old(self)@.insert(
                h,
                with_sent(old(self)@[h], old(self)@[h].sent + data@),
            ),
            r is Err ==> final(self)@ == old(self)@,
    {
        match self.take(h) {
            None => Err(SerialError::UnknownHandle),
            Some(mut s) => {
                let out = from_io(write_port_all(&mut s.port, data));
                if out.is_ok() {
                    s.sent = Ghost(s.sent@ + data@);
                }
                self.restore(h, s);
                proof {
                    lemma_replace(old(self)@, h, with_sent(old(self)@[h], old(self)@[h].sent + data@));
                }
                out
            },
        }
    }
}

} // verus!
