//! The streamed request/response multiplexer.
//!
//! A server issues asynchronous fetch commands to a remote device over one
//! long-lived bidirectional stream. The `Multiplexer` keeps the two shared
//! tables consistent: the stream registry (device identifier to outbound
//! channel token) and the pending-request table (device identifier to
//! completion-handle token), and decides, for every inbound event, what the
//! embedding process must do: push a command, deliver a payload to a handle,
//! or discard the message.
//!
//! Channels and completion handles themselves are asynchronous objects the
//! embedding process owns; here each is named by an opaque `u64` token.

use vstd::prelude::*;

use crate::tokenmap::TokenMap;

verus! {

/// Fixed per-fetch timeout window, in seconds.
pub const FETCH_TIMEOUT_SECS: u64 = 5;

/// Reserved device identifier that marks a keep-alive message.
pub open spec fn keep_alive_id() -> Seq<char> {
    "heartbeat"@
}

/// Wildcard device identifier: "the only connected device".
pub open spec fn wildcard_id() -> Seq<char> {
    "any"@
}

/// The single command kind a device stream carries today.
pub enum CommandKind {
    FetchTree,
}

/// A command pushed to a device through its outbound stream.
pub struct Command {
    pub device_id: String,
    pub kind: CommandKind,
}

/// An inbound message on a device stream.
pub struct StreamReply {
    pub device_id: String,
    pub success: bool,
    pub raw_output: Vec<u8>,
    pub error_message: String,
}

/// The business failures a fetch can report; none of them is fatal.
#[derive(Debug)]
pub enum FetchError {
    /// No stream is registered for the target device.
    NotConnected,
    /// The command could not be pushed into the device's outbound stream.
    SendFailed,
    /// The wildcard target was requested with zero or several devices connected.
    AmbiguousTarget,
    /// No reply arrived within the timeout window.
    Timeout,
    /// The device's stream closed while the fetch was outstanding.
    Disconnected,
}

/// What the demultiplexer decides for one inbound message.
pub enum DemuxAction {
    /// Discard the message: keep-alive, signaled failure, or no waiter.
    Ignore,
    /// Deliver `payload` to the completion handle named by `handle`.
    Deliver { handle: u64, payload: Vec<u8> },
}

/// How the wait on a fetch's completion handle ended.
pub enum WaitOutcome {
    /// The handle resolved with the reply payload.
    Replied { payload: Vec<u8> },
    /// The resolving side was dropped before any reply.
    SenderDropped,
    /// The timeout window elapsed first.
    TimedOut,
}

/// The structured result a fetch reports to its caller.
pub struct FetchReply {
    pub success: bool,
    pub error_message: String,
    pub raw_output: Vec<u8>,
}

/// Abstract state of the multiplexer: the two per-device tables.
pub ghost struct MuxView {
    pub streams: Map<Seq<char>, u64>,
    pub pending: Map<Seq<char>, u64>,
}

/// State after a stream for `d` opens with outbound channel `c`:
/// last registration wins.
pub open spec fn spec_open_stream(v: MuxView, d: Seq<char>, c: u64) -> MuxView {
    MuxView { streams: v.streams.insert(d, c), pending: v.pending }
}

/// State after the stream `c` for `d` terminates: the registration is
/// removed only if it is still the current one.
pub open spec fn spec_close_stream(v: MuxView, d: Seq<char>, c: u64) -> MuxView {
    if v.streams.contains_key(d) && v.streams[d] == c {
        MuxView { streams: v.streams.remove(d), pending: v.pending }
    } else {
        v
    }
}

/// The channel a fetch for `d` routes through, if any.
pub open spec fn spec_fetch_route(v: MuxView, d: Seq<char>) -> Option<u64> {
    if v.streams.contains_key(d) {
        Some(v.streams[d])
    } else {
        None
    }
}

/// State after a fetch for `d` parks completion handle `h`: the insertion
/// supersedes any earlier unresolved handle for the same device.
pub open spec fn spec_begin_fetch(v: MuxView, d: Seq<char>, h: u64) -> MuxView {
    MuxView { streams: v.streams, pending: v.pending.insert(d, h) }
}

/// Whether an inbound message for `d` with success flag `ok` resolves a
/// pending fetch: never for a keep-alive, never for a signaled failure,
/// and only when a waiter is parked for `d`.
pub open spec fn spec_demux_delivers(v: MuxView, d: Seq<char>, ok: bool) -> bool {
    d != keep_alive_id() && ok && v.pending.contains_key(d)
}

/// State after the demultiplexer handles an inbound message for `d`.
pub open spec fn spec_demux_next(v: MuxView, d: Seq<char>, ok: bool) -> MuxView {
    if spec_demux_delivers(v, d, ok) {
        MuxView { streams: v.streams, pending: v.pending.remove(d) }
    } else {
        v
    }
}

/// State after a fetch for `d` times out: its stale pending entry is gone.
pub open spec fn spec_timeout_next(v: MuxView, d: Seq<char>) -> MuxView {
    MuxView { streams: v.streams, pending: v.pending.remove(d) }
}

/// Target resolution: the wildcard names the sole connected device and is
/// ambiguous otherwise; every other identifier names itself.
pub open spec fn spec_resolve(requested: Seq<char>, connected: Seq<Seq<char>>) -> Option<
    Seq<char>,
> {
    if requested == wildcard_id() {
        if connected.len() == 1 {
            Some(connected[0])
        } else {
            None
        }
    } else {
        Some(requested)
    }
}

/// Error text for the disconnected-before-reply failure.
pub open spec fn disconnected_text() -> Seq<char> {
    "Failed to get response from Flutter client"@
}

/// Error text for the timeout failure.
pub open spec fn timeout_text() -> Seq<char> {
    "Timeout waiting for Flutter client response"@
}

impl FetchError {
    /// Error text of each failure category.
    pub open spec fn spec_message(self) -> Seq<char> {
        match self {
            FetchError::NotConnected => "Device not connected"@,
            FetchError::SendFailed => "Failed to send command"@,
            FetchError::AmbiguousTarget => "Wildcard target requires exactly one connected device"@,
            FetchError::Timeout => timeout_text(),
            FetchError::Disconnected => disconnected_text(),
        }
    }

    pub fn message(&self) -> (r: String)
        ensures
            r@ == self.spec_message(),
    {
        match self {
            FetchError::NotConnected => "Device not connected".to_owned(),
            FetchError::SendFailed => "Failed to send command".to_owned(),
            FetchError::AmbiguousTarget => "Wildcard target requires exactly one connected device".to_owned(),
            FetchError::Timeout => "Timeout waiting for Flutter client response".to_owned(),
            FetchError::Disconnected => "Failed to get response from Flutter client".to_owned(),
        }
    }
}

/// The orchestrator's shared state: one registry entry and at most one
/// pending request per device identifier.
pub struct Multiplexer {
    streams: TokenMap,
    pending: TokenMap,
}

impl View for Multiplexer {
    type V = MuxView;

    closed spec fn view(&self) -> MuxView {
        MuxView { streams: self.streams@, pending: self.pending@ }
    }
}

impl Multiplexer {
    pub closed spec fn wf(self) -> bool {
        self.streams.wf() && self.pending.wf()
    }

    pub fn new() -> (r: Multiplexer)
        ensures
            r.wf(),
            r@.streams == Map::<Seq<char>, u64>::empty(),
            r@.pending == Map::<Seq<char>, u64>::empty(),
    {
        Multiplexer { streams: TokenMap::new(), pending: TokenMap::new() }
    }

    /// Registers the outbound channel token of a newly opened stream for
    /// `device_id`. A prior registration is superseded (last writer wins)
    /// and its channel token is returned so the caller can retire it.
    pub fn open_stream(&mut self, device_id: String, channel: u64) -> (superseded: Option<u64>)
        requires
            old(self).wf(),
        ensures
            final(self).wf(),
            final(self)@ == spec_open_stream(old(self)@, device_id@, channel),
            superseded is Some <==> old(self)@.streams.contains_key(device_id@),
            superseded matches Some(c) ==> old(self)@.streams[device_id@] == c,
    {
        self.streams.insert(device_id, channel)
    }

    /// Deregisters the stream for `device_id`, but only if `channel` is
    /// still the current registration: a superseded stream's late cleanup
    /// must not evict its successor.
    pub fn close_stream(&mut self, device_id: &String, channel: u64)
        requires
            old(self).wf(),
        ensures
            final(self).wf(),
            final(self)@ == spec_close_stream(old(self)@, device_id@, channel),
    {
        self.streams.remove_if_val(device_id, channel);
    }

    /// Starts a fetch for `device_id` whose waiter holds the completion
    /// handle named `handle`: parks the handle in the pending-request table
    /// (superseding any earlier handle for the device, which is returned),
    /// and routes the command through the registered channel, or reports
    /// not-connected if there is none. The parked handle stays either way.
    pub fn begin_fetch(&mut self, device_id: &String, handle: u64) -> (r: (
        Result<(u64, Command), FetchError>,
        Option<u64>,
    ))
        requires
            old(self).wf(),
        ensures
            final(self).wf(),
            final(self)@ == spec_begin_fetch(old(self)@, device_id@, handle),
            r.0 is Ok <==> spec_fetch_route(old(self)@, device_id@) is Some,
            r.0 matches Ok(ok) ==> spec_fetch_route(old(self)@, device_id@) == Some(ok.0)
                && ok.1.device_id@ == device_id@ && ok.1.kind == CommandKind::FetchTree,
            r.0 matches Err(e) ==> e == FetchError::NotConnected,
            r.1 is Some <==> old(self)@.pending.contains_key(device_id@),
            r.1 matches Some(h) ==> old(self)@.pending[device_id@] == h,
    {
        let superseded = self.pending.insert(device_id.clone(), handle);
        let route = match self.streams.get(device_id) {
            Some(c) => Ok(
                (c, Command { device_id: device_id.clone(), kind: CommandKind::FetchTree }),
            ),
            None => Err(FetchError::NotConnected),
        };
        (route, superseded)
    }

    /// One demultiplexer step for an inbound stream message: a keep-alive or
    /// a signaled failure is discarded untouched; a successful reply takes
    /// the pending handle for its device, if any, and delivers the payload.
    pub fn handle_message(&mut self, msg: StreamReply) -> (r: DemuxAction)
        requires
            old(self).wf(),
        ensures
            final(self).wf(),
            final(self)@ == spec_demux_next(old(self)@, msg.device_id@, msg.success),
            r is Deliver <==> spec_demux_delivers(old(self)@, msg.device_id@, msg.success),
            r matches DemuxAction::Deliver { handle, payload } ==> handle == old(
                self,
            )@.pending[msg.device_id@] && payload@ == msg.raw_output@,
    {
        if msg.device_id == "heartbeat".to_owned() {
            return DemuxAction::Ignore;
        }
        if !msg.success {
            return DemuxAction::Ignore;
        }
        let r = self.handle_accessibility_data_update(&msg.device_id, msg.raw_output);
        proof {
            if !old(self)@.pending.contains_key(msg.device_id@) {
                assert(old(self)@.pending.remove(msg.device_id@) =~= old(self)@.pending);
            }
        }
        r
    }

    /// The shared resolution path, also reachable out-of-band: removes the
    /// pending handle for `device_id`, if any, and delivers `data` to it;
    /// with no waiter parked, the payload is dropped.
    pub fn handle_accessibility_data_update(&mut self, device_id: &String, data: Vec<u8>) -> (r:
        DemuxAction)
        requires
            old(self).wf(),
        ensures
            final(self).wf(),
            final(self)@.streams == old(self)@.streams,
            final(self)@.pending == old(self)@.pending.remove(device_id@),
            r is Deliver <==> old(self)@.pending.contains_key(device_id@),
            r matches DemuxAction::Deliver { handle, payload } ==> handle == old(
                self,
            )@.pending[device_id@] && payload@ == data@,
    {
        match self.pending.take(device_id) {
            Some(h) => DemuxAction::Deliver { handle: h, payload: data },
            None => DemuxAction::Ignore,
        }
    }

    /// Timeout expiry for a fetch on `device_id`: removes the now-stale
    /// pending entry, so that a late reply is dropped rather than matched.
    pub fn fetch_timed_out(&mut self, device_id: &String)
        requires
            old(self).wf(),
        ensures
            final(self).wf(),
            final(self)@ == spec_timeout_next(old(self)@, device_id@),
    {
        let _stale = self.pending.take(device_id);
    }
}

/// Resolves the requested target identifier against the connected-device
/// listing: the wildcard requires exactly one connected device and fails as
/// ambiguous otherwise; a concrete identifier resolves to itself.
pub fn resolve_target(requested: &String, connected: &Vec<String>) -> (r: Result<
    String,
    FetchError,
>)
    ensures
        r is Ok <==> spec_resolve(requested@, connected.deep_view()) is Some,
        r matches Ok(d) ==> Some(d@) == spec_resolve(requested@, connected.deep_view()),
        r matches Err(e) ==> e == FetchError::AmbiguousTarget,
{
    if *requested == "any".to_owned() {
        if connected.len() == 1 {
            let d = connected[0].clone();
            assert(d@ == connected.deep_view()[0]);
            Ok(d)
        } else {
            Err(FetchError::AmbiguousTarget)
        }
    } else {
        Ok(requested.clone())
    }
}

/// The structured result reported for a fetch, from the way the wait on its
/// completion handle ended. The caller always receives an explicit result:
/// exactly the payload on success, and a distinct failure text when the
/// resolving side was dropped or the window elapsed.
pub fn fetch_reply(outcome: WaitOutcome) -> (r: FetchReply)
    ensures
        outcome matches WaitOutcome::Replied { payload } ==> r.success && r.raw_output@
            == payload@ && r.error_message@ == Seq::<char>::empty(),
        outcome is SenderDropped ==> !r.success && r.error_message@ == disconnected_text()
            && r.raw_output@ == Seq::<u8>::empty(),
        outcome is TimedOut ==> !r.success && r.error_message@ == timeout_text() && r.raw_output@
            == Seq::<u8>::empty(),
{
    match outcome {
        WaitOutcome::Replied { payload } => FetchReply {
            success: true,
            error_message: String::new(),
            raw_output: payload,
        },
        WaitOutcome::SenderDropped => FetchReply {
            success: false,
            error_message: FetchError::Disconnected.message(),
            raw_output: Vec::new(),
        },
        WaitOutcome::TimedOut => FetchReply {
            success: false,
            error_message: FetchError::Timeout.message(),
            raw_output: Vec::new(),
        },
    }
}

/// The structured result reported when a fetch fails before any wait:
/// target resolution failed or no stream is registered.
pub fn fetch_failure_reply(err: &FetchError) -> (r: FetchReply)
    ensures
        !r.success,
        r.error_message@ == err.spec_message(),
        r.raw_output@ == Seq::<u8>::empty(),
{
    FetchReply { success: false, error_message: err.message(), raw_output: Vec::new() }
}

} // verus!
