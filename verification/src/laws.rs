//! Laws of the multiplexer, proved over the abstract state transitions that
//! the executable operations are specified against.

use vstd::prelude::*;

use crate::mux::{
    disconnected_text, keep_alive_id, spec_begin_fetch, spec_demux_delivers, spec_demux_next,
    spec_fetch_route, spec_open_stream, spec_resolve, spec_timeout_next, timeout_text, wildcard_id,
    MuxView,
};

verus! {

/// A fetch issued for a device with no registered stream routes nowhere: it
/// reports not-connected instead of hanging on a channel that cannot exist.
pub proof fn lemma_fetch_unconnected_fails(v: MuxView, d: Seq<char>)
    requires
        !v.streams.contains_key(d),
    ensures
        spec_fetch_route(v, d) is None,
{
}

/// Opening a stream for a device, then beginning a fetch for it, routes the
/// command through that stream's channel and parks the fetch's handle; a
/// successful matching reply then resolves exactly that handle.
pub proof fn lemma_fetch_then_reply_delivers(v: MuxView, d: Seq<char>, c: u64, h: u64)
    requires
        d != keep_alive_id(),
    ensures
        spec_fetch_route(spec_open_stream(v, d, c), d) == Some(c),
        spec_demux_delivers(spec_begin_fetch(spec_open_stream(v, d, c), d, h), d, true),
        spec_begin_fetch(spec_open_stream(v, d, c), d, h).pending[d] == h,
{
}

/// Once a timeout has removed a fetch's pending entry, a late reply for the
/// same device matches no waiter: it is dropped and changes nothing.
pub proof fn lemma_timeout_then_reply_dropped(v: MuxView, d: Seq<char>, ok: bool)
    ensures
        !spec_timeout_next(v, d).pending.contains_key(d),
        !spec_demux_delivers(spec_timeout_next(v, d), d, ok),
        spec_demux_next(spec_timeout_next(v, d), d, ok) == spec_timeout_next(v, d),
{
}

/// The failure reported when a stream closes before replying is distinct
/// from the failure reported when the timeout window elapses.
pub proof fn lemma_disconnect_not_timeout()
    ensures
        disconnected_text() != timeout_text(),
{
    reveal_strlit("Failed to get response from Flutter client");
    reveal_strlit("Timeout waiting for Flutter client response");
    assert(disconnected_text()[0] != timeout_text()[0]);
}

/// A keep-alive message never resolves or disturbs any pending fetch: the
/// demultiplexer discards it and both tables are left untouched.
pub proof fn lemma_keep_alive_inert(v: MuxView, ok: bool)
    ensures
        !spec_demux_delivers(v, keep_alive_id(), ok),
        spec_demux_next(v, keep_alive_id(), ok) == v,
{
}

/// The wildcard target resolves exactly when one device is connected, and
/// then to that device; a concrete identifier always resolves to itself.
pub proof fn lemma_wildcard_resolution(requested: Seq<char>, connected: Seq<Seq<char>>)
    ensures
        requested == wildcard_id() ==> spec_resolve(requested, connected) == (if connected.len()
            == 1 {
            Some(connected[0])
        } else {
            None::<Seq<char>>
        }),
        requested != wildcard_id() ==> spec_resolve(requested, connected) == Some(requested),
{
}

/// A second stream registration for the same device supersedes the first:
/// a subsequent fetch routes only through the newer channel.
pub proof fn lemma_reregister_supersedes(v: MuxView, d: Seq<char>, c1: u64, c2: u64)
    ensures
        spec_fetch_route(spec_open_stream(spec_open_stream(v, d, c1), d, c2), d) == Some(c2),
{
}

} // verus!
