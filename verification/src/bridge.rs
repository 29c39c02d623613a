//! The external readiness bridge: a model of the display-server connection
//! whose edge-triggered readiness is turned into a pollable event sequence by
//! a drain-then-rearm-then-recheck loop, and the property-change filter that
//! narrows the raw sequence to interest-set pulses.

use vstd::prelude::*;

verus! {

/// The protocol response type of a property-change notification.
pub const PROPERTY_NOTIFY: u8 = 28;

/// One raw protocol event, as decoded from the connection's buffer: its
/// response type, and the property atom it concerns where it is a
/// property-change notification.
#[derive(Clone, Copy, PartialEq, Eq, Structural, Debug)]
pub struct RawEvent {
    pub response_type: u8,
    pub atom: u32,
}

/// What one poll of the bridge produces.
#[derive(Clone, Copy, PartialEq, Eq, Structural, Debug)]
pub enum BridgePoll {
    /// One decoded event.
    Event(RawEvent),
    /// Nothing decodable and the descriptor is not ready: the caller
    /// suspends until a readiness notification wakes it.
    Pending,
    /// The OS-level wait itself failed: the connection is unusable.
    Fatal,
}

/// The mathematical state of the connection: the events buffered and not yet
/// decoded, the readiness token the reactor last delivered (`token`), whether
/// an arrival has fired a fresh readiness edge that no wait has consumed yet
/// (`edge`), and whether the OS-level wait fails.
pub ghost struct ConnView {
    pub socket: Seq<RawEvent>,
    pub token: bool,
    pub edge: bool,
    pub broken: bool,
}

/// The display-server connection, modelled by plain values: events arrive on
/// it, are buffered, and are decoded one at a time; readiness is
/// edge-triggered, fired by each arrival and consumed by the wait primitive.
pub struct XConn {
    socket: Vec<RawEvent>,
    token: bool,
    edge: bool,
    broken: bool,
}

impl View for XConn {
    type V = ConnView;

    closed spec fn view(&self) -> ConnView {
        ConnView {
            socket: self.socket@,
            token: self.token,
            edge: self.edge,
            broken: self.broken,
        }
    }
}

/// What the OS-level readiness wait reports.
#[derive(Clone, Copy, PartialEq, Eq, Structural, Debug)]
enum ReadReady {
    Ready,
    NotReady,
    Failed,
}

impl XConn {
    /// A fresh connection: nothing buffered, no readiness outstanding.
    pub fn new() -> (c: XConn)
        ensures
            c@ == (ConnView { socket: Seq::<RawEvent>::empty(), token: false, edge: false, broken: false }),
    {
        XConn { socket: Vec::new(), token: false, edge: false, broken: false }
    }

    /// An event arrives on the descriptor: it is buffered and a readiness
    /// edge fires.
    pub fn arrive(&mut self, e: RawEvent)
        ensures
            final(self)@ == (ConnView {
                socket: old(self)@.socket.push(e),
                token: old(self)@.token,
                edge: true,
                broken: old(self)@.broken,
            }),
    {
        self.socket.push(e);
        self.edge = true;
    }

    /// The OS-level wait starts failing: the connection is unusable.
    pub fn mark_broken(&mut self)
        ensures
            final(self)@ == (ConnView {
                socket: old(self)@.socket,
                token: old(self)@.token,
                edge: old(self)@.edge,
                broken: true,
            }),
    {
        self.broken = true;
    }

    /// Asks the reactor whether the descriptor is ready. A fresh edge is
    /// consumed into the held token; with neither, the caller must suspend.
    fn poll_read_ready(&mut self) -> (r: ReadReady)
        ensures
            old(self)@.broken ==> r == ReadReady::Failed && final(self)@ == old(self)@,
            !old(self)@.broken && (old(self)@.token || old(self)@.edge) ==> r == ReadReady::Ready
                && final(self)@ == (ConnView {
                socket: old(self)@.socket,
                token: true,
                edge: false,
                broken: false,
            }),
            !old(self)@.broken && !old(self)@.token && !old(self)@.edge ==> r
                == ReadReady::NotReady && final(self)@ == old(self)@,
    {
        if self.broken {
            ReadReady::Failed
        } else if self.token || self.edge {
            self.token = true;
            self.edge = false;
            ReadReady::Ready
        } else {
            ReadReady::NotReady
        }
    }

    /// Decodes the next event from the connection's buffer, if one is there.
    /// This never touches the OS wait primitive.
    fn poll_for_event(&mut self) -> (r: Option<RawEvent>)
        ensures
            old(self)@.socket.len() > 0 ==> r == Some(old(self)@.socket[0]) && final(self)@ == (
            ConnView {
                socket: old(self)@.socket.skip(1),
                token: old(self)@.token,
                edge: old(self)@.edge,
                broken: old(self)@.broken,
            }),
            old(self)@.socket.len() == 0 ==> r is None && final(self)@ == old(self)@,
    {
        if self.socket.len() > 0 {
            let e = self.socket.remove(0);
            proof {
                assert(self@.socket =~= old(self)@.socket.skip(1));
            }
            Some(e)
        } else {
            None
        }
    }

    /// Acknowledges the readiness the reactor delivered, so it re-arms. An
    /// edge that fired since the last wait is not erased.
    fn clear_ready(&mut self)
        ensures
            final(self)@ == (ConnView {
                socket: old(self)@.socket,
                token: false,
                edge: old(self)@.edge,
                broken: old(self)@.broken,
            }),
    {
        self.token = false;
    }
}

/// The bridge's whole state: the connection plus the `WouldBlock` flag (the
/// last drain attempt found nothing, so the next poll must wait first).
pub ghost struct BridgeView {
    pub conn: ConnView,
    pub would_block: bool,
}

/// The bridge's invariant. Off `WouldBlock` the bridge holds an
/// unacknowledged readiness token, and every buffered event is covered by a
/// token or by a fresh edge — an arrival always fires an edge, and the token
/// is only cleared after a decode found the buffer empty.
pub open spec fn bridge_wf(v: BridgeView) -> bool {
    &&& !v.would_block ==> v.conn.token
    &&& v.conn.socket.len() > 0 ==> v.conn.token || v.conn.edge
}

/// What one poll of a well-formed bridge returns: the fatal failure when the
/// wait primitive is reached and fails, else the first buffered event, else
/// a suspension.
pub open spec fn bridge_step_result(v: BridgeView) -> BridgePoll {
    if v.conn.broken && (v.would_block || v.conn.socket.len() == 0) {
        BridgePoll::Fatal
    } else if v.conn.socket.len() > 0 {
        BridgePoll::Event(v.conn.socket[0])
    } else {
        BridgePoll::Pending
    }
}

/// The bridge's state after one poll of a well-formed bridge.
pub open spec fn bridge_step_state(v: BridgeView) -> BridgeView {
    match bridge_step_result(v) {
        BridgePoll::Fatal => BridgeView {
            would_block: true,
            conn: ConnView {
                socket: v.conn.socket,
                token: if v.would_block {
                    v.conn.token
                } else {
                    false
                },
                edge: v.conn.edge,
                broken: v.conn.broken,
            },
        },
        BridgePoll::Event(e) => BridgeView {
            would_block: false,
            conn: ConnView {
                socket: v.conn.socket.skip(1),
                token: true,
                edge: if v.would_block {
                    false
                } else {
                    v.conn.edge
                },
                broken: v.conn.broken,
            },
        },
        BridgePoll::Pending => BridgeView {
            would_block: true,
            conn: ConnView { socket: v.conn.socket, token: false, edge: false, broken: v.conn.broken },
        },
    }
}

/// One poll preserves the bridge invariant.
pub proof fn lemma_bridge_step_preserves_wf(v: BridgeView)
    requires
        bridge_wf(v),
    ensures
        bridge_wf(bridge_step_state(v)),
{
}

/// The loop's termination measure: buffered events, then outstanding
/// readiness, then the re-entry flag.
spec fn bridge_measure(v: BridgeView) -> int {
    4 * v.conn.socket.len() + (if v.conn.edge {
        4int
    } else {
        0int
    }) + (if v.conn.token {
        2int
    } else {
        0int
    }) + (if v.would_block {
        1int
    } else {
        0int
    })
}

/// The drain-then-rearm-then-recheck loop over a connection. On
/// `WouldBlock` it first waits for readiness; otherwise it decodes straight
/// from the buffer; when a decode finds nothing it acknowledges the
/// readiness token and retries from the top, so an event that arrived
/// between the failed decode and the acknowledgment is still observed.
pub(crate) fn poll_conn(conn: &mut XConn, would_block: &mut bool) -> (r: BridgePoll)
    requires
        bridge_wf(BridgeView { conn: old(conn)@, would_block: *old(would_block) }),
    ensures
        ({
            let v0 = BridgeView { conn: old(conn)@, would_block: *old(would_block) };
            let v1 = BridgeView { conn: final(conn)@, would_block: *final(would_block) };
            r == bridge_step_result(v0) && v1 == bridge_step_state(v0) && bridge_wf(v1)
        }),
{
    let ghost v0 = BridgeView { conn: conn@, would_block: *would_block };
    loop
        invariant
            v0 == (BridgeView { conn: old(conn)@, would_block: *old(would_block) }),
            bridge_wf(BridgeView { conn: conn@, would_block: *would_block }),
            bridge_step_result(BridgeView { conn: conn@, would_block: *would_block })
                == bridge_step_result(v0),
            bridge_step_state(BridgeView { conn: conn@, would_block: *would_block })
                == bridge_step_state(v0),
        decreases bridge_measure(BridgeView { conn: conn@, would_block: *would_block }),
    {
        if *would_block {
            match conn.poll_read_ready() {
                ReadReady::Failed => {
                    return BridgePoll::Fatal;
                },
                ReadReady::NotReady => {
                    return BridgePoll::Pending;
                },
                ReadReady::Ready => {
                    *would_block = false;
                },
            }
        }
        match conn.poll_for_event() {
            Some(e) => {
                return BridgePoll::Event(e);
            },
            None => {
                *would_block = true;
                conn.clear_ready();
            },
        }
    }
}

/// The raw event sequence drawn from one connection: repeated polls of the
/// drain loop.
pub struct XcbEventStream {
    conn: XConn,
    would_block: bool,
}

impl View for XcbEventStream {
    type V = BridgeView;

    closed spec fn view(&self) -> BridgeView {
        BridgeView { conn: self.conn@, would_block: self.would_block }
    }
}

impl XcbEventStream {
    /// Wraps a connection; the first poll must wait for readiness.
    pub fn new(conn: XConn) -> (s: XcbEventStream)
        ensures
            s@ == (BridgeView { conn: conn@, would_block: true }),
    {
        XcbEventStream { conn, would_block: true }
    }

    /// The wrapped connection.
    pub fn conn(&self) -> (c: &XConn)
        ensures
            c@ == self@.conn,
    {
        &self.conn
    }

    /// An event arrives on the wrapped connection.
    pub fn deliver_event(&mut self, e: RawEvent)
        ensures
            final(self)@ == (BridgeView {
                conn: ConnView {
                    socket: old(self)@.conn.socket.push(e),
                    token: old(self)@.conn.token,
                    edge: true,
                    broken: old(self)@.conn.broken,
                },
                would_block: old(self)@.would_block,
            }),
    {
        self.conn.arrive(e);
    }

    /// The wrapped connection's wait primitive starts failing.
    pub fn fail_connection(&mut self)
        ensures
            final(self)@ == (BridgeView {
                conn: ConnView {
                    socket: old(self)@.conn.socket,
                    token: old(self)@.conn.token,
                    edge: old(self)@.conn.edge,
                    broken: true,
                },
                would_block: old(self)@.would_block,
            }),
    {
        self.conn.mark_broken();
    }

    /// One poll: exactly the drain loop's step.
    pub fn poll_next(&mut self) -> (r: BridgePoll)
        requires
            bridge_wf(old(self)@),
        ensures
            r == bridge_step_result(old(self)@),
            final(self)@ == bridge_step_state(old(self)@),
            bridge_wf(final(self)@),
    {
        poll_conn(&mut self.conn, &mut self.would_block)
    }
}

/// Exactly the events a well-formed, unbroken bridge emits before it
/// suspends: repeated steps while they produce events.
pub open spec fn bridge_drain(v: BridgeView) -> Seq<RawEvent>
    decreases v.conn.socket.len(),
{
    match bridge_step_result(v) {
        BridgePoll::Event(e) => seq![e] + bridge_drain(bridge_step_state(v)),
        BridgePoll::Pending => Seq::empty(),
        BridgePoll::Fatal => Seq::empty(),
    }
}

/// The bridge's state once the drain has suspended.
pub open spec fn bridge_drain_state(v: BridgeView) -> BridgeView
    decreases v.conn.socket.len(),
{
    match bridge_step_result(v) {
        BridgePoll::Event(e) => bridge_drain_state(bridge_step_state(v)),
        BridgePoll::Pending => bridge_step_state(v),
        BridgePoll::Fatal => bridge_step_state(v),
    }
}

/// A single readiness notification is fully drained: from a well-formed,
/// unbroken bridge whose connection holds K buffered events, repeated polls
/// emit exactly those K events, in order, and then suspend back on
/// `WouldBlock` with the buffer empty.
pub proof fn lemma_bridge_drains_buffer(v: BridgeView)
    requires
        bridge_wf(v),
        !v.conn.broken,
    ensures
        bridge_drain(v) == v.conn.socket,
        bridge_drain_state(v).would_block,
        bridge_drain_state(v).conn.socket.len() == 0,
    decreases v.conn.socket.len(),
{
    if v.conn.socket.len() == 0 {
        assert(bridge_drain(v) =~= v.conn.socket);
    } else {
        let v2 = bridge_step_state(v);
        lemma_bridge_step_preserves_wf(v);
        lemma_bridge_drains_buffer(v2);
        assert(bridge_drain(v) =~= v.conn.socket);
    }
}

/// Missed-wakeup resistance: after a failed decode (empty buffer), an event
/// arrives, and only then is the readiness token acknowledged. The very next
/// poll — with no further readiness notification — still returns that event,
/// because the arrival's edge survives the acknowledgment.
pub proof fn lemma_missed_wakeup(c: ConnView, e: RawEvent)
    requires
        !c.broken,
        c.socket.len() == 0,
    ensures
        ({
            let arrived = ConnView { socket: c.socket.push(e), token: c.token, edge: true, broken: c.broken };
            let acked = ConnView {
                socket: arrived.socket,
                token: false,
                edge: arrived.edge,
                broken: arrived.broken,
            };
            let v = BridgeView { conn: acked, would_block: true };
            bridge_wf(v) && bridge_step_result(v) == BridgePoll::Event(e)
        }),
{
}

/// What one poll of the property-change filter produces.
#[derive(Clone, Copy, PartialEq, Eq, Structural, Debug)]
pub enum PulsePoll {
    /// Something in the interest set changed (or the synthetic initial
    /// pulse): the consumer should re-read the state it cares about.
    Pulse,
    /// Nothing relevant is available; the caller suspends.
    Pending,
    /// The underlying bridge failed fatally.
    Fatal,
}

/// A raw event the filter re-emits: a property-change notification whose
/// atom is in the interest set.
pub open spec fn event_matches(e: RawEvent, props: Seq<u32>) -> bool {
    e.response_type == PROPERTY_NOTIFY && props.contains(e.atom)
}

/// The position of the first matching event in a buffer, if any.
pub open spec fn find_match(s: Seq<RawEvent>, props: Seq<u32>) -> Option<int>
    decreases s.len(),
{
    if s.len() == 0 {
        None
    } else if event_matches(s[0], props) {
        Some(0int)
    } else {
        match find_match(s.skip(1), props) {
            None => None,
            Some(k) => Some(k + 1),
        }
    }
}

/// How many events of a buffer match the interest set.
pub open spec fn count_matches(s: Seq<RawEvent>, props: Seq<u32>) -> nat
    decreases s.len(),
{
    if s.len() == 0 {
        0
    } else {
        (if event_matches(s[0], props) {
            1nat
        } else {
            0nat
        }) + count_matches(s.skip(1), props)
    }
}

/// Where the first match sits, what stands before it does not match; where
/// there is none, nothing matches.
pub proof fn lemma_find_match_spec(s: Seq<RawEvent>, props: Seq<u32>)
    ensures
        match find_match(s, props) {
            Some(k) => 0 <= k < s.len() && event_matches(s[k], props) && (forall|i: int|
                0 <= i < k ==> !event_matches(s[i], props)),
            None => forall|i: int| 0 <= i < s.len() ==> !event_matches(s[i], props),
        },
    decreases s.len(),
{
    if s.len() == 0 {
    } else if event_matches(s[0], props) {
    } else {
        lemma_find_match_spec(s.skip(1), props);
        match find_match(s.skip(1), props) {
            None => {
                assert forall|i: int| 0 <= i < s.len() implies !event_matches(s[i], props) by {
                    if i > 0 {
                        assert(s.skip(1)[i - 1] == s[i]);
                    }
                }
            },
            Some(k) => {
                assert(s.skip(1)[k] == s[k + 1]);
                assert forall|i: int| 0 <= i < k + 1 implies !event_matches(s[i], props) by {
                    if i > 0 {
                        assert(s.skip(1)[i - 1] == s[i]);
                    }
                }
            },
        }
    }
}

/// Dropping everything up to and including the first match lowers the match
/// count by exactly one.
proof fn lemma_count_after_match(s: Seq<RawEvent>, props: Seq<u32>)
    requires
        find_match(s, props) is Some,
    ensures
        ({
            let k = find_match(s, props)->Some_0;
            count_matches(s, props) == 1 + count_matches(s.skip(k + 1), props)
        }),
    decreases s.len(),
{
    let k = find_match(s, props)->Some_0;
    lemma_find_match_spec(s, props);
    if event_matches(s[0], props) {
        assert(s.skip(0int + 1) == s.skip(1));
    } else {
        lemma_count_after_match(s.skip(1), props);
        let k2 = find_match(s.skip(1), props)->Some_0;
        assert(k == k2 + 1);
        assert(s.skip(1).skip(k2 + 1) =~= s.skip(k + 1));
    }
}

/// A buffer with no match has match count zero.
proof fn lemma_count_no_match(s: Seq<RawEvent>, props: Seq<u32>)
    requires
        find_match(s, props) is None,
    ensures
        count_matches(s, props) == 0,
    decreases s.len(),
{
    if s.len() > 0 {
        lemma_count_no_match(s.skip(1), props);
    }
}

/// The mathematical state of the property-change filter: whether the
/// synthetic initial pulse is still owed, the bridge it drains, and the
/// interest set.
pub ghost struct FilterView {
    pub first: bool,
    pub bridge: BridgeView,
    pub props: Seq<u32>,
}

/// What one poll of the filter over a well-formed bridge returns: the
/// synthetic pulse first; then one pulse per matching event, with
/// non-matching events consumed and discarded; a suspension once the buffer
/// is exhausted; the bridge's fatal failure wherever the wait primitive is
/// reached and fails.
pub open spec fn filter_step_result(f: FilterView) -> PulsePoll {
    if f.first {
        PulsePoll::Pulse
    } else if f.bridge.conn.broken && f.bridge.would_block {
        PulsePoll::Fatal
    } else if find_match(f.bridge.conn.socket, f.props) is Some {
        PulsePoll::Pulse
    } else if f.bridge.conn.broken {
        PulsePoll::Fatal
    } else {
        PulsePoll::Pending
    }
}

/// The filter's state after one poll over a well-formed bridge.
pub open spec fn filter_step_state(f: FilterView) -> FilterView {
    if f.first {
        FilterView { first: false, bridge: f.bridge, props: f.props }
    } else if f.bridge.conn.broken && f.bridge.would_block {
        f
    } else {
        match find_match(f.bridge.conn.socket, f.props) {
            Some(k) => FilterView {
                first: false,
                bridge: BridgeView {
                    would_block: false,
                    conn: ConnView {
                        socket: f.bridge.conn.socket.skip(k + 1),
                        token: true,
                        edge: if f.bridge.would_block {
                            false
                        } else {
                            f.bridge.conn.edge
                        },
                        broken: f.bridge.conn.broken,
                    },
                },
                props: f.props,
            },
            None => FilterView {
                first: false,
                bridge: BridgeView {
                    would_block: true,
                    conn: ConnView {
                        socket: Seq::empty(),
                        token: false,
                        edge: if f.bridge.conn.broken {
                            f.bridge.conn.edge
                        } else {
                            false
                        },
                        broken: f.bridge.conn.broken,
                    },
                },
                props: f.props,
            },
        }
    }
}

/// How many pulses the filter emits before it suspends or fails.
pub open spec fn filter_pulse_count(f: FilterView) -> nat
    decreases f.bridge.conn.socket.len() + (if f.first {
        1int
    } else {
        0int
    }),
    when bridge_wf(f.bridge)
    via filter_pulse_count_decreases
{
    match filter_step_result(f) {
        PulsePoll::Pulse => 1 + filter_pulse_count(filter_step_state(f)),
        PulsePoll::Pending => 0,
        PulsePoll::Fatal => 0,
    }
}

#[via_fn]
proof fn filter_pulse_count_decreases(f: FilterView) {
    if !f.first && !(f.bridge.conn.broken && f.bridge.would_block) {
        lemma_find_match_spec(f.bridge.conn.socket, f.props);
    }
}

/// Whether an atom is in the interest set.
fn contains_atom(props: &Vec<u32>, atom: u32) -> (b: bool)
    ensures
        b == props@.contains(atom),
{
    let mut i: usize = 0;
    while i < props.len()
        invariant
            0 <= i <= props.len(),
            forall|j: int| 0 <= j < i ==> props@[j] != atom,
        decreases props.len() - i,
    {
        if props[i] == atom {
            return true;
        }
        i += 1;
    }
    false
}

/// The property-change filter: consumes the raw event sequence and re-emits
/// one pulse per property-change notification whose atom is in the interest
/// set, plus one synthetic pulse immediately upon subscription; every other
/// raw event is consumed and discarded.
pub struct XcbPropertiesStream {
    first: bool,
    inner: XcbEventStream,
    props: Vec<u32>,
}

impl View for XcbPropertiesStream {
    type V = FilterView;

    closed spec fn view(&self) -> FilterView {
        FilterView { first: self.first, bridge: self.inner@, props: self.props@ }
    }
}

impl XcbPropertiesStream {
    /// Subscribes to the given interest set over the given event sequence;
    /// the synthetic initial pulse is owed.
    pub fn new(inner: XcbEventStream, props: Vec<u32>) -> (s: XcbPropertiesStream)
        ensures
            s@ == (FilterView { first: true, bridge: inner@, props: props@ }),
    {
        XcbPropertiesStream { first: true, inner, props }
    }

    /// The underlying connection.
    pub fn conn(&self) -> (c: &XConn)
        ensures
            c@ == self@.bridge.conn,
    {
        self.inner.conn()
    }

    /// An event arrives on the underlying connection.
    pub fn deliver_event(&mut self, e: RawEvent)
        ensures
            final(self)@ == (FilterView {
                first: old(self)@.first,
                bridge: BridgeView {
                    conn: ConnView {
                        socket: old(self)@.bridge.conn.socket.push(e),
                        token: old(self)@.bridge.conn.token,
                        edge: true,
                        broken: old(self)@.bridge.conn.broken,
                    },
                    would_block: old(self)@.bridge.would_block,
                },
                props: old(self)@.props,
            }),
    {
        self.inner.deliver_event(e);
    }

    /// The underlying connection's wait primitive starts failing.
    pub fn fail_connection(&mut self)
        ensures
            final(self)@ == (FilterView {
                first: old(self)@.first,
                bridge: BridgeView {
                    conn: ConnView {
                        socket: old(self)@.bridge.conn.socket,
                        token: old(self)@.bridge.conn.token,
                        edge: old(self)@.bridge.conn.edge,
                        broken: true,
                    },
                    would_block: old(self)@.bridge.would_block,
                },
                props: old(self)@.props,
            }),
    {
        self.inner.fail_connection();
    }

    /// One poll: the synthetic pulse first; otherwise keep draining the
    /// bridge, discarding non-matching events, until a matching event, a
    /// suspension or the fatal failure.
    pub fn poll_next(&mut self) -> (r: PulsePoll)
        requires
            bridge_wf(old(self)@.bridge),
        ensures
            r == filter_step_result(old(self)@),
            final(self)@ == filter_step_state(old(self)@),
            bridge_wf(final(self)@.bridge),
    {
        if self.first {
            self.first = false;
            return PulsePoll::Pulse;
        }
        let ghost f0 = self@;
        loop
            invariant
                f0 == old(self)@,
                !f0.first,
                !self@.first,
                self@.props == f0.props,
                bridge_wf(self@.bridge),
                filter_step_result(self@) == filter_step_result(f0),
                filter_step_state(self@) == filter_step_state(f0),
            decreases self@.bridge.conn.socket.len(),
        {
            let ghost pre = self@;
            match self.inner.poll_next() {
                BridgePoll::Fatal => {
                    proof {
                        if !(pre.bridge.conn.broken && pre.bridge.would_block) {
                            assert(pre.bridge.conn.socket =~= Seq::<RawEvent>::empty());
                        }
                    }
                    return PulsePoll::Fatal;
                },
                BridgePoll::Pending => {
                    proof {
                        assert(pre.bridge.conn.socket =~= Seq::<RawEvent>::empty());
                    }
                    return PulsePoll::Pending;
                },
                BridgePoll::Event(e) => {
                    let relevant = e.response_type == PROPERTY_NOTIFY && contains_atom(
                        &self.props,
                        e.atom,
                    );
                    if relevant {
                        return PulsePoll::Pulse;
                    }
                    proof {
                        let s = pre.bridge.conn.socket;
                        assert(!event_matches(s[0], pre.props));
                        if find_match(s.skip(1), pre.props) is Some {
                            let k2 = find_match(s.skip(1), pre.props)->Some_0;
                            lemma_find_match_spec(s.skip(1), pre.props);
                            assert(s.skip(1).skip(k2 + 1) =~= s.skip(k2 + 2));
                        }
                    }
                },
            }
        }
    }
}

/// The mathematical state of a [`BarEventStream`]: the bar it owns, and the
/// drain loop's `WouldBlock` flag.
pub ghost struct BarStreamView {
    pub bar: crate::bar::BarView,
    pub would_block: bool,
}

/// The bridge part of a bar event stream's state.
pub open spec fn bar_bridge(v: BarStreamView) -> BridgeView {
    BridgeView { conn: v.bar.conn, would_block: v.would_block }
}

/// The raw event sequence of the bar's own connection. It owns the bar, so
/// that drawing and draining the shared connection are serialized by
/// construction; the run loop reaches the bar through [`Self::bar_mut`].
pub struct BarEventStream {
    bar: crate::bar::Bar,
    would_block: bool,
}

impl View for BarEventStream {
    type V = BarStreamView;

    closed spec fn view(&self) -> BarStreamView {
        BarStreamView { bar: self.bar@, would_block: self.would_block }
    }
}

impl BarEventStream {
    /// Wraps the bar; the first poll must wait for readiness.
    pub fn new(bar: crate::bar::Bar) -> (s: BarEventStream)
        ensures
            s@ == (BarStreamView { bar: bar@, would_block: true }),
    {
        BarEventStream { bar, would_block: true }
    }

    /// The owned bar, read-only.
    pub fn bar(&self) -> (b: &crate::bar::Bar)
        ensures
            b@ == self@.bar,
    {
        &self.bar
    }

    /// Exclusive access to the owned bar, for the duration of one loop
    /// iteration; the `WouldBlock` flag is untouched while the borrow
    /// lives.
    pub fn bar_mut(&mut self) -> (b: &mut crate::bar::Bar)
        ensures
            b@ == old(self)@.bar,
            final(self)@ == (BarStreamView { bar: final(b)@, would_block: old(self)@.would_block }),
    {
        &mut self.bar
    }

    /// One poll of the drain loop over the bar's connection. Slots and
    /// position are untouched: only the connection and the `WouldBlock`
    /// flag step.
    pub fn poll_next(&mut self) -> (r: BridgePoll)
        requires
            bridge_wf(bar_bridge(old(self)@)),
        ensures
            r == bridge_step_result(bar_bridge(old(self)@)),
            bar_bridge(final(self)@) == bridge_step_state(bar_bridge(old(self)@)),
            bridge_wf(bar_bridge(final(self)@)),
            final(self)@.bar.position == old(self)@.bar.position,
            final(self)@.bar.slots == old(self)@.bar.slots,
    {
        let c = self.bar.conn_mut();
        poll_conn(c, &mut self.would_block)
    }
}

/// The raw event sequence narrowed to an interest set of atoms, over a fresh
/// connection. Resolving named properties to atoms and registering for the
/// notifications happen at the display-server boundary, outside this core;
/// the resolved atoms are taken here.
pub fn xcb_properties_stream(atoms: Vec<u32>) -> (s: XcbPropertiesStream)
    ensures
        s@ == (FilterView {
            first: true,
            bridge: BridgeView {
                conn: ConnView {
                    socket: Seq::<RawEvent>::empty(),
                    token: false,
                    edge: false,
                    broken: false,
                },
                would_block: true,
            },
            props: atoms@,
        }),
{
    let conn = XConn::new();
    let stream = XcbEventStream::new(conn);
    XcbPropertiesStream::new(stream, atoms)
}

/// The filter emits exactly one synthetic initial pulse, then exactly one
/// pulse per matching event in the buffer; non-matching events contribute
/// nothing.
pub proof fn lemma_filter_pulse_count(f: FilterView)
    requires
        bridge_wf(f.bridge),
        !f.bridge.conn.broken,
    ensures
        filter_pulse_count(f) == (if f.first {
            1nat
        } else {
            0nat
        }) + count_matches(f.bridge.conn.socket, f.props),
    decreases f.bridge.conn.socket.len() + (if f.first {
        1int
    } else {
        0int
    }),
{
    if f.first {
        lemma_filter_pulse_count(filter_step_state(f));
    } else {
        match find_match(f.bridge.conn.socket, f.props) {
            Some(k) => {
                lemma_find_match_spec(f.bridge.conn.socket, f.props);
                lemma_count_after_match(f.bridge.conn.socket, f.props);
                lemma_filter_pulse_count(filter_step_state(f));
            },
            None => {
                lemma_count_no_match(f.bridge.conn.socket, f.props);
            },
        }
    }
}

} // verus!

