//! Runtime core of a status bar: an ordered set of widget content producers
//! kept in sync with one render surface, together with a bridge that turns a
//! display-server connection's edge-triggered readiness into a pollable event
//! sequence, merged by a single-threaded cooperative run loop.

pub mod bar;
pub mod battery;
pub mod bridge;
pub mod clock;
pub mod digits;
pub mod disk;
pub mod mux;
pub mod pager;
pub mod text;
pub mod volume;
pub mod weather;
pub mod widget;

pub use bar::Position;
pub use digits::u64_to_string;
pub use text::pango_markup_render;
pub use text::pango_markup_single_render;

use vstd::prelude::*;

use crate::bar::Bar;
use crate::bar::BarView;
use crate::bridge::bar_bridge;
use crate::bridge::bridge_step_result;
use crate::bridge::bridge_step_state;
use crate::bridge::bridge_wf;
use crate::bridge::BarEventStream;
use crate::bridge::BarStreamView;
use crate::bridge::BridgePoll;
use crate::bridge::BridgeView;
use crate::bridge::ConnView;
use crate::bridge::RawEvent;
use crate::mux::first_ready;
use crate::mux::project;
use crate::mux::lemma_first_ready_spec;
use crate::mux::lemma_total_queued_none;
use crate::mux::lemma_total_queued_pop;
use crate::mux::mux_wf;
use crate::mux::total_queued;
use crate::mux::Mux;
use crate::mux::MuxView;
use crate::text::TextView;
use crate::widget::UpdateView;
use crate::widget::WidgetError;
use crate::widget::WidgetUpdate;

verus! {

/// The content the most recent successful emission for source `i` carried;
/// `init` where there has been none.
pub open spec fn last_content(
    emitted: Seq<(int, UpdateView)>,
    i: int,
    init: Seq<TextView>,
) -> Seq<TextView>
    decreases emitted.len(),
{
    if emitted.len() == 0 {
        init
    } else if emitted.last().0 == i && emitted.last().1 is Ok {
        emitted.last().1->Ok_0
    } else {
        last_content(emitted.drop_last(), i, init)
    }
}

/// One more emission changes a slot's latest content exactly when it is a
/// success for that slot.
pub proof fn lemma_last_content_push(
    emitted: Seq<(int, UpdateView)>,
    p: (int, UpdateView),
    i: int,
    init: Seq<TextView>,
)
    ensures
        last_content(emitted.push(p), i, init) == if p.0 == i && p.1 is Ok {
            p.1->Ok_0
        } else {
            last_content(emitted, i, init)
        },
{
    assert(emitted.push(p).drop_last() =~= emitted);
}

/// A source that never emitted keeps the initial content.
pub proof fn lemma_last_content_absent(
    emitted: Seq<(int, UpdateView)>,
    i: int,
    init: Seq<TextView>,
)
    requires
        forall|j: int| 0 <= j < emitted.len() ==> (#[trigger] emitted[j]).0 != i,
    ensures
        last_content(emitted, i, init) == init,
    decreases emitted.len(),
{
    if emitted.len() > 0 {
        lemma_last_content_absent(emitted.drop_last(), i, init);
    }
}

/// The mathematical state of the whole run loop: the bar event stream (bar
/// plus drain flag) and the multiplexer.
pub ghost struct CnxView {
    pub events: BarStreamView,
    pub mux: MuxView,
}

/// The bridge part of the run loop's state.
pub open spec fn cnx_bridge(v: CnxView) -> BridgeView {
    bar_bridge(v.events)
}

/// The run loop's invariant: the multiplexer is well formed, its source
/// indices match the bar's slots one for one, the bridge is well formed, and
/// every slot holds exactly the content of the most recent successful update
/// emitted for it (empty before the first).
pub open spec fn cnx_wf(v: CnxView) -> bool {
    &&& mux_wf(v.mux)
    &&& v.mux.queues.len() == v.events.bar.slots.len()
    &&& bridge_wf(cnx_bridge(v))
    &&& forall|i: int|
        0 <= i < v.events.bar.slots.len() ==> #[trigger] v.events.bar.slots[i] == last_content(
            v.mux.emitted,
            i,
            Seq::empty(),
        )
}

/// The one unrecoverable condition: the display connection's wait primitive
/// failed, so the bar cannot function.
#[derive(Clone, Copy, PartialEq, Eq, Structural, Debug)]
pub enum CnxError {
    BridgeFatal,
}

/// What one iteration of the run loop did.
#[derive(Clone, Copy, PartialEq, Eq, Structural, Debug)]
pub enum LoopStep {
    /// A raw display-server event was handed to the bar.
    HandledEvent(RawEvent),
    /// A widget's successful update was applied to its slot.
    UpdatedSlot(usize),
    /// A widget produced a failure: reported, slot kept stale content.
    WidgetFailed(usize, WidgetError),
    /// Neither arm had anything ready: the loop would block.
    Idle,
    /// The bridge failed fatally: the loop must terminate.
    Fatal,
}

/// The top-level scheduler: owns the bar (through the event stream) and the
/// multiplexer, and interleaves display-server events with widget updates
/// without starving either.
pub struct Cnx {
    events: BarEventStream,
    mux: Mux,
}

impl View for Cnx {
    type V = CnxView;

    closed spec fn view(&self) -> CnxView {
        CnxView { events: self.events@, mux: self.mux@ }
    }
}

impl Cnx {
    /// A run loop over a fresh bar with no widgets yet.
    pub fn new(position: Position) -> (c: Cnx)
        ensures
            cnx_wf(c@),
            c@ == (CnxView {
                events: BarStreamView {
                    bar: BarView {
                        conn: ConnView {
                            socket: Seq::<RawEvent>::empty(),
                            token: false,
                            edge: false,
                            broken: false,
                        },
                        position,
                        slots: Seq::<Seq<TextView>>::empty(),
                    },
                    would_block: true,
                },
                mux: MuxView {
                    queues: Seq::<Seq<UpdateView>>::empty(),
                    done: Seq::<bool>::empty(),
                    produced: Seq::<Seq<UpdateView>>::empty(),
                    emitted: Seq::<(int, UpdateView)>::empty(),
                },
            }),
    {
        let bar = Bar::new(position);
        Cnx { events: BarEventStream::new(bar), mux: Mux::new() }
    }

    /// Registers one widget: one slot on the bar (initially empty) and one
    /// source in the multiplexer, sharing the same dense, stable index.
    pub fn add_widget(&mut self) -> (idx: usize)
        requires
            cnx_wf(old(self)@),
        ensures
            cnx_wf(final(self)@),
            idx == old(self)@.mux.queues.len(),
            final(self)@.mux.queues == old(self)@.mux.queues.push(Seq::<UpdateView>::empty()),
            final(self)@.mux.produced == old(self)@.mux.produced.push(Seq::<UpdateView>::empty()),
            final(self)@.mux.done == old(self)@.mux.done.push(false),
            final(self)@.mux.emitted == old(self)@.mux.emitted,
            final(self)@.events.bar.slots == old(self)@.events.bar.slots.push(
                Seq::<TextView>::empty(),
            ),
            cnx_bridge(final(self)@) == cnx_bridge(old(self)@),
            final(self)@.events.bar.position == old(self)@.events.bar.position,
    {
        let content: Vec<crate::text::Text> = Vec::new();
        proof {
            assert(content.deep_view() =~= Seq::<TextView>::empty());
        }
        let r = self.events.bar_mut().add_content(content);
        let idx = self.mux.add_source();
        proof {
            assert forall|i: int|
                0 <= i < self@.events.bar.slots.len() implies #[trigger] self@.events.bar.slots[i]
                == last_content(self@.mux.emitted, i, Seq::empty()) by {
                if i < idx {
                    assert(old(self)@.events.bar.slots[i] == last_content(
                        old(self)@.mux.emitted,
                        i,
                        Seq::empty(),
                    ));
                } else {
                    assert forall|j: int|
                        0 <= j < self@.mux.emitted.len() implies (#[trigger] self@.mux.emitted[j]).0
                        != i by {
                        assert(0 <= (old(self)@.mux.emitted[j]).0 < old(self)@.mux.queues.len());
                    }
                    lemma_last_content_absent(self@.mux.emitted, i, Seq::empty());
                }
            }
        }
        let _ = r;
        idx
    }

    /// How many widgets are registered.
    pub fn widget_count(&self) -> (n: usize)
        ensures
            n == self@.mux.queues.len(),
    {
        self.mux.len()
    }

    /// The bar, read-only.
    pub fn bar(&self) -> (b: &Bar)
        ensures
            b@ == self@.events.bar,
    {
        self.events.bar()
    }

    /// Widget `idx` produced one update; it queues behind the widget's
    /// earlier ones, so per-widget order is preserved.
    pub fn deliver_update(&mut self, idx: usize, u: WidgetUpdate)
        requires
            cnx_wf(old(self)@),
            idx < old(self)@.mux.queues.len(),
            !old(self)@.mux.done[idx as int],
        ensures
            cnx_wf(final(self)@),
            final(self)@.mux.queues == old(self)@.mux.queues.update(
                idx as int,
                old(self)@.mux.queues[idx as int].push(crate::widget::update_view(u)),
            ),
            final(self)@.mux.produced == old(self)@.mux.produced.update(
                idx as int,
                old(self)@.mux.produced[idx as int].push(crate::widget::update_view(u)),
            ),
            final(self)@.mux.done == old(self)@.mux.done,
            final(self)@.mux.emitted == old(self)@.mux.emitted,
            final(self)@.events == old(self)@.events,
    {
        self.mux.push_production(idx, u);
    }

    /// Widget `idx`'s production sequence has ended permanently: the source
    /// leaves the active set; the merge itself goes on, and the slot keeps
    /// its stale content.
    pub fn close_widget(&mut self, idx: usize)
        requires
            cnx_wf(old(self)@),
            idx < old(self)@.mux.queues.len(),
        ensures
            cnx_wf(final(self)@),
            final(self)@.mux.done == old(self)@.mux.done.update(idx as int, true),
            final(self)@.mux.queues == old(self)@.mux.queues,
            final(self)@.mux.produced == old(self)@.mux.produced,
            final(self)@.mux.emitted == old(self)@.mux.emitted,
            final(self)@.events == old(self)@.events,
    {
        self.mux.close_source(idx);
    }

    /// A raw event arrives on the display connection.
    pub fn deliver_event(&mut self, e: RawEvent)
        requires
            cnx_wf(old(self)@),
        ensures
            cnx_wf(final(self)@),
            final(self)@.mux == old(self)@.mux,
            final(self)@.events.bar.slots == old(self)@.events.bar.slots,
            final(self)@.events.bar.position == old(self)@.events.bar.position,
            final(self)@.events.would_block == old(self)@.events.would_block,
            final(self)@.events.bar.conn == (ConnView {
                socket: old(self)@.events.bar.conn.socket.push(e),
                token: old(self)@.events.bar.conn.token,
                edge: true,
                broken: old(self)@.events.bar.conn.broken,
            }),
    {
        self.events.bar_mut().deliver_event(e);
    }

    /// The display connection's wait primitive starts failing.
    pub fn fail_connection(&mut self)
        requires
            cnx_wf(old(self)@),
        ensures
            cnx_wf(final(self)@),
            final(self)@.mux == old(self)@.mux,
            final(self)@.events.bar.slots == old(self)@.events.bar.slots,
            final(self)@.events.bar.position == old(self)@.events.bar.position,
            final(self)@.events.would_block == old(self)@.events.would_block,
            final(self)@.events.bar.conn == (ConnView {
                socket: old(self)@.events.bar.conn.socket,
                token: old(self)@.events.bar.conn.token,
                edge: old(self)@.events.bar.conn.edge,
                broken: true,
            }),
    {
        self.events.bar_mut().fail_connection();
    }

    /// One iteration of the scheduler: the display-server arm first; when it
    /// would block, the widget arm; when both would block, the loop is idle
    /// and would suspend. Widget failures are reported through the result
    /// and leave the slot's stale content in place; only the bridge's fatal
    /// failure ends the loop.
    pub fn run_step(&mut self) -> (r: LoopStep)
        requires
            cnx_wf(old(self)@),
        ensures
            cnx_wf(final(self)@),
            final(self)@.mux.produced == old(self)@.mux.produced,
            final(self)@.mux.done == old(self)@.mux.done,
            final(self)@.events.bar.position == old(self)@.events.bar.position,
            ({
                let bv0 = cnx_bridge(old(self)@);
                match bridge_step_result(bv0) {
                    BridgePoll::Fatal => r == LoopStep::Fatal && final(self)@.events.bar.slots
                        == old(self)@.events.bar.slots && final(self)@.mux == old(self)@.mux
                        && cnx_bridge(final(self)@) == bridge_step_state(bv0),
                    BridgePoll::Event(e) => r == LoopStep::HandledEvent(e)
                        && final(self)@.events.bar.slots == old(self)@.events.bar.slots && final(self)@.mux == old(self)@.mux && cnx_bridge(final(self)@) == bridge_step_state(bv0),
                    BridgePoll::Pending => cnx_bridge(final(self)@) == bridge_step_state(bv0)
                        && match first_ready(old(self)@.mux.queues) {
                        None => r == LoopStep::Idle && final(self)@.mux == old(self)@.mux && final(self)@.events.bar.slots == old(self)@.events.bar.slots,
                        Some(i) => {
                            let u = old(self)@.mux.queues[i][0];
                            &&& final(self)@.mux.queues == old(self)@.mux.queues.update(
                                i,
                                old(self)@.mux.queues[i].skip(1),
                            )
                            &&& final(self)@.mux.emitted == old(self)@.mux.emitted.push((i, u))
                            &&& match u {
                                Ok(texts) => r == LoopStep::UpdatedSlot(i as usize) && final(self)@.events.bar.slots == old(self)@.events.bar.slots.update(i, texts),
                                Err(e) => r == LoopStep::WidgetFailed(i as usize, e) && final(self)@.events.bar.slots == old(self)@.events.bar.slots,
                            }
                        },
                    },
                }
            }),
    {
        match self.events.poll_next() {
            BridgePoll::Fatal => LoopStep::Fatal,
            BridgePoll::Event(e) => {
                let r = self.events.bar_mut().process_event(e);
                let _ = r;
                LoopStep::HandledEvent(e)
            },
            BridgePoll::Pending => {
                proof {
                    lemma_first_ready_spec(old(self)@.mux.queues);
                }
                match self.mux.poll() {
                    None => LoopStep::Idle,
                    Some((idx, Ok(texts))) => {
                        let ghost mid = self@;
                        let r = self.events.bar_mut().update_content(idx, texts);
                        let _ = r;
                        proof {
                            let i = idx as int;
                            let u = old(self)@.mux.queues[i][0];
                            assert forall|k: int|
                                0 <= k < self@.events.bar.slots.len() implies #[trigger] self@.events.bar.slots[k]
                                == last_content(self@.mux.emitted, k, Seq::empty()) by {
                                lemma_last_content_push(
                                    old(self)@.mux.emitted,
                                    (i, u),
                                    k,
                                    Seq::empty(),
                                );
                                assert(old(self)@.events.bar.slots[k] == last_content(
                                    old(self)@.mux.emitted,
                                    k,
                                    Seq::empty(),
                                ));
                            }
                        }
                        LoopStep::UpdatedSlot(idx)
                    },
                    Some((idx, Err(e))) => {
                        proof {
                            let i = idx as int;
                            let u = old(self)@.mux.queues[i][0];
                            assert forall|k: int|
                                0 <= k < self@.events.bar.slots.len() implies #[trigger] self@.events.bar.slots[k]
                                == last_content(self@.mux.emitted, k, Seq::empty()) by {
                                lemma_last_content_push(
                                    old(self)@.mux.emitted,
                                    (i, u),
                                    k,
                                    Seq::empty(),
                                );
                                assert(old(self)@.events.bar.slots[k] == last_content(
                                    old(self)@.mux.emitted,
                                    k,
                                    Seq::empty(),
                                ));
                            }
                        }
                        LoopStep::WidgetFailed(idx, e)
                    },
                }
            },
        }
    }

    /// Runs the scheduler until both arms would block (`Ok`) or the bridge
    /// fails fatally (`Err`). The real loop then suspends and is woken by
    /// the next arrival; a fatal failure terminates the process, and nothing
    /// is polled or updated after it.
    pub fn run(&mut self) -> (r: Result<(), CnxError>)
        requires
            cnx_wf(old(self)@),
        ensures
            cnx_wf(final(self)@),
            final(self)@.mux.produced == old(self)@.mux.produced,
            final(self)@.mux.done == old(self)@.mux.done,
            final(self)@.events.bar.position == old(self)@.events.bar.position,
            cnx_bridge(final(self)@).conn.broken == cnx_bridge(old(self)@).conn.broken,
            r is Err <==> cnx_bridge(old(self)@).conn.broken,
            r is Err ==> r == Err::<(), CnxError>(CnxError::BridgeFatal),
            r is Err ==> final(self)@.mux == old(self)@.mux && final(self)@.events.bar.slots == old(
                self,
            )@.events.bar.slots,
            r is Ok ==> first_ready(final(self)@.mux.queues) is None && cnx_bridge(
                final(self)@,
            ).conn.socket.len() == 0 && final(self)@.events.would_block,
    {
        loop
            invariant
                cnx_wf(self@),
                self@.mux.produced == old(self)@.mux.produced,
                self@.mux.done == old(self)@.mux.done,
                self@.events.bar.position == old(self)@.events.bar.position,
                cnx_bridge(self@).conn.broken == cnx_bridge(old(self)@).conn.broken,
                cnx_bridge(old(self)@).conn.broken ==> self@.mux == old(self)@.mux
                    && self@.events.bar.slots == old(self)@.events.bar.slots,
            decreases total_queued(self@.mux.queues) + cnx_bridge(self@).conn.socket.len(),
        {
            let ghost pre = self@;
            match self.run_step() {
                LoopStep::Fatal => {
                    return Err(CnxError::BridgeFatal);
                },
                LoopStep::Idle => {
                    proof {
                        lemma_total_queued_none(self@.mux.queues);
                    }
                    return Ok(());
                },
                LoopStep::HandledEvent(_) => {
                },
                LoopStep::UpdatedSlot(_) => {
                    proof {
                        let i = first_ready(pre.mux.queues)->Some_0;
                        lemma_first_ready_spec(pre.mux.queues);
                        lemma_total_queued_pop(pre.mux.queues, i);
                    }
                },
                LoopStep::WidgetFailed(_, _) => {
                    proof {
                        let i = first_ready(pre.mux.queues)->Some_0;
                        lemma_first_ready_spec(pre.mux.queues);
                        lemma_total_queued_pop(pre.mux.queues, i);
                    }
                },
            }
        }
    }
}

/// The content the most recent successful update in a sequence carried;
/// `init` where there has been none.
pub open spec fn latest_ok(updates: Seq<UpdateView>, init: Seq<TextView>) -> Seq<TextView>
    decreases updates.len(),
{
    if updates.len() == 0 {
        init
    } else if updates.last() is Ok {
        updates.last()->Ok_0
    } else {
        latest_ok(updates.drop_last(), init)
    }
}

/// The latest content for one source, read off the full emission history,
/// equals the latest success among that source's own emissions alone.
proof fn lemma_last_content_is_latest_ok(
    emitted: Seq<(int, UpdateView)>,
    i: int,
    init: Seq<TextView>,
)
    ensures
        last_content(emitted, i, init) == latest_ok(project(emitted, i), init),
    decreases emitted.len(),
{
    if emitted.len() > 0 {
        let rest = emitted.drop_last();
        lemma_last_content_is_latest_ok(rest, i, init);
        if emitted.last().0 == i {
            assert(project(rest, i).push(emitted.last().1).drop_last() =~= project(rest, i));
        }
    }
}

/// What [`cnx_wf`] maintains, stated on its own: at every reachable state,
/// each slot's content equals the most recent successful production emitted
/// for its own widget — and, by [`Mux::lemma_per_source_order`], the
/// emissions for a widget are exactly a prefix of its own production order —
/// regardless of how updates from different widgets interleaved (empty
/// before the first success).
pub proof fn lemma_slot_shows_latest_success(v: CnxView, i: int)
    requires
        cnx_wf(v),
        0 <= i < v.events.bar.slots.len(),
    ensures
        v.events.bar.slots[i] == last_content(v.mux.emitted, i, Seq::empty()),
        v.events.bar.slots[i] == latest_ok(project(v.mux.emitted, i), Seq::empty()),
        project(v.mux.emitted, i) == v.mux.produced[i].take(
            v.mux.produced[i].len() - v.mux.queues[i].len(),
        ),
{
    lemma_last_content_is_latest_ok(v.mux.emitted, i, Seq::empty());
    Mux::lemma_per_source_order(v.mux, i);
}

} // verus!
