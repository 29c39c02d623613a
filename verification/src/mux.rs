//! The stream multiplexer: a fan-in of N independently-paced widget
//! production sequences into one sequence of `(index, update)` pairs. No
//! ordering is promised across indices; each index's own order is preserved
//! exactly — nothing is dropped, duplicated or reordered within a source.

use vstd::prelude::*;

use crate::widget::update_view;
use crate::widget::UpdateView;
use crate::widget::WidgetUpdate;

verus! {

/// The mathematical state of the multiplexer: per source, the updates
/// produced but not yet emitted (`queues`), whether the source has ended
/// permanently (`done`), and — as history — everything each source ever
/// produced and everything the multiplexer ever emitted.
pub ghost struct MuxView {
    pub queues: Seq<Seq<UpdateView>>,
    pub done: Seq<bool>,
    pub produced: Seq<Seq<UpdateView>>,
    pub emitted: Seq<(int, UpdateView)>,
}

/// The emitted pairs restricted to one source index, in emission order.
pub open spec fn project(s: Seq<(int, UpdateView)>, i: int) -> Seq<UpdateView>
    decreases s.len(),
{
    if s.len() == 0 {
        Seq::empty()
    } else {
        let rest = project(s.drop_last(), i);
        if s.last().0 == i {
            rest.push(s.last().1)
        } else {
            rest
        }
    }
}

/// Appending one pair extends exactly that pair's projection.
pub proof fn lemma_project_push(s: Seq<(int, UpdateView)>, p: (int, UpdateView), i: int)
    ensures
        project(s.push(p), i) == if p.0 == i {
            project(s, i).push(p.1)
        } else {
            project(s, i)
        },
{
    assert(s.push(p).drop_last() =~= s);
}

/// A source index that occurs nowhere has an empty projection.
pub proof fn lemma_project_absent(s: Seq<(int, UpdateView)>, i: int)
    requires
        forall|j: int| 0 <= j < s.len() ==> (#[trigger] s[j]).0 != i,
    ensures
        project(s, i) == Seq::<UpdateView>::empty(),
    decreases s.len(),
{
    if s.len() > 0 {
        lemma_project_absent(s.drop_last(), i);
    }
}

/// The multiplexer's invariant: the three per-source sequences agree in
/// length, every emitted pair names a registered source, and — the heart of
/// the fan-in — what was emitted for a source, followed by what still waits
/// in its queue, is exactly what that source produced, in order.
pub open spec fn mux_wf(m: MuxView) -> bool {
    &&& m.done.len() == m.queues.len()
    &&& m.produced.len() == m.queues.len()
    &&& forall|j: int| 0 <= j < m.emitted.len() ==> 0 <= (#[trigger] m.emitted[j]).0
        < m.queues.len()
    &&& forall|i: int|
        0 <= i < m.queues.len() ==> project(m.emitted, i) + m.queues[i] == #[trigger] m.produced[i]
}

/// The first source with a ready update, scanning from index zero.
pub open spec fn first_ready(qs: Seq<Seq<UpdateView>>) -> Option<int>
    decreases qs.len(),
{
    if qs.len() == 0 {
        None
    } else if qs[0].len() > 0 {
        Some(0int)
    } else {
        match first_ready(qs.skip(1)) {
            None => None,
            Some(k) => Some(k + 1),
        }
    }
}

/// Where the first ready source sits, everything before it is empty; where
/// there is none, every queue is empty.
pub proof fn lemma_first_ready_spec(qs: Seq<Seq<UpdateView>>)
    ensures
        match first_ready(qs) {
            Some(k) => 0 <= k < qs.len() && qs[k].len() > 0 && (forall|j: int|
                0 <= j < k ==> (#[trigger] qs[j]).len() == 0),
            None => forall|j: int| 0 <= j < qs.len() ==> (#[trigger] qs[j]).len() == 0,
        },
    decreases qs.len(),
{
    if qs.len() == 0 {
    } else if qs[0].len() > 0 {
    } else {
        lemma_first_ready_spec(qs.skip(1));
        match first_ready(qs.skip(1)) {
            None => {
                assert forall|j: int| 0 <= j < qs.len() implies (#[trigger] qs[j]).len() == 0 by {
                    if j > 0 {
                        assert(qs.skip(1)[j - 1] == qs[j]);
                    }
                }
            },
            Some(k) => {
                assert(qs.skip(1)[k] == qs[k + 1]);
                assert forall|j: int| 0 <= j < k + 1 implies (#[trigger] qs[j]).len() == 0 by {
                    if j > 0 {
                        assert(qs.skip(1)[j - 1] == qs[j]);
                    }
                }
            },
        }
    }
}

/// How many updates wait across all pending queues.
pub open spec fn total_queued(qs: Seq<Seq<UpdateView>>) -> nat
    decreases qs.len(),
{
    if qs.len() == 0 {
        0
    } else {
        qs[0].len() + total_queued(qs.skip(1))
    }
}

/// Emitting one waiting update lowers the total by exactly one.
pub proof fn lemma_total_queued_pop(qs: Seq<Seq<UpdateView>>, i: int)
    requires
        0 <= i < qs.len(),
        qs[i].len() > 0,
    ensures
        total_queued(qs.update(i, qs[i].skip(1))) + 1 == total_queued(qs),
    decreases qs.len(),
{
    let qs2 = qs.update(i, qs[i].skip(1));
    if i == 0 {
        assert(qs2.skip(1) =~= qs.skip(1));
    } else {
        assert(qs.skip(1)[i - 1] == qs[i]);
        lemma_total_queued_pop(qs.skip(1), i - 1);
        assert(qs2.skip(1) =~= qs.skip(1).update(i - 1, qs.skip(1)[i - 1].skip(1)));
        assert(qs2[0] == qs[0]);
    }
}

/// With no source ready, nothing waits anywhere.
pub proof fn lemma_total_queued_none(qs: Seq<Seq<UpdateView>>)
    requires
        first_ready(qs) is None,
    ensures
        total_queued(qs) == 0,
    decreases qs.len(),
{
    if qs.len() > 0 {
        lemma_total_queued_none(qs.skip(1));
    }
}

/// The view of one source's pending queue.
pub open spec fn queue_view(q: Seq<WidgetUpdate>) -> Seq<UpdateView> {
    q.map_values(|u: WidgetUpdate| update_view(u))
}

/// The view of all pending queues.
pub open spec fn queues_view(qs: Seq<Vec<WidgetUpdate>>) -> Seq<Seq<UpdateView>> {
    qs.map_values(|q: Vec<WidgetUpdate>| queue_view(q@))
}

/// The stream multiplexer. Sources are registered up front and addressed by
/// a dense, stable index; productions enter per source and leave as
/// `(index, update)` pairs in whatever cross-source order they became
/// ready.
pub struct Mux {
    queues: Vec<Vec<WidgetUpdate>>,
    done: Vec<bool>,
    produced: Ghost<Seq<Seq<UpdateView>>>,
    emitted: Ghost<Seq<(int, UpdateView)>>,
}

impl View for Mux {
    type V = MuxView;

    closed spec fn view(&self) -> MuxView {
        MuxView {
            queues: queues_view(self.queues@),
            done: self.done@,
            produced: self.produced@,
            emitted: self.emitted@,
        }
    }
}

impl Mux {
    /// A multiplexer with no sources yet.
    pub fn new() -> (m: Mux)
        ensures
            m@ == (MuxView {
                queues: Seq::<Seq<UpdateView>>::empty(),
                done: Seq::<bool>::empty(),
                produced: Seq::<Seq<UpdateView>>::empty(),
                emitted: Seq::<(int, UpdateView)>::empty(),
            }),
            mux_wf(m@),
    {
        let m = Mux {
            queues: Vec::new(),
            done: Vec::new(),
            produced: Ghost(Seq::empty()),
            emitted: Ghost(Seq::empty()),
        };
        proof {
            assert(queues_view(m.queues@) =~= Seq::<Seq<UpdateView>>::empty());
        }
        m
    }

    /// How many sources are registered.
    pub fn len(&self) -> (n: usize)
        ensures
            n == self@.queues.len(),
    {
        self.queues.len()
    }

    /// Registers one more source; its index is dense and stable.
    pub fn add_source(&mut self) -> (idx: usize)
        requires
            mux_wf(old(self)@),
        ensures
            mux_wf(final(self)@),
            idx == old(self)@.queues.len(),
            final(self)@.queues == old(self)@.queues.push(Seq::<UpdateView>::empty()),
            final(self)@.done == old(self)@.done.push(false),
            final(self)@.produced == old(self)@.produced.push(Seq::<UpdateView>::empty()),
            final(self)@.emitted == old(self)@.emitted,
    {
        let idx = self.queues.len();
        self.queues.push(Vec::new());
        self.done.push(false);
        proof {
            self.produced@ = self.produced@.push(Seq::empty());
            assert(queues_view(self.queues@) =~~= queues_view(old(self).queues@).push(
                Seq::<UpdateView>::empty(),
            ));
            assert forall|j: int| 0 <= j < self@.emitted.len() implies (#[trigger] self@.emitted[j]).0
                != idx as int by {
                assert(0 <= (old(self)@.emitted[j]).0 < old(self)@.queues.len());
            }
            lemma_project_absent(self@.emitted, idx as int);
            assert forall|i: int|
                0 <= i < self@.queues.len() implies project(self@.emitted, i) + self@.queues[i]
                == #[trigger] self@.produced[i] by {
                if i < idx {
                    assert(project(old(self)@.emitted, i) + old(self)@.queues[i] == old(
                        self,
                    )@.produced[i]);
                } else {
                    assert(project(self@.emitted, i) + self@.queues[i]
                        =~= Seq::<UpdateView>::empty());
                }
            }
            assert forall|j: int| 0 <= j < self@.emitted.len() implies 0 <= (
            #[trigger] self@.emitted[j]).0 < self@.queues.len() by {
                assert(0 <= (old(self)@.emitted[j]).0 < old(self)@.queues.len());
            }
        }
        idx
    }

    /// Source `idx` produced one more update: it queues behind everything
    /// the source produced before.
    pub fn push_production(&mut self, idx: usize, u: WidgetUpdate)
        requires
            mux_wf(old(self)@),
            idx < old(self)@.queues.len(),
            !old(self)@.done[idx as int],
        ensures
            mux_wf(final(self)@),
            final(self)@.queues == old(self)@.queues.update(
                idx as int,
                old(self)@.queues[idx as int].push(update_view(u)),
            ),
            final(self)@.produced == old(self)@.produced.update(
                idx as int,
                old(self)@.produced[idx as int].push(update_view(u)),
            ),
            final(self)@.done == old(self)@.done,
            final(self)@.emitted == old(self)@.emitted,
    {
        let ghost uv = update_view(u);
        self.queues[idx].push(u);
        proof {
            self.produced@ = self.produced@.update(
                idx as int,
                self.produced@[idx as int].push(uv),
            );
            assert(queues_view(self.queues@) =~~= queues_view(old(self).queues@).update(
                idx as int,
                queues_view(old(self).queues@)[idx as int].push(uv),
            ));
            assert forall|i: int| 0 <= i < self@.queues.len() implies project(self@.emitted, i)
                + self@.queues[i] == #[trigger] self@.produced[i] by {
                assert(project(old(self)@.emitted, i) + old(self)@.queues[i] == old(
                    self,
                )@.produced[i]);
                if i == idx {
                    assert(project(self@.emitted, i) + (old(self)@.queues[i].push(uv)) =~= (
                    project(self@.emitted, i) + old(self)@.queues[i]).push(uv));
                }
            }
            assert forall|j: int| 0 <= j < self@.emitted.len() implies 0 <= (
            #[trigger] self@.emitted[j]).0 < self@.queues.len() by {
                assert(0 <= (old(self)@.emitted[j]).0 < old(self)@.queues.len());
            }
        }
    }

    /// Source `idx` has ended permanently: it leaves the active set; the
    /// merge itself goes on.
    pub fn close_source(&mut self, idx: usize)
        requires
            mux_wf(old(self)@),
            idx < old(self)@.queues.len(),
        ensures
            mux_wf(final(self)@),
            final(self)@.done == old(self)@.done.update(idx as int, true),
            final(self)@.queues == old(self)@.queues,
            final(self)@.produced == old(self)@.produced,
            final(self)@.emitted == old(self)@.emitted,
    {
        self.done[idx] = true;
        proof {
            assert forall|i: int|
                0 <= i < self@.queues.len() implies project(self@.emitted, i) + self@.queues[i]
                == #[trigger] self@.produced[i] by {
                assert(project(old(self)@.emitted, i) + old(self)@.queues[i] == old(
                    self,
                )@.produced[i]);
            }
            assert forall|j: int| 0 <= j < self@.emitted.len() implies 0 <= (
            #[trigger] self@.emitted[j]).0 < self@.queues.len() by {
                assert(0 <= (old(self)@.emitted[j]).0 < old(self)@.queues.len());
            }
        }
    }

    /// One scheduling step: the first source with a ready update emits it;
    /// with none ready, nothing changes and the merge would block.
    pub fn poll(&mut self) -> (r: Option<(usize, WidgetUpdate)>)
        requires
            mux_wf(old(self)@),
        ensures
            mux_wf(final(self)@),
            final(self)@.done == old(self)@.done,
            final(self)@.produced == old(self)@.produced,
            match first_ready(old(self)@.queues) {
                None => r is None && final(self)@ == old(self)@,
                Some(i) => {
                    &&& r is Some
                    &&& (r->Some_0).0 == i
                    &&& update_view((r->Some_0).1) == old(self)@.queues[i][0]
                    &&& final(self)@.queues == old(self)@.queues.update(
                        i,
                        old(self)@.queues[i].skip(1),
                    )
                    &&& final(self)@.emitted == old(self)@.emitted.push(
                        (i, old(self)@.queues[i][0]),
                    )
                },
            },
    {
        let ghost qs0 = self@.queues;
        let mut i: usize = 0;
        while i < self.queues.len()
            invariant
                mux_wf(self@),
                self@ == old(self)@,
                qs0 == self@.queues,
                0 <= i <= self.queues.len(),
                forall|j: int| 0 <= j < i ==> (#[trigger] qs0[j]).len() == 0,
            decreases self.queues.len() - i,
        {
            if self.queues[i].len() > 0 {
                let ghost q0 = self.queues@[i as int]@;
                let u = self.queues[i].remove(0);
                let ghost uv = qs0[i as int][0];
                proof {
                    lemma_first_ready_spec(qs0);
                    assert(first_ready(qs0) == Some(i as int));
                    self.emitted@ = self.emitted@.push((i as int, uv));
                    assert(q0.remove(0) =~= q0.skip(1));
                    assert(queues_view(self.queues@) =~~= qs0.update(i as int, qs0[i as int].skip(1)));
                    assert forall|k: int| 0 <= k < self@.queues.len() implies project(
                        self@.emitted,
                        k,
                    ) + self@.queues[k] == #[trigger] self@.produced[k] by {
                        assert(project(old(self)@.emitted, k) + old(self)@.queues[k] == old(
                            self,
                        )@.produced[k]);
                        lemma_project_push(old(self)@.emitted, (i as int, uv), k);
                        if k == i as int {
                            assert(qs0[k] =~= seq![qs0[k][0]] + qs0[k].skip(1));
                            assert(project(old(self)@.emitted, k).push(uv) + qs0[k].skip(1) =~= (
                            project(old(self)@.emitted, k) + qs0[k]));
                        }
                    }
                    assert forall|j: int| 0 <= j < self@.emitted.len() implies 0 <= (
                    #[trigger] self@.emitted[j]).0 < self@.queues.len() by {
                        if j < old(self)@.emitted.len() {
                            assert(0 <= (old(self)@.emitted[j]).0 < old(self)@.queues.len());
                        }
                    }
                }
                return Some((i, u));
            }
            i += 1;
        }
        proof {
            lemma_first_ready_spec(qs0);
        }
        None
    }

    /// Per-source order is exact: what has been emitted for a source is
    /// precisely the prefix of that source's own production sequence that
    /// its pending queue has not yet delivered — no reordering, no
    /// duplication, no loss. Once the queue is drained, the emissions for
    /// that source equal its entire production order.
    pub proof fn lemma_per_source_order(m: MuxView, i: int)
        requires
            mux_wf(m),
            0 <= i < m.queues.len(),
        ensures
            project(m.emitted, i) == m.produced[i].take(
                m.produced[i].len() - m.queues[i].len(),
            ),
            m.queues[i].len() == 0 ==> project(m.emitted, i) == m.produced[i],
    {
        let p = project(m.emitted, i);
        assert(m.produced[i].take(p.len() as int) =~= p);
        if m.queues[i].len() == 0 {
            assert(p + m.queues[i] =~= p);
        }
    }
}

} // verus!
