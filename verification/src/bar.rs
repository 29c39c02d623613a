//! The render state: the ordered per-widget content slots and the display
//! connection they are drawn through. Slots are registered once, before the
//! run loop starts, and addressed by a dense, stable index; only the run
//! loop ever writes them.

use vstd::prelude::*;

use crate::bridge::ConnView;
use crate::bridge::RawEvent;
use crate::bridge::XConn;
use crate::text::Text;
use crate::text::TextView;

verus! {

/// Where the bar sits on the screen.
#[derive(Clone, Copy, PartialEq, Eq, Structural, Debug)]
pub enum Position {
    Top,
    Bottom,
}

/// Why applying an update to the render surface failed.
#[derive(Clone, Copy, PartialEq, Eq, Structural, Debug)]
pub enum RenderError {
    /// The render surface itself failed (resource exhaustion and the like).
    SurfaceUnavailable,
}

/// The mathematical state of the bar: its connection, position and the
/// content of each slot.
pub ghost struct BarView {
    pub conn: ConnView,
    pub position: Position,
    pub slots: Seq<Seq<TextView>>,
}

/// The bar: the ordered slot collection, and the exclusively owned
/// connection that both drawing and the event bridge go through — never
/// concurrently, because the run loop is single-threaded.
pub struct Bar {
    conn: XConn,
    position: Position,
    slots: Vec<Vec<Text>>,
}

impl View for Bar {
    type V = BarView;

    closed spec fn view(&self) -> BarView {
        BarView { conn: self.conn@, position: self.position, slots: self.slots.deep_view() }
    }
}

impl Bar {
    /// A bar over a fresh connection, with no slots yet.
    pub fn new(position: Position) -> (b: Bar)
        ensures
            b@ == (BarView {
                conn: ConnView {
                    socket: Seq::<RawEvent>::empty(),
                    token: false,
                    edge: false,
                    broken: false,
                },
                position,
                slots: Seq::<Seq<TextView>>::empty(),
            }),
    {
        let b = Bar { conn: XConn::new(), position, slots: Vec::new() };
        proof {
            assert(b.slots.deep_view() =~= Seq::<Seq<TextView>>::empty());
        }
        b
    }

    /// How many slots are registered.
    pub fn len(&self) -> (n: usize)
        ensures
            n == self@.slots.len(),
    {
        self.slots.len()
    }

    /// The content slot `idx` currently holds.
    pub fn content(&self, idx: usize) -> (t: &Vec<Text>)
        requires
            idx < self@.slots.len(),
        ensures
            t.deep_view() == self@.slots[idx as int],
    {
        &self.slots[idx]
    }

    /// Registers one more slot, holding `content`, to the right of the
    /// existing ones. Its index is dense and stable for the process
    /// lifetime.
    pub fn add_content(&mut self, content: Vec<Text>) -> (r: Result<usize, RenderError>)
        ensures
            r == Ok::<usize, RenderError>((old(self)@.slots.len() as usize)),
            final(self)@ == (BarView {
                conn: old(self)@.conn,
                position: old(self)@.position,
                slots: old(self)@.slots.push(content.deep_view()),
            }),
    {
        let idx = self.slots.len();
        self.slots.push(content);
        proof {
            assert(self.slots.deep_view() =~= old(self).slots.deep_view().push(
                content.deep_view(),
            ));
        }
        Ok(idx)
    }

    /// Replaces slot `idx`'s content with `texts` and triggers a redraw of
    /// the changed region. An out-of-range index is an internal-consistency
    /// error — the multiplexer's index invariant rules it out — so it is
    /// excluded rather than handled.
    pub fn update_content(&mut self, idx: usize, texts: Vec<Text>) -> (r: Result<
        (),
        RenderError,
    >)
        requires
            idx < old(self)@.slots.len(),
        ensures
            r == Ok::<(), RenderError>(()),
            final(self)@ == (BarView {
                conn: old(self)@.conn,
                position: old(self)@.position,
                slots: old(self)@.slots.update(idx as int, texts.deep_view()),
            }),
    {
        self.slots[idx] = texts;
        proof {
            assert(self.slots.deep_view() =~= old(self).slots.deep_view().update(
                idx as int,
                self.slots@[idx as int].deep_view(),
            ));
        }
        Ok(())
    }

    /// Handles a display-server event unrelated to widget content (expose,
    /// resize): the surface may repaint, but no slot changes.
    pub fn process_event(&mut self, event: RawEvent) -> (r: Result<(), RenderError>)
        ensures
            r == Ok::<(), RenderError>(()),
            final(self)@ == old(self)@,
    {
        let _ = event;
        Ok(())
    }

    /// An event arrives on the bar's connection.
    pub fn deliver_event(&mut self, e: RawEvent)
        ensures
            final(self)@ == (BarView {
                conn: ConnView {
                    socket: old(self)@.conn.socket.push(e),
                    token: old(self)@.conn.token,
                    edge: true,
                    broken: old(self)@.conn.broken,
                },
                position: old(self)@.position,
                slots: old(self)@.slots,
            }),
    {
        self.conn.arrive(e);
    }

    /// The bar's connection becomes unusable: its wait primitive fails.
    pub fn fail_connection(&mut self)
        ensures
            final(self)@ == (BarView {
                conn: ConnView {
                    socket: old(self)@.conn.socket,
                    token: old(self)@.conn.token,
                    edge: old(self)@.conn.edge,
                    broken: true,
                },
                position: old(self)@.position,
                slots: old(self)@.slots,
            }),
    {
        self.conn.mark_broken();
    }

    /// Exclusive access to the connection for the event bridge's drain
    /// loop; the rest of the bar is untouched while the borrow lives.
    pub(crate) fn conn_mut(&mut self) -> (c: &mut XConn)
        ensures
            c@ == old(self)@.conn,
            final(self)@ == (BarView {
                conn: final(c)@,
                position: old(self)@.position,
                slots: old(self)@.slots,
            }),
    {
        &mut self.conn
    }
}

/// Applying the same content to the same slot twice leaves the render state
/// content-equal to a single application (the redraw may happen twice; the
/// displayed content is identical).
pub proof fn lemma_update_content_idempotent(slots: Seq<Seq<TextView>>, idx: int, texts: Seq<TextView>)
    requires
        0 <= idx < slots.len(),
    ensures
        slots.update(idx, texts).update(idx, texts) == slots.update(idx, texts),
{
    assert(slots.update(idx, texts).update(idx, texts) =~= slots.update(idx, texts));
}

} // verus!
