//! The pager widget: shows the window manager's workspaces, highlighting the
//! active one. The desktop properties are read at the display-server
//! boundary; the values arrive here as one plain [`DesktopState`].

use vstd::prelude::*;

use crate::text::Attributes;
use crate::text::AttrView;
use crate::text::Text;
use crate::text::TextView;

verus! {

/// What the window manager reports about its desktops: how many there are,
/// which is current, and their names. The name list may be shorter or longer
/// than the count — there may be unnamed desktops, or more named ones than
/// are in use.
pub struct DesktopState {
    pub number: usize,
    pub current: usize,
    pub names: Vec<String>,
}

/// The mathematical state of a pager widget.
pub ghost struct PagerView {
    pub active_attr: AttrView,
    pub inactive_attr: AttrView,
}

/// Shows the workspaces, one segment each, the current one in the active
/// style.
pub struct Pager {
    active_attr: Attributes,
    inactive_attr: Attributes,
}

impl View for Pager {
    type V = PagerView;

    closed spec fn view(&self) -> PagerView {
        PagerView { active_attr: self.active_attr@, inactive_attr: self.inactive_attr@ }
    }
}

/// The segment the pager renders for desktop `i`: the desktop's name — `?`
/// for an unnamed one, names beyond the count dropped — in the active or
/// inactive style.
pub open spec fn pager_segment(
    v: PagerView,
    names: Seq<Seq<char>>,
    current: int,
    i: int,
) -> TextView {
    TextView {
        attr: if i == current {
            v.active_attr
        } else {
            v.inactive_attr
        },
        text: if i < names.len() {
            names[i]
        } else {
            "?"@
        },
        stretch: false,
        markup: true,
    }
}

impl Pager {
    /// A pager rendering the current desktop with `active_attr` and the
    /// rest with `inactive_attr`.
    pub fn new(active_attr: Attributes, inactive_attr: Attributes) -> (p: Pager)
        ensures
            p@ == (PagerView { active_attr: active_attr@, inactive_attr: inactive_attr@ }),
    {
        Pager { active_attr, inactive_attr }
    }

    /// One production: one segment per desktop, reconciling the name list
    /// with the desktop count — extra names are dropped, missing ones shown
    /// as `?` — and highlighting the current desktop.
    pub fn on_change(&self, state: &DesktopState) -> (r: Vec<Text>)
        ensures
            r.deep_view().len() == state.number,
            forall|i: int|
                0 <= i < state.number ==> r.deep_view()[i] == pager_segment(
                    self@,
                    state.names.deep_view(),
                    state.current as int,
                    i,
                ),
    {
        let mut texts: Vec<Text> = Vec::new();
        let mut i: usize = 0;
        while i < state.number
            invariant
                0 <= i <= state.number,
                texts.deep_view().len() == i,
                forall|j: int|
                    0 <= j < i ==> texts.deep_view()[j] == pager_segment(
                        self@,
                        state.names.deep_view(),
                        state.current as int,
                        j,
                    ),
            decreases state.number - i,
        {
            let name: String = if i < state.names.len() {
                state.names[i].clone()
            } else {
                "?".to_owned()
            };
            let attr = if i == state.current {
                self.active_attr.clone()
            } else {
                self.inactive_attr.clone()
            };
            let ghost built = texts.deep_view();
            let ghost seg = TextView { attr: attr@, text: name@, stretch: false, markup: true };
            texts.push(Text { attr, text: name, stretch: false, markup: true });
            proof {
                assert(texts.deep_view() =~= built.push(seg));
            }
            i += 1;
        }
        texts
    }
}

} // verus!
