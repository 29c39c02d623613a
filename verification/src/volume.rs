//! The volume widget's decision logic: folding the audio device's control
//! messages into a mute/level state and producing content only when the
//! state actually changed. Watching the device is the caller's concern; the
//! control messages arrive here as plain values.

use vstd::prelude::*;

use crate::digits::dec_seq;
use crate::digits::u64_to_string;
use crate::text::str_eq;
use crate::text::Attributes;
use crate::text::AttrView;
use crate::text::Text;
use crate::text::TextView;
use crate::widget::WidgetError;

verus! {

/// The output's state as the widget displays it.
#[derive(Clone, Copy, PartialEq, Eq, Structural, Debug)]
pub enum State {
    /// No control message has determined the state yet.
    Unknown,
    /// The output is muted.
    Muted,
    /// The output plays at the given whole percentage of full level.
    Unmuted { percent: u8 },
}

/// One control message from the audio device: a control's name, its
/// function, and the new raw value.
pub struct Control {
    pub name: String,
    pub func: String,
    pub value: u8,
}

/// A raw level as the nearest whole percentage of the full range.
pub open spec fn volume_percent(value: u8) -> u8 {
    (((value as int) * 100 + 127) / 255) as u8
}

/// The mathematical state of the fold over control messages.
pub ghost struct OpenBsdView {
    pub muted: bool,
    pub percent: u8,
    pub state: State,
}

/// What one control message does to the fold's mute flag and level.
pub open spec fn control_applied(v: OpenBsdView, name: Seq<char>, func: Seq<char>, value: u8) -> (
    bool,
    u8,
) {
    if name == "output"@ && func == "mute"@ && value == 1 {
        (true, v.percent)
    } else if name == "output"@ && func == "mute"@ && value == 0 {
        (false, v.percent)
    } else if name == "output"@ && func == "level"@ {
        (v.muted, volume_percent(value))
    } else {
        (v.muted, v.percent)
    }
}

/// The displayed state a mute flag and level amount to.
pub open spec fn state_of(muted: bool, percent: u8) -> State {
    if muted {
        State::Muted
    } else {
        State::Unmuted { percent }
    }
}

/// The fold over the audio device's control messages: tracks the output's
/// mute flag and level, and reports a state exactly when it changed.
pub struct OpenBsd {
    muted: bool,
    percent: u8,
    state: State,
}

impl View for OpenBsd {
    type V = OpenBsdView;

    closed spec fn view(&self) -> OpenBsdView {
        OpenBsdView { muted: self.muted, percent: self.percent, state: self.state }
    }
}

impl OpenBsd {
    /// A fresh fold: state unknown until the first control message.
    pub fn new() -> (o: OpenBsd)
        ensures
            o@ == (OpenBsdView { muted: false, percent: 1u8, state: State::Unknown }),
    {
        OpenBsd { muted: false, percent: 1, state: State::Unknown }
    }

    /// A raw level as the nearest whole percentage of the full range.
    pub fn percentage(&self, value: u8) -> (p: u8)
        ensures
            p == volume_percent(value),
    {
        (((value as u32) * 100 + 127) / 255) as u8
    }

    /// Folds one control message in. Returns the new displayed state
    /// exactly when it differs from the previous one; an irrelevant or
    /// repeated message returns nothing.
    pub fn on_control(&mut self, control: &Control) -> (r: Option<State>)
        ensures
            ({
                let (muted, percent) = control_applied(
                    old(self)@,
                    control.name@,
                    control.func@,
                    control.value,
                );
                let new_state = state_of(muted, percent);
                &&& final(self)@ == (OpenBsdView { muted, percent, state: new_state })
                &&& r == if new_state == old(self)@.state {
                    None::<State>
                } else {
                    Some(new_state)
                }
            }),
    {
        let output = str_eq(control.name.as_str(), "output");
        if output && str_eq(control.func.as_str(), "mute") && control.value == 1 {
            self.muted = true;
        } else if output && str_eq(control.func.as_str(), "mute") && control.value == 0 {
            self.muted = false;
        } else if output && str_eq(control.func.as_str(), "level") {
            self.percent = self.percentage(control.value);
        }
        let new_state = if self.muted {
            State::Muted
        } else {
            State::Unmuted { percent: self.percent }
        };
        if !(new_state == self.state) {
            self.state = new_state;
            Some(new_state)
        } else {
            None
        }
    }
}

/// The mathematical state of a volume widget.
pub ghost struct VolumeView {
    pub attr: AttrView,
}

/// The text the volume widget shows for a state.
pub open spec fn volume_text(state: State) -> Seq<char> {
    match state {
        State::Unknown => "?"@,
        State::Muted => "M"@,
        State::Unmuted { percent } => dec_seq(percent as nat) + "%"@,
    }
}

/// Shows the output's mute status or level percentage.
pub struct Volume {
    attr: Attributes,
}

impl View for Volume {
    type V = VolumeView;

    closed spec fn view(&self) -> VolumeView {
        VolumeView { attr: self.attr@ }
    }
}

impl Volume {
    /// A volume widget rendering with the given attributes.
    pub fn new(attr: Attributes) -> (v: Volume)
        ensures
            v@ == (VolumeView { attr: attr@ }),
    {
        Volume { attr }
    }

    /// One production for a changed state: `?` while unknown, `M` while
    /// muted, else the level percentage.
    pub fn on_change(&self, state: State) -> (r: Result<Vec<Text>, WidgetError>)
        ensures
            r is Ok,
            r->Ok_0.deep_view() =~~= seq![
                TextView { attr: self@.attr, text: volume_text(state), stretch: false, markup: false },
            ],
    {
        let text: String = match state {
            State::Unknown => "?".to_owned(),
            State::Muted => "M".to_owned(),
            State::Unmuted { percent } => {
                let mut s = u64_to_string(percent as u64);
                s.append("%");
                s
            },
        };
        Ok(
            vec![
                Text { attr: self.attr.clone(), text, stretch: false, markup: false },
            ],
        )
    }
}

} // verus!
