//! The clock widget: one production per minute, carrying the local time
//! rendered by a strftime-style format string.

use std::fmt::Write;
use vstd::prelude::*;

use crate::text::Attributes;
use crate::text::AttrView;
use crate::text::Text;
use crate::text::TextView;

verus! {

/// Relies on `chrono::Local::now` and `chrono::DateTime::format`: the local
/// time now, rendered by the given strftime-style format string. The result
/// depends on the clock and the time zone, so nothing is promised of it; a
/// format string the formatter rejects yields the empty string instead of a
/// panic.
#[verifier::external_body]
fn local_time_string(format: &str) -> (r: String) {
    let mut out = String::new();
    match write!(out, "{}", chrono::Local::now().format(format)) {
        Ok(()) => out,
        Err(_) => String::new(),
    }
}

/// The mathematical state of a clock widget.
pub ghost struct ClockView {
    pub attr: AttrView,
    pub format_str: Option<Seq<char>>,
}

/// Shows the current time and date; without a format string of its own, in
/// the form `%Y-%m-%d %a %I:%M %p`.
pub struct Clock {
    attr: Attributes,
    format_str: Option<String>,
}

impl View for Clock {
    type V = ClockView;

    closed spec fn view(&self) -> ClockView {
        ClockView {
            attr: self.attr@,
            format_str: match self.format_str {
                Some(ref f) => Some(f@),
                None => None,
            },
        }
    }
}

/// The format string a clock renders with: its own, or the default.
pub open spec fn clock_format(v: ClockView) -> Seq<char> {
    match v.format_str {
        Some(f) => f,
        None => "%Y-%m-%d %a %I:%M %p"@,
    }
}

impl Clock {
    /// A clock widget rendering with the given attributes and optional
    /// format string.
    pub fn new(attr: Attributes, format_str: Option<String>) -> (c: Clock)
        ensures
            c@.attr == attr@,
            c@.format_str == match format_str {
                Some(f) => Some(f@),
                None => None::<Seq<char>>,
            },
    {
        Clock { attr, format_str }
    }

    /// The format string this clock renders with.
    pub fn format_string(&self) -> (r: &str)
        ensures
            r@ == clock_format(self@),
    {
        match &self.format_str {
            Some(f) => f.as_str(),
            None => "%Y-%m-%d %a %I:%M %p",
        }
    }

    /// The content produced for one rendered time string: a single markup
    /// segment in the clock's own style.
    pub fn tick_with(&self, time_text: String) -> (r: Vec<Text>)
        ensures
            r.deep_view() =~~= seq![
                TextView { attr: self@.attr, text: time_text@, stretch: false, markup: true },
            ],
    {
        vec![
            Text { attr: self.attr.clone(), text: time_text, stretch: false, markup: true },
        ]
    }

    /// One production: the local time now, rendered by the clock's format
    /// string. The text depends on the clock, so only the segment's shape
    /// and style are promised.
    pub fn tick(&self) -> (r: Vec<Text>)
        ensures
            r.deep_view().len() == 1,
            r.deep_view()[0].attr == self@.attr,
            !r.deep_view()[0].stretch,
            r.deep_view()[0].markup,
    {
        let t = local_time_string(self.format_string());
        self.tick_with(t)
    }
}

} // verus!
