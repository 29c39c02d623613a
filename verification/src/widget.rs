//! The widget production contract: every widget yields a sequence of
//! updates, each either its full new content or a failure. A failure is
//! never fatal to the loop; it is reported and the slot keeps its stale
//! content.

use vstd::prelude::*;

use crate::text::Text;
use crate::text::TextView;

verus! {

/// Why a widget's production failed.
#[derive(Clone, Copy, PartialEq, Eq, Structural, Debug)]
pub enum WidgetError {
    /// A battery status word was none of the known ones.
    UnknownStatus,
    /// A numeric reading did not parse as a decimal value in range.
    InvalidValue,
    /// The widget's data source could not be read at all.
    Unavailable,
}

impl WidgetError {
    /// A short diagnostic for the log line the run loop emits.
    pub fn describe(&self) -> (s: &'static str)
        ensures
            s@ == match *self {
                WidgetError::UnknownStatus => "unknown status"@,
                WidgetError::InvalidValue => "invalid value"@,
                WidgetError::Unavailable => "unavailable"@,
            },
    {
        match *self {
            WidgetError::UnknownStatus => "unknown status",
            WidgetError::InvalidValue => "invalid value",
            WidgetError::Unavailable => "unavailable",
        }
    }
}

/// One production contract value: the full new content, or a failure.
pub type WidgetUpdate = Result<Vec<Text>, WidgetError>;

/// The mathematical value of one production.
pub type UpdateView = Result<Seq<TextView>, WidgetError>;

/// The mathematical value of a [`WidgetUpdate`].
pub open spec fn update_view(u: WidgetUpdate) -> UpdateView {
    match u {
        Ok(texts) => Ok(texts.deep_view()),
        Err(e) => Err(e),
    }
}

} // verus!
