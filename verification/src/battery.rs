//! The battery widget's decision logic: parsing the kernel's power-supply
//! readings and turning them into bar content. Reading the files themselves
//! is the caller's concern; the values arrive here as plain strings.

use vstd::prelude::*;

use crate::digits::all_digits;
use crate::digits::dec_seq;
use crate::digits::dec_value;
use crate::digits::parse_u8;
use crate::digits::unsigned_part;
use crate::digits::u64_to_string;
use crate::text::trim;
use crate::text::trimmed;
use crate::text::str_eq;
use crate::text::Attributes;
use crate::text::AttrView;
use crate::text::Color;
use crate::text::Text;
use crate::text::TextView;
use crate::widget::WidgetError;

verus! {

/// The battery's operating status, as the power-supply class reports it.
#[derive(Clone, Copy, PartialEq, Eq, Structural, Debug)]
pub enum Status {
    Full,
    Charging,
    Discharging,
    Unknown,
}

impl Status {
    /// Reads a status word. Exactly the four known words parse; anything
    /// else is an unknown-status error.
    pub fn from_str(s: &str) -> (r: Result<Status, WidgetError>)
        ensures
            r == if s@ == "Full"@ {
                Ok::<Status, WidgetError>(Status::Full)
            } else if s@ == "Charging"@ {
                Ok::<Status, WidgetError>(Status::Charging)
            } else if s@ == "Discharging"@ {
                Ok::<Status, WidgetError>(Status::Discharging)
            } else if s@ == "Unknown"@ {
                Ok::<Status, WidgetError>(Status::Unknown)
            } else {
                Err::<Status, WidgetError>(WidgetError::UnknownStatus)
            },
    {
        if str_eq(s, "Full") {
            Ok(Status::Full)
        } else if str_eq(s, "Charging") {
            Ok(Status::Charging)
        } else if str_eq(s, "Discharging") {
            Ok(Status::Discharging)
        } else if str_eq(s, "Unknown") {
            Ok(Status::Unknown)
        } else {
            Err(WidgetError::UnknownStatus)
        }
    }
}

/// One battery reading: operating status and charge percentage.
#[derive(Clone, Copy, PartialEq, Eq, Structural, Debug)]
pub struct BatteryInfo {
    pub status: Status,
    pub capacity: u8,
}

/// The text [`render_default`] produces: the capacity in percent, in
/// parentheses.
pub open spec fn render_default_view(info: BatteryInfo) -> Seq<char> {
    "("@ + dec_seq(info.capacity as nat) + "%)"@
}

/// The default rendering of a battery reading.
pub fn render_default(info: BatteryInfo) -> (r: String)
    ensures
        r@ =~= render_default_view(info),
{
    let mut s = "(".to_owned();
    let cap = u64_to_string(info.capacity as u64);
    s.append(cap.as_str());
    s.append("%)");
    s
}

/// The numeral a raw capacity reading carries: the reading with surrounding
/// whitespace and one optional leading `+` removed.
pub open spec fn capacity_numeral(raw: Seq<char>) -> Seq<char> {
    unsigned_part(trimmed(raw))
}

/// Whether a raw capacity reading is a valid percentage value: after
/// trimming and one optional leading `+`, a non-empty all-digit numeral no
/// greater than 255.
pub open spec fn capacity_parses(raw: Seq<char>) -> bool {
    &&& capacity_numeral(raw).len() > 0
    &&& all_digits(capacity_numeral(raw))
    &&& dec_value(capacity_numeral(raw)) <= 255
}

/// The mathematical state of a battery widget.
pub ghost struct BatteryView {
    pub update_interval_secs: u64,
    pub battery: Seq<char>,
    pub attr: AttrView,
    pub warning_color: Color,
    pub markup: bool,
}

/// Shows the battery's charge percentage, in the warning colour when it is
/// discharging with at most 10% left. The kernel exposes the readings as
/// small text files; their contents are handed to [`Battery::tick`].
pub struct Battery {
    update_interval_secs: u64,
    battery: String,
    attr: Attributes,
    warning_color: Color,
    markup: bool,
}

impl View for Battery {
    type V = BatteryView;

    closed spec fn view(&self) -> BatteryView {
        BatteryView {
            update_interval_secs: self.update_interval_secs,
            battery: self.battery@,
            attr: self.attr@,
            warning_color: self.warning_color,
            markup: self.markup,
        }
    }
}

impl Battery {
    /// A battery widget over the named battery (`BAT0` when none is given),
    /// polling once a minute.
    pub fn new(attr: Attributes, warning_color: Color, battery: Option<String>) -> (b: Battery)
        ensures
            b@ == (BatteryView {
                update_interval_secs: 60u64,
                battery: match battery {
                    Some(name) => name@,
                    None => "BAT0"@,
                },
                attr: attr@,
                warning_color,
                markup: false,
            }),
    {
        let name = match battery {
            Some(name) => name,
            None => "BAT0".to_owned(),
        };
        Battery {
            update_interval_secs: 60,
            battery: name,
            attr,
            warning_color,
            markup: false,
        }
    }

    /// The name of the power-supply directory the readings come from.
    pub fn battery_name(&self) -> (n: &String)
        ensures
            n@ == self@.battery,
    {
        &self.battery
    }

    /// How often the widget asks for fresh readings, in seconds.
    pub fn update_interval_secs(&self) -> (n: u64)
        ensures
            n == self@.update_interval_secs,
    {
        self.update_interval_secs
    }

    /// Reads one numeric value file: the contents are trimmed and parsed as
    /// a decimal percentage, one leading `+` allowed. Fails exactly when the
    /// numeral that remains is empty, non-numeric, or over 255.
    pub fn load_value(contents: &str) -> (r: Result<u8, WidgetError>)
        ensures
            r is Ok <==> capacity_parses(contents@),
            r is Ok ==> r->Ok_0 == dec_value(capacity_numeral(contents@)),
            r is Err ==> r == Err::<u8, WidgetError>(WidgetError::InvalidValue),
    {
        match parse_u8(trim(contents)) {
            Some(v) => Ok(v),
            None => Err(WidgetError::InvalidValue),
        }
    }

    /// Combines the two readings into one [`BatteryInfo`]: the capacity is
    /// checked first, then the (trimmed) status word.
    pub fn get_value(&self, capacity_raw: &str, status_raw: &str) -> (r: Result<
        BatteryInfo,
        WidgetError,
    >)
        ensures
            !capacity_parses(capacity_raw@) ==> r == Err::<BatteryInfo, WidgetError>(
                WidgetError::InvalidValue,
            ),
            capacity_parses(capacity_raw@) ==> r == match Self::status_of(trimmed(status_raw@)) {
                Some(status) => Ok::<BatteryInfo, WidgetError>(BatteryInfo {
                    status,
                    capacity: dec_value(capacity_numeral(capacity_raw@)) as u8,
                }),
                None => Err::<BatteryInfo, WidgetError>(WidgetError::UnknownStatus),
            },
    {
        let capacity = match Self::load_value(capacity_raw) {
            Ok(v) => v,
            Err(e) => {
                return Err(e);
            },
        };
        let status = match Status::from_str(trim(status_raw)) {
            Ok(s) => s,
            Err(e) => {
                return Err(e);
            },
        };
        Ok(BatteryInfo { capacity, status })
    }

    /// Which status a (trimmed) status word denotes, if any.
    pub open spec fn status_of(word: Seq<char>) -> Option<Status> {
        if word == "Full"@ {
            Some(Status::Full)
        } else if word == "Charging"@ {
            Some(Status::Charging)
        } else if word == "Discharging"@ {
            Some(Status::Discharging)
        } else if word == "Unknown"@ {
            Some(Status::Unknown)
        } else {
            None
        }
    }

    /// The style a reading is rendered with: the widget's own attributes,
    /// except that a discharging battery at 10% or less takes the warning
    /// colour.
    pub open spec fn tick_attr(v: BatteryView, info: BatteryInfo) -> AttrView {
        AttrView {
            font: v.attr.font,
            fg_color: if info.status == Status::Discharging && info.capacity <= 10 {
                v.warning_color
            } else {
                v.attr.fg_color
            },
            bg_color: v.attr.bg_color,
            padding: v.attr.padding,
        }
    }

    /// One production: parses the two readings and renders them, or reports
    /// why it could not.
    pub fn tick(&self, capacity_raw: &str, status_raw: &str) -> (r: Result<Vec<Text>, WidgetError>)
        ensures
            match self.get_value_spec(capacity_raw@, status_raw@) {
                Ok(info) => r is Ok && r->Ok_0.deep_view() =~~= seq![
                    TextView {
                        attr: Self::tick_attr(self@, info),
                        text: render_default_view(info),
                        stretch: false,
                        markup: self@.markup,
                    },
                ],
                Err(e) => r == Err::<Vec<Text>, WidgetError>(e),
            },
    {
        let info = match self.get_value(capacity_raw, status_raw) {
            Ok(info) => info,
            Err(e) => {
                return Err(e);
            },
        };
        let mut attr = self.attr.clone();
        if matches!(info.status, Status::Discharging) && info.capacity <= 10 {
            attr.fg_color = self.warning_color;
        }
        let text = render_default(info);
        let texts = vec![
            Text { attr, text, stretch: false, markup: self.markup },
        ];
        Ok(texts)
    }

    /// What [`Battery::get_value`] returns, as a function of the raw
    /// readings.
    pub open spec fn get_value_spec(&self, capacity_raw: Seq<char>, status_raw: Seq<char>) -> Result<
        BatteryInfo,
        WidgetError,
    > {
        if !capacity_parses(capacity_raw) {
            Err(WidgetError::InvalidValue)
        } else {
            match Self::status_of(trimmed(status_raw)) {
                Some(status) => Ok(
                    BatteryInfo {
                        status,
                        capacity: dec_value(capacity_numeral(capacity_raw)) as u8,
                    },
                ),
                None => Err(WidgetError::UnknownStatus),
            }
        }
    }
}

} // verus!
