//! The weather widget's pure part: mapping a reported sky condition to the
//! symbol shown on the bar. Fetching the report is the caller's concern.

use vstd::prelude::*;

use crate::text::str_eq;

verus! {

/// The symbol for a reported sky condition; unrecognized conditions get the
/// new-moon symbol.
pub open spec fn sky_symbol(condition: Seq<char>) -> Seq<char> {
    if condition == "clear"@ || condition == "sunny"@ {
        "🌣"@
    } else if condition == "mostly clear"@ || condition == "mostly sunny"@ {
        "🌤"@
    } else if condition == "partly sunny"@ || condition == "partly cloudy"@ {
        "⛅"@
    } else if condition == "cloudy"@ || condition == "overcast"@ {
        "☁"@
    } else if condition == "mostly cloudy"@ {
        "🌧"@
    } else if condition == "considerable cloudines"@ {
        "☔"@
    } else {
        "🌑"@
    }
}

/// The symbol shown for a sky condition as the weather report words it.
pub fn weather_sky_condition(condition: String) -> (r: &'static str)
    ensures
        r@ == sky_symbol(condition@),
{
    let c = condition.as_str();
    if str_eq(c, "clear") || str_eq(c, "sunny") {
        "🌣"
    } else if str_eq(c, "mostly clear") || str_eq(c, "mostly sunny") {
        "🌤"
    } else if str_eq(c, "partly sunny") || str_eq(c, "partly cloudy") {
        "⛅"
    } else if str_eq(c, "cloudy") || str_eq(c, "overcast") {
        "☁"
    } else if str_eq(c, "mostly cloudy") {
        "🌧"
    } else if str_eq(c, "considerable cloudines") {
        "☔"
    } else {
        "🌑"
    }
}

} // verus!
