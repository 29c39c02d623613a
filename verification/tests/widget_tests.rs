//! The widgets' decision logic on concrete readings.

use cnx::battery::render_default;
use cnx::battery::Battery;
use cnx::battery::BatteryInfo;
use cnx::battery::Status;
use cnx::clock::Clock;
use cnx::disk::default_render;
use cnx::disk::DiskInfo;
use cnx::pager::DesktopState;
use cnx::pager::Pager;
use cnx::text::Attributes;
use cnx::text::Color;
use cnx::text::Font;
use cnx::text::Padding;
use cnx::volume::Control;
use cnx::volume::OpenBsd;
use cnx::volume::State;
use cnx::volume::Volume;
use cnx::weather::weather_sky_condition;
use cnx::widget::WidgetError;

fn attrs() -> Attributes {
    Attributes {
        font: Font::new("Ubuntu Mono Bold 14"),
        fg_color: Color::white(),
        bg_color: None,
        padding: Padding::new(0, 0, 0, 0),
    }
}

#[test]
fn status_words_parse_exactly() {
    assert_eq!(Status::from_str("Full"), Ok(Status::Full));
    assert_eq!(Status::from_str("Charging"), Ok(Status::Charging));
    assert_eq!(Status::from_str("Discharging"), Ok(Status::Discharging));
    assert_eq!(Status::from_str("Unknown"), Ok(Status::Unknown));
    assert_eq!(Status::from_str("charging"), Err(WidgetError::UnknownStatus));
    assert_eq!(Status::from_str(""), Err(WidgetError::UnknownStatus));
}

#[test]
fn load_value_trims_and_parses() {
    assert_eq!(Battery::load_value("85\n"), Ok(85));
    assert_eq!(Battery::load_value(" 100 "), Ok(100));
    assert_eq!(Battery::load_value("0"), Ok(0));
    assert_eq!(Battery::load_value("255"), Ok(255));
    assert_eq!(Battery::load_value("256"), Err(WidgetError::InvalidValue));
    assert_eq!(Battery::load_value(""), Err(WidgetError::InvalidValue));
    assert_eq!(Battery::load_value("8a"), Err(WidgetError::InvalidValue));
    assert_eq!(Battery::load_value("-5"), Err(WidgetError::InvalidValue));
    // The standard integer parser's behaviour is kept: one leading plus is
    // accepted, anywhere else (or doubled, or bare) it is not.
    assert_eq!(Battery::load_value("+5"), Ok(5));
    assert_eq!(Battery::load_value(" +255\n"), Ok(255));
    assert_eq!(Battery::load_value("+"), Err(WidgetError::InvalidValue));
    assert_eq!(Battery::load_value("++5"), Err(WidgetError::InvalidValue));
    assert_eq!(Battery::load_value("5+"), Err(WidgetError::InvalidValue));
    // Trimming covers Unicode whitespace, as standard trimming does.
    assert_eq!(Battery::load_value("\u{a0}85\u{2003}\n"), Ok(85));
}

#[test]
fn get_value_combines_both_readings() {
    let b = Battery::new(attrs(), Color::red(), None);
    assert_eq!(b.battery_name(), "BAT0");
    assert_eq!(b.update_interval_secs(), 60);
    assert_eq!(
        b.get_value("42\n", "Charging\n"),
        Ok(BatteryInfo { status: Status::Charging, capacity: 42 })
    );
    assert_eq!(
        b.get_value("+5\n", "Full\n"),
        Ok(BatteryInfo { status: Status::Full, capacity: 5 })
    );
    assert_eq!(b.get_value("abc", "Charging"), Err(WidgetError::InvalidValue));
    assert_eq!(b.get_value("42", "Sleeping"), Err(WidgetError::UnknownStatus));
}

#[test]
fn named_battery_is_kept() {
    let b = Battery::new(attrs(), Color::red(), Some("BAT1".to_owned()));
    assert_eq!(b.battery_name(), "BAT1");
}

#[test]
fn battery_render_default_is_exact() {
    assert_eq!(render_default(BatteryInfo { status: Status::Full, capacity: 85 }), "(85%)");
    assert_eq!(render_default(BatteryInfo { status: Status::Unknown, capacity: 0 }), "(0%)");
}

#[test]
fn battery_tick_uses_warning_color_when_low_and_discharging() {
    let b = Battery::new(attrs(), Color::red(), None);
    let low = b.tick("9\n", "Discharging\n").unwrap();
    assert_eq!(low[0].text, "(9%)");
    assert_eq!(low[0].attr.fg_color, Color::red());

    let charging = b.tick("9\n", "Charging\n").unwrap();
    assert_eq!(charging[0].attr.fg_color, Color::white());

    let high = b.tick("80\n", "Discharging\n").unwrap();
    assert_eq!(high[0].attr.fg_color, Color::white());

    assert_eq!(b.tick("9\n", "Hovering\n").unwrap_err(), WidgetError::UnknownStatus);
}

#[test]
fn clock_tick_with_renders_one_markup_segment() {
    let c = Clock::new(attrs(), Some("%H:%M".to_owned()));
    assert_eq!(c.format_string(), "%H:%M");
    let texts = c.tick_with("12:51".to_owned());
    assert_eq!(texts.len(), 1);
    assert_eq!(texts[0].text, "12:51");
    assert!(texts[0].markup);
    assert!(!texts[0].stretch);
}

#[test]
fn clock_tick_renders_the_local_time() {
    // Runs the real time formatting: a four-digit year must appear.
    let c = Clock::new(attrs(), Some("%Y".to_owned()));
    let texts = c.tick();
    assert_eq!(texts.len(), 1);
    assert_eq!(texts[0].text.len(), 4);
    assert!(texts[0].text.chars().all(|ch| ch.is_ascii_digit()));

    let default = Clock::new(attrs(), None);
    assert_eq!(default.format_string(), "%Y-%m-%d %a %I:%M %p");
    let rendered = default.tick();
    assert!(!rendered[0].text.is_empty());
}

#[test]
fn pager_reconciles_names_with_count() {
    let active = Attributes { fg_color: Color::yellow(), ..attrs() };
    let p = Pager::new(active, attrs());

    // More desktops than names: the missing ones show as `?`.
    let texts = p.on_change(&DesktopState {
        number: 4,
        current: 1,
        names: vec!["web".to_owned(), "code".to_owned()],
    });
    assert_eq!(texts.len(), 4);
    assert_eq!(texts[0].text, "web");
    assert_eq!(texts[1].text, "code");
    assert_eq!(texts[2].text, "?");
    assert_eq!(texts[3].text, "?");
    assert_eq!(texts[1].attr.fg_color, Color::yellow());
    assert_eq!(texts[0].attr.fg_color, Color::white());

    // More names than desktops: the extra names are dropped.
    let texts = p.on_change(&DesktopState {
        number: 1,
        current: 0,
        names: vec!["a".to_owned(), "b".to_owned(), "c".to_owned()],
    });
    assert_eq!(texts.len(), 1);
    assert_eq!(texts[0].text, "a");
    assert_eq!(texts[0].attr.fg_color, Color::yellow());
}

#[test]
fn volume_fold_reports_only_changes() {
    let mut fold = OpenBsd::new();

    // An irrelevant control determines the state for the first time.
    let changed = fold.on_control(&Control {
        name: "input".to_owned(),
        func: "level".to_owned(),
        value: 10,
    });
    assert_eq!(changed, Some(State::Unmuted { percent: 1 }));

    // A level change on the output.
    let changed = fold.on_control(&Control {
        name: "output".to_owned(),
        func: "level".to_owned(),
        value: 255,
    });
    assert_eq!(changed, Some(State::Unmuted { percent: 100 }));

    // The same level again: no change, nothing reported.
    let changed = fold.on_control(&Control {
        name: "output".to_owned(),
        func: "level".to_owned(),
        value: 255,
    });
    assert_eq!(changed, None);

    // Mute on, then off.
    let changed = fold.on_control(&Control {
        name: "output".to_owned(),
        func: "mute".to_owned(),
        value: 1,
    });
    assert_eq!(changed, Some(State::Muted));
    let changed = fold.on_control(&Control {
        name: "output".to_owned(),
        func: "mute".to_owned(),
        value: 0,
    });
    assert_eq!(changed, Some(State::Unmuted { percent: 100 }));
}

#[test]
fn volume_percentage_rounds_to_nearest() {
    let fold = OpenBsd::new();
    assert_eq!(fold.percentage(0), 0);
    assert_eq!(fold.percentage(255), 100);
    assert_eq!(fold.percentage(128), 50);
    assert_eq!(fold.percentage(129), 51);
}

#[test]
fn volume_on_change_renders_each_state() {
    let v = Volume::new(attrs());
    assert_eq!(v.on_change(State::Unknown).unwrap()[0].text, "?");
    assert_eq!(v.on_change(State::Muted).unwrap()[0].text, "M");
    assert_eq!(v.on_change(State::Unmuted { percent: 37 }).unwrap()[0].text, "37%");
}

#[test]
fn sky_conditions_map_to_symbols() {
    assert_eq!(weather_sky_condition("clear".to_owned()), "🌣");
    assert_eq!(weather_sky_condition("sunny".to_owned()), "🌣");
    assert_eq!(weather_sky_condition("mostly clear".to_owned()), "🌤");
    assert_eq!(weather_sky_condition("mostly sunny".to_owned()), "🌤");
    assert_eq!(weather_sky_condition("partly sunny".to_owned()), "⛅");
    assert_eq!(weather_sky_condition("partly cloudy".to_owned()), "⛅");
    assert_eq!(weather_sky_condition("cloudy".to_owned()), "☁");
    assert_eq!(weather_sky_condition("overcast".to_owned()), "☁");
    assert_eq!(weather_sky_condition("mostly cloudy".to_owned()), "🌧");
    assert_eq!(weather_sky_condition("considerable cloudines".to_owned()), "☔");
    assert_eq!(weather_sky_condition("fair".to_owned()), "🌑");
    assert_eq!(weather_sky_condition("hailing frogs".to_owned()), "🌑");
}

#[test]
fn widget_errors_describe_themselves() {
    assert_eq!(WidgetError::UnknownStatus.describe(), "unknown status");
    assert_eq!(WidgetError::InvalidValue.describe(), "invalid value");
    assert_eq!(WidgetError::Unavailable.describe(), "unavailable");
}

#[test]
fn disk_info_scales_block_counts() {
    let info = DiskInfo::new(1000, 250, 200, 4096);
    assert_eq!(info.total, 4096000);
    assert_eq!(info.used, 750 * 4096);
    assert_eq!(info.free, 200 * 4096);
}

#[test]
fn disk_render_rounds_to_whole_gibibytes() {
    let gib: u128 = 1073741824;
    let info = DiskInfo { total: 10 * gib, used: 3 * gib + gib / 2, free: 6 * gib };
    // 3.5 GiB rounds up.
    assert_eq!(default_render(info), "Disk: 4 GiB/10 GiB");
    let info = DiskInfo { total: 10 * gib, used: 3 * gib + gib / 2 - 1, free: 6 * gib };
    assert_eq!(default_render(info), "Disk: 3 GiB/10 GiB");
}
