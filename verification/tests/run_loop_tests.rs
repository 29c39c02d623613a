//! End-to-end scenarios through the run loop: widgets producing at their own
//! pace, failures recovered per slot, and the fatal bridge path.

use cnx::bridge::RawEvent;
use cnx::bridge::PROPERTY_NOTIFY;
use cnx::text::Attributes;
use cnx::text::Color;
use cnx::text::Font;
use cnx::text::Padding;
use cnx::text::Text;
use cnx::widget::WidgetError;
use cnx::widget::WidgetUpdate;
use cnx::Cnx;
use cnx::CnxError;
use cnx::LoopStep;
use cnx::Position;

fn attrs() -> Attributes {
    Attributes {
        font: Font::new("Envy Code R 12"),
        fg_color: Color::white(),
        bg_color: None,
        padding: Padding::new(8, 8, 0, 0),
    }
}

fn content(label: &str) -> WidgetUpdate {
    Ok(vec![Text { attr: attrs(), text: label.to_owned(), stretch: false, markup: false }])
}

fn slot_text(cnx: &Cnx, idx: usize) -> String {
    let texts = cnx.bar().content(idx);
    if texts.is_empty() {
        String::new()
    } else {
        texts[0].text.clone()
    }
}

#[test]
fn three_widgets_with_distinct_periods() {
    // Three widgets at indices 0, 1, 2, ticking at periods of 1, 2 and 3
    // simulated time units. After the simulated run, each slot holds the
    // most recent production of its own widget, whatever the interleaving.
    let mut cnx = Cnx::new(Position::Top);
    let w0 = cnx.add_widget();
    let w1 = cnx.add_widget();
    let w2 = cnx.add_widget();
    assert_eq!((w0, w1, w2), (0, 1, 2));

    for t in 1u64..=6 {
        cnx.deliver_update(w0, content(&format!("w0@{}", t)));
        if t % 2 == 0 {
            cnx.deliver_update(w1, content(&format!("w1@{}", t)));
        }
        if t % 3 == 0 {
            cnx.deliver_update(w2, content(&format!("w2@{}", t)));
        }
        assert_eq!(cnx.run(), Ok(()));
    }

    assert_eq!(slot_text(&cnx, 0), "w0@6");
    assert_eq!(slot_text(&cnx, 1), "w1@6");
    assert_eq!(slot_text(&cnx, 2), "w2@6");
}

#[test]
fn failure_keeps_stale_content_until_next_success() {
    // A widget yields one failure between two successes: the slot keeps its
    // stale content across the failure and changes only on the next
    // success.
    let mut cnx = Cnx::new(Position::Bottom);
    let w = cnx.add_widget();

    cnx.deliver_update(w, content("first"));
    assert_eq!(cnx.run(), Ok(()));
    assert_eq!(slot_text(&cnx, w), "first");

    cnx.deliver_update(w, Err(WidgetError::Unavailable));
    assert_eq!(cnx.run_step(), LoopStep::WidgetFailed(w, WidgetError::Unavailable));
    assert_eq!(slot_text(&cnx, w), "first");

    cnx.deliver_update(w, content("second"));
    assert_eq!(cnx.run(), Ok(()));
    assert_eq!(slot_text(&cnx, w), "second");
}

#[test]
fn fatal_bridge_error_stops_the_loop() {
    // The OS-level wait fails: the run loop reports the fatal error at
    // once, and pending widget updates are not applied afterwards.
    let mut cnx = Cnx::new(Position::Top);
    let w = cnx.add_widget();
    cnx.deliver_update(w, content("before"));
    assert_eq!(cnx.run(), Ok(()));
    assert_eq!(slot_text(&cnx, w), "before");

    cnx.deliver_update(w, content("after"));
    cnx.fail_connection();
    assert_eq!(cnx.run(), Err(CnxError::BridgeFatal));
    // The loop stopped before the widget arm: the slot still shows the old
    // content, and running again only reports the same fatal condition.
    assert_eq!(slot_text(&cnx, w), "before");
    assert_eq!(cnx.run_step(), LoopStep::Fatal);
    assert_eq!(cnx.run(), Err(CnxError::BridgeFatal));
    assert_eq!(slot_text(&cnx, w), "before");
}

#[test]
fn events_and_updates_interleave_without_loss() {
    // Raw display-server events and widget updates in one run: events go to
    // the bar's event handler, updates to the slots, neither starves.
    let mut cnx = Cnx::new(Position::Top);
    let w = cnx.add_widget();

    cnx.deliver_event(RawEvent { response_type: 12, atom: 0 });
    cnx.deliver_update(w, content("tick"));
    cnx.deliver_event(RawEvent { response_type: PROPERTY_NOTIFY, atom: 4 });

    let step1 = cnx.run_step();
    assert_eq!(step1, LoopStep::HandledEvent(RawEvent { response_type: 12, atom: 0 }));
    let step2 = cnx.run_step();
    assert_eq!(step2, LoopStep::HandledEvent(RawEvent { response_type: PROPERTY_NOTIFY, atom: 4 }));
    let step3 = cnx.run_step();
    assert_eq!(step3, LoopStep::UpdatedSlot(w));
    assert_eq!(cnx.run_step(), LoopStep::Idle);
    assert_eq!(slot_text(&cnx, w), "tick");
}

#[test]
fn updates_before_registration_of_later_widgets_keep_indices() {
    // Slot indices are dense and stable: content lands at the index handed
    // out at registration.
    let mut cnx = Cnx::new(Position::Top);
    let a = cnx.add_widget();
    let b = cnx.add_widget();
    cnx.deliver_update(b, content("bee"));
    cnx.deliver_update(a, content("ay"));
    assert_eq!(cnx.run(), Ok(()));
    assert_eq!(slot_text(&cnx, a), "ay");
    assert_eq!(slot_text(&cnx, b), "bee");
    assert_eq!(cnx.widget_count(), 2);
}
