//! The render state on concrete slot operations.

use cnx::bar::Bar;
use cnx::bridge::RawEvent;
use cnx::text::Attributes;
use cnx::text::Color;
use cnx::text::Font;
use cnx::text::Padding;
use cnx::text::Text;
use cnx::Position;

fn seg(label: &str) -> Text {
    Text {
        attr: Attributes {
            font: Font::new("Envy Code R 12"),
            fg_color: Color::white(),
            bg_color: Some(Color::blue()),
            padding: Padding::new(1, 2, 3, 4),
        },
        text: label.to_owned(),
        stretch: false,
        markup: true,
    }
}

#[test]
fn slots_are_registered_in_order() {
    let mut bar = Bar::new(Position::Top);
    assert_eq!(bar.len(), 0);
    assert_eq!(bar.add_content(Vec::new()), Ok(0));
    assert_eq!(bar.add_content(vec![seg("b")]), Ok(1));
    assert_eq!(bar.len(), 2);
    assert!(bar.content(0).is_empty());
    assert_eq!(bar.content(1)[0].text, "b");
}

#[test]
fn update_content_replaces_one_slot() {
    let mut bar = Bar::new(Position::Bottom);
    bar.add_content(Vec::new()).unwrap();
    bar.add_content(Vec::new()).unwrap();
    assert_eq!(bar.update_content(1, vec![seg("right")]), Ok(()));
    assert!(bar.content(0).is_empty());
    assert_eq!(bar.content(1)[0].text, "right");
    assert!(bar.content(1)[0].markup);
}

#[test]
fn update_content_twice_is_content_equal_to_once() {
    // Idempotence: identical segment sequences applied twice leave the
    // displayed content equal to a single application.
    let mut once = Bar::new(Position::Top);
    once.add_content(Vec::new()).unwrap();
    once.update_content(0, vec![seg("same")]).unwrap();

    let mut twice = Bar::new(Position::Top);
    twice.add_content(Vec::new()).unwrap();
    twice.update_content(0, vec![seg("same")]).unwrap();
    twice.update_content(0, vec![seg("same")]).unwrap();

    assert_eq!(once.content(0).len(), twice.content(0).len());
    assert_eq!(once.content(0)[0].text, twice.content(0)[0].text);
    assert_eq!(once.content(0)[0].attr.fg_color, twice.content(0)[0].attr.fg_color);
    assert_eq!(once.content(0)[0].markup, twice.content(0)[0].markup);
}

#[test]
fn process_event_leaves_content_alone() {
    let mut bar = Bar::new(Position::Top);
    bar.add_content(vec![seg("keep")]).unwrap();
    assert_eq!(bar.process_event(RawEvent { response_type: 12, atom: 0 }), Ok(()));
    assert_eq!(bar.content(0)[0].text, "keep");
}
