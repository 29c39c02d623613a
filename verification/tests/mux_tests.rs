//! The stream multiplexer on concrete interleavings.

use cnx::mux::Mux;
use cnx::text::Attributes;
use cnx::text::Color;
use cnx::text::Font;
use cnx::text::Padding;
use cnx::text::Text;
use cnx::widget::WidgetError;
use cnx::widget::WidgetUpdate;

fn attrs() -> Attributes {
    Attributes {
        font: Font::new("Envy Code R 12"),
        fg_color: Color::white(),
        bg_color: None,
        padding: Padding::new(0, 0, 0, 0),
    }
}

fn content(label: &str) -> WidgetUpdate {
    Ok(vec![Text { attr: attrs(), text: label.to_owned(), stretch: false, markup: false }])
}

fn label_of(u: &WidgetUpdate) -> String {
    u.as_ref().unwrap()[0].text.clone()
}

#[test]
fn empty_mux_has_nothing_ready() {
    let mut mux = Mux::new();
    assert!(mux.poll().is_none());
    let idx = mux.add_source();
    assert_eq!(idx, 0);
    assert!(mux.poll().is_none());
}

#[test]
fn per_source_order_is_preserved_across_interleaving() {
    let mut mux = Mux::new();
    let a = mux.add_source();
    let b = mux.add_source();
    assert_eq!((a, b), (0, 1));

    // Interleave productions of the two sources arbitrarily.
    mux.push_production(a, content("a1"));
    mux.push_production(b, content("b1"));
    mux.push_production(a, content("a2"));
    mux.push_production(a, content("a3"));
    mux.push_production(b, content("b2"));

    let mut from_a: Vec<String> = Vec::new();
    let mut from_b: Vec<String> = Vec::new();
    while let Some((idx, u)) = mux.poll() {
        if idx == 0 {
            from_a.push(label_of(&u));
        } else {
            from_b.push(label_of(&u));
        }
    }
    // Filtered to one index, the output equals that source's own order:
    // no reordering, no duplication, no loss.
    assert_eq!(from_a, vec!["a1".to_owned(), "a2".to_owned(), "a3".to_owned()]);
    assert_eq!(from_b, vec!["b1".to_owned(), "b2".to_owned()]);
}

#[test]
fn failures_flow_through_in_order() {
    let mut mux = Mux::new();
    let a = mux.add_source();
    mux.push_production(a, content("ok1"));
    mux.push_production(a, Err(WidgetError::Unavailable));
    mux.push_production(a, content("ok2"));

    let (_, first) = mux.poll().unwrap();
    assert_eq!(label_of(&first), "ok1");
    let (_, second) = mux.poll().unwrap();
    assert_eq!(second.unwrap_err(), WidgetError::Unavailable);
    let (_, third) = mux.poll().unwrap();
    assert_eq!(label_of(&third), "ok2");
    assert!(mux.poll().is_none());
}

#[test]
fn closed_source_leaves_merge_running() {
    let mut mux = Mux::new();
    let a = mux.add_source();
    let b = mux.add_source();
    mux.push_production(b, content("b1"));
    mux.close_source(a);
    // The merge goes on for the other source.
    let (idx, u) = mux.poll().unwrap();
    assert_eq!(idx, b);
    assert_eq!(label_of(&u), "b1");
    assert!(mux.poll().is_none());
}
