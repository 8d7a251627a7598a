use kodapa::agenda::{read_agenda, Agenda, AgendaPoint};
use kodapa::store::{StoreError, Stored};

fn point(title: &str, adder: &str) -> AgendaPoint {
    AgendaPoint::new(title.to_string(), adder.to_string())
}

#[test]
fn empty_agenda_renders_as_its_own_sentence() {
    assert_eq!(Agenda::new().render(), "Empty agenda");
}

#[test]
fn one_point_renders_as_title_and_adder() {
    let mut agenda = Agenda::new();
    agenda.push(point("Buy milk", "alice"));
    assert_eq!(agenda.render(), "Buy milk (alice)");
}

#[test]
fn points_render_one_per_line_in_the_order_added() {
    let mut agenda = Agenda::new();
    agenda.push(point("Buy milk", "alice"));
    agenda.push(point("Bring snacks", "bob"));
    agenda.push(point("", "carol"));
    assert_eq!(agenda.render(), "Buy milk (alice)\nBring snacks (bob)\n (carol)");
    assert_eq!(agenda.len(), 3);
    assert_eq!(agenda.point(0).title(), "Buy milk");
    assert_eq!(agenda.point(1).adder(), "bob");
    assert_eq!(agenda.point(2).title(), "");
}

#[test]
fn point_renders_as_one_line() {
    assert_eq!(point("Buy milk", "alice").render(), "Buy milk (alice)");
    assert_eq!(point("", "").render(), " ()");
}

#[test]
fn add_message_quotes_the_title() {
    assert_eq!(point("Bring snacks", "alice").to_add_message(), "'Bring snacks' added by alice");
    assert_eq!(point("", "bob").to_add_message(), "'' added by bob");
}

#[test]
fn a_copy_keeps_title_and_adder() {
    let copy = point("Buy milk", "alice").clone();
    assert_eq!(copy.title(), "Buy milk");
    assert_eq!(copy.adder(), "alice");
}

#[test]
fn a_copy_of_an_agenda_has_the_same_points() {
    let mut agenda = Agenda::new();
    agenda.push(point("Buy milk", "alice"));
    agenda.push(point("Bring snacks", "bob"));
    let copy = agenda.clone();
    agenda.clear();
    assert_eq!(copy.len(), 2);
    assert_eq!(copy.render(), "Buy milk (alice)\nBring snacks (bob)");
    assert!(Agenda::new().clone().is_empty());
}

#[test]
fn clear_leaves_no_point() {
    let mut agenda = Agenda::new();
    agenda.push(point("Buy milk", "alice"));
    assert!(!agenda.is_empty());
    agenda.clear();
    assert!(agenda.is_empty());
    assert_eq!(agenda.len(), 0);
    assert_eq!(agenda.render(), "Empty agenda");
}

#[test]
fn a_store_without_a_document_holds_the_empty_agenda() {
    let agenda = read_agenda(Stored::Missing).unwrap();
    assert!(agenda.is_empty());
}

#[test]
fn a_found_agenda_is_read_as_it_was_written() {
    let mut written = Agenda::new();
    written.push(point("Buy milk", "alice"));
    written.push(point("Bring snacks", "bob"));
    let read = read_agenda(Stored::Found(written)).unwrap();
    assert_eq!(read.len(), 2);
    assert_eq!(read.point(0).title(), "Buy milk");
    assert_eq!(read.point(0).adder(), "alice");
    assert_eq!(read.point(1).title(), "Bring snacks");
    assert_eq!(read.point(1).adder(), "bob");
}

#[test]
fn a_document_that_cannot_be_used_is_an_error() {
    assert_eq!(read_agenda(Stored::Malformed).unwrap_err(), StoreError::Malformed);
    assert_eq!(read_agenda(Stored::Unreadable).unwrap_err(), StoreError::Unreadable);
}

#[test]
fn store_errors_describe_themselves() {
    assert_eq!(StoreError::Malformed.describe(), "the stored document is malformed");
    assert_eq!(StoreError::Unreadable.describe(), "the stored document cannot be read");
}
