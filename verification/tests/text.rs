use todo_list::item::Item;
use todo_list::text::{decimal_text, line_of, render};

/// The switch of the terminal styling is one for the whole process: a test
/// that sets it holds this lock until it ends.
static STYLING: std::sync::Mutex<()> = std::sync::Mutex::new(());

fn styling(on: bool) -> std::sync::MutexGuard<'static, ()> {
    let held = STYLING.lock().unwrap_or_else(|poisoned| poisoned.into_inner());
    colored::control::set_override(on);
    held
}

#[test]
fn decimal_text_writes_the_digits() {
    assert_eq!(decimal_text(0), "0");
    assert_eq!(decimal_text(7), "7");
    assert_eq!(decimal_text(10), "10");
    assert_eq!(decimal_text(1905), "1905");
    assert_eq!(decimal_text(i32::MAX), "2147483647");
}

#[test]
fn decimal_text_writes_the_sign() {
    assert_eq!(decimal_text(-1), "-1");
    assert_eq!(decimal_text(-120), "-120");
    assert_eq!(decimal_text(i32::MIN), "-2147483648");
}

#[test]
fn decimal_text_agrees_with_the_standard_rendering() {
    for n in [-100000, -99, -10, -9, 0, 9, 10, 11, 99, 100, 101, 65535, 1000000] {
        assert_eq!(decimal_text(n), format!("{}", n));
    }
}

#[test]
fn line_of_puts_a_colon_and_a_space_after_the_id() {
    assert_eq!(line_of(1, "buy milk"), "1: buy milk");
    assert_eq!(line_of(42, ""), "42: ");
    assert_eq!(line_of(-3, ": "), "-3: : ");
}

#[test]
fn render_shows_an_open_item_as_it_is() {
    let _styling = styling(true);
    let item = Item { id: 2, note: String::from("walk dog"), is_done: false };
    assert_eq!(render(&item), "2: walk dog");
}

#[test]
fn render_strikes_a_done_item_where_styling_is_on() {
    let _styling = styling(true);
    let item = Item { id: 1, note: String::from("buy milk"), is_done: true };
    assert_eq!(render(&item), "1: \u{1b}[9mbuy milk\u{1b}[0m");
    let empty = Item { id: 3, note: String::new(), is_done: true };
    assert_eq!(render(&empty), "3: \u{1b}[9m\u{1b}[0m");
}

#[test]
fn render_resumes_the_strike_after_a_style_ends_inside_the_note() {
    let _styling = styling(true);
    let item = Item { id: 1, note: String::from("a\u{1b}[0mb"), is_done: true };
    assert_eq!(render(&item), "1: \u{1b}[9ma\u{1b}[0m\u{1b}[9mb\u{1b}[0m");
}

#[test]
fn render_leaves_a_done_item_plain_where_styling_is_off() {
    let _styling = styling(false);
    let item = Item { id: 1, note: String::from("buy milk"), is_done: true };
    assert_eq!(render(&item), "1: buy milk");
}
