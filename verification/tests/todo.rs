use todo_list::clock::current_date;
use todo_list::command::add_todo_item;
use todo_list::command::format_item_line;
use todo_list::command::parse_choice;
use todo_list::command::remove_item;
use todo_list::command::show_items;
use todo_list::command::Choice;
use todo_list::command::RemoveError;
use todo_list::date::format_dmy;
use todo_list::date::parse_ymd;
use todo_list::date::Date;
use todo_list::digits::parse_usize;
use todo_list::digits::render_usize;
use todo_list::item::TodoItem;
use todo_list::store::ItemStore;
use todo_list::store::StoreError;

fn date(year: u16, month: u8, day: u8) -> Date {
    Date::new(year, month, day).unwrap()
}

#[test]
fn parse_ymd_accepts_a_calendar_date() {
    assert_eq!(parse_ymd("2024-01-15"), Some(date(2024, 1, 15)));
    assert_eq!(parse_ymd("0001-12-31"), Some(date(1, 12, 31)));
    assert_eq!(parse_ymd("9999-01-01"), Some(date(9999, 1, 1)));
}

#[test]
fn parse_ymd_rejects_other_shapes() {
    assert_eq!(parse_ymd("not-a-date"), None);
    assert_eq!(parse_ymd("15/01/2024"), None);
    assert_eq!(parse_ymd("tomorrow"), None);
    assert_eq!(parse_ymd(""), None);
    assert_eq!(parse_ymd("2024-1-15"), None);
    assert_eq!(parse_ymd("2024-01-15 "), None);
    assert_eq!(parse_ymd("2024_01_15"), None);
}

#[test]
fn parse_ymd_rejects_impossible_dates() {
    assert_eq!(parse_ymd("2024-13-01"), None);
    assert_eq!(parse_ymd("2024-00-10"), None);
    assert_eq!(parse_ymd("2024-04-31"), None);
    assert_eq!(parse_ymd("2024-01-00"), None);
}

#[test]
fn parse_ymd_knows_leap_years() {
    assert_eq!(parse_ymd("2024-02-29"), Some(date(2024, 2, 29)));
    assert_eq!(parse_ymd("2023-02-29"), None);
    assert_eq!(parse_ymd("1900-02-29"), None);
    assert_eq!(parse_ymd("2000-02-29"), Some(date(2000, 2, 29)));
}

#[test]
fn format_dmy_pads_day_month_year() {
    assert_eq!(format_dmy(&date(2030, 1, 1)), "01-01-2030");
    assert_eq!(format_dmy(&date(2024, 12, 31)), "31-12-2024");
    assert_eq!(format_dmy(&date(7, 3, 9)), "09-03-0007");
}

#[test]
fn date_new_refuses_invalid_triples() {
    assert_eq!(Date::new(2024, 2, 30), None);
    assert_eq!(Date::new(2024, 0, 1), None);
    assert_eq!(Date::new(2024, 1, 0), None);
    assert!(Date::new(2024, 2, 29).is_some());
}

#[test]
fn parse_usize_reads_plain_numbers() {
    assert_eq!(parse_usize("0"), Some(0));
    assert_eq!(parse_usize("17"), Some(17));
    assert_eq!(parse_usize("00042"), Some(42));
}

#[test]
fn parse_usize_rejects_everything_else() {
    assert_eq!(parse_usize(""), None);
    assert_eq!(parse_usize("-1"), None);
    assert_eq!(parse_usize("1.5"), None);
    assert_eq!(parse_usize("two"), None);
    assert_eq!(parse_usize(" 3"), None);
    assert_eq!(parse_usize("99999999999999999999999999"), None);
}

#[test]
fn render_usize_writes_decimal() {
    assert_eq!(render_usize(0), "0");
    assert_eq!(render_usize(7), "7");
    assert_eq!(render_usize(42), "42");
    assert_eq!(render_usize(90210), "90210");
}

#[test]
fn parse_choice_names_the_four_actions() {
    assert_eq!(parse_choice("0"), Choice::Exit);
    assert_eq!(parse_choice("1"), Choice::Add);
    assert_eq!(parse_choice("2"), Choice::Remove);
    assert_eq!(parse_choice("3"), Choice::Show);
    assert_eq!(parse_choice("4"), Choice::Invalid);
    assert_eq!(parse_choice(""), Choice::Invalid);
    assert_eq!(parse_choice("10"), Choice::Invalid);
    assert_eq!(parse_choice("exit"), Choice::Invalid);
}

#[test]
fn new_item_starts_clean() {
    let item = TodoItem::new(
        String::from("Water plants"),
        String::from("The ones on the balcony"),
        Some(date(2026, 6, 1)),
    );
    assert_eq!(item.title, "Water plants");
    assert_eq!(item.description, "The ones on the balcony");
    assert!(!item.done);
    assert_eq!(item.completed_at, None);
    assert_eq!(item.expires_at, Some(date(2026, 6, 1)));
}

#[test]
fn fresh_items_get_distinct_ids() {
    let a = TodoItem::new(String::from("a"), String::from("a"), None);
    let b = TodoItem::new(String::from("b"), String::from("b"), None);
    assert_ne!(a.id, b.id);
}

#[test]
fn adding_items_lists_them_in_order() {
    let mut store = ItemStore::new();
    let titles = ["first", "second", "third", "fourth", "fifth"];
    for t in titles {
        store.add(TodoItem::new(String::from(t), String::from("d"), None));
    }
    assert_eq!(store.count(), 5);
    let items = store.list();
    assert_eq!(items.len(), 5);
    for (i, t) in titles.iter().enumerate() {
        assert_eq!(&items[i].title, t);
    }
}

#[test]
fn removing_a_valid_position_drops_exactly_that_item() {
    let mut store = ItemStore::new();
    for t in ["keep one", "drop me", "keep two"] {
        store.add(TodoItem::new(String::from(t), String::from("d"), None));
    }
    let removed = store.remove_at(1).unwrap();
    assert_eq!(removed.title, "drop me");
    assert_eq!(store.count(), 2);
    let items = store.list();
    assert_eq!(items[0].title, "keep one");
    assert_eq!(items[1].title, "keep two");
    assert!(items.iter().all(|it| it.title != "drop me"));
}

#[test]
fn removing_an_invalid_position_reports_and_changes_nothing() {
    let mut store = ItemStore::new();
    store.add(TodoItem::new(String::from("only"), String::from("d"), None));
    assert_eq!(store.remove_at(1).unwrap_err(), StoreError::IndexOutOfRange);
    assert_eq!(store.remove_at(usize::MAX).unwrap_err(), StoreError::IndexOutOfRange);
    assert_eq!(store.count(), 1);
    assert_eq!(store.list()[0].title, "only");

    let mut empty = ItemStore::new();
    assert_eq!(empty.remove_at(0).unwrap_err(), StoreError::IndexOutOfRange);
    assert_eq!(empty.count(), 0);
}

#[test]
fn remove_command_rejects_text_that_is_no_number() {
    let mut store = ItemStore::new();
    store.add(TodoItem::new(String::from("only"), String::from("d"), None));
    assert_eq!(remove_item(&mut store, "abc").unwrap_err(), RemoveError::NotANumber);
    assert_eq!(remove_item(&mut store, "-1").unwrap_err(), RemoveError::NotANumber);
    assert_eq!(remove_item(&mut store, "").unwrap_err(), RemoveError::NotANumber);
    assert_eq!(remove_item(&mut store, "1").unwrap_err(), RemoveError::IndexOutOfRange);
    assert_eq!(store.count(), 1);
    let removed = remove_item(&mut store, "0").unwrap();
    assert_eq!(removed.title, "only");
    assert_eq!(store.count(), 0);
}

#[test]
fn toggling_completion_stamps_today_and_back() {
    let today = date(2026, 10, 8);
    let later = date(2026, 10, 9);
    let mut item = TodoItem::new(String::from("t"), String::from("d"), None);
    item.toggle_completed(today);
    assert!(item.done);
    assert_eq!(item.completed_at, Some(today));
    item.toggle_completed(later);
    assert!(!item.done);
    assert_eq!(item.completed_at, None);
}

#[test]
fn set_completed_follows_the_flag() {
    let today = date(2025, 5, 5);
    let mut item = TodoItem::new(String::from("t"), String::from("d"), None);
    item.set_completed(true, today);
    assert!(item.done);
    assert_eq!(item.completed_at, Some(today));
    item.set_completed(false, today);
    assert!(!item.done);
    assert_eq!(item.completed_at, None);
}

#[test]
fn the_clock_yields_a_real_date() {
    let today = current_date().unwrap();
    assert!(today.year <= 9999);
    assert!((1..=12).contains(&today.month));
    assert!((1..=31).contains(&today.day));
}

#[test]
fn buy_milk_end_to_end() {
    let mut store = ItemStore::new();
    assert_eq!(store.count(), 0);
    add_todo_item(
        &mut store,
        String::from("Buy milk"),
        String::from("2% milk"),
        "2030-01-01",
    );
    assert_eq!(store.count(), 1);
    let lines = show_items(&store);
    assert_eq!(lines.len(), 1);
    assert_eq!(lines[0], "#0 | [Buy milk] | 2% milk | 01-01-2030");
    let removed = store.remove_at(0).unwrap();
    assert_eq!(removed.title, "Buy milk");
    assert_eq!(store.count(), 0);
}

#[test]
fn unparseable_expiration_is_silently_absent() {
    let mut store = ItemStore::new();
    add_todo_item(
        &mut store,
        String::from("Call home"),
        String::from("before noon"),
        "tomorrow",
    );
    assert_eq!(store.count(), 1);
    assert_eq!(store.get(0).expires_at, None);
    let lines = show_items(&store);
    assert_eq!(lines[0], "#0 | [Call home] | before noon | No expiration date");
}

#[test]
fn listing_numbers_every_position() {
    let mut store = ItemStore::new();
    for i in 0..12 {
        add_todo_item(
            &mut store,
            format!("task {}", i),
            String::from("d"),
            "2031-12-31",
        );
    }
    let lines = show_items(&store);
    assert_eq!(lines.len(), 12);
    assert_eq!(lines[10], "#10 | [task 10] | d | 31-12-2031");
    let item = store.get(3);
    assert_eq!(format_item_line(3, item), "#3 | [task 3] | d | 31-12-2031");
}
