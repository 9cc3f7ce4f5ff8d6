use mongoc_rs::format::{enumerate_print, letter_print, normal_print, print, print_alias_line};

fn strings(items: &[&str]) -> Vec<String> {
    items.iter().map(|s| s.to_string()).collect()
}

#[test]
fn alias_line_joins_alias_and_item() {
    let line = print_alias_line("a".to_string(), "admin".to_string());
    assert_eq!(line, "a:\tadmin");
}

#[test]
fn plain_listing_reproduces_items() {
    let items = strings(&["alpha", "beta", "gamma"]);
    assert_eq!(normal_print(&items), items);
}

#[test]
fn plain_listing_of_one_item() {
    let items = strings(&["only"]);
    assert_eq!(normal_print(&items), items);
}

#[test]
fn tiered_print_without_alias_reproduces_items() {
    let items = strings(&["alpha", "beta"]);
    assert_eq!(print(&items, false, true), items);
    assert_eq!(print(&items, false, false), items);
}

#[test]
fn decimal_listing_counts_from_zero() {
    let items = strings(&["users", "orders", "logs"]);
    assert_eq!(
        enumerate_print(&items),
        strings(&["0:\tusers", "1:\torders", "2:\tlogs"])
    );
}

#[test]
fn decimal_listing_reaches_two_digit_aliases() {
    let items = strings(&["a", "b", "c", "d", "e", "f", "g", "h", "i", "j", "k"]);
    let lines = enumerate_print(&items);
    assert_eq!(lines.len(), 11);
    assert_eq!(lines[9], "9:\tj");
    assert_eq!(lines[10], "10:\tk");
}

#[test]
fn letter_listing_starts_at_the_digit_for_ten() {
    let items = strings(&["admin", "config", "local"]);
    assert_eq!(
        letter_print(&items),
        strings(&["a:\tadmin", "b:\tconfig", "c:\tlocal"])
    );
}

#[test]
fn letter_listing_covers_all_six_aliases() {
    let items = strings(&["p", "q", "r", "s", "t", "u"]);
    assert_eq!(
        letter_print(&items),
        strings(&["a:\tp", "b:\tq", "c:\tr", "d:\ts", "e:\tt", "f:\tu"])
    );
}

#[test]
fn tiered_print_picks_the_scheme_from_the_flags() {
    let items = strings(&["x", "y"]);
    assert_eq!(print(&items, true, true), strings(&["0:\tx", "1:\ty"]));
    assert_eq!(print(&items, true, false), strings(&["a:\tx", "b:\ty"]));
}

#[test]
fn empty_listing_prints_nothing() {
    let items: Vec<String> = Vec::new();
    assert_eq!(normal_print(&items), items);
    assert_eq!(enumerate_print(&items), items);
    assert_eq!(letter_print(&items), items);
}
