use pester::menu::{build_tray_menu, chat_action_id, truncated_label, MenuEntry};

fn assert_item(entry: &MenuEntry, id: &str, label: &str) {
    match entry {
        MenuEntry::Item { id: entry_id, label: entry_label } => {
            assert_eq!(entry_id, id);
            assert_eq!(entry_label, label);
        },
        MenuEntry::Separator => panic!("expected an item, found a separator"),
    }
}

fn assert_separator(entry: &MenuEntry) {
    assert!(matches!(entry, MenuEntry::Separator));
}

#[test]
fn empty_contact_list_gives_five_fixed_entries() {
    let menu = build_tray_menu(&Vec::new());
    assert_eq!(menu.len(), 5);
    assert_item(&menu[0], "open", "Open Pester");
    assert_separator(&menu[1]);
    assert_item(&menu[2], "new_contact", "New Contact…");
    assert_separator(&menu[3]);
    assert_item(&menu[4], "quit", "Quit");
}

#[test]
fn contacts_appear_in_input_order_after_their_separator() {
    let users = vec!["alice".to_string(), "bob".to_string()];
    let menu = build_tray_menu(&users);
    assert_eq!(menu.len(), 8);
    assert_item(&menu[0], "open", "Open Pester");
    assert_separator(&menu[1]);
    assert_item(&menu[2], "new_contact", "New Contact…");
    assert_separator(&menu[3]);
    assert_item(&menu[4], "chat_alice", "alice");
    assert_item(&menu[5], "chat_bob", "bob");
    assert_separator(&menu[6]);
    assert_item(&menu[7], "quit", "Quit");
}

#[test]
fn duplicates_and_order_pass_through_unchanged() {
    let users = vec!["bob".to_string(), "alice".to_string(), "bob".to_string()];
    let menu = build_tray_menu(&users);
    assert_eq!(menu.len(), 9);
    assert_item(&menu[4], "chat_bob", "bob");
    assert_item(&menu[5], "chat_alice", "alice");
    assert_item(&menu[6], "chat_bob", "bob");
}

#[test]
fn single_contact_menu_has_seven_entries() {
    let users = vec!["carol".to_string()];
    let menu = build_tray_menu(&users);
    assert_eq!(menu.len(), 7);
    assert_item(&menu[4], "chat_carol", "carol");
}

#[test]
fn label_of_twelve_characters_is_verbatim() {
    assert_eq!(truncated_label("abcdefghijkl"), "abcdefghijkl");
}

#[test]
fn label_of_short_identifier_is_verbatim() {
    assert_eq!(truncated_label("alice"), "alice");
    assert_eq!(truncated_label(""), "");
}

#[test]
fn label_of_thirteen_characters_is_truncated() {
    assert_eq!(truncated_label("abcdefghijklm"), "abcdefghijkl…");
}

#[test]
fn label_of_twenty_characters_is_truncated() {
    assert_eq!(truncated_label("abcdefghijklmnopqrst"), "abcdefghijkl…");
}

#[test]
fn label_of_one_hundred_characters_is_truncated() {
    let user: String = std::iter::repeat('x').take(100).collect();
    assert_eq!(truncated_label(&user), "xxxxxxxxxxxx…");
}

#[test]
fn truncation_counts_characters_not_bytes() {
    let user: String = std::iter::repeat('é').take(13).collect();
    let expected: String = std::iter::repeat('é').take(12).collect::<String>() + "…";
    assert_eq!(truncated_label(&user), expected);
}

#[test]
fn chat_action_id_prefixes_the_identifier() {
    assert_eq!(chat_action_id("alice"), "chat_alice");
    assert_eq!(chat_action_id(""), "chat_");
}
