//! The tray context menu: labels, action ids, and the menu entry list.
//!
//! A menu is modeled as a sequence of entries.  Three fixed items (Open,
//! New Contact, Quit) are always present; a non-empty recent-contact list
//! adds its own separator and one item per contact, in input order.

use vstd::prelude::*;
use vstd::string::*;

verus! {

/// Number of characters of a contact identifier shown verbatim in its label.
pub const MAX_LABEL_CHARS: usize = 12;

/// The character appended to a label whose identifier was truncated.
pub const ELLIPSIS: char = '…';

/// The action-id prefix marking a menu entry as a contact ("chat") entry.
pub open spec fn chat_prefix() -> Seq<char> {
    "chat_"@
}

/// The label shown for a contact identifier: verbatim if it has at most
/// [`MAX_LABEL_CHARS`] characters, otherwise its first [`MAX_LABEL_CHARS`]
/// characters followed by [`ELLIPSIS`].
pub open spec fn spec_label(user: Seq<char>) -> Seq<char> {
    if user.len() <= MAX_LABEL_CHARS {
        user
    } else {
        user.take(MAX_LABEL_CHARS as int).push(ELLIPSIS)
    }
}

/// Compute the display label of a contact identifier.
pub fn truncated_label(user: &str) -> (r: String)
    ensures
        r@ == spec_label(user@),
{
    let n = user.unicode_len();
    if n <= MAX_LABEL_CHARS {
        user.to_owned()
    } else {
        let head = user.substring_char(0, MAX_LABEL_CHARS);
        let mut r = String::from_str(head);
        r.append("…");
        proof {
            reveal_strlit("…");
            assert(r@ =~= spec_label(user@));
        }
        r
    }
}

/// Build the action id of a contact entry by prefixing the raw identifier.
pub fn chat_action_id(user: &str) -> (r: String)
    ensures
        r@ == chat_prefix() + user@,
{
    let mut r = String::from_str("chat_");
    r.append(user);
    r
}

/// One entry of the tray context menu.
pub enum MenuEntry {
    /// A selectable item carrying an action id and a display label.
    Item { id: String, label: String },
    /// A visual separator.
    Separator,
}

/// The mathematical model of a menu entry: its strings as character
/// sequences.
pub enum EntryModel {
    Item { id: Seq<char>, label: Seq<char> },
    Separator,
}

impl View for MenuEntry {
    type V = EntryModel;

    open spec fn view(&self) -> EntryModel {
        match self {
            MenuEntry::Item { id, label } => EntryModel::Item { id: id@, label: label@ },
            MenuEntry::Separator => EntryModel::Separator,
        }
    }
}

/// The model of a whole entry list.
pub open spec fn entries_model(entries: Seq<MenuEntry>) -> Seq<EntryModel> {
    entries.map_values(|e: MenuEntry| e@)
}

/// The fixed "Open" entry.
pub open spec fn open_entry() -> EntryModel {
    EntryModel::Item { id: "open"@, label: "Open Pester"@ }
}

/// The fixed "New Contact" entry.
pub open spec fn new_contact_entry() -> EntryModel {
    EntryModel::Item { id: "new_contact"@, label: "New Contact…"@ }
}

/// The fixed "Quit" entry.
pub open spec fn quit_entry() -> EntryModel {
    EntryModel::Item { id: "quit"@, label: "Quit"@ }
}

/// The menu entry of one contact: its prefixed action id and its label.
pub open spec fn contact_entry(user: Seq<char>) -> EntryModel {
    EntryModel::Item { id: chat_prefix() + user, label: spec_label(user) }
}

/// The menu's fixed head: Open, a separator, New Contact.
pub open spec fn menu_head() -> Seq<EntryModel> {
    seq![open_entry(), EntryModel::Separator, new_contact_entry()]
}

/// The contact entries of a contact list, one per contact, in input order.
pub open spec fn contact_entries(users: Seq<Seq<char>>) -> Seq<EntryModel> {
    users.map_values(|u: Seq<char>| contact_entry(u))
}

/// The contact section: empty for an empty contact list, otherwise a
/// separator followed by one entry per contact, in input order.
pub open spec fn contact_section(users: Seq<Seq<char>>) -> Seq<EntryModel> {
    if users.len() == 0 {
        Seq::<EntryModel>::empty()
    } else {
        seq![EntryModel::Separator] + contact_entries(users)
    }
}

/// The menu's fixed tail: a separator, then Quit.
pub open spec fn menu_tail() -> Seq<EntryModel> {
    seq![EntryModel::Separator, quit_entry()]
}

/// The full menu for a given contact list.
pub open spec fn menu_model(users: Seq<Seq<char>>) -> Seq<EntryModel> {
    menu_head() + contact_section(users) + menu_tail()
}

/// Appending an entry to a list appends its model to the list's model.
pub broadcast proof fn lemma_entries_model_push(entries: Seq<MenuEntry>, e: MenuEntry)
    ensures
        #[trigger] entries_model(entries.push(e)) == entries_model(entries).push(e@),
{
    assert(entries_model(entries.push(e)) =~= entries_model(entries).push(e@));
}

/// Appending a contact to a contact list appends its entry to the contact
/// entries.
pub broadcast proof fn lemma_contact_entries_push(users: Seq<Seq<char>>, u: Seq<char>)
    ensures
        #[trigger] contact_entries(users.push(u)) == contact_entries(users).push(contact_entry(u)),
{
    assert(contact_entries(users.push(u)) =~= contact_entries(users).push(contact_entry(u)));
}

/// Rebuild the tray menu's entry list from the recent-contact identifiers.
/// The list is complete and in construction order; installing it in place
/// of the previous menu is the host's task.
pub fn build_tray_menu(recent_users: &Vec<String>) -> (entries: Vec<MenuEntry>)
    ensures
        entries_model(entries@) == menu_model(recent_users.deep_view()),
{
    broadcast use {lemma_entries_model_push, lemma_contact_entries_push};

    let ghost users = recent_users.deep_view();
    let mut entries: Vec<MenuEntry> = Vec::new();
    entries.push(
        MenuEntry::Item { id: String::from_str("open"), label: String::from_str("Open Pester") },
    );
    entries.push(MenuEntry::Separator);
    entries.push(
        MenuEntry::Item {
            id: String::from_str("new_contact"),
            label: String::from_str("New Contact…"),
        },
    );
    proof {
        assert(entries_model(entries@) =~= menu_head());
    }
    if recent_users.len() > 0 {
        entries.push(MenuEntry::Separator);
        proof {
            assert(entries_model(entries@) =~= menu_head() + seq![EntryModel::Separator]);
        }
        let n = recent_users.len();
        for i in 0..n
            invariant
                n == recent_users.len(),
                users == recent_users.deep_view(),
                entries_model(entries@) == menu_head() + seq![EntryModel::Separator]
                    + contact_entries(users.take(i as int)),
        {
            let id = chat_action_id(recent_users[i].as_str());
            let label = truncated_label(recent_users[i].as_str());
            let item = MenuEntry::Item { id, label };
            proof {
                assert(users[i as int] == recent_users@[i as int]@);
                assert(item@ == contact_entry(users[i as int]));
            }
            let ghost prev = entries@;
            entries.push(item);
            proof {
                let e = entries@.last();
                assert(entries@ == prev.push(e));
                assert(e@ == contact_entry(users[i as int]));
                lemma_entries_model_push(prev, e);
                assert(users.take(i + 1) =~= users.take(i as int).push(users[i as int]));
                lemma_contact_entries_push(users.take(i as int), users[i as int]);
                assert(entries_model(entries@) =~= menu_head() + seq![EntryModel::Separator]
                    + contact_entries(users.take(i + 1)));
            }
        }
        proof {
            assert(users.take(users.len() as int) =~= users);
            assert(entries_model(entries@) =~= menu_head() + contact_section(users));
        }
    }
    proof {
        assert(entries_model(entries@) =~= menu_head() + contact_section(users));
    }
    entries.push(MenuEntry::Separator);
    entries.push(MenuEntry::Item { id: String::from_str("quit"), label: String::from_str("Quit") });
    proof {
        assert(entries_model(entries@) =~= menu_model(users));
    }
    entries
}

/// Truncation rule: an identifier of at most [`MAX_LABEL_CHARS`] characters
/// labels its entry verbatim; a longer one is cut to its first
/// [`MAX_LABEL_CHARS`] characters, with the ellipsis appended.
pub proof fn lemma_label_truncation(user: Seq<char>)
    ensures
        user.len() <= MAX_LABEL_CHARS ==> spec_label(user) == user,
        user.len() > MAX_LABEL_CHARS ==> spec_label(user) == user.take(MAX_LABEL_CHARS as int).push(
            ELLIPSIS,
        ),
        user.len() > MAX_LABEL_CHARS ==> spec_label(user).len() == MAX_LABEL_CHARS + 1,
{
}

/// The shape of every rebuilt menu: the three fixed entries always stand at
/// their places, an empty contact list leaves exactly the five fixed
/// entries, and a non-empty list of n contacts adds its own separator and
/// its n entries, in input order, for 6 + n entries in all.
pub proof fn lemma_menu_shape(users: Seq<Seq<char>>)
    ensures
        users.len() == 0 ==> menu_model(users) == seq![
            open_entry(),
            EntryModel::Separator,
            new_contact_entry(),
            EntryModel::Separator,
            quit_entry(),
        ],
        users.len() == 0 ==> menu_model(users).len() == 5,
        users.len() > 0 ==> menu_model(users).len() == 6 + users.len(),
        menu_model(users)[0] == open_entry(),
        menu_model(users)[1] == EntryModel::Separator,
        menu_model(users)[2] == new_contact_entry(),
        users.len() > 0 ==> menu_model(users)[3] == EntryModel::Separator,
        users.len() > 0 ==> forall|k: int|
            4 <= k < 4 + users.len() ==> menu_model(users)[k] == contact_entry(users[k - 4]),
        menu_model(users)[menu_model(users).len() - 2] == EntryModel::Separator,
        menu_model(users)[menu_model(users).len() - 1] == quit_entry(),
{
    if users.len() == 0 {
        assert(menu_model(users) =~= seq![
            open_entry(),
            EntryModel::Separator,
            new_contact_entry(),
            EntryModel::Separator,
            quit_entry(),
        ]);
    } else {
        assert forall|k: int| 4 <= k < 4 + users.len() implies menu_model(users)[k]
            == contact_entry(users[k - 4]) by {
            assert(menu_model(users)[k] == contact_entries(users)[k - 4]);
        }
    }
}

} // verus!
