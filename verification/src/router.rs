//! The tray event router: a stateless dispatcher from one tray interaction
//! to window commands, outward events, and process exit.

use vstd::prelude::*;
use vstd::string::*;
use crate::menu::chat_prefix;
use crate::window::WindowCommand;

verus! {

/// The prefix of every outward chat event payload.
pub open spec fn chat_payload_prefix() -> Seq<char> {
    "chat:"@
}

/// The name of the event channel on which the shell notifies the UI layer.
pub fn tray_event_name() -> (r: &'static str)
    ensures
        r@ == "tray-action"@,
{
    "tray-action"
}

/// What one tray interaction asks the host to do: a window command, at most
/// one outward event payload, and whether to terminate the process.
pub struct Dispatch {
    pub window: WindowCommand,
    pub emit: Option<String>,
    pub exit: bool,
}

/// The mathematical model of a [`Dispatch`]: its payload as characters.
#[verifier::ext_equal]
pub struct DispatchModel {
    pub window: WindowCommand,
    pub emit: Option<Seq<char>>,
    pub exit: bool,
}

impl View for Dispatch {
    type V = DispatchModel;

    open spec fn view(&self) -> DispatchModel {
        DispatchModel {
            window: self.window,
            emit: match self.emit {
                Some(p) => Some(p@),
                None => None,
            },
            exit: self.exit,
        }
    }
}

/// Whether an action id belongs to a contact entry: it starts with the
/// contact prefix.
pub open spec fn is_chat_id(id: Seq<char>) -> bool {
    id.len() >= chat_prefix().len() && id.take(chat_prefix().len() as int) == chat_prefix()
}

/// The contact identifier recovered from a contact action id by stripping
/// the prefix.
pub open spec fn chat_user_of(id: Seq<char>) -> Seq<char> {
    id.skip(chat_prefix().len() as int)
}

/// How a menu selection is dispatched:
/// "open" reveals the window; "quit" exits the process; "new_contact"
/// reveals the window and notifies the UI; a contact action id reveals the
/// window and notifies the UI with the recovered identifier; anything else
/// is ignored.
pub open spec fn spec_route(id: Seq<char>) -> DispatchModel {
    if id == "open"@ {
        DispatchModel { window: WindowCommand::Reveal, emit: None, exit: false }
    } else if id == "quit"@ {
        DispatchModel { window: WindowCommand::Keep, emit: None, exit: true }
    } else if id == "new_contact"@ {
        DispatchModel { window: WindowCommand::Reveal, emit: Some("new_contact"@), exit: false }
    } else if is_chat_id(id) {
        DispatchModel {
            window: WindowCommand::Reveal,
            emit: Some(chat_payload_prefix() + chat_user_of(id)),
            exit: false,
        }
    } else {
        DispatchModel { window: WindowCommand::Keep, emit: None, exit: false }
    }
}

/// Compare two string slices by their character sequences.
fn str_eq(a: &str, b: &str) -> (r: bool)
    ensures
        r == (a@ == b@),
{
    let sa = a.to_owned();
    let sb = b.to_owned();
    sa == sb
}

/// Strip the contact prefix from an action id, returning the raw contact
/// identifier, or `None` for an action id that is no contact entry's.
pub fn strip_chat_prefix(id: &str) -> (r: Option<String>)
    ensures
        match r {
            Some(user) => is_chat_id(id@) && user@ == chat_user_of(id@),
            None => !is_chat_id(id@),
        },
{
    proof {
        reveal_strlit("chat_");
    }
    let n = id.unicode_len();
    if n < 5 {
        None
    } else {
        let head = id.substring_char(0, 5);
        if str_eq(head, "chat_") {
            let rest = id.substring_char(5, n);
            proof {
                assert(rest@ =~= chat_user_of(id@));
            }
            Some(rest.to_owned())
        } else {
            None
        }
    }
}

/// Dispatch one menu selection by its action id.
pub fn route_menu_selection(id: &str) -> (d: Dispatch)
    ensures
        d@ == spec_route(id@),
{
    if str_eq(id, "open") {
        Dispatch { window: WindowCommand::Reveal, emit: None, exit: false }
    } else if str_eq(id, "quit") {
        Dispatch { window: WindowCommand::Keep, emit: None, exit: true }
    } else if str_eq(id, "new_contact") {
        Dispatch { window: WindowCommand::Reveal, emit: Some(String::from_str("new_contact")), exit: false }
    } else {
        match strip_chat_prefix(id) {
            Some(user) => {
                let mut payload = String::from_str("chat:");
                payload.append(user.as_str());
                Dispatch { window: WindowCommand::Reveal, emit: Some(payload), exit: false }
            },
            None => Dispatch { window: WindowCommand::Keep, emit: None, exit: false },
        }
    }
}

/// Action-id round trip: the identifier recovered from a contact entry's
/// action id is the original identifier, whatever characters it holds —
/// also one that holds the prefix text itself somewhere.
pub proof fn lemma_action_id_round_trip(user: Seq<char>)
    ensures
        is_chat_id(chat_prefix() + user),
        chat_user_of(chat_prefix() + user) == user,
{
    assert((chat_prefix() + user).take(chat_prefix().len() as int) =~= chat_prefix());
    assert((chat_prefix() + user).skip(chat_prefix().len() as int) =~= user);
}

/// A contact entry's action id is routed to a reveal of the window and one
/// outward event that carries the original identifier, and never to an exit.
pub proof fn lemma_chat_selection_routing(user: Seq<char>)
    ensures
        spec_route(chat_prefix() + user).window == WindowCommand::Reveal,
        spec_route(chat_prefix() + user).emit == Some(chat_payload_prefix() + user),
        !spec_route(chat_prefix() + user).exit,
{
    reveal_strlit("chat_");
    reveal_strlit("open");
    reveal_strlit("quit");
    reveal_strlit("new_contact");
    let id = chat_prefix() + user;
    assert(id[0] == 'c');
    assert(id != "open"@) by {
        assert("open"@[0] == 'o');
    }
    assert(id != "quit"@) by {
        assert("quit"@[0] == 'q');
    }
    assert(id != "new_contact"@) by {
        assert("new_contact"@[0] == 'n');
    }
    lemma_action_id_round_trip(user);
}

/// The process terminates exactly on the "quit" selection: no other action
/// id — "open", "new_contact", a contact entry, or anything unknown — exits.
pub proof fn lemma_exit_only_on_quit(id: Seq<char>)
    ensures
        spec_route(id).exit <==> id == "quit"@,
{
    reveal_strlit("open");
    reveal_strlit("quit");
    if id == "open"@ {
        assert("open"@[0] == 'o');
        assert("quit"@[0] == 'q');
        assert(id != "quit"@);
    }
}

/// A single click on the tray icon reveals (and focuses) the main window,
/// emits nothing, and never exits.
pub fn route_tray_icon_click() -> (d: Dispatch)
    ensures
        d@ == (DispatchModel { window: WindowCommand::Reveal, emit: None, exit: false }),
{
    Dispatch { window: WindowCommand::Reveal, emit: None, exit: false }
}

} // verus!
