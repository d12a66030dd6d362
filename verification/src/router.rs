//! The event router: a pure dispatch table from the identifier carried by a
//! menu activation event to exactly one application action.
//!
//! The router holds no state across invocations. Each event is mapped
//! independently, and an identifier without a table entry is intentionally a
//! silent no-op (never an error), so items may be added to the menu without
//! updating the router in lockstep.

use vstd::prelude::*;
use vstd::string::StringExecFns;

verus! {

/// An activation event as the platform shell delivers it: the identifier of
/// the triggered item and nothing more. Ephemeral — consumed by one `route`
/// call and then discarded.
#[derive(Debug, PartialEq, Eq)]
pub struct ActivationEvent {
    pub identifier: String,
}

impl View for ActivationEvent {
    type V = Seq<char>;

    open spec fn view(&self) -> Seq<char> {
        self.identifier@
    }
}

/// A window-lifecycle operation performed directly against the main window.
#[derive(Debug, Clone, Copy, PartialEq, Eq, Structural)]
pub enum WindowOp {
    /// Instruct the window to reload its content.
    Reload,
    /// Read the window's fullscreen flag and write back its negation.
    ToggleFullscreen,
    /// Instruct the window to close.
    Close,
}

/// The one action the router selects for an event.
#[derive(Debug, PartialEq, Eq)]
pub enum Action {
    /// Notify the UI surface on the named channel, with no payload.
    Forward { channel: String },
    /// Act directly on the main window.
    Direct { op: WindowOp },
    /// Terminate the process immediately with the given status.
    Quit { status: i32 },
    /// Identifier not in the table: do nothing, observably.
    Ignore,
}

/// Model of an action: the channel as a plain character sequence.
#[verifier::ext_equal]
pub enum ActionModel {
    Forward { channel: Seq<char> },
    Direct { op: WindowOp },
    Quit { status: int },
    Ignore,
}

impl View for Action {
    type V = ActionModel;

    open spec fn view(&self) -> ActionModel {
        match self {
            Action::Forward { channel } => ActionModel::Forward { channel: channel@ },
            Action::Direct { op } => ActionModel::Direct { op: *op },
            Action::Quit { status } => ActionModel::Quit { status: *status as int },
            Action::Ignore => ActionModel::Ignore,
        }
    }
}

/// The dispatch table: identifier to action, total over all identifiers.
/// Every identifier outside the table maps to `Ignore`.
pub open spec fn route_spec(id: Seq<char>) -> ActionModel {
    if id == "new_chat"@ {
        ActionModel::Forward { channel: "menu:new-chat"@ }
    } else if id == "clear_chat"@ {
        ActionModel::Forward { channel: "menu:clear-chat"@ }
    } else if id == "settings"@ {
        ActionModel::Forward { channel: "menu:settings"@ }
    } else if id == "reload"@ {
        ActionModel::Direct { op: WindowOp::Reload }
    } else if id == "toggle_fullscreen"@ {
        ActionModel::Direct { op: WindowOp::ToggleFullscreen }
    } else if id == "close"@ {
        ActionModel::Direct { op: WindowOp::Close }
    } else if id == "quit"@ {
        ActionModel::Quit { status: 0 }
    } else if id == "about"@ {
        ActionModel::Forward { channel: "menu:about"@ }
    } else {
        ActionModel::Ignore
    }
}

/// Relies on str's PartialEq: two string slices compare equal exactly when
/// their character sequences are equal.
#[verifier::external_body]
fn str_eq(a: &str, b: &str) -> (r: bool)
    ensures
        r == (a@ == b@),
{
    a == b
}

/// Maps one activation event to exactly one action, the dispatch-table entry
/// for its identifier. Pure and stateless: it never queues, batches or
/// deduplicates, and it never fails — an unmatched identifier yields `Ignore`.
pub fn route(event: &ActivationEvent) -> (action: Action)
    ensures
        action@ == route_spec(event@),
{
    let id: &str = event.identifier.as_str();
    if str_eq(id, "new_chat") {
        Action::Forward { channel: String::from_str("menu:new-chat") }
    } else if str_eq(id, "clear_chat") {
        Action::Forward { channel: String::from_str("menu:clear-chat") }
    } else if str_eq(id, "settings") {
        Action::Forward { channel: String::from_str("menu:settings") }
    } else if str_eq(id, "reload") {
        Action::Direct { op: WindowOp::Reload }
    } else if str_eq(id, "toggle_fullscreen") {
        Action::Direct { op: WindowOp::ToggleFullscreen }
    } else if str_eq(id, "close") {
        Action::Direct { op: WindowOp::Close }
    } else if str_eq(id, "quit") {
        Action::Quit { status: 0 }
    } else if str_eq(id, "about") {
        Action::Forward { channel: String::from_str("menu:about") }
    } else {
        Action::Ignore
    }
}

/// The window's fullscreen flag after `action` runs against a window whose
/// flag is `current`: only the toggle operation changes it, to its negation.
pub open spec fn fullscreen_after(action: ActionModel, current: bool) -> bool {
    if action == (ActionModel::Direct { op: WindowOp::ToggleFullscreen }) {
        !current
    } else {
        current
    }
}

/// Computes the fullscreen flag the direct-action handler writes back, from
/// the flag it read. For every action but the toggle this is the flag as read.
pub fn next_fullscreen(action: &Action, current: bool) -> (updated: bool)
    ensures
        updated == fullscreen_after(action@, current),
{
    match action {
        Action::Direct { op: WindowOp::ToggleFullscreen } => !current,
        _ => current,
    }
}

/// Whether the action terminates the process, after which no further event is
/// processed.
pub open spec fn is_terminal_spec(action: ActionModel) -> bool {
    action is Quit
}

/// Executable counterpart of [`is_terminal_spec`].
pub fn is_terminal(action: &Action) -> (r: bool)
    ensures
        r == is_terminal_spec(action@),
{
    match action {
        Action::Quit { .. } => true,
        _ => false,
    }
}

/// The exit status of a terminal action: `quit` terminates the process with
/// status zero, and no other action terminates it at all.
pub proof fn lemma_quit_exits_with_status_zero(id: Seq<char>)
    ensures
        id == "quit"@ ==> route_spec(id) == (ActionModel::Quit { status: 0 }),
        is_terminal_spec(route_spec(id)) ==> route_spec(id) == (ActionModel::Quit { status: 0 }),
{
    reveal_strlit("new_chat");
    reveal_strlit("clear_chat");
    reveal_strlit("settings");
    reveal_strlit("reload");
    reveal_strlit("toggle_fullscreen");
    reveal_strlit("close");
    reveal_strlit("quit");
    assert("new_chat"@.len() == 8);
    assert("clear_chat"@.len() == 10);
    assert("settings"@.len() == 8);
    assert("reload"@.len() == 6);
    assert("toggle_fullscreen"@.len() == 17);
    assert("close"@.len() == 5);
    assert("quit"@.len() == 4);
}

/// Toggling fullscreen twice in succession returns the window to its original
/// fullscreen state, whatever that state was.
pub proof fn lemma_toggle_fullscreen_idempotent(current: bool)
    ensures
        ({
            let toggle = ActionModel::Direct { op: WindowOp::ToggleFullscreen };
            fullscreen_after(toggle, fullscreen_after(toggle, current)) == current
        }),
{
}

/// No action but the fullscreen toggle changes the window's fullscreen flag.
pub proof fn lemma_fullscreen_untouched(action: ActionModel, current: bool)
    ensures
        action != (ActionModel::Direct { op: WindowOp::ToggleFullscreen })
            ==> fullscreen_after(action, current) == current,
{
}

} // verus!
