//! The menu tree: its data model, the per-platform shape it must have, and
//! the builder that assembles it bottom-up.

use vstd::prelude::*;
use vstd::string::StringExecFns;
use crate::platform::Platform;

verus! {

// ---------------------------------------------------------------------------
// Executable data model
// ---------------------------------------------------------------------------

/// An actionable menu entry. Identity is the identifier: the router dispatches
/// on it alone, so no two items of the tree may share one.
#[derive(Debug, PartialEq, Eq)]
pub struct MenuItemSpec {
    pub identifier: String,
    pub label: String,
    pub enabled: bool,
    /// Declarative key-chord metadata, passed through to the platform shell
    /// unparsed; activating it is indistinguishable from a pointer activation.
    pub accelerator: Option<String>,
}

/// A platform-supplied standard entry: no identifier, no custom routing. The
/// platform handles its semantics natively, so the router never sees it.
#[derive(Debug, Clone, Copy, PartialEq, Eq, Structural)]
pub enum PredefinedItemSpec {
    Separator,
    Undo,
    Redo,
    Cut,
    CopyText,
    Paste,
    SelectAll,
    Minimize,
    Maximize,
    CloseWindow,
}

/// One entry of a submenu, in display order.
#[derive(Debug, PartialEq, Eq)]
pub enum MenuEntry {
    Item(MenuItemSpec),
    Predefined(PredefinedItemSpec),
}

/// A titled, ordered group of entries.
#[derive(Debug, PartialEq, Eq)]
pub struct SubmenuSpec {
    pub title: String,
    pub enabled: bool,
    pub entries: Vec<MenuEntry>,
}

/// The root menu: an ordered sequence of submenus. Built exactly once, at
/// startup, and immutable thereafter.
#[derive(Debug, PartialEq, Eq)]
pub struct MenuSpec {
    pub submenus: Vec<SubmenuSpec>,
}

// ---------------------------------------------------------------------------
// Mathematical model
// ---------------------------------------------------------------------------

/// Model of an actionable entry: every string as a plain character sequence.
#[verifier::ext_equal]
pub struct ItemModel {
    pub id: Seq<char>,
    pub label: Seq<char>,
    pub enabled: bool,
    pub accelerator: Option<Seq<char>>,
}

/// Model of one submenu entry.
#[verifier::ext_equal]
pub enum EntryModel {
    Item(ItemModel),
    Predefined(PredefinedItemSpec),
}

/// Model of a submenu.
#[verifier::ext_equal]
pub struct SubmenuModel {
    pub title: Seq<char>,
    pub enabled: bool,
    pub entries: Seq<EntryModel>,
}

impl View for MenuItemSpec {
    type V = ItemModel;

    open spec fn view(&self) -> ItemModel {
        ItemModel {
            id: self.identifier@,
            label: self.label@,
            enabled: self.enabled,
            accelerator: match self.accelerator {
                Some(a) => Some(a@),
                None => None,
            },
        }
    }
}

impl View for MenuEntry {
    type V = EntryModel;

    open spec fn view(&self) -> EntryModel {
        match self {
            MenuEntry::Item(item) => EntryModel::Item(item@),
            MenuEntry::Predefined(pre) => EntryModel::Predefined(*pre),
        }
    }
}

impl View for SubmenuSpec {
    type V = SubmenuModel;

    open spec fn view(&self) -> SubmenuModel {
        SubmenuModel {
            title: self.title@,
            enabled: self.enabled,
            entries: self.entries@.map_values(|e: MenuEntry| e@),
        }
    }
}

impl View for MenuSpec {
    type V = Seq<SubmenuModel>;

    open spec fn view(&self) -> Seq<SubmenuModel> {
        self.submenus@.map_values(|s: SubmenuSpec| s@)
    }
}

// ---------------------------------------------------------------------------
// The shape the tree must have, per platform
// ---------------------------------------------------------------------------

pub open spec fn new_chat_item_model() -> ItemModel {
    ItemModel {
        id: "new_chat"@,
        label: "New Chat"@,
        enabled: true,
        accelerator: Some("CmdOrCtrl+N"@),
    }
}

pub open spec fn close_item_model() -> ItemModel {
    ItemModel {
        id: "close"@,
        label: "Close Window"@,
        enabled: true,
        accelerator: Some("CmdOrCtrl+W"@),
    }
}

pub open spec fn quit_item_model() -> ItemModel {
    ItemModel {
        id: "quit"@,
        label: "Quit"@,
        enabled: true,
        accelerator: Some("CmdOrCtrl+Q"@),
    }
}

pub open spec fn clear_chat_item_model() -> ItemModel {
    ItemModel {
        id: "clear_chat"@,
        label: "Clear Chat"@,
        enabled: true,
        accelerator: Some("CmdOrCtrl+K"@),
    }
}

pub open spec fn settings_item_model() -> ItemModel {
    ItemModel {
        id: "settings"@,
        label: "Settings"@,
        enabled: true,
        accelerator: Some("CmdOrCtrl+,"@),
    }
}

pub open spec fn reload_item_model() -> ItemModel {
    ItemModel {
        id: "reload"@,
        label: "Reload"@,
        enabled: true,
        accelerator: Some("CmdOrCtrl+R"@),
    }
}

pub open spec fn toggle_fullscreen_item_model() -> ItemModel {
    ItemModel {
        id: "toggle_fullscreen"@,
        label: "Toggle Fullscreen"@,
        enabled: true,
        accelerator: Some("F11"@),
    }
}

pub open spec fn about_item_model() -> ItemModel {
    ItemModel { id: "about"@, label: "About"@, enabled: true, accelerator: None }
}

/// File: New-Chat, separator, Close-Window, and an explicit Quit entry unless
/// the platform supplies process-quit natively.
pub open spec fn file_submenu_model(p: Platform) -> SubmenuModel {
    SubmenuModel {
        title: "File"@,
        enabled: true,
        entries: if p.native_quit() {
            seq![
                EntryModel::Item(new_chat_item_model()),
                EntryModel::Predefined(PredefinedItemSpec::Separator),
                EntryModel::Item(close_item_model()),
            ]
        } else {
            seq![
                EntryModel::Item(new_chat_item_model()),
                EntryModel::Predefined(PredefinedItemSpec::Separator),
                EntryModel::Item(close_item_model()),
                EntryModel::Item(quit_item_model()),
            ]
        },
    }
}

/// Edit: predefined entries only, on every platform.
pub open spec fn edit_submenu_model() -> SubmenuModel {
    SubmenuModel {
        title: "Edit"@,
        enabled: true,
        entries: seq![
            EntryModel::Predefined(PredefinedItemSpec::Undo),
            EntryModel::Predefined(PredefinedItemSpec::Redo),
            EntryModel::Predefined(PredefinedItemSpec::Separator),
            EntryModel::Predefined(PredefinedItemSpec::Cut),
            EntryModel::Predefined(PredefinedItemSpec::CopyText),
            EntryModel::Predefined(PredefinedItemSpec::Paste),
            EntryModel::Predefined(PredefinedItemSpec::SelectAll),
        ],
    }
}

/// View: custom entries only, on every platform.
pub open spec fn view_submenu_model() -> SubmenuModel {
    SubmenuModel {
        title: "View"@,
        enabled: true,
        entries: seq![
            EntryModel::Item(clear_chat_item_model()),
            EntryModel::Item(settings_item_model()),
            EntryModel::Predefined(PredefinedItemSpec::Separator),
            EntryModel::Item(reload_item_model()),
            EntryModel::Item(toggle_fullscreen_item_model()),
        ],
    }
}

/// Window: predefined entries only; present only where the platform
/// conventionally shows a dedicated Window submenu.
pub open spec fn window_submenu_model() -> SubmenuModel {
    SubmenuModel {
        title: "Window"@,
        enabled: true,
        entries: seq![
            EntryModel::Predefined(PredefinedItemSpec::Minimize),
            EntryModel::Predefined(PredefinedItemSpec::Maximize),
            EntryModel::Predefined(PredefinedItemSpec::Separator),
            EntryModel::Predefined(PredefinedItemSpec::CloseWindow),
        ],
    }
}

/// Help: the one About entry, on every platform.
pub open spec fn help_submenu_model() -> SubmenuModel {
    SubmenuModel { title: "Help"@, enabled: true, entries: seq![EntryModel::Item(about_item_model())] }
}

/// The whole root menu for platform `p`, in display order.
pub open spec fn menu_model(p: Platform) -> Seq<SubmenuModel> {
    if p.dedicated_window_menu() {
        seq![
            file_submenu_model(p),
            edit_submenu_model(),
            view_submenu_model(),
            window_submenu_model(),
            help_submenu_model(),
        ]
    } else {
        seq![file_submenu_model(p), edit_submenu_model(), view_submenu_model(), help_submenu_model()]
    }
}

// ---------------------------------------------------------------------------
// The identifiers the tree carries
// ---------------------------------------------------------------------------

/// The identifier of one entry as a list: an actionable entry contributes its
/// identifier, a predefined entry contributes nothing.
pub open spec fn entry_identifier_list(e: EntryModel) -> Seq<Seq<char>> {
    match e {
        EntryModel::Item(item) => seq![item.id],
        EntryModel::Predefined(_) => Seq::empty(),
    }
}

/// The identifiers of the actionable entries of `entries`, in display order.
pub open spec fn entry_identifiers(entries: Seq<EntryModel>) -> Seq<Seq<char>>
    decreases entries.len(),
{
    if entries.len() == 0 {
        Seq::empty()
    } else {
        entry_identifier_list(entries[0]) + entry_identifiers(entries.skip(1))
    }
}

/// The identifiers of every actionable entry of the whole tree, in display
/// order, one submenu after the other.
pub open spec fn menu_identifiers(menu: Seq<SubmenuModel>) -> Seq<Seq<char>>
    decreases menu.len(),
{
    if menu.len() == 0 {
        Seq::empty()
    } else {
        entry_identifiers(menu[0].entries) + menu_identifiers(menu.skip(1))
    }
}

/// The identifiers the built tree holds for platform `p`.
pub open spec fn built_identifiers(p: Platform) -> Seq<Seq<char>> {
    menu_identifiers(menu_model(p))
}

/// Spells `built_identifiers` out: the custom identifiers of the built tree in
/// display order, with `quit` present exactly where File holds a Quit entry.
pub proof fn lemma_built_identifiers(p: Platform)
    ensures
        built_identifiers(p) =~= (if p.native_quit() {
            seq![
                "new_chat"@,
                "close"@,
                "clear_chat"@,
                "settings"@,
                "reload"@,
                "toggle_fullscreen"@,
                "about"@,
            ]
        } else {
            seq![
                "new_chat"@,
                "close"@,
                "quit"@,
                "clear_chat"@,
                "settings"@,
                "reload"@,
                "toggle_fullscreen"@,
                "about"@,
            ]
        }),
{
    reveal_with_fuel(entry_identifiers, 9);
    reveal_with_fuel(menu_identifiers, 7);
    assert(entry_identifiers(file_submenu_model(p).entries) =~= (if p.native_quit() {
        seq!["new_chat"@, "close"@]
    } else {
        seq!["new_chat"@, "close"@, "quit"@]
    }));
    assert(entry_identifiers(edit_submenu_model().entries) =~= Seq::<Seq<char>>::empty());
    assert(entry_identifiers(view_submenu_model().entries) =~= seq![
        "clear_chat"@,
        "settings"@,
        "reload"@,
        "toggle_fullscreen"@,
    ]);
    assert(entry_identifiers(window_submenu_model().entries) =~= Seq::<Seq<char>>::empty());
    assert(entry_identifiers(help_submenu_model().entries) =~= seq!["about"@]);
}

/// No two actionable entries anywhere in the built tree share an identifier,
/// on any platform.
pub proof fn lemma_identifiers_unique(p: Platform)
    ensures
        built_identifiers(p).no_duplicates(),
{
    lemma_built_identifiers(p);
    reveal_strlit("new_chat");
    reveal_strlit("close");
    reveal_strlit("quit");
    reveal_strlit("clear_chat");
    reveal_strlit("settings");
    reveal_strlit("reload");
    reveal_strlit("toggle_fullscreen");
    reveal_strlit("about");
    assert("new_chat"@.len() == 8);
    assert("close"@.len() == 5);
    assert("quit"@.len() == 4);
    assert("clear_chat"@.len() == 10);
    assert("settings"@.len() == 8);
    assert("reload"@.len() == 6);
    assert("toggle_fullscreen"@.len() == 17);
    assert("about"@.len() == 5);
    // Two pairs share a length; their first characters differ.
    assert("new_chat"@[0] == 'n');
    assert("settings"@[0] == 's');
    assert("close"@[0] == 'c');
    assert("about"@[0] == 'a');
}

/// For every platform the root holds exactly the platform-conditional
/// submenus, in display order: File, Edit, View, then Window exactly where
/// the platform shows a dedicated Window submenu, then Help.
pub proof fn lemma_top_level_titles(p: Platform)
    ensures
        menu_model(p).map_values(|s: SubmenuModel| s.title) =~= (if p.dedicated_window_menu() {
            seq!["File"@, "Edit"@, "View"@, "Window"@, "Help"@]
        } else {
            seq!["File"@, "Edit"@, "View"@, "Help"@]
        }),
{
}

// ---------------------------------------------------------------------------
// The builder: leaf items first, then each submenu, then the root
// ---------------------------------------------------------------------------

/// Creates one actionable entry (the leaf step of the bottom-up build).
pub fn menu_item(identifier: &str, label: &str, enabled: bool, accelerator: Option<&str>) -> (item: MenuItemSpec)
    ensures
        item@ == (ItemModel {
            id: identifier@,
            label: label@,
            enabled: enabled,
            accelerator: match accelerator {
                Some(a) => Some(a@),
                None => None,
            },
        }),
{
    MenuItemSpec {
        identifier: String::from_str(identifier),
        label: String::from_str(label),
        enabled,
        accelerator: match accelerator {
            Some(a) => Some(String::from_str(a)),
            None => None,
        },
    }
}

/// Groups the File entries — with the platform-conditional Quit — into one submenu.
pub fn file_submenu(p: Platform) -> (s: SubmenuSpec)
    ensures
        s@ == file_submenu_model(p),
{
    let mut entries: Vec<MenuEntry> = Vec::new();
    entries.push(MenuEntry::Item(menu_item("new_chat", "New Chat", true, Some("CmdOrCtrl+N"))));
    entries.push(MenuEntry::Predefined(PredefinedItemSpec::Separator));
    entries.push(MenuEntry::Item(menu_item("close", "Close Window", true, Some("CmdOrCtrl+W"))));
    if !p.has_native_quit() {
        entries.push(MenuEntry::Item(menu_item("quit", "Quit", true, Some("CmdOrCtrl+Q"))));
    }
    let s = SubmenuSpec { title: String::from_str("File"), enabled: true, entries };
    proof {
        assert(s@ =~~= file_submenu_model(p));
    }
    s
}

/// Groups the predefined Edit entries into one submenu.
pub fn edit_submenu() -> (s: SubmenuSpec)
    ensures
        s@ == edit_submenu_model(),
{
    let mut entries: Vec<MenuEntry> = Vec::new();
    entries.push(MenuEntry::Predefined(PredefinedItemSpec::Undo));
    entries.push(MenuEntry::Predefined(PredefinedItemSpec::Redo));
    entries.push(MenuEntry::Predefined(PredefinedItemSpec::Separator));
    entries.push(MenuEntry::Predefined(PredefinedItemSpec::Cut));
    entries.push(MenuEntry::Predefined(PredefinedItemSpec::CopyText));
    entries.push(MenuEntry::Predefined(PredefinedItemSpec::Paste));
    entries.push(MenuEntry::Predefined(PredefinedItemSpec::SelectAll));
    let s = SubmenuSpec { title: String::from_str("Edit"), enabled: true, entries };
    proof {
        assert(s@ =~~= edit_submenu_model());
    }
    s
}

/// Groups the custom View entries into one submenu.
pub fn view_submenu() -> (s: SubmenuSpec)
    ensures
        s@ == view_submenu_model(),
{
    let mut entries: Vec<MenuEntry> = Vec::new();
    entries.push(MenuEntry::Item(menu_item("clear_chat", "Clear Chat", true, Some("CmdOrCtrl+K"))));
    entries.push(MenuEntry::Item(menu_item("settings", "Settings", true, Some("CmdOrCtrl+,"))));
    entries.push(MenuEntry::Predefined(PredefinedItemSpec::Separator));
    entries.push(MenuEntry::Item(menu_item("reload", "Reload", true, Some("CmdOrCtrl+R"))));
    entries.push(MenuEntry::Item(menu_item("toggle_fullscreen", "Toggle Fullscreen", true, Some("F11"))));
    let s = SubmenuSpec { title: String::from_str("View"), enabled: true, entries };
    proof {
        assert(s@ =~~= view_submenu_model());
    }
    s
}

/// Groups the predefined Window entries into one submenu.
pub fn window_submenu() -> (s: SubmenuSpec)
    ensures
        s@ == window_submenu_model(),
{
    let mut entries: Vec<MenuEntry> = Vec::new();
    entries.push(MenuEntry::Predefined(PredefinedItemSpec::Minimize));
    entries.push(MenuEntry::Predefined(PredefinedItemSpec::Maximize));
    entries.push(MenuEntry::Predefined(PredefinedItemSpec::Separator));
    entries.push(MenuEntry::Predefined(PredefinedItemSpec::CloseWindow));
    let s = SubmenuSpec { title: String::from_str("Window"), enabled: true, entries };
    proof {
        assert(s@ =~~= window_submenu_model());
    }
    s
}

/// Groups the one Help entry into one submenu.
pub fn help_submenu() -> (s: SubmenuSpec)
    ensures
        s@ == help_submenu_model(),
{
    let mut entries: Vec<MenuEntry> = Vec::new();
    entries.push(MenuEntry::Item(menu_item("about", "About", true, None)));
    let s = SubmenuSpec { title: String::from_str("Help"), enabled: true, entries };
    proof {
        assert(s@ =~~= help_submenu_model());
    }
    s
}

/// Assembles the whole root menu for platform `p`: every submenu in display
/// order, with the platform-conditional branches resolved here, once.
pub fn build_menu(p: Platform) -> (menu: MenuSpec)
    ensures
        menu@ == menu_model(p),
{
    let mut submenus: Vec<SubmenuSpec> = Vec::new();
    submenus.push(file_submenu(p));
    submenus.push(edit_submenu());
    submenus.push(view_submenu());
    if p.has_dedicated_window_menu() {
        submenus.push(window_submenu());
    }
    submenus.push(help_submenu());
    let menu = MenuSpec { submenus };
    proof {
        assert(menu@ =~~= menu_model(p));
    }
    menu
}

} // verus!
