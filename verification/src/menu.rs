//! The native menu: the entries that drive the zoom level, and where in the
//! menu bar they go.
//!
//! The host toolkit builds and shows the menu. This module decides what it is
//! asked to build: the identifier, text and shortcut of each zoom entry, the
//! command behind an identifier that the toolkit reports, and the place of the
//! zoom entries among the entries that the toolkit's default menu brings.

use vstd::prelude::*;
use crate::text::same_text;
use crate::zoom::ZoomCommand;

verus! {

/// Title of the submenu that holds the zoom entries.
pub const VIEW_MENU_TITLE: &'static str = "View";

/// The identifier that the menu entry of `command` reports when activated.
pub open spec fn command_id(command: ZoomCommand) -> Seq<char> {
    match command {
        ZoomCommand::ZoomIn => "zoom_in"@,
        ZoomCommand::ZoomOut => "zoom_out"@,
        ZoomCommand::ZoomReset => "zoom_reset"@,
    }
}

/// The text that the menu entry of `command` shows.
pub open spec fn command_text(command: ZoomCommand) -> Seq<char> {
    match command {
        ZoomCommand::ZoomIn => "Zoom In"@,
        ZoomCommand::ZoomOut => "Zoom Out"@,
        ZoomCommand::ZoomReset => "Actual Size"@,
    }
}

/// The keyboard shortcut of the menu entry of `command`, in the toolkit's
/// notation.
pub open spec fn command_accelerator(command: ZoomCommand) -> Seq<char> {
    match command {
        ZoomCommand::ZoomIn => "CmdOrCtrl+="@,
        ZoomCommand::ZoomOut => "CmdOrCtrl+-"@,
        ZoomCommand::ZoomReset => "CmdOrCtrl+0"@,
    }
}

/// The command whose menu entry reports `id`, if there is one. Identifiers
/// are compared character by character, so case and surrounding blanks count.
pub open spec fn command_for_id(id: Seq<char>) -> Option<ZoomCommand> {
    if id == command_id(ZoomCommand::ZoomIn) {
        Some(ZoomCommand::ZoomIn)
    } else if id == command_id(ZoomCommand::ZoomOut) {
        Some(ZoomCommand::ZoomOut)
    } else if id == command_id(ZoomCommand::ZoomReset) {
        Some(ZoomCommand::ZoomReset)
    } else {
        None
    }
}

/// What the toolkit needs to build the menu entry of one command.
#[derive(Clone, Copy, Debug)]
pub struct MenuItemDef {
    /// Identifier reported when the entry is activated.
    pub id: &'static str,
    /// Text shown in the menu.
    pub text: &'static str,
    /// Keyboard shortcut.
    pub accelerator: &'static str,
}

/// The menu entry of `command`.
pub fn zoom_menu_item(command: ZoomCommand) -> (item: MenuItemDef)
    ensures
        item.id@ == command_id(command),
        item.text@ == command_text(command),
        item.accelerator@ == command_accelerator(command),
{
    match command {
        ZoomCommand::ZoomIn => MenuItemDef {
            id: "zoom_in",
            text: "Zoom In",
            accelerator: "CmdOrCtrl+=",
        },
        ZoomCommand::ZoomOut => MenuItemDef {
            id: "zoom_out",
            text: "Zoom Out",
            accelerator: "CmdOrCtrl+-",
        },
        ZoomCommand::ZoomReset => MenuItemDef {
            id: "zoom_reset",
            text: "Actual Size",
            accelerator: "CmdOrCtrl+0",
        },
    }
}

/// Finds the command behind the identifier of an activated menu entry.
/// Identifiers of entries that are not zoom entries give `None`.
pub fn command_of_menu_id(id: &str) -> (command: Option<ZoomCommand>)
    ensures
        command == command_for_id(id@),
{
    if same_text(id, "zoom_in") {
        Some(ZoomCommand::ZoomIn)
    } else if same_text(id, "zoom_out") {
        Some(ZoomCommand::ZoomOut)
    } else if same_text(id, "zoom_reset") {
        Some(ZoomCommand::ZoomReset)
    } else {
        None
    }
}

/// No two commands share an identifier.
pub proof fn lemma_command_ids_distinct(a: ZoomCommand, b: ZoomCommand)
    ensures
        command_id(a) == command_id(b) <==> a == b,
{
    // The three identifiers differ in length already.
    reveal_strlit("zoom_in");
    reveal_strlit("zoom_out");
    reveal_strlit("zoom_reset");
    assert("zoom_in"@.len() == 7);
    assert("zoom_out"@.len() == 8);
    assert("zoom_reset"@.len() == 10);
}

/// An identifier leads to a command exactly when it is that command's own:
/// looking up the identifier of an entry gives back the command that the
/// entry was built for, and nothing else leads there.
pub proof fn lemma_command_id_round_trip(command: ZoomCommand, id: Seq<char>)
    ensures
        command_for_id(id) == Some(command) <==> id == command_id(command),
{
    lemma_command_ids_distinct(command, ZoomCommand::ZoomIn);
    lemma_command_ids_distinct(command, ZoomCommand::ZoomOut);
    lemma_command_ids_distinct(command, ZoomCommand::ZoomReset);
}

/// The platform whose menu conventions the shell follows.
#[derive(Clone, Copy, Debug, PartialEq, Eq, Structural)]
pub enum Platform {
    /// macOS: one menu bar for the application, with an application menu and
    /// a "View" menu in the toolkit's default.
    MacOs,
    /// Any other desktop platform.
    Other,
}

/// What the layout reads of one top-level entry of the menu bar.
#[derive(Debug, PartialEq, Eq)]
pub enum MenuEntry {
    /// A submenu, with the text of its title.
    Submenu { text: String },
    /// Any other kind of entry.
    Item,
}

/// One entry of the zoom section of the "View" menu.
#[derive(Clone, Copy, Debug, PartialEq, Eq, Structural)]
pub enum ViewMenuItem {
    /// The entry of a zoom command.
    Command(ZoomCommand),
    /// A separator line.
    Separator,
}

/// Where the zoom section goes.
#[derive(Clone, Copy, Debug, PartialEq, Eq, Structural)]
pub enum ViewMenuPlacement {
    /// At the top of the submenu that stands at `index` in the menu bar,
    /// before the entries that the submenu holds already.
    TopOfExisting { index: usize },
    /// In a new submenu titled [`VIEW_MENU_TITLE`], appended to the menu bar.
    NewSubmenu,
}

/// Whether `entry` is a submenu.
pub open spec fn is_submenu(entry: MenuEntry) -> bool {
    entry is Submenu
}

/// Whether `entry` is a submenu titled [`VIEW_MENU_TITLE`].
pub open spec fn is_view_submenu(entry: MenuEntry) -> bool {
    entry matches MenuEntry::Submenu { text } && text@ == VIEW_MENU_TITLE@
}

/// Whether `found` answers the search for the first entry that is `wanted`:
/// the position of an entry that is wanted and has none before it that is, or
/// `None` where no entry is wanted.
pub open spec fn is_first_match(
    entries: Seq<MenuEntry>,
    wanted: spec_fn(MenuEntry) -> bool,
    found: Option<usize>,
) -> bool {
    match found {
        Some(index) => {
            &&& index < entries.len()
            &&& wanted(entries[index as int])
            &&& forall|j: int| 0 <= j < index ==> !wanted(#[trigger] entries[j])
        },
        None => forall|j: int| 0 <= j < entries.len() ==> !wanted(#[trigger] entries[j]),
    }
}

/// The items of the zoom section, top to bottom: the three zoom entries, and
/// on macOS a separator that sets them off from what follows.
pub open spec fn zoom_section(platform: Platform) -> Seq<ViewMenuItem> {
    let commands = seq![
        ViewMenuItem::Command(ZoomCommand::ZoomIn),
        ViewMenuItem::Command(ZoomCommand::ZoomOut),
        ViewMenuItem::Command(ZoomCommand::ZoomReset),
    ];
    match platform {
        Platform::MacOs => commands.push(ViewMenuItem::Separator),
        Platform::Other => commands,
    }
}

/// Whether the layout for `platform` depends on the entries that the
/// toolkit's default menu brings. Where it does not, the entries need not be
/// read: [`about_submenu`] and [`place_view_menu`] answer the same for any.
pub fn layout_reads_menu(platform: Platform) -> (reads: bool)
    ensures
        reads == (platform == Platform::MacOs),
{
    match platform {
        Platform::MacOs => true,
        Platform::Other => false,
    }
}

/// Position of the first submenu among `entries`.
pub fn first_submenu(entries: &Vec<MenuEntry>) -> (found: Option<usize>)
    ensures
        is_first_match(entries@, |entry: MenuEntry| is_submenu(entry), found),
{
    let mut i: usize = 0;
    while i < entries.len()
        invariant
            i <= entries.len(),
            forall|j: int| 0 <= j < i ==> !is_submenu(#[trigger] entries@[j]),
        decreases entries.len() - i,
    {
        match &entries[i] {
            MenuEntry::Submenu { .. } => {
                return Some(i);
            },
            MenuEntry::Item => {},
        }
        i += 1;
    }
    None
}

/// Position of the first submenu titled [`VIEW_MENU_TITLE`] among `entries`.
pub fn find_view_submenu(entries: &Vec<MenuEntry>) -> (found: Option<usize>)
    ensures
        is_first_match(entries@, |entry: MenuEntry| is_view_submenu(entry), found),
{
    let mut i: usize = 0;
    while i < entries.len()
        invariant
            i <= entries.len(),
            forall|j: int| 0 <= j < i ==> !is_view_submenu(#[trigger] entries@[j]),
        decreases entries.len() - i,
    {
        let titled_view = match &entries[i] {
            MenuEntry::Submenu { text } => same_text(text.as_str(), VIEW_MENU_TITLE),
            MenuEntry::Item => false,
        };
        if titled_view {
            return Some(i);
        }
        i += 1;
    }
    None
}

/// The submenu whose first entry gives way to the application's own "About"
/// entry: on macOS the first submenu of the menu bar, which is the
/// application menu; elsewhere none.
pub fn about_submenu(platform: Platform, entries: &Vec<MenuEntry>) -> (found: Option<usize>)
    ensures
        platform == Platform::MacOs ==> is_first_match(
            entries@,
            |entry: MenuEntry| is_submenu(entry),
            found,
        ),
        platform != Platform::MacOs ==> found is None,
{
    match platform {
        Platform::MacOs => first_submenu(entries),
        Platform::Other => None,
    }
}

/// The items of the zoom section for `platform`, top to bottom.
pub fn zoom_section_items(platform: Platform) -> (items: Vec<ViewMenuItem>)
    ensures
        items@ == zoom_section(platform),
{
    let mut items: Vec<ViewMenuItem> = Vec::new();
    items.push(ViewMenuItem::Command(ZoomCommand::ZoomIn));
    items.push(ViewMenuItem::Command(ZoomCommand::ZoomOut));
    items.push(ViewMenuItem::Command(ZoomCommand::ZoomReset));
    match platform {
        Platform::MacOs => {
            items.push(ViewMenuItem::Separator);
        },
        Platform::Other => {},
    }
    assert(items@ =~= zoom_section(platform));
    items
}

/// Decides where the zoom section goes, given the top-level entries of the
/// toolkit's default menu.
///
/// On macOS the default menu has a "View" submenu, and the section goes to
/// its top so that no second "View" appears; should the default ever come
/// without one, a new submenu is appended. On other platforms the default
/// has none, and a new submenu is appended whatever the entries are.
pub fn place_view_menu(
    platform: Platform,
    entries: &Vec<MenuEntry>,
) -> (placement: ViewMenuPlacement)
    ensures
        match placement {
            ViewMenuPlacement::TopOfExisting { index } => {
                &&& platform == Platform::MacOs
                &&& is_first_match(
                    entries@,
                    |entry: MenuEntry| is_view_submenu(entry),
                    Some(index),
                )
            },
            ViewMenuPlacement::NewSubmenu => platform == Platform::MacOs ==> is_first_match(
                entries@,
                |entry: MenuEntry| is_view_submenu(entry),
                None,
            ),
        },
{
    match platform {
        Platform::MacOs => match find_view_submenu(entries) {
            Some(index) => ViewMenuPlacement::TopOfExisting { index },
            None => ViewMenuPlacement::NewSubmenu,
        },
        Platform::Other => ViewMenuPlacement::NewSubmenu,
    }
}

/// A search for the first wanted entry has one answer only.
pub proof fn lemma_first_match_unique(
    entries: Seq<MenuEntry>,
    wanted: spec_fn(MenuEntry) -> bool,
    found: Option<usize>,
    other: Option<usize>,
)
    requires
        is_first_match(entries, wanted, found),
        is_first_match(entries, wanted, other),
    ensures
        found == other,
{
    if found is Some && other is Some {
        let a = found->0;
        let b = other->0;
        if a < b {
            assert(!wanted(entries[a as int]));
        } else if b < a {
            assert(!wanted(entries[b as int]));
        }
    } else if found is Some {
        assert(!wanted(entries[found->0 as int]));
    } else if other is Some {
        assert(!wanted(entries[other->0 as int]));
    }
}

} // verus!
