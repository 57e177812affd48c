//! What the shell does when the toolkit reports an activated menu entry.

use vstd::prelude::*;
use crate::menu::{command_for_id, command_of_menu_id};
use crate::zoom::{zoom_after, ZoomLevel};

verus! {

/// Label of the window whose content the zoom commands scale.
pub const MAIN_WINDOW_LABEL: &'static str = "main";

/// Reacts to the menu entry with identifier `id`.
///
/// Where `id` belongs to a zoom entry, the command is carried out on `level`
/// and the result is the percentage that the window is to show now; the
/// window is told even where the level did not move. Any other identifier
/// leaves `level` alone and gives `None`: the window is not touched.
pub fn on_menu_event(level: &mut ZoomLevel, id: &str) -> (applied: Option<u64>)
    ensures
        match command_for_id(id@) {
            Some(command) => {
                &&& final(level)@ == zoom_after(old(level)@, command)
                &&& applied matches Some(percent) && percent == final(level)@
            },
            None => *final(level) == *old(level) && applied is None,
        },
{
    match command_of_menu_id(id) {
        Some(command) => Some(level.apply(command)),
        None => None,
    }
}

} // verus!
