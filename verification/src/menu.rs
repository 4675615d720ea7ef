//! The context menu of the terminal display.
//!
//! The menu exposes two fixed entries, Copy and Paste, each bound to a
//! platform shortcut; selecting one invokes the corresponding clipboard
//! operation. The entries and the dispatch from a selected menu path to
//! its operation are decided here; building the widget and driving the
//! clipboard are the embedding program's work.

use vstd::prelude::*;

verus! {

/// A clipboard operation a menu entry invokes.
pub enum ClipboardOp {
    /// Copy the display's current selection to the clipboard.
    CopySelection,
    /// Paste the clipboard into the terminal.
    PasteIntoTerminal,
}

/// The shortcut a menu entry is bound to.
pub enum MenuShortcut {
    /// The platform copy shortcut, control together with insert.
    CtrlInsert,
    /// The platform paste shortcut, shift together with insert.
    ShiftInsert,
}

/// One fixed entry of the context menu.
pub struct MenuEntry {
    pub label: &'static str,
    pub shortcut: MenuShortcut,
    pub op: ClipboardOp,
}

/// The two fixed entries of the context menu, in display order.
pub fn menu_entries() -> (r: Vec<MenuEntry>)
    ensures
        r@.len() == 2,
        r@[0].label@ == "Copy\t"@ && r@[0].shortcut is CtrlInsert && r@[0].op is CopySelection,
        r@[1].label@ == "Paste\t"@ && r@[1].shortcut is ShiftInsert
            && r@[1].op is PasteIntoTerminal,
{
    let mut r: Vec<MenuEntry> = Vec::new();
    r.push(
        MenuEntry {
            label: "Copy\t",
            shortcut: MenuShortcut::CtrlInsert,
            op: ClipboardOp::CopySelection,
        },
    );
    r.push(
        MenuEntry {
            label: "Paste\t",
            shortcut: MenuShortcut::ShiftInsert,
            op: ClipboardOp::PasteIntoTerminal,
        },
    );
    r
}

/// Dispatch a selected menu path: the copy entry copies the selection,
/// the paste entry pastes, and any other path does nothing.
pub fn menu_path_action(path: &String) -> (r: Option<ClipboardOp>)
    ensures
        (path@ == "Copy\t"@ ==> r == Some(ClipboardOp::CopySelection)),
        (path@ == "Paste\t"@ ==> r == Some(ClipboardOp::PasteIntoTerminal)),
        (path@ != "Copy\t"@ && path@ != "Paste\t"@ ==> r is None),
{
    proof {
        reveal_strlit("Copy\t");
        reveal_strlit("Paste\t");
        assert("Copy\t"@.len() == 5);
        assert("Paste\t"@.len() == 6);
    }
    let copy_label: String = "Copy\t".to_owned();
    let paste_label: String = "Paste\t".to_owned();
    if *path == copy_label {
        Some(ClipboardOp::CopySelection)
    } else if *path == paste_label {
        Some(ClipboardOp::PasteIntoTerminal)
    } else {
        None
    }
}

} // verus!
