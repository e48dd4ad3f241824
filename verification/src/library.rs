//! The decisions of the library screen: the edit button, the transitions
//! to the other screens, and what a row of the library shows.
use vstd::prelude::*;

use crate::text::str_eq;

verus! {

/// The state of the table after the edit button was pressed.
#[derive(Clone, Copy, Debug, PartialEq, Eq)]
pub struct EditingToggle {
    /// Whether the table is now being edited.
    pub editing: bool,
    /// The new title of the button.
    pub button_title: &'static str,
}

/// Pressing the edit button switches editing on or off; the button then
/// reads "Done" while editing and "Edit" otherwise.
pub fn toggle_editing(is_editing: bool) -> (toggle: EditingToggle)
    ensures
        toggle.editing == !is_editing,
        toggle.button_title@ == if toggle.editing { "Done"@ } else { "Edit"@ },
{
    let editing = !is_editing;
    EditingToggle { editing, button_title: if editing { "Done" } else { "Edit" } }
}

/// The screens the library leads to.
#[derive(Clone, Copy, Debug, PartialEq, Eq, Structural)]
pub enum SegueRoute {
    /// Adding a movie; nothing to prepare.
    AddItem,
    /// Editing the movie of the selected row.
    EditItem,
    /// Playing the movie of the selected row.
    RunItem,
}

/// The screen a transition of the storyboard leads to, by its identifier;
/// `None` for an identifier the storyboard does not use.
pub open spec fn route_of(identifier: Seq<char>) -> Option<SegueRoute> {
    if identifier == "add-item"@ {
        Some(SegueRoute::AddItem)
    } else if identifier == "edit-item"@ {
        Some(SegueRoute::EditItem)
    } else if identifier == "run-item"@ {
        Some(SegueRoute::RunItem)
    } else {
        None
    }
}

/// The screen a transition leads to, by its identifier.
pub fn segue_route(identifier: &str) -> (route: Option<SegueRoute>)
    ensures
        route == route_of(identifier@),
{
    if str_eq(identifier, "add-item") {
        Some(SegueRoute::AddItem)
    } else if str_eq(identifier, "edit-item") {
        Some(SegueRoute::EditItem)
    } else if str_eq(identifier, "run-item") {
        Some(SegueRoute::RunItem)
    } else {
        None
    }
}

/// The link of a movie as the library shows it.
#[derive(Clone, Debug)]
pub enum LinkDisplay {
    /// A file on the device: the last component of its path, or `None`
    /// when the app may not access it.
    File { last_path_component: Option<String> },
    /// A link elsewhere: the whole URL.
    Remote { absolute_string: String },
}

/// The texts of a row of the library.
#[derive(Clone, Debug)]
pub struct LibraryCell {
    pub title: String,
    pub subtitle: String,
}

/// What the row of a movie shows: its cached name above; below, the file
/// name for a file the app may access, "Unknown" for one it may not, and
/// the URL for a link elsewhere.
pub fn library_cell(cached_name: &str, link: &LinkDisplay) -> (cell: LibraryCell)
    ensures
        cell.title@ == cached_name@,
        cell.subtitle@ == match link {
            LinkDisplay::File { last_path_component: Some(name) } => name@,
            LinkDisplay::File { last_path_component: None } => "Unknown"@,
            LinkDisplay::Remote { absolute_string } => absolute_string@,
        },
{
    let subtitle = match link {
        LinkDisplay::File { last_path_component: Some(name) } => name.clone(),
        LinkDisplay::File { last_path_component: None } => String::from_str("Unknown"),
        LinkDisplay::Remote { absolute_string } => absolute_string.clone(),
    };
    LibraryCell { title: cached_name.to_owned(), subtitle }
}

/// The storyboard's transitions lead where their identifiers say: "add-item"
/// to adding a movie, "edit-item" to editing the selected one, "run-item"
/// to playing it; no other identifier leads anywhere.
pub proof fn segues_lead_where_named(identifier: Seq<char>)
    ensures
        route_of("add-item"@) == Some(SegueRoute::AddItem),
        route_of("edit-item"@) == Some(SegueRoute::EditItem),
        route_of("run-item"@) == Some(SegueRoute::RunItem),
        identifier != "add-item"@ && identifier != "edit-item"@ && identifier != "run-item"@ ==> route_of(identifier)
            is None,
{
    reveal_strlit("add-item");
    reveal_strlit("edit-item");
    reveal_strlit("run-item");
    assert("add-item"@.len() != "edit-item"@.len());
    assert("add-item"@[0] != "run-item"@[0]);
    assert("edit-item"@.len() != "run-item"@.len());
}

} // verus!
