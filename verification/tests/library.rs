use ruffle_ios::library::{library_cell, segue_route, toggle_editing, LinkDisplay, SegueRoute};

#[test]
fn edit_button_toggles_editing_and_title() {
    let on = toggle_editing(false);
    assert!(on.editing);
    assert_eq!(on.button_title, "Done");
    let off = toggle_editing(true);
    assert!(!off.editing);
    assert_eq!(off.button_title, "Edit");
}

#[test]
fn segues_are_routed_by_identifier() {
    assert_eq!(segue_route("add-item"), Some(SegueRoute::AddItem));
    assert_eq!(segue_route("edit-item"), Some(SegueRoute::EditItem));
    assert_eq!(segue_route("run-item"), Some(SegueRoute::RunItem));
    assert_eq!(segue_route("run-items"), None);
    assert_eq!(segue_route(""), None);
}

#[test]
fn library_row_shows_name_and_link() {
    let file = library_cell("Game", &LinkDisplay::File { last_path_component: Some("game.swf".to_string()) });
    assert_eq!(file.title, "Game");
    assert_eq!(file.subtitle, "game.swf");
    let hidden = library_cell("Game", &LinkDisplay::File { last_path_component: None });
    assert_eq!(hidden.subtitle, "Unknown");
    let remote = library_cell("Web", &LinkDisplay::Remote { absolute_string: "https://example.com/x.swf".to_string() });
    assert_eq!(remote.subtitle, "https://example.com/x.swf");
}
