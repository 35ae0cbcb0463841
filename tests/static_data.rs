use project_terminals::static_data::{
    example_editor_actions, static_collab_panel_channels, static_collab_panel_current_call,
    static_project_panel_project_items, static_project_panel_single_items,
};
use project_terminals::ui::{IconAsset, LabelColor, LeftContent, ListItemSize, ToggleState};

#[test]
fn project_items_tree() {
    let items = static_project_panel_project_items();
    assert_eq!(items.len(), 36);
    assert_eq!(items[0].label.text, "zed");
    assert_eq!(items[0].toggle, ToggleState::Toggled);
    assert!(matches!(items[0].left, Some(LeftContent::Icon(IconAsset::FolderOpen))));
    assert_eq!(items[3].label.text, ".git");
    assert_eq!(items[3].label.color, LabelColor::Hidden);
    assert_eq!(items[18].label.text, "derrive_element.rs");
    assert_eq!(items[18].indent_level, 4);
    assert_eq!(items[35].label.text, "README.md");
    assert!(matches!(items[35].left, Some(LeftContent::Icon(IconAsset::FileDoc))));
}

#[test]
fn single_items() {
    let items = static_project_panel_single_items();
    let names: Vec<&str> = items.iter().map(|i| i.label.text.as_str()).collect();
    assert_eq!(names, vec!["todo.md", "README.md", "config.json"]);
    assert!(items.iter().all(|i| i.indent_level == 0));
}

#[test]
fn current_call_avatars() {
    let items = static_collab_panel_current_call();
    assert_eq!(items.len(), 3);
    match &items[1].left {
        Some(LeftContent::Avatar(a)) => assert_eq!(a, "http://github.com/nathansobo.png?s=50"),
        _ => panic!("expected an avatar"),
    }
}

#[test]
fn channels_are_medium_hashes() {
    let items = static_collab_panel_channels();
    assert_eq!(items.len(), 14);
    assert!(items.iter().all(|i| i.size == ListItemSize::Medium));
    assert!(items.iter().all(|i| matches!(i.left, Some(LeftContent::Icon(IconAsset::Hash)))));
    assert_eq!(items[13].label.text, "web-tech");
    assert_eq!(items[13].indent_level, 2);
}

#[test]
fn editor_actions_bindings() {
    let items = example_editor_actions();
    assert_eq!(items.len(), 20);
    let redo = items[7].keybinding.as_ref().unwrap();
    assert_eq!(items[7].label, "Redo");
    assert_eq!(redo.key, "Z");
    assert!(redo.modifiers.control && redo.modifiers.shift);
    assert!(items[10].keybinding.is_none());
    assert_eq!(items[19].label, "Delete Line");
}
