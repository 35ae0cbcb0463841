//! Sample contents for lists and palettes.
use vstd::prelude::*;

use crate::ui::{
    list_item, IconAsset, Keybinding, Label, LabelColor, ListItem, ListItemSize, ListItemView, ModifierKeys,
    PaletteItem, PaletteItemView, ToggleState,
};

verus! {

/// The rows of the file tree of a project.
pub open spec fn project_tree_rows() -> Seq<ListItemView> {
    seq![
        ("zed"@, LabelColor::Default, Some(IconAsset::FolderOpen), None, 0u32, ToggleState::Toggled, ListItemSize::Small),
        (".cargo"@, LabelColor::Default, Some(IconAsset::Folder), None, 1u32, ToggleState::NotToggleable, ListItemSize::Small),
        (".config"@, LabelColor::Default, Some(IconAsset::Folder), None, 1u32, ToggleState::NotToggleable, ListItemSize::Small),
        (".git"@, LabelColor::Hidden, Some(IconAsset::Folder), None, 1u32, ToggleState::NotToggleable, ListItemSize::Small),
        (".cargo"@, LabelColor::Default, Some(IconAsset::Folder), None, 1u32, ToggleState::NotToggleable, ListItemSize::Small),
        (".idea"@, LabelColor::Hidden, Some(IconAsset::Folder), None, 1u32, ToggleState::NotToggleable, ListItemSize::Small),
        ("assets"@, LabelColor::Default, Some(IconAsset::Folder), None, 1u32, ToggleState::Toggled, ListItemSize::Small),
        ("cargo-target"@, LabelColor::Hidden, Some(IconAsset::Folder), None, 1u32, ToggleState::NotToggleable, ListItemSize::Small),
        ("crates"@, LabelColor::Default, Some(IconAsset::FolderOpen), None, 1u32, ToggleState::Toggled, ListItemSize::Small),
        ("activity_indicator"@, LabelColor::Default, Some(IconAsset::Folder), None, 2u32, ToggleState::NotToggleable, ListItemSize::Small),
        ("ai"@, LabelColor::Default, Some(IconAsset::Folder), None, 2u32, ToggleState::NotToggleable, ListItemSize::Small),
        ("audio"@, LabelColor::Default, Some(IconAsset::Folder), None, 2u32, ToggleState::NotToggleable, ListItemSize::Small),
        ("auto_update"@, LabelColor::Default, Some(IconAsset::Folder), None, 2u32, ToggleState::NotToggleable, ListItemSize::Small),
        ("breadcrumbs"@, LabelColor::Default, Some(IconAsset::Folder), None, 2u32, ToggleState::NotToggleable, ListItemSize::Small),
        ("call"@, LabelColor::Default, Some(IconAsset::Folder), None, 2u32, ToggleState::NotToggleable, ListItemSize::Small),
        ("sqlez"@, LabelColor::Modified, Some(IconAsset::Folder), None, 2u32, ToggleState::NotToggled, ListItemSize::Small),
        ("gpui2"@, LabelColor::Default, Some(IconAsset::FolderOpen), None, 2u32, ToggleState::Toggled, ListItemSize::Small),
        ("src"@, LabelColor::Default, Some(IconAsset::FolderOpen), None, 3u32, ToggleState::Toggled, ListItemSize::Small),
        ("derrive_element.rs"@, LabelColor::Default, Some(IconAsset::FileRust), None, 4u32, ToggleState::NotToggleable, ListItemSize::Small),
        ("storybook"@, LabelColor::Modified, Some(IconAsset::FolderOpen), None, 1u32, ToggleState::Toggled, ListItemSize::Small),
        ("docs"@, LabelColor::Default, Some(IconAsset::Folder), None, 2u32, ToggleState::Toggled, ListItemSize::Small),
        ("src"@, LabelColor::Modified, Some(IconAsset::FolderOpen), None, 3u32, ToggleState::Toggled, ListItemSize::Small),
        ("ui"@, LabelColor::Modified, Some(IconAsset::FolderOpen), None, 4u32, ToggleState::Toggled, ListItemSize::Small),
        ("component"@, LabelColor::Created, Some(IconAsset::FolderOpen), None, 5u32, ToggleState::Toggled, ListItemSize::Small),
        ("facepile.rs"@, LabelColor::Default, Some(IconAsset::FileRust), None, 6u32, ToggleState::NotToggleable, ListItemSize::Small),
        ("follow_group.rs"@, LabelColor::Default, Some(IconAsset::FileRust), None, 6u32, ToggleState::NotToggleable, ListItemSize::Small),
        ("list_item.rs"@, LabelColor::Created, Some(IconAsset::FileRust), None, 6u32, ToggleState::NotToggleable, ListItemSize::Small),
        ("tab.rs"@, LabelColor::Default, Some(IconAsset::FileRust), None, 6u32, ToggleState::NotToggleable, ListItemSize::Small),
        ("target"@, LabelColor::Hidden, Some(IconAsset::Folder), None, 1u32, ToggleState::NotToggleable, ListItemSize::Small),
        (".dockerignore"@, LabelColor::Default, Some(IconAsset::File), None, 1u32, ToggleState::NotToggleable, ListItemSize::Small),
        (".DS_Store"@, LabelColor::Hidden, Some(IconAsset::File), None, 1u32, ToggleState::NotToggleable, ListItemSize::Small),
        ("Cargo.lock"@, LabelColor::Default, Some(IconAsset::FileLock), None, 1u32, ToggleState::NotToggleable, ListItemSize::Small),
        ("Cargo.toml"@, LabelColor::Default, Some(IconAsset::FileToml), None, 1u32, ToggleState::NotToggleable, ListItemSize::Small),
        ("Dockerfile"@, LabelColor::Default, Some(IconAsset::File), None, 1u32, ToggleState::NotToggleable, ListItemSize::Small),
        ("Procfile"@, LabelColor::Default, Some(IconAsset::File), None, 1u32, ToggleState::NotToggleable, ListItemSize::Small),
        ("README.md"@, LabelColor::Default, Some(IconAsset::FileDoc), None, 1u32, ToggleState::NotToggleable, ListItemSize::Small),
    ]
}

/// Sample list entries: the file tree of a project.
#[verifier::rlimit(50)]
pub fn static_project_panel_project_items() -> (r: Vec<ListItem>)
    ensures
        r@.len() == 36,
        r@.map_values(|i: ListItem| i@) == project_tree_rows(),
{
    let mut items: Vec<ListItem> = Vec::new();
    items.push(list_item(Label::new("zed")).left_icon(IconAsset::FolderOpen).indent_level(0).set_toggle(ToggleState::Toggled));
    items.push(list_item(Label::new(".cargo")).left_icon(IconAsset::Folder).indent_level(1));
    items.push(list_item(Label::new(".config")).left_icon(IconAsset::Folder).indent_level(1));
    items.push(list_item(Label::new(".git").color(LabelColor::Hidden)).left_icon(IconAsset::Folder).indent_level(1));
    items.push(list_item(Label::new(".cargo")).left_icon(IconAsset::Folder).indent_level(1));
    items.push(list_item(Label::new(".idea").color(LabelColor::Hidden)).left_icon(IconAsset::Folder).indent_level(1));
    items.push(list_item(Label::new("assets")).left_icon(IconAsset::Folder).indent_level(1).set_toggle(ToggleState::Toggled));
    items.push(list_item(Label::new("cargo-target").color(LabelColor::Hidden)).left_icon(IconAsset::Folder).indent_level(1));
    items.push(list_item(Label::new("crates")).left_icon(IconAsset::FolderOpen).indent_level(1).set_toggle(ToggleState::Toggled));
    items.push(list_item(Label::new("activity_indicator")).left_icon(IconAsset::Folder).indent_level(2));
    items.push(list_item(Label::new("ai")).left_icon(IconAsset::Folder).indent_level(2));
    items.push(list_item(Label::new("audio")).left_icon(IconAsset::Folder).indent_level(2));
    items.push(list_item(Label::new("auto_update")).left_icon(IconAsset::Folder).indent_level(2));
    items.push(list_item(Label::new("breadcrumbs")).left_icon(IconAsset::Folder).indent_level(2));
    items.push(list_item(Label::new("call")).left_icon(IconAsset::Folder).indent_level(2));
    items.push(list_item(Label::new("sqlez").color(LabelColor::Modified)).left_icon(IconAsset::Folder).indent_level(2).set_toggle(ToggleState::NotToggled));
    items.push(list_item(Label::new("gpui2")).left_icon(IconAsset::FolderOpen).indent_level(2).set_toggle(ToggleState::Toggled));
    items.push(list_item(Label::new("src")).left_icon(IconAsset::FolderOpen).indent_level(3).set_toggle(ToggleState::Toggled));
    items.push(list_item(Label::new("derrive_element.rs")).left_icon(IconAsset::FileRust).indent_level(4));
    items.push(list_item(Label::new("storybook").color(LabelColor::Modified)).left_icon(IconAsset::FolderOpen).indent_level(1).set_toggle(ToggleState::Toggled));
    items.push(list_item(Label::new("docs").color(LabelColor::Default)).left_icon(IconAsset::Folder).indent_level(2).set_toggle(ToggleState::Toggled));
    items.push(list_item(Label::new("src").color(LabelColor::Modified)).left_icon(IconAsset::FolderOpen).indent_level(3).set_toggle(ToggleState::Toggled));
    items.push(list_item(Label::new("ui").color(LabelColor::Modified)).left_icon(IconAsset::FolderOpen).indent_level(4).set_toggle(ToggleState::Toggled));
    items.push(list_item(Label::new("component").color(LabelColor::Created)).left_icon(IconAsset::FolderOpen).indent_level(5).set_toggle(ToggleState::Toggled));
    items.push(list_item(Label::new("facepile.rs").color(LabelColor::Default)).left_icon(IconAsset::FileRust).indent_level(6));
    items.push(list_item(Label::new("follow_group.rs").color(LabelColor::Default)).left_icon(IconAsset::FileRust).indent_level(6));
    items.push(list_item(Label::new("list_item.rs").color(LabelColor::Created)).left_icon(IconAsset::FileRust).indent_level(6));
    items.push(list_item(Label::new("tab.rs").color(LabelColor::Default)).left_icon(IconAsset::FileRust).indent_level(6));
    items.push(list_item(Label::new("target").color(LabelColor::Hidden)).left_icon(IconAsset::Folder).indent_level(1));
    items.push(list_item(Label::new(".dockerignore")).left_icon(IconAsset::File).indent_level(1));
    items.push(list_item(Label::new(".DS_Store").color(LabelColor::Hidden)).left_icon(IconAsset::File).indent_level(1));
    items.push(list_item(Label::new("Cargo.lock")).left_icon(IconAsset::FileLock).indent_level(1));
    items.push(list_item(Label::new("Cargo.toml")).left_icon(IconAsset::FileToml).indent_level(1));
    items.push(list_item(Label::new("Dockerfile")).left_icon(IconAsset::File).indent_level(1));
    items.push(list_item(Label::new("Procfile")).left_icon(IconAsset::File).indent_level(1));
    items.push(list_item(Label::new("README.md")).left_icon(IconAsset::FileDoc).indent_level(1));
    assert(items@.map_values(|i: ListItem| i@) =~= project_tree_rows());
    items
}

/// The rows of a handful of loose files.
pub open spec fn single_file_rows() -> Seq<ListItemView> {
    seq![
        ("todo.md"@, LabelColor::Default, Some(IconAsset::FileDoc), None, 0u32, ToggleState::NotToggleable, ListItemSize::Small),
        ("README.md"@, LabelColor::Default, Some(IconAsset::FileDoc), None, 0u32, ToggleState::NotToggleable, ListItemSize::Small),
        ("config.json"@, LabelColor::Default, Some(IconAsset::File), None, 0u32, ToggleState::NotToggleable, ListItemSize::Small),
    ]
}

/// Sample list entries: a handful of loose files.
#[verifier::rlimit(50)]
pub fn static_project_panel_single_items() -> (r: Vec<ListItem>)
    ensures
        r@.len() == 3,
        r@.map_values(|i: ListItem| i@) == single_file_rows(),
{
    let mut items: Vec<ListItem> = Vec::new();
    items.push(list_item(Label::new("todo.md")).left_icon(IconAsset::FileDoc).indent_level(0));
    items.push(list_item(Label::new("README.md")).left_icon(IconAsset::FileDoc).indent_level(0));
    items.push(list_item(Label::new("config.json")).left_icon(IconAsset::File).indent_level(0));
    assert(items@.map_values(|i: ListItem| i@) =~= single_file_rows());
    items
}

/// The rows of the participants of a call.
pub open spec fn current_call_rows() -> Seq<ListItemView> {
    seq![
        ("as-cii"@, LabelColor::Default, None, Some("http://github.com/as-cii.png?s=50"@), 0u32, ToggleState::NotToggleable, ListItemSize::Small),
        ("nathansobo"@, LabelColor::Default, None, Some("http://github.com/nathansobo.png?s=50"@), 0u32, ToggleState::NotToggleable, ListItemSize::Small),
        ("maxbrunsfeld"@, LabelColor::Default, None, Some("http://github.com/maxbrunsfeld.png?s=50"@), 0u32, ToggleState::NotToggleable, ListItemSize::Small),
    ]
}

/// Sample list entries: the participants of a call.
#[verifier::rlimit(50)]
pub fn static_collab_panel_current_call() -> (r: Vec<ListItem>)
    ensures
        r@.len() == 3,
        r@.map_values(|i: ListItem| i@) == current_call_rows(),
{
    let mut items: Vec<ListItem> = Vec::new();
    items.push(list_item(Label::new("as-cii")).left_avatar("http://github.com/as-cii.png?s=50"));
    items.push(list_item(Label::new("nathansobo")).left_avatar("http://github.com/nathansobo.png?s=50"));
    items.push(list_item(Label::new("maxbrunsfeld")).left_avatar("http://github.com/maxbrunsfeld.png?s=50"));
    assert(items@.map_values(|i: ListItem| i@) =~= current_call_rows());
    items
}

/// The rows of a tree of channels.
pub open spec fn channel_rows() -> Seq<ListItemView> {
    seq![
        ("zed"@, LabelColor::Default, Some(IconAsset::Hash), None, 0u32, ToggleState::NotToggleable, ListItemSize::Medium),
        ("community"@, LabelColor::Default, Some(IconAsset::Hash), None, 1u32, ToggleState::NotToggleable, ListItemSize::Medium),
        ("dashboards"@, LabelColor::Default, Some(IconAsset::Hash), None, 2u32, ToggleState::NotToggleable, ListItemSize::Medium),
        ("feedback"@, LabelColor::Default, Some(IconAsset::Hash), None, 2u32, ToggleState::NotToggleable, ListItemSize::Medium),
        ("teams-in-channels-alpha"@, LabelColor::Default, Some(IconAsset::Hash), None, 2u32, ToggleState::NotToggleable, ListItemSize::Medium),
        ("current-projects"@, LabelColor::Default, Some(IconAsset::Hash), None, 1u32, ToggleState::NotToggleable, ListItemSize::Medium),
        ("codegen"@, LabelColor::Default, Some(IconAsset::Hash), None, 2u32, ToggleState::NotToggleable, ListItemSize::Medium),
        ("gpui2"@, LabelColor::Default, Some(IconAsset::Hash), None, 2u32, ToggleState::NotToggleable, ListItemSize::Medium),
        ("livestreaming"@, LabelColor::Default, Some(IconAsset::Hash), None, 2u32, ToggleState::NotToggleable, ListItemSize::Medium),
        ("open-source"@, LabelColor::Default, Some(IconAsset::Hash), None, 2u32, ToggleState::NotToggleable, ListItemSize::Medium),
        ("replace"@, LabelColor::Default, Some(IconAsset::Hash), None, 2u32, ToggleState::NotToggleable, ListItemSize::Medium),
        ("semantic-index"@, LabelColor::Default, Some(IconAsset::Hash), None, 2u32, ToggleState::NotToggleable, ListItemSize::Medium),
        ("vim"@, LabelColor::Default, Some(IconAsset::Hash), None, 2u32, ToggleState::NotToggleable, ListItemSize::Medium),
        ("web-tech"@, LabelColor::Default, Some(IconAsset::Hash), None, 2u32, ToggleState::NotToggleable, ListItemSize::Medium),
    ]
}

/// Sample list entries: a tree of channels.
#[verifier::rlimit(50)]
pub fn static_collab_panel_channels() -> (r: Vec<ListItem>)
    ensures
        r@.len() == 14,
        r@.map_values(|i: ListItem| i@) == channel_rows(),
{
    let mut items: Vec<ListItem> = Vec::new();
    items.push(list_item(Label::new("zed")).left_icon(IconAsset::Hash).size(ListItemSize::Medium).indent_level(0));
    items.push(list_item(Label::new("community")).left_icon(IconAsset::Hash).size(ListItemSize::Medium).indent_level(1));
    items.push(list_item(Label::new("dashboards")).left_icon(IconAsset::Hash).size(ListItemSize::Medium).indent_level(2));
    items.push(list_item(Label::new("feedback")).left_icon(IconAsset::Hash).size(ListItemSize::Medium).indent_level(2));
    items.push(list_item(Label::new("teams-in-channels-alpha")).left_icon(IconAsset::Hash).size(ListItemSize::Medium).indent_level(2));
    items.push(list_item(Label::new("current-projects")).left_icon(IconAsset::Hash).size(ListItemSize::Medium).indent_level(1));
    items.push(list_item(Label::new("codegen")).left_icon(IconAsset::Hash).size(ListItemSize::Medium).indent_level(2));
    items.push(list_item(Label::new("gpui2")).left_icon(IconAsset::Hash).size(ListItemSize::Medium).indent_level(2));
    items.push(list_item(Label::new("livestreaming")).left_icon(IconAsset::Hash).size(ListItemSize::Medium).indent_level(2));
    items.push(list_item(Label::new("open-source")).left_icon(IconAsset::Hash).size(ListItemSize::Medium).indent_level(2));
    items.push(list_item(Label::new("replace")).left_icon(IconAsset::Hash).size(ListItemSize::Medium).indent_level(2));
    items.push(list_item(Label::new("semantic-index")).left_icon(IconAsset::Hash).size(ListItemSize::Medium).indent_level(2));
    items.push(list_item(Label::new("vim")).left_icon(IconAsset::Hash).size(ListItemSize::Medium).indent_level(2));
    items.push(list_item(Label::new("web-tech")).left_icon(IconAsset::Hash).size(ListItemSize::Medium).indent_level(2));
    assert(items@.map_values(|i: ListItem| i@) =~= channel_rows());
    items
}

/// The entries of a sample editor palette.
pub open spec fn editor_action_rows() -> Seq<PaletteItemView> {
    seq![
        ("New File"@, Some(("N"@, ModifierKeys { control: true, alt: false, shift: false, command: false }))),
        ("Open File"@, Some(("O"@, ModifierKeys { control: true, alt: false, shift: false, command: false }))),
        ("Save File"@, Some(("S"@, ModifierKeys { control: true, alt: false, shift: false, command: false }))),
        ("Cut"@, Some(("X"@, ModifierKeys { control: true, alt: false, shift: false, command: false }))),
        ("Copy"@, Some(("C"@, ModifierKeys { control: true, alt: false, shift: false, command: false }))),
        ("Paste"@, Some(("V"@, ModifierKeys { control: true, alt: false, shift: false, command: false }))),
        ("Undo"@, Some(("Z"@, ModifierKeys { control: true, alt: false, shift: false, command: false }))),
        ("Redo"@, Some(("Z"@, ModifierKeys { control: true, alt: false, shift: true, command: false }))),
        ("Find"@, Some(("F"@, ModifierKeys { control: true, alt: false, shift: false, command: false }))),
        ("Replace"@, Some(("R"@, ModifierKeys { control: true, alt: false, shift: false, command: false }))),
        ("Jump to Line"@, None),
        ("Select All"@, None),
        ("Deselect All"@, None),
        ("Switch Document"@, None),
        ("Insert Line Below"@, None),
        ("Insert Line Above"@, None),
        ("Move Line Up"@, None),
        ("Move Line Down"@, None),
        ("Toggle Comment"@, None),
        ("Delete Line"@, None),
    ]
}

/// Sample palette entries: editor actions and their key bindings.
#[verifier::rlimit(50)]
pub fn example_editor_actions() -> (r: Vec<PaletteItem>)
    ensures
        r@.len() == 20,
        r@.map_values(|i: PaletteItem| i@) == editor_action_rows(),
{
    let mut items: Vec<PaletteItem> = Vec::new();
    items.push(PaletteItem::new("New File").keybinding(Keybinding::new("N".to_owned(), ModifierKeys::new().control(true))));
    items.push(PaletteItem::new("Open File").keybinding(Keybinding::new("O".to_owned(), ModifierKeys::new().control(true))));
    items.push(PaletteItem::new("Save File").keybinding(Keybinding::new("S".to_owned(), ModifierKeys::new().control(true))));
    items.push(PaletteItem::new("Cut").keybinding(Keybinding::new("X".to_owned(), ModifierKeys::new().control(true))));
    items.push(PaletteItem::new("Copy").keybinding(Keybinding::new("C".to_owned(), ModifierKeys::new().control(true))));
    items.push(PaletteItem::new("Paste").keybinding(Keybinding::new("V".to_owned(), ModifierKeys::new().control(true))));
    items.push(PaletteItem::new("Undo").keybinding(Keybinding::new("Z".to_owned(), ModifierKeys::new().control(true))));
    items.push(PaletteItem::new("Redo").keybinding(Keybinding::new("Z".to_owned(), ModifierKeys::new().control(true).shift(true))));
    items.push(PaletteItem::new("Find").keybinding(Keybinding::new("F".to_owned(), ModifierKeys::new().control(true))));
    items.push(PaletteItem::new("Replace").keybinding(Keybinding::new("R".to_owned(), ModifierKeys::new().control(true))));
    items.push(PaletteItem::new("Jump to Line"));
    items.push(PaletteItem::new("Select All"));
    items.push(PaletteItem::new("Deselect All"));
    items.push(PaletteItem::new("Switch Document"));
    items.push(PaletteItem::new("Insert Line Below"));
    items.push(PaletteItem::new("Insert Line Above"));
    items.push(PaletteItem::new("Move Line Up"));
    items.push(PaletteItem::new("Move Line Down"));
    items.push(PaletteItem::new("Toggle Comment"));
    items.push(PaletteItem::new("Delete Line"));
    assert(items@.map_values(|i: PaletteItem| i@) =~= editor_action_rows());
    items
}

} // verus!
