//! Plain descriptions of list and palette entries.
use vstd::prelude::*;

verus! {

/// The color a label is drawn in.
#[derive(Clone, Copy, Debug, PartialEq, Eq, Structural)]
pub enum LabelColor {
    Default,
    Muted,
    Created,
    Modified,
    Deleted,
    Disabled,
    Hidden,
    Placeholder,
    Accent,
}

/// An icon shown beside an entry.
#[derive(Clone, Copy, Debug, PartialEq, Eq, Structural)]
pub enum IconAsset {
    File,
    FileDoc,
    FileLock,
    FileRust,
    FileToml,
    Folder,
    FolderOpen,
    Hash,
}

/// Whether an entry can be expanded, and whether it is.
#[derive(Clone, Copy, Debug, PartialEq, Eq, Structural)]
pub enum ToggleState {
    NotToggleable,
    Toggled,
    NotToggled,
}

/// The height of a list entry.
#[derive(Clone, Copy, Debug, PartialEq, Eq, Structural)]
pub enum ListItemSize {
    Small,
    Medium,
}

/// A piece of text and its color.
#[derive(Clone, Debug)]
pub struct Label {
    pub text: String,
    pub color: LabelColor,
}

impl Label {
    /// A label in the default color.
    pub fn new(text: &str) -> (r: Label)
        ensures
            r.text@ == text@,
            r.color == LabelColor::Default,
    {
        Label { text: text.to_owned(), color: LabelColor::Default }
    }

    /// The label in another color.
    pub fn color(self, color: LabelColor) -> (r: Label)
        ensures
            r.text == self.text,
            r.color == color,
    {
        Label { color, ..self }
    }
}

/// What stands at the left of a list entry.
#[derive(Clone, Debug)]
pub enum LeftContent {
    Icon(IconAsset),
    /// The address of an avatar image.
    Avatar(String),
}

/// One entry of a list.
#[derive(Clone, Debug)]
pub struct ListItem {
    pub label: Label,
    pub left: Option<LeftContent>,
    pub indent_level: u32,
    pub toggle: ToggleState,
    pub size: ListItemSize,
}

/// What a list entry shows: text, color, icon, avatar address, indent,
/// toggle and size.
pub type ListItemView = (Seq<char>, LabelColor, Option<IconAsset>, Option<Seq<char>>, u32, ToggleState, ListItemSize);

impl View for ListItem {
    type V = ListItemView;

    open spec fn view(&self) -> ListItemView {
        (
            self.label.text@,
            self.label.color,
            match self.left {
                Some(LeftContent::Icon(i)) => Some(i),
                _ => None,
            },
            match self.left {
                Some(LeftContent::Avatar(a)) => Some(a@),
                _ => None,
            },
            self.indent_level,
            self.toggle,
            self.size,
        )
    }
}

/// A list entry showing `label`, small, unindented and not toggleable.
pub fn list_item(label: Label) -> (r: ListItem)
    ensures
        r@ == (label.text@, label.color, None::<IconAsset>, None::<Seq<char>>, 0u32, ToggleState::NotToggleable, ListItemSize::Small),
{
    ListItem { label, left: None, indent_level: 0, toggle: ToggleState::NotToggleable, size: ListItemSize::Small }
}

impl ListItem {
    /// The entry with an icon at its left.
    pub fn left_icon(self, icon: IconAsset) -> (r: ListItem)
        ensures
            r@ == (self@.0, self@.1, Some(icon), None::<Seq<char>>, self@.4, self@.5, self@.6),
    {
        ListItem { left: Some(LeftContent::Icon(icon)), ..self }
    }

    /// The entry with an avatar at its left.
    pub fn left_avatar(self, address: &str) -> (r: ListItem)
        ensures
            r@ == (self@.0, self@.1, None::<IconAsset>, Some(address@), self@.4, self@.5, self@.6),
    {
        ListItem { left: Some(LeftContent::Avatar(address.to_owned())), ..self }
    }

    /// The entry at another indent level.
    pub fn indent_level(self, indent_level: u32) -> (r: ListItem)
        ensures
            r@ == (self@.0, self@.1, self@.2, self@.3, indent_level, self@.5, self@.6),
    {
        ListItem { indent_level, ..self }
    }

    /// The entry in another toggle state.
    pub fn set_toggle(self, toggle: ToggleState) -> (r: ListItem)
        ensures
            r@ == (self@.0, self@.1, self@.2, self@.3, self@.4, toggle, self@.6),
    {
        ListItem { toggle, ..self }
    }

    /// The entry at another size.
    pub fn size(self, size: ListItemSize) -> (r: ListItem)
        ensures
            r@ == (self@.0, self@.1, self@.2, self@.3, self@.4, self@.5, size),
    {
        ListItem { size, ..self }
    }
}

/// The modifier keys of a key binding.
#[derive(Clone, Copy, Debug, PartialEq, Eq, Structural)]
pub struct ModifierKeys {
    pub control: bool,
    pub alt: bool,
    pub shift: bool,
    pub command: bool,
}

impl ModifierKeys {
    /// No modifier held.
    pub fn new() -> (r: ModifierKeys)
        ensures
            r == (ModifierKeys { control: false, alt: false, shift: false, command: false }),
    {
        ModifierKeys { control: false, alt: false, shift: false, command: false }
    }

    /// With or without control.
    pub fn control(self, control: bool) -> (r: ModifierKeys)
        ensures
            r == (ModifierKeys { control, ..self }),
    {
        ModifierKeys { control, ..self }
    }

    /// With or without shift.
    pub fn shift(self, shift: bool) -> (r: ModifierKeys)
        ensures
            r == (ModifierKeys { shift, ..self }),
    {
        ModifierKeys { shift, ..self }
    }
}

/// A key and the modifiers held with it.
#[derive(Clone, Debug)]
pub struct Keybinding {
    pub key: String,
    pub modifiers: ModifierKeys,
}

impl Keybinding {
    /// The binding of `key` with `modifiers`.
    pub fn new(key: String, modifiers: ModifierKeys) -> (r: Keybinding)
        ensures
            r.key == key,
            r.modifiers == modifiers,
    {
        Keybinding { key, modifiers }
    }
}

/// An entry of a command palette.
#[derive(Clone, Debug)]
pub struct PaletteItem {
    pub label: String,
    pub keybinding: Option<Keybinding>,
}

/// What a palette entry shows: its label, and its binding's key and modifiers.
pub type PaletteItemView = (Seq<char>, Option<(Seq<char>, ModifierKeys)>);

impl View for PaletteItem {
    type V = PaletteItemView;

    open spec fn view(&self) -> PaletteItemView {
        (
            self.label@,
            match self.keybinding {
                Some(k) => Some((k.key@, k.modifiers)),
                None => None,
            },
        )
    }
}

impl PaletteItem {
    /// A palette entry with no key binding.
    pub fn new(label: &str) -> (r: PaletteItem)
        ensures
            r@ == (label@, None::<(Seq<char>, ModifierKeys)>),
    {
        PaletteItem { label: label.to_owned(), keybinding: None }
    }

    /// The entry with a key binding.
    pub fn keybinding(self, keybinding: Keybinding) -> (r: PaletteItem)
        ensures
            r@ == (self@.0, Some((keybinding.key@, keybinding.modifiers))),
    {
        PaletteItem { keybinding: Some(keybinding), ..self }
    }
}

} // verus!
