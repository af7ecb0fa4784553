//! The theme picker: a button that opens a menu of the themes to choose from.
//!
//! What is decided here is the menu: one item for each theme that the
//! registry knows, in the registry's sorted order, with a check mark beside
//! the active theme. Drawing the button and the menu is left to the
//! application.

use vstd::prelude::*;
use vstd::string::*;
use crate::controller::SwitchTheme;
use crate::text::{names_view, same_text};

verus! {

/// The greatest height of the menu, in logical pixels. A longer menu scrolls.
pub const MENU_MAX_HEIGHT: u32 = 600;

/// One item of the menu.
#[derive(Debug, Clone, PartialEq, Eq)]
pub struct MenuItem {
    /// The name of the theme, as it is shown.
    pub label: String,
    /// Whether the item bears the check mark.
    pub checked: bool,
    /// The action that is dispatched when the item is chosen.
    pub action: SwitchTheme,
}

/// The mathematical value of a [`MenuItem`]; `action` is the name of the
/// theme that the item's action asks for.
pub struct MenuItemView {
    pub label: Seq<char>,
    pub checked: bool,
    pub action: Seq<char>,
}

impl View for MenuItem {
    type V = MenuItemView;

    open spec fn view(&self) -> MenuItemView {
        MenuItemView { label: self.label@, checked: self.checked, action: self.action.0@ }
    }
}

/// The menu that the picker opens.
#[derive(Debug, Clone, PartialEq, Eq)]
pub struct PickerMenu {
    /// Whether the menu scrolls vertically.
    pub scrollable: bool,
    /// The greatest height of the menu, in logical pixels.
    pub max_height: u32,
    /// The items, from top to bottom.
    pub items: Vec<MenuItem>,
}

/// The mathematical value of a [`PickerMenu`].
pub struct PickerMenuView {
    pub scrollable: bool,
    pub max_height: int,
    pub items: Seq<MenuItemView>,
}

impl View for PickerMenu {
    type V = PickerMenuView;

    open spec fn view(&self) -> PickerMenuView {
        PickerMenuView {
            scrollable: self.scrollable,
            max_height: self.max_height as int,
            items: Seq::new(self.items@.len(), |i: int| self.items@[i]@),
        }
    }
}

/// The item for a theme: it shows the theme's name, bears the check mark if
/// and only if this is the active theme, and asks for this theme when chosen.
pub open spec fn item_of(theme: Seq<char>, current_theme: Seq<char>) -> MenuItemView {
    MenuItemView { label: theme, checked: theme == current_theme, action: theme }
}

/// The menu for the given themes: scrollable, at most 600 logical pixels
/// high, one item for each theme in the order given.
pub open spec fn menu_of(current_theme: Seq<char>, themes: Seq<Seq<char>>) -> PickerMenuView {
    PickerMenuView {
        scrollable: true,
        max_height: 600,
        items: Seq::new(themes.len(), |i: int| item_of(themes[i], current_theme)),
    }
}

/// The theme picker. It keeps nothing: the menu is made anew from the
/// registry each time it is opened.
#[derive(Debug, Clone, Copy, PartialEq, Eq, Structural)]
pub struct ThemeSwitcher {}

impl ThemeSwitcher {
    /// A theme picker.
    pub fn new() -> (switcher: ThemeSwitcher)
        ensures
            switcher == (ThemeSwitcher {  }),
    {
        ThemeSwitcher {  }
    }

    /// The menu to show. `current_theme` is the name of the active theme,
    /// `sorted_themes` are the names that the registry knows, in its sorted
    /// order.
    pub fn render(&self, current_theme: &str, sorted_themes: &Vec<String>) -> (menu: PickerMenu)
        ensures
            menu@ == menu_of(current_theme@, names_view(sorted_themes@)),
    {
        let mut items: Vec<MenuItem> = Vec::new();
        let mut i: usize = 0;
        while i < sorted_themes.len()
            invariant
                0 <= i <= sorted_themes.len(),
                items@.len() == i,
                forall|j: int| 0 <= j < i ==> (#[trigger] items@[j])@ == item_of(
                    sorted_themes@[j]@,
                    current_theme@,
                ),
            decreases sorted_themes.len() - i,
        {
            let theme = &sorted_themes[i];
            let checked = same_text(theme.as_str(), current_theme);
            items.push(MenuItem { label: theme.clone(), checked, action: SwitchTheme(theme.clone()) });
            i += 1;
        }
        let menu = PickerMenu { scrollable: true, max_height: MENU_MAX_HEIGHT, items };
        assert(menu@.items =~= menu_of(current_theme@, names_view(sorted_themes@)).items);
        menu
    }
}

} // verus!
