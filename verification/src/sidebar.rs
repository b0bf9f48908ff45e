//! The sidebar beside the main content: a menu of items, a toggle
//! button, and a compact mode it enters when the split view collapses.
//!
//! Menu items are added one by one; building the menu creates one
//! button per item, but only once a click callback has been set, and
//! each button is bound to a copy of its item taken when the menu is
//! built. Attaching the split view installs the collapse listener,
//! which likewise captures a copy of the menu and of the callback's
//! presence at that moment: items added or a callback set afterwards
//! never reach the collapsed-mode toolbar. Collapsed, the sidebar
//! shows that compact toolbar (one icon button per captured item,
//! callback permitting) and the toggle button's icon asks to show the
//! sidebar; expanded, it shows the full sidebar page and the icon asks
//! to hide it.

use vstd::prelude::*;

use crate::window::SplitView;

verus! {

/// One entry of the sidebar menu.
#[derive(Debug, Clone)]
pub struct MenuItem {
    /// Identifier handed to the click callback.
    pub id: String,
    /// Text shown on the menu button.
    pub label: String,
    /// Icon shown on the menu button.
    pub icon: String,
}

/// Mathematical image of a [`MenuItem`].
pub struct MenuItemModel {
    pub id: Seq<char>,
    pub label: Seq<char>,
    pub icon: Seq<char>,
}

impl View for MenuItem {
    type V = MenuItemModel;

    open spec fn view(&self) -> MenuItemModel {
        MenuItemModel { id: self.id@, label: self.label@, icon: self.icon@ }
    }
}

impl MenuItem {
    /// A menu item with the given identifier, label and icon.
    pub fn new(id: &str, label: &str, icon: &str) -> (r: MenuItem)
        ensures
            r@.id == id@,
            r@.label == label@,
            r@.icon == icon@,
    {
        MenuItem { id: id.to_owned(), label: label.to_owned(), icon: icon.to_owned() }
    }
}

/// The images of a list of menu items, in order.
pub open spec fn menu_view(v: Seq<MenuItem>) -> Seq<MenuItemModel> {
    v.map_values(|m: MenuItem| m@)
}

/// Copy a list of menu items, item by item.
fn clone_menu_items(v: &Vec<MenuItem>) -> (r: Vec<MenuItem>)
    ensures
        menu_view(r@) == menu_view(v@),
{
    let mut r: Vec<MenuItem> = Vec::new();
    let mut i: usize = 0;
    while i < v.len()
        invariant
            i <= v@.len(),
            r@.len() == i,
            forall|k: int| 0 <= k < i ==> (#[trigger] r@[k])@ == v@[k]@,
        decreases v@.len() - i,
    {
        let item = &v[i];
        r.push(MenuItem {
            id: item.id.clone(),
            label: item.label.clone(),
            icon: item.icon.clone(),
        });
        i += 1;
    }
    proof {
        assert(menu_view(r@) =~= menu_view(v@));
    }
    r
}

/// What the sidebar container currently shows.
#[derive(Debug, Clone, Copy, PartialEq, Eq, Structural)]
pub enum SidebarPane {
    /// The full sidebar page with the labelled menu.
    Full,
    /// The compact icon-only toolbar shown while collapsed.
    Compact,
}

/// Icon on the toggle button while the sidebar is collapsed.
pub open spec fn spec_show_sidebar_icon() -> Seq<char> {
    "sidebar-show-right-symbolic"@
}

/// Icon on the toggle button while the sidebar is expanded.
pub open spec fn spec_hide_sidebar_icon() -> Seq<char> {
    "sidebar-hide-right-symbolic"@
}

/// Width and height, in pixels, of each compact toolbar button.
pub const COMPACT_BUTTON_SIZE_PX: u32 = 40;

/// The buttons a menu builds when a callback is or is not set: one per
/// item, but without a callback there is nothing to call, so none.
pub open spec fn spec_menu_buttons(has_callback: bool, items: Seq<MenuItemModel>) -> Seq<
    MenuItemModel,
> {
    if has_callback {
        items
    } else {
        Seq::empty()
    }
}

/// What the collapse listener captured when it was installed.
struct ListenerState {
    menu_items: Vec<MenuItem>,
    has_callback: bool,
}

/// The sidebar's state: its menu, whether a click callback is set,
/// what the collapse listener captured, and what its container and
/// toggle button show.
pub struct MainSidebar {
    page_title: String,
    menu_items: Vec<MenuItem>,
    has_callback: bool,
    menu_buttons: Vec<MenuItem>,
    toggle_icon: String,
    pane: SidebarPane,
    compact_buttons: Vec<MenuItem>,
    listener: Option<ListenerState>,
}

impl MainSidebar {
    /// Title of the sidebar page.
    pub closed spec fn page_title_text(&self) -> Seq<char> {
        self.page_title@
    }

    /// The images of the sidebar's menu items, in insertion order.
    pub closed spec fn menu(&self) -> Seq<MenuItemModel> {
        menu_view(self.menu_items@)
    }

    /// Whether a click callback has been set.
    pub closed spec fn callback_set(&self) -> bool {
        self.has_callback
    }

    /// The items bound to the built menu's buttons, one per button.
    pub closed spec fn built_menu(&self) -> Seq<MenuItemModel> {
        menu_view(self.menu_buttons@)
    }

    /// Icon currently on the toggle button.
    pub closed spec fn toggle_icon_name(&self) -> Seq<char> {
        self.toggle_icon@
    }

    /// What the sidebar container currently shows.
    pub closed spec fn shown_pane(&self) -> SidebarPane {
        self.pane
    }

    /// The items shown as buttons on the compact toolbar, one per
    /// button, each with its icon.
    pub closed spec fn compact_items(&self) -> Seq<MenuItemModel> {
        menu_view(self.compact_buttons@)
    }

    /// Whether a split view has been attached, installing the collapse
    /// listener.
    pub closed spec fn attached(&self) -> bool {
        self.listener is Some
    }

    /// The menu the collapse listener captured when it was installed.
    pub closed spec fn captured_menu(&self) -> Seq<MenuItemModel> {
        match self.listener {
            Some(state) => menu_view(state.menu_items@),
            None => Seq::empty(),
        }
    }

    /// Whether a callback was set when the collapse listener was
    /// installed.
    pub closed spec fn captured_callback(&self) -> bool {
        match self.listener {
            Some(state) => state.has_callback,
            None => false,
        }
    }

    /// A sidebar with an empty menu, no callback, no listener, and the
    /// full pane shown.
    pub fn new() -> (r: MainSidebar)
        ensures
            r.page_title_text() == "侧边栏"@,
            r.menu() =~= Seq::<MenuItemModel>::empty(),
            !r.callback_set(),
            r.built_menu() =~= Seq::<MenuItemModel>::empty(),
            r.toggle_icon_name() == spec_show_sidebar_icon(),
            r.shown_pane() == SidebarPane::Full,
            r.compact_items() =~= Seq::<MenuItemModel>::empty(),
            !r.attached(),
    {
        MainSidebar {
            page_title: String::from_str("侧边栏"),
            menu_items: Vec::new(),
            has_callback: false,
            menu_buttons: Vec::new(),
            toggle_icon: String::from_str("sidebar-show-right-symbolic"),
            pane: SidebarPane::Full,
            compact_buttons: Vec::new(),
            listener: None,
        }
    }

    /// What the sidebar container currently shows.
    pub fn get_sidebar_container(&self) -> (r: SidebarPane)
        ensures
            r == self.shown_pane(),
    {
        self.pane
    }

    /// Attach the split view the sidebar controls: the toggle button
    /// acts on it from here on, and the collapse listener is installed
    /// with a copy of the menu and of the callback's presence as they
    /// stand now.
    pub fn set_split_view(&mut self)
        ensures
            final(self).attached(),
            final(self).captured_menu() == old(self).menu(),
            final(self).captured_callback() == old(self).callback_set(),
            final(self).page_title_text() == old(self).page_title_text(),
            final(self).menu() == old(self).menu(),
            final(self).callback_set() == old(self).callback_set(),
            final(self).built_menu() == old(self).built_menu(),
            final(self).toggle_icon_name() == old(self).toggle_icon_name(),
            final(self).shown_pane() == old(self).shown_pane(),
            final(self).compact_items() == old(self).compact_items(),
    {
        let menu_items = clone_menu_items(&self.menu_items);
        self.listener = Some(ListenerState { menu_items, has_callback: self.has_callback });
    }

    /// Append a menu item. A listener already installed keeps the menu
    /// it captured.
    pub fn add_menu_item(&mut self, menu_item: MenuItem)
        ensures
            final(self).menu() =~= old(self).menu().push(menu_item@),
            final(self).page_title_text() == old(self).page_title_text(),
            final(self).callback_set() == old(self).callback_set(),
            final(self).built_menu() == old(self).built_menu(),
            final(self).toggle_icon_name() == old(self).toggle_icon_name(),
            final(self).shown_pane() == old(self).shown_pane(),
            final(self).compact_items() == old(self).compact_items(),
            final(self).attached() == old(self).attached(),
            final(self).captured_menu() == old(self).captured_menu(),
            final(self).captured_callback() == old(self).captured_callback(),
    {
        self.menu_items.push(menu_item);
    }

    /// Set the click callback. The callback itself lives with the
    /// widget layer; the model records that one is in place. A
    /// listener already installed keeps the callback it captured.
    pub fn set_callback(&mut self)
        ensures
            final(self).callback_set(),
            final(self).page_title_text() == old(self).page_title_text(),
            final(self).menu() == old(self).menu(),
            final(self).built_menu() == old(self).built_menu(),
            final(self).toggle_icon_name() == old(self).toggle_icon_name(),
            final(self).shown_pane() == old(self).shown_pane(),
            final(self).compact_items() == old(self).compact_items(),
            final(self).attached() == old(self).attached(),
            final(self).captured_menu() == old(self).captured_menu(),
            final(self).captured_callback() == old(self).captured_callback(),
    {
        self.has_callback = true;
    }

    /// Rebuild the menu: one button per item, each bound to a copy of
    /// its item taken now — but none at all while no callback is set.
    pub fn build_menu(&mut self)
        ensures
            final(self).built_menu() == spec_menu_buttons(
                old(self).callback_set(),
                old(self).menu(),
            ),
            final(self).page_title_text() == old(self).page_title_text(),
            final(self).menu() == old(self).menu(),
            final(self).callback_set() == old(self).callback_set(),
            final(self).toggle_icon_name() == old(self).toggle_icon_name(),
            final(self).shown_pane() == old(self).shown_pane(),
            final(self).compact_items() == old(self).compact_items(),
            final(self).attached() == old(self).attached(),
            final(self).captured_menu() == old(self).captured_menu(),
            final(self).captured_callback() == old(self).captured_callback(),
    {
        if self.has_callback {
            self.menu_buttons = clone_menu_items(&self.menu_items);
        } else {
            self.menu_buttons = Vec::new();
        }
    }

    /// How many menu items the sidebar holds.
    pub fn menu_len(&self) -> (r: usize)
        ensures
            r == self.menu().len(),
    {
        self.menu_items.len()
    }

    /// How many buttons the built menu holds.
    pub fn built_button_count(&self) -> (r: usize)
        ensures
            r == self.built_menu().len(),
    {
        self.menu_buttons.len()
    }

    /// The item the built menu's button at `i` dispatches to the
    /// callback.
    pub fn menu_item_at(&self, i: usize) -> (r: &MenuItem)
        requires
            i < self.built_menu().len(),
        ensures
            r@ == self.built_menu()[i as int],
    {
        &self.menu_buttons[i]
    }

    /// How many buttons the compact toolbar holds.
    pub fn compact_toolbar_count(&self) -> (r: usize)
        ensures
            r == self.compact_items().len(),
    {
        self.compact_buttons.len()
    }

    /// The item the compact toolbar's button at `i` shows and
    /// dispatches.
    pub fn compact_item_at(&self, i: usize) -> (r: &MenuItem)
        requires
            i < self.compact_items().len(),
        ensures
            r@ == self.compact_items()[i as int],
    {
        &self.compact_buttons[i]
    }

    /// Title of the sidebar page.
    pub fn page_title(&self) -> (r: &String)
        ensures
            r@ == self.page_title_text(),
    {
        &self.page_title
    }

    /// Icon currently on the toggle button.
    pub fn toggle_icon(&self) -> (r: &String)
        ensures
            r@ == self.toggle_icon_name(),
    {
        &self.toggle_icon
    }

    /// A click on the toggle button: flip the attached split view's
    /// collapsed state.
    pub fn toggle_clicked(&self, split_view: &mut SplitView)
        requires
            self.attached(),
        ensures
            final(split_view).collapsed == !old(split_view).collapsed,
            final(split_view).min_sidebar_width == old(split_view).min_sidebar_width,
            final(split_view).max_sidebar_width == old(split_view).max_sidebar_width,
    {
        split_view.toggle();
    }

    /// React to the split view's collapsed state changing: swap the
    /// toggle icon, and show the compact toolbar while collapsed — one
    /// button per menu item the listener captured, and only if it
    /// captured a callback — or the full sidebar while expanded.
    pub fn on_collapsed_changed(&mut self, collapsed: bool)
        requires
            old(self).attached(),
        ensures
            final(self).toggle_icon_name() == if collapsed {
                spec_show_sidebar_icon()
            } else {
                spec_hide_sidebar_icon()
            },
            final(self).shown_pane() == if collapsed {
                SidebarPane::Compact
            } else {
                SidebarPane::Full
            },
            final(self).compact_items() =~= if collapsed {
                spec_menu_buttons(old(self).captured_callback(), old(self).captured_menu())
            } else {
                Seq::<MenuItemModel>::empty()
            },
            final(self).page_title_text() == old(self).page_title_text(),
            final(self).menu() == old(self).menu(),
            final(self).callback_set() == old(self).callback_set(),
            final(self).built_menu() == old(self).built_menu(),
            final(self).attached() == old(self).attached(),
            final(self).captured_menu() == old(self).captured_menu(),
            final(self).captured_callback() == old(self).captured_callback(),
    {
        if collapsed {
            self.toggle_icon = String::from_str("sidebar-show-right-symbolic");
            self.pane = SidebarPane::Compact;
            let buttons = match &self.listener {
                Some(state) => {
                    if state.has_callback {
                        clone_menu_items(&state.menu_items)
                    } else {
                        Vec::new()
                    }
                },
                None => Vec::new(),
            };
            self.compact_buttons = buttons;
        } else {
            self.toggle_icon = String::from_str("sidebar-hide-right-symbolic");
            self.pane = SidebarPane::Full;
            self.compact_buttons = Vec::new();
        }
    }
}

} // verus!
