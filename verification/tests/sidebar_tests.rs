use qtools::sidebar::{MainSidebar, MenuItem, SidebarPane};
use qtools::window::SplitView;

#[test]
fn menu_item_keeps_its_fields() {
    let item = MenuItem::new("files", "文件", "folder-symbolic");
    assert_eq!(item.id.as_str(), "files");
    assert_eq!(item.label.as_str(), "文件");
    assert_eq!(item.icon.as_str(), "folder-symbolic");
}

#[test]
fn new_sidebar_is_empty_and_expanded() {
    let sidebar = MainSidebar::new();
    assert_eq!(sidebar.page_title().as_str(), "侧边栏");
    assert_eq!(sidebar.menu_len(), 0);
    assert_eq!(sidebar.built_button_count(), 0);
    assert_eq!(sidebar.compact_toolbar_count(), 0);
    assert_eq!(sidebar.toggle_icon().as_str(), "sidebar-show-right-symbolic");
    assert_eq!(sidebar.get_sidebar_container(), SidebarPane::Full);
}

#[test]
fn build_menu_without_callback_builds_nothing() {
    let mut sidebar = MainSidebar::new();
    sidebar.add_menu_item(MenuItem::new("a", "A", "a-icon"));
    sidebar.add_menu_item(MenuItem::new("b", "B", "b-icon"));
    sidebar.build_menu();
    assert_eq!(sidebar.built_button_count(), 0);
}

#[test]
fn build_menu_with_callback_builds_one_button_per_item() {
    let mut sidebar = MainSidebar::new();
    sidebar.add_menu_item(MenuItem::new("a", "A", "a-icon"));
    sidebar.add_menu_item(MenuItem::new("b", "B", "b-icon"));
    sidebar.add_menu_item(MenuItem::new("c", "C", "c-icon"));
    sidebar.set_callback();
    sidebar.build_menu();
    assert_eq!(sidebar.built_button_count(), 3);
}

#[test]
fn menu_buttons_dispatch_the_item_bound_at_build_time() {
    let mut sidebar = MainSidebar::new();
    sidebar.add_menu_item(MenuItem::new("a", "A", "a-icon"));
    sidebar.add_menu_item(MenuItem::new("b", "B", "b-icon"));
    sidebar.set_callback();
    sidebar.build_menu();
    assert_eq!(sidebar.menu_item_at(0).id.as_str(), "a");
    assert_eq!(sidebar.menu_item_at(1).id.as_str(), "b");
    assert_eq!(sidebar.menu_item_at(1).label.as_str(), "B");

    // An item added after the menu was built gets no button until the
    // menu is rebuilt.
    sidebar.add_menu_item(MenuItem::new("c", "C", "c-icon"));
    assert_eq!(sidebar.built_button_count(), 2);
    sidebar.build_menu();
    assert_eq!(sidebar.built_button_count(), 3);
    assert_eq!(sidebar.menu_item_at(2).id.as_str(), "c");
}

#[test]
fn toggle_button_flips_the_split_view() {
    let mut sidebar = MainSidebar::new();
    sidebar.set_split_view();
    let mut split_view = SplitView::new(false, 200, 300);
    sidebar.toggle_clicked(&mut split_view);
    assert!(split_view.collapsed);
    sidebar.toggle_clicked(&mut split_view);
    assert!(!split_view.collapsed);
}

#[test]
fn collapsing_shows_the_compact_toolbar() {
    let mut sidebar = MainSidebar::new();
    sidebar.add_menu_item(MenuItem::new("a", "A", "a-icon"));
    sidebar.add_menu_item(MenuItem::new("b", "B", "b-icon"));
    sidebar.set_callback();
    sidebar.set_split_view();

    sidebar.on_collapsed_changed(true);
    assert_eq!(sidebar.toggle_icon().as_str(), "sidebar-show-right-symbolic");
    assert_eq!(sidebar.get_sidebar_container(), SidebarPane::Compact);
    assert_eq!(sidebar.compact_toolbar_count(), 2);
    assert_eq!(sidebar.compact_item_at(0).icon.as_str(), "a-icon");
    assert_eq!(sidebar.compact_item_at(1).icon.as_str(), "b-icon");

    sidebar.on_collapsed_changed(false);
    assert_eq!(sidebar.toggle_icon().as_str(), "sidebar-hide-right-symbolic");
    assert_eq!(sidebar.get_sidebar_container(), SidebarPane::Full);
    assert_eq!(sidebar.compact_toolbar_count(), 0);
}

#[test]
fn collapsing_without_callback_shows_no_compact_buttons() {
    let mut sidebar = MainSidebar::new();
    sidebar.add_menu_item(MenuItem::new("a", "A", "a-icon"));
    sidebar.set_split_view();
    sidebar.on_collapsed_changed(true);
    assert_eq!(sidebar.get_sidebar_container(), SidebarPane::Compact);
    assert_eq!(sidebar.compact_toolbar_count(), 0);
}

#[test]
fn listener_keeps_what_it_captured_at_attach_time() {
    // The callback set and the item added after the split view was
    // attached never reach the collapsed-mode toolbar: the listener
    // holds the menu and callback as they stood when it was installed.
    let mut sidebar = MainSidebar::new();
    sidebar.add_menu_item(MenuItem::new("a", "A", "a-icon"));
    sidebar.set_split_view();
    sidebar.set_callback();
    sidebar.add_menu_item(MenuItem::new("b", "B", "b-icon"));

    sidebar.on_collapsed_changed(true);
    assert_eq!(sidebar.get_sidebar_container(), SidebarPane::Compact);
    assert_eq!(sidebar.compact_toolbar_count(), 0);
}

#[test]
fn later_items_stay_out_of_the_compact_toolbar() {
    let mut sidebar = MainSidebar::new();
    sidebar.set_callback();
    sidebar.add_menu_item(MenuItem::new("a", "A", "a-icon"));
    sidebar.set_split_view();
    sidebar.add_menu_item(MenuItem::new("b", "B", "b-icon"));

    sidebar.on_collapsed_changed(true);
    assert_eq!(sidebar.compact_toolbar_count(), 1);
    assert_eq!(sidebar.compact_item_at(0).id.as_str(), "a");
}
