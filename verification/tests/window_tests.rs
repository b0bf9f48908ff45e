use qtools::app::QtoolsApplication;
use qtools::window::{
    breakpoint_applies, effective_collapsed, new_file_dialog, open_file_dialog, preferences_info,
    MainWindow, SplitView, SIDEBAR_BREAKPOINT_PX,
};

fn new_window() -> MainWindow {
    MainWindow::new(&QtoolsApplication::new("top.qinhuajun.app"))
}

#[test]
fn breakpoint_holds_at_and_under_the_threshold() {
    assert_eq!(SIDEBAR_BREAKPOINT_PX, 768);
    assert!(breakpoint_applies(0));
    assert!(breakpoint_applies(768));
    assert!(!breakpoint_applies(769));
    assert!(!breakpoint_applies(1024));
}

#[test]
fn narrow_widths_force_the_sidebar_collapsed() {
    assert!(effective_collapsed(false, 768));
    assert!(effective_collapsed(true, 768));
    assert!(!effective_collapsed(false, 769));
    assert!(effective_collapsed(true, 769));
    assert!(!effective_collapsed(false, 1024));
}

#[test]
fn split_view_toggles_back_and_forth() {
    let mut split_view = SplitView::new(false, 200, 300);
    assert!(!split_view.collapsed);
    assert_eq!(split_view.min_sidebar_width, 200);
    assert_eq!(split_view.max_sidebar_width, 300);
    split_view.toggle();
    assert!(split_view.collapsed);
    split_view.toggle();
    assert!(!split_view.collapsed);
}

#[test]
fn new_window_has_its_defaults() {
    let window = new_window();
    assert_eq!(window.title().as_str(), "Qtools");
    assert_eq!(window.size(), (1024, 768));
    assert!(!window.sidebar_collapsed());
    assert!(window.actions().is_empty());
    assert!(window.accels().is_empty());
    assert_eq!(window.breakpoint_bin(), Some(768));
    assert_eq!(window.application_id().as_str(), "top.qinhuajun.app");
}

#[test]
fn window_actions_and_accels_are_registered() {
    let mut window = new_window();
    window.setup_actions();
    let names: Vec<&str> = window.actions().iter().map(|s| s.as_str()).collect();
    assert_eq!(names, vec!["new", "open", "save", "save-as", "preferences"]);
    let accels: Vec<(&str, &str)> = window
        .accels()
        .iter()
        .map(|a| (a.action.as_str(), a.accelerator.as_str()))
        .collect();
    assert_eq!(
        accels,
        vec![
            ("win.new", "<Ctrl>n"),
            ("win.open", "<Ctrl>o"),
            ("win.save", "<Ctrl>s"),
        ]
    );
}

#[test]
fn window_sidebar_toggle_flips_state() {
    let mut window = new_window();
    window.toggle_sidebar();
    assert!(window.sidebar_collapsed());
    window.toggle_sidebar();
    assert!(!window.sidebar_collapsed());
}

#[test]
fn shown_state_honours_breakpoint_and_user_choice() {
    let mut window = new_window();
    assert!(!window.shown_collapsed(1024));
    assert!(window.shown_collapsed(700));
    window.toggle_sidebar();
    assert!(window.shown_collapsed(1024));
    assert!(window.shown_collapsed(700));
}

#[test]
fn file_dialogs_filter_plain_text() {
    let new_dialog = new_file_dialog();
    assert_eq!(new_dialog.title.as_str(), "新建文件");
    assert!(new_dialog.modal);
    assert_eq!(new_dialog.filter_name.as_str(), "文本文件");
    assert_eq!(new_dialog.filter_mime.as_str(), "text/plain");

    let open_dialog = open_file_dialog();
    assert_eq!(open_dialog.title.as_str(), "打开文件");
    assert!(open_dialog.modal);
    assert_eq!(open_dialog.filter_mime.as_str(), "text/plain");
}

#[test]
fn preferences_dialog_contents() {
    let info = preferences_info();
    assert_eq!(info.title.as_str(), "首选项");
    assert_eq!(info.content_width, 600);
    assert_eq!(info.content_height, 500);
    assert_eq!(info.page_title.as_str(), "常规");
    assert_eq!(info.page_icon.as_str(), "preferences-system-symbolic");
    assert_eq!(info.group_title.as_str(), "常规设置");
    assert_eq!(info.row_title.as_str(), "示例设置");
    assert_eq!(info.row_subtitle.as_str(), "这是一个示例设置项");
    assert!(info.switch_active);
}
