use qtools::content::{ContentPage, MainContent};

#[test]
fn content_starts_on_the_welcome_page() {
    let content = MainContent::new();
    assert_eq!(content.shown_page(), ContentPage::Welcome);
    assert!(content.sidebar_collapsed());
    assert_eq!(content.toggle_icon().as_str(), "sidebar-show-symbolic");
    assert_eq!(content.breakpoint_bin(), Some(768));
}

#[test]
fn content_breakpoint_forces_collapse_at_narrow_widths() {
    let mut content = MainContent::new();
    content.setup_sidebar_toggle();
    content.sidebar_toggle_clicked();
    assert!(!content.sidebar_collapsed());
    assert!(!content.shown_collapsed(1024));
    assert!(content.shown_collapsed(768));
    assert!(content.shown_collapsed(700));
    content.sidebar_toggle_clicked();
    assert!(content.shown_collapsed(1024));
}

#[test]
fn page_switching_replaces_the_shown_page() {
    let mut content = MainContent::new();
    content.show_ai_chat();
    assert_eq!(content.shown_page(), ContentPage::AIChat);
    content.show_screen_shot();
    assert_eq!(content.shown_page(), ContentPage::ScreenShot);
    content.show_welcome();
    assert_eq!(content.shown_page(), ContentPage::Welcome);
}

#[test]
fn page_switching_leaves_the_sidebar_alone() {
    let mut content = MainContent::new();
    content.show_ai_chat();
    assert!(content.sidebar_collapsed());
    content.show_screen_shot();
    assert!(content.sidebar_collapsed());
}

#[test]
fn content_toggle_flips_sidebar_and_keeps_its_icon() {
    let mut content = MainContent::new();
    content.setup_sidebar_toggle();
    content.sidebar_toggle_clicked();
    assert!(!content.sidebar_collapsed());
    assert_eq!(content.toggle_icon().as_str(), "sidebar-show-symbolic");
    content.sidebar_toggle_clicked();
    assert!(content.sidebar_collapsed());
    assert_eq!(content.toggle_icon().as_str(), "sidebar-show-symbolic");
}
