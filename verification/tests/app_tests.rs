use qtools::app::{confirm_quit_response, quit_dialog_info, QtoolsApplication, QuitStep};

#[test]
fn application_keeps_its_id() {
    let app = QtoolsApplication::new("top.qinhuajun.app");
    assert_eq!(app.application_id().as_str(), "top.qinhuajun.app");
    assert!(app.actions().is_empty());
    assert!(app.accels().is_empty());
}

#[test]
fn app_actions_and_accels_are_registered() {
    let mut app = QtoolsApplication::new("top.qinhuajun.app");
    app.setup_actions();
    let names: Vec<&str> = app.actions().iter().map(|s| s.as_str()).collect();
    assert_eq!(names, vec!["quit", "about"]);
    assert_eq!(app.accels().len(), 1);
    assert_eq!(app.accels()[0].action.as_str(), "app.quit");
    assert_eq!(app.accels()[0].accelerator.as_str(), "<Ctrl>q");
}

#[test]
fn quit_confirms_only_while_a_window_is_open() {
    let app = QtoolsApplication::new("top.qinhuajun.app");
    assert_eq!(app.quit_step(true), QuitStep::ConfirmDialog);
    assert_eq!(app.quit_step(false), QuitStep::QuitNow);
}

#[test]
fn quit_dialog_contents() {
    let dialog = quit_dialog_info();
    assert_eq!(dialog.heading.as_str(), "确认退出");
    assert_eq!(dialog.body.as_str(), "确定要退出应用吗？");
    let responses: Vec<(&str, &str)> = dialog
        .responses
        .iter()
        .map(|r| (r.id.as_str(), r.label.as_str()))
        .collect();
    assert_eq!(responses, vec![("cancel", "取消"), ("quit", "退出")]);
    assert_eq!(dialog.default_response.as_str(), "cancel");
    assert_eq!(dialog.destructive_response.as_str(), "quit");
    // The destructive response is exactly the one that confirms.
    assert!(confirm_quit_response(dialog.destructive_response.as_str()));
    assert!(!confirm_quit_response(dialog.default_response.as_str()));
}

#[test]
fn only_the_quit_response_confirms() {
    assert!(confirm_quit_response("quit"));
    assert!(!confirm_quit_response("cancel"));
    assert!(!confirm_quit_response(""));
    assert!(!confirm_quit_response("Quit"));
}
