use qtools::about::{AppAboutDialog, License};
use qtools::ai_chat::AIChat;
use qtools::entity_list::{create_list_item, row_text, EntityList};
use qtools::menu::AppMenu;
use qtools::screen_shot::ScreenShot;
use qtools::text::decimal_string;
use qtools::tutorial::TutorialDialog;
use qtools::welcome::{bullet_label, WelcomePage};

#[test]
fn decimal_rendering_is_exact() {
    assert_eq!(decimal_string(0).as_str(), "0");
    assert_eq!(decimal_string(7).as_str(), "7");
    assert_eq!(decimal_string(10).as_str(), "10");
    assert_eq!(decimal_string(80).as_str(), "80");
    assert_eq!(decimal_string(12345).as_str(), "12345");
    assert_eq!(
        decimal_string(u64::MAX).as_str(),
        "18446744073709551615"
    );
}

#[test]
fn rows_are_numbered_from_one() {
    assert_eq!(row_text(1).as_str(), "列表项 1");
    assert_eq!(row_text(80).as_str(), "列表项 80");
}

#[test]
fn list_items_carry_text_and_action_button() {
    let item = create_list_item("列表项 3");
    assert_eq!(item.text.as_str(), "列表项 3");
    assert_eq!(item.button_label.as_str(), "操作");
}

#[test]
fn entity_list_holds_eighty_numbered_rows() {
    let list = EntityList::new();
    assert_eq!(list.title().as_str(), "Entity List");
    assert_eq!(list.len(), 80);
    assert_eq!(list.row_at(0).text.as_str(), "列表项 1");
    assert_eq!(list.row_at(9).text.as_str(), "列表项 10");
    assert_eq!(list.row_at(79).text.as_str(), "列表项 80");
    for i in 0..list.len() {
        assert_eq!(list.row_at(i).button_label.as_str(), "操作");
    }
}

#[test]
fn welcome_page_contents() {
    let page = WelcomePage::new();
    assert_eq!(
        page.banner_title().as_str(),
        "欢迎使用 QTools! 这是一个功能强大的工具集"
    );
    assert_eq!(page.title().as_str(), "欢迎使用 QTools");
    assert_eq!(page.description().as_str(), "一个基于 Rust 和 GTK 的实用工具集");
    assert_eq!(page.start_button_label().as_str(), "开始使用");

    let features: Vec<&str> = page.features().iter().map(|s| s.as_str()).collect();
    assert_eq!(
        features,
        vec!["AI聊天助手", "文件处理工具", "系统信息查看", "实用小工具集合"]
    );

    let pages = page.carousel_pages();
    assert_eq!(pages.len(), 3);
    assert_eq!(pages[0].title.as_str(), "AI聊天助手");
    assert_eq!(
        pages[0].description.as_str(),
        "与AI进行智能对话，获取您需要的信息和帮助"
    );
    assert_eq!(pages[1].title.as_str(), "文件处理工具");
    assert_eq!(pages[2].title.as_str(), "系统信息查看");
}

#[test]
fn feature_lines_get_a_bullet() {
    assert_eq!(bullet_label("AI聊天助手").as_str(), "• AI聊天助手");
    let page = WelcomePage::new();
    assert_eq!(page.feature_label_at(3).as_str(), "• 实用小工具集合");
}

#[test]
fn tutorial_opens_and_the_start_button_closes_it() {
    let mut dialog = TutorialDialog::new();
    assert!(dialog.open());
    assert_eq!(dialog.title().as_str(), "QTools 工具集");
    assert_eq!(
        dialog.description().as_str(),
        "一个基于 Rust 和 GTK 的实用工具集，为您提供各种实用功能"
    );
    assert_eq!(dialog.features().len(), 4);
    assert_eq!(dialog.start_button_label().as_str(), "开始使用");
    dialog.start_clicked();
    assert!(!dialog.open());
}

#[test]
fn ai_chat_fixed_texts() {
    let chat = AIChat::new();
    assert_eq!(chat.title().as_str(), "AI Chat");
    assert_eq!(chat.placeholder().as_str(), "输入消息...");
    assert_eq!(chat.send_button_label().as_str(), "发送");
}

#[test]
fn chart_geometry() {
    let page = ScreenShot::new();
    assert_eq!(page.width(), 600);
    assert_eq!(page.height(), 400);
    assert_eq!(page.buffer_len(), 960_000);
    assert_eq!(page.stride(), 2_400);
}

#[test]
fn menu_sections_bind_labels_to_actions() {
    let menu = AppMenu::new();
    let file: Vec<(&str, &str)> = menu
        .file_section()
        .iter()
        .map(|e| (e.label.as_str(), e.action.as_str()))
        .collect();
    assert_eq!(
        file,
        vec![("新建", "win.new"), ("打开", "win.open"), ("保存", "win.save")]
    );

    let edit: Vec<(&str, &str)> = menu
        .edit_section()
        .iter()
        .map(|e| (e.label.as_str(), e.action.as_str()))
        .collect();
    assert_eq!(edit, vec![("首选项", "win.preferences")]);

    let help: Vec<(&str, &str)> = menu
        .help_section()
        .iter()
        .map(|e| (e.label.as_str(), e.action.as_str()))
        .collect();
    assert_eq!(help, vec![("关于", "app.about"), ("退出", "app.quit")]);

    assert_eq!(menu.menu_button().as_str(), "open-menu-symbolic");
}

#[test]
fn about_dialog_metadata() {
    let info = AppAboutDialog::info();
    assert_eq!(info.application_name.as_str(), "QTools");
    assert_eq!(info.application_icon.as_str(), "applications-development");
    assert_eq!(info.developer_name.as_str(), "Qinhuajun");
    assert_eq!(info.version.as_str(), "0.1.0");
    assert_eq!(info.comments.as_str(), "一个基于 Rust 和 GTK 的实用工具集");
    assert_eq!(info.website.as_str(), "https://github.com/qinhuajun/qtools");
    assert_eq!(
        info.issue_url.as_str(),
        "https://github.com/qinhuajun/qtools/issues"
    );
    assert_eq!(info.copyright.as_str(), "© 2025 Qinhuajun");
    assert_eq!(info.license, License::MitX11);
    let developers: Vec<&str> = info.developers.iter().map(|d| d.as_str()).collect();
    assert_eq!(developers, vec!["Qinhuajun https://github.com/qinhuajun"]);
}
