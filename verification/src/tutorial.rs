//! The tutorial dialog shown at startup: a fixed introduction that the
//! start button closes.

use vstd::prelude::*;

verus! {

/// Width of the dialog's content, in pixels.
pub const TUTORIAL_CONTENT_WIDTH: u32 = 600;

/// Height of the dialog's content, in pixels.
pub const TUTORIAL_CONTENT_HEIGHT: u32 = 500;

/// The feature lines the dialog lists.
pub open spec fn spec_tutorial_features() -> Seq<Seq<char>> {
    seq![
        "🤖 AI聊天助手 - 与人工智能进行智能对话"@,
        "📁 文件处理 - 强大的文件处理和批量操作功能"@,
        "🖥️ 系统信息 - 全面的系统信息查看和监控"@,
        "🔧 实用工具 - 各种日常使用的便捷小工具"@,
    ]
}

/// The tutorial dialog's contents and whether it is still open.
pub struct TutorialDialog {
    title: String,
    description: String,
    features: Vec<String>,
    start_button_label: String,
    open_state: bool,
}

impl TutorialDialog {
    /// The dialog's headline.
    pub closed spec fn title_text(&self) -> Seq<char> {
        self.title@
    }

    /// The line under the headline.
    pub closed spec fn description_text(&self) -> Seq<char> {
        self.description@
    }

    /// The feature lines, in order.
    pub closed spec fn feature_texts(&self) -> Seq<Seq<char>> {
        self.features@.map_values(|s: String| s@)
    }

    /// Label of the start button.
    pub closed spec fn start_button_text(&self) -> Seq<char> {
        self.start_button_label@
    }

    /// Whether the dialog is open.
    pub closed spec fn is_open(&self) -> bool {
        self.open_state
    }

    /// The dialog, open, with its fixed contents.
    pub fn new() -> (r: TutorialDialog)
        ensures
            r.title_text() == "QTools 工具集"@,
            r.description_text() == "一个基于 Rust 和 GTK 的实用工具集，为您提供各种实用功能"@,
            r.feature_texts() == spec_tutorial_features(),
            r.start_button_text() == "开始使用"@,
            r.is_open(),
    {
        let mut features: Vec<String> = Vec::new();
        features.push(String::from_str("🤖 AI聊天助手 - 与人工智能进行智能对话"));
        features.push(String::from_str("📁 文件处理 - 强大的文件处理和批量操作功能"));
        features.push(String::from_str("🖥️ 系统信息 - 全面的系统信息查看和监控"));
        features.push(String::from_str("🔧 实用工具 - 各种日常使用的便捷小工具"));
        let r = TutorialDialog {
            title: String::from_str("QTools 工具集"),
            description: String::from_str("一个基于 Rust 和 GTK 的实用工具集，为您提供各种实用功能"),
            features,
            start_button_label: String::from_str("开始使用"),
            open_state: true,
        };
        proof {
            assert(r.feature_texts() =~= spec_tutorial_features());
        }
        r
    }

    /// The dialog's headline.
    pub fn title(&self) -> (r: &String)
        ensures
            r@ == self.title_text(),
    {
        &self.title
    }

    /// The line under the headline.
    pub fn description(&self) -> (r: &String)
        ensures
            r@ == self.description_text(),
    {
        &self.description
    }

    /// The feature lines, in order.
    pub fn features(&self) -> (r: &Vec<String>)
        ensures
            r@.map_values(|s: String| s@) == self.feature_texts(),
    {
        &self.features
    }

    /// Label of the start button.
    pub fn start_button_label(&self) -> (r: &String)
        ensures
            r@ == self.start_button_text(),
    {
        &self.start_button_label
    }

    /// Whether the dialog is open.
    pub fn open(&self) -> (r: bool)
        ensures
            r == self.is_open(),
    {
        self.open_state
    }

    /// A click on the start button closes the dialog.
    pub fn start_clicked(&mut self)
        ensures
            !final(self).is_open(),
            final(self).title_text() == old(self).title_text(),
            final(self).description_text() == old(self).description_text(),
            final(self).feature_texts() == old(self).feature_texts(),
            final(self).start_button_text() == old(self).start_button_text(),
    {
        self.open_state = false;
    }
}

} // verus!
