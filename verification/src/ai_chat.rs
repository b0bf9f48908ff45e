//! The AI chat page: a read-only history above an input line with a
//! send button.

use vstd::prelude::*;

verus! {

/// The AI chat page's fixed contents.
pub struct AIChat {
    title: String,
    input_placeholder: String,
    send_button_label: String,
}

impl AIChat {
    /// The page's title.
    pub closed spec fn title_text(&self) -> Seq<char> {
        self.title@
    }

    /// Placeholder text of the input line.
    pub closed spec fn placeholder_text(&self) -> Seq<char> {
        self.input_placeholder@
    }

    /// Label of the send button.
    pub closed spec fn send_button_text(&self) -> Seq<char> {
        self.send_button_label@
    }

    /// The page's title.
    pub fn title(&self) -> (r: &String)
        ensures
            r@ == self.title_text(),
    {
        &self.title
    }

    /// Placeholder text of the input line.
    pub fn placeholder(&self) -> (r: &String)
        ensures
            r@ == self.placeholder_text(),
    {
        &self.input_placeholder
    }

    /// Label of the send button.
    pub fn send_button_label(&self) -> (r: &String)
        ensures
            r@ == self.send_button_text(),
    {
        &self.send_button_label
    }

    /// The chat page with its fixed texts.
    pub fn new() -> (r: AIChat)
        ensures
            r.title_text() == "AI Chat"@,
            r.placeholder_text() == "输入消息..."@,
            r.send_button_text() == "发送"@,
    {
        AIChat {
            title: String::from_str("AI Chat"),
            input_placeholder: String::from_str("输入消息..."),
            send_button_label: String::from_str("发送"),
        }
    }
}

} // verus!
