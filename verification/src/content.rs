//! The main content area: a header with a sidebar toggle, and a box
//! that shows exactly one page at a time.
//!
//! The area starts on the welcome page and owns its own collapsible
//! split view, collapsed by default, with the same width breakpoint as
//! the main window: at or under the threshold the sidebar is forced
//! collapsed. Switching pages clears the box and appends the requested
//! page, so the current page is always a single value.

use vstd::prelude::*;

use crate::window::{effective_collapsed, SplitView, SIDEBAR_BREAKPOINT_PX};

verus! {

/// The page the content box currently shows.
#[derive(Debug, Clone, Copy, PartialEq, Eq, Structural)]
pub enum ContentPage {
    /// The welcome page.
    Welcome,
    /// The AI chat page.
    AIChat,
    /// The screenshot page.
    ScreenShot,
}

/// Icon on the content header's sidebar toggle button.
pub open spec fn spec_sidebar_toggle_icon() -> Seq<char> {
    "sidebar-show-symbolic"@
}

/// Smallest and largest width of the content area's own sidebar, in
/// pixels.
pub const CONTENT_SIDEBAR_WIDTH_PX: u32 = 300;

/// The main content area's state: the shown page, its split view, and
/// the toggle button's icon.
pub struct MainContent {
    page: ContentPage,
    split_view: SplitView,
    breakpoint_px: Option<u32>,
    toggle_icon: String,
    toggle_wired: bool,
}

impl MainContent {
    /// The page currently shown.
    pub closed spec fn current_page(&self) -> ContentPage {
        self.page
    }

    /// The content area's own split view.
    pub closed spec fn split(&self) -> SplitView {
        self.split_view
    }

    /// The width breakpoint installed on the content area, if any.
    pub closed spec fn breakpoint(&self) -> Option<u32> {
        self.breakpoint_px
    }

    /// Icon on the sidebar toggle button.
    pub closed spec fn toggle_icon_name(&self) -> Seq<char> {
        self.toggle_icon@
    }

    /// Whether the toggle button's click handler is wired to the split
    /// view.
    pub closed spec fn toggle_wired(&self) -> bool {
        self.toggle_wired
    }

    /// A content area showing the welcome page, its sidebar collapsed
    /// and the width breakpoint installed.
    pub fn new() -> (r: MainContent)
        ensures
            r.current_page() == ContentPage::Welcome,
            r.split().collapsed,
            r.split().min_sidebar_width == CONTENT_SIDEBAR_WIDTH_PX,
            r.split().max_sidebar_width == CONTENT_SIDEBAR_WIDTH_PX,
            r.breakpoint() == Some(SIDEBAR_BREAKPOINT_PX),
            r.toggle_icon_name() == spec_sidebar_toggle_icon(),
            !r.toggle_wired(),
    {
        MainContent {
            page: ContentPage::Welcome,
            split_view: SplitView::new(
                true,
                CONTENT_SIDEBAR_WIDTH_PX,
                CONTENT_SIDEBAR_WIDTH_PX,
            ),
            breakpoint_px: Some(SIDEBAR_BREAKPOINT_PX),
            toggle_icon: String::from_str("sidebar-show-symbolic"),
            toggle_wired: false,
        }
    }

    /// The width breakpoint installed on the content area, if any.
    pub fn breakpoint_bin(&self) -> (r: Option<u32>)
        ensures
            r == self.breakpoint(),
    {
        self.breakpoint_px
    }

    /// The collapsed state the content area's sidebar shows at the
    /// given window width: forced collapsed at or under the
    /// breakpoint, otherwise as it was left.
    pub fn shown_collapsed(&self, width: u32) -> (r: bool)
        ensures
            r == (width <= SIDEBAR_BREAKPOINT_PX || self.split().collapsed),
    {
        effective_collapsed(self.split_view.collapsed, width)
    }

    /// Wire the sidebar toggle button to the split view.
    pub fn setup_sidebar_toggle(&mut self)
        ensures
            final(self).toggle_wired(),
            final(self).current_page() == old(self).current_page(),
            final(self).split() == old(self).split(),
            final(self).breakpoint() == old(self).breakpoint(),
            final(self).toggle_icon_name() == old(self).toggle_icon_name(),
    {
        self.toggle_wired = true;
    }

    /// A click on the sidebar toggle button: flip the split view's
    /// collapsed state. The button keeps the same icon either way.
    pub fn sidebar_toggle_clicked(&mut self)
        requires
            old(self).toggle_wired(),
        ensures
            final(self).split().collapsed == !old(self).split().collapsed,
            final(self).split().min_sidebar_width == old(self).split().min_sidebar_width,
            final(self).split().max_sidebar_width == old(self).split().max_sidebar_width,
            final(self).breakpoint() == old(self).breakpoint(),
            final(self).toggle_icon_name() == spec_sidebar_toggle_icon(),
            final(self).current_page() == old(self).current_page(),
            final(self).toggle_wired() == old(self).toggle_wired(),
    {
        self.split_view.toggle();
        self.toggle_icon = String::from_str("sidebar-show-symbolic");
    }

    /// Show the AI chat page.
    pub fn show_ai_chat(&mut self)
        ensures
            final(self).current_page() == ContentPage::AIChat,
            final(self).split() == old(self).split(),
            final(self).breakpoint() == old(self).breakpoint(),
            final(self).toggle_icon_name() == old(self).toggle_icon_name(),
            final(self).toggle_wired() == old(self).toggle_wired(),
    {
        self.page = ContentPage::AIChat;
    }

    /// Show the welcome page.
    pub fn show_welcome(&mut self)
        ensures
            final(self).current_page() == ContentPage::Welcome,
            final(self).split() == old(self).split(),
            final(self).breakpoint() == old(self).breakpoint(),
            final(self).toggle_icon_name() == old(self).toggle_icon_name(),
            final(self).toggle_wired() == old(self).toggle_wired(),
    {
        self.page = ContentPage::Welcome;
    }

    /// Show the screenshot page.
    pub fn show_screen_shot(&mut self)
        ensures
            final(self).current_page() == ContentPage::ScreenShot,
            final(self).split() == old(self).split(),
            final(self).breakpoint() == old(self).breakpoint(),
            final(self).toggle_icon_name() == old(self).toggle_icon_name(),
            final(self).toggle_wired() == old(self).toggle_wired(),
    {
        self.page = ContentPage::ScreenShot;
    }

    /// The page currently shown.
    pub fn shown_page(&self) -> (r: ContentPage)
        ensures
            r == self.current_page(),
    {
        self.page
    }

    /// Icon currently on the sidebar toggle button.
    pub fn toggle_icon(&self) -> (r: &String)
        ensures
            r@ == self.toggle_icon_name(),
    {
        &self.toggle_icon
    }

    /// Whether the content area's sidebar is collapsed.
    pub fn sidebar_collapsed(&self) -> (r: bool)
        ensures
            r == self.split().collapsed,
    {
        self.split_view.collapsed
    }
}

} // verus!
