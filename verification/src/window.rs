//! The main window: a split view whose sidebar collapses responsively.
//!
//! The window places a sidebar and a content area in an overlay split
//! view. A breakpoint watches the window width: at or below the
//! threshold the split view is forced collapsed; above it, the split
//! view returns to whatever state the user last chose.

use vstd::prelude::*;

use crate::app::QtoolsApplication;

verus! {

/// Window width, in pixels, at or below which the sidebar collapses.
pub const SIDEBAR_BREAKPOINT_PX: u32 = 768;

/// Default width of the main window, in pixels.
pub const DEFAULT_WINDOW_WIDTH: u32 = 1024;

/// Default height of the main window, in pixels.
pub const DEFAULT_WINDOW_HEIGHT: u32 = 768;

/// Smallest width of the main window's sidebar, in pixels.
pub const MIN_SIDEBAR_WIDTH_PX: u32 = 200;

/// Largest width of the main window's sidebar, in pixels.
pub const MAX_SIDEBAR_WIDTH_PX: u32 = 300;

/// The collapsible split view that holds the sidebar beside the content.
pub struct SplitView {
    /// Whether the sidebar pane is currently collapsed.
    pub collapsed: bool,
    /// Smallest width the sidebar pane may take, in pixels.
    pub min_sidebar_width: u32,
    /// Largest width the sidebar pane may take, in pixels.
    pub max_sidebar_width: u32,
}

impl SplitView {
    /// A split view that starts out expanded or collapsed as given,
    /// with the sidebar width clamped to the given range.
    pub fn new(collapsed: bool, min_sidebar_width: u32, max_sidebar_width: u32) -> (r: SplitView)
        ensures
            r.collapsed == collapsed,
            r.min_sidebar_width == min_sidebar_width,
            r.max_sidebar_width == max_sidebar_width,
    {
        SplitView { collapsed, min_sidebar_width, max_sidebar_width }
    }

    /// Flip the collapsed state; the toggle buttons in the header bars
    /// invoke this on each click.
    pub fn toggle(&mut self)
        ensures
            final(self).collapsed == !old(self).collapsed,
            final(self).min_sidebar_width == old(self).min_sidebar_width,
            final(self).max_sidebar_width == old(self).max_sidebar_width,
    {
        self.collapsed = !self.collapsed;
    }
}

/// Whether the responsive breakpoint applies at the given window width.
pub fn breakpoint_applies(width: u32) -> (r: bool)
    ensures
        r == (width <= SIDEBAR_BREAKPOINT_PX),
{
    width <= SIDEBAR_BREAKPOINT_PX
}

/// The collapsed state the split view shows at the given window width:
/// the breakpoint forces it collapsed at narrow widths, and otherwise
/// the state the user last chose stands.
pub fn effective_collapsed(user_collapsed: bool, width: u32) -> (r: bool)
    ensures
        r == (width <= SIDEBAR_BREAKPOINT_PX || user_collapsed),
{
    if breakpoint_applies(width) {
        true
    } else {
        user_collapsed
    }
}

/// A keyboard accelerator bound to a named action.
#[derive(Debug, Clone)]
pub struct Accel {
    /// Full action name, with its `win.` or `app.` prefix.
    pub action: String,
    /// The key combination, in accelerator notation.
    pub accelerator: String,
}

/// Mathematical image of an [`Accel`].
pub struct AccelModel {
    pub action: Seq<char>,
    pub accelerator: Seq<char>,
}

impl View for Accel {
    type V = AccelModel;

    open spec fn view(&self) -> AccelModel {
        AccelModel { action: self.action@, accelerator: self.accelerator@ }
    }
}

/// The images of a whole accelerator table.
pub open spec fn accels_view(v: Seq<Accel>) -> Seq<AccelModel> {
    v.map_values(|a: Accel| a@)
}

/// The names of the window-level actions, in registration order.
pub open spec fn spec_window_actions() -> Seq<Seq<char>> {
    seq!["new"@, "open"@, "save"@, "save-as"@, "preferences"@]
}

/// The window-level keyboard accelerators.
pub open spec fn spec_window_accels() -> Seq<AccelModel> {
    seq![
        AccelModel { action: "win.new"@, accelerator: "<Ctrl>n"@ },
        AccelModel { action: "win.open"@, accelerator: "<Ctrl>o"@ },
        AccelModel { action: "win.save"@, accelerator: "<Ctrl>s"@ },
    ]
}

/// Configuration of a file chooser dialog.
#[derive(Debug, Clone)]
pub struct FileDialogInfo {
    /// Title of the dialog.
    pub title: String,
    /// Whether the dialog is modal.
    pub modal: bool,
    /// Display name of the file filter.
    pub filter_name: String,
    /// MIME type the filter accepts.
    pub filter_mime: String,
}

/// Mathematical image of a [`FileDialogInfo`].
pub struct FileDialogInfoModel {
    pub title: Seq<char>,
    pub modal: bool,
    pub filter_name: Seq<char>,
    pub filter_mime: Seq<char>,
}

impl View for FileDialogInfo {
    type V = FileDialogInfoModel;

    open spec fn view(&self) -> FileDialogInfoModel {
        FileDialogInfoModel {
            title: self.title@,
            modal: self.modal,
            filter_name: self.filter_name@,
            filter_mime: self.filter_mime@,
        }
    }
}

/// The save dialog the "new" action opens: modal, filtered to plain
/// text files.
pub open spec fn spec_new_file_dialog() -> FileDialogInfoModel {
    FileDialogInfoModel {
        title: "新建文件"@,
        modal: true,
        filter_name: "文本文件"@,
        filter_mime: "text/plain"@,
    }
}

/// The open dialog the "open" action opens: modal, filtered to plain
/// text files.
pub open spec fn spec_open_file_dialog() -> FileDialogInfoModel {
    FileDialogInfoModel {
        title: "打开文件"@,
        modal: true,
        filter_name: "文本文件"@,
        filter_mime: "text/plain"@,
    }
}

/// Configuration of the save dialog the "new" action opens.
pub fn new_file_dialog() -> (r: FileDialogInfo)
    ensures
        r@ == spec_new_file_dialog(),
{
    FileDialogInfo {
        title: String::from_str("新建文件"),
        modal: true,
        filter_name: String::from_str("文本文件"),
        filter_mime: String::from_str("text/plain"),
    }
}

/// Configuration of the open dialog the "open" action opens.
pub fn open_file_dialog() -> (r: FileDialogInfo)
    ensures
        r@ == spec_open_file_dialog(),
{
    FileDialogInfo {
        title: String::from_str("打开文件"),
        modal: true,
        filter_name: String::from_str("文本文件"),
        filter_mime: String::from_str("text/plain"),
    }
}

/// Contents of the preferences dialog: one page with one group holding
/// one example switch row.
#[derive(Debug, Clone)]
pub struct PreferencesInfo {
    /// Title of the dialog.
    pub title: String,
    /// Width of the dialog's content, in pixels.
    pub content_width: u32,
    /// Height of the dialog's content, in pixels.
    pub content_height: u32,
    /// Title of the settings page.
    pub page_title: String,
    /// Icon of the settings page.
    pub page_icon: String,
    /// Title of the settings group.
    pub group_title: String,
    /// Title of the example row.
    pub row_title: String,
    /// Subtitle of the example row.
    pub row_subtitle: String,
    /// Whether the example switch starts on.
    pub switch_active: bool,
}

/// Mathematical image of a [`PreferencesInfo`].
pub struct PreferencesInfoModel {
    pub title: Seq<char>,
    pub content_width: u32,
    pub content_height: u32,
    pub page_title: Seq<char>,
    pub page_icon: Seq<char>,
    pub group_title: Seq<char>,
    pub row_title: Seq<char>,
    pub row_subtitle: Seq<char>,
    pub switch_active: bool,
}

impl View for PreferencesInfo {
    type V = PreferencesInfoModel;

    open spec fn view(&self) -> PreferencesInfoModel {
        PreferencesInfoModel {
            title: self.title@,
            content_width: self.content_width,
            content_height: self.content_height,
            page_title: self.page_title@,
            page_icon: self.page_icon@,
            group_title: self.group_title@,
            row_title: self.row_title@,
            row_subtitle: self.row_subtitle@,
            switch_active: self.switch_active,
        }
    }
}

/// The preferences dialog the "preferences" action presents.
pub open spec fn spec_preferences() -> PreferencesInfoModel {
    PreferencesInfoModel {
        title: "首选项"@,
        content_width: 600,
        content_height: 500,
        page_title: "常规"@,
        page_icon: "preferences-system-symbolic"@,
        group_title: "常规设置"@,
        row_title: "示例设置"@,
        row_subtitle: "这是一个示例设置项"@,
        switch_active: true,
    }
}

/// Contents of the preferences dialog.
pub fn preferences_info() -> (r: PreferencesInfo)
    ensures
        r@ == spec_preferences(),
{
    PreferencesInfo {
        title: String::from_str("首选项"),
        content_width: 600,
        content_height: 500,
        page_title: String::from_str("常规"),
        page_icon: String::from_str("preferences-system-symbolic"),
        group_title: String::from_str("常规设置"),
        row_title: String::from_str("示例设置"),
        row_subtitle: String::from_str("这是一个示例设置项"),
        switch_active: true,
    }
}

/// The main window: its title, default size, split view, and the
/// actions registered on it.
pub struct MainWindow {
    title: String,
    application_id: String,
    default_width: u32,
    default_height: u32,
    split_view: SplitView,
    breakpoint_px: Option<u32>,
    actions: Vec<String>,
    accels: Vec<Accel>,
}

impl MainWindow {
    /// The window's title.
    pub closed spec fn title_text(&self) -> Seq<char> {
        self.title@
    }

    /// Identifier of the application the window belongs to.
    pub closed spec fn app_id(&self) -> Seq<char> {
        self.application_id@
    }

    /// The width breakpoint installed on the window, if any.
    pub closed spec fn breakpoint(&self) -> Option<u32> {
        self.breakpoint_px
    }

    /// The window's default size, width by height, in pixels.
    pub closed spec fn default_size(&self) -> (u32, u32) {
        (self.default_width, self.default_height)
    }

    /// The window's split view.
    pub closed spec fn split(&self) -> SplitView {
        self.split_view
    }

    /// The names of the actions registered on the window.
    pub closed spec fn action_names(&self) -> Seq<Seq<char>> {
        self.actions@.map_values(|s: String| s@)
    }

    /// The keyboard accelerators registered through the window.
    pub closed spec fn accel_table(&self) -> Seq<AccelModel> {
        accels_view(self.accels@)
    }

    /// A window of the given application, titled "Qtools" at its
    /// default size, its sidebar expanded, the width breakpoint
    /// installed, and no actions registered yet.
    pub fn new(app: &QtoolsApplication) -> (r: MainWindow)
        ensures
            r.title_text() == "Qtools"@,
            r.app_id() == app.id(),
            r.default_size() == (DEFAULT_WINDOW_WIDTH, DEFAULT_WINDOW_HEIGHT),
            !r.split().collapsed,
            r.split().min_sidebar_width == MIN_SIDEBAR_WIDTH_PX,
            r.split().max_sidebar_width == MAX_SIDEBAR_WIDTH_PX,
            r.breakpoint() == Some(SIDEBAR_BREAKPOINT_PX),
            r.action_names() =~= Seq::<Seq<char>>::empty(),
            r.accel_table() =~= Seq::<AccelModel>::empty(),
    {
        MainWindow {
            title: String::from_str("Qtools"),
            application_id: app.application_id().clone(),
            default_width: DEFAULT_WINDOW_WIDTH,
            default_height: DEFAULT_WINDOW_HEIGHT,
            split_view: SplitView::new(false, MIN_SIDEBAR_WIDTH_PX, MAX_SIDEBAR_WIDTH_PX),
            breakpoint_px: Some(SIDEBAR_BREAKPOINT_PX),
            actions: Vec::new(),
            accels: Vec::new(),
        }
    }

    /// The width breakpoint installed on the window, if any.
    pub fn breakpoint_bin(&self) -> (r: Option<u32>)
        ensures
            r == self.breakpoint(),
    {
        self.breakpoint_px
    }

    /// Register the window-level actions and their accelerators.
    pub fn setup_actions(&mut self)
        ensures
            final(self).action_names() == spec_window_actions(),
            final(self).accel_table() == spec_window_accels(),
            final(self).title_text() == old(self).title_text(),
            final(self).app_id() == old(self).app_id(),
            final(self).default_size() == old(self).default_size(),
            final(self).split() == old(self).split(),
            final(self).breakpoint() == old(self).breakpoint(),
    {
        let mut actions: Vec<String> = Vec::new();
        actions.push(String::from_str("new"));
        actions.push(String::from_str("open"));
        actions.push(String::from_str("save"));
        actions.push(String::from_str("save-as"));
        actions.push(String::from_str("preferences"));
        self.actions = actions;

        let mut accels: Vec<Accel> = Vec::new();
        accels.push(Accel {
            action: String::from_str("win.new"),
            accelerator: String::from_str("<Ctrl>n"),
        });
        accels.push(Accel {
            action: String::from_str("win.open"),
            accelerator: String::from_str("<Ctrl>o"),
        });
        accels.push(Accel {
            action: String::from_str("win.save"),
            accelerator: String::from_str("<Ctrl>s"),
        });
        self.accels = accels;

        proof {
            assert(self.action_names() =~= spec_window_actions());
            assert(self.accel_table() =~= spec_window_accels());
        }
    }

    /// A click on the content header's sidebar toggle: flip the split
    /// view's collapsed state.
    pub fn toggle_sidebar(&mut self)
        ensures
            final(self).split().collapsed == !old(self).split().collapsed,
            final(self).split().min_sidebar_width == old(self).split().min_sidebar_width,
            final(self).split().max_sidebar_width == old(self).split().max_sidebar_width,
            final(self).title_text() == old(self).title_text(),
            final(self).app_id() == old(self).app_id(),
            final(self).default_size() == old(self).default_size(),
            final(self).breakpoint() == old(self).breakpoint(),
            final(self).action_names() == old(self).action_names(),
            final(self).accel_table() == old(self).accel_table(),
    {
        self.split_view.toggle();
    }

    /// The window's title.
    pub fn title(&self) -> (r: &String)
        ensures
            r@ == self.title_text(),
    {
        &self.title
    }

    /// Identifier of the application the window belongs to.
    pub fn application_id(&self) -> (r: &String)
        ensures
            r@ == self.app_id(),
    {
        &self.application_id
    }

    /// The window's default size, width by height, in pixels.
    pub fn size(&self) -> (r: (u32, u32))
        ensures
            r == self.default_size(),
    {
        (self.default_width, self.default_height)
    }

    /// Whether the window's sidebar is collapsed.
    pub fn sidebar_collapsed(&self) -> (r: bool)
        ensures
            r == self.split().collapsed,
    {
        self.split_view.collapsed
    }

    /// The names of the actions registered on the window.
    pub fn actions(&self) -> (r: &Vec<String>)
        ensures
            r@.map_values(|s: String| s@) == self.action_names(),
    {
        &self.actions
    }

    /// The keyboard accelerators registered through the window.
    pub fn accels(&self) -> (r: &Vec<Accel>)
        ensures
            accels_view(r@) == self.accel_table(),
    {
        &self.accels
    }

    /// The collapsed state shown at the given window width: forced
    /// collapsed at or under the breakpoint, otherwise as the user
    /// left it.
    pub fn shown_collapsed(&self, width: u32) -> (r: bool)
        ensures
            r == (width <= SIDEBAR_BREAKPOINT_PX || self.split().collapsed),
    {
        effective_collapsed(self.split_view.collapsed, width)
    }
}

} // verus!
