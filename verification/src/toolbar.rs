//! The main toolbar: a column of buttons built from a configuration
//! table.
//!
//! Each entry of the table names an icon and a tooltip and says what a
//! click does: either emit a named signal on the toolbar widget, or
//! make the button the selected one. Selection is mutually exclusive —
//! clicking a toggle button deactivates every other button — so at most
//! one button is ever active.

use vstd::prelude::*;

verus! {

/// How a toolbar button reacts to a click.
#[derive(Debug, Clone)]
pub enum ToolbarAction {
    /// Emit the signal of this name on the toolbar widget.
    Signal(String),
    /// Become the selected button, deselecting every other one.
    Toggle,
}

/// Mathematical image of a [`ToolbarAction`].
pub enum ToolbarActionModel {
    Signal(Seq<char>),
    Toggle,
}

impl View for ToolbarAction {
    type V = ToolbarActionModel;

    open spec fn view(&self) -> ToolbarActionModel {
        match self {
            ToolbarAction::Signal(name) => ToolbarActionModel::Signal(name@),
            ToolbarAction::Toggle => ToolbarActionModel::Toggle,
        }
    }
}

/// Which content page a toolbar button asks the window to show.
#[derive(Debug, Clone, Copy, PartialEq, Eq, Structural)]
pub enum ContentAction {
    /// Show the AI chat page.
    ShowAIChat,
    /// Show the welcome page.
    ShowWelcome,
    /// Show the screenshot page.
    ScreenShot,
    /// Show the entity list page.
    EntityList,
}

/// Flags a signal is registered with.
#[derive(Debug, Clone, Copy, PartialEq, Eq, Structural)]
pub struct SignalFlags {
    /// Run the default handler after user handlers.
    pub run_last: bool,
    /// The signal can be emitted by an action.
    pub action: bool,
}

impl SignalFlags {
    /// The flags a signal gets when its table entry names none.
    pub fn run_last_action() -> (r: SignalFlags)
        ensures
            r == (SignalFlags { run_last: true, action: true }),
    {
        SignalFlags { run_last: true, action: true }
    }
}

/// One entry of the toolbar configuration table.
#[derive(Debug, Clone)]
pub struct ToolbarButton {
    /// Name of the icon shown on the button.
    pub icon_name: String,
    /// Tooltip shown on hover.
    pub tooltip: String,
    /// What a click does.
    pub action: ToolbarAction,
    /// Content page the button asks for, if any.
    pub content_action: Option<ContentAction>,
    /// Flags for the emitted signal; meaningful only for signal actions.
    pub signal_flags: Option<SignalFlags>,
}

/// Mathematical image of a [`ToolbarButton`].
pub struct ToolbarButtonModel {
    pub icon_name: Seq<char>,
    pub tooltip: Seq<char>,
    pub action: ToolbarActionModel,
    pub content_action: Option<ContentAction>,
    pub signal_flags: Option<SignalFlags>,
}

impl View for ToolbarButton {
    type V = ToolbarButtonModel;

    open spec fn view(&self) -> ToolbarButtonModel {
        ToolbarButtonModel {
            icon_name: self.icon_name@,
            tooltip: self.tooltip@,
            action: self.action@,
            content_action: self.content_action,
            signal_flags: self.signal_flags,
        }
    }
}

/// The images of a whole configuration table.
pub open spec fn buttons_view(v: Seq<ToolbarButton>) -> Seq<ToolbarButtonModel> {
    v.map_values(|b: ToolbarButton| b@)
}

/// The toolbar configuration table shared with the main window: every
/// button emits a signal and asks for a content page.
pub open spec fn spec_toolbar_buttons() -> Seq<ToolbarButtonModel> {
    seq![
        ToolbarButtonModel {
            icon_name: "document-new-symbolic"@,
            tooltip: "新建/AI聊天"@,
            action: ToolbarActionModel::Signal("show-ai-chat"@),
            content_action: Some(ContentAction::ShowAIChat),
            signal_flags: Some(SignalFlags { run_last: true, action: true }),
        },
        ToolbarButtonModel {
            icon_name: "document-open-symbolic"@,
            tooltip: "截图工具"@,
            action: ToolbarActionModel::Signal("show-screen-shot"@),
            content_action: Some(ContentAction::ScreenShot),
            signal_flags: Some(SignalFlags { run_last: true, action: true }),
        },
        ToolbarButtonModel {
            icon_name: "document-save-symbolic"@,
            tooltip: "保存"@,
            action: ToolbarActionModel::Signal("show-welcome"@),
            content_action: Some(ContentAction::ShowWelcome),
            signal_flags: Some(SignalFlags { run_last: true, action: true }),
        },
        ToolbarButtonModel {
            icon_name: "document-save-symbolic"@,
            tooltip: "保存"@,
            action: ToolbarActionModel::Signal("show-entity-list"@),
            content_action: Some(ContentAction::EntityList),
            signal_flags: Some(SignalFlags { run_last: true, action: true }),
        },
    ]
}

/// Build the shared toolbar configuration table.
pub fn toolbar_buttons() -> (r: Vec<ToolbarButton>)
    ensures
        buttons_view(r@) == spec_toolbar_buttons(),
{
    let flags = SignalFlags::run_last_action();
    let mut r: Vec<ToolbarButton> = Vec::new();
    r.push(ToolbarButton {
        icon_name: String::from_str("document-new-symbolic"),
        tooltip: String::from_str("新建/AI聊天"),
        action: ToolbarAction::Signal(String::from_str("show-ai-chat")),
        content_action: Some(ContentAction::ShowAIChat),
        signal_flags: Some(flags),
    });
    r.push(ToolbarButton {
        icon_name: String::from_str("document-open-symbolic"),
        tooltip: String::from_str("截图工具"),
        action: ToolbarAction::Signal(String::from_str("show-screen-shot")),
        content_action: Some(ContentAction::ScreenShot),
        signal_flags: Some(flags),
    });
    r.push(ToolbarButton {
        icon_name: String::from_str("document-save-symbolic"),
        tooltip: String::from_str("保存"),
        action: ToolbarAction::Signal(String::from_str("show-welcome")),
        content_action: Some(ContentAction::ShowWelcome),
        signal_flags: Some(flags),
    });
    r.push(ToolbarButton {
        icon_name: String::from_str("document-save-symbolic"),
        tooltip: String::from_str("保存"),
        action: ToolbarAction::Signal(String::from_str("show-entity-list")),
        content_action: Some(ContentAction::EntityList),
        signal_flags: Some(flags),
    });
    proof {
        assert(buttons_view(r@) =~= spec_toolbar_buttons());
    }
    r
}

/// The toolbar's own button table: the first button emits a signal,
/// the other two are mutually exclusive toggles.
pub open spec fn spec_main_toolbar_buttons() -> Seq<ToolbarButtonModel> {
    seq![
        ToolbarButtonModel {
            icon_name: "document-new-symbolic"@,
            tooltip: "新建/AI聊天"@,
            action: ToolbarActionModel::Signal("show-ai-chat"@),
            content_action: None,
            signal_flags: Some(SignalFlags { run_last: true, action: true }),
        },
        ToolbarButtonModel {
            icon_name: "document-open-symbolic"@,
            tooltip: "打开"@,
            action: ToolbarActionModel::Toggle,
            content_action: None,
            signal_flags: None,
        },
        ToolbarButtonModel {
            icon_name: "document-save-symbolic"@,
            tooltip: "保存"@,
            action: ToolbarActionModel::Toggle,
            content_action: None,
            signal_flags: None,
        },
    ]
}

/// Build the toolbar's own button table.
pub fn main_toolbar_buttons() -> (r: Vec<ToolbarButton>)
    ensures
        buttons_view(r@) == spec_main_toolbar_buttons(),
{
    let mut r: Vec<ToolbarButton> = Vec::new();
    r.push(ToolbarButton {
        icon_name: String::from_str("document-new-symbolic"),
        tooltip: String::from_str("新建/AI聊天"),
        action: ToolbarAction::Signal(String::from_str("show-ai-chat")),
        content_action: None,
        signal_flags: Some(SignalFlags::run_last_action()),
    });
    r.push(ToolbarButton {
        icon_name: String::from_str("document-open-symbolic"),
        tooltip: String::from_str("打开"),
        action: ToolbarAction::Toggle,
        content_action: None,
        signal_flags: None,
    });
    r.push(ToolbarButton {
        icon_name: String::from_str("document-save-symbolic"),
        tooltip: String::from_str("保存"),
        action: ToolbarAction::Toggle,
        content_action: None,
        signal_flags: None,
    });
    proof {
        assert(buttons_view(r@) =~= spec_main_toolbar_buttons());
    }
    r
}

/// A signal to register on the toolbar widget.
#[derive(Debug, Clone)]
pub struct SignalDef {
    /// Name of the signal.
    pub name: String,
    /// Flags it is registered with.
    pub flags: SignalFlags,
}

/// Mathematical image of a [`SignalDef`].
pub struct SignalDefModel {
    pub name: Seq<char>,
    pub flags: SignalFlags,
}

impl View for SignalDef {
    type V = SignalDefModel;

    open spec fn view(&self) -> SignalDefModel {
        SignalDefModel { name: self.name@, flags: self.flags }
    }
}

/// The flags a table entry registers its signal with: the ones it
/// names, or the defaults.
pub open spec fn spec_flags_or_default(flags: Option<SignalFlags>) -> SignalFlags {
    match flags {
        Some(f) => f,
        None => SignalFlags { run_last: true, action: true },
    }
}

/// The signals a configuration table asks to register: one per entry
/// with a signal action, in table order.
pub open spec fn spec_signals(cfg: Seq<ToolbarButtonModel>) -> Seq<SignalDefModel>
    decreases cfg.len(),
{
    if cfg.len() == 0 {
        seq![]
    } else {
        let rest = spec_signals(cfg.drop_last());
        match cfg.last().action {
            ToolbarActionModel::Signal(name) => rest.push(
                SignalDefModel { name, flags: spec_flags_or_default(cfg.last().signal_flags) },
            ),
            ToolbarActionModel::Toggle => rest,
        }
    }
}

/// Collect the signals a configuration table asks to register.
pub fn signals_for(cfg: &Vec<ToolbarButton>) -> (r: Vec<SignalDef>)
    ensures
        r@.map_values(|s: SignalDef| s@) == spec_signals(buttons_view(cfg@)),
{
    let mut r: Vec<SignalDef> = Vec::new();
    let mut i: usize = 0;
    while i < cfg.len()
        invariant
            i <= cfg@.len(),
            r@.map_values(|s: SignalDef| s@) == spec_signals(buttons_view(cfg@).subrange(0, i as int)),
        decreases cfg@.len() - i,
    {
        match &cfg[i].action {
            ToolbarAction::Signal(name) => {
                let flags = match cfg[i].signal_flags {
                    Some(f) => f,
                    None => SignalFlags::run_last_action(),
                };
                r.push(SignalDef { name: name.clone(), flags });
            },
            ToolbarAction::Toggle => {},
        }
        proof {
            let pre = buttons_view(cfg@).subrange(0, i as int);
            let cur = buttons_view(cfg@).subrange(0, i + 1int);
            assert(cur.drop_last() =~= pre);
            assert(r@.map_values(|s: SignalDef| s@) =~= spec_signals(cur));
        }
        i += 1;
    }
    proof {
        assert(buttons_view(cfg@).subrange(0, cfg@.len() as int) =~= buttons_view(cfg@));
    }
    r
}

/// Whether at most one button is active.
pub open spec fn at_most_one_active(active: Seq<bool>) -> bool {
    forall|i: int, j: int|
        0 <= i < active.len() && 0 <= j < active.len() && active[i] && active[j] ==> i == j
}

/// Whether the button at `k` is the one active button.
pub open spec fn only_active(active: Seq<bool>, k: int) -> bool {
    &&& 0 <= k < active.len()
    &&& active[k]
    &&& forall|j: int| 0 <= j < active.len() && j != k ==> !active[j]
}

/// The main toolbar: its configuration table and the selection state
/// of its buttons.
pub struct MainToolbar {
    buttons: Vec<ToolbarButton>,
    active: Vec<bool>,
}

impl MainToolbar {
    /// The toolbar is well formed: one selection flag per button, and
    /// selection is mutually exclusive.
    pub closed spec fn wf(&self) -> bool {
        &&& self.active@.len() == self.buttons@.len()
        &&& at_most_one_active(self.active@)
    }

    /// The images of the toolbar's configuration table.
    pub closed spec fn config(&self) -> Seq<ToolbarButtonModel> {
        buttons_view(self.buttons@)
    }

    /// The selection state of the buttons, in table order.
    pub closed spec fn active_states(&self) -> Seq<bool> {
        self.active@
    }

    /// A toolbar built from its own button table, with no button
    /// selected.
    pub fn new() -> (r: MainToolbar)
        ensures
            r.wf(),
            r.config() == spec_main_toolbar_buttons(),
            r.active_states().len() == r.config().len(),
            r.active_states() =~= Seq::new(spec_main_toolbar_buttons().len(), |i: int| false),
    {
        let buttons = main_toolbar_buttons();
        let mut active: Vec<bool> = Vec::new();
        let mut i: usize = 0;
        let n = buttons.len();
        while i < n
            invariant
                i <= n,
                active@ =~= Seq::new(i as nat, |k: int| false),
            decreases n - i,
        {
            active.push(false);
            i += 1;
        }
        MainToolbar { buttons, active }
    }

    /// How many buttons the toolbar has.
    pub fn len(&self) -> (r: usize)
        ensures
            r == self.config().len(),
    {
        self.buttons.len()
    }

    /// The signals the toolbar registers, taken from its table.
    pub fn signals(&self) -> (r: Vec<SignalDef>)
        ensures
            r@.map_values(|s: SignalDef| s@) == spec_signals(self.config()),
    {
        signals_for(&self.buttons)
    }

    /// The table entry of the button at `i`.
    pub fn button_at(&self, i: usize) -> (r: &ToolbarButton)
        requires
            i < self.config().len(),
        ensures
            r@ == self.config()[i as int],
    {
        &self.buttons[i]
    }

    /// Whether the button at `i` is the selected one.
    pub fn is_active(&self, i: usize) -> (r: bool)
        requires
            i < self.config().len(),
            self.wf(),
        ensures
            r == self.active_states()[i as int],
    {
        self.active[i]
    }

    /// Handle a click on the button at `i`.
    ///
    /// A signal button emits its signal and leaves the selection as it
    /// was; a toggle button deactivates every other button and becomes
    /// the selected one.
    pub fn click(&mut self, i: usize) -> (emitted: Option<String>)
        requires
            old(self).wf(),
            i < old(self).config().len(),
        ensures
            final(self).wf(),
            final(self).config() == old(self).config(),
            final(self).active_states().len() == final(self).config().len(),
            match old(self).config()[i as int].action {
                ToolbarActionModel::Signal(name) => {
                    &&& emitted matches Some(s) && s@ == name
                    &&& final(self).active_states() == old(self).active_states()
                },
                ToolbarActionModel::Toggle => {
                    &&& emitted is None
                    &&& only_active(final(self).active_states(), i as int)
                },
            },
    {
        match &self.buttons[i].action {
            ToolbarAction::Signal(name) => Some(name.clone()),
            ToolbarAction::Toggle => {
                let n = self.active.len();
                let mut fresh: Vec<bool> = Vec::new();
                let mut j: usize = 0;
                while j < n
                    invariant
                        j <= n,
                        i < n,
                        fresh@.len() == j,
                        forall|k: int| 0 <= k < j ==> fresh@[k] == (k == i as int),
                    decreases n - j,
                {
                    fresh.push(j == i);
                    j += 1;
                }
                self.active = fresh;
                None
            },
        }
    }
}

} // verus!
