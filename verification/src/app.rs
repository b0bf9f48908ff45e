//! The application object: its identifier, its application-level
//! actions, and the quit confirmation flow.
//!
//! Quitting goes through a confirmation dialog whenever a window is
//! open: the application quits only on the dialog's "quit" response.
//! With no window open it quits at once.

use vstd::prelude::*;

use crate::window::{accels_view, Accel, AccelModel};

verus! {

/// The names of the application-level actions, in registration order.
pub open spec fn spec_app_actions() -> Seq<Seq<char>> {
    seq!["quit"@, "about"@]
}

/// The application-level keyboard accelerators.
pub open spec fn spec_app_accels() -> Seq<AccelModel> {
    seq![AccelModel { action: "app.quit"@, accelerator: "<Ctrl>q"@ }]
}

/// What the quit action does next.
#[derive(Debug, Clone, Copy, PartialEq, Eq, Structural)]
pub enum QuitStep {
    /// A window is open: ask the user to confirm first.
    ConfirmDialog,
    /// No window is open: quit at once.
    QuitNow,
}

/// The dialog response that confirms quitting.
pub open spec fn spec_quit_response() -> Seq<char> {
    "quit"@
}

/// One response button of a dialog.
#[derive(Debug, Clone)]
pub struct DialogResponse {
    /// Identifier the dialog reports when the button is chosen.
    pub id: String,
    /// Text shown on the button.
    pub label: String,
}

/// Mathematical image of a [`DialogResponse`].
pub struct DialogResponseModel {
    pub id: Seq<char>,
    pub label: Seq<char>,
}

impl View for DialogResponse {
    type V = DialogResponseModel;

    open spec fn view(&self) -> DialogResponseModel {
        DialogResponseModel { id: self.id@, label: self.label@ }
    }
}

/// Contents of the quit confirmation dialog.
#[derive(Debug, Clone)]
pub struct QuitDialogInfo {
    /// Heading of the dialog.
    pub heading: String,
    /// Body text of the dialog.
    pub body: String,
    /// The response buttons, in the order they are added.
    pub responses: Vec<DialogResponse>,
    /// Identifier of the response chosen by default.
    pub default_response: String,
    /// Identifier of the response shown as destructive.
    pub destructive_response: String,
}

/// Mathematical image of a [`QuitDialogInfo`].
pub struct QuitDialogInfoModel {
    pub heading: Seq<char>,
    pub body: Seq<char>,
    pub responses: Seq<DialogResponseModel>,
    pub default_response: Seq<char>,
    pub destructive_response: Seq<char>,
}

impl View for QuitDialogInfo {
    type V = QuitDialogInfoModel;

    open spec fn view(&self) -> QuitDialogInfoModel {
        QuitDialogInfoModel {
            heading: self.heading@,
            body: self.body@,
            responses: self.responses@.map_values(|r: DialogResponse| r@),
            default_response: self.default_response@,
            destructive_response: self.destructive_response@,
        }
    }
}

/// The quit confirmation dialog: cancel and quit responses, cancel by
/// default, quit marked destructive — the destructive response is the
/// one that confirms quitting.
pub open spec fn spec_quit_dialog() -> QuitDialogInfoModel {
    QuitDialogInfoModel {
        heading: "确认退出"@,
        body: "确定要退出应用吗？"@,
        responses: seq![
            DialogResponseModel { id: "cancel"@, label: "取消"@ },
            DialogResponseModel { id: "quit"@, label: "退出"@ },
        ],
        default_response: "cancel"@,
        destructive_response: spec_quit_response(),
    }
}

/// Contents of the quit confirmation dialog.
pub fn quit_dialog_info() -> (r: QuitDialogInfo)
    ensures
        r@ == spec_quit_dialog(),
{
    let mut responses: Vec<DialogResponse> = Vec::new();
    responses.push(DialogResponse {
        id: String::from_str("cancel"),
        label: String::from_str("取消"),
    });
    responses.push(DialogResponse {
        id: String::from_str("quit"),
        label: String::from_str("退出"),
    });
    let r = QuitDialogInfo {
        heading: String::from_str("确认退出"),
        body: String::from_str("确定要退出应用吗？"),
        responses,
        default_response: String::from_str("cancel"),
        destructive_response: String::from_str("quit"),
    };
    proof {
        assert(r@.responses =~= spec_quit_dialog().responses);
        assert(r@ =~= spec_quit_dialog());
    }
    r
}

/// The application: its identifier and the actions registered on it.
pub struct QtoolsApplication {
    app_id: String,
    actions: Vec<String>,
    accels: Vec<Accel>,
}

impl QtoolsApplication {
    /// The application identifier.
    pub closed spec fn id(&self) -> Seq<char> {
        self.app_id@
    }

    /// The names of the actions registered on the application.
    pub closed spec fn action_names(&self) -> Seq<Seq<char>> {
        self.actions@.map_values(|s: String| s@)
    }

    /// The keyboard accelerators registered on the application.
    pub closed spec fn accel_table(&self) -> Seq<AccelModel> {
        accels_view(self.accels@)
    }

    /// An application under the given identifier, with no actions
    /// registered yet.
    pub fn new(app_id: &str) -> (r: QtoolsApplication)
        ensures
            r.id() == app_id@,
            r.action_names() =~= Seq::<Seq<char>>::empty(),
            r.accel_table() =~= Seq::<AccelModel>::empty(),
    {
        QtoolsApplication { app_id: app_id.to_owned(), actions: Vec::new(), accels: Vec::new() }
    }

    /// Register the application-level actions and the quit
    /// accelerator.
    pub fn setup_actions(&mut self)
        ensures
            final(self).action_names() == spec_app_actions(),
            final(self).accel_table() == spec_app_accels(),
            final(self).id() == old(self).id(),
    {
        let mut actions: Vec<String> = Vec::new();
        actions.push(String::from_str("quit"));
        actions.push(String::from_str("about"));
        self.actions = actions;

        let mut accels: Vec<Accel> = Vec::new();
        accels.push(Accel {
            action: String::from_str("app.quit"),
            accelerator: String::from_str("<Ctrl>q"),
        });
        self.accels = accels;

        proof {
            assert(self.action_names() =~= spec_app_actions());
            assert(self.accel_table() =~= spec_app_accels());
        }
    }

    /// The application identifier.
    pub fn application_id(&self) -> (r: &String)
        ensures
            r@ == self.id(),
    {
        &self.app_id
    }

    /// The names of the actions registered on the application.
    pub fn actions(&self) -> (r: &Vec<String>)
        ensures
            r@.map_values(|s: String| s@) == self.action_names(),
    {
        &self.actions
    }

    /// The keyboard accelerators registered on the application.
    pub fn accels(&self) -> (r: &Vec<Accel>)
        ensures
            accels_view(r@) == self.accel_table(),
    {
        &self.accels
    }

    /// What the quit action does: confirm while a window is open, quit
    /// at once otherwise.
    pub fn quit_step(&self, has_active_window: bool) -> (r: QuitStep)
        ensures
            r == if has_active_window {
                QuitStep::ConfirmDialog
            } else {
                QuitStep::QuitNow
            },
    {
        if has_active_window {
            QuitStep::ConfirmDialog
        } else {
            QuitStep::QuitNow
        }
    }
}

/// Whether a confirmation dialog response confirms quitting: only the
/// "quit" response does.
pub fn confirm_quit_response(response: &str) -> (r: bool)
    ensures
        r == (response@ == spec_quit_response()),
{
    let given = response.to_owned();
    let expected = String::from_str("quit");
    given == expected
}

} // verus!
