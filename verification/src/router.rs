//! The event router.
//!
//! A stateless dispatcher keyed by event name: it receives named events from
//! the UI layer, from the tray, and from the window manager, and drives the
//! orchestrator (read or replace state) and the window/tray lifecycle
//! machine.  Everything a handler wants done outside this core -- emit an
//! event to the UI, persist a snapshot, physically show or hide the window,
//! terminate the process -- comes back as an explicit [`Action`] list that
//! the surrounding process performs in order.

use crate::config::default_text;
use crate::config::valid_config_text;
use crate::lifecycle::Trigger;
use crate::lifecycle::Visibility;
use crate::lifecycle::next_visibility;
use crate::lifecycle::step_visibility;
use crate::orchestrator::Orchestrator;
use crate::orchestrator::OrchestratorModel;
use crate::orchestrator::after_replace;
use crate::orchestrator::initial_model;
use crate::orchestrator::model_wf;
use vstd::prelude::*;
use vstd::string::StrSliceExecFns;

verus! {

/// A violation of the event protocol's internal contract: not bad external
/// input, but a build-time mismatch between the event sources and this
/// router.  Fatal by design.
#[derive(Clone, Copy, Debug, PartialEq, Eq, Structural)]
pub enum Fault {
    /// A `setConfig` event arrived without its required payload.
    MissingPayload,
    /// A tray menu click carried an identifier the menu definition does not
    /// contain.
    UnknownMenuItem,
}

/// A command to the surrounding process.  Handlers never perform I/O
/// themselves; they return these and the process carries them out in order.
#[derive(Debug, PartialEq, Eq)]
pub enum Action {
    /// Send the `showConfig` event to the UI, carrying this configuration
    /// text.
    EmitShowConfig(String),
    /// Write this configuration text to durable storage.
    PersistConfig(String),
    /// Physically show the main window.
    ShowWindow,
    /// Physically hide the main window.
    HideWindow,
    /// Suppress the default handling of a window close request.
    PreventClose,
    /// Terminate the process normally (exit code zero), with no graceful
    /// drain.
    Exit,
    /// Terminate abnormally with a diagnostic: the event protocol's internal
    /// contract was violated.
    Abort(Fault),
}

/// The abstract form of an [`Action`]: texts as character sequences.
#[verifier::ext_equal]
pub enum ActionModel {
    EmitShowConfig(Seq<char>),
    PersistConfig(Seq<char>),
    ShowWindow,
    HideWindow,
    PreventClose,
    Exit,
    Abort(Fault),
}

impl DeepView for Action {
    type V = ActionModel;

    open spec fn deep_view(&self) -> ActionModel {
        match self {
            Action::EmitShowConfig(t) => ActionModel::EmitShowConfig(t@),
            Action::PersistConfig(t) => ActionModel::PersistConfig(t@),
            Action::ShowWindow => ActionModel::ShowWindow,
            Action::HideWindow => ActionModel::HideWindow,
            Action::PreventClose => ActionModel::PreventClose,
            Action::Exit => ActionModel::Exit,
            Action::Abort(f) => ActionModel::Abort(*f),
        }
    }
}

/// The state the router drives: the orchestrator and the lifecycle machine.
pub struct Core {
    pub orchestrator: Orchestrator,
    pub visibility: Visibility,
}

/// The abstract state of [`Core`].
#[verifier::ext_equal]
pub struct CoreModel {
    pub orchestrator: OrchestratorModel,
    pub visibility: Visibility,
}

/// Effect of the `heartbeat` event: read the current configuration text and
/// echo it to the UI as a `showConfig` event.  The state is untouched.
pub open spec fn heartbeat_step(m: CoreModel) -> (CoreModel, Seq<ActionModel>) {
    (m, seq![ActionModel::EmitShowConfig(m.orchestrator.config_text)])
}

/// Effect of the `setConfig` event.  A missing payload is a protocol
/// violation and aborts.  A payload that parses replaces both slots and is
/// persisted; one that does not is silently ignored -- no negative
/// acknowledgment is sent to the UI, and the previous state is fully
/// retained.
pub open spec fn set_config_step(m: CoreModel, payload: Option<Seq<char>>) -> (
    CoreModel,
    Seq<ActionModel>,
) {
    match payload {
        None => (m, seq![ActionModel::Abort(Fault::MissingPayload)]),
        Some(raw) => if valid_config_text(raw) {
            (
                CoreModel { orchestrator: after_replace(m.orchestrator, raw), ..m },
                seq![ActionModel::PersistConfig(raw)],
            )
        } else {
            (m, seq![])
        },
    }
}

/// Effect of the `hide` event: the lifecycle machine goes to `Hidden` and the
/// presenter is told to hide the window.
pub open spec fn hide_step(m: CoreModel) -> (CoreModel, Seq<ActionModel>) {
    (
        CoreModel { visibility: next_visibility(m.visibility, Trigger::Hide), ..m },
        seq![ActionModel::HideWindow],
    )
}

/// Effect of the `quit` event: terminate immediately; the state machine is
/// bypassed.
pub open spec fn quit_step(m: CoreModel) -> (CoreModel, Seq<ActionModel>) {
    (m, seq![ActionModel::Exit])
}

/// Effect of a show request (tray left-click or the tray menu's show entry):
/// the lifecycle machine goes to `Visible` and the presenter is told to show
/// the window.
pub open spec fn show_step(m: CoreModel) -> (CoreModel, Seq<ActionModel>) {
    (
        CoreModel { visibility: next_visibility(m.visibility, Trigger::Show), ..m },
        seq![ActionModel::ShowWindow],
    )
}

/// Dispatch of a UI event by name.  Only the four recognized names have an
/// effect; the UI layer never emits others, so anything else is ignored.
pub open spec fn ui_event_step(m: CoreModel, name: Seq<char>, payload: Option<Seq<char>>) -> (
    CoreModel,
    Seq<ActionModel>,
) {
    if name == "heartbeat"@ {
        heartbeat_step(m)
    } else if name == "setConfig"@ {
        set_config_step(m, payload)
    } else if name == "hide"@ {
        hide_step(m)
    } else if name == "quit"@ {
        quit_step(m)
    } else {
        (m, seq![])
    }
}

/// Dispatch of a tray menu click by item identifier.  The menu defines
/// exactly a show and a quit entry; any other identifier is a build-time
/// mismatch between the menu definition and this router, and aborts.
pub open spec fn tray_menu_step(m: CoreModel, id: Seq<char>) -> (CoreModel, Seq<ActionModel>) {
    if id == "show"@ {
        show_step(m)
    } else if id == "quit"@ {
        quit_step(m)
    } else {
        (m, seq![ActionModel::Abort(Fault::UnknownMenuItem)])
    }
}

/// Effect of a window close request.  For the main window the default close
/// is suppressed and the hide effect is performed instead: a user close never
/// destroys the window and never terminates the process.  Requests for other
/// labels are not intercepted.
pub open spec fn close_request_step(m: CoreModel, label: Seq<char>) -> (
    CoreModel,
    Seq<ActionModel>,
) {
    if label == "main"@ {
        (
            CoreModel { visibility: next_visibility(m.visibility, Trigger::Hide), ..m },
            seq![ActionModel::PreventClose, ActionModel::HideWindow],
        )
    } else {
        (m, seq![])
    }
}

/// The start-up actions: the freshly installed default snapshot is persisted
/// at once.
pub open spec fn startup_actions() -> Seq<ActionModel> {
    seq![ActionModel::PersistConfig(default_text())]
}

/// Character-wise string equality, decided against the string views.
fn str_eq(a: &str, b: &str) -> (r: bool)
    ensures
        r == (a@ == b@),
{
    let n = a.unicode_len();
    if n != b.unicode_len() {
        return false;
    }
    let mut i: usize = 0;
    while i < n
        invariant
            n == a@.len(),
            n == b@.len(),
            i <= n,
            forall|j: int| 0 <= j < i ==> a@[j] == b@[j],
        decreases n - i,
    {
        if a.get_char(i) != b.get_char(i) {
            return false;
        }
        i = i + 1;
    }
    proof {
        assert(a@ =~= b@);
    }
    true
}

impl View for Core {
    type V = CoreModel;

    open spec fn view(&self) -> CoreModel {
        CoreModel { orchestrator: self.orchestrator@, visibility: self.visibility }
    }
}

impl Core {
    pub open spec fn wf(&self) -> bool {
        model_wf(self@.orchestrator)
    }

    /// Start-up, run exactly once before any event is processed: the
    /// orchestrator is initialized with the default configuration and an
    /// engine built from it, and the returned actions persist that snapshot.
    /// The initial visibility is whatever the presenter reports; this core
    /// does not own it.
    pub fn startup(initial_visibility: Visibility) -> (r: (Core, Vec<Action>))
        ensures
            r.0.wf(),
            r.0@ == (CoreModel { orchestrator: initial_model(), visibility: initial_visibility }),
            r.1.deep_view() == startup_actions(),
    {
        let core = Core { orchestrator: Orchestrator::startup(), visibility: initial_visibility };
        let actions = vec![Action::PersistConfig(core.orchestrator.get_current_configuration_text())];
        proof {
            assert(core@ =~= (CoreModel {
                orchestrator: initial_model(),
                visibility: initial_visibility,
            }));
            assert(actions.deep_view() =~= startup_actions());
        }
        (core, actions)
    }

    /// Handles one named UI event with an optional string payload.
    pub fn on_ui_event(&mut self, name: &str, payload: Option<String>) -> (actions: Vec<Action>)
        requires
            old(self).wf(),
        ensures
            final(self).wf(),
            final(self)@ == ui_event_step(old(self)@, name@, payload.deep_view()).0,
            actions.deep_view() == ui_event_step(old(self)@, name@, payload.deep_view()).1,
    {
        if str_eq(name, "heartbeat") {
            self.on_heartbeat()
        } else if str_eq(name, "setConfig") {
            self.on_set_config(payload)
        } else if str_eq(name, "hide") {
            self.on_hide()
        } else if str_eq(name, "quit") {
            self.on_quit()
        } else {
            let actions: Vec<Action> = Vec::new();
            proof {
                assert(actions.deep_view() =~= Seq::<ActionModel>::empty());
            }
            actions
        }
    }

    /// The `heartbeat` event: UI-initiated state sync on (re)connect.  Echoes
    /// the current configuration text back to the UI.
    pub fn on_heartbeat(&mut self) -> (actions: Vec<Action>)
        requires
            old(self).wf(),
        ensures
            final(self).wf(),
            final(self)@ == heartbeat_step(old(self)@).0,
            actions.deep_view() == heartbeat_step(old(self)@).1,
    {
        let text = self.orchestrator.get_current_configuration_text();
        let actions = vec![Action::EmitShowConfig(text)];
        proof {
            assert(actions.deep_view() =~= heartbeat_step(self@).1);
        }
        actions
    }

    /// The `setConfig` event: attempt to replace the configuration (and with
    /// it the engine) with the given payload.
    pub fn on_set_config(&mut self, payload: Option<String>) -> (actions: Vec<Action>)
        requires
            old(self).wf(),
        ensures
            final(self).wf(),
            final(self)@ == set_config_step(old(self)@, payload.deep_view()).0,
            actions.deep_view() == set_config_step(old(self)@, payload.deep_view()).1,
    {
        match payload {
            None => {
                let actions = vec![Action::Abort(Fault::MissingPayload)];
                proof {
                    assert(actions.deep_view() =~= set_config_step(
                        self@,
                        None,
                    ).1);
                }
                actions
            },
            Some(raw) => {
                let accepted = self.orchestrator.replace_configuration(raw.as_str());
                proof {
                    assert(self@ =~= set_config_step(old(self)@, Some(raw@)).0);
                }
                if accepted {
                    let actions = vec![Action::PersistConfig(raw)];
                    proof {
                        assert(actions.deep_view() =~= set_config_step(old(self)@, Some(raw@)).1);
                    }
                    actions
                } else {
                    let actions: Vec<Action> = Vec::new();
                    proof {
                        assert(actions.deep_view() =~= Seq::<ActionModel>::empty());
                    }
                    actions
                }
            },
        }
    }

    /// The `hide` event.
    pub fn on_hide(&mut self) -> (actions: Vec<Action>)
        requires
            old(self).wf(),
        ensures
            final(self).wf(),
            final(self)@ == hide_step(old(self)@).0,
            actions.deep_view() == hide_step(old(self)@).1,
    {
        self.visibility = step_visibility(self.visibility, Trigger::Hide);
        let actions = vec![Action::HideWindow];
        proof {
            assert(self@ =~= hide_step(old(self)@).0);
            assert(actions.deep_view() =~= hide_step(old(self)@).1);
        }
        actions
    }

    /// The `quit` event: terminate the process immediately.
    pub fn on_quit(&mut self) -> (actions: Vec<Action>)
        requires
            old(self).wf(),
        ensures
            final(self).wf(),
            final(self)@ == quit_step(old(self)@).0,
            actions.deep_view() == quit_step(old(self)@).1,
    {
        let actions = vec![Action::Exit];
        proof {
            assert(actions.deep_view() =~= quit_step(self@).1);
        }
        actions
    }

    /// A tray left-click: same effect as the tray menu's show entry.
    pub fn on_tray_left_click(&mut self) -> (actions: Vec<Action>)
        requires
            old(self).wf(),
        ensures
            final(self).wf(),
            final(self)@ == show_step(old(self)@).0,
            actions.deep_view() == show_step(old(self)@).1,
    {
        self.visibility = step_visibility(self.visibility, Trigger::Show);
        let actions = vec![Action::ShowWindow];
        proof {
            assert(self@ =~= show_step(old(self)@).0);
            assert(actions.deep_view() =~= show_step(old(self)@).1);
        }
        actions
    }

    /// A tray menu click, by item identifier.
    pub fn on_tray_menu_item(&mut self, id: &str) -> (actions: Vec<Action>)
        requires
            old(self).wf(),
        ensures
            final(self).wf(),
            final(self)@ == tray_menu_step(old(self)@, id@).0,
            actions.deep_view() == tray_menu_step(old(self)@, id@).1,
    {
        if str_eq(id, "show") {
            self.on_tray_left_click()
        } else if str_eq(id, "quit") {
            self.on_quit()
        } else {
            let actions = vec![Action::Abort(Fault::UnknownMenuItem)];
            proof {
                assert(actions.deep_view() =~= tray_menu_step(self@, id@).1);
            }
            actions
        }
    }

    /// A window close request from the window manager, by window label.
    pub fn on_close_requested(&mut self, label: &str) -> (actions: Vec<Action>)
        requires
            old(self).wf(),
        ensures
            final(self).wf(),
            final(self)@ == close_request_step(old(self)@, label@).0,
            actions.deep_view() == close_request_step(old(self)@, label@).1,
    {
        if str_eq(label, "main") {
            self.visibility = step_visibility(self.visibility, Trigger::Hide);
            let actions = vec![Action::PreventClose, Action::HideWindow];
            proof {
                assert(self@ =~= close_request_step(old(self)@, label@).0);
                assert(actions.deep_view() =~= close_request_step(old(self)@, label@).1);
            }
            actions
        } else {
            let actions: Vec<Action> = Vec::new();
            proof {
                assert(actions.deep_view() =~= Seq::<ActionModel>::empty());
            }
            actions
        }
    }
}

} // verus!
