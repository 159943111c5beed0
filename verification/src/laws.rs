//! The guarantees the runtime core gives as a whole, stated over the abstract
//! models and proved from the step functions the handlers' contracts use.

use crate::config::valid_config_text;
use crate::lifecycle::Visibility;
use crate::orchestrator::OrchestratorModel;
use crate::orchestrator::after_replace;
use crate::orchestrator::model_wf;
use crate::router::ActionModel;
use crate::router::CoreModel;
use crate::router::close_request_step;
use crate::router::heartbeat_step;
use crate::router::hide_step;
use crate::router::quit_step;
use crate::router::set_config_step;
use crate::router::show_step;
use crate::router::tray_menu_step;
use crate::router::ui_event_step;
use vstd::prelude::*;

verus! {

/// Idempotent read: reading the configuration text does not change the state,
/// so repeated heartbeats with no intervening replacement echo identical
/// text.
pub proof fn lemma_idempotent_read(m: CoreModel)
    ensures
        heartbeat_step(m).0 == m,
        heartbeat_step(heartbeat_step(m).0).1 == heartbeat_step(m).1,
{
}

/// Atomic replace: after a replacement with a well-formed text succeeds, the
/// current configuration text is exactly that text -- never a mix of the old
/// and the new value -- and the engine was rebuilt from exactly that text.
pub proof fn lemma_atomic_replace(m: OrchestratorModel, c2: Seq<char>)
    requires
        model_wf(m),
        valid_config_text(c2),
    ensures
        after_replace(m, c2).config_text == c2,
        after_replace(m, c2).engine_source == c2,
        model_wf(after_replace(m, c2)),
{
}

/// Reject-and-retain: a replacement with a text that does not parse is a
/// complete no-op.  The configuration text is unchanged and the engine slot
/// still holds the same instance -- the same identity, not merely an equal
/// value.
pub proof fn lemma_reject_and_retain(m: OrchestratorModel, bad: Seq<char>)
    requires
        !valid_config_text(bad),
    ensures
        after_replace(m, bad) == m,
        after_replace(m, bad).config_text == m.config_text,
        after_replace(m, bad).engine_id == m.engine_id,
{
}

/// At-most-one engine: the engine slot of a well-formed orchestrator holds
/// exactly one engine by construction, and a successful replacement installs
/// a fresh instance -- its identity differs from the discarded one and from
/// every identity handed out before, so two engines are never alive at once.
pub proof fn lemma_at_most_one_engine(m: OrchestratorModel, raw: Seq<char>)
    requires
        model_wf(m),
        valid_config_text(raw),
    ensures
        model_wf(after_replace(m, raw)),
        after_replace(m, raw).engine_id != m.engine_id,
        after_replace(m, raw).engine_id >= m.next_id,
{
}

/// Close-intercept: a window close request never terminates the process --
/// whatever the label, the resulting actions contain neither an exit nor an
/// abort -- and a close request on the main window always leaves the
/// lifecycle machine hidden, with the default close suppressed.
pub proof fn lemma_close_intercept(m: CoreModel, label: Seq<char>)
    ensures
        forall|i: int|
            0 <= i < close_request_step(m, label).1.len() ==> !(close_request_step(
                m,
                label,
            ).1[i] is Exit) && !(close_request_step(m, label).1[i] is Abort),
        label == "main"@ ==> close_request_step(m, label).0.visibility == Visibility::Hidden,
        label == "main"@ ==> close_request_step(m, label).1.contains(ActionModel::PreventClose),
        close_request_step(m, label).0.orchestrator == m.orchestrator,
{
    if label == "main"@ {
        assert(close_request_step(m, label).1[0] == ActionModel::PreventClose);
    }
}

/// Heartbeat echo: once a replacement with a well-formed text succeeds, a
/// following heartbeat emits `showConfig` carrying exactly that text.
pub proof fn lemma_heartbeat_echo(m: CoreModel, c: Seq<char>)
    requires
        model_wf(m.orchestrator),
        valid_config_text(c),
    ensures
        ({
            let replaced = set_config_step(m, Some(c)).0;
            heartbeat_step(replaced).1 == seq![ActionModel::EmitShowConfig(c)]
        }),
{
    let replaced = set_config_step(m, Some(c)).0;
    assert(replaced.orchestrator.config_text == c);
    assert(heartbeat_step(replaced).1 =~= seq![ActionModel::EmitShowConfig(c)]);
}

/// Every event handler preserves well-formedness of the orchestrator state:
/// at any observation point the configuration slot holds one well-formed
/// snapshot and the engine slot one engine built from it.
pub proof fn lemma_steps_preserve_wf(
    m: CoreModel,
    name: Seq<char>,
    payload: Option<Seq<char>>,
    id: Seq<char>,
    label: Seq<char>,
)
    requires
        model_wf(m.orchestrator),
    ensures
        model_wf(ui_event_step(m, name, payload).0.orchestrator),
        model_wf(tray_menu_step(m, id).0.orchestrator),
        model_wf(show_step(m).0.orchestrator),
        model_wf(hide_step(m).0.orchestrator),
        model_wf(quit_step(m).0.orchestrator),
        model_wf(close_request_step(m, label).0.orchestrator),
{
}

} // verus!
