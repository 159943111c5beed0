//! The runtime state orchestrator.
//!
//! It owns the two pieces of process-wide state: the configuration slot and
//! the bridging-engine slot.  Each slot holds exactly one value after
//! start-up and is only ever replaced wholesale, never partially mutated.
//! The orchestrator is purely reactive: it never initiates calls, it only
//! answers reads and replacements issued by the event router.
//!
//! The bridging engine itself (the unit doing the device I/O) is external to
//! this core; what the orchestrator tracks of it is the model an observer can
//! rely on: which configuration snapshot the engine was built from, and its
//! identity, so that "the engine was replaced" and "the engine was kept" are
//! distinguishable statements.

use crate::config::Config;
use crate::config::default_text;
use crate::config::lemma_default_text_valid;
use crate::config::valid_config_text;
use vstd::prelude::*;

verus! {

/// The bridging engine, as the orchestrator sees it: a stateful unit built
/// from exactly one configuration snapshot, taken by value.  The ghost
/// identity tells instances apart beyond equality of their fields; the
/// orchestrator hands out a fresh identity for every construction.
pub struct Engine {
    source_text: String,
    id: Ghost<nat>,
}

/// The orchestrator's abstract state.
#[verifier::ext_equal]
pub struct OrchestratorModel {
    /// Canonical text of the configuration currently in the configuration slot.
    pub config_text: Seq<char>,
    /// Canonical text of the snapshot the current engine was built from.
    pub engine_source: Seq<char>,
    /// Identity of the current engine instance.
    pub engine_id: nat,
    /// Source of fresh engine identities; all identities handed out so far
    /// are below it.
    pub next_id: nat,
}

/// Well-formedness of the orchestrator state, established at start-up and
/// preserved by every operation: the configuration slot holds a well-formed
/// text, the engine in the engine slot was built from exactly that snapshot,
/// and the engine's identity has not been handed out twice.
pub open spec fn model_wf(m: OrchestratorModel) -> bool {
    &&& valid_config_text(m.config_text)
    &&& m.engine_source == m.config_text
    &&& m.engine_id < m.next_id
}

/// The state right after start-up: the default configuration is installed and
/// the first engine, built from it, sits in the engine slot.
pub open spec fn initial_model() -> OrchestratorModel {
    OrchestratorModel {
        config_text: default_text(),
        engine_source: default_text(),
        engine_id: 0,
        next_id: 1,
    }
}

/// The state after a replacement request with text `raw`: if `raw` is a
/// well-formed configuration text, both slots are replaced wholesale -- the
/// configuration with the parsed snapshot, the engine with a freshly built
/// instance -- and otherwise the request is a complete no-op.
pub open spec fn after_replace(m: OrchestratorModel, raw: Seq<char>) -> OrchestratorModel {
    if valid_config_text(raw) {
        OrchestratorModel {
            config_text: raw,
            engine_source: raw,
            engine_id: m.next_id,
            next_id: m.next_id + 1,
        }
    } else {
        m
    }
}

/// The two guarded slots.  The configuration slot always holds exactly one
/// snapshot, the engine slot exactly one engine: holding them as plain fields
/// rules out an empty or doubly-occupied slot by construction.
pub struct Orchestrator {
    config: Config,
    engine: Engine,
    next_id: Ghost<nat>,
}

impl View for Orchestrator {
    type V = OrchestratorModel;

    closed spec fn view(&self) -> OrchestratorModel {
        OrchestratorModel {
            config_text: self.config@,
            engine_source: self.engine.source_text@,
            engine_id: self.engine.id@,
            next_id: self.next_id@,
        }
    }
}

impl Orchestrator {
    pub open spec fn wf(&self) -> bool {
        model_wf(self@)
    }

    /// Start-up initialization, run exactly once before any event is
    /// processed: installs the default configuration and an engine built
    /// from that same snapshot.  (Persisting the initial snapshot is the
    /// caller's step; see the router's start-up action.)
    pub fn startup() -> (o: Orchestrator)
        ensures
            o.wf(),
            o@ == initial_model(),
    {
        proof {
            lemma_default_text_valid();
        }
        let config = Config::default();
        let source_text = config.to_text();
        let o = Orchestrator {
            config,
            engine: Engine { source_text, id: Ghost(0nat) },
            next_id: Ghost(1nat),
        };
        proof {
            assert(o@ =~= initial_model());
        }
        o
    }

    /// Returns the canonical serialization of the configuration currently in
    /// the configuration slot.  Reading never changes the state and never
    /// fails.
    pub fn get_current_configuration_text(&self) -> (t: String)
        ensures
            t@ == self@.config_text,
    {
        self.config.to_text()
    }

    /// Canonical text of the snapshot the current engine was built from.
    pub fn engine_source_text(&self) -> (t: String)
        ensures
            t@ == self@.engine_source,
    {
        self.engine.source_text.clone()
    }

    /// Attempts to parse `raw` and, on success, replaces both slots as a
    /// unit: the new snapshot goes into the configuration slot, then the old
    /// engine is discarded and a freshly built one -- constructed from the
    /// new snapshot, by value -- is installed.  On parse failure the call is
    /// a complete no-op: both slots, including the engine instance's
    /// identity, are left untouched.
    pub fn replace_configuration(&mut self, raw: &str) -> (ok: bool)
        requires
            old(self).wf(),
        ensures
            final(self).wf(),
            ok == valid_config_text(raw@),
            final(self)@ == after_replace(old(self)@, raw@),
    {
        match Config::parse(raw) {
            Some(new_config) => {
                self.config = new_config;
                // Replacing the engine field drops the previous instance:
                // the old engine is never alive alongside the installed one.
                let source_text = self.config.to_text();
                self.engine = Engine { source_text, id: Ghost(self.next_id@) };
                self.next_id = Ghost(self.next_id@ + 1);
                proof {
                    assert(self@ =~= after_replace(old(self)@, raw@));
                }
                true
            },
            None => false,
        }
    }
}

} // verus!
