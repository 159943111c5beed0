use slidershim::lifecycle::Visibility;
use slidershim::router::Action;
use slidershim::router::Core;
use slidershim::router::Fault;

fn started() -> Core {
    let (core, actions) = Core::startup(Visibility::Visible);
    assert_eq!(actions, vec![Action::PersistConfig("{}".to_string())]);
    core
}

#[test]
fn startup_persists_default_configuration() {
    let (_core, actions) = Core::startup(Visibility::Hidden);
    assert_eq!(actions, vec![Action::PersistConfig("{}".to_string())]);
}

#[test]
fn heartbeat_emits_current_configuration() {
    let mut core = started();
    let actions = core.on_heartbeat();
    assert_eq!(actions, vec![Action::EmitShowConfig("{}".to_string())]);
}

#[test]
fn heartbeat_leaves_state_unchanged() {
    let mut core = started();
    core.on_heartbeat();
    core.on_heartbeat();
    assert_eq!(
        core.orchestrator.get_current_configuration_text(),
        "{}".to_string()
    );
    assert_eq!(core.visibility, Visibility::Visible);
}

#[test]
fn set_config_with_valid_payload_replaces_and_persists() {
    let mut core = started();
    let actions = core.on_set_config(Some("{\"a\":1}".to_string()));
    assert_eq!(actions, vec![Action::PersistConfig("{\"a\":1}".to_string())]);
    assert_eq!(
        core.orchestrator.get_current_configuration_text(),
        "{\"a\":1}".to_string()
    );
    assert_eq!(core.orchestrator.engine_source_text(), "{\"a\":1}".to_string());
}

#[test]
fn set_config_with_bad_payload_is_silently_ignored() {
    let mut core = started();
    let actions = core.on_set_config(Some("garbage".to_string()));
    assert!(actions.is_empty());
    assert_eq!(
        core.orchestrator.get_current_configuration_text(),
        "{}".to_string()
    );
}

#[test]
fn set_config_without_payload_aborts() {
    let mut core = started();
    let actions = core.on_set_config(None);
    assert_eq!(actions, vec![Action::Abort(Fault::MissingPayload)]);
}

#[test]
fn heartbeat_echoes_replaced_configuration() {
    let mut core = started();
    core.on_set_config(Some("{\"b\":2}".to_string()));
    let actions = core.on_heartbeat();
    assert_eq!(actions, vec![Action::EmitShowConfig("{\"b\":2}".to_string())]);
}

#[test]
fn hide_event_hides_window() {
    let mut core = started();
    let actions = core.on_hide();
    assert_eq!(actions, vec![Action::HideWindow]);
    assert_eq!(core.visibility, Visibility::Hidden);
}

#[test]
fn quit_event_exits() {
    let mut core = started();
    let actions = core.on_quit();
    assert_eq!(actions, vec![Action::Exit]);
}

#[test]
fn tray_left_click_shows_window() {
    let (mut core, _) = Core::startup(Visibility::Hidden);
    let actions = core.on_tray_left_click();
    assert_eq!(actions, vec![Action::ShowWindow]);
    assert_eq!(core.visibility, Visibility::Visible);
}

#[test]
fn tray_menu_show_shows_window() {
    let (mut core, _) = Core::startup(Visibility::Hidden);
    let actions = core.on_tray_menu_item("show");
    assert_eq!(actions, vec![Action::ShowWindow]);
    assert_eq!(core.visibility, Visibility::Visible);
}

#[test]
fn tray_menu_quit_exits() {
    let mut core = started();
    let actions = core.on_tray_menu_item("quit");
    assert_eq!(actions, vec![Action::Exit]);
}

#[test]
fn tray_menu_unknown_item_aborts() {
    let mut core = started();
    let actions = core.on_tray_menu_item("slidershim");
    assert_eq!(actions, vec![Action::Abort(Fault::UnknownMenuItem)]);
}

#[test]
fn close_request_on_main_window_hides_instead_of_closing() {
    let mut core = started();
    let actions = core.on_close_requested("main");
    assert_eq!(actions, vec![Action::PreventClose, Action::HideWindow]);
    assert_eq!(core.visibility, Visibility::Hidden);
    assert!(!actions.contains(&Action::Exit));
}

#[test]
fn close_request_on_other_window_is_not_intercepted() {
    let mut core = started();
    let actions = core.on_close_requested("settings");
    assert!(actions.is_empty());
    assert_eq!(core.visibility, Visibility::Visible);
}

#[test]
fn ui_event_dispatch_by_name() {
    let mut core = started();
    let actions = core.on_ui_event("heartbeat", None);
    assert_eq!(actions, vec![Action::EmitShowConfig("{}".to_string())]);
    let actions = core.on_ui_event("setConfig", Some("{\"c\":3}".to_string()));
    assert_eq!(actions, vec![Action::PersistConfig("{\"c\":3}".to_string())]);
    let actions = core.on_ui_event("hide", None);
    assert_eq!(actions, vec![Action::HideWindow]);
    assert_eq!(core.visibility, Visibility::Hidden);
    let actions = core.on_ui_event("quit", None);
    assert_eq!(actions, vec![Action::Exit]);
}

#[test]
fn unknown_ui_event_is_ignored() {
    let mut core = started();
    let actions = core.on_ui_event("resize", None);
    assert!(actions.is_empty());
    assert_eq!(
        core.orchestrator.get_current_configuration_text(),
        "{}".to_string()
    );
}

#[test]
fn startup_heartbeat_bad_update_then_good_update() {
    let (mut core, startup_actions) = Core::startup(Visibility::Visible);
    assert_eq!(
        startup_actions,
        vec![Action::PersistConfig("{}".to_string())]
    );

    let actions = core.on_ui_event("heartbeat", None);
    assert_eq!(actions, vec![Action::EmitShowConfig("{}".to_string())]);

    let actions = core.on_ui_event("setConfig", Some("garbage".to_string()));
    assert!(actions.is_empty());
    let actions = core.on_ui_event("heartbeat", None);
    assert_eq!(actions, vec![Action::EmitShowConfig("{}".to_string())]);

    let actions = core.on_ui_event("setConfig", Some("{\"d\":4}".to_string()));
    assert_eq!(actions, vec![Action::PersistConfig("{\"d\":4}".to_string())]);
    let actions = core.on_ui_event("heartbeat", None);
    assert_eq!(actions, vec![Action::EmitShowConfig("{\"d\":4}".to_string())]);
}
