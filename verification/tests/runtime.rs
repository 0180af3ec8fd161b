use plugin_runtime::BootOutcome;
use plugin_runtime::BootResponse;
use plugin_runtime::EventBus;
use plugin_runtime::InternalEvent;
use plugin_runtime::InternalEventPayload;
use plugin_runtime::PluginManager;
use plugin_runtime::PluginRegistry;
use plugin_runtime::PluginRuntimeServer;
use plugin_runtime::PluginState;
use plugin_runtime::listen_port;
use plugin_runtime::simplify_plugin_dirs;

fn resp(name: &str, version: &str) -> BootResponse {
    BootResponse { name: name.to_string(), version: version.to_string() }
}

fn boot_event(ref_id: usize, name: &str, version: &str) -> InternalEvent {
    InternalEvent {
        plugin_ref_id: ref_id,
        payload: InternalEventPayload::BootResponse(resp(name, version)),
    }
}

#[test]
fn registry_seeded_all_discovered() {
    let dirs = vec![
        "/plugins/a".to_string(),
        "/plugins/b".to_string(),
        "/plugins/c".to_string(),
    ];
    let reg = PluginRegistry::from_dirs(dirs);
    assert_eq!(reg.len(), 3);
    for id in 0..3 {
        assert_eq!(reg.state_of(id), Some(PluginState::Discovered));
        assert!(reg.boot_response_of(id).is_none());
    }
    assert_eq!(reg.dir_of(0), Some("/plugins/a".to_string()));
    assert_eq!(reg.dir_of(1), Some("/plugins/b".to_string()));
    assert_eq!(reg.dir_of(2), Some("/plugins/c".to_string()));
    assert_eq!(reg.state_of(3), None);
    assert_eq!(reg.dir_of(3), None);
}

#[test]
fn registry_seeded_empty() {
    let reg = PluginRegistry::from_dirs(Vec::new());
    assert_eq!(reg.len(), 0);
    assert_eq!(reg.state_of(0), None);
}

#[test]
fn boot_is_idempotent() {
    let mut reg = PluginRegistry::from_dirs(vec!["/plugins/a".to_string()]);
    let first = resp("a", "1.0");
    let second = resp("other", "9.9");
    assert_eq!(reg.boot(0, &first), BootOutcome::Booted);
    assert_eq!(reg.state_of(0), Some(PluginState::Booted));
    assert_eq!(reg.boot(0, &second), BootOutcome::AlreadyBooted);
    assert_eq!(reg.state_of(0), Some(PluginState::Booted));
    let recorded = reg.boot_response_of(0).unwrap();
    assert_eq!(recorded.name, "a");
    assert_eq!(recorded.version, "1.0");
}

#[test]
fn boot_unknown_ref_is_a_no_op() {
    let mut reg = PluginRegistry::from_dirs(vec!["/plugins/a".to_string()]);
    assert_eq!(reg.boot(7, &resp("ghost", "0.0")), BootOutcome::UnknownRef);
    assert_eq!(reg.len(), 1);
    assert_eq!(reg.state_of(0), Some(PluginState::Discovered));
    assert!(reg.boot_response_of(0).is_none());
}

#[test]
fn boot_after_terminate_is_ignored() {
    let mut reg = PluginRegistry::from_dirs(vec!["/plugins/a".to_string()]);
    reg.terminate_all();
    assert_eq!(reg.state_of(0), Some(PluginState::Terminated));
    assert_eq!(reg.boot(0, &resp("late", "1.0")), BootOutcome::Terminated);
    assert_eq!(reg.state_of(0), Some(PluginState::Terminated));
    assert!(reg.boot_response_of(0).is_none());
}

#[test]
fn connect_then_boot() {
    let mut reg = PluginRegistry::from_dirs(vec!["/plugins/a".to_string()]);
    assert!(reg.connect(0));
    assert_eq!(reg.state_of(0), Some(PluginState::Connected));
    assert!(!reg.connect(0));
    assert_eq!(reg.state_of(0), Some(PluginState::Connected));
    assert!(!reg.connect(9));
    assert_eq!(reg.boot(0, &resp("a", "1.0")), BootOutcome::Booted);
    assert_eq!(reg.state_of(0), Some(PluginState::Booted));
}

#[test]
fn bus_fan_out_full_sequence_per_subscriber() {
    let mut bus = EventBus::new();
    let a = bus.subscribe();
    let b = bus.subscribe();
    bus.publish(&boot_event(0, "e1", "1"));
    let c = bus.subscribe();
    bus.publish(&boot_event(1, "e2", "2"));
    bus.publish(&boot_event(2, "e3", "3"));

    // The fast subscriber drains everything first...
    let got_a: Vec<usize> = (0..3).map(|_| bus.recv(a).unwrap().plugin_ref_id).collect();
    assert_eq!(got_a, vec![0, 1, 2]);
    assert!(bus.recv(a).is_none());

    // ...and the slow one still observes the same full sequence in order.
    let got_b: Vec<usize> = (0..3).map(|_| bus.recv(b).unwrap().plugin_ref_id).collect();
    assert_eq!(got_b, vec![0, 1, 2]);
    assert!(bus.recv(b).is_none());

    // A subscriber only sees what was published while it was subscribed.
    let got_c: Vec<usize> = (0..2).map(|_| bus.recv(c).unwrap().plugin_ref_id).collect();
    assert_eq!(got_c, vec![1, 2]);
    assert!(bus.recv(c).is_none());
}

#[test]
fn bus_publish_without_subscribers_succeeds() {
    let mut bus = EventBus::new();
    bus.publish(&boot_event(0, "nobody", "1"));
    assert!(bus.recv(0).is_none());
}

#[test]
fn unsubscribe_stops_delivery_and_repeats_harmlessly() {
    let mut bus = EventBus::new();
    let a = bus.subscribe();
    let b = bus.subscribe();
    assert!(bus.is_active(a));
    assert!(bus.unsubscribe(a));
    assert!(!bus.is_active(a));
    bus.publish(&boot_event(0, "e1", "1"));
    assert!(bus.recv(a).is_none());
    assert_eq!(bus.recv(b).unwrap().plugin_ref_id, 0);
    // Repeated unsubscribe is a no-op, not an error.
    assert!(!bus.unsubscribe(a));
    // Unknown ids are a no-op too.
    assert!(!bus.unsubscribe(42));
}

#[test]
fn listen_port_fixed_or_ephemeral() {
    assert_eq!(listen_port(Some(5555)), 5555);
    assert_eq!(listen_port(None), 0);
}

#[test]
fn server_routes_boot_response_events() {
    let mut server = PluginRuntimeServer::new(vec![
        "/plugins/a".to_string(),
        "/plugins/b".to_string(),
    ]);
    server.handle_event(&boot_event(1, "b", "2.0"));
    assert_eq!(server.registry.state_of(1), Some(PluginState::Booted));
    assert_eq!(server.registry.state_of(0), Some(PluginState::Discovered));
    // A payload of another kind changes nothing.
    server.handle_event(&InternalEvent { plugin_ref_id: 0, payload: InternalEventPayload::Other });
    assert_eq!(server.registry.state_of(0), Some(PluginState::Discovered));
}

#[test]
fn manager_boot_scenario() {
    let dirs = vec!["/plugins/a".to_string(), "/plugins/b".to_string()];
    let mut manager = PluginManager::new(dirs);
    assert_eq!(manager.plugin_count(), 2);
    assert_eq!(manager.plugin_state(0), Some(PluginState::Discovered));
    assert_eq!(manager.plugin_state(1), Some(PluginState::Discovered));

    // The session for `a` reports its boot response...
    manager.publish(&boot_event(0, "a", "1.0"));
    manager.drain_events();

    // ...so `a` is Booted with that metadata and `b` stays Discovered.
    assert_eq!(manager.plugin_state(0), Some(PluginState::Booted));
    let recorded = manager.plugin_boot_response(0).unwrap();
    assert_eq!(recorded.name, "a");
    assert_eq!(recorded.version, "1.0");
    assert_eq!(manager.plugin_state(1), Some(PluginState::Discovered));
    assert!(manager.plugin_boot_response(1).is_none());
}

#[test]
fn manager_unknown_ref_event_is_dropped() {
    let mut manager = PluginManager::new(vec!["/plugins/a".to_string()]);
    manager.publish(&boot_event(9, "ghost", "0.0"));
    manager.drain_events();
    assert_eq!(manager.plugin_count(), 1);
    assert_eq!(manager.plugin_state(0), Some(PluginState::Discovered));
    assert_eq!(manager.plugin_state(9), None);
}

#[test]
fn cleanup_after_boot_keeps_metadata() {
    let mut manager = PluginManager::new(vec!["/plugins/a".to_string()]);
    manager.publish(&boot_event(0, "a", "1.0"));
    manager.drain_events();
    manager.cleanup();
    assert_eq!(manager.plugin_state(0), Some(PluginState::Terminated));
    let recorded = manager.plugin_boot_response(0).unwrap();
    assert_eq!(recorded.name, "a");
    assert_eq!(recorded.version, "1.0");
}

#[test]
fn cleanup_before_drain_aborts_boot_cleanly() {
    let mut manager = PluginManager::new(vec!["/plugins/a".to_string()]);
    // The boot handshake is in flight: published but not yet routed.
    manager.publish(&boot_event(0, "a", "1.0"));
    manager.cleanup();
    manager.drain_events();
    // The boot was cleanly aborted: terminated, nothing half-recorded.
    assert_eq!(manager.plugin_state(0), Some(PluginState::Terminated));
    assert!(manager.plugin_boot_response(0).is_none());
    // A second cleanup changes nothing further.
    manager.cleanup();
    assert_eq!(manager.plugin_state(0), Some(PluginState::Terminated));
}

#[test]
fn manager_external_subscribers_are_independent() {
    let mut manager = PluginManager::new(vec!["/plugins/a".to_string()]);
    let ext = manager.subscribe();
    manager.publish(&boot_event(0, "a", "1.0"));
    manager.drain_events();
    // Draining the boot router does not consume the external endpoint's copy.
    let seen = manager.recv(ext).unwrap();
    assert_eq!(seen.plugin_ref_id, 0);
    assert!(manager.recv(ext).is_none());
    assert!(manager.unsubscribe(ext));
    manager.publish(&boot_event(0, "again", "2.0"));
    assert!(manager.recv(ext).is_none());
}

#[test]
fn plain_paths_pass_through_unchanged() {
    let dirs = vec![
        "/plugins/a".to_string(),
        "relative/x".to_string(),
        String::new(),
        "C:\\plugins\\a".to_string(),
    ];
    let out = simplify_plugin_dirs(dirs.clone());
    assert_eq!(out, dirs);
}

#[test]
fn verbatim_path_is_either_kept_or_stripped_of_its_prefix() {
    let verbatim = "\\\\?\\C:\\plugins\\a".to_string();
    let out = simplify_plugin_dirs(vec![verbatim.clone()]);
    assert_eq!(out.len(), 1);
    // Stripping happens only where the platform makes it safe; either way
    // the result is the path itself or the path without its verbatim prefix.
    assert!(out[0] == verbatim || out[0] == verbatim[4..]);
}
