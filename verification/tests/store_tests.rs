use doctainr::resources::ContainerInfo;
use doctainr::resources::ContainerState;
use doctainr::resources::ImageInfo;
use doctainr::resources::VolumeInfo;
use doctainr::store::AppState;
use doctainr::store::EngineCall;

fn record(id: &str, state: ContainerState) -> ContainerInfo {
    ContainerInfo {
        id: id.to_string(),
        name: id.to_string(),
        image: "img".to_string(),
        status: "status".to_string(),
        ports: "--".to_string(),
        state,
    }
}

#[test]
fn new_store_uses_default_host_and_empty_snapshot() {
    let store = AppState::new(None, true);
    assert_eq!(store.docker_host, "unix:///var/run/docker.sock");
    assert!(store.containers.is_empty());
    assert!(store.images.is_empty());
    assert!(store.volumes.is_empty());
    assert_eq!(store.last_action, None);
    assert_eq!(store.error_message, None);
    assert!(!store.is_loading);

    let other = AppState::new(Some("tcp://localhost:2375".to_string()), true);
    assert_eq!(other.docker_host, "tcp://localhost:2375");
}

#[test]
fn refresh_containers_asks_for_the_list_call() {
    let mut store = AppState::new(None, true);
    let call = store.refresh_containers();
    assert_eq!(call, Some(EngineCall::ListContainers));
    assert!(store.is_loading);
    assert_eq!(store.error_message, None);
}

#[test]
fn refresh_all_asks_for_all_three_calls() {
    let mut store = AppState::new(None, true);
    let calls = store.refresh_all();
    assert_eq!(
        calls,
        vec![EngineCall::ListContainers, EngineCall::ListImages, EngineCall::ListVolumes]
    );
}

#[test]
fn degraded_mode_short_circuits_every_entry_point() {
    let mut store = AppState::new(None, false);
    store.containers.push(record("c1", ContainerState::Stopped));
    let snapshot = store.containers.clone();

    assert_eq!(store.refresh_containers(), None);
    assert_eq!(store.refresh_images(), None);
    assert_eq!(store.refresh_volumes(), None);
    assert_eq!(store.start_container("c1".to_string()), None);
    assert_eq!(store.stop_container("c1".to_string()), None);
    assert_eq!(store.refresh_all(), vec![]);

    assert_eq!(store.containers, snapshot);
    assert!(store.images.is_empty());
    assert!(store.volumes.is_empty());
    assert_eq!(store.error_message, Some("Docker service not available".to_string()));
    assert_eq!(store.last_action, None);
}

#[test]
fn refresh_completion_replaces_the_list_wholesale() {
    let mut store = AppState::new(None, true);
    store.refresh_containers();
    let fetched = vec![record("c1", ContainerState::Running)];
    store.apply_containers_result(Ok(fetched.clone()));
    assert_eq!(store.containers, fetched);
    assert_eq!(store.error_message, None);
    assert!(!store.is_loading);
}

#[test]
fn overlapping_refreshes_reconcile_last_write_wins() {
    let mut store = AppState::new(None, true);
    let first = vec![record("c1", ContainerState::Running)];
    let second = vec![record("c2", ContainerState::Stopped), record("c3", ContainerState::Running)];

    // Two refreshes were dispatched back to back; whichever completes
    // last determines the list, regardless of dispatch order.
    store.refresh_containers();
    store.refresh_containers();
    store.apply_containers_result(Ok(first));
    store.apply_containers_result(Ok(second.clone()));
    assert_eq!(store.containers, second);

    // A failure that completes after a success leaves the newest
    // successful list in place.
    store.apply_containers_result(Err("timeout".to_string()));
    assert_eq!(store.containers, second);
    assert_eq!(store.error_message, Some("Failed to list containers: timeout".to_string()));
}

#[test]
fn failed_refresh_keeps_stale_list_and_records_cause() {
    let mut store = AppState::new(None, true);
    store.apply_containers_result(Ok(vec![record("c1", ContainerState::Running)]));
    store.refresh_containers();
    store.apply_containers_result(Err("socket closed".to_string()));
    assert_eq!(store.containers, vec![record("c1", ContainerState::Running)]);
    assert_eq!(store.error_message, Some("Failed to list containers: socket closed".to_string()));
    assert!(!store.is_loading);
}

#[test]
fn image_and_volume_completions_mirror_containers() {
    let mut store = AppState::new(None, true);
    let image = ImageInfo {
        id: "sha256:1".to_string(),
        repository: "nginx".to_string(),
        tag: "latest".to_string(),
        size: "1.0MB".to_string(),
    };
    store.apply_images_result(Ok(vec![image.clone()]));
    assert_eq!(store.images, vec![image]);
    assert_eq!(store.error_message, None);

    store.apply_images_result(Err("boom".to_string()));
    assert_eq!(store.error_message, Some("Failed to list images: boom".to_string()));

    let volume = VolumeInfo {
        name: "data".to_string(),
        driver: "local".to_string(),
        mountpoint: "/mnt/data".to_string(),
        size: "--".to_string(),
    };
    store.apply_volumes_result(Ok(vec![volume.clone()]));
    assert_eq!(store.volumes, vec![volume]);
    assert_eq!(store.error_message, None);

    store.apply_volumes_result(Err("boom".to_string()));
    assert_eq!(store.error_message, Some("Failed to list volumes: boom".to_string()));
}

#[test]
fn start_success_triggers_exactly_one_refresh() {
    let mut store = AppState::new(None, true);
    let call = store.start_container("c1".to_string());
    assert_eq!(call, Some(EngineCall::StartContainer("c1".to_string())));

    let next = store.apply_start_result("c1", Ok(()));
    assert_eq!(next, Some(EngineCall::ListContainers));
    assert_eq!(store.last_action, Some("Started container c1".to_string()));
    assert_eq!(store.error_message, None);
    assert!(store.is_loading);
}

#[test]
fn start_failure_triggers_no_refresh() {
    let mut store = AppState::new(None, true);
    store.start_container("c1".to_string());
    let next = store.apply_start_result("c1", Err("no such container".to_string()));
    assert_eq!(next, None);
    assert_eq!(
        store.error_message,
        Some("Failed to start container: no such container".to_string())
    );
    assert_eq!(store.last_action, None);
    assert!(!store.is_loading);
}

#[test]
fn stop_completions_mirror_start() {
    let mut store = AppState::new(None, true);
    let call = store.stop_container("c9".to_string());
    assert_eq!(call, Some(EngineCall::StopContainer("c9".to_string())));

    let next = store.apply_stop_result("c9", Ok(()));
    assert_eq!(next, Some(EngineCall::ListContainers));
    assert_eq!(store.last_action, Some("Stopped container c9".to_string()));

    let next = store.apply_stop_result("c9", Err("boom".to_string()));
    assert_eq!(next, None);
    assert_eq!(store.error_message, Some("Failed to stop container: boom".to_string()));
}

#[test]
fn set_container_state_matches_the_direct_entry_points() {
    let mut via_dispatch = AppState::new(None, true);
    let mut direct = AppState::new(None, true);
    let c1 = via_dispatch.set_container_state("c1", ContainerState::Running);
    let c2 = direct.start_container("c1".to_string());
    assert_eq!(c1, c2);
    assert_eq!(via_dispatch.last_action, direct.last_action);
    assert_eq!(via_dispatch.error_message, direct.error_message);
    assert_eq!(via_dispatch.containers, direct.containers);
    assert_eq!(via_dispatch.is_loading, direct.is_loading);

    let c1 = via_dispatch.set_container_state("c1", ContainerState::Stopped);
    let c2 = direct.stop_container("c1".to_string());
    assert_eq!(c1, c2);

    let mut degraded_dispatch = AppState::new(None, false);
    let mut degraded_direct = AppState::new(None, false);
    let c1 = degraded_dispatch.set_container_state("c1", ContainerState::Running);
    let c2 = degraded_direct.start_container("c1".to_string());
    assert_eq!(c1, c2);
    assert_eq!(degraded_dispatch.error_message, degraded_direct.error_message);
}

#[test]
fn record_action_touches_only_last_action() {
    let mut store = AppState::new(None, true);
    store.apply_containers_result(Err("boom".to_string()));
    let error_before = store.error_message.clone();
    let snapshot_before = store.containers.clone();

    store.record_action("Settings saved".to_string());
    assert_eq!(store.last_action, Some("Settings saved".to_string()));
    assert_eq!(store.error_message, error_before);
    assert_eq!(store.containers, snapshot_before);
}

#[test]
fn start_scenario_for_a_stopped_container() {
    let mut store = AppState::new(None, true);
    store.apply_containers_result(Ok(vec![record("c1", ContainerState::Stopped)]));

    let call = store.set_container_state("c1", ContainerState::Running);
    assert_eq!(call, Some(EngineCall::StartContainer("c1".to_string())));

    let next = store.apply_start_result("c1", Ok(()));
    assert_eq!(next, Some(EngineCall::ListContainers));
    assert_eq!(store.last_action, Some("Started container c1".to_string()));

    store.apply_containers_result(Ok(vec![record("c1", ContainerState::Running)]));
    assert_eq!(store.containers, vec![record("c1", ContainerState::Running)]);
}
