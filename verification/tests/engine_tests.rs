use doctainr::engine::EngineContainer;
use doctainr::engine::EngineImage;
use doctainr::engine::EnginePort;
use doctainr::engine::EngineVolume;
use doctainr::engine::container_from_engine;
use doctainr::engine::display_name;
use doctainr::engine::format_ports;
use doctainr::engine::image_from_engine;
use doctainr::engine::short_id;
use doctainr::engine::split_repo_tag;
use doctainr::engine::state_from_engine;
use doctainr::engine::volume_from_engine;
use doctainr::resources::ContainerState;

#[test]
fn state_word_running_maps_to_running() {
    let running = state_from_engine(&Some("running".to_string()));
    assert_eq!(running, ContainerState::Running);
}

#[test]
fn other_state_words_map_to_stopped() {
    assert_eq!(state_from_engine(&Some("exited".to_string())), ContainerState::Stopped);
    assert_eq!(state_from_engine(&Some("paused".to_string())), ContainerState::Stopped);
    assert_eq!(state_from_engine(&Some("Running".to_string())), ContainerState::Stopped);
    assert_eq!(state_from_engine(&Some(String::new())), ContainerState::Stopped);
    assert_eq!(state_from_engine(&None), ContainerState::Stopped);
}

#[test]
fn short_id_truncates_to_twelve_characters() {
    let full = "0123456789abcdef0123456789abcdef".to_string();
    assert_eq!(short_id(&Some(full)), "0123456789ab");
    assert_eq!(short_id(&Some("abc".to_string())), "abc");
    assert_eq!(short_id(&None), "unknown");
}

#[test]
fn display_name_strips_leading_separator() {
    assert_eq!(display_name(&Some(vec!["/web".to_string()])), "web");
    assert_eq!(display_name(&Some(vec!["//deep".to_string()])), "deep");
    assert_eq!(display_name(&Some(vec!["plain".to_string()])), "plain");
    assert_eq!(display_name(&Some(vec![])), "unnamed");
    assert_eq!(display_name(&None), "unnamed");
}

#[test]
fn ports_join_with_comma_and_space() {
    let ports = vec![
        EnginePort { public_port: Some(8080), private_port: 80 },
        EnginePort { public_port: None, private_port: 5432 },
    ];
    assert_eq!(format_ports(&Some(ports)), "8080:80, 5432");
    assert_eq!(format_ports(&Some(vec![])), "--");
    assert_eq!(format_ports(&None), "--");
}

#[test]
fn repo_tag_split_on_first_colons() {
    let (repo, tag) = split_repo_tag(&vec!["nginx:latest".to_string()]);
    assert_eq!(repo, "nginx");
    assert_eq!(tag, "latest");

    let (repo, tag) = split_repo_tag(&vec!["nginx".to_string()]);
    assert_eq!(repo, "nginx");
    assert_eq!(tag, "<none>");

    let (repo, tag) = split_repo_tag(&vec![]);
    assert_eq!(repo, "<none>");
    assert_eq!(tag, "<none>");

    // Only the pieces around the first and second separators count.
    let (repo, tag) = split_repo_tag(&vec!["registry:5000/img:tag".to_string()]);
    assert_eq!(repo, "registry");
    assert_eq!(tag, "5000/img");
}

#[test]
fn container_record_from_engine_entry() {
    let entry = EngineContainer {
        id: Some("0123456789abcdef".to_string()),
        names: Some(vec!["/web".to_string()]),
        image: Some("nginx:latest".to_string()),
        status: Some("Up 2 hours".to_string()),
        ports: Some(vec![EnginePort { public_port: Some(8080), private_port: 80 }]),
        state: Some("running".to_string()),
    };
    let info = container_from_engine(&entry);
    assert_eq!(info.id, "0123456789ab");
    assert_eq!(info.name, "web");
    assert_eq!(info.image, "nginx:latest");
    assert_eq!(info.status, "Up 2 hours");
    assert_eq!(info.ports, "8080:80");
    assert_eq!(info.state, ContainerState::Running);
}

#[test]
fn container_record_falls_back_to_sentinels() {
    let entry = EngineContainer {
        id: None,
        names: None,
        image: None,
        status: None,
        ports: None,
        state: None,
    };
    let info = container_from_engine(&entry);
    assert_eq!(info.id, "unknown");
    assert_eq!(info.name, "unnamed");
    assert_eq!(info.image, "unknown");
    assert_eq!(info.status, "unknown");
    assert_eq!(info.ports, "--");
    assert_eq!(info.state, ContainerState::Stopped);
}

#[test]
fn image_record_from_engine_entry() {
    let entry = EngineImage {
        id: "sha256:deadbeef".to_string(),
        repo_tags: vec!["nginx:latest".to_string()],
        size: 1048576,
    };
    let info = image_from_engine(&entry);
    assert_eq!(info.id, "sha256:deadbeef");
    assert_eq!(info.repository, "nginx");
    assert_eq!(info.tag, "latest");
    assert_eq!(info.size, "1.0MB");
}

#[test]
fn volume_record_size_is_a_sentinel() {
    let entry = EngineVolume {
        name: "data".to_string(),
        driver: "local".to_string(),
        mountpoint: "/var/lib/docker/volumes/data".to_string(),
    };
    let info = volume_from_engine(&entry);
    assert_eq!(info.name, "data");
    assert_eq!(info.driver, "local");
    assert_eq!(info.mountpoint, "/var/lib/docker/volumes/data");
    assert_eq!(info.size, "--");
}
