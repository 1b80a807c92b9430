use doctainr::resources::ContainerState;

#[test]
fn container_state_labels_match() {
    assert_eq!(ContainerState::Running.label(), "Running");
    assert_eq!(ContainerState::Stopped.label(), "Stopped");
}

#[test]
fn container_state_css_classes() {
    assert_eq!(ContainerState::Running.css_class(), "running");
    assert_eq!(ContainerState::Stopped.css_class(), "stopped");
}

#[test]
fn container_state_action_labels_toggle() {
    assert_eq!(ContainerState::Running.action_label(), "Stop");
    assert_eq!(ContainerState::Stopped.action_label(), "Start");
}
