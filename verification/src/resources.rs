//! Records describing the engine resources the store keeps track of.

use vstd::prelude::*;

verus! {

/// Lifecycle state of a container, as far as this shell distinguishes it.
#[derive(Clone, Copy, Debug, PartialEq, Eq)]
pub enum ContainerState {
    /// The container is currently running.
    Running,
    /// The container is not running.
    Stopped,
}

impl ContainerState {
    /// Display label for the state.
    pub fn label(&self) -> (r: &'static str)
        ensures
            *self is Running ==> r@ == "Running"@,
            *self is Stopped ==> r@ == "Stopped"@,
    {
        match self {
            ContainerState::Running => "Running",
            ContainerState::Stopped => "Stopped",
        }
    }

    /// CSS class name used to style the state.
    pub fn css_class(&self) -> (r: &'static str)
        ensures
            *self is Running ==> r@ == "running"@,
            *self is Stopped ==> r@ == "stopped"@,
    {
        match self {
            ContainerState::Running => "running",
            ContainerState::Stopped => "stopped",
        }
    }

    /// Label for the action button: the verb that would toggle the state.
    pub fn action_label(&self) -> (r: &'static str)
        ensures
            *self is Running ==> r@ == "Stop"@,
            *self is Stopped ==> r@ == "Start"@,
    {
        match self {
            ContainerState::Running => "Stop",
            ContainerState::Stopped => "Start",
        }
    }
}

/// One container as shown by the shell.
#[derive(Clone, Debug, PartialEq, Eq)]
pub struct ContainerInfo {
    /// Short engine-assigned identifier (at most twelve characters).
    pub id: String,
    /// Human label, without the leading separator the engine reports.
    pub name: String,
    /// Image reference the container was created from.
    pub image: String,
    /// Free-form status text as the engine supplies it.
    pub status: String,
    /// Formatted port mappings, or a sentinel when there are none.
    pub ports: String,
    /// Lifecycle state.
    pub state: ContainerState,
}

/// One image as shown by the shell.
#[derive(Clone, Debug, PartialEq, Eq)]
pub struct ImageInfo {
    /// Content-addressed identifier.
    pub id: String,
    /// Repository name, or a sentinel when the engine reports no tag.
    pub repository: String,
    /// Tag, or a sentinel when the engine reports no tag.
    pub tag: String,
    /// Human-readable size string.
    pub size: String,
}

/// One volume as shown by the shell.
#[derive(Clone, Debug, PartialEq, Eq)]
pub struct VolumeInfo {
    /// Volume name.
    pub name: String,
    /// Driver name.
    pub driver: String,
    /// Mount path on the host.
    pub mountpoint: String,
    /// Size text; the engine does not report volume sizes here, so this
    /// stays a sentinel.
    pub size: String,
}

} // verus!
