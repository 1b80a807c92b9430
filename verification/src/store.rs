//! The state store and its synchronization core.
//!
//! [`AppState`] owns the canonical snapshot of engine resources together
//! with the transient fields the shell shows (last action, last error,
//! loading flag, configured host). The store never talks to the engine
//! itself: a mutation or refresh entry point returns the [`EngineCall`]
//! the caller must make, and the caller hands the outcome back through
//! the matching `apply_*` function. A caller without an engine
//! connection constructs the store unavailable; every entry point then
//! short-circuits to the connection-unavailable error and asks for no
//! call.
//!
//! Refreshes replace a resource list wholesale, so overlapping refreshes
//! of one kind are reconciled last-write-wins, in completion order; see
//! [`lemma_refresh_last_write_wins`].

use vstd::prelude::*;
use vstd::string::StringExecFns;

use crate::engine::text_of;
use crate::resources::ContainerInfo;
use crate::resources::ContainerState;
use crate::resources::ImageInfo;
use crate::resources::VolumeInfo;

verus! {

/// A call the store asks its caller to make against the engine.
#[derive(Clone, Debug, PartialEq, Eq)]
pub enum EngineCall {
    /// List all containers, running and stopped.
    ListContainers,
    /// List all images.
    ListImages,
    /// List all volumes.
    ListVolumes,
    /// Start the container with this id.
    StartContainer(String),
    /// Stop the container with this id.
    StopContainer(String),
}

/// The error shown when no engine connection was established.
pub open spec fn unavailable_text() -> Seq<char> {
    "Docker service not available"@
}

/// The host used when the caller supplies no override.
pub open spec fn default_host_text() -> Seq<char> {
    "unix:///var/run/docker.sock"@
}

/// The error shown when listing containers failed for this cause.
pub open spec fn containers_failed_text(cause: Seq<char>) -> Seq<char> {
    "Failed to list containers: "@ + cause
}

/// The error shown when listing images failed for this cause.
pub open spec fn images_failed_text(cause: Seq<char>) -> Seq<char> {
    "Failed to list images: "@ + cause
}

/// The error shown when listing volumes failed for this cause.
pub open spec fn volumes_failed_text(cause: Seq<char>) -> Seq<char> {
    "Failed to list volumes: "@ + cause
}

/// The error shown when starting a container failed for this cause.
pub open spec fn start_failed_text(cause: Seq<char>) -> Seq<char> {
    "Failed to start container: "@ + cause
}

/// The error shown when stopping a container failed for this cause.
pub open spec fn stop_failed_text(cause: Seq<char>) -> Seq<char> {
    "Failed to stop container: "@ + cause
}

/// The action message after a container was started.
pub open spec fn started_text(id: Seq<char>) -> Seq<char> {
    "Started container "@ + id
}

/// The action message after a container was stopped.
pub open spec fn stopped_text(id: Seq<char>) -> Seq<char> {
    "Stopped container "@ + id
}

/// The store: the current snapshot of engine resources plus the
/// transient fields the shell shows.
#[derive(Clone)]
pub struct AppState {
    /// Configured host string; editing it does not reconnect.
    pub docker_host: String,
    /// Containers, as of the refresh that completed last.
    pub containers: Vec<ContainerInfo>,
    /// Images, as of the refresh that completed last.
    pub images: Vec<ImageInfo>,
    /// Volumes, as of the refresh that completed last.
    pub volumes: Vec<VolumeInfo>,
    /// Feedback message of the most recent user-visible action.
    pub last_action: Option<String>,
    /// Most recent error; a newer error or a success supersedes it.
    pub error_message: Option<String>,
    /// Whether a containers refresh is in flight.
    pub is_loading: bool,
    /// Whether an engine connection was established at construction.
    pub engine_available: bool,
}

/// One short-circuited entry point in degraded mode: the snapshot and
/// every other field kept, only the error set to the
/// connection-unavailable message.
pub open spec fn degraded_step(pre: AppState, post: AppState) -> bool {
    &&& post.docker_host == pre.docker_host
    &&& post.containers == pre.containers
    &&& post.images == pre.images
    &&& post.volumes == pre.volumes
    &&& post.last_action == pre.last_action
    &&& post.is_loading == pre.is_loading
    &&& post.engine_available == pre.engine_available
    &&& text_of(post.error_message) == Some(unavailable_text())
}

/// What dispatching a containers refresh does: with an engine, ask for
/// the list call and raise the loading flag; without one, degrade.
pub open spec fn refresh_containers_dispatch(
    pre: AppState,
    post: AppState,
    call: Option<EngineCall>,
) -> bool {
    if pre.engine_available {
        &&& call == Some(EngineCall::ListContainers)
        &&& post == (AppState { is_loading: true, ..pre })
    } else {
        &&& call is None
        &&& degraded_step(pre, post)
    }
}

/// What dispatching a start does: with an engine, ask for the start
/// call and change nothing; without one, degrade.
pub open spec fn start_dispatch(
    pre: AppState,
    post: AppState,
    id: Seq<char>,
    call: Option<EngineCall>,
) -> bool {
    if pre.engine_available {
        &&& call matches Some(c) && c matches EngineCall::StartContainer(s) && s@ == id
        &&& post == pre
    } else {
        &&& call is None
        &&& degraded_step(pre, post)
    }
}

/// What dispatching a stop does: with an engine, ask for the stop call
/// and change nothing; without one, degrade.
pub open spec fn stop_dispatch(
    pre: AppState,
    post: AppState,
    id: Seq<char>,
    call: Option<EngineCall>,
) -> bool {
    if pre.engine_available {
        &&& call matches Some(c) && c matches EngineCall::StopContainer(s) && s@ == id
        &&& post == pre
    } else {
        &&& call is None
        &&& degraded_step(pre, post)
    }
}

/// A refresh outcome at the specification level: the fetched list, or
/// the cause of the failure.
pub open spec fn refresh_result_view(r: Result<Vec<ContainerInfo>, String>) -> Result<
    Seq<ContainerInfo>,
    Seq<char>,
> {
    match r {
        Ok(d) => Ok(d@),
        Err(e) => Err(e@),
    }
}

/// One refresh completion reconciled into the containers list: a
/// success replaces the list wholesale, a failure leaves it untouched.
pub open spec fn apply_refresh(
    cur: Seq<ContainerInfo>,
    r: Result<Seq<ContainerInfo>, Seq<char>>,
) -> Seq<ContainerInfo> {
    match r {
        Ok(d) => d,
        Err(_) => cur,
    }
}

/// The containers list after a sequence of refresh completions,
/// reconciled in the order they completed.
pub open spec fn apply_refresh_seq(
    init: Seq<ContainerInfo>,
    outcomes: Seq<Result<Seq<ContainerInfo>, Seq<char>>>,
) -> Seq<ContainerInfo>
    decreases outcomes.len(),
{
    if outcomes.len() == 0 {
        init
    } else {
        apply_refresh(apply_refresh_seq(init, outcomes.drop_last()), outcomes.last())
    }
}

/// Whether any completion in the sequence succeeded.
pub open spec fn some_success(outcomes: Seq<Result<Seq<ContainerInfo>, Seq<char>>>) -> bool {
    exists|i: int| 0 <= i < outcomes.len() && outcomes[i] is Ok
}

/// The list fetched by the successful completion that came last.
pub open spec fn last_success(
    outcomes: Seq<Result<Seq<ContainerInfo>, Seq<char>>>,
) -> Seq<ContainerInfo>
    recommends
        some_success(outcomes),
    decreases outcomes.len(),
{
    if outcomes.len() == 0 {
        Seq::empty()
    } else {
        match outcomes.last() {
            Ok(d) => d,
            Err(_) => last_success(outcomes.drop_last()),
        }
    }
}

/// Last write wins: however refresh completions interleave, the
/// containers list ends up as the list fetched by whichever successful
/// completion came last, and stays at its initial value when every
/// completion failed. Completions are reconciled by [`apply_refresh`],
/// exactly as [`AppState::apply_containers_result`] does.
pub proof fn lemma_refresh_last_write_wins(
    init: Seq<ContainerInfo>,
    outcomes: Seq<Result<Seq<ContainerInfo>, Seq<char>>>,
)
    ensures
        some_success(outcomes) ==> apply_refresh_seq(init, outcomes) == last_success(outcomes),
        !some_success(outcomes) ==> apply_refresh_seq(init, outcomes) == init,
    decreases outcomes.len(),
{
    if outcomes.len() == 0 {
    } else {
        let prefix = outcomes.drop_last();
        lemma_refresh_last_write_wins(init, prefix);
        if outcomes.last() is Ok {
            assert(outcomes[outcomes.len() - 1] is Ok);
            assert(some_success(outcomes));
        } else {
            if some_success(outcomes) {
                let i = choose|i: int| 0 <= i < outcomes.len() && outcomes[i] is Ok;
                assert(i < outcomes.len() - 1);
                assert(prefix[i] is Ok);
                assert(some_success(prefix));
            }
            if some_success(prefix) {
                let i = choose|i: int| 0 <= i < prefix.len() && prefix[i] is Ok;
                assert(outcomes[i] is Ok);
                assert(some_success(outcomes));
            }
        }
    }
}

impl AppState {
    /// Creates the store for one session. The caller reports whether an
    /// engine connection was established and may hand in a configured
    /// host; without an override the well-known local socket address is
    /// used. The snapshot starts empty, with no action, no error and no
    /// refresh in flight.
    pub fn new(host_override: Option<String>, engine_available: bool) -> (s: Self)
        ensures
            host_override matches Some(h) ==> s.docker_host@ == h@,
            host_override is None ==> s.docker_host@ == default_host_text(),
            s.containers@ == Seq::<ContainerInfo>::empty(),
            s.images@ == Seq::<ImageInfo>::empty(),
            s.volumes@ == Seq::<VolumeInfo>::empty(),
            s.last_action is None,
            s.error_message is None,
            !s.is_loading,
            s.engine_available == engine_available,
    {
        let docker_host = match host_override {
            Some(h) => h,
            None => "unix:///var/run/docker.sock".to_owned(),
        };
        AppState {
            docker_host,
            containers: Vec::new(),
            images: Vec::new(),
            volumes: Vec::new(),
            last_action: None,
            error_message: None,
            is_loading: false,
            engine_available,
        }
    }

    /// Short-circuits an entry point in degraded mode.
    fn set_unavailable(&mut self)
        ensures
            degraded_step(*old(self), *final(self)),
    {
        self.error_message = Some("Docker service not available".to_owned());
    }

    /// Asks for a containers refresh. With an engine this raises the
    /// loading flag and returns the list call; in degraded mode it only
    /// records the connection-unavailable error.
    pub fn refresh_containers(&mut self) -> (call: Option<EngineCall>)
        ensures
            refresh_containers_dispatch(*old(self), *final(self), call),
    {
        if self.engine_available {
            self.is_loading = true;
            Some(EngineCall::ListContainers)
        } else {
            self.set_unavailable();
            None
        }
    }

    /// Asks for an images refresh. With an engine this changes nothing
    /// and returns the list call; in degraded mode it only records the
    /// connection-unavailable error.
    pub fn refresh_images(&mut self) -> (call: Option<EngineCall>)
        ensures
            old(self).engine_available ==> call == Some(EngineCall::ListImages) && *final(self)
                == *old(self),
            !old(self).engine_available ==> call is None && degraded_step(
                *old(self),
                *final(self),
            ),
    {
        if self.engine_available {
            Some(EngineCall::ListImages)
        } else {
            self.set_unavailable();
            None
        }
    }

    /// Asks for a volumes refresh. With an engine this changes nothing
    /// and returns the list call; in degraded mode it only records the
    /// connection-unavailable error.
    pub fn refresh_volumes(&mut self) -> (call: Option<EngineCall>)
        ensures
            old(self).engine_available ==> call == Some(EngineCall::ListVolumes) && *final(self)
                == *old(self),
            !old(self).engine_available ==> call is None && degraded_step(
                *old(self),
                *final(self),
            ),
    {
        if self.engine_available {
            Some(EngineCall::ListVolumes)
        } else {
            self.set_unavailable();
            None
        }
    }

    /// Asks for independent refreshes of all three resource kinds.
    pub fn refresh_all(&mut self) -> (calls: Vec<EngineCall>)
        ensures
            old(self).engine_available ==> calls@ == seq![
                EngineCall::ListContainers,
                EngineCall::ListImages,
                EngineCall::ListVolumes,
            ] && *final(self) == (AppState { is_loading: true, ..*old(self) }),
            !old(self).engine_available ==> calls@ == Seq::<EngineCall>::empty() && degraded_step(
                *old(self),
                *final(self),
            ),
    {
        let mut calls: Vec<EngineCall> = Vec::new();
        if let Some(c) = self.refresh_containers() {
            calls.push(c);
        }
        if let Some(c) = self.refresh_images() {
            calls.push(c);
        }
        if let Some(c) = self.refresh_volumes() {
            calls.push(c);
        }
        proof {
            if old(self).engine_available {
                assert(calls@ =~= seq![
                    EngineCall::ListContainers,
                    EngineCall::ListImages,
                    EngineCall::ListVolumes,
                ]);
            } else {
                assert(calls@ =~= Seq::<EngineCall>::empty());
            }
        }
        calls
    }

    /// Reconciles a completed containers refresh. A success replaces
    /// the list wholesale, clears the error and drops the loading flag;
    /// a failure leaves the stale list in place and records the cause.
    pub fn apply_containers_result(&mut self, outcome: Result<Vec<ContainerInfo>, String>)
        ensures
            final(self).containers@ == apply_refresh(
                old(self).containers@,
                refresh_result_view(outcome),
            ),
            outcome matches Ok(d) ==> final(self).containers == d && final(self).error_message is None,
            outcome matches Err(e) ==> final(self).containers == old(self).containers && text_of(
                final(self).error_message,
            ) == Some(containers_failed_text(e@)),
            !final(self).is_loading,
            final(self).docker_host == old(self).docker_host,
            final(self).images == old(self).images,
            final(self).volumes == old(self).volumes,
            final(self).last_action == old(self).last_action,
            final(self).engine_available == old(self).engine_available,
    {
        match outcome {
            Ok(data) => {
                self.containers = data;
                self.error_message = None;
            },
            Err(cause) => {
                let mut msg: String = "Failed to list containers: ".to_owned();
                msg.append(cause.as_str());
                self.error_message = Some(msg);
            },
        }
        self.is_loading = false;
    }

    /// Reconciles a completed images refresh; the loading flag tracks
    /// only containers and is left alone.
    pub fn apply_images_result(&mut self, outcome: Result<Vec<ImageInfo>, String>)
        ensures
            outcome matches Ok(d) ==> final(self).images == d && final(self).error_message is None,
            outcome matches Err(e) ==> final(self).images == old(self).images && text_of(
                final(self).error_message,
            ) == Some(images_failed_text(e@)),
            final(self).docker_host == old(self).docker_host,
            final(self).containers == old(self).containers,
            final(self).volumes == old(self).volumes,
            final(self).last_action == old(self).last_action,
            final(self).is_loading == old(self).is_loading,
            final(self).engine_available == old(self).engine_available,
    {
        match outcome {
            Ok(data) => {
                self.images = data;
                self.error_message = None;
            },
            Err(cause) => {
                let mut msg: String = "Failed to list images: ".to_owned();
                msg.append(cause.as_str());
                self.error_message = Some(msg);
            },
        }
    }

    /// Reconciles a completed volumes refresh.
    pub fn apply_volumes_result(&mut self, outcome: Result<Vec<VolumeInfo>, String>)
        ensures
            outcome matches Ok(d) ==> final(self).volumes == d && final(self).error_message is None,
            outcome matches Err(e) ==> final(self).volumes == old(self).volumes && text_of(
                final(self).error_message,
            ) == Some(volumes_failed_text(e@)),
            final(self).docker_host == old(self).docker_host,
            final(self).containers == old(self).containers,
            final(self).images == old(self).images,
            final(self).last_action == old(self).last_action,
            final(self).is_loading == old(self).is_loading,
            final(self).engine_available == old(self).engine_available,
    {
        match outcome {
            Ok(data) => {
                self.volumes = data;
                self.error_message = None;
            },
            Err(cause) => {
                let mut msg: String = "Failed to list volumes: ".to_owned();
                msg.append(cause.as_str());
                self.error_message = Some(msg);
            },
        }
    }

    /// Asks to start the container with this id. The snapshot is never
    /// mutated optimistically: confirmation comes from the refresh that
    /// follows the completed call.
    pub fn start_container(&mut self, id: String) -> (call: Option<EngineCall>)
        ensures
            start_dispatch(*old(self), *final(self), id@, call),
            old(self).engine_available ==> call == Some(EngineCall::StartContainer(id)),
    {
        if self.engine_available {
            Some(EngineCall::StartContainer(id))
        } else {
            self.set_unavailable();
            None
        }
    }

    /// Asks to stop the container with this id.
    pub fn stop_container(&mut self, id: String) -> (call: Option<EngineCall>)
        ensures
            stop_dispatch(*old(self), *final(self), id@, call),
            old(self).engine_available ==> call == Some(EngineCall::StopContainer(id)),
    {
        if self.engine_available {
            Some(EngineCall::StopContainer(id))
        } else {
            self.set_unavailable();
            None
        }
    }

    /// Reconciles a completed start call. A success records the action
    /// message, clears the error and asks for exactly one containers
    /// refresh; a failure records the cause, leaves the last action
    /// alone and asks for nothing.
    ///
    /// Completions only exist for calls the store asked for, and it
    /// asks for them only with an engine available.
    pub fn apply_start_result(&mut self, id: &str, outcome: Result<(), String>) -> (next: Option<
        EngineCall,
    >)
        requires
            old(self).engine_available,
        ensures
            outcome is Ok ==> {
                &&& next == Some(EngineCall::ListContainers)
                &&& text_of(final(self).last_action) == Some(started_text(id@))
                &&& final(self).error_message is None
                &&& final(self).is_loading
            },
            outcome matches Err(e) ==> {
                &&& next is None
                &&& text_of(final(self).error_message) == Some(start_failed_text(e@))
                &&& final(self).last_action == old(self).last_action
                &&& final(self).is_loading == old(self).is_loading
            },
            final(self).containers == old(self).containers,
            final(self).images == old(self).images,
            final(self).volumes == old(self).volumes,
            final(self).docker_host == old(self).docker_host,
            final(self).engine_available == old(self).engine_available,
    {
        match outcome {
            Ok(_) => {
                let mut msg: String = "Started container ".to_owned();
                msg.append(id);
                self.last_action = Some(msg);
                self.error_message = None;
                self.refresh_containers()
            },
            Err(cause) => {
                let mut msg: String = "Failed to start container: ".to_owned();
                msg.append(cause.as_str());
                self.error_message = Some(msg);
                None
            },
        }
    }

    /// Reconciles a completed stop call, like [`Self::apply_start_result`].
    pub fn apply_stop_result(&mut self, id: &str, outcome: Result<(), String>) -> (next: Option<
        EngineCall,
    >)
        requires
            old(self).engine_available,
        ensures
            outcome is Ok ==> {
                &&& next == Some(EngineCall::ListContainers)
                &&& text_of(final(self).last_action) == Some(stopped_text(id@))
                &&& final(self).error_message is None
                &&& final(self).is_loading
            },
            outcome matches Err(e) ==> {
                &&& next is None
                &&& text_of(final(self).error_message) == Some(stop_failed_text(e@))
                &&& final(self).last_action == old(self).last_action
                &&& final(self).is_loading == old(self).is_loading
            },
            final(self).containers == old(self).containers,
            final(self).images == old(self).images,
            final(self).volumes == old(self).volumes,
            final(self).docker_host == old(self).docker_host,
            final(self).engine_available == old(self).engine_available,
    {
        match outcome {
            Ok(_) => {
                let mut msg: String = "Stopped container ".to_owned();
                msg.append(id);
                self.last_action = Some(msg);
                self.error_message = None;
                self.refresh_containers()
            },
            Err(cause) => {
                let mut msg: String = "Failed to stop container: ".to_owned();
                msg.append(cause.as_str());
                self.error_message = Some(msg);
                None
            },
        }
    }

    /// Dispatches the one mutation entry point the shell calls: a
    /// target of running starts the container, a target of stopped
    /// stops it, each exactly as the direct entry point would.
    pub fn set_container_state(&mut self, id: &str, next_state: ContainerState) -> (call: Option<
        EngineCall,
    >)
        ensures
            next_state is Running ==> start_dispatch(*old(self), *final(self), id@, call),
            next_state is Stopped ==> stop_dispatch(*old(self), *final(self), id@, call),
    {
        match next_state {
            ContainerState::Running => self.start_container(id.to_owned()),
            ContainerState::Stopped => self.stop_container(id.to_owned()),
        }
    }

    /// Records a user-visible action that made no engine call; the
    /// snapshot and the error are left alone.
    pub fn record_action(&mut self, message: String)
        ensures
            text_of(final(self).last_action) == Some(message@),
            final(self).error_message == old(self).error_message,
            final(self).containers == old(self).containers,
            final(self).images == old(self).images,
            final(self).volumes == old(self).volumes,
            final(self).docker_host == old(self).docker_host,
            final(self).is_loading == old(self).is_loading,
            final(self).engine_available == old(self).engine_available,
    {
        self.last_action = Some(message);
    }
}

} // verus!
