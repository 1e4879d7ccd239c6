//! Starting the backend: one launch attempt, as a state machine.
//!
//! An attempt resolves the resource directory, checks that the executable is
//! there, resolves and creates the data directory, and spawns the process, in
//! that order. The first step that fails ends the attempt; nothing is
//! retried. The caller asks [`Launcher::pending`] what to do, does it, and
//! reports how it went with [`Launcher::step`], until the pending request is
//! [`LaunchRequest::Finish`].

use vstd::prelude::*;
use vstd::string::*;
use crate::endpoint::{BACKEND_HOST, BACKEND_PORT};
use crate::locator::{
    backend_dir,
    backend_exe_path,
    confirm_executable,
    not_found_text,
    unresolved_text,
    Platform,
};
use crate::text::{completion, decimal, decimal_string, text_result};

verus! {

/// The variable that tells the backend where to keep its data.
pub const DATA_DIR_VAR: &'static str = "DATA_DIR";

/// The variable that tells the backend which port to listen on.
pub const PORT_VAR: &'static str = "PORT";

/// The variable that tells the backend which host to listen on.
pub const HOST_VAR: &'static str = "HOST";

/// One variable of the backend's environment.
#[derive(Debug, PartialEq, Eq)]
pub struct EnvVar {
    pub name: String,
    pub value: String,
}

impl View for EnvVar {
    type V = (Seq<char>, Seq<char>);

    open spec fn view(&self) -> (Seq<char>, Seq<char>) {
        (self.name@, self.value@)
    }
}

/// How the backend process is to be started.
#[derive(Debug, PartialEq, Eq)]
pub struct LaunchPlan {
    /// The program to run.
    pub executable: String,
    /// The directory the process starts in.
    pub working_dir: String,
    /// The variables added to the process's environment, in order.
    pub env: Vec<EnvVar>,
}

/// [`LaunchPlan`] over mathematical strings.
pub struct LaunchPlanView {
    pub executable: Seq<char>,
    pub working_dir: Seq<char>,
    pub env: Seq<(Seq<char>, Seq<char>)>,
}

impl View for LaunchPlan {
    type V = LaunchPlanView;

    open spec fn view(&self) -> LaunchPlanView {
        LaunchPlanView {
            executable: self.executable@,
            working_dir: self.working_dir@,
            env: self.env@.map_values(|var: EnvVar| var@),
        }
    }
}

/// The backend's environment: its data directory, port and host.
pub open spec fn environment_of(data_dir: Seq<char>) -> Seq<(Seq<char>, Seq<char>)> {
    seq![
        (DATA_DIR_VAR@, data_dir),
        (PORT_VAR@, decimal(BACKEND_PORT as nat)),
        (HOST_VAR@, BACKEND_HOST@),
    ]
}

/// The plan that starts `executable` in `working_dir` with its data below
/// `data_dir`.
pub open spec fn plan_of(
    executable: Seq<char>,
    working_dir: Seq<char>,
    data_dir: Seq<char>,
) -> LaunchPlanView {
    LaunchPlanView { executable, working_dir, env: environment_of(data_dir) }
}

/// The diagnostic for a data directory that could not be resolved.
pub open spec fn data_dir_unresolved_text(cause: Seq<char>) -> Seq<char> {
    "Failed to resolve app data dir: "@ + cause
}

/// The diagnostic for a data directory that could not be created.
pub open spec fn data_dir_uncreated_text(cause: Seq<char>) -> Seq<char> {
    "Failed to create data dir: "@ + cause
}

/// The diagnostic for a process that could not be started.
pub open spec fn spawn_failed_text(cause: Seq<char>) -> Seq<char> {
    "Failed to spawn backend: "@ + cause
}

/// How a step of the attempt went, as reported by the caller.
#[derive(Debug, PartialEq, Eq)]
pub enum LaunchEvent {
    /// The resource directory, or why it is not known.
    ResourceDirResolved(Result<String, String>),
    /// Whether the executable is on disk.
    ExecutableChecked { exists: bool },
    /// The application's data directory, or why it is not known.
    DataDirResolved(Result<String, String>),
    /// The data directory is there now, or why it is not.
    DataDirCreated(Result<(), String>),
    /// The process runs now, or why it does not.
    SpawnAttempted(Result<(), String>),
}

/// [`LaunchEvent`] over mathematical strings.
pub enum LaunchEventView {
    ResourceDirResolved(Result<Seq<char>, Seq<char>>),
    ExecutableChecked { exists: bool },
    DataDirResolved(Result<Seq<char>, Seq<char>>),
    DataDirCreated(Result<(), Seq<char>>),
    SpawnAttempted(Result<(), Seq<char>>),
}

impl LaunchEventView {
    /// The report that the executable is on disk.
    pub open spec fn found_executable(self) -> bool {
        self matches LaunchEventView::ExecutableChecked { exists: true }
    }
}

impl View for LaunchEvent {
    type V = LaunchEventView;

    open spec fn view(&self) -> LaunchEventView {
        match self {
            LaunchEvent::ResourceDirResolved(resolved) => LaunchEventView::ResourceDirResolved(
                text_result(*resolved),
            ),
            LaunchEvent::ExecutableChecked { exists } => LaunchEventView::ExecutableChecked {
                exists: *exists,
            },
            LaunchEvent::DataDirResolved(resolved) => LaunchEventView::DataDirResolved(
                text_result(*resolved),
            ),
            LaunchEvent::DataDirCreated(created) => LaunchEventView::DataDirCreated(
                completion(*created),
            ),
            LaunchEvent::SpawnAttempted(spawned) => LaunchEventView::SpawnAttempted(
                completion(*spawned),
            ),
        }
    }
}

/// What the caller is to do next.
#[derive(Debug, PartialEq, Eq)]
pub enum LaunchRequest {
    /// Resolve the bundled-resource directory; report `ResourceDirResolved`.
    ResolveResourceDir,
    /// Look whether `path` exists on disk; report `ExecutableChecked`.
    CheckExecutable { path: String },
    /// Resolve the application's data directory; report `DataDirResolved`.
    ResolveDataDir,
    /// Create `path` and its parents unless they exist; report
    /// `DataDirCreated`.
    CreateDataDir { path: String },
    /// Start the process and do not wait for it; report `SpawnAttempted`.
    Spawn(LaunchPlan),
    /// The attempt is over: the process runs, or the diagnostic why not.
    Finish(Result<(), String>),
}

/// [`LaunchRequest`] over mathematical strings.
pub enum LaunchRequestView {
    ResolveResourceDir,
    CheckExecutable { path: Seq<char> },
    ResolveDataDir,
    CreateDataDir { path: Seq<char> },
    Spawn(LaunchPlanView),
    Finish(Result<(), Seq<char>>),
}

impl View for LaunchRequest {
    type V = LaunchRequestView;

    open spec fn view(&self) -> LaunchRequestView {
        match self {
            LaunchRequest::ResolveResourceDir => LaunchRequestView::ResolveResourceDir,
            LaunchRequest::CheckExecutable { path } => LaunchRequestView::CheckExecutable {
                path: path@,
            },
            LaunchRequest::ResolveDataDir => LaunchRequestView::ResolveDataDir,
            LaunchRequest::CreateDataDir { path } => LaunchRequestView::CreateDataDir {
                path: path@,
            },
            LaunchRequest::Spawn(plan) => LaunchRequestView::Spawn(plan@),
            LaunchRequest::Finish(result) => LaunchRequestView::Finish(completion(*result)),
        }
    }
}

/// Where a launch attempt stands.
#[derive(Debug, PartialEq, Eq)]
pub enum Launcher {
    ResolvingResourceDir { platform: Platform },
    CheckingExecutable { executable: String, working_dir: String },
    ResolvingDataDir { executable: String, working_dir: String },
    CreatingDataDir { executable: String, working_dir: String, data_dir: String },
    Spawning { executable: String, working_dir: String, data_dir: String },
    Spawned,
    Failed { diagnostic: String },
}

/// [`Launcher`] over mathematical strings.
pub enum LauncherView {
    ResolvingResourceDir { platform: Platform },
    CheckingExecutable { executable: Seq<char>, working_dir: Seq<char> },
    ResolvingDataDir { executable: Seq<char>, working_dir: Seq<char> },
    CreatingDataDir { executable: Seq<char>, working_dir: Seq<char>, data_dir: Seq<char> },
    Spawning { executable: Seq<char>, working_dir: Seq<char>, data_dir: Seq<char> },
    Spawned,
    Failed { diagnostic: Seq<char> },
}

impl View for Launcher {
    type V = LauncherView;

    open spec fn view(&self) -> LauncherView {
        match self {
            Launcher::ResolvingResourceDir { platform } => LauncherView::ResolvingResourceDir {
                platform: *platform,
            },
            Launcher::CheckingExecutable {
                executable,
                working_dir,
            } => LauncherView::CheckingExecutable {
                executable: executable@,
                working_dir: working_dir@,
            },
            Launcher::ResolvingDataDir {
                executable,
                working_dir,
            } => LauncherView::ResolvingDataDir {
                executable: executable@,
                working_dir: working_dir@,
            },
            Launcher::CreatingDataDir {
                executable,
                working_dir,
                data_dir,
            } => LauncherView::CreatingDataDir {
                executable: executable@,
                working_dir: working_dir@,
                data_dir: data_dir@,
            },
            Launcher::Spawning { executable, working_dir, data_dir } => LauncherView::Spawning {
                executable: executable@,
                working_dir: working_dir@,
                data_dir: data_dir@,
            },
            Launcher::Spawned => LauncherView::Spawned,
            Launcher::Failed { diagnostic } => LauncherView::Failed { diagnostic: diagnostic@ },
        }
    }
}

impl LauncherView {
    /// An attempt of which nothing has been done yet.
    pub open spec fn initial(platform: Platform) -> LauncherView {
        LauncherView::ResolvingResourceDir { platform }
    }

    /// The attempt is over.
    pub open spec fn finished(self) -> bool {
        self is Spawned || self is Failed
    }

    /// The state after `event`. An event that does not answer the pending
    /// request changes nothing.
    pub open spec fn next(self, event: LaunchEventView) -> LauncherView {
        match (self, event) {
            (
                LauncherView::ResolvingResourceDir { platform },
                LaunchEventView::ResourceDirResolved(resolved),
            ) => match resolved {
                Ok(dir) => LauncherView::CheckingExecutable {
                    executable: platform.backend_exe_path(dir),
                    working_dir: platform.backend_dir(dir),
                },
                Err(cause) => LauncherView::Failed { diagnostic: unresolved_text(cause) },
            },
            (
                LauncherView::CheckingExecutable { executable, working_dir },
                LaunchEventView::ExecutableChecked { exists },
            ) => if exists {
                LauncherView::ResolvingDataDir { executable, working_dir }
            } else {
                LauncherView::Failed { diagnostic: not_found_text(executable) }
            },
            (
                LauncherView::ResolvingDataDir { executable, working_dir },
                LaunchEventView::DataDirResolved(resolved),
            ) => match resolved {
                Ok(data_dir) => LauncherView::CreatingDataDir { executable, working_dir, data_dir },
                Err(cause) => LauncherView::Failed { diagnostic: data_dir_unresolved_text(cause) },
            },
            (
                LauncherView::CreatingDataDir { executable, working_dir, data_dir },
                LaunchEventView::DataDirCreated(created),
            ) => match created {
                Ok(_) => LauncherView::Spawning { executable, working_dir, data_dir },
                Err(cause) => LauncherView::Failed { diagnostic: data_dir_uncreated_text(cause) },
            },
            (
                LauncherView::Spawning { executable, working_dir, data_dir },
                LaunchEventView::SpawnAttempted(spawned),
            ) => match spawned {
                Ok(_) => LauncherView::Spawned,
                Err(cause) => LauncherView::Failed { diagnostic: spawn_failed_text(cause) },
            },
            _ => self,
        }
    }

    /// What the caller is to do in this state.
    pub open spec fn request(self) -> LaunchRequestView {
        match self {
            LauncherView::ResolvingResourceDir { .. } => LaunchRequestView::ResolveResourceDir,
            LauncherView::CheckingExecutable {
                executable,
                ..
            } => LaunchRequestView::CheckExecutable { path: executable },
            LauncherView::ResolvingDataDir { .. } => LaunchRequestView::ResolveDataDir,
            LauncherView::CreatingDataDir { data_dir, .. } => LaunchRequestView::CreateDataDir {
                path: data_dir,
            },
            LauncherView::Spawning {
                executable,
                working_dir,
                data_dir,
            } => LaunchRequestView::Spawn(plan_of(executable, working_dir, data_dir)),
            LauncherView::Spawned => LaunchRequestView::Finish(Ok(())),
            LauncherView::Failed { diagnostic } => LaunchRequestView::Finish(Err(diagnostic)),
        }
    }

    /// The result of the attempt once it is over.
    pub open spec fn verdict(self) -> Option<Result<(), Seq<char>>> {
        match self {
            LauncherView::Spawned => Some(Ok(())),
            LauncherView::Failed { diagnostic } => Some(Err(diagnostic)),
            _ => None,
        }
    }

    /// The executable was found on disk: the attempt has got past checking
    /// for it and has not failed since.
    pub open spec fn past_checking(self) -> bool {
        self is ResolvingDataDir || self is CreatingDataDir || self is Spawning || self is Spawned
    }

    /// What holds of every state that can be reached from
    /// [`LauncherView::initial`] on `platform`: the executable is the
    /// backend's executable, and it lies in the working directory.
    pub open spec fn wf(self, platform: Platform) -> bool {
        match self {
            LauncherView::ResolvingResourceDir { platform: own } => own == platform,
            LauncherView::CheckingExecutable { executable, working_dir }
            | LauncherView::ResolvingDataDir { executable, working_dir }
            | LauncherView::CreatingDataDir { executable, working_dir, .. }
            | LauncherView::Spawning { executable, working_dir, .. } => executable
                == platform.joined(working_dir, platform.executable_name()),
            _ => true,
        }
    }

    /// The state after a sequence of events, taken in order.
    pub open spec fn after(self, events: Seq<LaunchEventView>) -> LauncherView
        decreases events.len(),
    {
        if events.len() == 0 {
            self
        } else {
            self.after(events.drop_last()).next(events.last())
        }
    }
}

/// `prefix` followed by `cause`.
fn diagnostic(prefix: &str, cause: &str) -> (text: String)
    ensures
        text@ == prefix@ + cause@,
{
    let mut text = prefix.to_owned();
    text.append(cause);
    text
}

/// The backend's environment: its data directory, port and host.
pub fn environment(data_dir: &str) -> (env: Vec<EnvVar>)
    ensures
        env@.map_values(|var: EnvVar| var@) == environment_of(data_dir@),
{
    let mut env: Vec<EnvVar> = Vec::new();
    env.push(EnvVar { name: DATA_DIR_VAR.to_owned(), value: data_dir.to_owned() });
    env.push(EnvVar { name: PORT_VAR.to_owned(), value: decimal_string(BACKEND_PORT as u64) });
    env.push(EnvVar { name: HOST_VAR.to_owned(), value: BACKEND_HOST.to_owned() });
    assert(env@.map_values(|var: EnvVar| var@) =~= environment_of(data_dir@));
    env
}

impl Launcher {
    /// An attempt of which nothing has been done yet.
    pub fn new(platform: Platform) -> (launcher: Launcher)
        ensures
            launcher@ == LauncherView::initial(platform),
    {
        Launcher::ResolvingResourceDir { platform }
    }

    /// What the caller is to do now.
    pub fn pending(&self) -> (request: LaunchRequest)
        ensures
            request@ == self@.request(),
    {
        match self {
            Launcher::ResolvingResourceDir { .. } => LaunchRequest::ResolveResourceDir,
            Launcher::CheckingExecutable { executable, .. } => LaunchRequest::CheckExecutable {
                path: executable.clone(),
            },
            Launcher::ResolvingDataDir { .. } => LaunchRequest::ResolveDataDir,
            Launcher::CreatingDataDir { data_dir, .. } => LaunchRequest::CreateDataDir {
                path: data_dir.clone(),
            },
            Launcher::Spawning { executable, working_dir, data_dir } => LaunchRequest::Spawn(
                LaunchPlan {
                    executable: executable.clone(),
                    working_dir: working_dir.clone(),
                    env: environment(data_dir.as_str()),
                },
            ),
            Launcher::Spawned => LaunchRequest::Finish(Ok(())),
            Launcher::Failed { diagnostic } => LaunchRequest::Finish(Err(diagnostic.clone())),
        }
    }

    /// Takes the result of the pending request and moves on.
    pub fn step(self, event: LaunchEvent) -> (launcher: Launcher)
        ensures
            launcher@ == self@.next(event@),
    {
        match self {
            Launcher::ResolvingResourceDir { platform } => match event {
                LaunchEvent::ResourceDirResolved(resolved) => {
                    let working_dir = match &resolved {
                        Ok(dir) => backend_dir(platform, dir.as_str()),
                        Err(_) => String::new(),
                    };
                    match backend_exe_path(platform, resolved) {
                        Ok(executable) => Launcher::CheckingExecutable { executable, working_dir },
                        Err(diagnostic) => Launcher::Failed { diagnostic },
                    }
                },
                _ => Launcher::ResolvingResourceDir { platform },
            },
            Launcher::CheckingExecutable { executable, working_dir } => match event {
                LaunchEvent::ExecutableChecked { exists } => match confirm_executable(
                    executable,
                    exists,
                ) {
                    Ok(executable) => Launcher::ResolvingDataDir { executable, working_dir },
                    Err(diagnostic) => Launcher::Failed { diagnostic },
                },
                _ => Launcher::CheckingExecutable { executable, working_dir },
            },
            Launcher::ResolvingDataDir { executable, working_dir } => match event {
                LaunchEvent::DataDirResolved(Ok(data_dir)) => Launcher::CreatingDataDir {
                    executable,
                    working_dir,
                    data_dir,
                },
                LaunchEvent::DataDirResolved(Err(cause)) => Launcher::Failed {
                    diagnostic: diagnostic("Failed to resolve app data dir: ", cause.as_str()),
                },
                _ => Launcher::ResolvingDataDir { executable, working_dir },
            },
            Launcher::CreatingDataDir { executable, working_dir, data_dir } => match event {
                LaunchEvent::DataDirCreated(Ok(())) => Launcher::Spawning {
                    executable,
                    working_dir,
                    data_dir,
                },
                LaunchEvent::DataDirCreated(Err(cause)) => Launcher::Failed {
                    diagnostic: diagnostic("Failed to create data dir: ", cause.as_str()),
                },
                _ => Launcher::CreatingDataDir { executable, working_dir, data_dir },
            },
            Launcher::Spawning { executable, working_dir, data_dir } => match event {
                LaunchEvent::SpawnAttempted(Ok(())) => Launcher::Spawned,
                LaunchEvent::SpawnAttempted(Err(cause)) => Launcher::Failed {
                    diagnostic: diagnostic("Failed to spawn backend: ", cause.as_str()),
                },
                _ => Launcher::Spawning { executable, working_dir, data_dir },
            },
            Launcher::Spawned => Launcher::Spawned,
            Launcher::Failed { diagnostic } => Launcher::Failed { diagnostic },
        }
    }
}

/// Once the attempt is over, nothing the caller reports changes its result.
pub proof fn lemma_finished_is_final(state: LauncherView, events: Seq<LaunchEventView>)
    requires
        state.finished(),
    ensures
        state.after(events) == state,
    decreases events.len(),
{
    if events.len() > 0 {
        lemma_finished_is_final(state, events.drop_last());
    }
}

/// Whatever is reported, the executable that is checked and spawned is the
/// backend's executable for the platform, and the working directory is the
/// directory it lies in. A spawn is asked for with exactly that executable,
/// that directory, and the environment of the data directory that was
/// created.
pub proof fn lemma_reachable_is_wf(platform: Platform, events: Seq<LaunchEventView>)
    ensures
        LauncherView::initial(platform).after(events).wf(platform),
        LauncherView::initial(platform).after(events).request() matches LaunchRequestView::Spawn(
            plan,
        ) ==> plan.executable == platform.joined(plan.working_dir, platform.executable_name())
            && exists|data_dir: Seq<char>| plan.env == environment_of(data_dir),
    decreases events.len(),
{
    if events.len() > 0 {
        lemma_reachable_is_wf(platform, events.drop_last());
    }
    let state = LauncherView::initial(platform).after(events);
    if let LauncherView::Spawning { data_dir, .. } = state {
        assert(state.request()->Spawn_0.env == environment_of(data_dir));
    }
}

/// Nothing is created and nothing is started unless the executable was seen
/// on disk: while no existence check has come back positive, the attempt
/// neither asks for the data directory to be created nor for a process to be
/// spawned, and it does not end in success.
pub proof fn lemma_spawn_needs_executable(platform: Platform, events: Seq<LaunchEventView>)
    requires
        forall|i: int| 0 <= i < events.len() ==> !(#[trigger] events[i]).found_executable(),
    ensures
        !LauncherView::initial(platform).after(events).past_checking(),
        !(LauncherView::initial(platform).after(events).request() is Spawn),
        !(LauncherView::initial(platform).after(events).request() is CreateDataDir),
        LauncherView::initial(platform).after(events).verdict() != Some(Ok::<(), Seq<char>>(())),
    decreases events.len(),
{
    if events.len() > 0 {
        let earlier = events.drop_last();
        assert(forall|i: int| 0 <= i < earlier.len() ==> earlier[i] == events[i]);
        lemma_spawn_needs_executable(platform, earlier);
        assert(!events.last().found_executable());
    }
}

/// If the executable is not on disk, the attempt fails with the diagnostic
/// that names the expected path, and stays failed whatever is reported
/// afterwards: no process is started.
pub proof fn lemma_missing_executable_fails(
    platform: Platform,
    resource_dir: Seq<char>,
    later: Seq<LaunchEventView>,
)
    ensures
        ({
            let failed = LauncherView::initial(platform).next(
                LaunchEventView::ResourceDirResolved(Ok(resource_dir)),
            ).next(LaunchEventView::ExecutableChecked { exists: false });
            &&& failed == LauncherView::Failed {
                diagnostic: not_found_text(platform.backend_exe_path(resource_dir)),
            }
            &&& failed.after(later) == failed
            &&& failed.after(later).request() == LaunchRequestView::Finish(
                Err(not_found_text(platform.backend_exe_path(resource_dir))),
            )
        }),
{
    let failed = LauncherView::initial(platform).next(
        LaunchEventView::ResourceDirResolved(Ok(resource_dir)),
    ).next(LaunchEventView::ExecutableChecked { exists: false });
    lemma_finished_is_final(failed, later);
}

/// If every step goes well, the attempt asks for each of them in order and
/// ends in success: the executable below the resource directory is checked,
/// the data directory is created, and the process is spawned from the
/// backend's directory with the data directory, port and host in its
/// environment.
pub proof fn lemma_launch_succeeds(platform: Platform, resource_dir: Seq<char>, data_dir: Seq<char>)
    ensures
        ({
            let start = LauncherView::initial(platform);
            let checking = start.next(LaunchEventView::ResourceDirResolved(Ok(resource_dir)));
            let resolving = checking.next(LaunchEventView::ExecutableChecked { exists: true });
            let creating = resolving.next(LaunchEventView::DataDirResolved(Ok(data_dir)));
            let spawning = creating.next(LaunchEventView::DataDirCreated(Ok(())));
            let spawned = spawning.next(LaunchEventView::SpawnAttempted(Ok(())));
            &&& start.request() == LaunchRequestView::ResolveResourceDir
            &&& checking.request() == LaunchRequestView::CheckExecutable {
                path: platform.backend_exe_path(resource_dir),
            }
            &&& resolving.request() == LaunchRequestView::ResolveDataDir
            &&& creating.request() == LaunchRequestView::CreateDataDir { path: data_dir }
            &&& spawning.request() == LaunchRequestView::Spawn(
                plan_of(
                    platform.backend_exe_path(resource_dir),
                    platform.backend_dir(resource_dir),
                    data_dir,
                ),
            )
            &&& spawned.request() == LaunchRequestView::Finish(Ok(()))
        }),
{
}

} // verus!
