//! Runtimes and their registry: which runtime ids are running, what a
//! reload or a shutdown request reaches, and the settings a runtime starts
//! with.
use vstd::prelude::*;
use std::collections::BTreeMap;

verus! {

/// The id a runtime is registered under.
pub type RuntimeId = u16;

/// Errors of the runtime operations.
#[derive(Clone, Debug, PartialEq, Eq)]
pub enum Error {
    /// The configuration could not be loaded; the loader's message.
    Config(String),
    /// The runtime was not started from a configuration file.
    NoConfigFile,
    /// No runtime is registered under the id.
    RuntimeManager,
    /// The async runtime could not be built; the system's message.
    Io(String),
    /// The configuration file could not be watched; the watcher's message.
    Watcher(String),
}

/// The threads a runtime runs on.
#[derive(Clone, Copy, Debug, PartialEq, Eq)]
pub enum RuntimeOption {
    /// A single-threaded runtime.
    SingleThread,
    /// A multi-threaded runtime with this thread stack size.
    MultiThreadAuto(usize),
    /// A multi-threaded runtime with this many worker threads and this
    /// thread stack size.
    MultiThread(usize, usize),
}

/// Where a runtime's configuration comes from.
#[derive(Clone, Debug)]
pub enum Config {
    /// A configuration file, by path.
    File(String),
    /// Configuration text.
    Str(String),
    /// An internal configuration, in its protobuf encoding.
    Internal(Vec<u8>),
}

/// The configuration file a runtime is started from, if any: reloading and
/// watching need it.
pub fn config_path(config: &Config) -> (r: Option<String>)
    ensures
        match config {
            Config::File(p) => r matches Some(q) && q@ == p@,
            _ => r is None,
        },
{
    match config {
        Config::File(p) => Some(p.clone()),
        _ => None,
    }
}

/// What a configuration check reports: success when the configuration
/// loads, and the loader's message otherwise.
pub fn test_config<C>(loaded: Result<C, String>) -> (r: Result<(), Error>)
    ensures
        match loaded {
            Ok(_) => r is Ok,
            Err(m) => r matches Err(Error::Config(m2)) && m2@ == m@,
        },
{
    match loaded {
        Ok(_) => Ok(()),
        Err(m) => Err(Error::Config(m)),
    }
}

/// The runtimes that are running, by id; `M` is the handle a reload or a
/// shutdown request is sent through.
pub struct RuntimeRegistry<M> {
    managers: BTreeMap<RuntimeId, M>,
}

impl<M> RuntimeRegistry<M> {
    /// The running runtimes and their handles.
    pub closed spec fn running(&self) -> Map<RuntimeId, M> {
        self.managers@
    }

    /// No runtime running.
    pub fn new() -> (r: RuntimeRegistry<M>)
        ensures
            r.running() == Map::<RuntimeId, M>::empty(),
    {
        RuntimeRegistry { managers: BTreeMap::new() }
    }

    /// Records a started runtime, replacing any earlier one under the id.
    pub fn register(&mut self, key: RuntimeId, manager: M)
        ensures
            final(self).running() == old(self).running().insert(key, manager),
    {
        self.managers.insert(key, manager);
    }

    /// Forgets a stopped runtime.
    pub fn unregister(&mut self, key: RuntimeId)
        ensures
            final(self).running() == old(self).running().remove(key),
    {
        self.managers.remove(&key);
    }

    /// The handle registered under an id.
    pub fn get(&self, key: RuntimeId) -> (r: Option<&M>)
        ensures
            self.running().contains_key(key) ==> (r matches Some(m) && *m == self.running()[key]),
            !self.running().contains_key(key) ==> r is None,
    {
        self.managers.get(&key)
    }
}

/// Whether a runtime is running under the id.
pub fn is_running<M>(registry: &RuntimeRegistry<M>, key: RuntimeId) -> (b: bool)
    ensures
        b == registry.running().contains_key(key),
{
    registry.get(key).is_some()
}

/// The handle a reload request for the id is sent through; no runtime under
/// the id is an error.
pub fn reload<M>(registry: &RuntimeRegistry<M>, key: RuntimeId) -> (r: Result<&M, Error>)
    ensures
        registry.running().contains_key(key) ==> (r matches Ok(m) && *m == registry.running()[key]),
        !registry.running().contains_key(key) ==> r == Err::<&M, Error>(Error::RuntimeManager),
{
    match registry.get(key) {
        Some(m) => Ok(m),
        None => Err(Error::RuntimeManager),
    }
}

/// The handle a shutdown request for the id is sent through; without a
/// runtime under the id there is none, and the shutdown fails.
pub fn shutdown<M>(registry: &RuntimeRegistry<M>, key: RuntimeId) -> (r: Option<&M>)
    ensures
        registry.running().contains_key(key) ==> (r matches Some(m) && *m == registry.running()[key]),
        !registry.running().contains_key(key) ==> r is None,
{
    registry.get(key)
}

/// A runtime is running from its registration until it is unregistered,
/// and only then: after registering an id it is running with the given
/// handle, after unregistering it is not, and other ids are unaffected.
pub proof fn lemma_registry_lifecycle<M>(running: Map<RuntimeId, M>, key: RuntimeId, m: M, other: RuntimeId)
    requires
        other != key,
    ensures
        running.insert(key, m).contains_key(key),
        running.insert(key, m)[key] == m,
        !running.insert(key, m).remove(key).contains_key(key),
        running.insert(key, m).contains_key(other) == running.contains_key(other),
        running.remove(key).contains_key(other) == running.contains_key(other),
{
}

/// What a reload request is answered: the error of finding the file to
/// reload from (see `reload_source`), else a configuration error with the
/// loader's message when the file no longer loads, else success once the
/// runtime's parts are reloaded from it.
pub fn reload_result(source: Result<&String, Error>, loaded: Result<(), String>) -> (r: Result<(), Error>)
    ensures
        match source {
            Err(e) => r == Err::<(), Error>(e),
            Ok(_) => match loaded {
                Ok(()) => r is Ok,
                Err(m) => r == Err::<(), Error>(Error::Config(m)),
            },
        },
{
    match source {
        Err(e) => Err(e),
        Ok(_) => match loaded {
            Ok(()) => Ok(()),
            Err(m) => Err(Error::Config(m)),
        },
    }
}

/// What setting a file watcher up gives: success once it watches the file,
/// and a watcher error with the watcher's message when it could not be made
/// or could not watch the file.
pub fn watch_outcome(created: Result<(), String>) -> (r: Result<(), Error>)
    ensures
        match created {
            Ok(()) => r is Ok,
            Err(m) => r == Err::<(), Error>(Error::Watcher(m)),
        },
{
    match created {
        Ok(()) => Ok(()),
        Err(m) => Err(Error::Watcher(m)),
    }
}

/// Which configuration a runtime reloads from: its file, or no file.
pub fn reload_source(config_path: &Option<String>) -> (r: Result<&String, Error>)
    ensures
        match config_path {
            Some(p) => r == Ok::<&String, Error>(p),
            None => r == Err::<&String, Error>(Error::NoConfigFile),
        },
{
    match config_path {
        Some(p) => Ok(p),
        None => Err(Error::NoConfigFile),
    }
}

/// Whether to watch the configuration file for changes: an error without a
/// file, no watcher when auto-reload is off, and the file otherwise.
pub fn watch_target(config_path: &Option<String>, auto_reload: bool) -> (r: Result<
    Option<&String>,
    Error,
>)
    ensures
        match config_path {
            None => r == Err::<Option<&String>, Error>(Error::NoConfigFile),
            Some(p) => r == Ok::<Option<&String>, Error>(
                if auto_reload {
                    Some(p)
                } else {
                    None
                },
            ),
        },
{
    match config_path {
        None => Err(Error::NoConfigFile),
        Some(p) => {
            if auto_reload {
                Ok(Some(p))
            } else {
                Ok(None)
            }
        },
    }
}

/// The platform a watcher runs on; each reports a file change differently.
#[derive(Clone, Copy, Debug, PartialEq, Eq)]
pub enum WatchPlatform {
    /// macOS and iOS.
    Apple,
    /// Linux and Android.
    Linux,
    Windows,
    Other,
}

/// A file event, as far as the watcher tells them apart.
#[derive(Clone, Copy, Debug, PartialEq, Eq, Structural)]
pub enum WatchEvent {
    /// Data content modified.
    ModifyDataContent,
    /// Data modified in some way.
    ModifyDataAny,
    /// Closed after writing.
    CloseWrite,
    /// The file was removed.
    RemoveFile,
    /// Anything else.
    Other,
}

/// What a file event asks for: a reload, and a new watcher (the file was
/// removed, perhaps to be written again by an editor).
#[derive(Clone, Copy, Debug, PartialEq, Eq)]
pub struct WatchAction {
    pub reload: bool,
    pub rewatch: bool,
}

/// The events that mean the configuration changed, on each platform.
pub open spec fn spec_changes_config(platform: WatchPlatform, ev: WatchEvent) -> bool {
    match platform {
        WatchPlatform::Apple => ev == WatchEvent::ModifyDataContent,
        WatchPlatform::Linux => ev == WatchEvent::CloseWrite || ev == WatchEvent::RemoveFile,
        WatchPlatform::Windows => ev == WatchEvent::ModifyDataAny,
        WatchPlatform::Other => false,
    }
}

/// Saving the configuration file reloads it on every supported platform:
/// on macOS and iOS a content change does, on Linux and Android closing the
/// file after writing it and removing it do, on Windows any data change
/// does, and on those platforms no other event does; elsewhere nothing
/// does. Only a removal asks for a new watcher.
pub proof fn lemma_saving_reloads(ev: WatchEvent)
    ensures
        spec_changes_config(WatchPlatform::Apple, ev) <==> ev == WatchEvent::ModifyDataContent,
        spec_changes_config(WatchPlatform::Linux, WatchEvent::CloseWrite),
        spec_changes_config(WatchPlatform::Linux, WatchEvent::RemoveFile),
        spec_changes_config(WatchPlatform::Linux, ev) ==> ev == WatchEvent::CloseWrite || ev
            == WatchEvent::RemoveFile,
        spec_changes_config(WatchPlatform::Windows, ev) <==> ev == WatchEvent::ModifyDataAny,
        !spec_changes_config(WatchPlatform::Other, ev),
{
}

/// What a file event asks of the watcher on a platform.
pub fn watch_action(platform: WatchPlatform, ev: WatchEvent) -> (a: WatchAction)
    ensures
        a.reload == spec_changes_config(platform, ev),
        a.rewatch == (ev == WatchEvent::RemoveFile),
{
    let reload = match platform {
        WatchPlatform::Apple => ev == WatchEvent::ModifyDataContent,
        WatchPlatform::Linux => ev == WatchEvent::CloseWrite || ev == WatchEvent::RemoveFile,
        WatchPlatform::Windows => ev == WatchEvent::ModifyDataAny,
        WatchPlatform::Other => false,
    };
    WatchAction { reload, rewatch: ev == WatchEvent::RemoveFile }
}

/// The state of a runtime as it is reported to the host's callback.
#[derive(Clone, Copy, Debug, PartialEq, Eq)]
pub enum RunState {
    Starting,
    Started,
    Stopping,
    Stopped,
}

/// Where starting a runtime has got to.
#[derive(Clone, Copy, Debug, PartialEq, Eq)]
pub enum StartPhase {
    /// Nothing done yet.
    Begin,
    /// The configuration is being loaded.
    Loading,
    /// The async runtime and the proxy's parts are being built.
    Building,
    /// Registered and running its tasks.
    Running,
    /// Stopped after running.
    Done,
    /// Gave up before running.
    Failed,
}

/// What the host reports back to the start sequence.
#[derive(Clone, Debug)]
pub enum StartEvent {
    /// Starting is asked for.
    Go,
    /// The configuration loaded; whether it has a log setting.
    ConfigLoaded { has_log: bool },
    /// The configuration did not load; the loader's message.
    ConfigFailed(String),
    /// The async runtime and every part of the proxy were built.
    Built,
    /// The async runtime could not be built; the system's message.
    RuntimeFailed(String),
    /// A part of the proxy could not be set up from the configuration.
    SetupFailed(String),
    /// The first of the runtime's tasks ended (a shutdown request, or the
    /// runners finished).
    TasksEnded,
}

/// What the host does next.
#[derive(Debug)]
pub enum StartAction {
    /// Tell the callback the runtime's state.
    Report(RunState),
    /// Load the configuration.
    LoadConfig,
    /// Set the logger up (once per process), build the async runtime and
    /// the proxy's parts.
    Build,
    /// Record the runtime in the registry.
    Register,
    /// Run the runtime's tasks until the first ends.
    Run,
    /// Forget the runtime in the registry and stop the async runtime.
    Unregister,
    /// Return from starting with this result.
    Finish(Result<(), Error>),
}

/// The message of a configuration without a log setting.
pub open spec fn empty_log_message() -> Seq<char> {
    "empty log setting"@
}

/// The start sequence, as what a step gives for a phase and an event:
/// starting reports `Starting` and loads the configuration; a configuration
/// that fails to load, or has no log setting, ends the start with a
/// configuration error; so does a part that cannot be set up, and an async
/// runtime that cannot be built ends it with an I/O error. Once everything
/// is built the runtime is registered, reported `Started` and run; when its
/// tasks end it is reported `Stopping`, unregistered, reported `Stopped`,
/// and the start returns success. Any other event leaves the phase as it is
/// and asks for nothing.
pub open spec fn start_step_spec(
    phase: StartPhase,
    ev: StartEvent,
    next: StartPhase,
    actions: Seq<StartAction>,
) -> bool {
    match (phase, ev) {
        (StartPhase::Begin, StartEvent::Go) => next == StartPhase::Loading && actions == seq![
            StartAction::Report(RunState::Starting),
            StartAction::LoadConfig,
        ],
        (StartPhase::Loading, StartEvent::ConfigLoaded { has_log }) => if has_log {
            next == StartPhase::Building && actions == seq![StartAction::Build]
        } else {
            &&& next == StartPhase::Failed
            &&& actions.len() == 1
            &&& actions[0] matches StartAction::Finish(Err(Error::Config(m)))
            &&& m@ == empty_log_message()
        },
        (StartPhase::Loading, StartEvent::ConfigFailed(m)) => next == StartPhase::Failed && actions
            == seq![StartAction::Finish(Err(Error::Config(m)))],
        (StartPhase::Building, StartEvent::Built) => next == StartPhase::Running && actions == seq![
            StartAction::Register,
            StartAction::Report(RunState::Started),
            StartAction::Run,
        ],
        (StartPhase::Building, StartEvent::RuntimeFailed(m)) => next == StartPhase::Failed
            && actions == seq![StartAction::Finish(Err(Error::Io(m)))],
        (StartPhase::Building, StartEvent::SetupFailed(m)) => next == StartPhase::Failed && actions
            == seq![StartAction::Finish(Err(Error::Config(m)))],
        (StartPhase::Running, StartEvent::TasksEnded) => next == StartPhase::Done && actions == seq![
            StartAction::Report(RunState::Stopping),
            StartAction::Unregister,
            StartAction::Report(RunState::Stopped),
            StartAction::Finish(Ok(())),
        ],
        _ => next == phase && actions == Seq::<StartAction>::empty(),
    }
}

/// One step of starting a runtime: from where it has got to and what the
/// host reports, where it goes and what the host does next.
pub fn start_step(phase: StartPhase, ev: StartEvent) -> (r: (StartPhase, Vec<StartAction>))
    ensures
        start_step_spec(phase, ev, r.0, r.1@),
{
    let mut actions: Vec<StartAction> = Vec::new();
    let next = match (phase, ev) {
        (StartPhase::Begin, StartEvent::Go) => {
            actions.push(StartAction::Report(RunState::Starting));
            actions.push(StartAction::LoadConfig);
            assert(actions@ =~= seq![StartAction::Report(RunState::Starting), StartAction::LoadConfig]);
            StartPhase::Loading
        },
        (StartPhase::Loading, StartEvent::ConfigLoaded { has_log }) => {
            if has_log {
                actions.push(StartAction::Build);
                assert(actions@ =~= seq![StartAction::Build]);
                StartPhase::Building
            } else {
                let m = String::from_str("empty log setting");
                proof {
                    reveal_strlit("empty log setting");
                }
                actions.push(StartAction::Finish(Err(Error::Config(m))));
                StartPhase::Failed
            }
        },
        (StartPhase::Loading, StartEvent::ConfigFailed(m)) => {
            actions.push(StartAction::Finish(Err(Error::Config(m))));
            assert(actions@ =~= seq![StartAction::Finish(Err(Error::Config(m)))]);
            StartPhase::Failed
        },
        (StartPhase::Building, StartEvent::Built) => {
            actions.push(StartAction::Register);
            actions.push(StartAction::Report(RunState::Started));
            actions.push(StartAction::Run);
            assert(actions@ =~= seq![
                StartAction::Register,
                StartAction::Report(RunState::Started),
                StartAction::Run,
            ]);
            StartPhase::Running
        },
        (StartPhase::Building, StartEvent::RuntimeFailed(m)) => {
            actions.push(StartAction::Finish(Err(Error::Io(m))));
            assert(actions@ =~= seq![StartAction::Finish(Err(Error::Io(m)))]);
            StartPhase::Failed
        },
        (StartPhase::Building, StartEvent::SetupFailed(m)) => {
            actions.push(StartAction::Finish(Err(Error::Config(m))));
            assert(actions@ =~= seq![StartAction::Finish(Err(Error::Config(m)))]);
            StartPhase::Failed
        },
        (StartPhase::Running, StartEvent::TasksEnded) => {
            actions.push(StartAction::Report(RunState::Stopping));
            actions.push(StartAction::Unregister);
            actions.push(StartAction::Report(RunState::Stopped));
            actions.push(StartAction::Finish(Ok(())));
            assert(actions@ =~= seq![
                StartAction::Report(RunState::Stopping),
                StartAction::Unregister,
                StartAction::Report(RunState::Stopped),
                StartAction::Finish(Ok(())),
            ]);
            StartPhase::Done
        },
        _ => {
            assert(actions@ =~= Seq::<StartAction>::empty());
            phase
        },
    };
    (next, actions)
}

/// The states a run of actions reports to the callback, in order.
pub open spec fn reports(actions: Seq<StartAction>) -> Seq<RunState>
    decreases actions.len(),
{
    if actions.len() == 0 {
        seq![]
    } else {
        let rest = reports(actions.drop_last());
        match actions.last() {
            StartAction::Report(s) => rest.push(s),
            _ => rest,
        }
    }
}

/// A start that goes through loading a configuration with a log setting,
/// building and running until its tasks end reports `Starting`, `Started`,
/// `Stopping` and `Stopped`, in that order and nothing else, registers and
/// unregisters the runtime once each, and returns success.
pub proof fn lemma_successful_start(
    p1: StartPhase,
    a1: Seq<StartAction>,
    p2: StartPhase,
    a2: Seq<StartAction>,
    p3: StartPhase,
    a3: Seq<StartAction>,
    p4: StartPhase,
    a4: Seq<StartAction>,
)
    requires
        start_step_spec(StartPhase::Begin, StartEvent::Go, p1, a1),
        start_step_spec(p1, StartEvent::ConfigLoaded { has_log: true }, p2, a2),
        start_step_spec(p2, StartEvent::Built, p3, a3),
        start_step_spec(p3, StartEvent::TasksEnded, p4, a4),
    ensures
        p4 == StartPhase::Done,
        reports(a1 + a2 + a3 + a4) == seq![
            RunState::Starting,
            RunState::Started,
            RunState::Stopping,
            RunState::Stopped,
        ],
        a1 + a2 + a3 + a4 == seq![
            StartAction::Report(RunState::Starting),
            StartAction::LoadConfig,
            StartAction::Build,
            StartAction::Register,
            StartAction::Report(RunState::Started),
            StartAction::Run,
            StartAction::Report(RunState::Stopping),
            StartAction::Unregister,
            StartAction::Report(RunState::Stopped),
            StartAction::Finish(Ok(())),
        ],
{
    let all = a1 + a2 + a3 + a4;
    assert(all =~= seq![
        StartAction::Report(RunState::Starting),
        StartAction::LoadConfig,
        StartAction::Build,
        StartAction::Register,
        StartAction::Report(RunState::Started),
        StartAction::Run,
        StartAction::Report(RunState::Stopping),
        StartAction::Unregister,
        StartAction::Report(RunState::Stopped),
        StartAction::Finish(Ok(())),
    ]);
    reveal_with_fuel(reports, 11);
    assert(reports(all) =~= seq![
        RunState::Starting,
        RunState::Started,
        RunState::Stopping,
        RunState::Stopped,
    ]);
}

/// The runtimes running after the registry actions of a run of start
/// actions for the runtime `key` with handle `m`: a `Register` records it, an
/// `Unregister` forgets it (as `RuntimeRegistry::register` and `unregister`
/// change `running`), and other actions leave the registry alone.
pub open spec fn registry_after<M>(
    running: Map<RuntimeId, M>,
    key: RuntimeId,
    m: M,
    actions: Seq<StartAction>,
) -> Map<RuntimeId, M>
    decreases actions.len(),
{
    if actions.len() == 0 {
        running
    } else {
        let before = registry_after(running, key, m, actions.drop_last());
        match actions.last() {
            StartAction::Register => before.insert(key, m),
            StartAction::Unregister => before.remove(key),
            _ => before,
        }
    }
}

proof fn lemma_running_prefix<M>(
    running: Map<RuntimeId, M>,
    key: RuntimeId,
    m: M,
    all: Seq<StartAction>,
    k: int,
)
    requires
        !running.contains_key(key),
        all == seq![
            StartAction::Report(RunState::Starting),
            StartAction::LoadConfig,
            StartAction::Build,
            StartAction::Register,
            StartAction::Report(RunState::Started),
            StartAction::Run,
            StartAction::Report(RunState::Stopping),
            StartAction::Unregister,
            StartAction::Report(RunState::Stopped),
            StartAction::Finish(Ok(())),
        ],
        0 <= k <= all.len(),
    ensures
        registry_after(running, key, m, all.take(k)).contains_key(key) == (4 <= k && k <= 7),
        4 <= k <= 7 ==> registry_after(running, key, m, all.take(k))[key] == m,
        forall|o: RuntimeId|
            o != key ==> registry_after(running, key, m, all.take(k)).contains_key(o)
                == running.contains_key(o),
    decreases k,
{
    if k > 0 {
        lemma_running_prefix(running, key, m, all, k - 1);
        assert(all.take(k).drop_last() =~= all.take(k - 1));
        assert(all.take(k).last() == all[k - 1]);
    }
}

/// A runtime shows as running exactly while it runs: over a successful start
/// of `key` (see `lemma_successful_start`), with no other runtime under
/// `key`, the registry holds `key` with its handle from the `Register` action
/// through the `Started` report, the run and the `Stopping` report, and no
/// longer once it is unregistered, so not after `Stopped` nor after the start
/// returns; other ids are untouched throughout. `registry_after(.., k)`
/// is the registry after the first `k` actions.
pub proof fn lemma_running_during_start<M>(
    running: Map<RuntimeId, M>,
    key: RuntimeId,
    m: M,
    p1: StartPhase,
    a1: Seq<StartAction>,
    p2: StartPhase,
    a2: Seq<StartAction>,
    p3: StartPhase,
    a3: Seq<StartAction>,
    p4: StartPhase,
    a4: Seq<StartAction>,
)
    requires
        !running.contains_key(key),
        start_step_spec(StartPhase::Begin, StartEvent::Go, p1, a1),
        start_step_spec(p1, StartEvent::ConfigLoaded { has_log: true }, p2, a2),
        start_step_spec(p2, StartEvent::Built, p3, a3),
        start_step_spec(p3, StartEvent::TasksEnded, p4, a4),
    ensures
        ({
            let all = a1 + a2 + a3 + a4;
            &&& all[3] == StartAction::Register
            &&& all[4] == StartAction::Report(RunState::Started)
            &&& all[6] == StartAction::Report(RunState::Stopping)
            &&& all[7] == StartAction::Unregister
            &&& forall|k: int|
                0 <= k <= all.len() ==> (#[trigger] registry_after(running, key, m, all.take(k))).contains_key(
                    key,
                ) == (4 <= k && k <= 7)
            &&& forall|k: int|
                4 <= k <= 7 ==> (#[trigger] registry_after(running, key, m, all.take(k)))[key] == m
            &&& forall|k: int, o: RuntimeId|
                0 <= k <= all.len() && o != key ==> #[trigger] registry_after(
                    running,
                    key,
                    m,
                    all.take(k),
                ).contains_key(o) == running.contains_key(o)
        }),
{
    lemma_successful_start(p1, a1, p2, a2, p3, a3, p4, a4);
    let all = a1 + a2 + a3 + a4;
    assert forall|k: int| 0 <= k <= all.len() implies (#[trigger] registry_after(
        running,
        key,
        m,
        all.take(k),
    )).contains_key(key) == (4 <= k && k <= 7) by {
        lemma_running_prefix(running, key, m, all, k);
    }
    assert forall|k: int| 4 <= k <= 7 implies (#[trigger] registry_after(
        running,
        key,
        m,
        all.take(k),
    ))[key] == m by {
        lemma_running_prefix(running, key, m, all, k);
    }
    assert forall|k: int, o: RuntimeId| 0 <= k <= all.len() && o != key implies #[trigger] registry_after(
        running,
        key,
        m,
        all.take(k),
    ).contains_key(o) == running.contains_key(o) by {
        lemma_running_prefix(running, key, m, all, k);
    }
}

/// A running runtime stops showing as running once its tasks end (as they
/// do after a shutdown request): the step that follows unregisters it, so
/// after that step's actions the registry no longer holds `key`, whatever it
/// held before.
pub proof fn lemma_stopped_after_tasks_end<M>(
    running: Map<RuntimeId, M>,
    key: RuntimeId,
    m: M,
    next: StartPhase,
    actions: Seq<StartAction>,
)
    requires
        start_step_spec(StartPhase::Running, StartEvent::TasksEnded, next, actions),
    ensures
        next == StartPhase::Done,
        !registry_after(running, key, m, actions).contains_key(key),
{
    reveal_with_fuel(registry_after, 5);
    assert(actions.drop_last().drop_last() =~= seq![
        StartAction::Report(RunState::Stopping),
        StartAction::Unregister,
    ]);
    assert(actions.drop_last().drop_last().drop_last() =~= seq![
        StartAction::Report(RunState::Stopping),
    ]);
    assert(actions.drop_last().drop_last().drop_last().drop_last() =~= Seq::<StartAction>::empty());
    assert(actions.drop_last() =~= seq![
        StartAction::Report(RunState::Stopping),
        StartAction::Unregister,
        StartAction::Report(RunState::Stopped),
    ]);
}

/// Registration brackets the running phase: a step registers the runtime
/// only when it goes from building to running, and unregisters it only when
/// it goes from running to done; a start that fails registers nothing and is
/// never reported started.
pub proof fn lemma_registration_brackets_running(
    phase: StartPhase,
    ev: StartEvent,
    next: StartPhase,
    actions: Seq<StartAction>,
)
    requires
        start_step_spec(phase, ev, next, actions),
    ensures
        actions.contains(StartAction::Register) ==> phase == StartPhase::Building && next
            == StartPhase::Running,
        actions.contains(StartAction::Unregister) ==> phase == StartPhase::Running && next
            == StartPhase::Done,
        next == StartPhase::Failed ==> !actions.contains(StartAction::Register) && !actions.contains(
            StartAction::Report(RunState::Started),
        ),
{
    if actions.contains(StartAction::Register) {
        let i = choose|i: int| 0 <= i < actions.len() && actions[i] == StartAction::Register;
        assert(actions[i] == StartAction::Register);
    }
    if actions.contains(StartAction::Unregister) {
        let i = choose|i: int| 0 <= i < actions.len() && actions[i] == StartAction::Unregister;
        assert(actions[i] == StartAction::Unregister);
    }
    if next == StartPhase::Failed && actions.contains(StartAction::Report(RunState::Started)) {
        let i = choose|i: int|
            0 <= i < actions.len() && actions[i] == StartAction::Report(RunState::Started);
        assert(actions[i] == StartAction::Report(RunState::Started));
    }
}

/// The interfaces outbound connections bind to, once the default interface
/// is known: appended after a comma to those already set, or alone.
pub fn outbound_interface_binds(existing: Option<String>, iface: &String) -> (r: String)
    ensures
        match existing {
            Some(v) => r@ == v@ + ","@ + iface@,
            None => r@ == iface@,
        },
{
    match existing {
        Some(v) => {
            let mut s = v;
            s.append(",");
            s.append(iface.as_str());
            s
        },
        None => iface.clone(),
    }
}

} // verus!
