//! The workers and actions of the bot.

use crate::executor::actions::zulip::ZULIP;
use crate::executor::actions::{
    is_broken, registered, ActionError, ActionErrorView, ActionSource, ActionSystem,
};
use crate::executor::workers::gerrit::{Gerrit, GerritConfig, GerritErrorView};
use crate::executor::workers::notifier::Notifier;
use crate::executor::workers::teamcity::{
    Options, TeamCity, TeamCityErrorView, BUILD_CACHE_TTL, CACHE_MAX_CAPACITY,
};
use crate::executor::workers::{WorkerConfig, WorkerOptions};
use crate::name_map::NameMap;
use crate::text::{concat2, concat3, same_text};
use serde_json::Value;
use vstd::prelude::*;

verus! {

/// The type of the tasks that the notifier executes.
pub const NOTIFY: &'static str = "notify";

/// The type of the tasks that report builds.
pub const TEAMCITY: &'static str = "teamcity";

/// The type of the tasks that report reviews.
pub const GERRIT: &'static str = "gerrit";

/// A worker.
pub enum Worker {
    Notifier(Notifier),
    TeamCity(TeamCity),
    Gerrit(Gerrit),
}

/// The kind of a worker, the options that it was made with and what it remembers.
pub enum WorkerView {
    Notifier,
    /// With the builds that have been reported, and how long and how many of them
    /// are remembered.
    TeamCity(Options, Set<u64>, (u64, u64)),
    Gerrit(GerritConfig),
}

impl View for Worker {
    type V = WorkerView;

    open spec fn view(&self) -> WorkerView {
        match *self {
            Worker::Notifier(_) => WorkerView::Notifier,
            Worker::TeamCity(worker) => WorkerView::TeamCity(
                worker.options(),
                worker.reported(),
                worker.memory(),
            ),
            Worker::Gerrit(worker) => WorkerView::Gerrit(worker.config),
        }
    }
}

/// The set-up of a worker, with its options read as the options of each worker
/// that needs some.
#[derive(Debug)]
pub struct WorkerSource {
    pub config: WorkerConfig,
    pub teamcity: WorkerOptions<Options>,
    pub gerrit: WorkerOptions<GerritConfig>,
}

/// The set-up of the bot.
#[derive(Debug)]
pub struct Config {
    pub num_workers: u32,
    pub workers: Vec<WorkerSource>,
    pub actions: Vec<ActionSource>,
}

/// Why the bot cannot be set up.
#[derive(Debug)]
pub enum SetupError {
    Action(ActionError),
    /// A worker with this name cannot be created; with the reason.
    Worker(String, String),
}

/// A [`SetupError`] with its texts as character sequences.
pub enum SetupErrorView {
    Action(ActionErrorView),
    Worker(Seq<char>, Seq<char>),
}

impl View for SetupError {
    type V = SetupErrorView;

    open spec fn view(&self) -> SetupErrorView {
        match *self {
            SetupError::Action(error) => SetupErrorView::Action(error@),
            SetupError::Worker(name, reason) => SetupErrorView::Worker(name@, reason@),
        }
    }
}

impl SetupErrorView {
    /// The message that a person reads.
    pub open spec fn message(self) -> Seq<char> {
        match self {
            SetupErrorView::Action(error) => error.message(),
            SetupErrorView::Worker(name, reason) => "Can't create "@ + name + " worker. Err: "@
                + reason,
        }
    }
}

impl SetupError {
    /// The message that a person reads.
    pub fn message(&self) -> (message: String)
        ensures
            message@ == self@.message(),
    {
        match self {
            SetupError::Action(error) => error.message(),
            SetupError::Worker(name, reason) => {
                let front: String = concat3("Can't create ", name.as_str(), " worker. Err: ");
                concat2(front.as_str(), reason.as_str())
            },
        }
    }
}

// ---------------------------------------------------------------------------
// The workers
// ---------------------------------------------------------------------------

/// Why TeamCity options are of no use.
pub open spec fn teamcity_fault(options: WorkerOptions<Options>) -> Seq<char> {
    match options {
        WorkerOptions::Missing => TeamCityErrorView::Config("Missing configuration"@).message(),
        _ => TeamCityErrorView::Config("Invalid configuration"@).message(),
    }
}

/// Why Gerrit options are of no use.
pub open spec fn gerrit_fault(options: WorkerOptions<GerritConfig>) -> Seq<char> {
    match options {
        WorkerOptions::Missing => GerritErrorView::ConfigError("Missing configuration"@).message(),
        _ => GerritErrorView::ConfigError("Invalid configuration"@).message(),
    }
}

/// The worker that a source sets up: none for an unknown name, and the reason
/// where its options are of no use. A worker that reports builds has reported
/// none.
pub open spec fn worker_of(source: WorkerSource) -> Result<Option<WorkerView>, Seq<char>> {
    if source.config.name@ == NOTIFY@ {
        Ok(Some(WorkerView::Notifier))
    } else if source.config.name@ == TEAMCITY@ {
        match source.teamcity {
            WorkerOptions::Given(options) => Ok(
                Some(
                    WorkerView::TeamCity(
                        options,
                        Set::empty(),
                        (BUILD_CACHE_TTL, CACHE_MAX_CAPACITY),
                    ),
                ),
            ),
            _ => Err(teamcity_fault(source.teamcity)),
        }
    } else if source.config.name@ == GERRIT@ {
        match source.gerrit {
            WorkerOptions::Given(config) => Ok(Some(WorkerView::Gerrit(config))),
            _ => Err(gerrit_fault(source.gerrit)),
        }
    } else {
        Ok(None)
    }
}

/// The workers that sources set up, by their names: the last source of a name
/// counts, and the first source that is of no use spoils them all.
pub open spec fn workers_of(sources: Seq<WorkerSource>) -> Result<
    Map<Seq<char>, WorkerView>,
    SetupErrorView,
>
    decreases sources.len(),
{
    if sources.len() == 0 {
        Ok(Map::empty())
    } else {
        match workers_of(sources.drop_last()) {
            Ok(before) => match worker_of(sources.last()) {
                Ok(Some(worker)) => Ok(before.insert(sources.last().config.name@, worker)),
                Ok(None) => Ok(before),
                Err(reason) => Err(SetupErrorView::Worker(sources.last().config.name@, reason)),
            },
            Err(error) => Err(error),
        }
    }
}

/// The kinds and options of some workers.
pub open spec fn worker_views(workers: Map<Seq<char>, Worker>) -> Map<Seq<char>, WorkerView> {
    workers.map_values(|worker: Worker| worker@)
}

/// Sets up the worker that a source asks for.
fn create_worker(
    name: &str,
    options: Option<Value>,
    teamcity: WorkerOptions<Options>,
    gerrit: WorkerOptions<GerritConfig>,
    Ghost(source): Ghost<WorkerSource>,
) -> (worker: Result<Option<Worker>, String>)
    requires
        source.config.name@ == name@,
        source.teamcity == teamcity,
        source.gerrit == gerrit,
    ensures
        match worker {
            Ok(Some(worker)) => worker_of(source) == Ok::<Option<WorkerView>, Seq<char>>(
                Some(worker@),
            ),
            Ok(None) => worker_of(source) == Ok::<Option<WorkerView>, Seq<char>>(None),
            Err(reason) => worker_of(source) == Err::<Option<WorkerView>, Seq<char>>(reason@),
        },
{
    if same_text(name, NOTIFY) {
        match Notifier::new(options) {
            Ok(notifier) => Ok(Some(Worker::Notifier(notifier))),
            Err(error) => Err(error.message()),
        }
    } else if same_text(name, TEAMCITY) {
        match TeamCity::new(teamcity) {
            Ok(worker) => Ok(Some(Worker::TeamCity(worker))),
            Err(error) => Err(error.message()),
        }
    } else if same_text(name, GERRIT) {
        match Gerrit::new(gerrit) {
            Ok(worker) => Ok(Some(Worker::Gerrit(worker))),
            Err(error) => Err(error.message()),
        }
    } else {
        Ok(None)
    }
}

/// Sets the workers up. A source with an unknown name is passed over; a source
/// without the options that its worker needs fails.
pub fn initialize_workers(sources: Vec<WorkerSource>) -> (workers: Result<
    NameMap<Worker>,
    SetupError,
>)
    ensures
        match workers {
            Ok(workers) => workers_of(sources@) == Ok::<Map<Seq<char>, WorkerView>, SetupErrorView>(
                worker_views(workers@),
            ),
            Err(error) => workers_of(sources@) == Err::<
                Map<Seq<char>, WorkerView>,
                SetupErrorView,
            >(error@),
        },
{
    let ghost all = sources@;
    let mut workers: NameMap<Worker> = NameMap::new();
    assert(all.take(0) =~= Seq::<WorkerSource>::empty());
    assert(worker_views(workers@) =~= Map::empty());
    for source in iter: sources
        invariant
            iter.seq() == all,
            workers_of(all.take(iter.index())) == Ok::<
                Map<Seq<char>, WorkerView>,
                SetupErrorView,
            >(worker_views(workers@)),
    {
        let ghost index = iter.index();
        let ghost before = workers@;
        proof {
            assert(all.take(index + 1).drop_last() =~= all.take(index));
            assert(all.take(index + 1).last() == all[index]);
        }
        match create_worker(
            source.config.name.as_str(),
            source.config.options,
            source.teamcity,
            source.gerrit,
            Ghost(all[index]),
        ) {
            Ok(Some(worker)) => {
                let ghost name = source.config.name@;
                workers = workers.with(source.config.name, worker);
                assert(worker_views(workers@) =~= worker_views(before).insert(name, worker@));
            },
            Ok(None) => {},
            Err(reason) => {
                proof {
                    lemma_setup_error_stays(all, index + 1);
                }
                return Err(SetupError::Worker(source.config.name, reason));
            },
        }
    }
    assert(all.take(all.len() as int) =~= all);
    Ok(workers)
}

/// An error among the first sources is the error of all of them.
proof fn lemma_setup_error_stays(sources: Seq<WorkerSource>, count: int)
    requires
        0 <= count <= sources.len(),
        workers_of(sources.take(count)) is Err,
    ensures
        workers_of(sources) == workers_of(sources.take(count)),
    decreases sources.len() - count,
{
    if count == sources.len() {
        assert(sources.take(count) =~= sources);
    } else {
        assert(sources.take(count + 1).drop_last() =~= sources.take(count));
        lemma_setup_error_stays(sources, count + 1);
    }
}

/// The parts of the bot that execute tasks.
pub struct ExecutorSystem {
    pub num_workers: u32,
    pub workers: NameMap<Worker>,
    pub action_system: ActionSystem,
}

impl ExecutorSystem {
    /// Sets the actions up, and then the workers.
    pub fn new(config: Config) -> (system: Result<ExecutorSystem, SetupError>)
        ensures
            match system {
                Ok(system) => system.num_workers == config.num_workers && (forall|i: int|
                    0 <= i < config.actions@.len() ==> !is_broken(
                        #[trigger] config.actions@[i],
                    )) && system.action_system@ == registered(
                    config.actions@,
                ) && workers_of(config.workers@) == Ok::<
                    Map<Seq<char>, WorkerView>,
                    SetupErrorView,
                >(worker_views(system.workers@)),
                Err(error) => if exists|i: int|
                    0 <= i < config.actions@.len() && is_broken(
                        #[trigger] config.actions@[i],
                    ) {
                    error@ == SetupErrorView::Action(
                        ActionErrorView::Create(
                            ZULIP@,
                            "Invalid Zulip configuration"@,
                        ),
                    )
                } else {
                    workers_of(config.workers@) == Err::<
                        Map<Seq<char>, WorkerView>,
                        SetupErrorView,
                    >(error@)
                },
            },
    {
        let action_system: ActionSystem = match ActionSystem::new(config.actions) {
            Ok(action_system) => action_system,
            Err(error) => {
                return Err(SetupError::Action(error));
            },
        };
        match initialize_workers(config.workers) {
            Ok(workers) => Ok(
                ExecutorSystem { num_workers: config.num_workers, workers, action_system },
            ),
            Err(error) => Err(error),
        }
    }
}

// ---------------------------------------------------------------------------
// Laws
// ---------------------------------------------------------------------------

/// Every worker that is set up stands under the name of its kind, so a task
/// finds a worker only under one of the three known types, and then a worker of
/// that kind.
pub proof fn law_workers_stand_under_their_names(sources: Seq<WorkerSource>, name: Seq<char>)
    requires
        workers_of(sources) is Ok,
        workers_of(sources)->Ok_0.contains_key(name),
    ensures
        match workers_of(sources)->Ok_0[name] {
            WorkerView::Notifier => name == NOTIFY@,
            WorkerView::TeamCity(_, _, _) => name == TEAMCITY@,
            WorkerView::Gerrit(_) => name == GERRIT@,
        },
    decreases sources.len(),
{
    if sources.len() > 0 {
        let before = workers_of(sources.drop_last())->Ok_0;
        if before.contains_key(name) {
            law_workers_stand_under_their_names(sources.drop_last(), name);
        }
    }
}

} // verus!
