//! Laws of the set-up of the bot.

use crate::executor::actions::{ActionError, ActionSystem};
use crate::executor::system::{
    initialize_workers, worker_views, workers_of, Config, ExecutorSystem, SetupError,
    SetupErrorView, Worker, WorkerSource, WorkerView,
};
use crate::name_map::NameMap;
use vstd::prelude::*;

verus! {

/// One of the three names that stand for a worker.
pub open spec fn names_a_worker(name: Seq<char>) -> bool {
    name == "notify"@ || name == "teamcity"@ || name == "gerrit"@
}

/// A source names a worker without the options that it needs.
pub open spec fn lacks_options(source: WorkerSource) -> bool {
    ||| source.config.name@ == "teamcity"@ && !(source.teamcity is Given)
    ||| source.config.name@ == "gerrit"@ && !(source.gerrit is Given)
}

/// The names of the workers differ.
proof fn lemma_names_differ()
    ensures
        "notify"@ != "teamcity"@,
        "notify"@ != "gerrit"@,
        "teamcity"@ != "gerrit"@,
{
    reveal_strlit("notify");
    reveal_strlit("teamcity");
    reveal_strlit("gerrit");
    assert("notify"@[0] == 'n' && "teamcity"@[0] == 't' && "gerrit"@[0] == 'g');
}

/// The worker of a source is of the kind that it names, with its options.
pub open spec fn is_worker_of(worker: WorkerView, source: WorkerSource) -> bool {
    match worker {
        WorkerView::Notifier => source.config.name@ == "notify"@,
        WorkerView::TeamCity(options, reported, memory) => source.config.name@ == "teamcity"@
            && source.teamcity is Given && options == source.teamcity->Given_0 && reported
            == Set::<u64>::empty() && memory == (432_000u64, 10_000u64),
        WorkerView::Gerrit(config) => source.config.name@ == "gerrit"@ && source.gerrit is Given
            && config == source.gerrit->Given_0,
    }
}

/// Where no source lacks options, the workers are those of the last source of each
/// name.
proof fn lemma_workers(sources: Seq<WorkerSource>, name: Seq<char>)
    requires
        forall|i: int| 0 <= i < sources.len() ==> !lacks_options(#[trigger] sources[i]),
    ensures
        workers_of(sources) is Ok,
        workers_of(sources)->Ok_0.contains_key(name) <==> names_a_worker(name) && exists|i: int|
            0 <= i < sources.len() && (#[trigger] sources[i]).config.name@ == name,
        forall|i: int|
            0 <= i < sources.len() && names_a_worker(name) && (#[trigger] sources[i]).config.name@
                == name && (forall|j: int|
                i < j < sources.len() ==> (#[trigger] sources[j]).config.name@ != name)
                ==> is_worker_of(workers_of(sources)->Ok_0[name], sources[i]),
    decreases sources.len(),
{
    lemma_names_differ();
    if sources.len() > 0 {
        let front = sources.drop_last();
        let last = sources.len() - 1;
        assert forall|i: int| 0 <= i < front.len() implies !lacks_options(#[trigger] front[i]) by {
            assert(front[i] == sources[i]);
        }
        lemma_workers(front, name);
        assert(!lacks_options(sources[last]));
        if sources[last].config.name@ != name {
            if exists|i: int| 0 <= i < sources.len() && (#[trigger] sources[i]).config.name@
                == name {
                let i = choose|i: int|
                    0 <= i < sources.len() && (#[trigger] sources[i]).config.name@ == name;
                assert(front[i].config.name@ == name);
            }
            if exists|i: int| 0 <= i < front.len() && (#[trigger] front[i]).config.name@ == name {
                let i = choose|i: int|
                    0 <= i < front.len() && (#[trigger] front[i]).config.name@ == name;
                assert(sources[i].config.name@ == name);
            }
        }
        assert forall|i: int|
            0 <= i < sources.len() && names_a_worker(name) && (#[trigger] sources[i]).config.name@
                == name && (forall|j: int|
                i < j < sources.len() ==> (#[trigger] sources[j]).config.name@
                    != name) implies is_worker_of(workers_of(sources)->Ok_0[name], sources[i]) by {
            if i < last {
                assert(sources[last].config.name@ != name);
                assert(front[i] == sources[i]);
                assert forall|j: int| i < j < front.len() implies (#[trigger] front[j]).config.name@
                    != name by {
                    assert(sources[j].config.name@ != name);
                }
            }
        }
    }
}

/// The first source that lacks options is the error.
proof fn lemma_first_fault(sources: Seq<WorkerSource>, first: int)
    requires
        0 <= first < sources.len(),
        lacks_options(sources[first]),
        forall|i: int| 0 <= i < first ==> !lacks_options(#[trigger] sources[i]),
    ensures
        workers_of(sources) == Err::<Map<Seq<char>, WorkerView>, SetupErrorView>(
            fault_of(sources[first]),
        ),
    decreases sources.len(),
{
    lemma_names_differ();
    let front = sources.drop_last();
    if first == sources.len() - 1 {
        assert forall|i: int| 0 <= i < front.len() implies !lacks_options(#[trigger] front[i]) by {
            assert(front[i] == sources[i]);
        }
        lemma_workers(front, "notify"@);
        assert(sources.last() == sources[first]);
    } else {
        assert(front[first] == sources[first]);
        assert forall|i: int| 0 <= i < first implies !lacks_options(#[trigger] front[i]) by {
            assert(front[i] == sources[i]);
        }
        lemma_first_fault(front, first);
    }
}

/// The error of a source that lacks options: its name, and whether the options are
/// missing or wrong.
pub open spec fn fault_of(source: WorkerSource) -> SetupErrorView {
    SetupErrorView::Worker(
        source.config.name@,
        "Configuration error: "@ + if (source.config.name@ == "teamcity"@
            && source.teamcity is Missing) || (source.config.name@ == "gerrit"@
            && source.gerrit is Missing) {
            "Missing configuration"@
        } else {
            "Invalid configuration"@
        },
    )
}

/// Workers are set up under the names that their sources give, each by the last
/// source of its name; sources of other names set up nothing.
pub proof fn law_workers_are_set_up(
    sources: Vec<WorkerSource>,
    workers: Result<NameMap<Worker>, SetupError>,
    name: Seq<char>,
)
    requires
        forall|i: int| 0 <= i < sources@.len() ==> !lacks_options(#[trigger] sources@[i]),
        call_ensures(initialize_workers, (sources,), workers),
    ensures
        workers is Ok,
        workers->Ok_0@.contains_key(name) <==> names_a_worker(name) && exists|i: int|
            0 <= i < sources@.len() && (#[trigger] sources@[i]).config.name@ == name,
        forall|i: int|
            0 <= i < sources@.len() && names_a_worker(name) && (#[trigger] sources@[i]).config.name@
                == name && (forall|j: int|
                i < j < sources@.len() ==> (#[trigger] sources@[j]).config.name@ != name)
                ==> is_worker_of(workers->Ok_0@[name]@, sources@[i]),
{
    lemma_workers(sources@, name);
    let views = worker_views(workers->Ok_0@);
    assert(views.contains_key(name) == workers->Ok_0@.contains_key(name));
    if workers->Ok_0@.contains_key(name) {
        assert(views[name] == workers->Ok_0@[name]@);
    }
    assert forall|i: int|
        0 <= i < sources@.len() && names_a_worker(name) && (#[trigger] sources@[i]).config.name@
            == name && (forall|j: int|
            i < j < sources@.len() ==> (#[trigger] sources@[j]).config.name@
                != name) implies is_worker_of(workers->Ok_0@[name]@, sources@[i]) by {
        assert(views.contains_key(name));
    }
}

/// A worker without the options that it needs spoils the set-up, and the first one
/// is named.
pub proof fn law_first_faulty_worker_is_named(
    sources: Vec<WorkerSource>,
    first: int,
    workers: Result<NameMap<Worker>, SetupError>,
)
    requires
        0 <= first < sources@.len(),
        lacks_options(sources@[first]),
        forall|i: int| 0 <= i < first ==> !lacks_options(#[trigger] sources@[i]),
        call_ensures(initialize_workers, (sources,), workers),
    ensures
        workers matches Err(error) && error@ == fault_of(sources@[first]),
{
    lemma_first_fault(sources@, first);
}

/// The bot has the actions and the workers that are set up by themselves, and the
/// given number of threads; a fault in the actions comes first.
pub proof fn law_bot_is_set_up(
    config: Config,
    actions: Result<ActionSystem, ActionError>,
    workers: Result<NameMap<Worker>, SetupError>,
    system: Result<ExecutorSystem, SetupError>,
)
    requires
        call_ensures(ActionSystem::new, (config.actions,), actions),
        call_ensures(initialize_workers, (config.workers,), workers),
        call_ensures(ExecutorSystem::new, (config,), system),
    ensures
        match (actions, workers) {
            (Err(fault), _) => system matches Err(error) && error@ == SetupErrorView::Action(
                fault@,
            ),
            (Ok(_), Err(fault)) => system matches Err(error) && error@ == fault@,
            (Ok(actions), Ok(workers)) => {
                &&& system matches Ok(system)
                &&& system.num_workers == config.num_workers
                &&& system.action_system.actions@ == actions.actions@
                &&& forall|name: Seq<char>| #[trigger]
                    system.workers@.contains_key(name) <==> workers@.contains_key(name)
                &&& forall|name: Seq<char>|
                    workers@.contains_key(name) ==> (#[trigger] system.workers@[name])@
                        == workers@[name]@
            },
        },
{
    if actions is Ok && workers is Ok {
        assert(system is Ok);
        let a = worker_views((system->Ok_0).workers@);
        let b = worker_views(workers->Ok_0@);
        assert(a == b);
        assert forall|name: Seq<char>| #[trigger]
            (system->Ok_0).workers@.contains_key(name) <==> workers->Ok_0@.contains_key(name) by {
            assert(a.contains_key(name) == b.contains_key(name));
        }
        assert forall|name: Seq<char>|
            workers->Ok_0@.contains_key(name) implies (#[trigger] (system->Ok_0).workers@[name])@
            == workers->Ok_0@[name]@ by {
            assert(b.contains_key(name) && a[name] == b[name]);
        }
    }
}

} // verus!
