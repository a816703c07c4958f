//! The profiling of workers: each worker that is being profiled has one task that stops it when
//! its time is up.
use crate::router::RouterView;
use vstd::prelude::*;

verus! {

/// Something to be done about the profiling of a worker.
#[derive(Debug, PartialEq, Eq)]
pub enum ProfilingAction<Text> {
    /// Profiling is started on the worker.
    StartWorker(Text),
    /// A task is set up that waits for so many seconds, and then tells that the time of the
    /// worker is up.
    SetTimer { url: Text, seconds: u64, task: u64 },
    /// The task of the worker is aborted.
    AbortTimer { url: Text, task: u64 },
    /// Profiling is stopped on the worker.
    StopWorker(Text),
}

impl View for ProfilingAction<String> {
    type V = ProfilingAction<Seq<char>>;

    open spec fn view(&self) -> ProfilingAction<Seq<char>> {
        match self {
            ProfilingAction::StartWorker(url) => ProfilingAction::StartWorker(url@),
            ProfilingAction::SetTimer { url, seconds, task } => ProfilingAction::SetTimer {
                url: url@,
                seconds: *seconds,
                task: *task,
            },
            ProfilingAction::AbortTimer { url, task } => ProfilingAction::AbortTimer {
                url: url@,
                task: *task,
            },
            ProfilingAction::StopWorker(url) => ProfilingAction::StopWorker(url@),
        }
    }
}

impl<Text> ProfilingAction<Text> {
    /// The worker that this is done about.
    pub open spec fn worker(self) -> Text {
        match self {
            ProfilingAction::StartWorker(url) => url,
            ProfilingAction::SetTimer { url, .. } => url,
            ProfilingAction::AbortTimer { url, .. } => url,
            ProfilingAction::StopWorker(url) => url,
        }
    }
}

/// The view of a list of actions.
pub open spec fn actions_view(actions: Seq<ProfilingAction<String>>) -> Seq<
    ProfilingAction<Seq<char>>,
> {
    actions.map_values(|action: ProfilingAction<String>| action@)
}

/// Something that happens to the profiling of a worker.
pub enum ProfilingEvent {
    /// It is to start, with that task to stop it.
    Start { url: Seq<char>, task: u64 },
    /// It is to stop.
    Stop { url: Seq<char> },
    /// Its time is up.
    TimeIsUp { url: Seq<char> },
}

impl ProfilingEvent {
    /// The worker that this happens to.
    pub open spec fn worker(self) -> Seq<char> {
        match self {
            ProfilingEvent::Start { url, .. } => url,
            ProfilingEvent::Stop { url } => url,
            ProfilingEvent::TimeIsUp { url } => url,
        }
    }
}

impl RouterView {
    /// The router after profiling has been started on a worker, with a task to stop it.
    pub open spec fn profiling_started(self, url: Seq<char>, task: u64) -> RouterView {
        if self.enable_profiling {
            RouterView { profiling_tasks: self.profiling_tasks.insert(url, task), ..self }
        } else {
            self
        }
    }

    /// The router after profiling has been stopped on a worker.
    pub open spec fn profiling_stopped(self, url: Seq<char>) -> RouterView {
        if self.enable_profiling {
            self.without_task(url)
        } else {
            self
        }
    }

    /// The router without the task of a worker.
    pub open spec fn without_task(self, url: Seq<char>) -> RouterView {
        RouterView { profiling_tasks: self.profiling_tasks.remove(url), ..self }
    }

    /// The task of a worker.
    pub open spec fn task(self, url: Seq<char>) -> Option<u64> {
        if self.profiling_tasks.contains_key(url) {
            Some(self.profiling_tasks[url])
        } else {
            None
        }
    }

    /// The task of a worker, if it has one, is aborted.
    pub open spec fn abort(self, url: Seq<char>) -> Seq<ProfilingAction<Seq<char>>> {
        match self.task(url) {
            Some(task) => seq![ProfilingAction::AbortTimer { url, task }],
            None => seq![],
        }
    }

    /// What is done when profiling is to start on a worker: it is started, a task is set up to
    /// stop it, and an earlier task of the same worker is aborted.
    pub open spec fn start_actions(self, url: Seq<char>, task: u64) -> Seq<
        ProfilingAction<Seq<char>>,
    > {
        if self.enable_profiling {
            seq![
                ProfilingAction::StartWorker(url),
                ProfilingAction::SetTimer { url, seconds: self.profile_timeout_secs, task },
            ] + self.abort(url)
        } else {
            seq![]
        }
    }

    /// What is done when profiling is to stop on a worker: its task is aborted, and it is stopped.
    pub open spec fn stop_actions(self, url: Seq<char>) -> Seq<ProfilingAction<Seq<char>>> {
        if self.enable_profiling {
            self.abort(url) + seq![ProfilingAction::StopWorker(url)]
        } else {
            seq![]
        }
    }

    /// The router and what is done after something has happened to the profiling of a worker.
    pub open spec fn on(self, event: ProfilingEvent) -> (RouterView, Seq<ProfilingAction<Seq<char>>>) {
        match event {
            ProfilingEvent::Start { url, task } => (
                self.profiling_started(url, task),
                self.start_actions(url, task),
            ),
            ProfilingEvent::Stop { url } => (self.profiling_stopped(url), self.stop_actions(url)),
            ProfilingEvent::TimeIsUp { url } => (
                self.without_task(url),
                seq![ProfilingAction::StopWorker(url)],
            ),
        }
    }

    /// The router and all that is done after some events.
    pub open spec fn after(self, events: Seq<ProfilingEvent>) -> (
        RouterView,
        Seq<ProfilingAction<Seq<char>>>,
    )
        decreases events.len(),
    {
        if events.len() == 0 {
            (self, seq![])
        } else {
            let before = self.after(events.drop_last());
            let last = before.0.on(events.last());
            (last.0, before.1 + last.1)
        }
    }
}

/// Where workers are profiled, the task that a start brings in is the one that the next start or
/// stop on the same worker puts an end to: no worker ever has two.
pub proof fn law_one_task_per_worker(router: RouterView, url: Seq<char>, task: u64, later: u64)
    requires
        router.enable_profiling,
    ensures
        router.profiling_started(url, task).task(url) == Some(task),
        router.profiling_started(url, task).abort(url) == seq![
            ProfilingAction::AbortTimer { url, task },
        ],
        router.profiling_started(url, task).profiling_started(url, later)
            == router.profiling_started(url, later),
{
    assert(router.profiling_started(url, task).profiling_started(url, later).profiling_tasks
        =~= router.profiling_started(url, later).profiling_tasks);
}

/// A stop leaves a worker without a task, and undoes a start on a worker that had none.
pub proof fn law_stop_undoes_start(router: RouterView, url: Seq<char>, task: u64)
    ensures
        router.enable_profiling ==> router.profiling_stopped(url).task(url) is None,
        router.profiling_started(url, task).profiling_stopped(url) == router.profiling_stopped(url),
        router.task(url) is None ==> router.profiling_started(url, task).profiling_stopped(url)
            == router,
{
    assert(router.profiling_started(url, task).profiling_stopped(url).profiling_tasks
        =~= router.profiling_stopped(url).profiling_tasks);
    if router.task(url) is None {
        assert(router.profiling_tasks.remove(url) =~= router.profiling_tasks);
    }
}

/// What happens to the profiling of one worker leaves the tasks of the others alone.
pub proof fn law_workers_are_profiled_apart(
    router: RouterView,
    url: Seq<char>,
    other: Seq<char>,
    task: u64,
)
    requires
        url != other,
    ensures
        router.profiling_started(url, task).task(other) == router.task(other),
        router.profiling_stopped(url).task(other) == router.task(other),
        router.without_task(url).task(other) == router.task(other),
{
}

/// Where workers are not profiled, starts and stops do nothing.
pub proof fn law_disabled_profiling_does_nothing(router: RouterView, url: Seq<char>, task: u64)
    requires
        !router.enable_profiling,
    ensures
        router.profiling_started(url, task) == router,
        router.profiling_stopped(url) == router,
        router.start_actions(url, task).len() == 0,
        router.stop_actions(url).len() == 0,
{
}

/// What happens to other workers leaves the task of a worker pending, and does nothing about it.
proof fn lemma_others_do_not_matter(router: RouterView, events: Seq<ProfilingEvent>, url: Seq<char>)
    requires
        forall|i: int| 0 <= i < events.len() ==> (#[trigger] events[i]).worker() != url,
    ensures
        router.after(events).0.task(url) == router.task(url),
        router.after(events).0.enable_profiling == router.enable_profiling,
        forall|i: int|
            0 <= i < router.after(events).1.len() ==> (
            #[trigger] router.after(events).1[i]).worker() != url,
    decreases events.len(),
{
    if events.len() > 0 {
        let rest = events.drop_last();
        assert(forall|i: int| 0 <= i < rest.len() ==> rest[i] == events[i]);
        lemma_others_do_not_matter(router, rest, url);
        let (before, done) = router.after(rest);
        let more = before.on(events.last()).1;
        assert(events.last() == events[events.len() - 1]);
        assert forall|i: int| 0 <= i < more.len() implies (#[trigger] more[i]).worker() != url by {
        }
        assert forall|i: int| 0 <= i < (done + more).len() implies (#[trigger] (done
            + more)[i]).worker() != url by {
            if i >= done.len() {
                assert((done + more)[i] == more[i - done.len()]);
            }
        }
    }
}

/// Where workers are profiled, a start on a worker starts it once, sets up one task of so many
/// seconds, and aborts the earlier task, if there was one, so that the new one alone is pending; the
/// tasks of the other workers are as they were. Whatever happens to other workers meanwhile, the
/// task stays pending and nothing is done about the worker, until its time is up: then the worker
/// is stopped, once, and has no task any more.
pub proof fn law_profiling_runs_until_its_time_is_up(
    router: RouterView,
    url: Seq<char>,
    task: u64,
    other: Seq<char>,
    events: Seq<ProfilingEvent>,
)
    requires
        router.enable_profiling,
        other != url,
        forall|i: int| 0 <= i < events.len() ==> (#[trigger] events[i]).worker() != url,
    ensures
        ({
            let (started, actions) = router.on(ProfilingEvent::Start { url, task });
            let (now, meanwhile) = started.after(events);
            let (end, last) = now.on(ProfilingEvent::TimeIsUp { url });
            &&& actions == seq![
                ProfilingAction::StartWorker(url),
                ProfilingAction::SetTimer { url, seconds: router.profile_timeout_secs, task },
            ] + match router.task(url) {
                Some(earlier) => seq![ProfilingAction::AbortTimer { url, task: earlier }],
                None => seq![],
            }
            &&& started.task(other) == router.task(other)
            &&& now.task(url) == Some(task)
            &&& forall|i: int|
                0 <= i < meanwhile.len() ==> (#[trigger] meanwhile[i]).worker() != url
            &&& last == seq![ProfilingAction::<Seq<char>>::StopWorker(url)]
            &&& end.task(url) is None
            &&& end.task(other) == now.task(other)
        }),
{
    lemma_others_do_not_matter(router.on(ProfilingEvent::Start { url, task }).0, events, url);
}

} // verus!
