//! The router itself: its settings, and the profiling that it has under way.
use crate::exchange::Stage;
use crate::profiling::{actions_view, ProfilingAction};
use crate::startup::Settings;
use crate::table::Table;
use crate::text::concat;
use vstd::prelude::*;

verus! {

/// A router that has each request served by a prefill worker and a decode worker in turn.
pub struct VllmPDRouter {
    /// Whether workers are those that service discovery announces, or those of known URLs.
    use_discovery: bool,
    /// Whether workers are profiled while they serve a request.
    enable_profiling: bool,
    /// The seconds after which the profiling of a worker is stopped in any case.
    profile_timeout_secs: u64,
    /// The number of workers that share the address of a node; above one, addresses have ranks.
    intra_node_data_parallel_size: usize,
    /// By worker URL, the task that stops the profiling of the worker when its time is up.
    profiling_tasks: Table<u64>,
}

/// The view of a `VllmPDRouter`.
pub struct RouterView {
    pub use_discovery: bool,
    pub enable_profiling: bool,
    pub profile_timeout_secs: u64,
    pub intra_node_data_parallel_size: usize,
    pub profiling_tasks: Map<Seq<char>, u64>,
}

impl View for VllmPDRouter {
    type V = RouterView;

    closed spec fn view(&self) -> RouterView {
        RouterView {
            use_discovery: self.use_discovery,
            enable_profiling: self.enable_profiling,
            profile_timeout_secs: self.profile_timeout_secs,
            intra_node_data_parallel_size: self.intra_node_data_parallel_size,
            profiling_tasks: self.profiling_tasks@,
        }
    }
}

impl VllmPDRouter {
    /// The router is well formed: a worker has one task at most.
    pub closed spec fn wf(&self) -> bool {
        self.profiling_tasks.wf()
    }

    /// A router, once the workers of its plan have been registered and, where it uses service
    /// discovery, the listener has been started; or the text of what went wrong with that.
    /// A listener that was not called for has not failed.
    pub fn new(
        use_discovery: bool,
        settings: Settings,
        workers_registered: Result<(), String>,
        listener_started: Result<(), String>,
    ) -> (router: Result<VllmPDRouter, String>)
        ensures
            match (workers_registered, listener_started) {
                (Err(error), _) => router matches Err(message) && message@ == error@,
                (Ok(_), Err(error)) if use_discovery => router matches Err(message) && message@
                    == "Failed to start service discovery: "@ + error@,
                _ => {
                    &&& router matches Ok(router)
                    &&& router.wf()
                    &&& router@ == RouterView {
                        use_discovery,
                        enable_profiling: settings.enable_profiling,
                        profile_timeout_secs: settings.profile_timeout_secs,
                        intra_node_data_parallel_size: settings.intra_node_data_parallel_size,
                        profiling_tasks: Map::empty(),
                    }
                },
            },
    {
        if let Err(error) = workers_registered {
            return Err(error);
        }
        if use_discovery {
            if let Err(error) = listener_started {
                return Err(concat("Failed to start service discovery: ", error.as_str()));
            }
        }
        Ok(
            VllmPDRouter {
                use_discovery,
                enable_profiling: settings.enable_profiling,
                profile_timeout_secs: settings.profile_timeout_secs,
                intra_node_data_parallel_size: settings.intra_node_data_parallel_size,
                profiling_tasks: Table::new(),
            },
        )
    }

    /// The stages whose policies are to be given the registered workers at the start: those that
    /// ask for it, where there are workers of known URLs.
    pub fn policies_to_initialize(&self, prefill_asks: bool, decode_asks: bool) -> (stages: Vec<
        Stage,
    >)
        ensures
            stages@ == if self@.use_discovery {
                seq![]
            } else if prefill_asks && decode_asks {
                seq![Stage::Prefill, Stage::Decode]
            } else if prefill_asks {
                seq![Stage::Prefill]
            } else if decode_asks {
                seq![Stage::Decode]
            } else {
                seq![]
            },
    {
        let mut stages: Vec<Stage> = Vec::new();
        if !self.use_discovery {
            if prefill_asks {
                stages.push(Stage::Prefill);
            }
            if decode_asks {
                stages.push(Stage::Decode);
            }
        }
        stages
    }

    /// Profiling is to start on a worker, with a task of that number to stop it when its time is
    /// up. Says what is to be done, in order.
    pub fn start_profiling(&mut self, worker_url: &str, task: u64) -> (actions: Vec<
        ProfilingAction<String>,
    >)
        requires
            old(self).wf(),
        ensures
            final(self).wf(),
            final(self)@ == old(self)@.profiling_started(worker_url@, task),
            actions_view(actions@) == old(self)@.start_actions(worker_url@, task),
    {
        let mut actions: Vec<ProfilingAction<String>> = Vec::new();
        if self.enable_profiling {
            actions.push(ProfilingAction::StartWorker(worker_url.to_owned()));
            actions.push(
                ProfilingAction::SetTimer {
                    url: worker_url.to_owned(),
                    seconds: self.profile_timeout_secs,
                    task,
                },
            );
            if let Some(earlier) = self.profiling_tasks.insert(worker_url.to_owned(), task) {
                actions.push(
                    ProfilingAction::AbortTimer { url: worker_url.to_owned(), task: earlier },
                );
            }
        }
        assert(actions_view(actions@) =~= old(self)@.start_actions(worker_url@, task));
        actions
    }

    /// Profiling is to stop on a worker. Says what is to be done, in order.
    pub fn stop_profiling(&mut self, worker_url: &str) -> (actions: Vec<ProfilingAction<String>>)
        requires
            old(self).wf(),
        ensures
            final(self).wf(),
            final(self)@ == old(self)@.profiling_stopped(worker_url@),
            actions_view(actions@) == old(self)@.stop_actions(worker_url@),
    {
        let mut actions: Vec<ProfilingAction<String>> = Vec::new();
        if self.enable_profiling {
            if let Some(task) = self.profiling_tasks.remove(worker_url) {
                actions.push(ProfilingAction::AbortTimer { url: worker_url.to_owned(), task });
            }
            actions.push(ProfilingAction::StopWorker(worker_url.to_owned()));
        }
        assert(actions_view(actions@) =~= old(self)@.stop_actions(worker_url@));
        actions
    }

    /// The time of a worker's profiling is up. Says what is to be done.
    pub fn profiling_timed_out(&mut self, worker_url: &str) -> (actions: Vec<
        ProfilingAction<String>,
    >)
        requires
            old(self).wf(),
        ensures
            final(self).wf(),
            final(self)@ == old(self)@.without_task(worker_url@),
            actions_view(actions@) == seq![ProfilingAction::StopWorker(worker_url@)],
    {
        let _ = self.profiling_tasks.remove(worker_url);
        let actions = vec![ProfilingAction::StopWorker(worker_url.to_owned())];
        assert(actions_view(actions@) =~= seq![ProfilingAction::StopWorker(worker_url@)]);
        actions
    }

    /// Whether the workers are those that service discovery announces.
    pub fn uses_discovery(&self) -> (answer: bool)
        ensures
            answer == self@.use_discovery,
    {
        self.use_discovery
    }

    /// Whether worker addresses have ranks.
    pub fn is_dp_aware(&self) -> (answer: bool)
        ensures
            answer == (self@.intra_node_data_parallel_size > 1),
    {
        self.intra_node_data_parallel_size > 1
    }

    /// The name of this kind of router.
    pub fn router_type(&self) -> (name: &'static str)
        ensures
            name@ == "vllm_pd"@,
    {
        "vllm_pd"
    }
}

} // verus!
