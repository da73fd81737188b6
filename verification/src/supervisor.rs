//! The supervisor: which servers are tracked as running, and what each request does to that.
//!
//! A `Supervisor<H>` owns the registry, a map from server name to the handle `H` of the
//! process that was started under that name. The library never looks into a handle; it only
//! keeps it, lends it out to be polled, and gives it back when the server is stopped.
//!
//! Starting a name that is already tracked is refused: the tracked process stays as it is,
//! and the start fails with `SupervisorError::AlreadyRunning`. A name stops being tracked
//! when it is stopped, when a status query finds its process gone, or when all servers are
//! stopped; it can then be started again.
//!
//! The supervisor itself takes no lock. Callers that share one put it behind a lock of their
//! own and hold that lock for the length of one method call.

use vstd::prelude::*;
use crate::failure::SupervisorError;
use crate::name_map::{ascending, ascending_pairs, has_name, lists_exactly, NameMap};
use crate::probe::PollOutcome;
use crate::start::StartStep;
use crate::stop::{opening, StopStep};

verus! {

/// The registry after a process was offered under a name: a tracked name keeps its process.
pub open spec fn after_register<H>(registry: Map<Seq<char>, H>, name: Seq<char>, handle: H) -> Map<
    Seq<char>,
    H,
> {
    if registry.contains_key(name) {
        registry
    } else {
        registry.insert(name, handle)
    }
}

/// Whether polling showed the process alive. `None` stands for a process that was not
/// polled.
pub open spec fn seen_running(outcome: Option<PollOutcome>) -> bool {
    outcome == Some(PollOutcome::Running)
}

/// The answer to a status query: the name is tracked and its process was seen running.
pub open spec fn status_answer<H>(
    registry: Map<Seq<char>, H>,
    name: Seq<char>,
    outcome: Option<PollOutcome>,
) -> bool {
    registry.contains_key(name) && seen_running(outcome)
}

/// The registry after a status query: a tracked name whose process was not seen running is
/// dropped.
pub open spec fn after_status_query<H>(
    registry: Map<Seq<char>, H>,
    name: Seq<char>,
    outcome: Option<PollOutcome>,
) -> Map<Seq<char>, H> {
    if registry.contains_key(name) && !seen_running(outcome) {
        registry.remove(name)
    } else {
        registry
    }
}

/// The registry after a stop of the name.
pub open spec fn after_stop<H>(registry: Map<Seq<char>, H>, name: Seq<char>) -> Map<Seq<char>, H> {
    registry.remove(name)
}

/// The registry after all servers were stopped.
pub open spec fn after_stop_all<H>(registry: Map<Seq<char>, H>) -> Map<Seq<char>, H> {
    Map::empty()
}

/// What `Supervisor::register` decided.
#[derive(Debug)]
pub struct Registration<H> {
    /// The step with which the start goes on.
    pub next: StartStep,
    /// The process, handed back where the name was already tracked.
    pub refused: Option<H>,
}

/// What `Supervisor::stop_mcp_server` found.
#[derive(Debug)]
pub struct Removal<H> {
    /// The step with which the stop begins.
    pub first: StopStep,
    /// The process that was tracked under the name, if any.
    pub handle: Option<H>,
}

/// The registry of running servers, and the rules by which names enter and leave it.
#[derive(Debug)]
pub struct Supervisor<H> {
    registry: NameMap<H>,
}

impl<H> View for Supervisor<H> {
    type V = Map<Seq<char>, H>;

    closed spec fn view(&self) -> Map<Seq<char>, H> {
        self.registry@
    }
}

impl<H> Supervisor<H> {
    /// A supervisor that tracks nothing.
    pub fn new() -> (supervisor: Self)
        ensures
            supervisor@ == Map::<Seq<char>, H>::empty(),
    {
        Supervisor { registry: NameMap::new() }
    }

    /// Whether a process is tracked under the name.
    pub fn is_tracked(&self, name: &str) -> (present: bool)
        ensures
            present == self@.contains_key(name@),
    {
        self.registry.contains_key(name)
    }

    /// The number of tracked servers.
    pub fn tracked_count(&self) -> (count: usize)
        ensures
            count == self@.len(),
            self@.dom().finite(),
    {
        self.registry.len()
    }

    /// Begins the start of a server: gives `StartStep::Spawn`, or refuses at once where the
    /// name is already tracked. Nothing is changed.
    pub fn start_mcp_server(&self, name: &str) -> (first: StartStep)
        ensures
            !self@.contains_key(name@) ==> first == StartStep::Spawn,
            self@.contains_key(name@) ==> (first matches StartStep::Finish {
                result: Err(SupervisorError::AlreadyRunning { name: refused }),
            } && refused@ == name@),
    {
        if self.registry.contains_key(name) {
            StartStep::Finish {
                result: Err(SupervisorError::AlreadyRunning { name: name.to_owned() }),
            }
        } else {
            StartStep::Spawn
        }
    }

    /// Answers `StartStep::Register`: tracks the process under the name and goes on to
    /// `StartStep::Notify`. Where the name is tracked by now, the registry stays as it is, the
    /// process is handed back, and the start goes on to abandon it.
    pub fn register(&mut self, name: String, handle: H) -> (registration: Registration<H>)
        ensures
            final(self)@ == after_register(old(self)@, name@, handle),
            !old(self)@.contains_key(name@) ==> registration.refused is None && registration.next
                == StartStep::Notify,
            old(self)@.contains_key(name@) ==> registration.refused == Some(handle)
                && registration.next == (StartStep::Abandon {
                error: SupervisorError::AlreadyRunning { name },
            }),
    {
        if self.registry.contains_key(name.as_str()) {
            Registration {
                next: StartStep::Abandon { error: SupervisorError::AlreadyRunning { name } },
                refused: Some(handle),
            }
        } else {
            self.registry.insert(name, handle);
            Registration { next: StartStep::Notify, refused: None }
        }
    }

    /// Lends out the process tracked under the name, to be polled.
    pub fn handle_mut(&mut self, name: &str) -> (slot: Option<&mut H>)
        ensures
            match slot {
                Some(handle) => old(self)@.contains_key(name@) && *handle == old(self)@[name@]
                    && final(self)@ == old(self)@.insert(name@, *final(handle)),
                None => !old(self)@.contains_key(name@) && final(self)@ == old(self)@,
            },
    {
        self.registry.get_mut(name)
    }

    /// Answers whether the server is running. `outcome` is what polling the process lent out
    /// by `handle_mut` has just shown, and `None` where there was no process to poll; it
    /// counts for nothing where the name is not tracked. A tracked name whose process has
    /// exited, or could not be polled, is dropped from the registry.
    pub fn get_server_status(&mut self, name: &str, outcome: Option<PollOutcome>) -> (running: bool)
        ensures
            running == status_answer(old(self)@, name@, outcome),
            final(self)@ == after_status_query(old(self)@, name@, outcome),
    {
        if !self.registry.contains_key(name) {
            return false;
        }
        let alive = match outcome {
            Some(PollOutcome::Running) => true,
            _ => false,
        };
        if !alive {
            self.registry.remove(name);
        }
        alive
    }

    /// Begins the stop of a server: takes the process out of the registry and gives the first
    /// step. Where the name is not tracked nothing is changed, no process is handed out, and
    /// the only step left is to tell the status sink.
    pub fn stop_mcp_server(&mut self, name: &str) -> (removal: Removal<H>)
        ensures
            final(self)@ == after_stop(old(self)@, name@),
            removal.first == opening(old(self)@.contains_key(name@)),
            removal.handle == if old(self)@.contains_key(name@) {
                Some(old(self)@[name@])
            } else {
                None::<H>
            },
            !old(self)@.contains_key(name@) ==> final(self)@ == old(self)@,
    {
        let handle = self.registry.remove(name);
        let first = crate::stop::first_step(handle.is_some());
        proof {
            if !old(self)@.contains_key(name@) {
                assert(old(self)@.remove(name@) =~= old(self)@);
            }
        }
        Removal { first, handle }
    }

    /// Empties the registry and hands out every process that was tracked, each once with its
    /// name and in ascending order of the names, to be terminated by the caller.
    pub fn stop_all_servers(&mut self) -> (swept: Vec<(String, H)>)
        ensures
            final(self)@ == after_stop_all(old(self)@),
            lists_exactly(swept@, old(self)@),
            swept.len() == old(self)@.len(),
            ascending_pairs(swept@),
    {
        self.registry.drain()
    }

    /// The names of the tracked servers, each once, in ascending order.
    pub fn tracked_names(&self) -> (names: Vec<String>)
        ensures
            names.len() == self@.len(),
            ascending(names@),
            forall|name: Seq<char>| self@.contains_key(name) <==> has_name(names@, name),
    {
        self.registry.keys()
    }
}

/// One request to a supervisor, together with what the caller observed while making it.
pub enum Request<H> {
    /// A process is offered for registration under the name.
    Register { name: Seq<char>, handle: H },
    /// The status of the name is queried; polling showed `outcome`.
    StatusQuery { name: Seq<char>, outcome: Option<PollOutcome> },
    /// The name is stopped.
    Stop { name: Seq<char> },
    /// All servers are stopped.
    StopAll,
}

/// The registry after one request.
pub open spec fn apply<H>(registry: Map<Seq<char>, H>, request: Request<H>) -> Map<Seq<char>, H> {
    match request {
        Request::Register { name, handle } => after_register(registry, name, handle),
        Request::StatusQuery { name, outcome } => after_status_query(registry, name, outcome),
        Request::Stop { name } => after_stop(registry, name),
        Request::StopAll => after_stop_all(registry),
    }
}

/// The registry after a sequence of requests, made in order.
pub open spec fn apply_all<H>(registry: Map<Seq<char>, H>, requests: Seq<Request<H>>) -> Map<
    Seq<char>,
    H,
>
    decreases requests.len(),
{
    if requests.len() == 0 {
        registry
    } else {
        apply(apply_all(registry, requests.drop_last()), requests.last())
    }
}

/// Whether the request offers a process under the name.
pub open spec fn registers<H>(request: Request<H>, name: Seq<char>) -> bool {
    request is Register && request->Register_name == name
}

/// Stopping a name that is not tracked changes nothing and asks for no action on any
/// process, whatever the registry holds; and a second stop of a name finds nothing to do.
pub proof fn law_stop_is_idempotent<H>(registry: Map<Seq<char>, H>, name: Seq<char>)
    ensures
        !registry.contains_key(name) ==> after_stop(registry, name) == registry && opening(
            registry.contains_key(name),
        ) == StopStep::Notify,
        !after_stop(registry, name).contains_key(name),
        after_stop(after_stop(registry, name), name) == after_stop(registry, name),
{
    if !registry.contains_key(name) {
        assert(registry.remove(name) =~= registry);
    }
    assert(registry.remove(name).remove(name) =~= registry.remove(name));
}

/// Once a process is registered under a name that was free, the name is tracked with that
/// very process, and a status query that sees the process running answers true and leaves
/// the registry as it is.
pub proof fn law_registered_server_reports_running<H>(
    registry: Map<Seq<char>, H>,
    name: Seq<char>,
    handle: H,
)
    requires
        !registry.contains_key(name),
    ensures
        after_register(registry, name, handle).contains_key(name),
        after_register(registry, name, handle)[name] == handle,
        status_answer(after_register(registry, name, handle), name, Some(PollOutcome::Running)),
        after_status_query(
            after_register(registry, name, handle),
            name,
            Some(PollOutcome::Running),
        ) == after_register(registry, name, handle),
{
}

/// A name holds at most one process: offering a process under a tracked name leaves the
/// registry, and the process tracked under the name, as they were.
pub proof fn law_duplicate_start_is_refused<H>(
    registry: Map<Seq<char>, H>,
    name: Seq<char>,
    handle: H,
)
    requires
        registry.contains_key(name),
    ensures
        after_register(registry, name, handle) == registry,
{
}

/// A name that is not tracked stays untracked, and every status query on it answers false,
/// through any sequence of requests that registers no process under it. So after a stop,
/// or after a status query that found the process gone, the server reports stopped until it
/// is started again.
pub proof fn law_removed_server_reports_stopped<H>(
    registry: Map<Seq<char>, H>,
    name: Seq<char>,
    requests: Seq<Request<H>>,
    outcome: Option<PollOutcome>,
)
    requires
        !registry.contains_key(name),
        forall|i: int| 0 <= i < requests.len() ==> !registers(#[trigger] requests[i], name),
    ensures
        !apply_all(registry, requests).contains_key(name),
        !status_answer(apply_all(registry, requests), name, outcome),
    decreases requests.len(),
{
    if requests.len() > 0 {
        let earlier = requests.drop_last();
        assert forall|i: int| 0 <= i < earlier.len() implies !registers(
            #[trigger] earlier[i],
            name,
        ) by {
            assert(earlier[i] == requests[i]);
        }
        law_removed_server_reports_stopped(registry, name, earlier, outcome);
        assert(!registers(requests[requests.len() - 1], name));
    }
}

/// A tracked server whose process has exited, or cannot be polled, is found out by the next
/// status query: the query answers false, the name leaves the registry and so is not among
/// what a later sweep hands out, and every other name is left alone.
pub proof fn law_self_healing<H>(
    registry: Map<Seq<char>, H>,
    name: Seq<char>,
    outcome: Option<PollOutcome>,
    swept: Seq<(String, H)>,
)
    requires
        registry.contains_key(name),
        !seen_running(outcome),
        lists_exactly(swept, after_status_query(registry, name, outcome)),
    ensures
        !status_answer(registry, name, outcome),
        !after_status_query(registry, name, outcome).contains_key(name),
        forall|i: int| 0 <= i < swept.len() ==> (#[trigger] swept[i]).0@ != name,
        forall|other: Seq<char>|
            other != name ==> (after_status_query(registry, name, outcome).contains_key(other)
                <==> registry.contains_key(other)),
        forall|other: Seq<char>|
            other != name && registry.contains_key(other) ==> after_status_query(
                registry,
                name,
                outcome,
            )[other] == registry[other],
{
}

/// After all servers were stopped nothing is tracked, whatever was tracked before and
/// whatever came of terminating the processes: every status query answers false, a second
/// sweep finds nothing, and a stop finds nothing.
pub proof fn law_sweep_is_complete<H>(
    registry: Map<Seq<char>, H>,
    name: Seq<char>,
    outcome: Option<PollOutcome>,
    swept_again: Seq<(String, H)>,
)
    requires
        lists_exactly(swept_again, after_stop_all(registry)),
    ensures
        after_stop_all(registry) == Map::<Seq<char>, H>::empty(),
        !status_answer(after_stop_all(registry), name, outcome),
        after_stop_all(after_stop_all(registry)) == after_stop_all(registry),
        after_stop(after_stop_all(registry), name) == after_stop_all(registry),
        swept_again.len() == 0,
{
    assert(Map::<Seq<char>, H>::empty().remove(name) =~= Map::<Seq<char>, H>::empty());
    if swept_again.len() > 0 {
        assert(after_stop_all(registry).contains_key(swept_again[0].0@));
    }
}

/// A name enters the registry by registration only: whatever else is asked of the
/// supervisor, a name that was not tracked before is not tracked after.
pub proof fn law_only_registration_adds<H>(
    registry: Map<Seq<char>, H>,
    request: Request<H>,
    name: Seq<char>,
)
    requires
        !registry.contains_key(name),
        apply(registry, request).contains_key(name),
    ensures
        registers(request, name),
        apply(registry, request)[name] == request->Register_handle,
{
}

/// A request about one name leaves every other name, and its process, as it was.
pub proof fn law_other_names_untouched<H>(
    registry: Map<Seq<char>, H>,
    request: Request<H>,
    other: Seq<char>,
)
    requires
        match request {
            Request::Register { name, .. } => name != other,
            Request::StatusQuery { name, .. } => name != other,
            Request::Stop { name } => name != other,
            Request::StopAll => false,
        },
    ensures
        apply(registry, request).contains_key(other) <==> registry.contains_key(other),
        registry.contains_key(other) ==> apply(registry, request)[other] == registry[other],
{
}

} // verus!
