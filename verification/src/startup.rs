//! Bringing the device up: resolve the configuration, spawn the long-lived
//! tasks, wait for the link, hand over to the request handler.
//!
//! A [`Bringup`] spawns nothing itself. It names the step that is due
//! ([`Bringup::command`]) and is told how the step ended
//! ([`Bringup::advance`]).

use vstd::prelude::*;
use vstd::string::StringSliceAdditionalSpecFns;
use crate::failure::Failure;
use crate::gateway::{
    chosen_text, gateway_text, is_address, resolve_gateway, stack_seed, static_config, text_of, GatewayAddress,
    GatewayError, StaticIpv4Config, PREFIX_LEN,
};

verus! {

/// Milliseconds between two looks at the link.
pub const LINK_POLL_INTERVAL_MS: u64 = 500;

/// Number of sockets that the network stack can hold.
pub const SOCKET_POOL_CAPACITY: usize = 3;

/// What the network stack and the lease service are built from.
#[derive(Debug)]
pub struct StackPlan<'a> {
    /// The text that the gateway address was read from; the lease service is
    /// handed the same text.
    pub gateway_text: &'a str,
    /// The gateway address, which is the device's own.
    pub gateway: GatewayAddress,
    /// The static configuration of the stack.
    pub config: StaticIpv4Config,
    /// The seed of the stack's own randomness.
    pub seed: u64,
    /// Number of sockets that the stack can hold.
    pub sockets: usize,
}

/// Resolves what the network stack is built from: the gateway address from
/// `configured` or the default, the static configuration for that address,
/// and the seed from two random draws. A malformed address is an error, and
/// then nothing is built.
pub fn plan_stack<'a>(configured: Option<&'a str>, high: u32, low: u32) -> (plan: Result<
    StackPlan<'a>,
    GatewayError,
>)
    ensures
        plan is Ok <==> is_address(chosen_text(configured)),
        plan is Err ==> plan->Err_0 == GatewayError::Malformed,
        plan is Ok ==> ({
            let built = plan->Ok_0;
            &&& built.gateway_text.spec_bytes() == chosen_text(configured)
            &&& chosen_text(configured) == text_of(built.gateway)
            &&& built.config.address == built.gateway
            &&& built.config.prefix_len == PREFIX_LEN
            &&& built.config.gateway == Some(built.gateway)
            &&& built.config.dns_servers@.len() == 0
            &&& built.seed == high * 0x1_0000_0000 + low
            &&& built.sockets == SOCKET_POOL_CAPACITY
        }),
{
    match resolve_gateway(configured) {
        Ok(gateway) => Ok(
            StackPlan {
                gateway_text: gateway_text(configured),
                gateway,
                config: static_config(gateway),
                seed: stack_seed(high, low),
                sockets: SOCKET_POOL_CAPACITY,
            },
        ),
        Err(error) => Err(error),
    }
}

/// A task that runs as long as the device does.
#[derive(Clone, Copy, Debug, PartialEq, Eq, Structural)]
pub enum Task {
    /// Moves frames between the radio and the network stack.
    NetworkRunner,
    /// Keeps the access point on the air.
    ApSupervisor,
    /// Hands out addresses to joining stations.
    LeaseService,
}

/// How far the bring-up has come.
#[derive(Clone, Copy, Debug, PartialEq, Eq, Structural)]
pub enum BringupState {
    /// The given task is to be spawned.
    Spawning(Task),
    /// The link is to be looked at.
    PollingLink,
    /// The link was down; the next look is waited for.
    WaitingForLink,
    /// The link is up; the request handler runs.
    Serving,
}

/// A step of the bring-up.
#[derive(Clone, Copy, Debug, PartialEq, Eq, Structural)]
pub enum BringupCommand {
    /// Spawn the given task.
    Spawn(Task),
    /// Ask the network stack whether the link is up.
    QueryLink,
    /// Wait `delay_ms` milliseconds.
    Sleep { delay_ms: u64 },
    /// Run the request handler, which does not return.
    Serve,
}

/// How a step of the bring-up ended.
#[derive(Clone, Copy, Debug, PartialEq, Eq, Structural)]
pub enum BringupEvent {
    /// The task was spawned.
    Spawned,
    /// The task could not be spawned.
    SpawnFailed,
    /// The network stack said whether the link is up.
    Link(bool),
    /// The time to wait is over.
    Elapsed,
}

/// A bring-up as the contracts see it: how far it has come, and how many
/// tasks could not be spawned.
pub ghost struct BringupModel {
    pub state: BringupState,
    pub failed_spawns: nat,
}

/// A bring-up that has spawned nothing yet.
pub open spec fn initial() -> BringupModel {
    BringupModel { state: BringupState::Spawning(Task::NetworkRunner), failed_spawns: 0 }
}

/// What follows the spawning of `task`.
pub open spec fn after_task(task: Task) -> BringupState {
    match task {
        Task::NetworkRunner => BringupState::Spawning(Task::ApSupervisor),
        Task::ApSupervisor => BringupState::Spawning(Task::LeaseService),
        Task::LeaseService => BringupState::PollingLink,
    }
}

/// Number of tasks whose spawning has been tried when the bring-up is in
/// `state`.
pub open spec fn spawns_tried(state: BringupState) -> nat {
    match state {
        BringupState::Spawning(Task::NetworkRunner) => 0,
        BringupState::Spawning(Task::ApSupervisor) => 1,
        BringupState::Spawning(Task::LeaseService) => 2,
        _ => 3,
    }
}

/// What every bring-up satisfies: no more spawns have failed than were tried.
pub open spec fn well_formed(m: BringupModel) -> bool {
    m.failed_spawns <= spawns_tried(m.state)
}

/// The bring-up after `event`. A task that could not be spawned is counted and
/// the bring-up goes on. An event that does not belong to the step that is
/// due changes nothing.
pub open spec fn transition(m: BringupModel, event: BringupEvent) -> BringupModel {
    match (m.state, event) {
        (BringupState::Spawning(task), BringupEvent::Spawned) => BringupModel {
            state: after_task(task),
            ..m
        },
        (BringupState::Spawning(task), BringupEvent::SpawnFailed) => BringupModel {
            state: after_task(task),
            failed_spawns: m.failed_spawns + 1,
        },
        (BringupState::PollingLink, BringupEvent::Link(true)) => BringupModel {
            state: BringupState::Serving,
            ..m
        },
        (BringupState::PollingLink, BringupEvent::Link(false)) => BringupModel {
            state: BringupState::WaitingForLink,
            ..m
        },
        (BringupState::WaitingForLink, BringupEvent::Elapsed) => BringupModel {
            state: BringupState::PollingLink,
            ..m
        },
        _ => m,
    }
}

/// The failure that `event` reports of the step that is due; none where the
/// step did not fail.
pub open spec fn failure_of(m: BringupModel, event: BringupEvent) -> Option<Failure> {
    if m.state is Spawning && event is SpawnFailed {
        Some(Failure::TaskSpawn)
    } else {
        None
    }
}

/// The step that is due.
pub open spec fn command_for(m: BringupModel) -> BringupCommand {
    match m.state {
        BringupState::Spawning(task) => BringupCommand::Spawn(task),
        BringupState::PollingLink => BringupCommand::QueryLink,
        BringupState::WaitingForLink => BringupCommand::Sleep { delay_ms: LINK_POLL_INTERVAL_MS },
        BringupState::Serving => BringupCommand::Serve,
    }
}

/// The bring-up after `events`, in order.
pub open spec fn after_events(m: BringupModel, events: Seq<BringupEvent>) -> BringupModel
    decreases events.len(),
{
    if events.len() == 0 {
        m
    } else {
        after_events(transition(m, events.first()), events.drop_first())
    }
}

/// The bring-up of the device.
pub struct Bringup {
    state: BringupState,
    failed_spawns: u8,
}

impl View for Bringup {
    type V = BringupModel;

    closed spec fn view(&self) -> BringupModel {
        BringupModel { state: self.state, failed_spawns: self.failed_spawns as nat }
    }
}

impl Bringup {
    #[verifier::type_invariant]
    spec fn consistent(self) -> bool {
        well_formed(self@)
    }

    /// A bring-up that has spawned nothing yet.
    pub fn new() -> (bringup: Bringup)
        ensures
            bringup@ == initial(),
    {
        Bringup { state: BringupState::Spawning(Task::NetworkRunner), failed_spawns: 0 }
    }

    /// How far the bring-up has come.
    pub fn state(&self) -> (state: BringupState)
        ensures
            state == self@.state,
    {
        self.state
    }

    /// Number of tasks that could not be spawned.
    pub fn failed_spawns(&self) -> (count: u8)
        ensures
            count == self@.failed_spawns,
            count <= 3,
    {
        proof {
            use_type_invariant(self);
        }
        self.failed_spawns
    }

    /// The step that is due.
    pub fn command(&self) -> (command: BringupCommand)
        ensures
            command == command_for(self@),
    {
        match self.state {
            BringupState::Spawning(task) => BringupCommand::Spawn(task),
            BringupState::PollingLink => BringupCommand::QueryLink,
            BringupState::WaitingForLink => BringupCommand::Sleep {
                delay_ms: LINK_POLL_INTERVAL_MS,
            },
            BringupState::Serving => BringupCommand::Serve,
        }
    }

    /// Takes note of how the step that was due ended, and returns the failure
    /// to log where it failed. A task that could not be spawned is not spawned
    /// again.
    pub fn advance(&mut self, event: BringupEvent) -> (failure: Option<Failure>)
        ensures
            final(self)@ == transition(old(self)@, event),
            failure == failure_of(old(self)@, event),
            well_formed(final(self)@),
    {
        proof {
            use_type_invariant(&*self);
        }
        let (state, failed_spawns) = match (self.state, event) {
            (BringupState::Spawning(task), BringupEvent::Spawned) => (
                Self::next_after(task),
                self.failed_spawns,
            ),
            (BringupState::Spawning(task), BringupEvent::SpawnFailed) => (
                Self::next_after(task),
                self.failed_spawns + 1,
            ),
            (BringupState::PollingLink, BringupEvent::Link(true)) => (
                BringupState::Serving,
                self.failed_spawns,
            ),
            (BringupState::PollingLink, BringupEvent::Link(false)) => (
                BringupState::WaitingForLink,
                self.failed_spawns,
            ),
            (BringupState::WaitingForLink, BringupEvent::Elapsed) => (
                BringupState::PollingLink,
                self.failed_spawns,
            ),
            _ => (self.state, self.failed_spawns),
        };
        let failure = match (self.state, event) {
            (BringupState::Spawning(_), BringupEvent::SpawnFailed) => Some(Failure::TaskSpawn),
            _ => None,
        };
        *self = Bringup { state, failed_spawns };
        failure
    }

    fn next_after(task: Task) -> (state: BringupState)
        ensures
            state == after_task(task),
    {
        match task {
            Task::NetworkRunner => BringupState::Spawning(Task::ApSupervisor),
            Task::ApSupervisor => BringupState::Spawning(Task::LeaseService),
            Task::LeaseService => BringupState::PollingLink,
        }
    }
}

/// Every event leaves a well-formed bring-up well-formed.
pub proof fn lemma_transition_keeps_well_formed(m: BringupModel, event: BringupEvent)
    requires
        well_formed(m),
    ensures
        well_formed(transition(m, event)),
{
}

/// The request handler is reached by one event only: the link was looked at
/// and was up.
pub proof fn lemma_serving_follows_link_up(m: BringupModel, event: BringupEvent)
    requires
        !(m.state is Serving),
        transition(m, event).state is Serving,
    ensures
        m.state is PollingLink,
        event == BringupEvent::Link(true),
{
}

/// The request handler does not run before the link has been seen up:
/// whatever happens to a bring-up that has not reached the handler, if the
/// handler is due afterwards then one of the events was the report that the
/// link is up.
pub proof fn lemma_no_serving_before_link_up(m: BringupModel, events: Seq<BringupEvent>)
    requires
        !(m.state is Serving),
        command_for(after_events(m, events)) is Serve,
    ensures
        events.contains(BringupEvent::Link(true)),
    decreases events.len(),
{
    if events.len() > 0 {
        let next = transition(m, events.first());
        if next.state is Serving {
            assert(events[0] == BringupEvent::Link(true));
        } else {
            let rest = events.drop_first();
            lemma_no_serving_before_link_up(next, rest);
            let i = choose|i: int| 0 <= i < rest.len() && rest[i] == BringupEvent::Link(true);
            assert(events[i + 1] == BringupEvent::Link(true));
        }
    }
}

/// From the start of the bring-up on, the request handler is due only after
/// the link was reported up, and the three tasks were dealt with before that.
pub proof fn lemma_handler_waits_for_link(events: Seq<BringupEvent>)
    requires
        command_for(after_events(initial(), events)) is Serve,
    ensures
        events.contains(BringupEvent::Link(true)),
        events.len() >= 4,
{
    lemma_no_serving_before_link_up(initial(), events);
    lemma_steps_needed(initial(), events);
}

/// Number of steps between `state` and the request handler, at the least.
pub open spec fn steps_to_serving(state: BringupState) -> nat {
    match state {
        BringupState::Spawning(Task::NetworkRunner) => 4,
        BringupState::Spawning(Task::ApSupervisor) => 3,
        BringupState::Spawning(Task::LeaseService) => 2,
        BringupState::PollingLink => 1,
        BringupState::WaitingForLink => 2,
        BringupState::Serving => 0,
    }
}

/// No event brings the request handler nearer by more than one step.
proof fn lemma_steps_needed(m: BringupModel, events: Seq<BringupEvent>)
    requires
        after_events(m, events).state is Serving,
    ensures
        events.len() >= steps_to_serving(m.state),
    decreases events.len(),
{
    if events.len() > 0 {
        lemma_steps_needed(transition(m, events.first()), events.drop_first());
    }
}

/// While the link is down it is looked at again after every wait of
/// `LINK_POLL_INTERVAL_MS` milliseconds.
pub proof fn lemma_link_is_polled(m: BringupModel)
    requires
        m.state is PollingLink,
    ensures
        command_for(transition(m, BringupEvent::Link(false))) == (BringupCommand::Sleep {
            delay_ms: LINK_POLL_INTERVAL_MS,
        }),
        command_for(
            transition(transition(m, BringupEvent::Link(false)), BringupEvent::Elapsed),
        ) == BringupCommand::QueryLink,
{
}

/// The three tasks are spawned in their order before the link is looked at,
/// whether or not a spawn fails.
pub proof fn lemma_tasks_are_spawned_first(
    runner: BringupEvent,
    supervisor: BringupEvent,
    lease: BringupEvent,
)
    requires
        runner is Spawned || runner is SpawnFailed,
        supervisor is Spawned || supervisor is SpawnFailed,
        lease is Spawned || lease is SpawnFailed,
    ensures
        ({
            let first = initial();
            let second = transition(first, runner);
            let third = transition(second, supervisor);
            let polling = transition(third, lease);
            &&& command_for(first) == BringupCommand::Spawn(Task::NetworkRunner)
            &&& command_for(second) == BringupCommand::Spawn(Task::ApSupervisor)
            &&& command_for(third) == BringupCommand::Spawn(Task::LeaseService)
            &&& command_for(polling) == BringupCommand::QueryLink
        }),
{
}

} // verus!
