//! Keeping the access point on the air: start it, wait until it stops, cool
//! down, start it again.
//!
//! A [`Supervisor`] never touches the radio. It names the operation that is
//! due ([`Supervisor::command`]) and is told what the radio did
//! ([`Supervisor::advance`]).

use vstd::prelude::*;
use crate::failure::{severity_of, Failure};

verus! {

/// Milliseconds to wait after the access point stopped, and after a start that
/// failed, before the radio is looked at again.
pub const COOLDOWN_MS: u64 = 5000;

/// Name under which the access point is advertised.
pub const SSID: &'static str = "esp-radio";

/// Passphrase that joining stations present.
pub const PASSWORD: &'static str = "password";

/// Whether the access point is on the air.
#[derive(Clone, Copy, Debug, PartialEq, Eq, Structural)]
pub enum RadioAssociationState {
    NotRunning,
    Running,
}

/// How joining stations authenticate.
#[derive(Clone, Copy, Debug, PartialEq, Eq, Structural)]
pub enum AuthMethod {
    Open,
    Wpa2Personal,
    Wpa3Personal,
}

/// What the radio is told when the access point is started.
#[derive(Clone, Debug, PartialEq, Eq)]
pub struct AccessPointConfig {
    ssid: String,
    password: String,
    auth_method: AuthMethod,
}

/// An access point configuration as the contracts see it.
pub ghost struct AccessPointConfigModel {
    pub ssid: Seq<char>,
    pub password: Seq<char>,
    pub auth_method: AuthMethod,
}

impl View for AccessPointConfig {
    type V = AccessPointConfigModel;

    closed spec fn view(&self) -> AccessPointConfigModel {
        AccessPointConfigModel {
            ssid: self.ssid@,
            password: self.password@,
            auth_method: self.auth_method,
        }
    }
}

/// The configuration that this access point runs with.
pub open spec fn fixed_config() -> AccessPointConfigModel {
    AccessPointConfigModel { ssid: SSID@, password: PASSWORD@, auth_method: AuthMethod::Wpa2Personal }
}

impl AccessPointConfig {
    /// A configuration with the given name, passphrase and authentication.
    pub fn new(ssid: String, password: String, auth_method: AuthMethod) -> (config:
        AccessPointConfig)
        ensures
            config@ == (AccessPointConfigModel { ssid: ssid@, password: password@, auth_method }),
    {
        AccessPointConfig { ssid, password, auth_method }
    }

    /// The configuration that this access point runs with.
    pub fn fixed() -> (config: AccessPointConfig)
        ensures
            config@ == fixed_config(),
    {
        AccessPointConfig {
            ssid: SSID.to_string(),
            password: PASSWORD.to_string(),
            auth_method: AuthMethod::Wpa2Personal,
        }
    }

    /// Name under which the access point is advertised.
    pub fn ssid(&self) -> (ssid: &str)
        ensures
            ssid@ == self@.ssid,
    {
        self.ssid.as_str()
    }

    /// Passphrase that joining stations present.
    pub fn password(&self) -> (password: &str)
        ensures
            password@ == self@.password,
    {
        self.password.as_str()
    }

    /// How joining stations authenticate.
    pub fn auth_method(&self) -> (auth_method: AuthMethod)
        ensures
            auth_method == self@.auth_method,
    {
        self.auth_method
    }
}

/// What the supervisor is busy with.
#[derive(Clone, Copy, Debug, PartialEq, Eq, Structural)]
pub enum SupervisorState {
    /// The radio is to be asked whether the access point runs.
    Evaluating,
    /// The access point runs; its stop is awaited.
    Watching,
    /// The access point is down; the cooldown runs.
    Cooldown,
    /// The access point is down; it is to be configured and started.
    Starting,
}

/// An operation on the radio or the timer.
#[derive(Clone, Debug, PartialEq, Eq)]
pub enum SupervisorCommand {
    /// Ask the radio whether the access point runs.
    Query,
    /// Wait until the radio signals that the access point stopped.
    AwaitStop,
    /// Wait `delay_ms` milliseconds.
    Sleep { delay_ms: u64 },
    /// Apply the given configuration and start the access point.
    Start(AccessPointConfig),
}

/// An operation on the radio or the timer as the contracts see it.
pub ghost enum SupervisorCommandModel {
    Query,
    AwaitStop,
    Sleep { delay_ms: u64 },
    Start(AccessPointConfigModel),
}

impl View for SupervisorCommand {
    type V = SupervisorCommandModel;

    open spec fn view(&self) -> SupervisorCommandModel {
        match self {
            SupervisorCommand::Query => SupervisorCommandModel::Query,
            SupervisorCommand::AwaitStop => SupervisorCommandModel::AwaitStop,
            SupervisorCommand::Sleep { delay_ms } => SupervisorCommandModel::Sleep {
                delay_ms: *delay_ms,
            },
            SupervisorCommand::Start(config) => SupervisorCommandModel::Start(config@),
        }
    }
}

/// What the radio or the timer did.
#[derive(Clone, Copy, Debug, PartialEq, Eq, Structural)]
pub enum RadioEvent {
    /// The radio answered a query.
    Reported(RadioAssociationState),
    /// The access point stopped.
    Stopped,
    /// The time to wait is over.
    Elapsed,
    /// The access point was configured and started.
    Started,
    /// The radio refused the configuration.
    ConfigFailed,
    /// The configuration was applied and the access point did not start.
    StartFailed,
}

/// A supervisor as the contracts see it: what it is busy with, and what it
/// last learned of the radio.
pub ghost struct SupervisorModel {
    pub state: SupervisorState,
    pub radio: RadioAssociationState,
}

/// A supervisor that has not looked at the radio yet.
pub open spec fn initial() -> SupervisorModel {
    SupervisorModel { state: SupervisorState::Evaluating, radio: RadioAssociationState::NotRunning }
}

/// What every supervisor satisfies: it watches only a radio that runs, and
/// cools down and starts only while the radio does not run.
pub open spec fn well_formed(m: SupervisorModel) -> bool {
    &&& m.state is Watching ==> m.radio is Running
    &&& m.state is Cooldown ==> m.radio is NotRunning
    &&& m.state is Starting ==> m.radio is NotRunning
}

/// The supervisor after `event`. An event that does not belong to the
/// operation that is due changes nothing.
pub open spec fn transition(m: SupervisorModel, event: RadioEvent) -> SupervisorModel {
    match (m.state, event) {
        (SupervisorState::Evaluating, RadioEvent::Reported(RadioAssociationState::Running)) => {
            SupervisorModel {
                state: SupervisorState::Watching,
                radio: RadioAssociationState::Running,
            }
        },
        (SupervisorState::Evaluating, RadioEvent::Reported(RadioAssociationState::NotRunning)) => {
            SupervisorModel {
                state: SupervisorState::Starting,
                radio: RadioAssociationState::NotRunning,
            }
        },
        (SupervisorState::Watching, RadioEvent::Stopped) => SupervisorModel {
            state: SupervisorState::Cooldown,
            radio: RadioAssociationState::NotRunning,
        },
        (SupervisorState::Cooldown, RadioEvent::Elapsed) => SupervisorModel {
            state: SupervisorState::Evaluating,
            ..m
        },
        (SupervisorState::Starting, RadioEvent::Started) => SupervisorModel {
            state: SupervisorState::Watching,
            radio: RadioAssociationState::Running,
        },
        (SupervisorState::Starting, RadioEvent::ConfigFailed) => SupervisorModel {
            state: SupervisorState::Cooldown,
            ..m
        },
        (SupervisorState::Starting, RadioEvent::StartFailed) => SupervisorModel {
            state: SupervisorState::Cooldown,
            ..m
        },
        _ => m,
    }
}

/// The failure that `event` reports of the operation that is due; none where
/// the operation did not fail.
pub open spec fn failure_of(m: SupervisorModel, event: RadioEvent) -> Option<Failure> {
    match (m.state, event) {
        (SupervisorState::Starting, RadioEvent::ConfigFailed) => Some(Failure::AccessPointConfig),
        (SupervisorState::Starting, RadioEvent::StartFailed) => Some(Failure::AccessPointStart),
        _ => None,
    }
}

/// The operation that is due. A start applies the fixed configuration.
pub open spec fn command_for(m: SupervisorModel) -> SupervisorCommandModel {
    match m.state {
        SupervisorState::Evaluating => SupervisorCommandModel::Query,
        SupervisorState::Watching => SupervisorCommandModel::AwaitStop,
        SupervisorState::Cooldown => SupervisorCommandModel::Sleep { delay_ms: COOLDOWN_MS },
        SupervisorState::Starting => SupervisorCommandModel::Start(fixed_config()),
    }
}

/// The supervisor after `events`, in order.
pub open spec fn after_events(m: SupervisorModel, events: Seq<RadioEvent>) -> SupervisorModel
    decreases events.len(),
{
    if events.len() == 0 {
        m
    } else {
        after_events(transition(m, events.first()), events.drop_first())
    }
}

/// Keeps the access point on the air.
pub struct Supervisor {
    state: SupervisorState,
    radio: RadioAssociationState,
}

impl View for Supervisor {
    type V = SupervisorModel;

    closed spec fn view(&self) -> SupervisorModel {
        SupervisorModel { state: self.state, radio: self.radio }
    }
}

impl Supervisor {
    #[verifier::type_invariant]
    spec fn consistent(self) -> bool {
        well_formed(self@)
    }

    /// A supervisor that has not looked at the radio yet.
    pub fn new() -> (supervisor: Supervisor)
        ensures
            supervisor@ == initial(),
    {
        Supervisor { state: SupervisorState::Evaluating, radio: RadioAssociationState::NotRunning }
    }

    /// What the supervisor is busy with.
    pub fn state(&self) -> (state: SupervisorState)
        ensures
            state == self@.state,
    {
        self.state
    }

    /// What the supervisor last learned of the radio. Other components read
    /// the state of the access point here.
    pub fn radio_state(&self) -> (radio: RadioAssociationState)
        ensures
            radio == self@.radio,
            well_formed(self@),
    {
        proof {
            use_type_invariant(self);
        }
        self.radio
    }

    /// The operation that is due. A start is due only while the radio is known
    /// not to run, and its configuration is built anew each time.
    pub fn command(&self) -> (command: SupervisorCommand)
        ensures
            command@ == command_for(self@),
            command is Start ==> self@.radio is NotRunning,
    {
        proof {
            use_type_invariant(self);
        }
        match self.state {
            SupervisorState::Evaluating => SupervisorCommand::Query,
            SupervisorState::Watching => SupervisorCommand::AwaitStop,
            SupervisorState::Cooldown => SupervisorCommand::Sleep { delay_ms: COOLDOWN_MS },
            SupervisorState::Starting => SupervisorCommand::Start(AccessPointConfig::fixed()),
        }
    }

    /// Takes note of what the radio or the timer did, and returns the failure
    /// to log where the operation failed. No failure ends the supervision: a
    /// start that failed is tried again after the cooldown.
    pub fn advance(&mut self, event: RadioEvent) -> (failure: Option<Failure>)
        ensures
            final(self)@ == transition(old(self)@, event),
            failure == failure_of(old(self)@, event),
            well_formed(final(self)@),
    {
        proof {
            use_type_invariant(&*self);
        }
        let (state, radio) = match (self.state, event) {
            (SupervisorState::Evaluating, RadioEvent::Reported(RadioAssociationState::Running)) => {
                (SupervisorState::Watching, RadioAssociationState::Running)
            },
            (
                SupervisorState::Evaluating,
                RadioEvent::Reported(RadioAssociationState::NotRunning),
            ) => (SupervisorState::Starting, RadioAssociationState::NotRunning),
            (SupervisorState::Watching, RadioEvent::Stopped) => (
                SupervisorState::Cooldown,
                RadioAssociationState::NotRunning,
            ),
            (SupervisorState::Cooldown, RadioEvent::Elapsed) => (
                SupervisorState::Evaluating,
                self.radio,
            ),
            (SupervisorState::Starting, RadioEvent::Started) => (
                SupervisorState::Watching,
                RadioAssociationState::Running,
            ),
            (SupervisorState::Starting, RadioEvent::ConfigFailed) => (
                SupervisorState::Cooldown,
                self.radio,
            ),
            (SupervisorState::Starting, RadioEvent::StartFailed) => (
                SupervisorState::Cooldown,
                self.radio,
            ),
            _ => (self.state, self.radio),
        };
        let failure = match (self.state, event) {
            (SupervisorState::Starting, RadioEvent::ConfigFailed) => Some(
                Failure::AccessPointConfig,
            ),
            (SupervisorState::Starting, RadioEvent::StartFailed) => Some(
                Failure::AccessPointStart,
            ),
            _ => None,
        };
        *self = Supervisor { state, radio };
        failure
    }
}

/// Every event leaves a well-formed supervisor well-formed.
pub proof fn lemma_transition_keeps_well_formed(m: SupervisorModel, event: RadioEvent)
    requires
        well_formed(m),
    ensures
        well_formed(transition(m, event)),
{
}

/// No double start. A start is due only while the radio is known not to run,
/// and it becomes due only by the radio's report that the access point does
/// not run.
pub proof fn lemma_no_double_start(m: SupervisorModel, event: RadioEvent)
    requires
        well_formed(m),
    ensures
        ({
            let next = transition(m, event);
            &&& command_for(next) is Start ==> next.radio is NotRunning
            &&& command_for(next) is Start && !(command_for(m) is Start) ==> event
                == RadioEvent::Reported(RadioAssociationState::NotRunning)
        }),
{
}

/// Whatever has happened to a well-formed supervisor, it is well-formed.
pub proof fn lemma_events_keep_well_formed(m: SupervisorModel, events: Seq<RadioEvent>)
    requires
        well_formed(m),
    ensures
        well_formed(after_events(m, events)),
    decreases events.len(),
{
    if events.len() > 0 {
        lemma_events_keep_well_formed(transition(m, events.first()), events.drop_first());
    }
}

/// Whatever has happened since the supervisor began, a start is due only
/// while the radio is known not to run.
pub proof fn lemma_never_starts_a_running_radio(events: Seq<RadioEvent>)
    ensures
        ({
            let now = after_events(initial(), events);
            command_for(now) is Start ==> now.radio is NotRunning
        }),
{
    lemma_events_keep_well_formed(initial(), events);
}

/// A start that succeeded is followed by the wait for the stop, one that
/// failed by the cooldown: the supervisor goes on either way.
pub proof fn lemma_start_outcomes(m: SupervisorModel)
    requires
        m.state is Starting,
    ensures
        command_for(transition(m, RadioEvent::Started)) == SupervisorCommandModel::AwaitStop,
        transition(m, RadioEvent::Started).radio is Running,
        command_for(transition(m, RadioEvent::ConfigFailed)) == (SupervisorCommandModel::Sleep {
            delay_ms: COOLDOWN_MS,
        }),
        command_for(transition(m, RadioEvent::StartFailed)) == (SupervisorCommandModel::Sleep {
            delay_ms: COOLDOWN_MS,
        }),
{
}

/// Whatever fails under the supervisor can be survived.
pub proof fn lemma_failures_are_survivable(m: SupervisorModel, event: RadioEvent)
    ensures
        failure_of(m, event) is Some ==> !(severity_of(failure_of(m, event)->Some_0) is Fatal),
{
}

/// When the access point stops, the cooldown of `COOLDOWN_MS` milliseconds is
/// due.
pub proof fn lemma_stop_is_followed_by_cooldown(m: SupervisorModel)
    requires
        m.state is Watching,
    ensures
        transition(m, RadioEvent::Stopped).state is Cooldown,
        command_for(transition(m, RadioEvent::Stopped)) == (SupervisorCommandModel::Sleep {
            delay_ms: COOLDOWN_MS,
        }),
{
}

/// Nothing but the end of the wait ends the cooldown.
pub proof fn lemma_cooldown_holds(m: SupervisorModel, events: Seq<RadioEvent>)
    requires
        m.state is Cooldown,
        !events.contains(RadioEvent::Elapsed),
    ensures
        after_events(m, events) == m,
    decreases events.len(),
{
    if events.len() > 0 {
        assert(events[0] != RadioEvent::Elapsed);
        let rest = events.drop_first();
        assert forall|i: int| 0 <= i < rest.len() implies rest[i] != RadioEvent::Elapsed by {
            assert(rest[i] == events[i + 1]);
        }
        lemma_cooldown_holds(m, rest);
    }
}

/// After the access point stopped, no start is due before the cooldown has
/// been waited out: whatever happens in between, a start that is due shows
/// that the wait of `COOLDOWN_MS` milliseconds has ended.
pub proof fn lemma_no_restart_before_cooldown(m: SupervisorModel, events: Seq<RadioEvent>)
    requires
        m.state is Watching,
        command_for(after_events(transition(m, RadioEvent::Stopped), events)) is Start,
    ensures
        events.contains(RadioEvent::Elapsed),
{
    if !events.contains(RadioEvent::Elapsed) {
        lemma_cooldown_holds(transition(m, RadioEvent::Stopped), events);
    }
}

} // verus!
