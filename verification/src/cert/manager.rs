//! The life of the identity: obtained once at startup, then renewed for as
//! long as the keeper runs.
//!
//! The manager decides; it performs nothing itself.  It hands out one
//! [`Action`] at a time, the driver carries it out and reports what happened
//! as an [`Event`], and the manager answers with the next action.

use crate::cert::store::CertStore;
use crate::config::{Config, ConfigView};
use crate::threshold::{scaled, RenewalThreshold};
use vstd::prelude::*;

verus! {

/// The shortest pause after a failure, in seconds.
pub const INITIAL_BACKOFF_SECS: u64 = 5;

/// The longest pause after a failure, in seconds.
pub const MAX_BACKOFF_SECS: u64 = 300;

/// Where the manager stands.  Each phase waits for the outcome of one action.
#[derive(Debug, Clone, Copy, PartialEq, Eq, Structural)]
pub enum Phase {
    /// Startup: logging in.
    StartLogin,
    /// Startup: asking for the first certificate.
    StartIssue,
    /// Startup: putting the first bundle on disk.
    StartWrite,
    /// Startup: building server material from the first bundle.
    StartParse,
    /// Startup: publishing the first material.
    StartPublish,
    /// Startup is done and the first identity is published.
    Ready,
    /// Startup failed.  Nothing follows.
    Failed,
    /// Serving: sleeping until the lease has run to its threshold.
    Waiting,
    /// Renewal: logging in again.
    Login,
    /// Renewal: pausing after a failed login.
    AuthBackoff,
    /// Renewal: asking for a new certificate.
    Issue,
    /// Renewal: pausing after a failed request.
    IssueBackoff,
    /// Renewal: putting the new bundle on disk.
    Write,
    /// Renewal: building server material from the new bundle.
    Parse,
    /// Renewal: publishing the new material.
    Publish,
    /// Shut down.  Nothing follows.
    Stopped,
}

/// What the driver reports back.
#[derive(Debug, Clone, Copy, PartialEq, Eq, Structural)]
pub enum Event {
    LoginSucceeded,
    LoginFailed,
    /// A bundle was issued, with its lease in seconds.
    Issued { lease_secs: u64 },
    IssueFailed,
    Written,
    WriteFailed,
    Parsed,
    ParseFailed,
    Published,
    /// The sleep that was asked for is over.
    TimerFired,
    /// Shutdown was signalled during a sleep.
    Shutdown,
}

/// What the driver is to do next.
#[derive(Debug, Clone, Copy, PartialEq, Eq, Structural)]
pub enum Action {
    /// Log in to the authority.
    Login,
    /// Ask the authority for a certificate.
    Issue,
    /// Put the bundle just issued on disk.
    Write,
    /// Build server material from the bundle just issued.
    Parse,
    /// Publish the material just built.
    Publish,
    /// Sleep for so many seconds, or until shutdown is signalled.
    Sleep { secs: u64 },
    /// Startup is complete; the first lease runs for so many seconds.
    Started { lease_secs: u64 },
    /// Give up: startup failed with the error last met.
    Abort,
    /// Leave: the keeper was shut down.
    Exit,
}

/// Everything the manager remembers between two events.
#[derive(Debug, Clone, Copy, PartialEq, Eq, Structural)]
pub struct State {
    pub phase: Phase,
    /// The lease of the identity now published, in seconds.
    pub lease_secs: u64,
    /// The pause that the next failure brings, in seconds.
    pub backoff_secs: u64,
    /// How many failures have followed one another without a success between.
    pub failures: u64,
    /// The lease of the bundle that is on its way to being published.
    pub offered_lease_secs: u64,
    /// How many identities have been published so far.
    pub published: u64,
}

/// Two to the power `n`.
pub open spec fn pow2(n: nat) -> nat
    decreases n,
{
    if n == 0 {
        1
    } else {
        2 * pow2((n - 1) as nat)
    }
}

/// The pause that follows when `failures` failures came before: five seconds,
/// doubled for each of them, and never more than three hundred.
pub open spec fn backoff_level(failures: nat) -> nat {
    if 5 * pow2(failures) < 300 {
        5 * pow2(failures)
    } else {
        300
    }
}

/// Twice the pause, held at the longest one.
pub open spec fn doubled(backoff_secs: u64) -> u64 {
    if backoff_secs >= 150 {
        300
    } else {
        (2 * backoff_secs) as u64
    }
}

/// One more, unless the counter is at its end.
pub open spec fn counted(n: u64) -> u64 {
    if n < u64::MAX {
        (n + 1) as u64
    } else {
        n
    }
}

impl State {
    /// The state before anything has happened.
    pub open spec fn initial() -> State {
        State {
            phase: Phase::StartLogin,
            lease_secs: 0,
            backoff_secs: 5,
            failures: 0,
            offered_lease_secs: 0,
            published: 0,
        }
    }

    /// This state with another count of published identities.
    pub open spec fn having_published(self, published: u64) -> State {
        State { published, ..self }
    }

    /// The pause matches the count of failures.
    pub open spec fn wf(self) -> bool {
        self.backoff_secs == backoff_level(self.failures as nat)
    }

    /// The action that this state waits for, with a threshold of the given digits.
    pub open spec fn pending(self, threshold: Seq<u8>) -> Action {
        match self.phase {
            Phase::StartLogin | Phase::Login => Action::Login,
            Phase::StartIssue | Phase::Issue => Action::Issue,
            Phase::StartWrite | Phase::Write => Action::Write,
            Phase::StartParse | Phase::Parse => Action::Parse,
            Phase::StartPublish | Phase::Publish => Action::Publish,
            Phase::Ready => Action::Started { lease_secs: self.lease_secs },
            Phase::Failed => Action::Abort,
            Phase::Waiting => Action::Sleep {
                secs: scaled(self.lease_secs as nat, threshold) as u64,
            },
            Phase::AuthBackoff | Phase::IssueBackoff => Action::Sleep { secs: self.backoff_secs },
            Phase::Stopped => Action::Exit,
        }
    }

    /// This state with another phase.
    pub open spec fn at(self, phase: Phase) -> State {
        State { phase, ..self }
    }

    /// This state after a step that succeeded: the pause is short again.
    pub open spec fn relieved(self, phase: Phase) -> State {
        State { phase, backoff_secs: 5, failures: 0, ..self }
    }

    /// This state after the pause that followed a failure.
    pub open spec fn set_back(self) -> State {
        State {
            phase: Phase::Waiting,
            backoff_secs: doubled(self.backoff_secs),
            failures: counted(self.failures),
            ..self
        }
    }

    /// This state once the offered identity is published.
    pub open spec fn renewed(self, phase: Phase) -> State {
        State {
            phase,
            lease_secs: self.offered_lease_secs,
            backoff_secs: 5,
            failures: 0,
            published: counted(self.published),
            ..self
        }
    }

    /// The state that follows this one on `event`.  An event that the phase
    /// does not wait for changes nothing.
    pub open spec fn next(self, event: Event) -> State {
        match (self.phase, event) {
            (Phase::StartLogin, Event::LoginSucceeded) => self.at(Phase::StartIssue),
            (Phase::StartLogin, Event::LoginFailed) => self.at(Phase::Failed),
            (Phase::StartIssue, Event::Issued { lease_secs }) => State {
                phase: Phase::StartWrite,
                offered_lease_secs: lease_secs,
                ..self
            },
            (Phase::StartIssue, Event::IssueFailed) => self.at(Phase::Failed),
            (Phase::StartWrite, Event::Written) => self.at(Phase::StartParse),
            (Phase::StartWrite, Event::WriteFailed) => self.at(Phase::Failed),
            (Phase::StartParse, Event::Parsed) => self.at(Phase::StartPublish),
            (Phase::StartParse, Event::ParseFailed) => self.at(Phase::Failed),
            (Phase::StartPublish, Event::Published) => self.renewed(Phase::Ready),
            (Phase::Waiting, Event::TimerFired) => self.at(Phase::Login),
            (Phase::Waiting, Event::Shutdown) => self.at(Phase::Stopped),
            (Phase::Login, Event::LoginSucceeded) => self.relieved(Phase::Issue),
            (Phase::Login, Event::LoginFailed) => self.at(Phase::AuthBackoff),
            (Phase::AuthBackoff, Event::TimerFired) => self.set_back(),
            (Phase::AuthBackoff, Event::Shutdown) => self.at(Phase::Stopped),
            (Phase::Issue, Event::Issued { lease_secs }) => State {
                phase: Phase::Write,
                offered_lease_secs: lease_secs,
                ..self
            },
            (Phase::Issue, Event::IssueFailed) => self.at(Phase::IssueBackoff),
            (Phase::IssueBackoff, Event::TimerFired) => self.set_back(),
            (Phase::IssueBackoff, Event::Shutdown) => self.at(Phase::Stopped),
            (Phase::Write, Event::Written) => self.at(Phase::Parse),
            (Phase::Write, Event::WriteFailed) => self.at(Phase::Parse),
            (Phase::Parse, Event::Parsed) => self.at(Phase::Publish),
            (Phase::Parse, Event::ParseFailed) => self.at(Phase::Waiting),
            (Phase::Publish, Event::Published) => self.renewed(Phase::Waiting),
            _ => self,
        }
    }

    /// The state in which the renewal loop begins, given the first lease.
    pub open spec fn serving(self, lease_secs: u64) -> State {
        State {
            phase: Phase::Waiting,
            lease_secs,
            backoff_secs: 5,
            failures: 0,
            ..self
        }
    }

    /// Takes one event and gives the state that follows and the action that
    /// it waits for.
    pub fn advance(self, event: Event, threshold: &RenewalThreshold) -> (out: (State, Action))
        ensures
            out.0 == self.next(event),
            out.1 == self.next(event).pending(threshold@),
    {
        let state = match (self.phase, event) {
            (Phase::StartLogin, Event::LoginSucceeded) => State { phase: Phase::StartIssue, ..self },
            (Phase::StartLogin, Event::LoginFailed) => State { phase: Phase::Failed, ..self },
            (Phase::StartIssue, Event::Issued { lease_secs }) => State {
                phase: Phase::StartWrite,
                offered_lease_secs: lease_secs,
                ..self
            },
            (Phase::StartIssue, Event::IssueFailed) => State { phase: Phase::Failed, ..self },
            (Phase::StartWrite, Event::Written) => State { phase: Phase::StartParse, ..self },
            (Phase::StartWrite, Event::WriteFailed) => State { phase: Phase::Failed, ..self },
            (Phase::StartParse, Event::Parsed) => State { phase: Phase::StartPublish, ..self },
            (Phase::StartParse, Event::ParseFailed) => State { phase: Phase::Failed, ..self },
            (Phase::StartPublish, Event::Published) => self.publish(Phase::Ready),
            (Phase::Waiting, Event::TimerFired) => State { phase: Phase::Login, ..self },
            (Phase::Waiting, Event::Shutdown) => State { phase: Phase::Stopped, ..self },
            (Phase::Login, Event::LoginSucceeded) => self.relieve(Phase::Issue),
            (Phase::Login, Event::LoginFailed) => State { phase: Phase::AuthBackoff, ..self },
            (Phase::AuthBackoff, Event::TimerFired) => self.back_off(),
            (Phase::AuthBackoff, Event::Shutdown) => State { phase: Phase::Stopped, ..self },
            (Phase::Issue, Event::Issued { lease_secs }) => State {
                phase: Phase::Write,
                offered_lease_secs: lease_secs,
                ..self
            },
            (Phase::Issue, Event::IssueFailed) => State { phase: Phase::IssueBackoff, ..self },
            (Phase::IssueBackoff, Event::TimerFired) => self.back_off(),
            (Phase::IssueBackoff, Event::Shutdown) => State { phase: Phase::Stopped, ..self },
            (Phase::Write, Event::Written) => State { phase: Phase::Parse, ..self },
            (Phase::Write, Event::WriteFailed) => State { phase: Phase::Parse, ..self },
            (Phase::Parse, Event::Parsed) => State { phase: Phase::Publish, ..self },
            (Phase::Parse, Event::ParseFailed) => State { phase: Phase::Waiting, ..self },
            (Phase::Publish, Event::Published) => self.publish(Phase::Waiting),
            _ => self,
        };
        (state, state.action(threshold))
    }

    fn relieve(self, phase: Phase) -> (s: State)
        ensures
            s == self.relieved(phase),
    {
        State { phase, backoff_secs: 5, failures: 0, ..self }
    }

    fn publish(self, phase: Phase) -> (s: State)
        ensures
            s == self.renewed(phase),
    {
        let published: u64 = if self.published < u64::MAX {
            self.published + 1
        } else {
            self.published
        };
        State {
            phase,
            lease_secs: self.offered_lease_secs,
            backoff_secs: 5,
            failures: 0,
            published,
            ..self
        }
    }

    fn back_off(self) -> (s: State)
        ensures
            s == self.set_back(),
    {
        let backoff_secs: u64 = if self.backoff_secs >= 150 {
            300
        } else {
            2 * self.backoff_secs
        };
        let failures: u64 = if self.failures < u64::MAX {
            self.failures + 1
        } else {
            self.failures
        };
        State { phase: Phase::Waiting, backoff_secs, failures, ..self }
    }

    /// The action that this state waits for.
    pub fn action(self, threshold: &RenewalThreshold) -> (action: Action)
        ensures
            action == self.pending(threshold@),
    {
        match self.phase {
            Phase::StartLogin | Phase::Login => Action::Login,
            Phase::StartIssue | Phase::Issue => Action::Issue,
            Phase::StartWrite | Phase::Write => Action::Write,
            Phase::StartParse | Phase::Parse => Action::Parse,
            Phase::StartPublish | Phase::Publish => Action::Publish,
            Phase::Ready => Action::Started { lease_secs: self.lease_secs },
            Phase::Failed => Action::Abort,
            Phase::Waiting => Action::Sleep { secs: threshold.renew_after(self.lease_secs) },
            Phase::AuthBackoff | Phase::IssueBackoff => Action::Sleep { secs: self.backoff_secs },
            Phase::Stopped => Action::Exit,
        }
    }
}

/// What a [`CertManager`] is: its settings and where it stands.
pub struct CertManagerView {
    pub config: ConfigView,
    pub state: State,
}

/// The keeper of one identity: its settings, its place on disk, and where it
/// stands between startup and shutdown.
#[derive(Debug)]
pub struct CertManager {
    config: Config,
    store: CertStore,
    state: State,
}

impl View for CertManager {
    type V = CertManagerView;

    closed spec fn view(&self) -> CertManagerView {
        CertManagerView { config: self.config@, state: self.state }
    }
}

impl CertManager {
    #[verifier::type_invariant]
    spec fn store_follows_config(&self) -> bool {
        self.store@ == self.config.cert_dir@
    }

    /// A manager with the given settings, about to start.
    pub fn new(config: Config) -> (manager: CertManager)
        ensures
            manager@.config == config@,
            manager@.state == State::initial(),
    {
        let store = CertStore::new(config.cert_dir.as_str());
        CertManager {
            config,
            store,
            state: State {
                phase: Phase::StartLogin,
                lease_secs: 0,
                backoff_secs: 5,
                failures: 0,
                offered_lease_secs: 0,
                published: 0,
            },
        }
    }

    /// Begins startup, or begins it again: login, issue, write, parse, publish,
    /// each of which must succeed.  The first action is the login.
    pub fn init(&mut self) -> (first: Action)
        ensures
            final(self)@.config == old(self)@.config,
            final(self)@.state == State::initial().having_published(old(self)@.state.published),
            first == Action::Login,
    {
        proof {
            use_type_invariant(&*self);
        }
        self.state = State {
            phase: Phase::StartLogin,
            lease_secs: 0,
            backoff_secs: 5,
            failures: 0,
            offered_lease_secs: 0,
            published: self.state.published,
        };
        Action::Login
    }

    /// Takes the outcome of the last action and says what to do next.
    pub fn step(&mut self, event: Event) -> (action: Action)
        ensures
            final(self)@.config == old(self)@.config,
            final(self)@.state == old(self)@.state.next(event),
            action == final(self)@.state.pending(old(self)@.config.renewal_threshold),
    {
        proof {
            use_type_invariant(&*self);
        }
        let (state, action) = self.state.advance(event, &self.config.renewal_threshold);
        self.state = state;
        action
    }

    /// Enters the renewal loop with the lease that startup obtained.  The
    /// first action is the sleep until that lease has run to its threshold.
    pub fn run_renewal_loop(&mut self, initial_lease_secs: u64) -> (first: Action)
        ensures
            final(self)@.config == old(self)@.config,
            final(self)@.state == old(self)@.state.serving(initial_lease_secs),
            first == final(self)@.state.pending(old(self)@.config.renewal_threshold),
    {
        proof {
            use_type_invariant(&*self);
        }
        self.state = State {
            phase: Phase::Waiting,
            lease_secs: initial_lease_secs,
            backoff_secs: 5,
            failures: 0,
            ..self.state
        };
        self.state.action(&self.config.renewal_threshold)
    }

    /// Where the manager stands.
    pub fn state(&self) -> (state: State)
        ensures
            state == self@.state,
    {
        self.state
    }

    /// The settings.
    pub fn config(&self) -> (config: &Config)
        ensures
            config@ == self@.config,
    {
        &self.config
    }

    /// The place of the identity on disk: the directory that the settings name.
    pub fn store(&self) -> (store: &CertStore)
        ensures
            store@ == self@.config.cert_dir,
    {
        proof {
            use_type_invariant(self);
        }
        &self.store
    }
}

} // verus!
