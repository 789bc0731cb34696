//! The session: the one holder of the active configuration and of the
//! handles to the embedding provider and the vector store.
//!
//! A session starts uninitialized, becomes ready once, and ends shut down.
//! Starting it takes work that only the caller can do (opening the store,
//! building the provider), and so does ending it (releasing both). So
//! `with_config` and `cleanup` are written as steps: each is told what has
//! happened and answers what to do next.

use vstd::prelude::*;
use crate::boundary::BoundaryError;
use crate::config::{ConfigError, GlobalConfig};

verus! {

/// Where a session stands. `P` is the handle to the embedding provider, `S`
/// the handle to the vector store.
pub enum SessionState<P, S> {
    Uninitialized,
    Ready { config: GlobalConfig, provider: P, store: S },
    ShutDown,
}

/// The session is not ready.
#[derive(Clone, Copy, Debug, PartialEq, Eq, Structural)]
pub struct NotReady;

/// Why a session could not be started.
#[derive(Clone, Copy, Debug, PartialEq, Eq, Structural)]
pub enum InitError {
    /// The configuration did not arrive as text.
    InvalidText(BoundaryError),
    /// The text is no acceptable configuration.
    Config(ConfigError),
    /// The store could not be opened.
    Storage,
    /// The provider could not be built.
    Provider,
    /// The session has left its first state already: it is ready, or shut
    /// down.
    AlreadyInitialized,
}

/// What a ready session holds, for reading.
pub struct SessionView<'a, P, S> {
    pub config: &'a GlobalConfig,
    pub provider: &'a P,
    pub store: &'a S,
}

/// The state after an attempt to make the session ready: only an
/// uninitialized session takes a configuration, and only a valid one.
pub open spec fn installed<P, S>(
    state: SessionState<P, S>,
    config: GlobalConfig,
    provider: P,
    store: S,
) -> SessionState<P, S> {
    if state is Uninitialized && config.valid() {
        SessionState::Ready { config, provider, store }
    } else {
        state
    }
}

/// What such an attempt reports.
pub open spec fn install_outcome<P, S>(state: SessionState<P, S>, config: GlobalConfig) -> Result<
    (),
    InitError,
> {
    if !(state is Uninitialized) {
        Err(InitError::AlreadyInitialized)
    } else {
        match config.defect() {
            Some(error) => Err(InitError::Config(error)),
            None => Ok(()),
        }
    }
}

/// The handles that a session gives up when it is shut down.
pub struct Released<P, S> {
    pub provider: P,
    pub store: S,
}

/// The handles that a shutdown takes out of a session: those of a ready
/// session, and none of any other.
pub open spec fn released<P, S>(state: SessionState<P, S>) -> Option<Released<P, S>> {
    match state {
        SessionState::Ready { config, provider, store } => Some(Released { provider, store }),
        _ => None,
    }
}

/// The state after a shutdown: a ready session is shut down, any other stays
/// as it is.
pub open spec fn shut_down<P, S>(state: SessionState<P, S>) -> SessionState<P, S> {
    match state {
        SessionState::Ready { .. } => SessionState::ShutDown,
        other => other,
    }
}

/// The session. Its state is reached only through the functions below, so a
/// ready session always holds a valid configuration.
pub struct Session<P, S> {
    state: SessionState<P, S>,
}

impl<P, S> View for Session<P, S> {
    type V = SessionState<P, S>;

    closed spec fn view(&self) -> SessionState<P, S> {
        self.state
    }
}

impl<P, S> Session<P, S> {
    #[verifier::type_invariant]
    spec fn sound(self) -> bool {
        self.state matches SessionState::Ready { config, .. } ==> config.valid()
    }

    /// A session that has not been started.
    pub fn new() -> (session: Self)
        ensures
            session@ is Uninitialized,
    {
        Session { state: SessionState::Uninitialized }
    }

    /// Whether the session has not been started.
    pub fn is_uninitialized(&self) -> (b: bool)
        ensures
            b == (self@ is Uninitialized),
    {
        match &self.state {
            SessionState::Uninitialized => true,
            _ => false,
        }
    }

    /// Whether the session is ready.
    pub fn is_ready(&self) -> (b: bool)
        ensures
            b == (self@ is Ready),
    {
        match &self.state {
            SessionState::Ready { .. } => true,
            _ => false,
        }
    }

    /// Whether the session was shut down.
    pub fn is_shut_down(&self) -> (b: bool)
        ensures
            b == (self@ is ShutDown),
    {
        match &self.state {
            SessionState::ShutDown => true,
            _ => false,
        }
    }

    /// What the session holds, if it is ready.
    pub fn current(&self) -> (outcome: Result<SessionView<'_, P, S>, NotReady>)
        ensures
            match self@ {
                SessionState::Ready { config, provider, store } => {
                    &&& outcome matches Ok(view)
                    &&& *view.config == config
                    &&& *view.provider == provider
                    &&& *view.store == store
                    &&& config.valid()
                },
                _ => outcome is Err,
            },
    {
        proof {
            use_type_invariant(self);
        }
        match &self.state {
            SessionState::Ready { config, provider, store } => Ok(
                SessionView { config, provider, store },
            ),
            _ => Err(NotReady),
        }
    }

    /// Makes an uninitialized session ready. A session that is ready or shut
    /// down keeps what it has, and a configuration that breaks a rule is
    /// turned down.
    pub fn initialize(&mut self, config: GlobalConfig, provider: P, store: S) -> (outcome: Result<
        (),
        InitError,
    >)
        ensures
            outcome == install_outcome(old(self)@, config),
            final(self)@ == installed(old(self)@, config, provider, store),
    {
        if !self.is_uninitialized() {
            return Err(InitError::AlreadyInitialized);
        }
        match config.validate() {
            Err(error) => Err(InitError::Config(error)),
            Ok(()) => {
                self.state = SessionState::Ready { config, provider, store };
                Ok(())
            },
        }
    }

    /// Shuts a ready session down and hands both handles to the caller, who
    /// releases them. On a session that is not ready this does nothing and
    /// hands out nothing.
    pub fn shutdown(&mut self) -> (handles: Option<Released<P, S>>)
        ensures
            final(self)@ == shut_down(old(self)@),
            handles == released(old(self)@),
    {
        if !self.is_ready() {
            return None;
        }
        let mut state = SessionState::ShutDown;
        std::mem::swap(&mut self.state, &mut state);
        match state {
            SessionState::Ready { config: _, provider, store } => Some(
                Released { provider, store },
            ),
            _ => None,
        }
    }
}

/// What has happened on the way to a ready session.
pub enum InitEvent<P, S> {
    /// The call arrived, with the text of a configuration or without.
    Begin { text: Result<String, BoundaryError> },
    /// The text was read as a configuration, or could not be.
    Parsed { config: Option<GlobalConfig> },
    /// The store was opened, or could not be.
    Connected { config: GlobalConfig, store: Option<S> },
    /// The provider was built, or could not be.
    Built { config: GlobalConfig, store: S, provider: Option<P> },
}

/// What to do next on the way to a ready session.
pub enum InitAction<S> {
    /// Read the text as a configuration.
    Parse { text: String },
    /// Open the store at the configuration's path, creating what is missing.
    Connect { config: GlobalConfig },
    /// Build the provider that the configuration names.
    Build { config: GlobalConfig, store: S },
    /// Report this to the caller.
    Finish(Result<(), InitError>),
}

/// The next step. A session that has left its first state answers every
/// event with `AlreadyInitialized`; otherwise the first thing that went wrong
/// ends the attempt, and each success leads to the next piece of work.
pub open spec fn init_action<P, S>(state: SessionState<P, S>, event: InitEvent<P, S>) -> InitAction<
    S,
> {
    if !(state is Uninitialized) {
        InitAction::Finish(Err(InitError::AlreadyInitialized))
    } else {
        match event {
            InitEvent::Begin { text: Err(error) } => InitAction::Finish(
                Err(InitError::InvalidText(error)),
            ),
            InitEvent::Begin { text: Ok(text) } => InitAction::Parse { text },
            InitEvent::Parsed { config: None } => InitAction::Finish(
                Err(InitError::Config(ConfigError::Malformed)),
            ),
            InitEvent::Parsed { config: Some(config) } => match config.defect() {
                Some(error) => InitAction::Finish(Err(InitError::Config(error))),
                None => InitAction::Connect { config },
            },
            InitEvent::Connected { config, store } => match config.defect() {
                Some(error) => InitAction::Finish(Err(InitError::Config(error))),
                None => match store {
                    None => InitAction::Finish(Err(InitError::Storage)),
                    Some(store) => InitAction::Build { config, store },
                },
            },
            InitEvent::Built { config, store, provider } => match config.defect() {
                Some(error) => InitAction::Finish(Err(InitError::Config(error))),
                None => match provider {
                    None => InitAction::Finish(Err(InitError::Provider)),
                    Some(_) => InitAction::Finish(Ok(())),
                },
            },
        }
    }
}

/// The state after the step: only a provider that was built makes the
/// session ready.
pub open spec fn init_state<P, S>(
    state: SessionState<P, S>,
    event: InitEvent<P, S>,
) -> SessionState<P, S> {
    match event {
        InitEvent::Built { config, store, provider: Some(provider) } => installed(
            state,
            config,
            provider,
            store,
        ),
        _ => state,
    }
}

/// Takes one step towards a ready session.
pub fn with_config<P, S>(session: &mut Session<P, S>, event: InitEvent<P, S>) -> (action:
    InitAction<S>)
    ensures
        action == init_action(old(session)@, event),
        final(session)@ == init_state(old(session)@, event),
{
    if !session.is_uninitialized() {
        return InitAction::Finish(Err(InitError::AlreadyInitialized));
    }
    match event {
        InitEvent::Begin { text } => match text {
            Err(error) => InitAction::Finish(Err(InitError::InvalidText(error))),
            Ok(text) => InitAction::Parse { text },
        },
        InitEvent::Parsed { config } => match config {
            None => InitAction::Finish(Err(InitError::Config(ConfigError::Malformed))),
            Some(config) => match config.validate() {
                Err(error) => InitAction::Finish(Err(InitError::Config(error))),
                Ok(()) => InitAction::Connect { config },
            },
        },
        InitEvent::Connected { config, store } => match config.validate() {
            Err(error) => InitAction::Finish(Err(InitError::Config(error))),
            Ok(()) => match store {
                None => InitAction::Finish(Err(InitError::Storage)),
                Some(store) => InitAction::Build { config, store },
            },
        },
        InitEvent::Built { config, store, provider } => match provider {
            None => match config.validate() {
                Err(error) => InitAction::Finish(Err(InitError::Config(error))),
                Ok(()) => InitAction::Finish(Err(InitError::Provider)),
            },
            Some(provider) => InitAction::Finish(session.initialize(config, provider, store)),
        },
    }
}

/// Why a handle could not be released.
#[derive(Clone, Copy, Debug, PartialEq, Eq, Structural)]
pub enum ReleaseError {
    /// A call that is still under way holds the handle too: what it stands
    /// for is let go of when that call ends.
    InUse,
    /// Letting go of the handle failed.
    Failed,
}

/// What became of a shutdown: for each of the two handles, why it could not
/// be released, if it could not.
#[derive(Clone, Copy, Debug, PartialEq, Eq, Structural)]
pub struct ShutdownReport {
    pub provider_failure: Option<ReleaseError>,
    pub store_failure: Option<ReleaseError>,
}

impl ShutdownReport {
    /// How many of the two releases failed.
    pub open spec fn failures(self) -> nat {
        let provider: nat = if self.provider_failure is Some { 1 } else { 0 };
        let store: nat = if self.store_failure is Some { 1 } else { 0 };
        provider + store
    }

    /// How many of the two releases failed.
    pub fn failure_count(&self) -> (count: u8)
        ensures
            count == self.failures(),
    {
        let provider: u8 = if self.provider_failure.is_some() { 1 } else { 0 };
        let store: u8 = if self.store_failure.is_some() { 1 } else { 0 };
        provider + store
    }

    /// Whether nothing failed.
    pub fn is_clean(&self) -> (clean: bool)
        ensures
            clean == (self.failures() == 0),
    {
        self.provider_failure.is_none() && self.store_failure.is_none()
    }
}

/// What has happened in the course of a shutdown.
pub enum ShutdownEvent<S> {
    /// The call arrived.
    Begin,
    /// The provider was released, or could not be.
    ProviderReleased { store: S, failure: Option<ReleaseError> },
    /// The store was released, or could not be.
    StoreReleased { provider_failure: Option<ReleaseError>, failure: Option<ReleaseError> },
}

/// What to do next in the course of a shutdown.
pub enum ShutdownAction<P, S> {
    /// Release the provider, and say what came of it.
    ReleaseProvider { provider: P, store: S },
    /// Release the store, and say what came of it.
    ReleaseStore { store: S, provider_failure: Option<ReleaseError> },
    /// Report this to the caller.
    Finish(ShutdownReport),
}

/// The next step of a shutdown. A ready session gives up both handles, the
/// provider's first; a session that is not ready has nothing to release and
/// nothing to report. Whatever came of the provider's release, the store's
/// follows, and the report holds what came of both.
pub open spec fn shutdown_action<P, S>(
    state: SessionState<P, S>,
    event: ShutdownEvent<S>,
) -> ShutdownAction<P, S> {
    match event {
        ShutdownEvent::Begin => match state {
            SessionState::Ready { config, provider, store } => ShutdownAction::ReleaseProvider {
                provider,
                store,
            },
            _ => ShutdownAction::Finish(
                ShutdownReport { provider_failure: None, store_failure: None },
            ),
        },
        ShutdownEvent::ProviderReleased { store, failure } => ShutdownAction::ReleaseStore {
            store,
            provider_failure: failure,
        },
        ShutdownEvent::StoreReleased { provider_failure, failure } => ShutdownAction::Finish(
            ShutdownReport { provider_failure, store_failure: failure },
        ),
    }
}

/// The state after a step of a shutdown: the first step shuts a ready
/// session down, before anything is released; no other step changes the
/// state.
pub open spec fn shutdown_state<P, S>(
    state: SessionState<P, S>,
    event: ShutdownEvent<S>,
) -> SessionState<P, S> {
    match event {
        ShutdownEvent::Begin => shut_down(state),
        _ => state,
    }
}

/// Takes one step of a shutdown.
pub fn cleanup<P, S>(session: &mut Session<P, S>, event: ShutdownEvent<S>) -> (action:
    ShutdownAction<P, S>)
    ensures
        action == shutdown_action(old(session)@, event),
        final(session)@ == shutdown_state(old(session)@, event),
{
    match event {
        ShutdownEvent::Begin => match session.shutdown() {
            Some(handles) => ShutdownAction::ReleaseProvider {
                provider: handles.provider,
                store: handles.store,
            },
            None => ShutdownAction::Finish(
                ShutdownReport { provider_failure: None, store_failure: None },
            ),
        },
        ShutdownEvent::ProviderReleased { store, failure } => ShutdownAction::ReleaseStore {
            store,
            provider_failure: failure,
        },
        ShutdownEvent::StoreReleased { provider_failure, failure } => ShutdownAction::Finish(
            ShutdownReport { provider_failure, store_failure: failure },
        ),
    }
}

/// The number that reports the end of an attempt to the caller: zero for
/// success, and a negative number of its own for each thing that can go
/// wrong.
pub open spec fn status_of(outcome: Result<(), InitError>) -> int {
    match outcome {
        Ok(()) => 0,
        Err(InitError::InvalidText(_)) => -1,
        Err(InitError::Config(_)) => -2,
        Err(InitError::Storage) => -3,
        Err(InitError::Provider) => -4,
        Err(InitError::AlreadyInitialized) => -5,
    }
}

/// The number that reports `outcome` to the caller.
pub fn status_code(outcome: &Result<(), InitError>) -> (code: i32)
    ensures
        code == status_of(*outcome),
{
    match outcome {
        Ok(()) => 0,
        Err(InitError::InvalidText(_)) => -1,
        Err(InitError::Config(_)) => -2,
        Err(InitError::Storage) => -3,
        Err(InitError::Provider) => -4,
        Err(InitError::AlreadyInitialized) => -5,
    }
}

/// A session that is ready or shut down is not started again: whatever
/// arrives, the answer is `AlreadyInitialized`, and the session keeps its
/// state, configuration and handles.
pub proof fn started_session_is_kept<P, S>(state: SessionState<P, S>, event: InitEvent<P, S>)
    requires
        !(state is Uninitialized),
    ensures
        init_action(state, event) == InitAction::<S>::Finish(Err(InitError::AlreadyInitialized)),
        init_state(state, event) == state,
{
}

/// Of two attempts that both come to their last step, one wins: the first
/// makes the session ready with its own configuration and handles, and the
/// second is turned away and changes nothing.
pub proof fn one_attempt_wins<P, S>(
    first: GlobalConfig,
    first_provider: P,
    first_store: S,
    second: GlobalConfig,
    second_provider: P,
    second_store: S,
)
    requires
        first.valid(),
    ensures
        ({
            let start = SessionState::<P, S>::Uninitialized;
            let won = init_state(
                start,
                InitEvent::Built {
                    config: first,
                    store: first_store,
                    provider: Some(first_provider),
                },
            );
            let lost = InitEvent::Built {
                config: second,
                store: second_store,
                provider: Some(second_provider),
            };
            &&& won == SessionState::Ready {
                config: first,
                provider: first_provider,
                store: first_store,
            }
            &&& init_action(won, lost) == InitAction::<S>::Finish(
                Err(InitError::AlreadyInitialized),
            )
            &&& init_state(won, lost) == won
        }),
{
}

/// An attempt that fails leaves the session uninitialized, and only an
/// attempt that reports success makes it ready.
pub proof fn failure_leaves_uninitialized<P, S>(event: InitEvent<P, S>)
    ensures
        ({
            let start = SessionState::<P, S>::Uninitialized;
            init_state(start, event) is Ready <==> init_action(start, event)
                == InitAction::<S>::Finish(Ok(()))
        }),
        !(init_state(SessionState::<P, S>::Uninitialized, event) is ShutDown),
{
}

/// Each thing that can go wrong has a number of its own, and none of them is
/// the zero of success.
pub proof fn status_tells_apart(a: Result<(), InitError>, b: Result<(), InitError>)
    ensures
        status_of(a) == 0 <==> a is Ok,
        -5 <= status_of(a) <= 0,
        status_of(a) == status_of(b) ==> (a is Ok <==> b is Ok),
        status_of(a) == status_of(b) && a is Err ==> (a->Err_0 is InvalidText
            <==> b->Err_0 is InvalidText) && (a->Err_0 is Config <==> b->Err_0 is Config) && (
        a->Err_0 is Storage <==> b->Err_0 is Storage) && (a->Err_0 is Provider
            <==> b->Err_0 is Provider) && (a->Err_0 is AlreadyInitialized
            <==> b->Err_0 is AlreadyInitialized),
{
}

/// A session is shut down only after it was ready: no step on the way to a
/// ready session shuts it down, and a shutdown leaves an uninitialized
/// session as it is.
pub proof fn shut_down_only_after_ready<P, S>(state: SessionState<P, S>, event: InitEvent<P, S>)
    ensures
        init_state(state, event) is ShutDown ==> state is ShutDown,
        shut_down(state) is ShutDown ==> state is Ready || state is ShutDown,
        init_state(state, event) is Ready ==> state is Ready || state is Uninitialized,
{
}

/// Shutting down twice is shutting down once: the second time changes
/// nothing and hands out no handle. A session that was shut down stays so: it
/// cannot be started again.
pub proof fn shutdown_is_final<P, S>(state: SessionState<P, S>, event: InitEvent<P, S>)
    ensures
        shut_down(shut_down(state)) == shut_down(state),
        released(shut_down(state)) is None,
        !(shut_down(state) is Ready),
        state is Uninitialized ==> shut_down(state) == state,
        state is ShutDown ==> init_state(state, event) == state,
{
}

/// A release that fails does not stop the shutdown: the session is shut down
/// before anything is released, the store's release follows the provider's
/// whatever came of that, and the report at the end holds each failure and
/// counts them.
pub proof fn failed_release_stops_nothing<P, S>(
    config: GlobalConfig,
    provider: P,
    store: S,
    provider_failure: Option<ReleaseError>,
    store_failure: Option<ReleaseError>,
)
    ensures
        ({
            let ready = SessionState::Ready { config, provider, store };
            let down = shutdown_state(ready, ShutdownEvent::Begin);
            let second = ShutdownEvent::ProviderReleased { store, failure: provider_failure };
            let third = ShutdownEvent::StoreReleased { provider_failure, failure: store_failure };
            let report = ShutdownReport { provider_failure, store_failure };
            &&& down is ShutDown
            &&& shutdown_action(ready, ShutdownEvent::Begin) == ShutdownAction::ReleaseProvider {
                provider,
                store,
            }
            &&& shutdown_action(down, second) == ShutdownAction::<P, S>::ReleaseStore {
                store,
                provider_failure,
            }
            &&& shutdown_state(down, second) == down
            &&& shutdown_action(down, third) == ShutdownAction::<P, S>::Finish(report)
            &&& shutdown_state(down, third) == down
            &&& report.failures() == 0 <==> provider_failure is None && store_failure is None
            &&& report.failures() == 2 <==> provider_failure is Some && store_failure is Some
        }),
{
}

/// A shutdown of a session that is not ready is over at once: nothing is
/// released, nothing has failed, and the session stays as it is.
pub proof fn idle_shutdown_does_nothing<P, S>(state: SessionState<P, S>)
    requires
        !(state is Ready),
    ensures
        shutdown_action(state, ShutdownEvent::Begin) == ShutdownAction::<P, S>::Finish(
            ShutdownReport { provider_failure: None, store_failure: None },
        ),
        shutdown_state(state, ShutdownEvent::<S>::Begin) == state,
        shutdown_state(shutdown_state(state, ShutdownEvent::<S>::Begin), ShutdownEvent::<S>::Begin)
            == state,
{
}

} // verus!
