//! The lifecycle of the one client: a slot that is filled at most once.
//!
//! The host keeps a `GatewayState` behind a lock. A caller that wants to
//! install a client first claims the slot, then builds and starts the client
//! with the lock released, and at last publishes it. While a claim is open or
//! a client is installed, every other claim is refused at once. A start that
//! fails gives its claim up, so that a later caller may try again.

use vstd::prelude::*;
use vstd::string::StringExecFns;

verus! {

/// Why a lifecycle operation was refused.
#[derive(Clone, Copy, Debug, PartialEq, Eq, Structural)]
pub enum LifecycleError {
    /// A client is installed, or another caller is installing one.
    AlreadyRunning,
    /// No client is installed.
    NotInitialized,
}

/// The step of a start that failed.
#[derive(Clone, Copy, Debug, PartialEq, Eq, Structural)]
pub enum StartStage {
    /// The client could not be built.
    Create,
    /// The client was built but did not start.
    Start,
}

/// What the slot holds.
pub enum Phase<T> {
    /// Nothing, and nobody is installing a client.
    Empty,
    /// Nothing yet: one caller has claimed the slot and is starting a client.
    Starting,
    /// The client.
    Running(T),
}

impl<T> Phase<T> {
    /// The phase after a claim, and whether the claim was granted.
    pub open spec fn claimed(self) -> (Phase<T>, bool) {
        match self {
            Phase::Empty => (Phase::Starting, true),
            _ => (self, false),
        }
    }

    /// The phase after a caller gave its claim up.
    pub open spec fn abandoned(self) -> Phase<T> {
        match self {
            Phase::Starting => Phase::Empty,
            _ => self,
        }
    }

    /// The phase after a caller offered `client`, and whether it was installed.
    pub open spec fn published(self, client: T) -> (Phase<T>, bool) {
        match self {
            Phase::Running(_) => (self, false),
            _ => (Phase::Running(client), true),
        }
    }

    /// The phase after `n` claims in a row.
    pub open spec fn claimed_times(self, n: nat) -> Phase<T>
        decreases n,
    {
        if n == 0 {
            self
        } else {
            self.claimed_times((n - 1) as nat).claimed().0
        }
    }

    /// How many of `n` claims in a row are granted.
    pub open spec fn grants(self, n: nat) -> nat
        decreases n,
    {
        if n == 0 {
            0
        } else {
            let earlier = self.grants((n - 1) as nat);
            if self.claimed_times((n - 1) as nat).claimed().1 {
                earlier + 1
            } else {
                earlier
            }
        }
    }
}

/// The container of the one client.
pub struct GatewayState<T> {
    phase: Phase<T>,
}

/// The message for a claim that was refused.
pub open spec fn already_running() -> Seq<char> {
    "Light client is already running"@
}

/// The message for an access without a client.
pub open spec fn no_client() -> Seq<char> {
    "Light client not initialized"@
}

/// The message for a client that was installed.
pub open spec fn started() -> Seq<char> {
    "Light client started and synced successfully"@
}

/// The message for a start that failed at `stage` for `reason`.
pub open spec fn start_failed(stage: StartStage, reason: Seq<char>) -> Seq<char> {
    match stage {
        StartStage::Create => "Failed to create client: "@ + reason,
        StartStage::Start => "Failed to start client: "@ + reason,
    }
}

/// The message for a latest block that could not be fetched for `reason`.
pub open spec fn block_failed(reason: Seq<char>) -> Seq<char> {
    "Failed to get latest block: "@ + reason
}

impl LifecycleError {
    /// The message of the error.
    pub open spec fn text(self) -> Seq<char> {
        match self {
            LifecycleError::AlreadyRunning => already_running(),
            LifecycleError::NotInitialized => no_client(),
        }
    }

    /// The message of the error.
    pub fn message(self) -> (r: String)
        ensures
            r@ == self.text(),
    {
        match self {
            LifecycleError::AlreadyRunning => "Light client is already running".to_owned(),
            LifecycleError::NotInitialized => "Light client not initialized".to_owned(),
        }
    }
}

/// The message for a client that was installed.
pub fn started_message() -> (r: String)
    ensures
        r@ == started(),
{
    "Light client started and synced successfully".to_owned()
}

/// The message for a start that failed at `stage` for `reason`.
pub fn start_failure(stage: StartStage, reason: &str) -> (r: String)
    ensures
        r@ == start_failed(stage, reason@),
{
    match stage {
        StartStage::Create => String::from_str("Failed to create client: ").concat(reason),
        StartStage::Start => String::from_str("Failed to start client: ").concat(reason),
    }
}

/// The outcome of a direct query for the latest block: the block as the
/// client gave it, or the message that says why there is none. `found` is
/// `None` when no client is installed, else what the client returned.
pub fn latest_block<B>(found: Option<Result<B, String>>) -> (r: Result<B, String>)
    ensures
        match found {
            None => r matches Err(message) && message@ == no_client(),
            Some(Err(reason)) => r matches Err(message) && message@ == block_failed(reason@),
            Some(Ok(block)) => r == Ok::<B, String>(block),
        },
{
    match found {
        None => Err("Light client not initialized".to_owned()),
        Some(Err(reason)) => Err(
            String::from_str("Failed to get latest block: ").concat(reason.as_str()),
        ),
        Some(Ok(block)) => Ok(block),
    }
}

impl<T> GatewayState<T> {
    /// What the slot holds.
    pub closed spec fn phase(&self) -> Phase<T> {
        self.phase
    }

    /// Whether a client is installed.
    pub open spec fn is_running(&self) -> bool {
        self.phase() is Running
    }

    /// An empty slot.
    pub fn new() -> (r: Self)
        ensures
            r.phase() == Phase::<T>::Empty,
    {
        GatewayState { phase: Phase::Empty }
    }

    /// Claims the slot for one caller.
    ///
    /// The claim is granted exactly when the slot is empty and unclaimed; it
    /// is refused, and nothing changes, while another claim is open or a
    /// client is installed.
    pub fn begin(&mut self) -> (r: Result<(), LifecycleError>)
        ensures
            final(self).phase() == old(self).phase().claimed().0,
            r is Ok <==> old(self).phase().claimed().1,
            r is Err ==> r == Err::<(), LifecycleError>(LifecycleError::AlreadyRunning),
    {
        match &self.phase {
            Phase::Empty => {
                self.phase = Phase::Starting;
                Ok(())
            },
            _ => Err(LifecycleError::AlreadyRunning),
        }
    }

    /// Gives an open claim up after a start that failed, so that the slot is
    /// empty again. An installed client stays.
    pub fn abandon(&mut self)
        ensures
            final(self).phase() == old(self).phase().abandoned(),
    {
        match &self.phase {
            Phase::Starting => {
                self.phase = Phase::Empty;
            },
            _ => {},
        }
    }

    /// Installs a client that is built, started and synced.
    ///
    /// The slot is looked at again: where a client is installed already, the
    /// offer is refused and the installed client stays.
    pub fn publish(&mut self, client: T) -> (r: Result<(), LifecycleError>)
        ensures
            final(self).phase() == old(self).phase().published(client).0,
            r is Ok <==> old(self).phase().published(client).1,
            r is Err ==> r == Err::<(), LifecycleError>(LifecycleError::AlreadyRunning),
    {
        match &self.phase {
            Phase::Running(_) => Err(LifecycleError::AlreadyRunning),
            _ => {
                self.phase = Phase::Running(client);
                Ok(())
            },
        }
    }

    /// The installed client.
    pub fn client(&self) -> (r: Result<&T, LifecycleError>)
        ensures
            match self.phase() {
                Phase::Running(client) => r == Ok::<&T, LifecycleError>(&client),
                _ => r == Err::<&T, LifecycleError>(LifecycleError::NotInitialized),
            },
    {
        match &self.phase {
            Phase::Running(client) => Ok(client),
            _ => Err(LifecycleError::NotInitialized),
        }
    }

    /// Runs `f` on the installed client and returns what it returned; fails
    /// without running it when no client is installed.
    pub fn with_client<R, F: FnOnce(&T) -> R>(&self, f: F) -> (r: Result<R, LifecycleError>)
        requires
            self.phase() matches Phase::Running(client) ==> call_requires(f, (&client,)),
        ensures
            match self.phase() {
                Phase::Running(client) => r matches Ok(value) && call_ensures(
                    f,
                    (&client,),
                    value,
                ),
                _ => r == Err::<R, LifecycleError>(LifecycleError::NotInitialized),
            },
    {
        match &self.phase {
            Phase::Running(client) => Ok(f(client)),
            _ => Err(LifecycleError::NotInitialized),
        }
    }
}

/// The outcome of an initialisation that found the slot in `before`, where
/// `built` is what building and starting the client gave.
pub open spec fn initialized<T>(
    before: Phase<T>,
    built: Result<T, (StartStage, String)>,
    after: Phase<T>,
    result: Result<String, String>,
) -> bool {
    match built {
        Ok(client) => {
            &&& after == Phase::Running(client)
            &&& result matches Ok(message) && message@ == started()
        },
        Err((stage, reason)) => {
            &&& after == Phase::<T>::Empty
            &&& result matches Err(message) && message@ == start_failed(stage, reason@)
        },
    }
}

impl<T> GatewayState<T> {
    /// Installs a client in one go, for a host that holds the state for the
    /// whole time: claims the slot, has `build` build and start the client,
    /// and publishes it.
    ///
    /// On an empty slot `build` is called once; its client is installed, or
    /// its failure is reported and the slot is empty again. On a slot that is
    /// claimed or filled nothing is built, nothing changes, and the answer is
    /// that a client is already running.
    pub fn initialize<B: FnOnce() -> Result<T, (StartStage, String)>>(&mut self, build: B) -> (r:
        Result<String, String>)
        requires
            call_requires(build, ()),
        ensures
            match old(self).phase() {
                Phase::Empty => exists|built: Result<T, (StartStage, String)>| #[trigger]
                    call_ensures(build, (), built) && initialized(
                        old(self).phase(),
                        built,
                        final(self).phase(),
                        r,
                    ),
                _ => {
                    &&& final(self).phase() == old(self).phase()
                    &&& r matches Err(message) && message@ == already_running()
                },
            },
    {
        match self.begin() {
            Err(refused) => Err(refused.message()),
            Ok(()) => {
                match build() {
                    Ok(client) => match self.publish(client) {
                        Ok(()) => Ok(started_message()),
                        Err(refused) => Err(refused.message()),
                    },
                    Err((stage, reason)) => {
                        self.abandon();
                        Err(start_failure(stage, reason.as_str()))
                    },
                }
            },
        }
    }
}

impl<T> Default for GatewayState<T> {
    /// An empty slot.
    fn default() -> (r: Self)
        ensures
            r.phase() == Phase::<T>::Empty,
    {
        GatewayState::new()
    }
}

/// An installed client is never replaced: no claim, no abandoned claim and
/// no later offer changes a slot that holds a client.
pub proof fn lemma_running_is_final<T>(phase: Phase<T>, offered: T)
    requires
        phase is Running,
    ensures
        phase.claimed() == (phase, false),
        phase.abandoned() == phase,
        phase.published(offered) == (phase, false),
{
}

/// While a claim is open, every further claim is refused and changes nothing.
pub proof fn lemma_open_claim_excludes<T>(phase: Phase<T>)
    requires
        phase is Starting,
    ensures
        phase.claimed() == (phase, false),
{
}

/// Of any number of claims made in a row on an empty slot, exactly one is
/// granted, the first; on a slot that is claimed or filled, none is.
pub proof fn lemma_single_grant<T>(phase: Phase<T>, n: nat)
    ensures
        phase is Empty && n > 0 ==> phase.grants(n) == 1,
        !(phase is Empty) ==> phase.grants(n) == 0,
        n > 0 ==> !(phase.claimed_times(n) is Empty),
        !(phase is Empty) ==> phase.claimed_times(n) == phase,
    decreases n,
{
    if n > 0 {
        lemma_single_grant(phase, (n - 1) as nat);
        if n == 1 {
            assert(phase.grants(0) == 0);
        }
    }
}

} // verus!
