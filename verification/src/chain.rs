//! The platform dispatcher and the fallback chain.
//!
//! The dispatcher names, for an OS family, the backends to try and their
//! order. The chain is a state machine that a caller drives: it asks which
//! backend is due, probes it, and reports the outcome. The chain decides what
//! comes next; it performs no probe itself.

use crate::gpu::{GpuInfo, Outcome, ProbeError};
use crate::search::{first, lemma_first_from};
use vstd::prelude::*;

verus! {

/// The operating systems that the dispatcher tells apart.
#[derive(Clone, Copy, Debug, PartialEq, Eq, Structural)]
pub enum OsFamily {
    Windows,
    Linux,
    MacOs,
    /// Any other system: no backend applies.
    Other,
}

/// The strategies for finding a GPU, one for each OS or vendor facility.
#[derive(Clone, Copy, Debug, PartialEq, Eq, Structural)]
pub enum Backend {
    /// The vendor's management library; the one backend that reports memory
    /// in use and load.
    VendorManagementLibrary,
    /// The instrumentation service of the OS and its list of video
    /// controllers.
    OsDeviceRegistry,
    /// The display adapters as the OS enumerates them.
    DisplayAdapterDescriptor,
    /// The text that the device listing tool prints.
    DeviceInventoryText,
    /// The service registry of the OS and its PCI devices.
    PlatformRegistryIoKit,
}

impl Backend {
    /// Whether the backend's facility exists on `os`.
    pub open spec fn supports(self, os: OsFamily) -> bool {
        match self {
            Backend::VendorManagementLibrary => os == OsFamily::Windows || os == OsFamily::Linux,
            Backend::OsDeviceRegistry => os == OsFamily::Windows,
            Backend::DisplayAdapterDescriptor => os == OsFamily::Windows,
            Backend::DeviceInventoryText => os == OsFamily::Linux,
            Backend::PlatformRegistryIoKit => os == OsFamily::MacOs,
        }
    }

    /// Tells whether the backend's facility exists on `os`.
    pub fn is_supported_on(self, os: OsFamily) -> (b: bool)
        ensures
            b == self.supports(os),
    {
        match self {
            Backend::VendorManagementLibrary => os == OsFamily::Windows || os == OsFamily::Linux,
            Backend::OsDeviceRegistry => os == OsFamily::Windows,
            Backend::DisplayAdapterDescriptor => os == OsFamily::Windows,
            Backend::DeviceInventoryText => os == OsFamily::Linux,
            Backend::PlatformRegistryIoKit => os == OsFamily::MacOs,
        }
    }
}

/// The backends to try on `os`, the one with the richest data first.
pub open spec fn backend_order(os: OsFamily) -> Seq<Backend> {
    match os {
        OsFamily::Windows => seq![
            Backend::VendorManagementLibrary,
            Backend::OsDeviceRegistry,
            Backend::DisplayAdapterDescriptor,
        ],
        OsFamily::Linux => seq![Backend::VendorManagementLibrary, Backend::DeviceInventoryText],
        OsFamily::MacOs => seq![Backend::PlatformRegistryIoKit],
        OsFamily::Other => seq![],
    }
}

/// The platform dispatcher: lists the backends to try on `os`, in order.
pub fn backends_for(os: OsFamily) -> (order: Vec<Backend>)
    ensures
        order@ == backend_order(os),
{
    let mut order: Vec<Backend> = Vec::new();
    match os {
        OsFamily::Windows => {
            order.push(Backend::VendorManagementLibrary);
            order.push(Backend::OsDeviceRegistry);
            order.push(Backend::DisplayAdapterDescriptor);
        },
        OsFamily::Linux => {
            order.push(Backend::VendorManagementLibrary);
            order.push(Backend::DeviceInventoryText);
        },
        OsFamily::MacOs => {
            order.push(Backend::PlatformRegistryIoKit);
        },
        OsFamily::Other => {},
    }
    order
}

/// The order for an OS lists exactly the backends whose facility exists
/// there, each of them once, and the vendor's management library first where
/// it is among them.
pub proof fn lemma_order_lists_supported(os: OsFamily)
    ensures
        forall|b: Backend| backend_order(os).contains(b) <==> b.supports(os),
        backend_order(os).no_duplicates(),
        Backend::VendorManagementLibrary.supports(os) ==> backend_order(os)[0]
            == Backend::VendorManagementLibrary,
{
}

/// Where a chain stands.
#[derive(Clone, Debug, PartialEq, Eq)]
pub enum ChainState {
    /// No backend has been asked for yet.
    NotStarted,
    /// The backend at this place in the order is due.
    Trying(usize),
    /// A backend succeeded; the chain has ended with its record.
    Found(GpuInfo),
    /// Every backend failed, or there was none: no GPU was detected.
    Exhausted,
}

impl ChainState {
    /// Whether the chain has ended.
    pub open spec fn is_terminal(self) -> bool {
        self is Found || self is Exhausted
    }

    /// The state that a chain over `n` backends enters when it starts.
    pub open spec fn started(n: nat) -> ChainState {
        if n > 0 {
            ChainState::Trying(0)
        } else {
            ChainState::Exhausted
        }
    }

    /// The state that follows `self` in a chain over `n` backends once the
    /// backend that was due has answered with `outcome`. A success ends the
    /// chain with its record. After a failure, of whatever kind, the next
    /// backend is due, or the chain is exhausted. A chain that is not trying a
    /// backend stays as it is.
    pub open spec fn advanced(self, n: nat, outcome: Outcome) -> ChainState {
        match self {
            ChainState::Trying(i) => match outcome {
                Ok(info) => ChainState::Found(info),
                Err(_) => if i + 1 < n {
                    ChainState::Trying((i + 1) as usize)
                } else {
                    ChainState::Exhausted
                },
            },
            _ => self,
        }
    }

    /// The state of a chain over `n` backends that was started and has then
    /// heard `outcomes`, one after the other.
    pub open spec fn after(n: nat, outcomes: Seq<Outcome>) -> ChainState
        decreases outcomes.len(),
    {
        if outcomes.len() == 0 {
            ChainState::started(n)
        } else {
            ChainState::after(n, outcomes.drop_last()).advanced(n, outcomes.last())
        }
    }

    /// What a query that ended in this state returns: the record that was
    /// found, and nothing in every other state.
    pub open spec fn result(self) -> Option<GpuInfo> {
        match self {
            ChainState::Found(info) => Some(info),
            _ => None,
        }
    }
}

/// The condition of being a success.
pub open spec fn success() -> spec_fn(Outcome) -> bool {
    |outcome: Outcome| outcome is Ok
}

/// The place of the first success among `outcomes`, or their number where
/// none succeeded.
pub open spec fn first_success_index(outcomes: Seq<Outcome>) -> int {
    first(outcomes, success())
}

/// What a chain over `n` backends has come to after `outcomes`, given that
/// the first `k` of them are failures and that `k` is at most `n` and at most
/// their number.
proof fn lemma_after_failures(n: nat, outcomes: Seq<Outcome>, k: int)
    requires
        n <= usize::MAX,
        0 <= k <= n,
        k <= outcomes.len(),
        forall|j: int| 0 <= j < k ==> outcomes[j] is Err,
    ensures
        k == n ==> ChainState::after(n, outcomes) == ChainState::Exhausted,
        k < n && k == outcomes.len() ==> ChainState::after(n, outcomes) == ChainState::Trying(
            k as usize,
        ),
        k < n && k < outcomes.len() && outcomes[k] is Ok ==> ChainState::after(n, outcomes)
            == ChainState::Found(outcomes[k]->Ok_0),
    decreases outcomes.len(),
{
    if outcomes.len() > 0 {
        let before = outcomes.drop_last();
        if k <= before.len() {
            lemma_after_failures(n, before, k);
        } else {
            lemma_after_failures(n, before, before.len() as int);
        }
    }
}

/// The fallback rule in one statement. A chain over `n` backends that has
/// heard `outcomes` has found the record of the first success among the first
/// `n` outcomes, and every outcome after it went unheard; it is exhausted
/// where the first `n` outcomes are all failures; and it is trying the next
/// backend where fewer than `n` outcomes came and all of them are failures.
pub proof fn lemma_chain_settles_on_first_success(n: nat, outcomes: Seq<Outcome>)
    requires
        n <= usize::MAX,
    ensures
        ({
            let k = first_success_index(outcomes);
            ChainState::after(n, outcomes) == if k < n && k < outcomes.len() {
                ChainState::Found(outcomes[k]->Ok_0)
            } else if n <= k {
                ChainState::Exhausted
            } else {
                ChainState::Trying(k as usize)
            }
        }),
{
    let k = first_success_index(outcomes);
    lemma_first_from(outcomes, success(), 0);
    if k <= n {
        lemma_after_failures(n, outcomes, k);
    } else {
        lemma_after_failures(n, outcomes, n as int);
    }
}

/// Fallback order: where the first backend succeeds, the chain ends at once
/// with the very record that it gave, and nothing that later backends would
/// have answered changes that.
pub proof fn lemma_first_backend_wins(n: nat, info: GpuInfo, later: Seq<Outcome>)
    requires
        0 < n <= usize::MAX,
    ensures
        ChainState::started(n).advanced(n, Ok(info)) == ChainState::Found(info),
        ChainState::after(n, seq![Ok(info)] + later) == ChainState::Found(info),
        ChainState::after(n, seq![Ok(info)] + later).result() == Some(info),
{
    let outcomes = seq![Ok::<GpuInfo, ProbeError>(info)] + later;
    lemma_chain_settles_on_first_success(n, outcomes);
}

/// No GPU is no error: a chain whose backends all fail, for whatever reasons,
/// ends exhausted and its result is nothing; so does a chain without any
/// backend, before any outcome.
pub proof fn lemma_all_failed_is_exhausted(n: nat, outcomes: Seq<Outcome>)
    requires
        n <= usize::MAX,
        outcomes.len() >= n,
        forall|j: int| 0 <= j < n ==> outcomes[j] is Err,
    ensures
        ChainState::after(n, outcomes) == ChainState::Exhausted,
        ChainState::after(n, outcomes).result() is None,
        ChainState::started(0) == ChainState::Exhausted,
{
    lemma_after_failures(n, outcomes, n as int);
}

/// The three kinds of failure are one to the chain: the state after a failure
/// does not depend on its kind.
pub proof fn lemma_failure_kinds_alike(state: ChainState, n: nat, a: ProbeError, b: ProbeError)
    ensures
        state.advanced(n, Err(a)) == state.advanced(n, Err(b)),
{
}

/// A chain goes forward only: after an outcome it tries the backend that
/// follows the one it tried, or it has ended; and once it has ended it stays
/// as it is.
pub proof fn lemma_chain_goes_forward(state: ChainState, n: nat, outcome: Outcome)
    requires
        n <= usize::MAX,
    ensures
        state matches ChainState::Trying(i) ==> state.advanced(n, outcome).is_terminal()
            || state.advanced(n, outcome) == ChainState::Trying((i + 1) as usize),
        state.is_terminal() ==> state.advanced(n, outcome) == state,
{
}

/// A fallback chain over an ordered list of backends.
pub struct FallbackChain {
    order: Vec<Backend>,
    progress: Progress,
}

/// What changes while a chain runs: its state, and the number of outcomes
/// that it has taken in.
struct Progress {
    state: ChainState,
    attempts: usize,
}

/// The mathematical content of a `FallbackChain`.
pub struct ChainView {
    /// The backends, in the order in which they are tried.
    pub order: Seq<Backend>,
    /// Where the chain stands.
    pub state: ChainState,
    /// How many outcomes the chain has taken in.
    pub attempts: nat,
}

impl ChainView {
    /// What holds of every chain: it tries a backend of its list, it has
    /// taken in one outcome for each backend that it is done with, and never
    /// more than one for each backend of the list.
    pub open spec fn wf(self) -> bool {
        match self.state {
            ChainState::NotStarted => self.attempts == 0,
            ChainState::Trying(i) => i < self.order.len() && self.attempts == i,
            ChainState::Found(_) => 1 <= self.attempts <= self.order.len(),
            ChainState::Exhausted => self.attempts == self.order.len(),
        }
    }

    /// The backend that is due: the one being tried, if any.
    pub open spec fn pending(self) -> Option<Backend> {
        match self.state {
            ChainState::Trying(i) => Some(self.order[i as int]),
            _ => None,
        }
    }
}

impl View for FallbackChain {
    type V = ChainView;

    closed spec fn view(&self) -> ChainView {
        ChainView {
            order: self.order@,
            state: self.progress.state,
            attempts: self.progress.attempts as nat,
        }
    }
}

impl FallbackChain {
    #[verifier::type_invariant]
    spec fn inv(self) -> bool {
        self@.wf()
    }

    /// A chain over `order` that has not started.
    pub fn new(order: Vec<Backend>) -> (chain: FallbackChain)
        ensures
            chain@.order == order@,
            chain@.state == ChainState::NotStarted,
            chain@.attempts == 0,
            chain@.wf(),
    {
        FallbackChain { order, progress: Progress { state: ChainState::NotStarted, attempts: 0 } }
    }

    /// A chain over the backends of `os` that has not started.
    pub fn for_os(os: OsFamily) -> (chain: FallbackChain)
        ensures
            chain@.order == backend_order(os),
            chain@.state == ChainState::NotStarted,
            chain@.attempts == 0,
            chain@.wf(),
    {
        FallbackChain::new(backends_for(os))
    }

    /// Starts the chain: the first backend becomes due, or the chain is
    /// exhausted at once where its list is empty. A chain that has started
    /// stays as it is.
    pub fn begin(&mut self)
        ensures
            final(self)@.order == old(self)@.order,
            final(self)@.attempts == old(self)@.attempts,
            final(self)@.state == if old(self)@.state is NotStarted {
                ChainState::started(old(self)@.order.len())
            } else {
                old(self)@.state
            },
            final(self)@.wf(),
    {
        proof {
            use_type_invariant(&*self);
        }
        if let ChainState::NotStarted = self.progress.state {
            if self.order.len() > 0 {
                self.progress = Progress { state: ChainState::Trying(0), attempts: 0 };
            } else {
                self.progress = Progress { state: ChainState::Exhausted, attempts: 0 };
            }
        }
    }

    /// The backend to probe now, if the chain is waiting for one.
    pub fn pending(&self) -> (due: Option<Backend>)
        ensures
            due == self@.pending(),
            due is Some ==> self@.order.contains(due->0),
            self@.wf(),
    {
        proof {
            use_type_invariant(self);
        }
        match self.progress.state {
            ChainState::Trying(i) => Some(self.order[i]),
            _ => None,
        }
    }

    /// Takes in the outcome of the backend that was due and moves on as
    /// `advanced` says. A chain that is not waiting for an outcome drops it
    /// and stays as it is.
    pub fn report(&mut self, outcome: Outcome)
        ensures
            final(self)@.order == old(self)@.order,
            final(self)@.state == old(self)@.state.advanced(old(self)@.order.len(), outcome),
            final(self)@.attempts == if old(self)@.state is Trying {
                old(self)@.attempts + 1
            } else {
                old(self)@.attempts
            },
            final(self)@.wf(),
    {
        proof {
            use_type_invariant(&*self);
        }
        let n: usize = self.order.len();
        if let ChainState::Trying(i) = self.progress.state {
            let state = match outcome {
                Ok(info) => ChainState::Found(info),
                Err(_) => if i + 1 < n {
                    ChainState::Trying(i + 1)
                } else {
                    ChainState::Exhausted
                },
            };
            self.progress = Progress { state, attempts: i + 1 };
        }
    }

    /// How many outcomes the chain has taken in: the number of backends that
    /// were probed for it.
    pub fn attempts(&self) -> (count: usize)
        ensures
            count == self@.attempts,
            count <= self@.order.len(),
            self@.wf(),
    {
        proof {
            use_type_invariant(self);
        }
        self.progress.attempts
    }

    /// Where the chain stands.
    pub fn state(&self) -> (state: &ChainState)
        ensures
            *state == self@.state,
            self@.wf(),
    {
        proof {
            use_type_invariant(self);
        }
        &self.progress.state
    }

    /// Whether the chain has ended, with a record or exhausted.
    pub fn is_done(&self) -> (done: bool)
        ensures
            done == self@.state.is_terminal(),
    {
        match self.progress.state {
            ChainState::Found(_) => true,
            ChainState::Exhausted => true,
            _ => false,
        }
    }

    /// Ends the query: the record that was found, or nothing.
    pub fn finish(self) -> (found: Option<GpuInfo>)
        ensures
            found == self@.state.result(),
    {
        match self.progress.state {
            ChainState::Found(info) => Some(info),
            _ => None,
        }
    }
}

/// Whether `probe` can answer for `backend` with a failure.
pub open spec fn can_fail<F: Fn(Backend) -> Outcome>(probe: F, backend: Backend) -> bool {
    exists|e: ProbeError| call_ensures(probe, (backend,), Err::<GpuInfo, ProbeError>(e))
}

/// Whether `probe` can answer for `backend` with a record.
pub open spec fn can_succeed<F: Fn(Backend) -> Outcome>(probe: F, backend: Backend) -> bool {
    exists|info: GpuInfo| call_ensures(probe, (backend,), Ok::<GpuInfo, ProbeError>(info))
}

/// How a query over `order` can end when `probe` does the probing: with
/// `found` after `attempts` calls of `probe`, one for each of the first
/// `attempts` backends. A record is what `probe` answered for the backend
/// that was asked last, and every backend before that one failed. Nothing is
/// found only after every backend of the list has failed.
pub open spec fn settles<F: Fn(Backend) -> Outcome>(
    order: Seq<Backend>,
    probe: F,
    found: Option<GpuInfo>,
    attempts: nat,
) -> bool {
    &&& attempts <= order.len()
    &&& match found {
        Some(info) => {
            &&& attempts >= 1
            &&& call_ensures(probe, (order[attempts - 1],), Ok::<GpuInfo, ProbeError>(info))
            &&& forall|j: int| 0 <= j < attempts - 1 ==> can_fail(probe, #[trigger] order[j])
        },
        None => {
            &&& attempts == order.len()
            &&& forall|j: int| 0 <= j < attempts ==> can_fail(probe, #[trigger] order[j])
        },
    }
}

/// What a query came to: the record, if one was found, and the number of
/// backends that were probed.
#[derive(Clone, Debug, PartialEq, Eq)]
pub struct Resolution {
    /// The record of the first backend that succeeded.
    pub found: Option<GpuInfo>,
    /// How many backends were probed.
    pub attempts: usize,
}

/// The "first success" rule over an ordered list of backends: calls `probe`
/// for one backend after the other until one succeeds or the list is
/// exhausted. No backend is probed twice, and none after a success.
pub fn first_success<F: Fn(Backend) -> Outcome>(order: Vec<Backend>, probe: F) -> (res: Resolution)
    requires
        forall|b: Backend| order@.contains(b) ==> call_requires(probe, (b,)),
    ensures
        settles(order@, probe, res.found, res.attempts as nat),
{
    let ghost list = order@;
    let mut chain = FallbackChain::new(order);
    chain.begin();
    loop
        invariant
            chain@.order == list,
            chain@.wf(),
            !(chain@.state is NotStarted),
            forall|b: Backend| list.contains(b) ==> call_requires(probe, (b,)),
            match chain@.state {
                ChainState::Found(info) => {
                    &&& call_ensures(
                        probe,
                        (list[chain@.attempts - 1],),
                        Ok::<GpuInfo, ProbeError>(info),
                    )
                    &&& forall|j: int|
                        0 <= j < chain@.attempts - 1 ==> can_fail(probe, #[trigger] list[j])
                },
                _ => forall|j: int|
                    0 <= j < chain@.attempts ==> can_fail(probe, #[trigger] list[j]),
            },
        ensures
            chain@.state.is_terminal(),
        decreases
                list.len() - chain@.attempts + (if chain@.state.is_terminal() {
                    0nat
                } else {
                    1nat
                }),
    {
        match chain.pending() {
            Some(backend) => {
                let outcome = probe(backend);
                proof {
                    if let Err(e) = outcome {
                        assert(can_fail(probe, backend));
                    }
                }
                chain.report(outcome);
            },
            None => {
                break;
            },
        }
    }
    let attempts = chain.attempts();
    let found = chain.finish();
    Resolution { found, attempts }
}

/// Fallback order, for whatever does the probing: where the first backend
/// cannot fail, a query ends after exactly one probe, with what that backend
/// answered.
pub proof fn lemma_sure_first_backend_is_the_only_probe<F: Fn(Backend) -> Outcome>(
    order: Seq<Backend>,
    probe: F,
    found: Option<GpuInfo>,
    attempts: nat,
)
    requires
        settles(order, probe, found, attempts),
        order.len() > 0,
        !can_fail(probe, order[0]),
    ensures
        attempts == 1,
        found is Some,
        call_ensures(probe, (order[0],), Ok::<GpuInfo, ProbeError>(found->0)),
{
}

/// No GPU is no error, for whatever does the probing: where no backend can
/// succeed, a query ends with nothing after every backend was probed once, and
/// a query over an empty list ends with nothing and without a probe.
pub proof fn lemma_nothing_found_where_all_fail<F: Fn(Backend) -> Outcome>(
    order: Seq<Backend>,
    probe: F,
    found: Option<GpuInfo>,
    attempts: nat,
)
    requires
        settles(order, probe, found, attempts),
        forall|j: int| 0 <= j < order.len() ==> !can_succeed(probe, #[trigger] order[j]),
    ensures
        found is None,
        attempts == order.len(),
{
}

} // verus!
