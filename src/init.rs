//! The process-wide initialization guard of the native library.
//!
//! The guard starts uninitialized; the first call decides, once, between
//! initialized and failed, and every later call observes that same outcome
//! without touching the native library again. Callers share one guard behind a
//! lock, so that concurrent first calls wait for the one that runs setup.

use vstd::prelude::*;
use vstd::string::*;
use crate::error::Error;
use crate::text::{contains_nul, has_nul};

verus! {

/// Where the native setup looks for its data.
pub enum SetupRoute {
    /// In this data directory.
    DataDir(String),
    /// In the library's own default location.
    LibraryDefault,
}

/// What the three native setup calls (normalization, parser, language
/// classifier) reported.
#[derive(Debug, Clone, Copy, PartialEq, Eq, Structural)]
pub struct SetupResults {
    /// General setup succeeded.
    pub base: bool,
    /// Parser setup succeeded.
    pub parser: bool,
    /// Language classifier setup succeeded.
    pub classifier: bool,
}

/// The abstract state of the guard.
pub enum GateState {
    /// Setup has not run.
    Uninitialized,
    /// Setup succeeded.
    Initialized,
    /// Setup failed with this message.
    Failed(Seq<char>),
}

/// Message of a failed setup when the data was missing.
pub open spec fn data_missing_message() -> Seq<char> {
    "libpostal initialization failed - data files not found. Run data download first."@
}

/// Message of a failed setup when the data was there.
pub open spec fn setup_rejected_message() -> Seq<char> {
    "libpostal initialization failed"@
}

/// Message of a data directory that no native call can take.
pub open spec fn invalid_dir_message() -> Seq<char> {
    "Invalid data directory path"@
}

/// Setup needs no native call: the data is there but its directory cannot
/// be handed over.
pub open spec fn route_fails(available: bool, dir: Seq<char>) -> bool {
    available && has_nul(dir)
}

/// The route setup takes: the data directory when the data is available,
/// else the library's default location.
pub open spec fn route_for(available: bool, dir: Seq<char>, route: SetupRoute) -> bool {
    if available {
        route matches SetupRoute::DataDir(d) && d@ == dir
    } else {
        route is LibraryDefault
    }
}

/// The state that a first call settles on: initialized when all three setup
/// calls succeed; else failed, with a message that tells missing data from
/// rejected data.
pub open spec fn settle(available: bool, dir: Seq<char>, results: SetupResults) -> GateState {
    if route_fails(available, dir) {
        GateState::Failed(invalid_dir_message())
    } else if results.base && results.parser && results.classifier {
        GateState::Initialized
    } else if !available {
        GateState::Failed(data_missing_message())
    } else {
        GateState::Failed(setup_rejected_message())
    }
}

/// Every failure message the guard can settle on is short: at most 255
/// characters, as a fixed-size message buffer would hold.
pub proof fn lemma_failure_message_bounded(available: bool, dir: Seq<char>, results: SetupResults)
    ensures
        settle(available, dir, results) matches GateState::Failed(m) ==> m.len() <= 255,
{
    reveal_strlit("Invalid data directory path");
    reveal_strlit("libpostal initialization failed");
    reveal_strlit(
        "libpostal initialization failed - data files not found. Run data download first.",
    );
}

/// One call of the guard: a guard that has settled stays as it is.
pub open spec fn gate_step(
    s: GateState,
    available: bool,
    dir: Seq<char>,
    results: SetupResults,
) -> GateState {
    match s {
        GateState::Uninitialized => settle(available, dir, results),
        _ => s,
    }
}

/// The outcome a caller observes in a state.
pub open spec fn outcome_of(s: GateState, r: Result<(), Error>) -> bool {
    match s {
        GateState::Initialized => r is Ok,
        GateState::Failed(m) => r matches Err(Error::InitializationFailed { message }) && message@
            == m,
        GateState::Uninitialized => r matches Err(Error::InitializationFailed { message })
            && message@ == setup_rejected_message(),
    }
}

/// The guard itself.
pub struct InitGate {
    settled: Option<Result<(), String>>,
}

impl InitGate {
    /// The state of the guard.
    pub closed spec fn state(&self) -> GateState {
        match self.settled {
            None => GateState::Uninitialized,
            Some(Ok(())) => GateState::Initialized,
            Some(Err(m)) => GateState::Failed(m@),
        }
    }

    /// A guard on which setup has not run.
    pub fn new() -> (r: InitGate)
        ensures
            r.state() is Uninitialized,
    {
        InitGate { settled: None }
    }

    /// True once setup has run.
    pub fn is_settled(&self) -> (r: bool)
        ensures
            r == !(self.state() is Uninitialized),
    {
        self.settled.is_some()
    }

    /// The outcome callers observe.
    pub fn outcome(&self) -> (r: Result<(), Error>)
        ensures
            outcome_of(self.state(), r),
    {
        match &self.settled {
            Some(Ok(())) => Ok(()),
            Some(Err(m)) => Err(Error::initialization_failed(m.as_str())),
            None => Err(Error::initialization_failed("libpostal initialization failed")),
        }
    }

    /// Runs setup if it has not run: `setup` stands for the three native setup
    /// calls made along the given route, and is called at most once, never
    /// after the guard has settled. Returns the outcome every caller observes.
    pub fn initialize<F>(&mut self, data_available: bool, data_dir: &str, setup: F) -> (r: Result<
        (),
        Error,
    >) where F: FnOnce(SetupRoute) -> SetupResults
        requires
            old(self).state() is Uninitialized && !route_fails(data_available, data_dir@)
                ==> forall|route: SetupRoute|
                route_for(data_available, data_dir@, route) ==> #[trigger] setup.requires((route,)),
        ensures
            !(old(self).state() is Uninitialized) ==> final(self).state() == old(self).state(),
            old(self).state() is Uninitialized && route_fails(data_available, data_dir@)
                ==> final(self).state() == GateState::Failed(invalid_dir_message()),
            old(self).state() is Uninitialized && !route_fails(data_available, data_dir@)
                ==> exists|route: SetupRoute, results: SetupResults|
                {
                    &&& route_for(data_available, data_dir@, route)
                    &&& #[trigger] setup.ensures((route,), results)
                    &&& final(self).state() == settle(data_available, data_dir@, results)
                },
            !(final(self).state() is Uninitialized),
            outcome_of(final(self).state(), r),
    {
        if self.settled.is_none() {
            if data_available && contains_nul(data_dir) {
                self.settled = Some(Err(String::from_str("Invalid data directory path")));
            } else {
                let route = if data_available {
                    SetupRoute::DataDir(data_dir.to_owned())
                } else {
                    SetupRoute::LibraryDefault
                };
                let ghost g = route;
                let results = setup(route);
                if results.base && results.parser && results.classifier {
                    self.settled = Some(Ok(()));
                } else if !data_available {
                    self.settled = Some(
                        Err(
                            String::from_str(
                                "libpostal initialization failed - data files not found. Run data download first.",
                            ),
                        ),
                    );
                } else {
                    self.settled = Some(Err(String::from_str("libpostal initialization failed")));
                }
                assert(route_for(data_available, data_dir@, g) && setup.ensures((g,), results)
                    && self.state() == settle(data_available, data_dir@, results));
            }
        }
        self.outcome()
    }
}

/// One call of the guard as its caller sees it.
pub struct GateCall {
    /// The caller found the data available.
    pub available: bool,
    /// The data directory it found.
    pub dir: Seq<char>,
    /// What the native setup would report if it ran.
    pub results: SetupResults,
}

/// The state after a sequence of calls.
pub open spec fn run_calls(s: GateState, calls: Seq<GateCall>) -> GateState
    decreases calls.len(),
{
    if calls.len() == 0 {
        s
    } else {
        let c = calls.last();
        gate_step(run_calls(s, calls.drop_last()), c.available, c.dir, c.results)
    }
}

/// How many calls of a sequence reach the native setup.
pub open spec fn setups_run(s: GateState, calls: Seq<GateCall>) -> nat
    decreases calls.len(),
{
    if calls.len() == 0 {
        0
    } else {
        let c = calls.last();
        let before = run_calls(s, calls.drop_last());
        setups_run(s, calls.drop_last()) + if before is Uninitialized && !route_fails(
            c.available,
            c.dir,
        ) {
            1nat
        } else {
            0nat
        }
    }
}

/// Initialization happens once: however many calls reach a fresh guard, and
/// whatever each of them finds, at most one (the first) runs the native setup,
/// and every call leaves the guard in the state the first one settled on, so
/// all callers observe the same outcome.
pub proof fn lemma_initialization_once(calls: Seq<GateCall>)
    requires
        calls.len() >= 1,
    ensures
        setups_run(GateState::Uninitialized, calls) <= 1,
        !route_fails(calls[0].available, calls[0].dir) ==> setups_run(
            GateState::Uninitialized,
            calls,
        ) == 1,
        forall|k: int|
            1 <= k <= calls.len() ==> #[trigger] run_calls(
                GateState::Uninitialized,
                calls.subrange(0, k),
            ) == settle(calls[0].available, calls[0].dir, calls[0].results),
    decreases calls.len(),
{
    if calls.len() == 1 {
        assert(calls.drop_last() =~= Seq::<GateCall>::empty());
        assert(calls.subrange(0, 1) =~= calls);
        assert(calls.last() == calls[0]);
        assert(run_calls(GateState::Uninitialized, calls.drop_last()) is Uninitialized);
        assert(setups_run(GateState::Uninitialized, calls.drop_last()) == 0);
    } else {
        let prefix = calls.drop_last();
        lemma_initialization_once(prefix);
        assert(prefix[0] == calls[0]);
        assert(prefix.subrange(0, prefix.len() as int) =~= prefix);
        assert(run_calls(GateState::Uninitialized, prefix) == settle(
            calls[0].available,
            calls[0].dir,
            calls[0].results,
        ));
        assert forall|k: int|
            1 <= k <= calls.len() implies #[trigger] run_calls(
            GateState::Uninitialized,
            calls.subrange(0, k),
        ) == settle(calls[0].available, calls[0].dir, calls[0].results) by {
            if k < calls.len() {
                assert(calls.subrange(0, k) =~= prefix.subrange(0, k));
            } else {
                assert(calls.subrange(0, k) =~= calls);
            }
        }
    }
}

} // verus!
