//! The order of a launch: load the library, resolve the entry point by
//! its ordinal, call it, read the result. The launcher decides; whoever
//! drives it makes each platform call and hands back what it returned.

use vstd::prelude::*;
use crate::request::{call_for, LaunchRequest, ProcessCall, ProcessCallView};
use crate::wide::{to_wide_chars, wide_text};

verus! {

/// The export slot of the entry point. The library is addressed by this
/// position in its export table alone, never by a symbol name.
pub const ENTRY_ORDINAL: u16 = 1337;

/// Why a launch ended without a process. Each carries the platform's
/// last-error code as it stood right after the call that failed.
#[derive(Clone, Copy, Debug, PartialEq, Eq, Structural)]
pub enum LaunchError {
    /// The library could not be mapped into the process.
    LibraryLoadFailed(u32),
    /// The library exports nothing at the entry ordinal.
    SymbolNotFound(u32),
    /// The entry point reported failure.
    LaunchFailed(u32),
}

/// What a platform call handed back: its raw return value, zero or null
/// for failure, and the last-error code read immediately after it.
#[derive(Clone, Copy, Debug, PartialEq, Eq, Structural)]
pub struct CallReturn {
    pub value: usize,
    pub last_error: u32,
}

/// A reference to a library that is mapped into the process. It is made
/// from a successful load alone and stays good for the rest of the
/// process's life: nothing ever releases it.
#[derive(Clone, Copy, Debug, PartialEq, Eq, Structural)]
pub struct LibraryHandle {
    pub address: usize,
}

impl LibraryHandle {
    /// A handle is not null.
    pub open spec fn wf(self) -> bool {
        self.address != 0
    }

    /// What a load that returned `ret` gave: the handle, or
    /// `LibraryLoadFailed` with the code that came with a null.
    pub open spec fn loaded(ret: CallReturn) -> Result<LibraryHandle, LaunchError> {
        if ret.value == 0 {
            Err(LaunchError::LibraryLoadFailed(ret.last_error))
        } else {
            Ok(LibraryHandle { address: ret.value })
        }
    }

    /// Reads the result of the load call.
    pub fn from_load(ret: CallReturn) -> (result: Result<LibraryHandle, LaunchError>)
        ensures
            result == Self::loaded(ret),
            result is Ok <==> ret.value != 0,
            result matches Ok(handle) ==> handle.wf(),
    {
        match interpret(ret).last_error_code {
            Some(code) => Err(LaunchError::LibraryLoadFailed(code)),
            None => Ok(LibraryHandle { address: ret.value }),
        }
    }
}

/// The address of the routine exported at the entry ordinal, together
/// with the library that it lies in: the address is good for as long as
/// that library stays mapped.
#[derive(Clone, Copy, Debug, PartialEq, Eq, Structural)]
pub struct EntryPointAddress {
    pub library: LibraryHandle,
    pub address: usize,
}

impl EntryPointAddress {
    /// Neither the address nor the library's handle is null.
    pub open spec fn wf(self) -> bool {
        self.library.wf() && self.address != 0
    }

    /// What a resolution in `library` that returned `ret` gave: the
    /// address, or `SymbolNotFound` with the code that came with a null.
    pub open spec fn resolved(library: LibraryHandle, ret: CallReturn) -> Result<
        EntryPointAddress,
        LaunchError,
    > {
        if ret.value == 0 {
            Err(LaunchError::SymbolNotFound(ret.last_error))
        } else {
            Ok(EntryPointAddress { library, address: ret.value })
        }
    }

    /// Reads the result of the resolution call.
    pub fn from_resolve(library: LibraryHandle, ret: CallReturn) -> (result: Result<
        EntryPointAddress,
        LaunchError,
    >)
        ensures
            result == Self::resolved(library, ret),
            result is Ok <==> ret.value != 0,
            result matches Ok(entry) ==> (library.wf() ==> entry.wf()),
    {
        match interpret(ret).last_error_code {
            Some(code) => Err(LaunchError::SymbolNotFound(code)),
            None => Ok(EntryPointAddress { library, address: ret.value }),
        }
    }
}

/// A call's result as success or failure. The error code is there exactly
/// when the call failed.
#[derive(Clone, Copy, Debug, PartialEq, Eq, Structural)]
pub struct InvocationOutcome {
    pub succeeded: bool,
    pub last_error_code: Option<u32>,
}

/// How a returned value reads: zero is failure with the code that came
/// with it, anything else is success without a code.
pub open spec fn outcome_of(ret: CallReturn) -> InvocationOutcome {
    if ret.value == 0 {
        InvocationOutcome { succeeded: false, last_error_code: Some(ret.last_error) }
    } else {
        InvocationOutcome { succeeded: true, last_error_code: None }
    }
}

/// Reads the result of a platform call.
pub fn interpret(ret: CallReturn) -> (outcome: InvocationOutcome)
    ensures
        outcome == outcome_of(ret),
        outcome.succeeded <==> ret.value != 0,
        outcome.succeeded <==> outcome.last_error_code is None,
        !outcome.succeeded ==> outcome.last_error_code == Some(ret.last_error),
{
    if ret.value == 0 {
        InvocationOutcome { succeeded: false, last_error_code: Some(ret.last_error) }
    } else {
        InvocationOutcome { succeeded: true, last_error_code: None }
    }
}

impl InvocationOutcome {
    /// The outcome of the entry point's call as the end of a launch:
    /// success, or `LaunchFailed` with the outcome's code.
    pub fn launch_result(self) -> (result: Result<(), LaunchError>)
        ensures
            result == match self.last_error_code {
                Some(code) => Err::<(), LaunchError>(LaunchError::LaunchFailed(code)),
                None => Ok::<(), LaunchError>(()),
            },
    {
        match self.last_error_code {
            Some(code) => Err(LaunchError::LaunchFailed(code)),
            None => Ok(()),
        }
    }
}

/// A step that went well, for whoever reports on the launch.
#[derive(Clone, Copy, Debug, PartialEq, Eq, Structural)]
pub enum Progress {
    /// The library is loaded, at this handle.
    LibraryLoaded(usize),
    /// The entry point is resolved, at this address.
    OrdinalLoaded(usize),
    /// The entry point returned; true where it reported success.
    Returned(bool),
}

/// How far a launch has come.
#[derive(Clone, Copy, Debug, PartialEq, Eq, Structural)]
pub enum Phase {
    /// Nothing is loaded yet.
    Loading,
    /// The library is loaded and stays so; its entry point is not known.
    Resolving { library: LibraryHandle },
    /// The entry point is known and has not been called.
    Invoking { entry: EntryPointAddress },
    /// The entry point reported success.
    Launched,
    /// A step failed. Nothing follows.
    Failed(LaunchError),
}

impl Phase {
    /// Handles and addresses that a phase holds are not null.
    pub open spec fn wf(self) -> bool {
        match self {
            Phase::Resolving { library } => library.wf(),
            Phase::Invoking { entry } => entry.wf(),
            _ => true,
        }
    }

    /// True of the two phases that end a launch.
    pub open spec fn is_terminal(self) -> bool {
        self is Launched || self is Failed
    }

    /// The phase that follows when the pending call has returned `ret`.
    /// A failure ends the launch with the error of the step it happened
    /// in; a launch that has ended stays as it is.
    pub open spec fn next(self, ret: CallReturn) -> Phase {
        match self {
            Phase::Loading => if ret.value == 0 {
                Phase::Failed(LaunchError::LibraryLoadFailed(ret.last_error))
            } else {
                Phase::Resolving { library: LibraryHandle { address: ret.value } }
            },
            Phase::Resolving { library } => if ret.value == 0 {
                Phase::Failed(LaunchError::SymbolNotFound(ret.last_error))
            } else {
                Phase::Invoking { entry: EntryPointAddress { library, address: ret.value } }
            },
            Phase::Invoking { entry } => if ret.value == 0 {
                Phase::Failed(LaunchError::LaunchFailed(ret.last_error))
            } else {
                Phase::Launched
            },
            Phase::Launched => Phase::Launched,
            Phase::Failed(e) => Phase::Failed(e),
        }
    }

    /// What there is to report when the pending call has returned `ret`:
    /// each load and resolution that went well, and whatever the entry
    /// point answered.
    pub open spec fn progress(self, ret: CallReturn) -> Option<Progress> {
        match self {
            Phase::Loading => if ret.value == 0 {
                None
            } else {
                Some(Progress::LibraryLoaded(ret.value))
            },
            Phase::Resolving { library } => if ret.value == 0 {
                None
            } else {
                Some(Progress::OrdinalLoaded(ret.value))
            },
            Phase::Invoking { entry } => Some(Progress::Returned(ret.value != 0)),
            Phase::Launched => None,
            Phase::Failed(e) => None,
        }
    }

    /// The phase reached from this one when the calls returned `results`,
    /// one after the other.
    pub open spec fn after(self, results: Seq<CallReturn>) -> Phase
        decreases results.len(),
    {
        if results.len() == 0 {
            self
        } else {
            self.next(results[0]).after(results.drop_first())
        }
    }

    /// Takes the result of the pending call: gives the next phase and
    /// what there is to report.
    pub fn step(self, ret: CallReturn) -> (result: (Phase, Option<Progress>))
        requires
            self.wf(),
        ensures
            result.0 == self.next(ret),
            result.1 == self.progress(ret),
            result.0.wf(),
    {
        match self {
            Phase::Loading => match LibraryHandle::from_load(ret) {
                Ok(library) => (
                    Phase::Resolving { library },
                    Some(Progress::LibraryLoaded(library.address)),
                ),
                Err(e) => (Phase::Failed(e), None),
            },
            Phase::Resolving { library } => match EntryPointAddress::from_resolve(library, ret) {
                Ok(entry) => (
                    Phase::Invoking { entry },
                    Some(Progress::OrdinalLoaded(entry.address)),
                ),
                Err(e) => (Phase::Failed(e), None),
            },
            Phase::Invoking { entry } => {
                let outcome = interpret(ret);
                let report = Some(Progress::Returned(outcome.succeeded));
                match outcome.launch_result() {
                    Ok(()) => (Phase::Launched, report),
                    Err(e) => (Phase::Failed(e), report),
                }
            },
            Phase::Launched => (Phase::Launched, None),
            Phase::Failed(e) => (Phase::Failed(e), None),
        }
    }
}

/// The platform call that the driver is to make next.
#[derive(Debug, PartialEq, Eq)]
pub enum Action {
    /// Load the library at this marshalled path.
    LoadLibrary { path: Vec<u16> },
    /// Resolve the export at this ordinal of the loaded library.
    ResolveOrdinal { library: LibraryHandle, ordinal: u16 },
    /// Call the entry point at this address with these arguments.
    Invoke { entry: EntryPointAddress, call: ProcessCall },
    /// The launch has ended: make no call.
    Stop,
}

/// An action as plain values.
pub enum ActionView {
    LoadLibrary { path: Seq<u16> },
    ResolveOrdinal { library: LibraryHandle, ordinal: u16 },
    Invoke { entry: EntryPointAddress, call: ProcessCallView },
    Stop,
}

impl View for Action {
    type V = ActionView;

    open spec fn view(&self) -> ActionView {
        match *self {
            Action::LoadLibrary { path } => ActionView::LoadLibrary { path: path@ },
            Action::ResolveOrdinal { library, ordinal } => ActionView::ResolveOrdinal {
                library,
                ordinal,
            },
            Action::Invoke { entry, call } => ActionView::Invoke { entry, call: call@ },
            Action::Stop => ActionView::Stop,
        }
    }
}

/// One launch: the library to load, the request, and how far it has come.
#[derive(Debug, PartialEq, Eq)]
pub struct Launcher {
    pub library_path: String,
    pub request: LaunchRequest,
    pub phase: Phase,
}

impl Launcher {
    /// The request names an executable, and the phase holds no null.
    pub open spec fn wf(&self) -> bool {
        self.request.wf() && self.phase.wf()
    }

    /// The call that is due in the current phase.
    pub open spec fn pending(&self) -> ActionView {
        match self.phase {
            Phase::Loading => ActionView::LoadLibrary { path: wide_text(self.library_path@) },
            Phase::Resolving { library } => ActionView::ResolveOrdinal {
                library,
                ordinal: ENTRY_ORDINAL,
            },
            Phase::Invoking { entry } => ActionView::Invoke {
                entry,
                call: call_for(self.request),
            },
            Phase::Launched => ActionView::Stop,
            Phase::Failed(e) => ActionView::Stop,
        }
    }

    /// This launcher when its calls have returned `results`, one after
    /// the other.
    pub open spec fn after(&self, results: Seq<CallReturn>) -> Launcher {
        Launcher {
            library_path: self.library_path,
            request: self.request,
            phase: self.phase.after(results),
        }
    }

    /// A launch that has not begun.
    pub fn new(library_path: String, request: LaunchRequest) -> (launcher: Launcher)
        requires
            request.wf(),
        ensures
            launcher.wf(),
            launcher.library_path == library_path,
            launcher.request == request,
            launcher.phase == Phase::Loading,
    {
        Launcher { library_path, request, phase: Phase::Loading }
    }

    /// The call to make now, with freshly marshalled arguments that the
    /// action owns. No handle or address in it is null.
    pub fn action(&self) -> (action: Action)
        requires
            self.wf(),
        ensures
            action@ == self.pending(),
            action is Stop <==> self.phase.is_terminal(),
            action matches Action::ResolveOrdinal { library, .. } ==> library.wf(),
            action matches Action::Invoke { entry, .. } ==> entry.wf(),
    {
        match self.phase {
            Phase::Loading => Action::LoadLibrary {
                path: to_wide_chars(self.library_path.as_str()),
            },
            Phase::Resolving { library } => Action::ResolveOrdinal {
                library,
                ordinal: ENTRY_ORDINAL,
            },
            Phase::Invoking { entry } => Action::Invoke {
                entry,
                call: ProcessCall::for_request(&self.request),
            },
            Phase::Launched => Action::Stop,
            Phase::Failed(e) => Action::Stop,
        }
    }

    /// Takes what the pending call returned and moves on. Gives what
    /// there is to report of the step.
    pub fn advance(&mut self, ret: CallReturn) -> (report: Option<Progress>)
        requires
            old(self).wf(),
        ensures
            final(self).wf(),
            final(self).library_path == old(self).library_path,
            final(self).request == old(self).request,
            final(self).phase == old(self).phase.next(ret),
            report == old(self).phase.progress(ret),
    {
        let (phase, report) = self.phase.step(ret);
        self.phase = phase;
        report
    }

    /// How the launch ended, or `None` while a call is still due.
    pub fn outcome(&self) -> (outcome: Option<Result<(), LaunchError>>)
        ensures
            outcome == match self.phase {
                Phase::Launched => Some(Ok::<(), LaunchError>(())),
                Phase::Failed(e) => Some(Err::<(), LaunchError>(e)),
                _ => None,
            },
            outcome is Some <==> self.phase.is_terminal(),
    {
        match self.phase {
            Phase::Launched => Some(Ok(())),
            Phase::Failed(e) => Some(Err(e)),
            _ => None,
        }
    }
}

/// A launch that has ended stays as it ended, whatever is handed to it.
pub proof fn lemma_terminal_stays(phase: Phase, results: Seq<CallReturn>)
    requires
        phase.is_terminal(),
    ensures
        phase.after(results) == phase,
    decreases results.len(),
{
    if results.len() > 0 {
        lemma_terminal_stays(phase, results.drop_first());
    }
}

/// Every step keeps handles and addresses non-null.
pub proof fn lemma_after_keeps_wf(phase: Phase, results: Seq<CallReturn>)
    requires
        phase.wf(),
    ensures
        phase.after(results).wf(),
    decreases results.len(),
{
    if results.len() > 0 {
        lemma_after_keeps_wf(phase.next(results[0]), results.drop_first());
    }
}

/// Where the library does not load, the launch fails with
/// `LibraryLoadFailed` and the code that came with the null handle, and
/// from then on no call is due: nothing is resolved and nothing invoked.
pub proof fn lemma_load_failure_ends_launch(launcher: Launcher, results: Seq<CallReturn>)
    requires
        launcher.phase == Phase::Loading,
        results.len() >= 1,
        results[0].value == 0,
    ensures
        launcher.after(results).phase == Phase::Failed(
            LaunchError::LibraryLoadFailed(results[0].last_error),
        ),
        launcher.after(results).pending() == ActionView::Stop,
{
    lemma_terminal_stays(launcher.phase.next(results[0]), results.drop_first());
}

/// Where the library loads and exports nothing at the ordinal, the
/// launch fails with `SymbolNotFound` and the code that came with the
/// null address, and from then on no call is due: nothing is invoked.
pub proof fn lemma_missing_export_ends_launch(launcher: Launcher, results: Seq<CallReturn>)
    requires
        launcher.phase == Phase::Loading,
        results.len() >= 2,
        results[0].value != 0,
        results[1].value == 0,
    ensures
        launcher.after(results).phase == Phase::Failed(
            LaunchError::SymbolNotFound(results[1].last_error),
        ),
        launcher.after(results).pending() == ActionView::Stop,
{
    let loaded = launcher.phase.next(results[0]);
    let rest = results.drop_first();
    assert(rest[0] == results[1]);
    assert(launcher.phase.after(results) == loaded.after(rest));
    assert(loaded.after(rest) == loaded.next(rest[0]).after(rest.drop_first()));
    lemma_terminal_stays(loaded.next(rest[0]), rest.drop_first());
}

/// Where the entry point is reached, the launch ends by what it returned:
/// launched where it returned non-zero, else failed with `LaunchFailed`
/// and the very code that came with the zero. No call is due after it.
pub proof fn lemma_invocation_ends_launch(launcher: Launcher, results: Seq<CallReturn>)
    requires
        launcher.phase == Phase::Loading,
        results.len() >= 3,
        results[0].value != 0,
        results[1].value != 0,
    ensures
        launcher.after(results).phase == if results[2].value == 0 {
            Phase::Failed(LaunchError::LaunchFailed(results[2].last_error))
        } else {
            Phase::Launched
        },
        launcher.after(results).pending() == ActionView::Stop,
{
    let loaded = launcher.phase.next(results[0]);
    let rest = results.drop_first();
    assert(rest[0] == results[1]);
    assert(launcher.phase.after(results) == loaded.after(rest));
    let resolved = loaded.next(rest[0]);
    let tail = rest.drop_first();
    assert(tail[0] == results[2]);
    assert(loaded.after(rest) == resolved.after(tail));
    assert(resolved.after(tail) == resolved.next(tail[0]).after(tail.drop_first()));
    lemma_terminal_stays(resolved.next(tail[0]), tail.drop_first());
}

/// The calls come in one order: the entry point is due only once the
/// library and the symbol are there, exactly two results after the start,
/// and with the arguments that the request asks for.
pub proof fn lemma_invoke_follows_two_successes(launcher: Launcher, results: Seq<CallReturn>)
    requires
        launcher.phase == Phase::Loading,
    ensures
        launcher.after(results).pending() is Invoke <==> results.len() == 2 && results[0].value
            != 0 && results[1].value != 0,
        launcher.after(results).pending() is Invoke ==> launcher.after(results).pending()
            == (ActionView::Invoke {
            entry: EntryPointAddress {
                library: LibraryHandle { address: results[0].value },
                address: results[1].value,
            },
            call: call_for(launcher.request),
        }),
{
    if results.len() >= 1 {
        if results[0].value == 0 {
            lemma_load_failure_ends_launch(launcher, results);
        } else if results.len() >= 2 {
            if results[1].value == 0 {
                lemma_missing_export_ends_launch(launcher, results);
            } else if results.len() >= 3 {
                lemma_invocation_ends_launch(launcher, results);
            } else {
                let loaded = launcher.phase.next(results[0]);
                let rest = results.drop_first();
                assert(rest[0] == results[1]);
                assert(launcher.phase.after(results) == loaded.after(rest));
                assert(loaded.after(rest) == loaded.next(rest[0]).after(rest.drop_first()));
                assert(loaded.next(rest[0]).after(rest.drop_first()) == loaded.next(rest[0]));
            }
        } else {
            assert(launcher.phase.after(results) == launcher.phase.next(results[0]).after(
                results.drop_first(),
            ));
            assert(launcher.phase.next(results[0]).after(results.drop_first())
                == launcher.phase.next(results[0]));
        }
    }
}

/// A launch makes at most three calls: once three results are in, it has
/// ended, and no call is due any more.
pub proof fn lemma_launch_ends_within_three_calls(launcher: Launcher, results: Seq<CallReturn>)
    requires
        launcher.phase == Phase::Loading,
        results.len() >= 3,
    ensures
        launcher.after(results).phase.is_terminal(),
        launcher.after(results).pending() == ActionView::Stop,
{
    if results[0].value == 0 {
        lemma_load_failure_ends_launch(launcher, results);
    } else if results[1].value == 0 {
        lemma_missing_export_ends_launch(launcher, results);
    } else {
        lemma_invocation_ends_launch(launcher, results);
    }
}

} // verus!
