//! Decisions of the display's main loop, kept apart from the backend that
//! carries them out: the loop asks `step()` what to do, does it, and hands the
//! outcome to `advance`.
use vstd::prelude::*;

verus! {

/// The kind of view that the selector asked for in one iteration.
#[derive(Clone, Copy, Debug, PartialEq, Eq, Structural)]
pub enum ViewKind {
    Clock,
    Alert,
}

/// The coarse phase of the loop. A successful initialization enters the loop
/// at once, so the phase between the two, "initialized", is part of `Running`:
/// its first step is `HandleEvents`.
#[derive(Clone, Copy, Debug, PartialEq, Eq, Structural)]
pub enum LoopState {
    Created,
    Running,
    ShuttingDown,
    Terminated,
}

/// The next thing the loop has to do.
#[derive(Clone, Copy, Debug, PartialEq, Eq, Structural)]
pub enum Step {
    /// Initialize the backend.
    Initialize,
    /// Drain the backend's pending input events.
    HandleEvents,
    /// Ask the backend whether a shutdown was requested.
    CheckShutdown,
    /// Ask the selector which view to show.
    SelectView,
    RenderClock,
    RenderAlert,
    /// Wait for the next frame.
    Pace,
    /// Release the backend's resources.
    Cleanup,
    /// Leave the loop.
    Exit,
}

/// The outcome of the last step, as the loop observed it.
#[derive(Clone, Copy, Debug, PartialEq, Eq, Structural)]
pub enum Report {
    Succeeded,
    Failed,
    ShutdownRequested(bool),
    ViewSelected(Option<ViewKind>),
}

/// The main loop's controller. Any failure, and any outcome that does not
/// answer the pending step, ends the loop at once (fail fast); the backend is
/// then not cleaned up.
#[derive(Clone, Copy, Debug, PartialEq, Eq, Structural)]
pub struct MainLoop {
    pub step: Step,
    pub failed: bool,
}

pub open spec fn start() -> MainLoop {
    MainLoop { step: Step::Initialize, failed: false }
}

pub open spec fn aborted() -> MainLoop {
    MainLoop { step: Step::Exit, failed: true }
}

pub open spec fn state_of(m: MainLoop) -> LoopState {
    match m.step {
        Step::Initialize => LoopState::Created,
        Step::Cleanup => LoopState::ShuttingDown,
        Step::Exit => LoopState::Terminated,
        _ => LoopState::Running,
    }
}

/// The controller after `r` answered its pending step.
pub open spec fn advance_spec(m: MainLoop, r: Report) -> MainLoop {
    let go = |s: Step| MainLoop { step: s, failed: false };
    match m.step {
        Step::Initialize => if r == Report::Succeeded { go(Step::HandleEvents) } else { aborted() },
        Step::HandleEvents => if r == Report::Succeeded { go(Step::CheckShutdown) } else { aborted() },
        Step::CheckShutdown => match r {
            Report::ShutdownRequested(true) => go(Step::Cleanup),
            Report::ShutdownRequested(false) => go(Step::SelectView),
            _ => aborted(),
        },
        Step::SelectView => match r {
            Report::ViewSelected(Some(ViewKind::Clock)) => go(Step::RenderClock),
            Report::ViewSelected(Some(ViewKind::Alert)) => go(Step::RenderAlert),
            Report::ViewSelected(None) => go(Step::Pace),
            _ => aborted(),
        },
        Step::RenderClock | Step::RenderAlert => if r == Report::Succeeded { go(Step::Pace) } else { aborted() },
        Step::Pace => if r == Report::Succeeded { go(Step::HandleEvents) } else { aborted() },
        Step::Cleanup => if r == Report::Succeeded { go(Step::Exit) } else { aborted() },
        Step::Exit => m,
    }
}

/// The controller after the first `i` outcomes of `rs`, from a fresh loop.
pub open spec fn state_at(rs: Seq<Report>, i: nat) -> MainLoop
    decreases i,
{
    if i == 0 {
        start()
    } else {
        advance_spec(state_at(rs, (i - 1) as nat), rs[i - 1])
    }
}

impl MainLoop {
    /// A loop that has not initialized its backend yet.
    pub fn new() -> (r: MainLoop)
        ensures
            r == start(),
    {
        MainLoop { step: Step::Initialize, failed: false }
    }

    /// What the loop has to do next.
    pub fn step(&self) -> (r: Step)
        ensures
            r == self.step,
    {
        self.step
    }

    /// The coarse phase of the loop.
    pub fn state(&self) -> (r: LoopState)
        ensures
            r == state_of(*self),
    {
        match self.step {
            Step::Initialize => LoopState::Created,
            Step::Cleanup => LoopState::ShuttingDown,
            Step::Exit => LoopState::Terminated,
            _ => LoopState::Running,
        }
    }

    /// Whether the loop is over.
    pub fn is_finished(&self) -> (r: bool)
        ensures
            r == (self.step == Step::Exit),
    {
        self.step == Step::Exit
    }

    /// Whether the loop ended on a failure.
    pub fn has_failed(&self) -> (r: bool)
        ensures
            r == self.failed,
    {
        self.failed
    }

    /// Takes the outcome of the pending step and decides the next one.
    pub fn advance(&mut self, r: Report)
        ensures
            *final(self) == advance_spec(*old(self), r),
    {
        let next = match self.step {
            Step::Initialize => if r == Report::Succeeded { Some(Step::HandleEvents) } else { None },
            Step::HandleEvents => if r == Report::Succeeded { Some(Step::CheckShutdown) } else { None },
            Step::CheckShutdown => match r {
                Report::ShutdownRequested(true) => Some(Step::Cleanup),
                Report::ShutdownRequested(false) => Some(Step::SelectView),
                _ => None,
            },
            Step::SelectView => match r {
                Report::ViewSelected(Some(ViewKind::Clock)) => Some(Step::RenderClock),
                Report::ViewSelected(Some(ViewKind::Alert)) => Some(Step::RenderAlert),
                Report::ViewSelected(None) => Some(Step::Pace),
                _ => None,
            },
            Step::RenderClock | Step::RenderAlert => if r == Report::Succeeded { Some(Step::Pace) } else { None },
            Step::Pace => if r == Report::Succeeded { Some(Step::HandleEvents) } else { None },
            Step::Cleanup => if r == Report::Succeeded { Some(Step::Exit) } else { None },
            Step::Exit => return,
        };
        match next {
            Some(s) => {
                self.step = s;
                self.failed = false;
            },
            None => {
                self.step = Step::Exit;
                self.failed = true;
            },
        }
    }
}

/// Once the loop has exited it stays exited.
proof fn lemma_exit_is_final(rs: Seq<Report>, i: nat, k: nat)
    requires
        i <= k,
        state_at(rs, i).step == Step::Exit,
    ensures
        state_at(rs, k).step == Step::Exit,
    decreases k - i,
{
    if i < k {
        lemma_exit_is_final(rs, i, (k - 1) as nat);
    }
}

/// After the first outcome the loop never initializes again, and it is either
/// exited or its backend was initialized successfully.
proof fn lemma_initialized_first(rs: Seq<Report>, i: nat)
    requires
        i >= 1,
    ensures
        state_at(rs, i).step != Step::Initialize,
        state_at(rs, i).step == Step::Exit || rs[0] == Report::Succeeded,
    decreases i,
{
    assert(state_at(rs, 0) == start());
    if i > 1 {
        lemma_initialized_first(rs, (i - 1) as nat);
    }
}

/// The loop cleans up only after its backend was initialized successfully,
/// right after a shutdown was reported as requested, and at most once. A
/// shutdown reported as requested leads straight to clean-up, with no render in
/// between, and after it the loop only exits.
pub proof fn lemma_cleanup_discipline(rs: Seq<Report>, i: nat, k: nat)
    requires
        i <= rs.len(),
        k <= rs.len(),
    ensures
        state_at(rs, i).step == Step::Cleanup ==> {
            &&& i >= 1
            &&& rs[0] == Report::Succeeded
            &&& state_at(rs, (i - 1) as nat).step == Step::CheckShutdown
            &&& rs[i - 1] == Report::ShutdownRequested(true)
        },
        state_at(rs, i).step == Step::Cleanup && state_at(rs, k).step == Step::Cleanup ==> i == k,
        i < rs.len() && state_at(rs, i).step == Step::CheckShutdown && rs[i as int]
            == Report::ShutdownRequested(true) ==> state_at(rs, i + 1).step == Step::Cleanup,
        forall|j: nat|
            j + 1 < i && #[trigger] state_at(rs, j).step == Step::CheckShutdown && rs[j as int]
                == Report::ShutdownRequested(true) ==> state_at(rs, i).step == Step::Exit,
{
    if state_at(rs, i).step == Step::Cleanup {
        assert(i >= 1);
        lemma_initialized_first(rs, i);
    }
    if state_at(rs, i).step == Step::Cleanup && state_at(rs, k).step == Step::Cleanup && i != k {
        let (a, b) = if i < k { (i, k) } else { (k, i) };
        assert(state_at(rs, a + 1).step == Step::Exit);
        lemma_exit_is_final(rs, a + 1, b);
    }
    assert forall|j: nat|
        j + 1 < i && #[trigger] state_at(rs, j).step == Step::CheckShutdown && rs[j as int]
            == Report::ShutdownRequested(true) implies state_at(rs, i).step == Step::Exit by {
        assert(state_at(rs, j + 1).step == Step::Cleanup);
        assert(state_at(rs, j + 2).step == Step::Exit);
        lemma_exit_is_final(rs, j + 2, i);
    }
}

} // verus!
