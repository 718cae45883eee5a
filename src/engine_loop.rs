use vstd::prelude::*;

verus! {

/// How long one diff-production step may run, in milliseconds: one frame at
/// about 60 Hz. Whatever the engine has ready by then forms the next batch.
pub const FRAME_DEADLINE_MS: u64 = 16;

/// The source that woke the engine loop.
pub enum Wakeup<T, E> {
    /// A replacement template arrived.
    Template(T),
    /// The engine signalled that it has work.
    WorkReady,
    /// An inbound event record arrived.
    Event(E),
}

/// What the engine is told to do before the next batch is produced.
pub enum EngineCommand<T, E> {
    /// Replace a template.
    ReplaceTemplate(T),
    /// Dispatch a decoded event.
    Dispatch(E),
    /// Nothing beyond producing the next batch.
    Idle,
}

/// The command for a wakeup whose event record, if any, has been decoded
/// (`None` where decoding failed). Templates are heeded only when hot reload
/// is on; otherwise that source takes no part.
pub open spec fn command_spec<T, E>(hot_reload: bool, w: Wakeup<T, Option<E>>) -> EngineCommand<
    T,
    E,
> {
    match w {
        Wakeup::Template(t) => if hot_reload {
            EngineCommand::ReplaceTemplate(t)
        } else {
            EngineCommand::Idle
        },
        Wakeup::WorkReady => EngineCommand::Idle,
        Wakeup::Event(Some(e)) => EngineCommand::Dispatch(e),
        Wakeup::Event(None) => EngineCommand::Idle,
    }
}

/// Decides what the engine does for a wakeup whose event record has already
/// been decoded. A record that failed to decode is dropped.
pub fn command_for<T, E>(hot_reload: bool, w: Wakeup<T, Option<E>>) -> (r: EngineCommand<T, E>)
    ensures
        r == command_spec(hot_reload, w),
{
    match w {
        Wakeup::Template(t) => if hot_reload {
            EngineCommand::ReplaceTemplate(t)
        } else {
            EngineCommand::Idle
        },
        Wakeup::WorkReady => EngineCommand::Idle,
        Wakeup::Event(Some(e)) => EngineCommand::Dispatch(e),
        Wakeup::Event(None) => EngineCommand::Idle,
    }
}

/// A malformed event record leaves the engine exactly as a bare work signal
/// does: nothing is dispatched, so the next batch is the one that would have
/// come without the record.
pub proof fn lemma_dropped_event_is_idle<T, E>(hot_reload: bool)
    ensures
        command_spec::<T, E>(hot_reload, Wakeup::Event(None)) == command_spec::<T, E>(
            hot_reload,
            Wakeup::WorkReady,
        ),
        command_spec::<T, E>(hot_reload, Wakeup::Event(None)) is Idle,
{
}

/// Where the engine loop stands.
#[derive(Clone, Copy, Debug, PartialEq, Eq, Structural)]
pub enum LoopPhase {
    /// The first full build has not been queued yet.
    Starting,
    /// Racing the inbound sources.
    Waiting,
    /// Producing the next batch: the first full build, or a step under the
    /// frame deadline.
    Rendering,
}

/// What the engine loop is told has happened.
pub enum LoopInput<T, E> {
    /// The worker thread is up and the engine exists.
    Start,
    /// One of the raced sources fired.
    Woke(Wakeup<T, Option<E>>),
    /// The batch from the last build or step has been queued and the window
    /// side told about it.
    Rendered,
}

/// What the engine loop does next.
pub enum LoopAction<T, E> {
    /// Build the whole tree, queue that batch and tell the window side.
    BuildAndQueue,
    /// Race the sources; the template source takes part only when
    /// `templates` holds.
    Wait { templates: bool },
    /// Carry out `command`, then produce the next batch within
    /// `deadline_ms`, queue it and tell the window side.
    Render { command: EngineCommand<T, E>, deadline_ms: u64 },
    /// The input does not belong to this phase: nothing to do.
    Ignore,
}

/// The phase and the action that follow `input` in `phase`.
pub open spec fn loop_step_spec<T, E>(phase: LoopPhase, hot_reload: bool, input: LoopInput<T, E>) -> (
    LoopPhase,
    LoopAction<T, E>,
) {
    match (phase, input) {
        (LoopPhase::Starting, LoopInput::Start) => (LoopPhase::Rendering, LoopAction::BuildAndQueue),
        (LoopPhase::Waiting, LoopInput::Woke(w)) => (
            LoopPhase::Rendering,
            LoopAction::Render {
                command: command_spec(hot_reload, w),
                deadline_ms: FRAME_DEADLINE_MS,
            },
        ),
        (LoopPhase::Rendering, LoopInput::Rendered) => (
            LoopPhase::Waiting,
            LoopAction::Wait { templates: hot_reload },
        ),
        _ => (phase, LoopAction::Ignore),
    }
}

/// Every batch the loop asks for is bounded by the frame deadline, and only
/// a wakeup leads to one.
pub proof fn lemma_render_is_deadline_bounded<T, E>(
    phase: LoopPhase,
    hot_reload: bool,
    input: LoopInput<T, E>,
)
    ensures
        loop_step_spec(phase, hot_reload, input).1 matches LoopAction::Render { deadline_ms, .. }
            ==> deadline_ms == FRAME_DEADLINE_MS && phase == LoopPhase::Waiting && input is Woke,
{
}

/// The decisions of the engine loop: the first build comes before anything
/// else, every wakeup is followed by exactly one deadline-bounded batch, and
/// the template source is raced only with hot reload on.
pub struct EngineLoop {
    phase: LoopPhase,
    hot_reload: bool,
}

impl EngineLoop {
    /// The current phase.
    pub closed spec fn phase_spec(&self) -> LoopPhase {
        self.phase
    }

    /// Whether template replacements are heeded.
    pub closed spec fn hot_reload_spec(&self) -> bool {
        self.hot_reload
    }

    /// A loop that has not built anything yet.
    pub fn new(hot_reload: bool) -> (r: Self)
        ensures
            r.phase_spec() == LoopPhase::Starting,
            r.hot_reload_spec() == hot_reload,
    {
        EngineLoop { phase: LoopPhase::Starting, hot_reload }
    }

    /// The current phase.
    pub fn phase(&self) -> (r: LoopPhase)
        ensures
            r == self.phase_spec(),
    {
        self.phase
    }

    /// Moves the loop on by one input and says what to do.
    pub fn step<T, E>(&mut self, input: LoopInput<T, E>) -> (r: LoopAction<T, E>)
        ensures
            final(self).hot_reload_spec() == old(self).hot_reload_spec(),
            (final(self).phase_spec(), r) == loop_step_spec(
                old(self).phase_spec(),
                old(self).hot_reload_spec(),
                input,
            ),
    {
        match (self.phase, input) {
            (LoopPhase::Starting, LoopInput::Start) => {
                self.phase = LoopPhase::Rendering;
                LoopAction::BuildAndQueue
            },
            (LoopPhase::Waiting, LoopInput::Woke(w)) => {
                self.phase = LoopPhase::Rendering;
                LoopAction::Render {
                    command: command_for(self.hot_reload, w),
                    deadline_ms: FRAME_DEADLINE_MS,
                }
            },
            (LoopPhase::Rendering, LoopInput::Rendered) => {
                self.phase = LoopPhase::Waiting;
                LoopAction::Wait { templates: self.hot_reload }
            },
            _ => LoopAction::Ignore,
        }
    }
}

} // verus!
