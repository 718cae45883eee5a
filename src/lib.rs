//! Verified core of a bridge between a UI engine running on a worker thread
//! and native windows that may only be touched from the main thread.
//!
//! The engine thread pushes serialised mutation batches into a
//! [`MutationQueue`]; the window thread drains it once the readiness
//! flag is set and turns each batch into a script for the first live window
//! of its [`DesktopController`].
mod queue;
mod script;
mod controller;
mod engine_loop;

pub use queue::{
    drained, lemma_drain_empty_is_noop, lemma_drain_is_fifo, lemma_drain_waits_for_ready,
    lemma_final_drain_hands_out_everything, lemma_pushed_in_order_appends,
    lemma_run_hands_out_in_push_order, left_after_drain, pushed_batches, pushed_in_order,
    queue_run, queue_step, MutationQueue, QueueOp,
};
pub use script::{edit_script, edit_script_text, edit_scripts};
pub use controller::{
    after_close, close_exits, has_window, ids_unique, lemma_closing_last_window_quits,
    lemma_closing_one_of_two_keeps_running, DesktopController, LoadOutcome,
};
pub use engine_loop::{
    command_for, command_spec, lemma_dropped_event_is_idle, lemma_render_is_deadline_bounded,
    loop_step_spec, EngineCommand,
    EngineLoop, LoopAction, LoopInput, LoopPhase, Wakeup, FRAME_DEADLINE_MS,
};
