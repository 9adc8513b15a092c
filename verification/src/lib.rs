//! A terminal task-progress engine: execution units carry caller-supplied
//! work and optional hooks, task groups order units, and a progress manager
//! orders groups. The library holds the decision logic — which hook to hand
//! out, what each rendered line says, when the display loop stops, when the
//! process must stop — while a host performs the actual drawing, sleeping
//! and threading around it.

mod group;
mod laws;
mod manager;
mod status;
mod style;
mod text;
mod unit;

pub use group::{labeled_as, TaskGroup};
pub use laws::{
    lemma_completed_runs_no_failure_hook, lemma_failure_hook_runs_exactly_on_failure,
    lemma_unhandled_failure_propagates,
};
pub use manager::{schedule_offset, unit_count, ProgressManager};
pub use status::ExecutionStatus;
pub use style::{contains_reset, paint, reset_marker, RenderStyle};
pub use text::{
    clear_prefix, clear_text, dec_digits, dec_int, digit_char, failure_glyph, failure_line,
    finished_line, format_label, label_text, progress_line, spinner_frame, spinner_frame_text,
    spinner_line, success_glyph, success_line,
};
pub use unit::{
    select_hook, spec_failure_propagates, spec_select_hook, ExecutionUnit, HookDecision,
    RenderStep,
};
