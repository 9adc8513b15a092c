use std::cell::RefCell;
use std::rc::Rc;

use task_progress::{
    select_hook, ExecutionStatus, ExecutionUnit, HookDecision, ProgressManager, RenderStep,
    RenderStyle, TaskGroup,
};

type Logic = Box<dyn FnOnce(&mut ExecutionStatus)>;

/// Drives one scheduled unit the way a host does, single-threaded: runs
/// the work, renders until a terminal status is observed, dispatches the
/// hook, and returns the fail-fast sentinel. Printed lines are collected
/// instead of written to a terminal.
fn drive(unit: &mut ExecutionUnit<Logic>, printed: &mut Vec<String>) -> bool {
    let (work, success_hook, failure_hook) = unit
        .try_begin_execute()
        .expect("execution needs attached work");
    let mut cell = ExecutionStatus::InProgress;
    work(&mut cell);
    let observed = cell;
    let mut frame = 0usize;
    loop {
        match unit.display_step(cell, frame) {
            RenderStep::Continue { line: _, next_frame } => {
                frame = next_frame;
            }
            RenderStep::FinishSuccess { line } => {
                printed.push(line);
                break;
            }
            RenderStep::FinishFailure { line } => {
                printed.push(line);
                break;
            }
        }
    }
    match select_hook(observed, success_hook, failure_hook) {
        HookDecision::RunSuccess(h) => h(&mut cell),
        HookDecision::RunFailure(h) => h(&mut cell),
        HookDecision::NoRecovery => {}
        HookDecision::Nothing => {}
    }
    unit.finish_execute(cell)
}

#[test]
fn unit_starts_in_progress_without_logic() {
    let u: ExecutionUnit<Logic> = ExecutionUnit::new(String::from("setup"));
    assert_eq!(u.status, ExecutionStatus::InProgress);
    assert_eq!(u.description, "setup");
    assert_eq!(u.total_groups, 0);
    assert_eq!(u.current_group_idx, 0);
    assert!(!u.has_work());
}

#[test]
fn builders_attach_work_and_hooks() {
    let mut u: ExecutionUnit<Logic> = ExecutionUnit::new(String::from("t"))
        .on_execute(Box::new(|s: &mut ExecutionStatus| *s = ExecutionStatus::Completed) as Logic)
        .on_success(Box::new(|_: &mut ExecutionStatus| {}) as Logic)
        .on_failure(Box::new(|_: &mut ExecutionStatus| {}) as Logic);
    assert!(u.has_work());
    let (_work, success_hook, failure_hook) = u.try_begin_execute().unwrap();
    assert!(success_hook.is_some());
    assert!(failure_hook.is_some());
}

#[test]
fn a_second_attachment_overwrites_the_first() {
    let mut u: ExecutionUnit<Logic> = ExecutionUnit::new(String::from("t"))
        .on_execute(Box::new(|s: &mut ExecutionStatus| *s = ExecutionStatus::Completed) as Logic)
        .on_execute(Box::new(|s: &mut ExecutionStatus| *s = ExecutionStatus::Failed) as Logic);
    let (work, _, _) = u.try_begin_execute().unwrap();
    let mut cell = ExecutionStatus::InProgress;
    work(&mut cell);
    assert_eq!(cell, ExecutionStatus::Failed);
}

#[test]
fn execute_consumes_the_logic_exactly_once() {
    let mut u: ExecutionUnit<Logic> = ExecutionUnit::new(String::from("t"))
        .on_execute(Box::new(|s: &mut ExecutionStatus| *s = ExecutionStatus::Completed) as Logic)
        .on_failure(Box::new(|_: &mut ExecutionStatus| {}) as Logic);
    assert!(u.try_begin_execute().is_some());
    assert!(!u.has_work());
    assert!(u.try_begin_execute().is_none());
    assert!(u.try_begin_execute().is_none());
}

#[test]
fn display_step_spins_while_in_progress() {
    let mut u: ExecutionUnit<Logic> = ExecutionUnit::new(String::from("fetch"));
    u.set_group_index(2);
    u.set_total_groups(5);
    match u.display_step(ExecutionStatus::InProgress, 0) {
        RenderStep::Continue { line, next_frame } => {
            assert_eq!(line, "\r\x1b[2K[2/5] fetch \u{2014}");
            assert_eq!(next_frame, 1);
        }
        _ => panic!("an in-progress observation must keep the loop going"),
    }
    match u.display_step(ExecutionStatus::InProgress, 3) {
        RenderStep::Continue { line, next_frame } => {
            assert_eq!(line, "\r\x1b[2K[2/5] fetch /");
            assert_eq!(next_frame, 0);
        }
        _ => panic!("an in-progress observation must keep the loop going"),
    }
}

#[test]
fn display_step_ends_on_terminal_status() {
    let mut u: ExecutionUnit<Logic> = ExecutionUnit::new(String::from("job"));
    u.set_group_index(1);
    u.set_total_groups(1);
    let done = u.display_step(ExecutionStatus::Completed, 7);
    assert!(done.is_finished());
    assert_eq!(done.style(), RenderStyle::Success);
    match done {
        RenderStep::FinishSuccess { line } => assert_eq!(line, "[1/1] job \u{2714}"),
        _ => panic!("a completed observation must finish with the success line"),
    }
    let failed = u.display_step(ExecutionStatus::Failed, 7);
    assert!(failed.is_finished());
    assert_eq!(failed.style(), RenderStyle::Failure);
    match failed {
        RenderStep::FinishFailure { line } => assert_eq!(line, "[1/1] job \u{2718}"),
        _ => panic!("a failed observation must finish with the failure line"),
    }
    let spinning = u.display_step(ExecutionStatus::InProgress, 0);
    assert!(!spinning.is_finished());
    assert_eq!(spinning.style(), RenderStyle::Muted);
}

#[test]
fn hook_dispatch_follows_the_final_status() {
    let run: Logic = Box::new(|_: &mut ExecutionStatus| {});
    assert!(matches!(
        select_hook(ExecutionStatus::Completed, Some(run), None),
        HookDecision::RunSuccess(_)
    ));
    let recover: Logic = Box::new(|_: &mut ExecutionStatus| {});
    assert!(matches!(
        select_hook(ExecutionStatus::Failed, None, Some(recover)),
        HookDecision::RunFailure(_)
    ));
    assert!(matches!(
        select_hook::<Logic>(ExecutionStatus::Failed, None, None),
        HookDecision::NoRecovery
    ));
    assert!(matches!(
        select_hook::<Logic>(ExecutionStatus::Completed, None, None),
        HookDecision::Nothing
    ));
    let ignored: Logic = Box::new(|_: &mut ExecutionStatus| {});
    assert!(matches!(
        select_hook(ExecutionStatus::InProgress, None, Some(ignored)),
        HookDecision::Nothing
    ));
}

#[test]
fn finish_execute_raises_the_sentinel_only_on_failure() {
    let mut u: ExecutionUnit<Logic> = ExecutionUnit::new(String::from("t"));
    assert!(!u.finish_execute(ExecutionStatus::Completed));
    assert_eq!(u.status, ExecutionStatus::Completed);
    assert!(u.finish_execute(ExecutionStatus::Failed));
    assert_eq!(u.status, ExecutionStatus::Failed);
}

#[test]
fn group_stamps_and_keeps_insertion_order() {
    let mut g: TaskGroup<Logic> = TaskGroup::new();
    for name in ["a", "b", "c"] {
        g.add_unit(ExecutionUnit::new(String::from(name)));
    }
    let scheduled = g.run(3, 2);
    assert_eq!(g.units.len(), 0);
    assert_eq!(scheduled.len(), 3);
    let names: Vec<&str> = scheduled.iter().map(|u| u.description.as_str()).collect();
    assert_eq!(names, ["a", "b", "c"]);
    for u in &scheduled {
        assert_eq!(u.current_group_idx, 2);
        assert_eq!(u.total_groups, 3);
    }
}

#[test]
fn manager_labels_every_group_one_based() {
    let mut first: TaskGroup<Logic> = TaskGroup::new();
    first.add_unit(ExecutionUnit::new(String::from("a1")));
    first.add_unit(ExecutionUnit::new(String::from("a2")));
    let mut second: TaskGroup<Logic> = TaskGroup::new();
    second.add_unit(ExecutionUnit::new(String::from("b1")));

    let mut m: ProgressManager<Logic> = ProgressManager::new();
    m.add_group(first);
    m.add_group(second);
    let schedule = m.start();
    assert_eq!(m.groups.len(), 0);

    let seen: Vec<(String, i32, i32)> = schedule
        .iter()
        .map(|u| (u.description.clone(), u.current_group_idx, u.total_groups))
        .collect();
    assert_eq!(
        seen,
        [
            (String::from("a1"), 1, 2),
            (String::from("a2"), 1, 2),
            (String::from("b1"), 2, 2),
        ]
    );
}

#[test]
fn scenario_success_then_unhandled_failure() {
    let mut g: TaskGroup<Logic> = TaskGroup::new();
    g.add_unit(
        ExecutionUnit::new(String::from("A"))
            .on_execute(Box::new(|s: &mut ExecutionStatus| *s = ExecutionStatus::Completed) as Logic),
    );
    g.add_unit(
        ExecutionUnit::new(String::from("B"))
            .on_execute(Box::new(|s: &mut ExecutionStatus| *s = ExecutionStatus::Failed) as Logic),
    );
    g.add_unit(
        ExecutionUnit::new(String::from("C"))
            .on_execute(Box::new(|s: &mut ExecutionStatus| *s = ExecutionStatus::Completed) as Logic),
    );
    let mut m: ProgressManager<Logic> = ProgressManager::new();
    m.add_group(g);

    let mut printed: Vec<String> = Vec::new();
    let mut terminated = false;
    let mut schedule = m.start();
    for unit in schedule.iter_mut() {
        if drive(unit, &mut printed) {
            terminated = true;
            break;
        }
    }

    assert!(terminated, "an unhandled failure must propagate");
    assert_eq!(printed, ["[1/1] A \u{2714}", "[1/1] B \u{2718}"]);
    // The unit after the failing one never ran: its work is untouched.
    assert!(schedule[2].has_work());
}

#[test]
fn scenario_failure_hook_moves_status_away() {
    let hook_runs = Rc::new(RefCell::new(0));
    let counted = Rc::clone(&hook_runs);
    let mut g: TaskGroup<Logic> = TaskGroup::new();
    g.add_unit(
        ExecutionUnit::new(String::from("t"))
            .on_execute(Box::new(|s: &mut ExecutionStatus| *s = ExecutionStatus::Failed) as Logic)
            .on_failure(Box::new(move |s: &mut ExecutionStatus| {
                *counted.borrow_mut() += 1;
                *s = ExecutionStatus::Completed;
            }) as Logic),
    );
    let mut m: ProgressManager<Logic> = ProgressManager::new();
    m.add_group(g);

    let mut printed: Vec<String> = Vec::new();
    let mut schedule = m.start();
    let terminated = drive(&mut schedule[0], &mut printed);

    // The loop saw `Failed`, so the failure glyph was printed exactly once;
    // the hook then ran exactly once and moved the status, so no
    // termination follows.
    assert_eq!(printed, ["[1/1] t \u{2718}"]);
    assert_eq!(*hook_runs.borrow(), 1);
    assert!(!terminated);
    assert_eq!(schedule[0].status, ExecutionStatus::Completed);
}

#[test]
fn success_hook_runs_only_after_completion() {
    let hook_runs = Rc::new(RefCell::new(0));
    let counted = Rc::clone(&hook_runs);
    let mut u: ExecutionUnit<Logic> = ExecutionUnit::new(String::from("t"))
        .on_execute(Box::new(|s: &mut ExecutionStatus| *s = ExecutionStatus::Completed) as Logic)
        .on_success(Box::new(move |_: &mut ExecutionStatus| {
            *counted.borrow_mut() += 1;
        }) as Logic);
    u.set_group_index(1);
    u.set_total_groups(1);
    let mut printed: Vec<String> = Vec::new();
    let terminated = drive(&mut u, &mut printed);
    assert!(!terminated);
    assert_eq!(*hook_runs.borrow(), 1);
    assert_eq!(printed, ["[1/1] t \u{2714}"]);
}

#[test]
fn status_terminality() {
    assert!(!ExecutionStatus::InProgress.is_terminal());
    assert!(ExecutionStatus::Completed.is_terminal());
    assert!(ExecutionStatus::Failed.is_terminal());
}

#[test]
fn empty_manager_and_group_schedule_nothing() {
    let mut m: ProgressManager<Logic> = ProgressManager::new();
    assert_eq!(m.start().len(), 0);

    let mut g: TaskGroup<Logic> = TaskGroup::new();
    assert_eq!(g.run(1, 1).len(), 0);

    let mut with_empty: ProgressManager<Logic> = ProgressManager::new();
    with_empty.add_group(TaskGroup::new());
    with_empty.add_group(TaskGroup::new());
    assert_eq!(with_empty.start().len(), 0);
}
