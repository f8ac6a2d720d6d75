//! Pipeline scheduling: hooks in registration order, panic isolation, and
//! early termination.

use tcplane::attrs::AttrValue;
use tcplane::context::Context;
use tcplane::pipeline::HandlerPipeline;
use tcplane::pipeline::HookOutcome;
use tcplane::pipeline::PipelineAction;
use tcplane::pipeline::simulate_run;
use tcplane::server::Server;

#[test]
fn hooks_run_in_registration_order() {
    let outcomes = vec![HookOutcome::Completed; 3];
    let actions = simulate_run(3, 2, &outcomes);
    assert_eq!(
        actions,
        vec![
            PipelineAction::RunHook(0),
            PipelineAction::RunHook(1),
            PipelineAction::RunHook(2),
            PipelineAction::Finished,
        ]
    );
}

#[test]
fn hook_order_observable_through_attribute_store() {
    // Three hooks, registered A, B, C, each appending its identifier to the
    // same attribute-store list: the final order is [A, B, C].
    let mut server = Server::new();
    server.hook(b'A' as u64);
    server.hook(b'B' as u64);
    server.hook(b'C' as u64);
    let outcomes = vec![HookOutcome::Completed; 3];
    let actions = simulate_run(server.get_hook().len(), 0, &outcomes);

    let mut ctx = Context::new();
    let key = String::from("order");
    ctx.set_data_value(&key, AttrValue::Bytes(Vec::new()));
    for action in &actions {
        if let PipelineAction::RunHook(i) = action {
            let id = server.get_hook()[*i] as u8;
            let mut list = ctx.get_bytes_value(&key).unwrap().clone();
            list.push(id);
            ctx.set_data_value(&key, AttrValue::Bytes(list));
        }
    }
    assert_eq!(ctx.get_bytes_value(&key).unwrap().as_slice(), b"ABC");
}

#[test]
fn panicking_hook_stops_chain_and_runs_panic_handlers_once() {
    // Hook 1 of three panics: hook 2 never runs, and both task-panic
    // handlers run exactly once, in order, before completion.
    let outcomes = vec![
        HookOutcome::Completed,
        HookOutcome::Panicked,
        HookOutcome::Completed,
    ];
    let actions = simulate_run(3, 2, &outcomes);
    assert_eq!(
        actions,
        vec![
            PipelineAction::RunHook(0),
            PipelineAction::RunHook(1),
            PipelineAction::RunTaskPanicHandler(0),
            PipelineAction::RunTaskPanicHandler(1),
            PipelineAction::Finished,
        ]
    );
}

#[test]
fn panic_with_no_handlers_just_finishes() {
    let outcomes = vec![HookOutcome::Panicked];
    let actions = simulate_run(1, 0, &outcomes);
    assert_eq!(
        actions,
        vec![PipelineAction::RunHook(0), PipelineAction::Finished]
    );
}

#[test]
fn terminated_context_stops_before_next_hook() {
    let mut pl = HandlerPipeline::new(2, 0);
    assert_eq!(pl.next_action(false), PipelineAction::RunHook(0));
    pl.report_hook_outcome(HookOutcome::Completed);
    // The first hook aborted the context: the pipeline consults the flag
    // before hook 1 and stops early.
    assert_eq!(pl.next_action(true), PipelineAction::Finished);
}

#[test]
fn empty_pipeline_finishes_immediately() {
    let pl = HandlerPipeline::new(0, 0);
    assert_eq!(pl.next_action(false), PipelineAction::Finished);
}

#[test]
fn default_hook_changes_nothing() {
    let mut ctx = Context::new();
    ctx.set_data_value(&String::from("k"), AttrValue::Int(3));
    tcplane::pipeline::default_hook(&mut ctx);
    assert!(!ctx.is_terminated());
    assert!(matches!(
        ctx.get_data_value(&String::from("k")),
        Some(AttrValue::Int(3))
    ));
    assert!(ctx.get_request().is_empty());
}
