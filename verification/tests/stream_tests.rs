//! Connection scenarios driven through the shared context and the pipeline
//! scheduler, with the transport transcript kept in memory.

use std::sync::Arc;
use tcplane::attrs::AttrValue;
use tcplane::context::Context;
use tcplane::pipeline::HookOutcome;
use tcplane::pipeline::PipelineAction;
use tcplane::pipeline::simulate_run;
use tcplane::response::Response;
use tcplane::server::Server;
use tokio::sync::RwLock;

#[test]
fn greeting_then_echo_bytes_arrive_in_order() {
    // Two hooks, Greeting then Echo, against the request b"ping": the
    // transport writes the greeting bytes first, then the echo bytes.
    let mut server = Server::new();
    let greeting_id: u64 = 1;
    let echo_id: u64 = 2;
    server.hook(greeting_id);
    server.hook(echo_id);

    let mut ctx = Context::new();
    ctx.set_request(b"ping".to_vec());

    let outcomes = vec![HookOutcome::Completed; 2];
    let actions = simulate_run(server.get_hook().len(), 0, &outcomes);

    // What the transport layer would write to the socket, in order.
    let mut transcript: Vec<u8> = Vec::new();
    for action in &actions {
        if let PipelineAction::RunHook(i) = action {
            let id = server.get_hook()[*i];
            let payload = if id == greeting_id {
                b"Hello from GreetingHandler!".to_vec()
            } else {
                let mut echoed = b"Echo: ".to_vec();
                echoed.extend_from_slice(ctx.get_request());
                echoed
            };
            ctx.set_response(Response::from(payload.clone()));
            transcript.extend_from_slice(&payload);
        }
    }

    assert_eq!(
        transcript.as_slice(),
        b"Hello from GreetingHandler!Echo: ping".as_slice()
    );
    assert_eq!(ctx.get_response().get_response_data().as_slice(), b"Echo: ping");
}

#[test]
fn hook_panic_reaches_panic_handler_with_same_context() {
    // A hook that panics inside its supervised task: the panic is caught at
    // the task boundary, the remaining hook does not run, and the panic
    // handler sees the same context the panicking hook had.
    let rt = tokio::runtime::Builder::new_current_thread()
        .enable_all()
        .build()
        .unwrap();
    rt.block_on(async {
        let mut server = Server::new();
        server.hook(1);
        server.hook(2);
        server.hook(3);
        server.task_panic(9);

        let mut pl = server.pipeline_for_connection();
        let mut ctx = Context::new();
        let key = String::from("trace");
        ctx.set_data_value(&key, AttrValue::Bytes(Vec::new()));

        let shared = Arc::new(RwLock::new(ctx));
        let mut panic_handler_runs = 0u32;
        loop {
            let action = {
                let guard = shared.read().await;
                pl.next_action(guard.is_terminated())
            };
            match action {
                PipelineAction::RunHook(i) => {
                    let id = server.get_hook()[i];
                    let shared_for_hook = shared.clone();
                    let task = tokio::spawn(async move {
                        let mut guard = shared_for_hook.write().await;
                        let k = String::from("trace");
                        let mut list = guard.get_bytes_value(&k).unwrap().clone();
                        list.push(id as u8);
                        guard.set_data_value(&k, AttrValue::Bytes(list));
                        if id == 2 {
                            panic!("hook failure");
                        }
                    });
                    let outcome = match task.await {
                        Ok(()) => HookOutcome::Completed,
                        Err(_) => HookOutcome::Panicked,
                    };
                    pl.report_hook_outcome(outcome);
                }
                PipelineAction::RunTaskPanicHandler(_) => {
                    let guard = shared.read().await;
                    // The panic handler reads the same context: the trace
                    // the hooks left is visible here.
                    assert_eq!(
                        guard.get_bytes_value(&key).unwrap().as_slice(),
                        &[1u8, 2u8]
                    );
                    panic_handler_runs += 1;
                    drop(guard);
                    pl.report_panic_handler_done();
                }
                PipelineAction::Finished => break,
            }
        }
        assert_eq!(panic_handler_runs, 1);
        let guard = shared.read().await;
        // Hook 2 panicked after tracing itself; hook 3 never ran.
        assert_eq!(guard.get_bytes_value(&key).unwrap().as_slice(), &[1u8, 2u8]);
    });
}
