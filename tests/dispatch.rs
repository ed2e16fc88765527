use std::collections::HashMap;

use golem::isolate_core::{CoreError, Dispatched, IsolateCore, Op, Route};
use golem::rejections::PromiseRejectEvent;

type Handler = fn(&[u8]) -> Op<&'static str>;
type Core = IsolateCore<Handler, String>;

fn echo(control: &[u8]) -> Op<&'static str> {
    Op::Sync(control.to_vec())
}

fn delayed(_control: &[u8]) -> Op<&'static str> {
    Op::Async("resolves later")
}

fn background(_control: &[u8]) -> Op<&'static str> {
    Op::AsyncUnref("runs in the background")
}

fn id_from_discovery(core: &Core, name: &str) -> u32 {
    let bytes = core.list_ops();
    let map: serde_json::Value = serde_json::from_slice(&bytes).unwrap();
    map.get(name).and_then(|v| v.as_u64()).unwrap() as u32
}

fn send(core: &mut Core, op_id: u32, control: &[u8]) -> Result<Dispatched<&'static str>, CoreError> {
    let op = match core.route(op_id)? {
        Route::Reply(bytes) => Op::Sync(bytes),
        Route::Call(h) => h(control),
    };
    core.accept(op_id, op)
}

#[test]
fn echo_op_answers_synchronously() {
    let mut core: Core = IsolateCore::new();
    core.register_op("echo", echo).unwrap();
    let id = id_from_discovery(&core, "echo");
    assert_eq!(id, 1);
    match send(&mut core, id, b"hi").unwrap() {
        Dispatched::Sync(op_id, bytes) => {
            assert_eq!(op_id, 1);
            assert_eq!(bytes, b"hi".to_vec());
        }
        Dispatched::Pending(..) => panic!("echo is synchronous"),
    }
    assert_eq!(core.pending_count(), 0);
}

#[test]
fn discovery_op_is_idempotent() {
    let mut core: Core = IsolateCore::new();
    core.register_op("echo", echo).unwrap();
    let first = match send(&mut core, 0, b"").unwrap() {
        Dispatched::Sync(_, bytes) => bytes,
        Dispatched::Pending(..) => panic!("discovery is synchronous"),
    };
    let second = match send(&mut core, 0, b"").unwrap() {
        Dispatched::Sync(_, bytes) => bytes,
        Dispatched::Pending(..) => panic!("discovery is synchronous"),
    };
    assert_eq!(first, second);
    assert_eq!(String::from_utf8(first).unwrap(), "{\"echo\":1,\"ops\":0}");
}

#[test]
fn unknown_op_id_is_refused() {
    let mut core: Core = IsolateCore::new();
    assert!(matches!(core.route(5), Err(CoreError::UnknownOp)));
    assert!(matches!(core.accept(5, Op::<&str>::Sync(vec![1])), Err(CoreError::UnknownOp)));
}

#[test]
fn second_recv_callback_is_refused() {
    let mut core: Core = IsolateCore::new();
    assert_eq!(core.set_recv_callback(), Ok(()));
    assert_eq!(core.set_recv_callback(), Err(CoreError::RecvAlreadyRegistered));
}

#[test]
fn completion_waits_for_async_result() {
    let mut core: Core = IsolateCore::new();
    core.set_recv_callback().unwrap();
    let id = core.register_op("later", delayed).unwrap();
    let ticket = match send(&mut core, id, b"").unwrap() {
        Dispatched::Pending(ticket, work) => {
            assert_eq!(work, "resolves later");
            ticket
        }
        Dispatched::Sync(..) => panic!("op is asynchronous"),
    };
    assert!(core.has_pending_ops());
    assert!(core.poll_completion().is_none());
    let (op_id, bytes) = core.complete(ticket, b"done".to_vec()).unwrap();
    assert_eq!(op_id, id);
    assert_eq!(bytes, b"done".to_vec());
    assert!(!core.has_pending_ops());
    assert!(matches!(core.poll_completion(), Some(Ok(()))));
}

#[test]
fn results_are_delivered_in_completion_order() {
    let mut core: Core = IsolateCore::new();
    let id = core.register_op("later", delayed).unwrap();
    let first = match send(&mut core, id, b"").unwrap() {
        Dispatched::Pending(t, _) => t,
        Dispatched::Sync(..) => panic!("op is asynchronous"),
    };
    let second = match send(&mut core, id, b"").unwrap() {
        Dispatched::Pending(t, _) => t,
        Dispatched::Sync(..) => panic!("op is asynchronous"),
    };
    assert_ne!(first, second);
    assert_eq!(core.complete(second, b"two".to_vec()), Ok((id, b"two".to_vec())));
    assert!(core.poll_completion().is_none());
    assert_eq!(core.complete(first, b"one".to_vec()), Ok((id, b"one".to_vec())));
    assert_eq!(core.complete(first, b"again".to_vec()), Err(CoreError::UnknownTicket));
    assert!(matches!(core.poll_completion(), Some(Ok(()))));
}

#[test]
fn unref_ops_do_not_block_completion() {
    let mut core: Core = IsolateCore::new();
    let id = core.register_op("bg", background).unwrap();
    assert!(matches!(send(&mut core, id, b"").unwrap(), Dispatched::Pending(0, _)));
    assert_eq!(core.pending_count(), 1);
    assert!(!core.has_pending_ops());
    assert!(matches!(core.poll_completion(), Some(Ok(()))));
}

#[test]
fn caught_rejection_is_not_reported() {
    let mut core: Core = IsolateCore::new();
    core.on_promise_reject(7, PromiseRejectEvent::RejectWithNoHandler("boom".to_string()));
    assert_eq!(core.unhandled_count(), 1);
    core.on_promise_reject(7, PromiseRejectEvent::HandlerAddedAfterReject);
    assert_eq!(core.unhandled_count(), 0);
    assert!(matches!(core.poll_completion(), Some(Ok(()))));
}

#[test]
fn uncaught_rejection_is_reported_at_completion() {
    let mut core: Core = IsolateCore::new();
    core.on_promise_reject(7, PromiseRejectEvent::RejectWithNoHandler("boom".to_string()));
    core.on_promise_reject(9, PromiseRejectEvent::RejectWithNoHandler("bang".to_string()));
    core.on_promise_reject(9, PromiseRejectEvent::HandlerAddedAfterReject);
    match core.poll_completion() {
        Some(Err(list)) => assert_eq!(list, HashMap::from([(7, "boom".to_string())])),
        _ => panic!("the rejection of promise 7 was not handled"),
    }
    assert_eq!(core.unhandled_count(), 0);
    assert!(matches!(core.poll_completion(), Some(Ok(()))));
}

#[test]
fn late_resolve_events_change_nothing() {
    let mut core: Core = IsolateCore::new();
    core.on_promise_reject(3, PromiseRejectEvent::RejectAfterResolved);
    core.on_promise_reject(3, PromiseRejectEvent::ResolveAfterResolved);
    core.on_promise_reject(4, PromiseRejectEvent::HandlerAddedAfterReject);
    assert_eq!(core.unhandled_count(), 0);
    core.on_promise_reject(5, PromiseRejectEvent::RejectWithNoHandler("first".to_string()));
    core.on_promise_reject(5, PromiseRejectEvent::RejectWithNoHandler("second".to_string()));
    assert_eq!(core.unhandled_count(), 1);
    match core.poll_completion() {
        Some(Err(list)) => assert_eq!(list, HashMap::from([(5, "second".to_string())])),
        _ => panic!("promise 5 is unhandled"),
    }
}

#[test]
fn rejections_wait_for_pending_ops() {
    let mut core: Core = IsolateCore::new();
    let id = core.register_op("later", delayed).unwrap();
    let ticket = match send(&mut core, id, b"").unwrap() {
        Dispatched::Pending(t, _) => t,
        Dispatched::Sync(..) => panic!("op is asynchronous"),
    };
    core.on_promise_reject(1, PromiseRejectEvent::RejectWithNoHandler("e".to_string()));
    assert!(core.poll_completion().is_none());
    assert_eq!(core.unhandled_count(), 1);
    core.complete(ticket, Vec::new()).unwrap();
    assert!(matches!(core.poll_completion(), Some(Err(_))));
}

#[test]
fn send_returns_only_nonempty_sync_results() {
    let mut core: Core = IsolateCore::new();
    let id = core.register_op("echo", echo).unwrap();
    let full = send(&mut core, id, b"hi").unwrap();
    assert_eq!(full.send_return_value(), Some(&b"hi".to_vec()));
    let empty = send(&mut core, id, b"").unwrap();
    assert_eq!(empty.send_return_value(), None);
    let later = core.register_op("later", delayed).unwrap();
    let pending = send(&mut core, later, b"x").unwrap();
    assert_eq!(pending.send_return_value(), None);
}

#[test]
fn op_zero_answers_with_the_listing() {
    let mut core: Core = IsolateCore::new();
    core.register_op("echo", echo).unwrap();
    match core.route(0).unwrap() {
        Route::Reply(bytes) => assert_eq!(bytes, core.list_ops()),
        Route::Call(_) => panic!("id 0 is the built-in listing"),
    }
    assert!(matches!(core.route(1), Ok(Route::Call(_))));
}
