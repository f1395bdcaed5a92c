use std::cell::Cell;
use std::rc::Rc;

use spanner_admin::operation::OperationDescriptor;
use spanner_admin::operation::OperationHandle;
use spanner_admin::operation::ResolveStep;
use spanner_admin::status::Status;
use spanner_admin::status::StatusCode;

/// A stand-in polling collaborator that counts how often it is asked.
#[derive(Clone)]
struct CountingPoller {
    polls: Rc<Cell<u32>>,
}

impl CountingPoller {
    fn new() -> CountingPoller {
        CountingPoller { polls: Rc::new(Cell::new(0)) }
    }

    fn poll(&self, name: &str) -> OperationDescriptor<String> {
        self.polls.set(self.polls.get() + 1);
        OperationDescriptor {
            name: name.to_string(),
            done: true,
            result: Some(Ok("polled-result".to_string())),
        }
    }
}

#[test]
fn handle_wraps_the_exact_descriptor() {
    let descriptor: OperationDescriptor<String> = OperationDescriptor {
        name: "dbs/d/operations/op1".to_string(),
        done: false,
        result: None,
    };
    let handle = OperationHandle::new(descriptor, CountingPoller::new());
    assert_eq!(handle.name().as_str(), "dbs/d/operations/op1");
    assert!(!handle.done());
}

#[test]
fn done_descriptor_resolves_without_a_poll() {
    let poller = CountingPoller::new();
    let counter = poller.polls.clone();
    let descriptor: OperationDescriptor<String> = OperationDescriptor {
        name: "dbs/d/operations/op2".to_string(),
        done: true,
        result: Some(Ok("embedded".to_string())),
    };
    let handle = OperationHandle::new(descriptor, poller);
    match handle.resolve_step() {
        ResolveStep::Ready(result) => assert_eq!(result, Ok("embedded".to_string())),
        ResolveStep::MustPoll(_) => panic!("a done descriptor with a result must not poll"),
    }
    assert_eq!(counter.get(), 0);
}

#[test]
fn done_descriptor_with_embedded_error_resolves_to_that_error() {
    let descriptor: OperationDescriptor<String> = OperationDescriptor {
        name: "dbs/d/operations/op3".to_string(),
        done: true,
        result: Some(Err(Status::new(StatusCode::AlreadyExists, "dup".to_string()))),
    };
    let handle = OperationHandle::new(descriptor, CountingPoller::new());
    match handle.resolve_step() {
        ResolveStep::Ready(result) => {
            assert_eq!(result, Err(Status::new(StatusCode::AlreadyExists, "dup".to_string())));
        }
        ResolveStep::MustPoll(_) => panic!("a done descriptor with a result must not poll"),
    }
}

#[test]
fn pending_descriptor_defers_to_the_poller() {
    let poller = CountingPoller::new();
    let counter = poller.polls.clone();
    let descriptor: OperationDescriptor<String> = OperationDescriptor {
        name: "dbs/d/operations/op4".to_string(),
        done: false,
        result: None,
    };
    let handle = OperationHandle::new(descriptor, poller);
    let mut handle = match handle.resolve_step() {
        ResolveStep::Ready(_) => panic!("a pending descriptor has no result to hand out"),
        ResolveStep::MustPoll(handle) => handle,
    };
    let fresh = handle.poller_ref().poll(&handle.name().clone());
    handle.on_poll(fresh);
    assert_eq!(counter.get(), 1);
    match handle.resolve_step() {
        ResolveStep::Ready(result) => assert_eq!(result, Ok("polled-result".to_string())),
        ResolveStep::MustPoll(_) => panic!("the polled descriptor was done with a result"),
    }
    assert_eq!(counter.get(), 1);
}

#[test]
fn completion_only_operations_carry_a_unit_result() {
    let descriptor: OperationDescriptor<()> = OperationDescriptor {
        name: "dbs/d/operations/op5".to_string(),
        done: true,
        result: Some(Ok(())),
    };
    let handle = OperationHandle::new(descriptor, ());
    match handle.resolve_step() {
        ResolveStep::Ready(result) => assert_eq!(result, Ok(())),
        ResolveStep::MustPoll(_) => panic!("a done descriptor with a result must not poll"),
    }
}
