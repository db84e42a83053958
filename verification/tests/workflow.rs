use querent_synapse::config::Config;
use querent_synapse::cross::clrepr::{CLRepr, StringType};
use querent_synapse::cross::clrepr_python::PyValue;
use querent_synapse::querent::errors::{ErrorKind, QuerentError, QuerentErrorCauseType};
use querent_synapse::querent::querent::Querent;
use querent_synapse::querent::workflow::py_runtime::{
    positional_arguments, reply_for_value,
};
use querent_synapse::querent::workflow::workflow::{
    start_result, CallableDescriptor, LifecycleError, StartAction, StartOutcome, StartSession,
};
use querent_synapse::querent::workflow::{Workflow, WorkflowBuilder, WorkflowManager};

const CODE_WITH_RESULT: &str = r#"
import asyncio

async def add_numbers(a, b):
    await asyncio.sleep(1)  # Simulate asynchronous behavior
    print(a + b)
    return a + b
"#;

fn sleep_flow(name: &str, id: &str, seconds: i64) -> Workflow {
    Workflow {
        name: name.to_string(),
        id: id.to_string(),
        import: "asyncio".to_string(),
        attr: "sleep".to_string(),
        arguments: vec![CLRepr::Int(seconds)],
        code: None,
        config: None,
    }
}

#[test]
fn add_workflow_rejects_a_duplicate_id_and_keeps_the_first() {
    let mut manager = WorkflowManager::new();
    assert!(manager.add_workflow(sleep_flow("first", "id1", 1)).is_ok());
    let again = manager.add_workflow(sleep_flow("second", "id1", 2));
    match again {
        Err(e) => {
            assert_eq!(e.id, "id1");
            assert_eq!(e.message(), "Workflow with the same ID already exists.");
            let failure = e.into_failure();
            assert_eq!(failure.kind, ErrorKind::DuplicateId);
            let error = failure.into_error();
            assert!(matches!(error.cause, QuerentErrorCauseType::User(None)));
            assert_eq!(
                error.to_display_string(),
                "User: Workflow with the same ID already exists."
            );
        },
        Ok(()) => panic!("a duplicate id was accepted"),
    }
    assert_eq!(manager.len(), 1);
    let kept = manager.get_workflow("id1").unwrap();
    assert_eq!(kept.name, "first");
    assert!(matches!(kept.arguments[0], CLRepr::Int(1)));
}

#[test]
fn get_workflow_and_get_workflows_are_snapshots() {
    let mut manager = WorkflowManager::new();
    assert!(manager.get_workflows().is_empty());
    assert!(manager.get_workflow("workflow1").is_none());
    manager.add_workflow(sleep_flow("Workflow 1", "workflow1", 32)).unwrap();
    assert!(manager.get_workflow("workflow1").is_some());
    assert!(manager.get_workflow("workflow2").is_none());
    manager.add_workflow(sleep_flow("Workflow 2", "workflow2", 1)).unwrap();
    let all = manager.get_workflows();
    assert_eq!(all.len(), 2);
    assert_eq!(all[0].id, "workflow1");
    assert_eq!(all[1].id, "workflow2");
    let mut copy = manager.get_workflow("workflow1").unwrap();
    copy.name = "changed".to_string();
    assert_eq!(manager.get_workflow("workflow1").unwrap().name, "Workflow 1");
}

#[test]
fn remove_workflow_then_insert_replaces() {
    let mut manager = WorkflowManager::new();
    manager.add_workflow(sleep_flow("a", "a", 1)).unwrap();
    manager.add_workflow(sleep_flow("b", "b", 1)).unwrap();
    assert_eq!(manager.remove_workflow("missing"), Err(LifecycleError::NotFound));
    assert_eq!(manager.remove_workflow("a"), Ok(()));
    assert!(manager.get_workflow("a").is_none());
    assert!(manager.get_workflow("b").is_some());
    assert_eq!(manager.remove_workflow("a"), Err(LifecycleError::NotFound));
    manager.add_workflow(sleep_flow("a2", "a", 2)).unwrap();
    assert_eq!(manager.get_workflow("a").unwrap().name, "a2");
    let ids: Vec<String> = manager.get_workflows().into_iter().map(|w| w.id).collect();
    assert_eq!(ids, vec!["b".to_string(), "a".to_string()]);
}

#[test]
fn lifecycle_of_a_single_workflow() {
    let mut manager = WorkflowManager::new();
    manager.add_workflow(sleep_flow("w", "w", 1)).unwrap();
    assert!(!manager.is_running("w"));
    assert_eq!(manager.stop_workflow("w"), Err(LifecycleError::NotRunning));
    assert!(matches!(manager.start_workflow("nope"), Err(LifecycleError::NotFound)));
    assert_eq!(manager.stop_workflow("nope"), Err(LifecycleError::NotFound));
    let request = manager.start_workflow("w").unwrap();
    assert_eq!(request.id, "w");
    assert!(manager.is_running("w"));
    assert!(matches!(manager.start_workflow("w"), Err(LifecycleError::Running)));
    assert_eq!(manager.remove_workflow("w"), Err(LifecycleError::Running));
    assert!(manager.get_workflow("w").is_some());
    assert_eq!(manager.stop_workflow("w"), Ok(()));
    assert!(!manager.is_running("w"));
    assert_eq!(manager.remove_workflow("w"), Ok(()));
    assert_eq!(manager.len(), 0);
}

#[test]
fn lifecycle_messages() {
    assert_eq!(LifecycleError::NotFound.message(true), "Workflow not found.");
    assert_eq!(LifecycleError::NotFound.message(false), "Workflow not found.");
    assert_eq!(LifecycleError::Running.message(true), "Workflow is already running.");
    assert_eq!(LifecycleError::Running.message(false), "Workflow is running.");
    assert_eq!(LifecycleError::NotRunning.message(false), "Workflow is not running.");
}

#[test]
fn call_request_of_an_imported_callable() {
    let request = sleep_flow("test_flow_basic", "id1", 1).call_request();
    assert_eq!(request.id, "id1");
    match request.callable {
        CallableDescriptor::Import { module, attr } => {
            assert_eq!(module, "asyncio");
            assert_eq!(attr, "sleep");
        },
        other => panic!("unexpected callable {:?}", other),
    }
    assert_eq!(request.arguments.len(), 1);
    assert!(matches!(request.arguments[0], CLRepr::Int(1)));
    assert!(request.config.is_none());
}

#[test]
fn call_request_of_inline_source_is_tagged_by_the_workflow_id() {
    let flow = Workflow {
        name: "test_flow_python".to_string(),
        id: "id2".to_string(),
        import: "".to_string(),
        attr: "print_querent".to_string(),
        arguments: vec![CLRepr::String("Querent".to_string(), StringType::Normal)],
        code: Some("async def print_querent(text): print(text)".to_string()),
        config: Some(Config::default()),
    };
    let request = flow.call_request();
    match request.callable {
        CallableDescriptor::Inline { source, file, module, attr } => {
            assert_eq!(source, "async def print_querent(text): print(text)");
            assert_eq!(file, "id2.py");
            assert_eq!(module, "id2");
            assert_eq!(attr, "print_querent");
        },
        other => panic!("unexpected callable {:?}", other),
    }
    assert_eq!(request.config, Some(Config::default().to_object()));
    let positional = positional_arguments(&request.arguments, request.config);
    assert_eq!(positional.len(), 2);
    assert_eq!(positional[0], PyValue::Str("Querent".to_string()));
    assert_eq!(positional[1], Config::default().to_object());
}

#[test]
fn workflow_manager_basic_scenario() {
    let mut manager = WorkflowManager::new();
    assert!(manager.add_workflow(sleep_flow("test_flow_basic", "id1", 1)).is_ok());
    let requests = manager.call_requests();
    assert_eq!(requests.len(), 1);
    let outcomes: Vec<StartOutcome> =
        requests.iter().map(|_| StartOutcome::Completed(CLRepr::Null)).collect();
    assert!(manager.start_workflows(outcomes).is_ok());
}

#[test]
fn workflow_manager_two_workflows_scenario() {
    let mut manager = WorkflowManager::new();
    assert!(manager.add_workflow(sleep_flow("test_flow_1", "id3", 1)).is_ok());
    assert!(manager.add_workflow(sleep_flow("test_flow_2", "id4", 2)).is_ok());
    let requests = manager.call_requests();
    let ids: Vec<&str> = requests.iter().map(|r| r.id.as_str()).collect();
    assert_eq!(ids, vec!["id3", "id4"]);
    let mut ran = Vec::new();
    let mut outcomes = Vec::new();
    for request in &requests {
        ran.push(request.id.clone());
        outcomes.push(StartOutcome::Completed(CLRepr::Null));
    }
    assert!(manager.start_workflows(outcomes).is_ok());
    assert_eq!(ran, vec!["id3".to_string(), "id4".to_string()]);
}

#[test]
fn inline_add_numbers_scenario() {
    let mut manager = WorkflowManager::new();
    let flow = Workflow {
        name: "test_flow_with_result".to_string(),
        id: "id5".to_string(),
        import: "".to_string(),
        attr: "add_numbers".to_string(),
        arguments: vec![CLRepr::Int(3), CLRepr::Int(4)],
        code: Some(CODE_WITH_RESULT.to_string()),
        config: None,
    };
    assert!(manager.add_workflow(flow).is_ok());
    let requests = manager.call_requests();
    let request = &requests[0];
    assert!(matches!(&request.callable, CallableDescriptor::Inline { file, attr, .. }
        if file == "id5.py" && attr == "add_numbers"));
    let positional = positional_arguments(&request.arguments, None);
    assert_eq!(positional, vec![PyValue::Int(3), PyValue::Int(4)]);
    let sum = match (&positional[0], &positional[1]) {
        (PyValue::Int(a), PyValue::Int(b)) => PyValue::Int(a + b),
        other => panic!("unexpected arguments {:?}", other),
    };
    let reply = reply_for_value(&sum);
    assert!(matches!(reply, Ok(CLRepr::Int(7))));
    let outcomes = vec![StartOutcome::Completed(reply.unwrap())];
    assert!(manager.start_workflows(outcomes).is_ok());
}

fn manager_of(count: usize) -> WorkflowManager {
    let mut manager = WorkflowManager::new();
    for index in 0..count {
        manager.add_workflow(sleep_flow("flow", &format!("id{}", index), 1)).unwrap();
    }
    manager
}

#[test]
fn start_workflows_fails_fast_on_the_first_error() {
    assert!(manager_of(0).start_workflows(vec![]).is_ok());
    let outcomes = vec![
        StartOutcome::Completed(CLRepr::Null),
        StartOutcome::Failed(QuerentError::internal("Python error: boom".to_string())),
        StartOutcome::NotSubmitted(QuerentError::internal("later".to_string())),
    ];
    let err = manager_of(3).start_workflows(outcomes).unwrap_err();
    assert_eq!(err.message, "Internal: Python error: boom");
    assert!(matches!(err.cause, QuerentErrorCauseType::Internal(None)));

    let outcomes = vec![
        StartOutcome::NotSubmitted(QuerentError::internal(
            "Failed to find start function.".to_string(),
        )),
        StartOutcome::Failed(QuerentError::internal("second".to_string())),
    ];
    let err = manager_of(2).start_workflows(outcomes).unwrap_err();
    assert_eq!(err.message, "Failed to find start function.");

    let outcomes = vec![
        StartOutcome::Completed(CLRepr::Int(1)),
        StartOutcome::Failed(QuerentError::user("bad".to_string())),
    ];
    let err = manager_of(5).start_workflows(outcomes).unwrap_err();
    assert_eq!(err.message, "User: bad");
    assert!(matches!(err.cause, QuerentErrorCauseType::Internal(None)));
}

#[test]
fn outcomes_that_are_not_those_of_the_workflows_are_refused() {
    let mismatch = "Workflow outcomes do not match the registered workflows.";
    let err = manager_of(1).start_workflows(vec![]).unwrap_err();
    assert_eq!(err.message, mismatch);
    assert!(matches!(err.cause, QuerentErrorCauseType::Internal(None)));
    let one = vec![StartOutcome::Completed(CLRepr::Null)];
    assert_eq!(manager_of(2).start_workflows(one).unwrap_err().message, mismatch);
    let two = vec![StartOutcome::Completed(CLRepr::Null), StartOutcome::Completed(CLRepr::Null)];
    assert_eq!(manager_of(1).start_workflows(two).unwrap_err().message, mismatch);
    let beyond = vec![
        StartOutcome::Completed(CLRepr::Null),
        StartOutcome::Failed(QuerentError::internal("x".to_string())),
    ];
    assert_eq!(manager_of(1).start_workflows(beyond).unwrap_err().message, mismatch);
    assert_eq!(start_result(0, vec![]).map_err(|e| e.message), Ok(()));
    assert_eq!(
        start_result(1, vec![]).map_err(|e| e.message),
        Err(mismatch.to_string())
    );
    assert!(StartOutcome::Completed(CLRepr::Null).completed());
    assert!(!StartOutcome::Failed(QuerentError::internal("x".to_string())).completed());
    assert!(!StartOutcome::NotSubmitted(QuerentError::internal("x".to_string())).completed());
}

#[test]
fn every_request_is_submitted_before_the_first_reply_is_awaited() {
    let manager = manager_of(3);
    let mut session = manager.start_session();
    let mut steps = Vec::new();
    loop {
        let action = session.next_action();
        steps.push(action);
        match action {
            StartAction::Submit(_) => session.note_submitted(),
            StartAction::Await(_) => session.note_outcome(StartOutcome::Completed(CLRepr::Null)),
            StartAction::Finish => break,
        }
    }
    assert_eq!(
        steps,
        vec![
            StartAction::Submit(0),
            StartAction::Submit(1),
            StartAction::Submit(2),
            StartAction::Await(0),
            StartAction::Await(1),
            StartAction::Await(2),
            StartAction::Finish,
        ]
    );
    assert!(session.finish().is_ok());
}

#[test]
fn a_start_stops_awaiting_at_the_first_failure() {
    let mut session = StartSession::new(3);
    session.note_outcome(StartOutcome::Completed(CLRepr::Null));
    assert_eq!(session.next_action(), StartAction::Submit(0));
    for _ in 0..3 {
        session.note_submitted();
    }
    session.note_submitted();
    assert_eq!(session.next_action(), StartAction::Await(0));
    session.note_outcome(StartOutcome::Completed(CLRepr::Null));
    assert_eq!(session.next_action(), StartAction::Await(1));
    session.note_outcome(StartOutcome::Failed(QuerentError::internal("boom".to_string())));
    assert_eq!(session.next_action(), StartAction::Finish);
    session.note_outcome(StartOutcome::Completed(CLRepr::Null));
    assert_eq!(session.next_action(), StartAction::Finish);
    assert_eq!(session.finish().unwrap_err().message, "Internal: boom");

    let unfinished = StartSession::new(2);
    assert_eq!(
        unfinished.finish().unwrap_err().message,
        "Workflow outcomes do not match the registered workflows."
    );
    let empty = StartSession::new(0);
    assert_eq!(empty.next_action(), StartAction::Finish);
    assert!(empty.finish().is_ok());
}

#[test]
fn builder_defaults_and_setters() {
    let w = WorkflowBuilder::new("wid").build();
    assert_eq!(w.id, "wid");
    assert_eq!(w.name, "wid");
    assert_eq!(w.import, "");
    assert_eq!(w.attr, "");
    assert!(w.code.is_none());
    assert!(w.arguments.is_empty());
    assert!(w.config.is_none());

    let w = WorkflowBuilder::new("wid")
        .name("named")
        .import(Some("asyncio".to_string()))
        .attr(Some("sleep".to_string()))
        .code(Some("pass".to_string()))
        .arguments(vec![CLRepr::Int(1)])
        .add_argument(CLRepr::Bool(true))
        .config(Config::default())
        .build();
    assert_eq!(w.name, "named");
    assert_eq!(w.import, "asyncio");
    assert_eq!(w.attr, "sleep");
    assert_eq!(w.code.as_deref(), Some("pass"));
    assert_eq!(w.arguments.len(), 2);
    assert!(matches!(w.arguments[1], CLRepr::Bool(true)));
    assert!(w.config.is_some());

    let w = WorkflowBuilder::new("x").import(Some("m".to_string())).import(None).build();
    assert_eq!(w.import, "");
}

#[test]
fn builder_from_workflow_rebuilds_the_workflow() {
    let template = sleep_flow("n", "i", 5);
    let rebuilt = WorkflowBuilder::from_workflow(template.clone()).build();
    assert_eq!(rebuilt.name, template.name);
    assert_eq!(rebuilt.id, template.id);
    assert_eq!(rebuilt.import, template.import);
    assert_eq!(rebuilt.attr, template.attr);
    assert!(rebuilt.code.is_none());
    assert!(matches!(rebuilt.arguments[0], CLRepr::Int(5)));
    let changed = WorkflowBuilder::from_workflow(template).name("other").build();
    assert_eq!(changed.name, "other");
    assert_eq!(changed.id, "i");
}

#[test]
fn querent_front_door() {
    let mut querent = Querent::new();
    assert!(querent.get_workflows().is_empty());
    assert!(querent.add_workflow(sleep_flow("a", "a", 1)).is_ok());
    assert!(querent.add_workflow(sleep_flow("a-again", "a", 1)).is_err());
    assert!(querent.add_workflow(sleep_flow("b", "b", 1)).is_ok());
    assert_eq!(querent.get_workflows().len(), 2);
    let requests = querent.call_requests();
    assert_eq!(requests.len(), 2);
    assert_eq!(requests[1].id, "b");
    let ok = vec![StartOutcome::Completed(CLRepr::Null), StartOutcome::Completed(CLRepr::Null)];
    assert!(querent.start_workflows(ok).is_ok());
    assert_eq!(querent.start_session().next_action(), StartAction::Submit(0));
    let bad = vec![
        StartOutcome::Completed(CLRepr::Null),
        StartOutcome::NotSubmitted(QuerentError::internal("x".to_string())),
    ];
    assert_eq!(querent.start_workflows(bad).unwrap_err().message, "x");
}

#[test]
fn inline_sources_of_one_name_are_kept_apart_by_id() {
    let flow = |id: &str, source: &str| Workflow {
        name: "shared".to_string(),
        id: id.to_string(),
        import: "".to_string(),
        attr: "run".to_string(),
        arguments: vec![],
        code: Some(source.to_string()),
        config: None,
    };
    let mut manager = WorkflowManager::new();
    manager.add_workflow(flow("first", "async def run(): return 1")).unwrap();
    manager.add_workflow(flow("second", "async def run(): return 2")).unwrap();
    let requests = manager.call_requests();
    let parts = |index: usize| match &requests[index].callable {
        CallableDescriptor::Inline { source, file, module, attr } => {
            (source.clone(), file.clone(), module.clone(), attr.clone())
        },
        other => panic!("unexpected callable {:?}", other),
    };
    let (first, second) = (parts(0), parts(1));
    assert_eq!(first.0, "async def run(): return 1");
    assert_eq!(second.0, "async def run(): return 2");
    assert_eq!((first.1.as_str(), first.2.as_str()), ("first.py", "first"));
    assert_eq!((second.1.as_str(), second.2.as_str()), ("second.py", "second"));
    assert_ne!(first.2, second.2);
    assert_eq!(first.3, second.3);
}
