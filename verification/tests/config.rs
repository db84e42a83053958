use querent_synapse::callbacks::interface::{EventHandler, EventOutcome};
use querent_synapse::callbacks::types::{EventState, EventType};
use querent_synapse::comm::channel::ChannelHandler;
use querent_synapse::config::config::DEFAULT_VERSION;
use querent_synapse::config::{
    CollectorConfig, Config, ConfigBuilder, EngineConfig, ResourceConfig, WorkflowConfig,
};
use querent_synapse::cross::clrepr::PythonRef;
use querent_synapse::cross::clrepr_python::PyValue;

fn s(text: &str) -> PyValue {
    PyValue::Str(text.to_string())
}

fn workflow_config() -> WorkflowConfig {
    WorkflowConfig {
        name: "test_workflow".to_string(),
        id: "workflow_id".to_string(),
        config: vec![("k".to_string(), "v".to_string())],
        inner_channel: Some(ChannelHandler::new(None, None, None, None)),
        channel: None,
        inner_event_handler: Some(EventHandler::new(None)),
        event_handler: None,
        inner_tokens_feader: None,
        tokens_feader: None,
    }
}

#[test]
fn default_version_is_a_tenth_in_single_precision() {
    assert_eq!(DEFAULT_VERSION, (0.1f32 as f64).to_bits());
}

#[test]
fn default_config_has_the_documented_values() {
    let c = Config::default();
    assert_eq!(c.version, DEFAULT_VERSION);
    assert_eq!(c.querent_id, "querent");
    assert_eq!(c.querent_name, "Querent");
    assert_eq!(c.workflow.name, "workflow");
    assert_eq!(c.workflow.id, "workflow");
    assert!(c.workflow.config.is_empty());
    assert!(c.workflow.inner_channel.is_none());
    assert!(c.workflow.inner_event_handler.is_none());
    assert!(c.collectors.is_empty());
    assert!(c.engines.is_empty());
    assert!(c.resource.is_none());
}

#[test]
fn builder_without_settings_gives_defaults_with_an_event_handler() {
    let c = ConfigBuilder::new().build();
    assert_eq!(c.version, DEFAULT_VERSION);
    assert_eq!(c.querent_id, "querent");
    assert_eq!(c.querent_name, "Querent");
    assert_eq!(c.workflow.name, "workflow");
    assert_eq!(c.workflow.id, "workflow");
    assert!(c.workflow.inner_channel.is_none());
    let handler = c.workflow.inner_event_handler.expect("no event handler");
    assert!(!handler.is_registered());
    assert!(c.collectors.is_empty() && c.engines.is_empty() && c.resource.is_none());
}

#[test]
fn builder_event_sender_reaches_the_default_workflow() {
    let (tx, mut rx) = tokio::sync::mpsc::channel(2);
    let c = ConfigBuilder::new().event_sender(tx).build();
    let handler = c.workflow.inner_event_handler.expect("no event handler");
    assert!(handler.is_registered());
    let state = EventState {
        event_type: EventType::Success,
        timestamp: 0,
        payload: "done".to_string(),
        file: "".to_string(),
        doc_source: "".to_string(),
        image_id: None,
    };
    assert_eq!(handler.send_event(EventType::Success, state), EventOutcome::Forwarded);
    assert_eq!(rx.try_recv().unwrap().1.payload, "done");
}

#[test]
fn builder_keeps_what_was_set() {
    let resource = ResourceConfig {
        id: "r".to_string(),
        max_workers_allowed: Some(4),
        max_workers_per_collector: None,
        max_workers_per_engine: Some(2),
        max_workers_per_querent: None,
    };
    let c = ConfigBuilder::new()
        .version(1.0f64.to_bits())
        .querent_id("user123".to_string())
        .querent_name("John Doe".to_string())
        .workflow(workflow_config())
        .collectors(vec![])
        .engines(vec![])
        .resource(Some(resource))
        .event_handler(EventHandler::new(None))
        .channel_handler(ChannelHandler::new(None, None, None, None))
        .build();
    assert_eq!(f64::from_bits(c.version), 1.0);
    assert_eq!(c.querent_id, "user123");
    assert_eq!(c.querent_name, "John Doe");
    assert_eq!(c.workflow.id, "workflow_id");
    assert!(c.workflow.inner_channel.is_some());
    assert_eq!(c.resource.unwrap().max_workers_allowed, Some(4));
    let c = ConfigBuilder::new().resource(None).build();
    assert!(c.resource.is_none());
}

#[test]
fn resource_config_to_object() {
    let r = ResourceConfig {
        id: "res".to_string(),
        max_workers_allowed: Some(8),
        max_workers_per_collector: None,
        max_workers_per_engine: Some(u32::MAX),
        max_workers_per_querent: Some(0),
    };
    assert_eq!(
        r.to_object(),
        PyValue::Dict(vec![
            (s("id"), s("res")),
            (s("max_workers_allowed"), PyValue::Int(8)),
            (s("max_workers_per_collector"), PyValue::NoneValue),
            (s("max_workers_per_engine"), PyValue::Int(4294967295)),
            (s("max_workers_per_querent"), PyValue::Int(0)),
        ])
    );
}

#[test]
fn engine_and_collector_to_object() {
    let e = EngineConfig {
        id: "e1".to_string(),
        name: "engine".to_string(),
        num_workers: Some(1),
        max_retries: Some(2),
        retry_interval: Some(3),
        message_throttle_limit: None,
        message_throttle_delay: Some(5),
        inner_channel: None,
        channel: None,
    };
    assert_eq!(
        e.to_object(),
        PyValue::Dict(vec![
            (s("id"), s("e1")),
            (s("name"), s("engine")),
            (s("num_workers"), PyValue::Int(1)),
            (s("max_retries"), PyValue::Int(2)),
            (s("retry_interval"), PyValue::Int(3)),
            (s("message_throttle_limit"), PyValue::NoneValue),
            (s("message_throttle_delay"), PyValue::Int(5)),
        ])
    );
    let c = CollectorConfig {
        id: "c1".to_string(),
        name: "collector".to_string(),
        backend: "fs".to_string(),
        config: vec![("root".to_string(), "/data".to_string())],
        inner_channel: Some(ChannelHandler::new(None, None, None, None)),
        channel: Some(PythonRef { handle: 3 }),
    };
    assert_eq!(
        c.to_object(),
        PyValue::Dict(vec![
            (s("id"), s("c1")),
            (s("name"), s("collector")),
            (s("backend"), s("fs")),
            (s("config"), PyValue::Dict(vec![(s("root"), s("/data"))])),
            (s("channel"), PyValue::Object(PythonRef { handle: 3 })),
        ])
    );
}

#[test]
fn workflow_config_to_object_shows_the_handles_that_are_there() {
    let mut w = workflow_config();
    assert_eq!(
        w.to_object(),
        PyValue::Dict(vec![
            (s("name"), s("test_workflow")),
            (s("id"), s("workflow_id")),
            (s("config"), PyValue::Dict(vec![(s("k"), s("v"))])),
        ])
    );
    w.channel = Some(PythonRef { handle: 1 });
    w.tokens_feader = Some(PythonRef { handle: 3 });
    assert_eq!(
        w.to_object(),
        PyValue::Dict(vec![
            (s("name"), s("test_workflow")),
            (s("id"), s("workflow_id")),
            (s("config"), PyValue::Dict(vec![(s("k"), s("v"))])),
            (s("channel"), PyValue::Object(PythonRef { handle: 1 })),
            (s("tokens_feader"), PyValue::Object(PythonRef { handle: 3 })),
        ])
    );
    w.event_handler = Some(PythonRef { handle: 2 });
    match w.to_object() {
        PyValue::Dict(items) => {
            assert_eq!(items.len(), 6);
            assert_eq!(items[4], (s("event_handler"), PyValue::Object(PythonRef { handle: 2 })));
        },
        other => panic!("unexpected {:?}", other),
    }
}

#[test]
fn config_to_object_has_the_seven_items_in_order() {
    let config = Config::new(
        1.0f64.to_bits(),
        "test_querent".to_string(),
        "Test Querent Callback".to_string(),
        workflow_config(),
        vec![],
        vec![EngineConfig {
            id: "e".to_string(),
            name: "n".to_string(),
            num_workers: None,
            max_retries: None,
            retry_interval: None,
            message_throttle_limit: None,
            message_throttle_delay: None,
            inner_channel: None,
            channel: None,
        }],
        None,
    );
    let image = config.to_object();
    let PyValue::Dict(items) = &image else { panic!("not a dictionary") };
    let keys: Vec<&PyValue> = items.iter().map(|(k, _)| k).collect();
    assert_eq!(
        keys,
        vec![
            &s("version"),
            &s("querent_id"),
            &s("querent_name"),
            &s("workflow"),
            &s("collectors"),
            &s("engines"),
            &s("resource")
        ]
    );
    assert_eq!(image.get_item("version"), Ok(&PyValue::Float(1.0f64.to_bits())));
    assert_eq!(image.get_item("querent_name"), Ok(&s("Test Querent Callback")));
    assert_eq!(image.get_item("workflow"), Ok(&config.workflow.to_object()));
    assert_eq!(image.get_item("collectors"), Ok(&PyValue::List(vec![])));
    assert_eq!(image.get_item("engines"), Ok(&PyValue::List(vec![config.engines[0].to_object()])));
    assert_eq!(image.get_item("resource"), Ok(&PyValue::NoneValue));
}

#[test]
fn config_clone_has_the_same_image() {
    let mut config = Config::default();
    config.workflow = workflow_config();
    config.resource = Some(ResourceConfig {
        id: "r".to_string(),
        max_workers_allowed: None,
        max_workers_per_collector: None,
        max_workers_per_engine: None,
        max_workers_per_querent: Some(9),
    });
    let copy = config.clone();
    assert_eq!(copy.to_object(), config.to_object());
    assert!(copy.workflow.inner_channel.is_some());
    assert!(copy.workflow.inner_event_handler.is_some());
}
