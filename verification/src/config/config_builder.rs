use crate::callbacks::interface::EventHandler;
use crate::callbacks::types::event::{EventState, EventType};
use crate::comm::channel::ChannelHandler;
use crate::config::config::{
    default_workflow_config, CollectorConfig, CollectorConfigView, Config, ConfigView,
    EngineConfig, EngineConfigView, ResourceConfig, ResourceConfigView, WorkflowConfig,
    DEFAULT_VERSION,
};
use tokio::sync::mpsc::Sender;
use vstd::prelude::*;
use vstd::string::StringExecFns;

verus! {

/// Collects the parts of a `Config`; what is not set gets a default.
pub struct ConfigBuilder {
    version: Option<u64>,
    querent_id: Option<String>,
    querent_name: Option<String>,
    workflow: Option<WorkflowConfig>,
    collectors: Option<Vec<CollectorConfig>>,
    engines: Option<Vec<EngineConfig>>,
    resource: Option<Option<ResourceConfig>>,
    event_handler: Option<EventHandler>,
    channel_handler: Option<ChannelHandler>,
    event_sender: Option<Sender<(EventType, EventState)>>,
}

/// What has been set in a `ConfigBuilder`.
pub struct ConfigBuilderView {
    pub version: Option<u64>,
    pub querent_id: Option<Seq<char>>,
    pub querent_name: Option<Seq<char>>,
    pub workflow: Option<WorkflowConfig>,
    pub collectors: Option<Seq<CollectorConfigView>>,
    pub engines: Option<Seq<EngineConfigView>>,
    pub resource: Option<Option<ResourceConfigView>>,
    pub has_event_handler: bool,
    pub has_channel_handler: bool,
    pub has_event_sender: bool,
}

/// The configuration that `build` makes of what has been set.
pub open spec fn built_config(b: ConfigBuilderView) -> ConfigView {
    ConfigView {
        version: match b.version {
            Some(v) => v,
            None => DEFAULT_VERSION,
        },
        querent_id: match b.querent_id {
            Some(s) => s,
            None => "querent"@,
        },
        querent_name: match b.querent_name {
            Some(s) => s,
            None => "Querent"@,
        },
        workflow: match b.workflow {
            Some(w) => w@,
            None => default_workflow_config(true),
        },
        collectors: match b.collectors {
            Some(c) => c,
            None => Seq::empty(),
        },
        engines: match b.engines {
            Some(e) => e,
            None => Seq::empty(),
        },
        resource: match b.resource {
            Some(r) => r,
            None => None,
        },
    }
}

impl View for ConfigBuilder {
    type V = ConfigBuilderView;

    closed spec fn view(&self) -> ConfigBuilderView {
        ConfigBuilderView {
            version: self.version,
            querent_id: match self.querent_id {
                Some(s) => Some(s@),
                None => None,
            },
            querent_name: match self.querent_name {
                Some(s) => Some(s@),
                None => None,
            },
            workflow: self.workflow,
            collectors: match self.collectors {
                Some(c) => Some(Seq::new(c@.len(), |i: int| c@[i]@)),
                None => None,
            },
            engines: match self.engines {
                Some(e) => Some(Seq::new(e@.len(), |i: int| e@[i]@)),
                None => None,
            },
            resource: match self.resource {
                Some(Some(r)) => Some(Some(r@)),
                Some(None) => Some(None),
                None => None,
            },
            has_event_handler: self.event_handler is Some,
            has_channel_handler: self.channel_handler is Some,
            has_event_sender: self.event_sender is Some,
        }
    }
}

impl ConfigBuilder {
    /// A builder in which nothing is set.
    pub fn new() -> (b: Self)
        ensures
            b@ == (ConfigBuilderView {
                version: None,
                querent_id: None,
                querent_name: None,
                workflow: None,
                collectors: None,
                engines: None,
                resource: None,
                has_event_handler: false,
                has_channel_handler: false,
                has_event_sender: false,
            }),
    {
        ConfigBuilder {
            version: None,
            querent_id: None,
            querent_name: None,
            workflow: None,
            collectors: None,
            engines: None,
            resource: None,
            event_handler: None,
            channel_handler: None,
            event_sender: None,
        }
    }

    /// Sets the version, as the bit pattern of a binary64 number.
    pub fn version(self, version: u64) -> (b: Self)
        ensures
            b@ == (ConfigBuilderView { version: Some(version), ..self@ }),
    {
        let mut b = self;
        b.version = Some(version);
        b
    }

    /// Sets the id of the querent.
    pub fn querent_id(self, querent_id: String) -> (b: Self)
        ensures
            b@ == (ConfigBuilderView { querent_id: Some(querent_id@), ..self@ }),
    {
        let mut b = self;
        b.querent_id = Some(querent_id);
        b
    }

    /// Sets the name of the querent.
    pub fn querent_name(self, querent_name: String) -> (b: Self)
        ensures
            b@ == (ConfigBuilderView { querent_name: Some(querent_name@), ..self@ }),
    {
        let mut b = self;
        b.querent_name = Some(querent_name);
        b
    }

    /// Sets the workflow's configuration.
    pub fn workflow(self, workflow: WorkflowConfig) -> (b: Self)
        ensures
            b@ == (ConfigBuilderView { workflow: Some(workflow), ..self@ }),
    {
        let mut b = self;
        b.workflow = Some(workflow);
        b
    }

    /// Sets the collectors.
    pub fn collectors(self, collectors: Vec<CollectorConfig>) -> (b: Self)
        ensures
            b@ == (ConfigBuilderView {
                collectors: Some(Seq::new(collectors@.len(), |i: int| collectors@[i]@)),
                ..self@
            }),
    {
        let mut b = self;
        b.collectors = Some(collectors);
        b
    }

    /// Sets the engines.
    pub fn engines(self, engines: Vec<EngineConfig>) -> (b: Self)
        ensures
            b@ == (ConfigBuilderView {
                engines: Some(Seq::new(engines@.len(), |i: int| engines@[i]@)),
                ..self@
            }),
    {
        let mut b = self;
        b.engines = Some(engines);
        b
    }

    /// Sets the resource limits, or sets that there are none.
    pub fn resource(self, resource: Option<ResourceConfig>) -> (b: Self)
        ensures
            b@ == (ConfigBuilderView {
                resource: Some(
                    match resource {
                        Some(r) => Some(r@),
                        None => None,
                    },
                ),
                ..self@
            }),
    {
        let mut b = self;
        b.resource = Some(resource);
        b
    }

    /// Sets the sender that the default workflow configuration forwards
    /// events to.
    pub fn event_sender(self, event_sender: Sender<(EventType, EventState)>) -> (b: Self)
        ensures
            b@ == (ConfigBuilderView { has_event_sender: true, ..self@ }),
    {
        let mut b = self;
        b.event_sender = Some(event_sender);
        b
    }

    /// Keeps an event handler with the builder.
    pub fn event_handler(self, event_handler: EventHandler) -> (b: Self)
        ensures
            b@ == (ConfigBuilderView { has_event_handler: true, ..self@ }),
    {
        let mut b = self;
        b.event_handler = Some(event_handler);
        b
    }

    /// Keeps a channel handler with the builder.
    pub fn channel_handler(self, channel_handler: ChannelHandler) -> (b: Self)
        ensures
            b@ == (ConfigBuilderView { has_channel_handler: true, ..self@ }),
    {
        let mut b = self;
        b.channel_handler = Some(channel_handler);
        b
    }

    /// The configuration of what has been set. Where no workflow
    /// configuration was set, the default one gets an event handler that
    /// forwards to the event sender, if one was set, and to nobody otherwise.
    pub fn build(self) -> (c: Config)
        ensures
            c@ == built_config(self@),
            self@.workflow matches Some(w) ==> c.workflow == w,
            self@.workflow is None ==> (c.workflow.inner_event_handler matches Some(h)
                && h.registered() == self@.has_event_sender),
    {
        let ghost before = self@;
        let ConfigBuilder {
            version,
            querent_id,
            querent_name,
            workflow,
            collectors,
            engines,
            resource,
            event_handler: _,
            channel_handler: _,
            event_sender,
        } = self;
        let c = Config {
            version: match version {
                Some(v) => v,
                None => DEFAULT_VERSION,
            },
            querent_id: match querent_id {
                Some(s) => s,
                None => String::from_str("querent"),
            },
            querent_name: match querent_name {
                Some(s) => s,
                None => String::from_str("Querent"),
            },
            workflow: match workflow {
                Some(w) => w,
                None => WorkflowConfig {
                    name: String::from_str("workflow"),
                    id: String::from_str("workflow"),
                    config: Vec::new(),
                    inner_channel: None,
                    channel: None,
                    inner_event_handler: Some(EventHandler::new(event_sender)),
                    event_handler: None,
                    inner_tokens_feader: None,
                    tokens_feader: None,
                },
            },
            collectors: match collectors {
                Some(v) => v,
                None => Vec::new(),
            },
            engines: match engines {
                Some(v) => v,
                None => Vec::new(),
            },
            resource: match resource {
                Some(r) => r,
                None => None,
            },
        };
        proof {
            assert(c@.collectors =~= built_config(before).collectors);
            assert(c@.engines =~= built_config(before).engines);
            assert(c@.workflow.config =~= built_config(before).workflow.config);
        }
        c
    }
}

} // verus!
