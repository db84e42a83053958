use crate::callbacks::interface::EventHandler;
use crate::comm::channel::ChannelHandler;
use crate::cross::clrepr::PythonRef;
use crate::cross::clrepr_python::{model_of, PyModel, PyValue};
use vstd::prelude::*;
use vstd::string::StringExecFns;

verus! {

/// The version that a configuration has when none is given: the number 0.1
/// in single precision, as the IEEE 754 binary64 bit pattern that the
/// embedded side sees.
pub const DEFAULT_VERSION: u64 = 0x3FB9_9999_A000_0000;

/// Limits on the workers that may run.
#[derive(Debug)]
pub struct ResourceConfig {
    pub id: String,
    pub max_workers_allowed: Option<u32>,
    pub max_workers_per_collector: Option<u32>,
    pub max_workers_per_engine: Option<u32>,
    pub max_workers_per_querent: Option<u32>,
}

/// The configuration of one engine. `channel` is the handle of the message
/// interface that the embedded side uses, once one was made for
/// `inner_channel`.
#[derive(Debug)]
pub struct EngineConfig {
    pub id: String,
    pub name: String,
    pub num_workers: Option<u32>,
    pub max_retries: Option<u32>,
    pub retry_interval: Option<u32>,
    pub message_throttle_limit: Option<u32>,
    pub message_throttle_delay: Option<u32>,
    pub inner_channel: Option<ChannelHandler>,
    pub channel: Option<PythonRef>,
}

/// The configuration of one collector. `config` holds further options as
/// pairs of key and value; of two pairs with the same key the later counts.
#[derive(Debug)]
pub struct CollectorConfig {
    pub id: String,
    pub name: String,
    pub backend: String,
    pub config: Vec<(String, String)>,
    pub inner_channel: Option<ChannelHandler>,
    pub channel: Option<PythonRef>,
}

/// The configuration of the workflow itself. `channel`, `event_handler` and
/// `tokens_feader` are the handles of the interfaces that the embedded side
/// uses, once they were made for the inner handlers.
#[derive(Debug)]
pub struct WorkflowConfig {
    pub name: String,
    pub id: String,
    pub config: Vec<(String, String)>,
    pub inner_channel: Option<ChannelHandler>,
    pub channel: Option<PythonRef>,
    pub inner_event_handler: Option<EventHandler>,
    pub event_handler: Option<PythonRef>,
    pub inner_tokens_feader: Option<ChannelHandler>,
    pub tokens_feader: Option<PythonRef>,
}

/// Everything a call into the embedded runtime is told about its
/// surroundings. `version` carries the IEEE 754 binary64 bit pattern of the
/// version number.
#[derive(Debug)]
pub struct Config {
    pub version: u64,
    pub querent_id: String,
    pub querent_name: String,
    pub workflow: WorkflowConfig,
    pub collectors: Vec<CollectorConfig>,
    pub engines: Vec<EngineConfig>,
    pub resource: Option<ResourceConfig>,
}

/// The value of a `ResourceConfig`.
pub struct ResourceConfigView {
    pub id: Seq<char>,
    pub max_workers_allowed: Option<u32>,
    pub max_workers_per_collector: Option<u32>,
    pub max_workers_per_engine: Option<u32>,
    pub max_workers_per_querent: Option<u32>,
}

/// The value of an `EngineConfig`; of the inner channel only whether there
/// is one.
pub struct EngineConfigView {
    pub id: Seq<char>,
    pub name: Seq<char>,
    pub num_workers: Option<u32>,
    pub max_retries: Option<u32>,
    pub retry_interval: Option<u32>,
    pub message_throttle_limit: Option<u32>,
    pub message_throttle_delay: Option<u32>,
    pub has_inner_channel: bool,
    pub channel: Option<PythonRef>,
}

/// The value of a `CollectorConfig`; of the inner channel only whether there
/// is one.
pub struct CollectorConfigView {
    pub id: Seq<char>,
    pub name: Seq<char>,
    pub backend: Seq<char>,
    pub config: Seq<(Seq<char>, Seq<char>)>,
    pub has_inner_channel: bool,
    pub channel: Option<PythonRef>,
}

/// The value of a `WorkflowConfig`; of the inner handlers only whether they
/// are there.
pub struct WorkflowConfigView {
    pub name: Seq<char>,
    pub id: Seq<char>,
    pub config: Seq<(Seq<char>, Seq<char>)>,
    pub has_inner_channel: bool,
    pub channel: Option<PythonRef>,
    pub has_inner_event_handler: bool,
    pub event_handler: Option<PythonRef>,
    pub has_inner_tokens_feader: bool,
    pub tokens_feader: Option<PythonRef>,
}

/// The value of a `Config`.
pub struct ConfigView {
    pub version: u64,
    pub querent_id: Seq<char>,
    pub querent_name: Seq<char>,
    pub workflow: WorkflowConfigView,
    pub collectors: Seq<CollectorConfigView>,
    pub engines: Seq<EngineConfigView>,
    pub resource: Option<ResourceConfigView>,
}

/// The texts of a sequence of pairs of strings, in order.
pub open spec fn pairs_of(s: Seq<(String, String)>) -> Seq<(Seq<char>, Seq<char>)> {
    Seq::new(s.len(), |i: int| (s[i].0@, s[i].1@))
}

impl View for ResourceConfig {
    type V = ResourceConfigView;

    open spec fn view(&self) -> ResourceConfigView {
        ResourceConfigView {
            id: self.id@,
            max_workers_allowed: self.max_workers_allowed,
            max_workers_per_collector: self.max_workers_per_collector,
            max_workers_per_engine: self.max_workers_per_engine,
            max_workers_per_querent: self.max_workers_per_querent,
        }
    }
}

impl View for EngineConfig {
    type V = EngineConfigView;

    open spec fn view(&self) -> EngineConfigView {
        EngineConfigView {
            id: self.id@,
            name: self.name@,
            num_workers: self.num_workers,
            max_retries: self.max_retries,
            retry_interval: self.retry_interval,
            message_throttle_limit: self.message_throttle_limit,
            message_throttle_delay: self.message_throttle_delay,
            has_inner_channel: self.inner_channel is Some,
            channel: self.channel,
        }
    }
}

impl View for CollectorConfig {
    type V = CollectorConfigView;

    open spec fn view(&self) -> CollectorConfigView {
        CollectorConfigView {
            id: self.id@,
            name: self.name@,
            backend: self.backend@,
            config: pairs_of(self.config@),
            has_inner_channel: self.inner_channel is Some,
            channel: self.channel,
        }
    }
}

impl View for WorkflowConfig {
    type V = WorkflowConfigView;

    open spec fn view(&self) -> WorkflowConfigView {
        WorkflowConfigView {
            name: self.name@,
            id: self.id@,
            config: pairs_of(self.config@),
            has_inner_channel: self.inner_channel is Some,
            channel: self.channel,
            has_inner_event_handler: self.inner_event_handler is Some,
            event_handler: self.event_handler,
            has_inner_tokens_feader: self.inner_tokens_feader is Some,
            tokens_feader: self.tokens_feader,
        }
    }
}

impl View for Config {
    type V = ConfigView;

    open spec fn view(&self) -> ConfigView {
        ConfigView {
            version: self.version,
            querent_id: self.querent_id@,
            querent_name: self.querent_name@,
            workflow: self.workflow@,
            collectors: Seq::new(self.collectors@.len(), |i: int| self.collectors@[i]@),
            engines: Seq::new(self.engines@.len(), |i: int| self.engines@[i]@),
            resource: match self.resource {
                Some(r) => Some(r@),
                None => None,
            },
        }
    }
}

/// A count that may be absent, as the embedded side sees it.
pub open spec fn optional_count_model(v: Option<u32>) -> PyModel {
    match v {
        Some(n) => PyModel::Int(n as i64),
        None => PyModel::NoneValue,
    }
}

/// Options as the embedded side sees them: a dictionary from text to text,
/// with one item for each pair, in order.
pub open spec fn pairs_model(pairs: Seq<(Seq<char>, Seq<char>)>) -> PyModel {
    PyModel::Dict(Seq::new(pairs.len(), |i: int| (PyModel::Str(pairs[i].0), PyModel::Str(pairs[i].1))))
}

/// The item that shows an interface to the embedded side, where a handle to
/// one is there.
pub open spec fn handle_items(key: Seq<char>, handle: Option<PythonRef>) -> Seq<(PyModel, PyModel)> {
    match handle {
        Some(h) => seq![(PyModel::Str(key), PyModel::Object(h))],
        None => Seq::empty(),
    }
}

/// The dictionary that shows resource limits to the embedded side.
pub open spec fn resource_config_model(r: ResourceConfigView) -> PyModel {
    PyModel::Dict(
        seq![
            (PyModel::Str("id"@), PyModel::Str(r.id)),
            (PyModel::Str("max_workers_allowed"@), optional_count_model(r.max_workers_allowed)),
            (
                PyModel::Str("max_workers_per_collector"@),
                optional_count_model(r.max_workers_per_collector),
            ),
            (
                PyModel::Str("max_workers_per_engine"@),
                optional_count_model(r.max_workers_per_engine),
            ),
            (
                PyModel::Str("max_workers_per_querent"@),
                optional_count_model(r.max_workers_per_querent),
            ),
        ],
    )
}

/// The dictionary that shows an engine to the embedded side; `channel` is
/// there when a handle to the message interface is.
pub open spec fn engine_config_model(e: EngineConfigView) -> PyModel {
    PyModel::Dict(
        seq![
            (PyModel::Str("id"@), PyModel::Str(e.id)),
            (PyModel::Str("name"@), PyModel::Str(e.name)),
            (PyModel::Str("num_workers"@), optional_count_model(e.num_workers)),
            (PyModel::Str("max_retries"@), optional_count_model(e.max_retries)),
            (PyModel::Str("retry_interval"@), optional_count_model(e.retry_interval)),
            (PyModel::Str("message_throttle_limit"@), optional_count_model(e.message_throttle_limit)),
            (PyModel::Str("message_throttle_delay"@), optional_count_model(e.message_throttle_delay)),
        ] + handle_items("channel"@, e.channel),
    )
}

/// The dictionary that shows a collector to the embedded side; `channel` is
/// there when a handle to the message interface is.
pub open spec fn collector_config_model(c: CollectorConfigView) -> PyModel {
    PyModel::Dict(
        seq![
            (PyModel::Str("id"@), PyModel::Str(c.id)),
            (PyModel::Str("name"@), PyModel::Str(c.name)),
            (PyModel::Str("backend"@), PyModel::Str(c.backend)),
            (PyModel::Str("config"@), pairs_model(c.config)),
        ] + handle_items("channel"@, c.channel),
    )
}

/// The dictionary that shows the workflow's configuration to the embedded
/// side; `channel`, `event_handler` and `tokens_feader` are there when the
/// handles are, in that order.
pub open spec fn workflow_config_model(w: WorkflowConfigView) -> PyModel {
    PyModel::Dict(
        seq![
            (PyModel::Str("name"@), PyModel::Str(w.name)),
            (PyModel::Str("id"@), PyModel::Str(w.id)),
            (PyModel::Str("config"@), pairs_model(w.config)),
        ] + handle_items("channel"@, w.channel) + handle_items("event_handler"@, w.event_handler)
            + handle_items("tokens_feader"@, w.tokens_feader),
    )
}

/// The dictionary that shows a configuration to the embedded side.
pub open spec fn config_model(c: ConfigView) -> PyModel {
    PyModel::Dict(
        seq![
            (PyModel::Str("version"@), PyModel::Float(c.version)),
            (PyModel::Str("querent_id"@), PyModel::Str(c.querent_id)),
            (PyModel::Str("querent_name"@), PyModel::Str(c.querent_name)),
            (PyModel::Str("workflow"@), workflow_config_model(c.workflow)),
            (
                PyModel::Str("collectors"@),
                PyModel::List(
                    Seq::new(c.collectors.len(), |i: int| collector_config_model(c.collectors[i])),
                ),
            ),
            (
                PyModel::Str("engines"@),
                PyModel::List(Seq::new(c.engines.len(), |i: int| engine_config_model(c.engines[i]))),
            ),
            (
                PyModel::Str("resource"@),
                match c.resource {
                    Some(r) => resource_config_model(r),
                    None => PyModel::NoneValue,
                },
            ),
        ],
    )
}

/// The model of a dictionary is that of its items, place by place.
pub proof fn lemma_dict_model(items: Seq<(PyValue, PyValue)>, p: PyValue)
    requires
        p matches PyValue::Dict(v) && v@ == items,
    ensures
        p@ == PyModel::Dict(Seq::new(items.len(), |i: int| (items[i].0@, items[i].1@))),
{
    assert(p@->Dict_0 =~= Seq::new(items.len(), |i: int| (items[i].0@, items[i].1@)));
}

/// The model of a list is that of its elements, place by place.
pub proof fn lemma_list_model(xs: Seq<PyValue>, p: PyValue)
    requires
        p matches PyValue::List(v) && v@ == xs,
    ensures
        p@ == PyModel::List(Seq::new(xs.len(), |i: int| xs[i]@)),
{
    assert(p@->List_0 =~= Seq::new(xs.len(), |i: int| xs[i]@));
}

/// A plain text.
fn text(s: &str) -> (p: PyValue)
    ensures
        p@ == PyModel::Str(s@),
{
    PyValue::Str(String::from_str(s))
}

/// A count that may be absent.
fn optional_count(v: Option<u32>) -> (p: PyValue)
    ensures
        p@ == optional_count_model(v),
{
    match v {
        Some(n) => PyValue::Int(n as i64),
        None => PyValue::NoneValue,
    }
}

/// A dictionary from text to text with one item for each pair.
fn pairs(v: &Vec<(String, String)>) -> (p: PyValue)
    ensures
        p@ == pairs_model(pairs_of(v@)),
{
    let mut items: Vec<(PyValue, PyValue)> = Vec::new();
    let mut i: usize = 0;
    while i < v.len()
        invariant
            i <= v.len(),
            items@.len() == i,
            forall|j: int|
                0 <= j < i ==> (#[trigger] items@[j]).0@ == PyModel::Str(v@[j].0@) && items@[j].1@
                    == PyModel::Str(v@[j].1@),
        decreases v.len() - i,
    {
        items.push((PyValue::Str(v[i].0.clone()), PyValue::Str(v[i].1.clone())));
        i += 1;
    }
    let p = PyValue::Dict(items);
    proof {
        lemma_dict_model(items@, p);
        assert(p@->Dict_0 =~= pairs_model(pairs_of(v@))->Dict_0);
    }
    p
}

/// Appends the item that shows an interface, where a handle to one is there.
fn push_handle(items: &mut Vec<(PyValue, PyValue)>, key: &str, handle: Option<PythonRef>)
    ensures
        final(items)@.len() == old(items)@.len() + handle_items(key@, handle).len(),
        forall|i: int| 0 <= i < old(items)@.len() ==> final(items)@[i] == old(items)@[i],
        handle matches Some(h) ==> final(items)@[old(items)@.len() as int].0@ == PyModel::Str(key@)
            && final(items)@[old(items)@.len() as int].1@ == PyModel::Object(h),
{
    match handle {
        Some(h) => {
            items.push((text(key), PyValue::Object(h)));
        },
        None => {},
    }
}

/// A copy of each pair, in order.
fn clone_pairs(v: &Vec<(String, String)>) -> (r: Vec<(String, String)>)
    ensures
        pairs_of(r@) == pairs_of(v@),
{
    let mut out: Vec<(String, String)> = Vec::new();
    let mut i: usize = 0;
    while i < v.len()
        invariant
            i <= v.len(),
            out@.len() == i,
            forall|j: int|
                0 <= j < i ==> (#[trigger] out@[j]).0@ == v@[j].0@ && out@[j].1@ == v@[j].1@,
        decreases v.len() - i,
    {
        out.push((v[i].0.clone(), v[i].1.clone()));
        i += 1;
    }
    assert(pairs_of(out@) =~= pairs_of(v@));
    out
}

/// Another handler on the same queues, where there is one.
fn clone_channel(c: &Option<ChannelHandler>) -> (r: Option<ChannelHandler>)
    ensures
        r is Some <==> c is Some,
{
    match c {
        Some(h) => Some(h.clone()),
        None => None,
    }
}

impl Clone for ResourceConfig {
    fn clone(&self) -> (r: Self)
        ensures
            r@ == self@,
    {
        ResourceConfig {
            id: self.id.clone(),
            max_workers_allowed: self.max_workers_allowed,
            max_workers_per_collector: self.max_workers_per_collector,
            max_workers_per_engine: self.max_workers_per_engine,
            max_workers_per_querent: self.max_workers_per_querent,
        }
    }
}

impl Clone for EngineConfig {
    fn clone(&self) -> (r: Self)
        ensures
            r@ == self@,
    {
        EngineConfig {
            id: self.id.clone(),
            name: self.name.clone(),
            num_workers: self.num_workers,
            max_retries: self.max_retries,
            retry_interval: self.retry_interval,
            message_throttle_limit: self.message_throttle_limit,
            message_throttle_delay: self.message_throttle_delay,
            inner_channel: clone_channel(&self.inner_channel),
            channel: self.channel,
        }
    }
}

impl Clone for CollectorConfig {
    fn clone(&self) -> (r: Self)
        ensures
            r@ == self@,
    {
        CollectorConfig {
            id: self.id.clone(),
            name: self.name.clone(),
            backend: self.backend.clone(),
            config: clone_pairs(&self.config),
            inner_channel: clone_channel(&self.inner_channel),
            channel: self.channel,
        }
    }
}

impl Clone for WorkflowConfig {
    fn clone(&self) -> (r: Self)
        ensures
            r@ == self@,
    {
        WorkflowConfig {
            name: self.name.clone(),
            id: self.id.clone(),
            config: clone_pairs(&self.config),
            inner_channel: clone_channel(&self.inner_channel),
            channel: self.channel,
            inner_event_handler: match &self.inner_event_handler {
                Some(h) => Some(h.clone()),
                None => None,
            },
            event_handler: self.event_handler,
            inner_tokens_feader: clone_channel(&self.inner_tokens_feader),
            tokens_feader: self.tokens_feader,
        }
    }
}

/// A copy of each collector, in order.
fn clone_collectors(v: &Vec<CollectorConfig>) -> (r: Vec<CollectorConfig>)
    ensures
        r@.len() == v@.len(),
        forall|i: int| 0 <= i < v@.len() ==> (#[trigger] r@[i])@ == v@[i]@,
{
    let mut out: Vec<CollectorConfig> = Vec::new();
    let mut i: usize = 0;
    while i < v.len()
        invariant
            i <= v.len(),
            out@.len() == i,
            forall|j: int| 0 <= j < i ==> (#[trigger] out@[j])@ == v@[j]@,
        decreases v.len() - i,
    {
        out.push(v[i].clone());
        i += 1;
    }
    out
}

/// A copy of each engine, in order.
fn clone_engines(v: &Vec<EngineConfig>) -> (r: Vec<EngineConfig>)
    ensures
        r@.len() == v@.len(),
        forall|i: int| 0 <= i < v@.len() ==> (#[trigger] r@[i])@ == v@[i]@,
{
    let mut out: Vec<EngineConfig> = Vec::new();
    let mut i: usize = 0;
    while i < v.len()
        invariant
            i <= v.len(),
            out@.len() == i,
            forall|j: int| 0 <= j < i ==> (#[trigger] out@[j])@ == v@[j]@,
        decreases v.len() - i,
    {
        out.push(v[i].clone());
        i += 1;
    }
    out
}

impl Clone for Config {
    /// A copy with the same value; its handlers share the queues of this
    /// one's.
    fn clone(&self) -> (r: Self)
        ensures
            r@ == self@,
    {
        let collectors = clone_collectors(&self.collectors);
        let engines = clone_engines(&self.engines);
        let r = Config {
            version: self.version,
            querent_id: self.querent_id.clone(),
            querent_name: self.querent_name.clone(),
            workflow: self.workflow.clone(),
            collectors,
            engines,
            resource: match &self.resource {
                Some(x) => Some(x.clone()),
                None => None,
            },
        };
        assert(r@.collectors =~= self@.collectors);
        assert(r@.engines =~= self@.engines);
        r
    }
}

impl ResourceConfig {
    /// The resource limits as the embedded side sees them.
    pub fn to_object(&self) -> (p: PyValue)
        ensures
            p@ == resource_config_model(self@),
    {
        let mut items: Vec<(PyValue, PyValue)> = Vec::new();
        items.push((text("id"), PyValue::Str(self.id.clone())));
        items.push((text("max_workers_allowed"), optional_count(self.max_workers_allowed)));
        items.push(
            (text("max_workers_per_collector"), optional_count(self.max_workers_per_collector)),
        );
        items.push((text("max_workers_per_engine"), optional_count(self.max_workers_per_engine)));
        items.push((text("max_workers_per_querent"), optional_count(self.max_workers_per_querent)));
        let p = PyValue::Dict(items);
        proof {
            lemma_dict_model(items@, p);
            assert(p@->Dict_0 =~= resource_config_model(self@)->Dict_0);
        }
        p
    }
}

impl EngineConfig {
    /// The engine's configuration as the embedded side sees it.
    pub fn to_object(&self) -> (p: PyValue)
        ensures
            p@ == engine_config_model(self@),
    {
        let mut items: Vec<(PyValue, PyValue)> = Vec::new();
        items.push((text("id"), PyValue::Str(self.id.clone())));
        items.push((text("name"), PyValue::Str(self.name.clone())));
        items.push((text("num_workers"), optional_count(self.num_workers)));
        items.push((text("max_retries"), optional_count(self.max_retries)));
        items.push((text("retry_interval"), optional_count(self.retry_interval)));
        items.push((text("message_throttle_limit"), optional_count(self.message_throttle_limit)));
        items.push((text("message_throttle_delay"), optional_count(self.message_throttle_delay)));
        push_handle(&mut items, "channel", self.channel);
        let p = PyValue::Dict(items);
        proof {
            lemma_dict_model(items@, p);
            assert(p@->Dict_0 =~= engine_config_model(self@)->Dict_0);
        }
        p
    }
}

impl CollectorConfig {
    /// The collector's configuration as the embedded side sees it.
    pub fn to_object(&self) -> (p: PyValue)
        ensures
            p@ == collector_config_model(self@),
    {
        let mut items: Vec<(PyValue, PyValue)> = Vec::new();
        items.push((text("id"), PyValue::Str(self.id.clone())));
        items.push((text("name"), PyValue::Str(self.name.clone())));
        items.push((text("backend"), PyValue::Str(self.backend.clone())));
        items.push((text("config"), pairs(&self.config)));
        push_handle(&mut items, "channel", self.channel);
        let p = PyValue::Dict(items);
        proof {
            lemma_dict_model(items@, p);
            assert(p@->Dict_0 =~= collector_config_model(self@)->Dict_0);
        }
        p
    }
}

impl WorkflowConfig {
    /// The workflow's configuration as the embedded side sees it.
    pub fn to_object(&self) -> (p: PyValue)
        ensures
            p@ == workflow_config_model(self@),
    {
        let mut items: Vec<(PyValue, PyValue)> = Vec::new();
        items.push((text("name"), PyValue::Str(self.name.clone())));
        items.push((text("id"), PyValue::Str(self.id.clone())));
        items.push((text("config"), pairs(&self.config)));
        push_handle(&mut items, "channel", self.channel);
        push_handle(&mut items, "event_handler", self.event_handler);
        push_handle(&mut items, "tokens_feader", self.tokens_feader);
        let p = PyValue::Dict(items);
        proof {
            lemma_dict_model(items@, p);
            assert(p@->Dict_0 =~= workflow_config_model(self@)->Dict_0);
        }
        p
    }
}

/// One dictionary for each collector, in order.
fn collectors_list(v: &Vec<CollectorConfig>) -> (p: PyValue)
    ensures
        p@ == PyModel::List(Seq::new(v@.len(), |i: int| collector_config_model(v@[i]@))),
{
    let mut out: Vec<PyValue> = Vec::new();
    let mut i: usize = 0;
    while i < v.len()
        invariant
            i <= v.len(),
            out@.len() == i,
            forall|j: int| 0 <= j < i ==> (#[trigger] out@[j])@ == collector_config_model(v@[j]@),
        decreases v.len() - i,
    {
        out.push(v[i].to_object());
        i += 1;
    }
    let p = PyValue::List(out);
    proof {
        lemma_list_model(out@, p);
        assert(p@->List_0 =~= Seq::new(v@.len(), |i: int| collector_config_model(v@[i]@)));
    }
    p
}

/// One dictionary for each engine, in order.
fn engines_list(v: &Vec<EngineConfig>) -> (p: PyValue)
    ensures
        p@ == PyModel::List(Seq::new(v@.len(), |i: int| engine_config_model(v@[i]@))),
{
    let mut out: Vec<PyValue> = Vec::new();
    let mut i: usize = 0;
    while i < v.len()
        invariant
            i <= v.len(),
            out@.len() == i,
            forall|j: int| 0 <= j < i ==> (#[trigger] out@[j])@ == engine_config_model(v@[j]@),
        decreases v.len() - i,
    {
        out.push(v[i].to_object());
        i += 1;
    }
    let p = PyValue::List(out);
    proof {
        lemma_list_model(out@, p);
        assert(p@->List_0 =~= Seq::new(v@.len(), |i: int| engine_config_model(v@[i]@)));
    }
    p
}

impl Config {
    /// A configuration of the parts given.
    pub fn new(
        version: u64,
        querent_id: String,
        querent_name: String,
        workflow: WorkflowConfig,
        collectors: Vec<CollectorConfig>,
        engines: Vec<EngineConfig>,
        resource: Option<ResourceConfig>,
    ) -> (c: Self)
        ensures
            c.version == version,
            c.querent_id == querent_id,
            c.querent_name == querent_name,
            c.workflow == workflow,
            c.collectors == collectors,
            c.engines == engines,
            c.resource == resource,
    {
        Config { version, querent_id, querent_name, workflow, collectors, engines, resource }
    }

    /// The configuration as the embedded side sees it: a dictionary with the
    /// items `version`, `querent_id`, `querent_name`, `workflow`,
    /// `collectors`, `engines` and `resource`.
    pub fn to_object(&self) -> (p: PyValue)
        ensures
            p@ == config_model(self@),
    {
        let resource = match &self.resource {
            Some(r) => r.to_object(),
            None => PyValue::NoneValue,
        };
        let mut items: Vec<(PyValue, PyValue)> = Vec::new();
        items.push((text("version"), PyValue::Float(self.version)));
        items.push((text("querent_id"), PyValue::Str(self.querent_id.clone())));
        items.push((text("querent_name"), PyValue::Str(self.querent_name.clone())));
        items.push((text("workflow"), self.workflow.to_object()));
        items.push((text("collectors"), collectors_list(&self.collectors)));
        items.push((text("engines"), engines_list(&self.engines)));
        items.push((text("resource"), resource));
        let p = PyValue::Dict(items);
        proof {
            lemma_dict_model(items@, p);
            assert(config_model(self@)->Dict_0[4].1->List_0 =~= Seq::new(
                self.collectors@.len(),
                |i: int| collector_config_model(self.collectors@[i]@),
            ));
            assert(config_model(self@)->Dict_0[5].1->List_0 =~= Seq::new(
                self.engines@.len(),
                |i: int| engine_config_model(self.engines@[i]@),
            ));
            assert(p@->Dict_0 =~= config_model(self@)->Dict_0);
        }
        p
    }
}

/// What can be shown to the embedded side as the configuration of a call.
pub trait ConfigTrait {
    fn to_object(&self) -> PyValue;
}

impl ConfigTrait for Config {
    /// The configuration as the embedded side sees it.
    fn to_object(&self) -> (p: PyValue)
        ensures
            p@ == config_model(self@),
    {
        Config::to_object(self)
    }
}

impl Default for Config {
    /// The configuration used when nothing is given: version 0.1, the names
    /// `querent`, `Querent` and `workflow`, no options, no handlers, no
    /// collectors, engines or resource limits.
    fn default() -> (c: Self)
        ensures
            c@ == default_config(),
    {
        let c = Config {
            version: DEFAULT_VERSION,
            querent_id: String::from_str("querent"),
            querent_name: String::from_str("Querent"),
            workflow: WorkflowConfig {
                name: String::from_str("workflow"),
                id: String::from_str("workflow"),
                config: Vec::new(),
                inner_channel: None,
                channel: None,
                inner_event_handler: None,
                event_handler: None,
                inner_tokens_feader: None,
                tokens_feader: None,
            },
            collectors: Vec::new(),
            engines: Vec::new(),
            resource: None,
        };
        assert(c@.collectors =~= Seq::empty());
        assert(c@.engines =~= Seq::empty());
        assert(c@.workflow.config =~= Seq::empty());
        c
    }
}

/// The workflow configuration used when none is given.
pub open spec fn default_workflow_config(has_inner_event_handler: bool) -> WorkflowConfigView {
    WorkflowConfigView {
        name: "workflow"@,
        id: "workflow"@,
        config: Seq::empty(),
        has_inner_channel: false,
        channel: None,
        has_inner_event_handler,
        event_handler: None,
        has_inner_tokens_feader: false,
        tokens_feader: None,
    }
}

/// The value of the default configuration.
pub open spec fn default_config() -> ConfigView {
    ConfigView {
        version: DEFAULT_VERSION,
        querent_id: "querent"@,
        querent_name: "Querent"@,
        workflow: default_workflow_config(false),
        collectors: Seq::empty(),
        engines: Seq::empty(),
        resource: None,
    }
}

} // verus!
