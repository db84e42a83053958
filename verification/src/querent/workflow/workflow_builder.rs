use crate::config::config::Config;
use crate::cross::clrepr::{lemma_values_of_push, values_of, CLRepr, CLValue};
use crate::querent::workflow::workflow::{Workflow, WorkflowView};
use vstd::prelude::*;
use vstd::string::StringExecFns;

verus! {

/// Collects the parts of a `Workflow`; only the id is required.
#[derive(Debug)]
pub struct WorkflowBuilder {
    name: Option<String>,
    id: String,
    import: Option<String>,
    attr: Option<String>,
    code: Option<String>,
    arguments: Vec<CLRepr>,
    config: Option<Config>,
}

/// What has been set in a `WorkflowBuilder`.
pub struct WorkflowBuilderView {
    pub name: Option<Seq<char>>,
    pub id: Seq<char>,
    pub import: Option<Seq<char>>,
    pub attr: Option<Seq<char>>,
    pub code: Option<Seq<char>>,
    pub arguments: Seq<CLValue>,
    pub config: Option<Config>,
}

/// The text of a string that may be absent.
pub open spec fn optional_text(s: Option<String>) -> Option<Seq<char>> {
    match s {
        Some(t) => Some(t@),
        None => None,
    }
}

/// The workflow that `build` makes of what has been set: the name defaults
/// to the id, the module and the attribute to the empty text.
pub open spec fn built_workflow(b: WorkflowBuilderView) -> WorkflowView {
    WorkflowView {
        name: match b.name {
            Some(n) => n,
            None => b.id,
        },
        id: b.id,
        import: match b.import {
            Some(i) => i,
            None => Seq::empty(),
        },
        attr: match b.attr {
            Some(a) => a,
            None => Seq::empty(),
        },
        code: b.code,
        arguments: b.arguments,
        config: match b.config {
            Some(c) => Some(c@),
            None => None,
        },
    }
}

impl View for WorkflowBuilder {
    type V = WorkflowBuilderView;

    closed spec fn view(&self) -> WorkflowBuilderView {
        WorkflowBuilderView {
            name: optional_text(self.name),
            id: self.id@,
            import: optional_text(self.import),
            attr: optional_text(self.attr),
            code: optional_text(self.code),
            arguments: values_of(self.arguments@),
            config: self.config,
        }
    }
}

impl WorkflowBuilder {
    /// A builder for the workflow with the given id; nothing else is set.
    pub fn new(id: &str) -> (b: Self)
        ensures
            b@ == (WorkflowBuilderView {
                name: None,
                id: id@,
                import: None,
                attr: None,
                code: None,
                arguments: Seq::empty(),
                config: None,
            }),
    {
        WorkflowBuilder {
            name: None,
            id: String::from_str(id),
            import: None,
            attr: None,
            code: None,
            arguments: Vec::new(),
            config: None,
        }
    }

    /// A builder in which everything is set as in the workflow given.
    pub fn from_workflow(workflow: Workflow) -> (b: Self)
        ensures
            b@ == (WorkflowBuilderView {
                name: Some(workflow.name@),
                id: workflow.id@,
                import: Some(workflow.import@),
                attr: Some(workflow.attr@),
                code: optional_text(workflow.code),
                arguments: values_of(workflow.arguments@),
                config: workflow.config,
            }),
            built_workflow(b@) == workflow@,
    {
        WorkflowBuilder {
            name: Some(workflow.name),
            id: workflow.id,
            import: Some(workflow.import),
            attr: Some(workflow.attr),
            code: workflow.code,
            arguments: workflow.arguments,
            config: workflow.config,
        }
    }

    /// Sets the name.
    pub fn name(self, name: &str) -> (b: Self)
        ensures
            b@ == (WorkflowBuilderView { name: Some(name@), ..self@ }),
    {
        let mut b = self;
        b.name = Some(String::from_str(name));
        b
    }

    /// Sets or clears the module to import.
    pub fn import(self, import: Option<String>) -> (b: Self)
        ensures
            b@ == (WorkflowBuilderView { import: optional_text(import), ..self@ }),
    {
        let mut b = self;
        b.import = import;
        b
    }

    /// Sets or clears the attribute that names the callable.
    pub fn attr(self, attr: Option<String>) -> (b: Self)
        ensures
            b@ == (WorkflowBuilderView { attr: optional_text(attr), ..self@ }),
    {
        let mut b = self;
        b.attr = attr;
        b
    }

    /// Sets or clears the inline source.
    pub fn code(self, code: Option<String>) -> (b: Self)
        ensures
            b@ == (WorkflowBuilderView { code: optional_text(code), ..self@ }),
    {
        let mut b = self;
        b.code = code;
        b
    }

    /// Replaces the arguments.
    pub fn arguments(self, arguments: Vec<CLRepr>) -> (b: Self)
        ensures
            b@ == (WorkflowBuilderView { arguments: values_of(arguments@), ..self@ }),
    {
        let mut b = self;
        b.arguments = arguments;
        b
    }

    /// Appends one argument.
    pub fn add_argument(self, argument: CLRepr) -> (b: Self)
        ensures
            b@ == (WorkflowBuilderView { arguments: self@.arguments.push(argument@), ..self@ }),
    {
        let mut b = self;
        proof {
            lemma_values_of_push(b.arguments@, argument);
        }
        b.arguments.push(argument);
        b
    }

    /// Sets the configuration.
    pub fn config(self, config: Config) -> (b: Self)
        ensures
            b@ == (WorkflowBuilderView { config: Some(config), ..self@ }),
    {
        let mut b = self;
        b.config = Some(config);
        b
    }

    /// The workflow of what has been set.
    pub fn build(self) -> (w: Workflow)
        ensures
            w@ == built_workflow(self@),
            w.config == self@.config,
    {
        let WorkflowBuilder { name, id, import, attr, code, arguments, config } = self;
        Workflow {
            name: match name {
                Some(n) => n,
                None => id.clone(),
            },
            id,
            import: match import {
                Some(i) => i,
                None => String::new(),
            },
            attr: match attr {
                Some(a) => a,
                None => String::new(),
            },
            code,
            arguments,
            config,
        }
    }
}

} // verus!
