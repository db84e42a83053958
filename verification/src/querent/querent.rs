use crate::querent::errors::QuerentError;
use crate::querent::workflow::workflow::{
    is_start_result, request_of, CallRequest, DuplicateIdError, StartOutcome, StartSession,
    StartSessionView, Workflow, WorkflowManager, WorkflowView,
};
use vstd::prelude::*;

verus! {

/// The front door of the library: a registry of workflows and what it takes
/// to start them.
#[derive(Debug)]
pub struct Querent {
    manager: WorkflowManager,
}

impl View for Querent {
    type V = Map<Seq<char>, WorkflowView>;

    closed spec fn view(&self) -> Map<Seq<char>, WorkflowView> {
        self.manager@
    }
}

impl Querent {
    /// The ids in the order in which the workflows were added.
    pub closed spec fn ids(self) -> Seq<Seq<char>> {
        self.manager.ids()
    }

    /// A querent without workflows.
    pub fn new() -> (q: Self)
        ensures
            q@ == Map::<Seq<char>, WorkflowView>::empty(),
            q.ids() == Seq::<Seq<char>>::empty(),
    {
        Querent { manager: WorkflowManager::new() }
    }

    /// Adds a workflow; one whose id is taken is refused and nothing
    /// changes.
    pub fn add_workflow(&mut self, workflow: Workflow) -> (r: Result<(), DuplicateIdError>)
        ensures
            old(self)@.contains_key(workflow.id@) ==> (r matches Err(e) && e.id@ == workflow.id@)
                && final(self)@ == old(self)@ && final(self).ids() == old(self).ids(),
            !old(self)@.contains_key(workflow.id@) ==> r is Ok && final(self)@ == old(self)@.insert(
                workflow.id@,
                workflow@,
            ) && final(self).ids() == old(self).ids().push(workflow.id@),
    {
        self.manager.add_workflow(workflow)
    }

    /// Copies of all workflows, in the order of `ids`.
    pub fn get_workflows(&self) -> (r: Vec<Workflow>)
        ensures
            r@.len() == self.ids().len(),
            forall|i: int|
                0 <= i < r@.len() ==> (#[trigger] r@[i]).id@ == self.ids()[i] && self@.contains_key(
                    self.ids()[i],
                ) && r@[i]@ == self@[self.ids()[i]],
    {
        self.manager.get_workflows()
    }

    /// One call request for each workflow, in the order of `ids`.
    pub fn call_requests(&self) -> (r: Vec<CallRequest>)
        ensures
            r@.len() == self.ids().len(),
            forall|i: int|
                0 <= i < r@.len() ==> self@.contains_key(self.ids()[i]) && (#[trigger] r@[i])@
                    == request_of(self@[self.ids()[i]]),
    {
        self.manager.call_requests()
    }

    /// The course of a start of the workflows: one request for each, none
    /// on the queue yet.
    pub fn start_session(&self) -> (s: StartSession)
        ensures
            s@ == (StartSessionView {
                total: self.ids().len() as int,
                submitted: 0,
                outcomes: Seq::empty(),
            }),
    {
        self.manager.start_session()
    }

    /// The result of starting the workflows, given what became of each
    /// start: outcomes that are not those of the workflows give an internal
    /// error; otherwise the first outcome that is not a completion decides.
    pub fn start_workflows(&self, outcomes: Vec<StartOutcome>) -> (r: Result<(), QuerentError>)
        ensures
            is_start_result(self.ids().len() as int, outcomes@, r),
            r is Ok ==> outcomes@.len() == self.ids().len() && forall|i: int|
                0 <= i < outcomes@.len() ==> (#[trigger] outcomes@[i]) is Completed,
    {
        self.manager.start_workflows(outcomes)
    }
}

} // verus!
