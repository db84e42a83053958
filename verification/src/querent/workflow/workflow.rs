use crate::config::config::{config_model, Config, ConfigView};
use crate::cross::clrepr::{clone_values, values_of, CLRepr, CLValue};
use crate::cross::clrepr_python::{PyModel, PyValue};
use crate::querent::errors::{
    CallFailure, CallFailureView, ErrorKind, QuerentError, QuerentErrorCauseType,
};
use crate::util::assoc::{
    assoc_distinct, assoc_has, assoc_map, lemma_assoc_dom, lemma_assoc_index, lemma_assoc_len,
    lemma_assoc_push, lemma_assoc_remove,
};
use vstd::prelude::*;
use vstd::string::StringExecFns;

verus! {

/// A unit of work: a callable of the embedded runtime, named by `attr` in
/// the module `import` or in the inline source `code`, with its arguments
/// and an optional configuration.
#[derive(Debug)]
pub struct Workflow {
    pub name: String,
    pub id: String,
    pub import: String,
    pub attr: String,
    pub code: Option<String>,
    pub arguments: Vec<CLRepr>,
    pub config: Option<Config>,
}

/// The value of a `Workflow`.
pub struct WorkflowView {
    pub name: Seq<char>,
    pub id: Seq<char>,
    pub import: Seq<char>,
    pub attr: Seq<char>,
    pub code: Option<Seq<char>>,
    pub arguments: Seq<CLValue>,
    pub config: Option<ConfigView>,
}

impl View for Workflow {
    type V = WorkflowView;

    open spec fn view(&self) -> WorkflowView {
        WorkflowView {
            name: self.name@,
            id: self.id@,
            import: self.import@,
            attr: self.attr@,
            code: match self.code {
                Some(c) => Some(c@),
                None => None,
            },
            arguments: values_of(self.arguments@),
            config: match self.config {
                Some(c) => Some(c@),
                None => None,
            },
        }
    }
}

impl Clone for Workflow {
    fn clone(&self) -> (r: Self)
        ensures
            r@ == self@,
    {
        Workflow {
            name: self.name.clone(),
            id: self.id.clone(),
            import: self.import.clone(),
            attr: self.attr.clone(),
            code: match &self.code {
                Some(c) => Some(c.clone()),
                None => None,
            },
            arguments: clone_values(&self.arguments),
            config: match &self.config {
                Some(c) => Some(c.clone()),
                None => None,
            },
        }
    }
}

/// Where the callable of a call is found.
#[derive(Debug)]
pub enum CallableDescriptor {
    /// The attribute `attr` of the module `module`, which is imported.
    Import { module: String, attr: String },
    /// The attribute `attr` of a module compiled from `source`. The module
    /// is named `module`, which is the id of the workflow, so that the
    /// modules of two workflows never collide or shadow one another; `file`
    /// names the source and is unique to the workflow too.
    Inline { source: String, file: String, module: String, attr: String },
}

/// The value of a `CallableDescriptor`.
pub enum CallableView {
    Import { module: Seq<char>, attr: Seq<char> },
    Inline { source: Seq<char>, file: Seq<char>, module: Seq<char>, attr: Seq<char> },
}

impl View for CallableDescriptor {
    type V = CallableView;

    open spec fn view(&self) -> CallableView {
        match self {
            CallableDescriptor::Import { module, attr } => CallableView::Import {
                module: module@,
                attr: attr@,
            },
            CallableDescriptor::Inline { source, file, module, attr } => CallableView::Inline {
                source: source@,
                file: file@,
                module: module@,
                attr: attr@,
            },
        }
    }
}

/// What the dispatcher is asked to run for one workflow.
#[derive(Debug)]
pub struct CallRequest {
    /// The id of the workflow.
    pub id: String,
    pub callable: CallableDescriptor,
    pub arguments: Vec<CLRepr>,
    /// The configuration as the embedded side sees it, if there is one.
    pub config: Option<PyValue>,
}

/// The value of a `CallRequest`.
pub struct CallRequestView {
    pub id: Seq<char>,
    pub callable: CallableView,
    pub arguments: Seq<CLValue>,
    pub config: Option<PyModel>,
}

impl View for CallRequest {
    type V = CallRequestView;

    open spec fn view(&self) -> CallRequestView {
        CallRequestView {
            id: self.id@,
            callable: self.callable@,
            arguments: values_of(self.arguments@),
            config: match self.config {
                Some(c) => Some(c@),
                None => None,
            },
        }
    }
}

/// The callable of a workflow: inline source where there is some, and the
/// imported module otherwise. The module compiled from an inline source is
/// named by the workflow's id, and its file is the id followed by `.py`.
pub open spec fn callable_of(w: WorkflowView) -> CallableView {
    match w.code {
        Some(source) => CallableView::Inline {
            source,
            file: w.id + ".py"@,
            module: w.id,
            attr: w.attr,
        },
        None => CallableView::Import { module: w.import, attr: w.attr },
    }
}

/// The call request of a workflow.
pub open spec fn request_of(w: WorkflowView) -> CallRequestView {
    CallRequestView {
        id: w.id,
        callable: callable_of(w),
        arguments: w.arguments,
        config: match w.config {
            Some(c) => Some(config_model(c)),
            None => None,
        },
    }
}

/// Workflows with different ids have different modules and different files
/// for their inline sources, whatever their names and attributes are: each
/// runs the function compiled from its own source.
pub proof fn lemma_inline_modules_differ(a: WorkflowView, b: WorkflowView)
    requires
        a.id != b.id,
        a.code is Some,
        b.code is Some,
    ensures
        callable_of(a)->Inline_module != callable_of(b)->Inline_module,
        callable_of(a)->file != callable_of(b)->file,
        callable_of(a)->source == a.code->Some_0,
        callable_of(b)->source == b.code->Some_0,
{
    let suffix = ".py"@;
    let x = a.id + suffix;
    let y = b.id + suffix;
    if x == y {
        assert(x.len() == a.id.len() + suffix.len());
        assert(y.len() == b.id.len() + suffix.len());
        assert(x.subrange(0, a.id.len() as int) =~= a.id);
        assert(y.subrange(0, b.id.len() as int) =~= b.id);
    }
}

impl Workflow {
    /// The request that asks the dispatcher to run this workflow.
    pub fn call_request(&self) -> (r: CallRequest)
        ensures
            r@ == request_of(self@),
    {
        let callable = match &self.code {
            Some(source) => CallableDescriptor::Inline {
                source: source.clone(),
                file: self.id.clone().concat(".py"),
                module: self.id.clone(),
                attr: self.attr.clone(),
            },
            None => CallableDescriptor::Import {
                module: self.import.clone(),
                attr: self.attr.clone(),
            },
        };
        CallRequest {
            id: self.id.clone(),
            callable,
            arguments: clone_values(&self.arguments),
            config: match &self.config {
                Some(c) => Some(c.to_object()),
                None => None,
            },
        }
    }
}

/// A workflow with the same id is registered already.
#[derive(Debug)]
pub struct DuplicateIdError {
    /// The id that was met twice.
    pub id: String,
}

/// The text that reports a duplicate id.
pub open spec fn duplicate_id_text() -> Seq<char> {
    "Workflow with the same ID already exists."@
}

impl DuplicateIdError {
    /// The text that reports the error.
    pub fn message(&self) -> (m: String)
        ensures
            m@ == duplicate_id_text(),
    {
        String::from_str("Workflow with the same ID already exists.")
    }

    /// The failure that reports the error: of kind `DuplicateId`, without a
    /// trace.
    pub fn into_failure(self) -> (f: CallFailure)
        ensures
            f@ == (CallFailureView {
                kind: ErrorKind::DuplicateId,
                message: duplicate_id_text(),
                trace: None,
            }),
    {
        CallFailure::new(ErrorKind::DuplicateId, self.message())
    }
}

/// Why a workflow could not be removed, started or stopped.
#[derive(Debug, Clone, Copy, PartialEq, Eq, Structural)]
pub enum LifecycleError {
    /// No workflow with the id is registered.
    NotFound,
    /// The workflow is running.
    Running,
    /// The workflow is not running.
    NotRunning,
}

/// The text that reports a lifecycle error.
pub open spec fn lifecycle_text(e: LifecycleError, starting: bool) -> Seq<char> {
    match e {
        LifecycleError::NotFound => "Workflow not found."@,
        LifecycleError::Running => if starting {
            "Workflow is already running."@
        } else {
            "Workflow is running."@
        },
        LifecycleError::NotRunning => "Workflow is not running."@,
    }
}

impl LifecycleError {
    /// The text that reports the error; `starting` says whether a start was
    /// asked for.
    pub fn message(&self, starting: bool) -> (m: String)
        ensures
            m@ == lifecycle_text(*self, starting),
    {
        match self {
            LifecycleError::NotFound => String::from_str("Workflow not found."),
            LifecycleError::Running => if starting {
                String::from_str("Workflow is already running.")
            } else {
                String::from_str("Workflow is running.")
            },
            LifecycleError::NotRunning => String::from_str("Workflow is not running."),
        }
    }
}

/// What became of the start of one workflow.
#[derive(Debug)]
pub enum StartOutcome {
    /// The call was made and came back with a value.
    Completed(CLRepr),
    /// The call was made and came back with an error.
    Failed(QuerentError),
    /// The call was never made: its callable could not be resolved.
    NotSubmitted(QuerentError),
}

/// The index of the first outcome that is not a completion, if there is one.
pub open spec fn first_failure(s: Seq<StartOutcome>) -> Option<int>
    decreases s.len(),
{
    if s.len() == 0 {
        None
    } else {
        match first_failure(s.drop_last()) {
            Some(i) => Some(i),
            None => if s.last() is Completed {
                None
            } else {
                Some(s.len() - 1)
            },
        }
    }
}

/// The first failure is a failure, and everything before it completed.
pub proof fn lemma_first_failure(s: Seq<StartOutcome>)
    ensures
        match first_failure(s) {
            Some(i) => 0 <= i < s.len() && !(s[i] is Completed) && forall|j: int|
                0 <= j < i ==> (#[trigger] s[j]) is Completed,
            None => forall|j: int| 0 <= j < s.len() ==> (#[trigger] s[j]) is Completed,
        },
    decreases s.len(),
{
    if s.len() > 0 {
        let t = s.drop_last();
        lemma_first_failure(t);
        assert forall|j: int| 0 <= j < t.len() implies t[j] == s[j] by {}
        match first_failure(t) {
            Some(i) => {
                assert(t[i] == s[i]);
                assert forall|j: int| 0 <= j < i implies (#[trigger] s[j]) is Completed by {
                    assert(t[j] == s[j]);
                }
            },
            None => {
                assert forall|j: int| 0 <= j < t.len() implies (#[trigger] s[j]) is Completed by {
                    assert(t[j] == s[j]);
                }
            },
        }
    }
}

/// One more outcome changes the first failure only where there was none.
pub proof fn lemma_first_failure_push(s: Seq<StartOutcome>, o: StartOutcome)
    ensures
        first_failure(s.push(o)) == match first_failure(s) {
            Some(i) => Some(i),
            None => if o is Completed {
                None
            } else {
                Some(s.len() as int)
            },
        },
{
    assert(s.push(o).drop_last() =~= s);
}

/// The text that reports outcomes that are not those of the requests.
pub open spec fn mismatch_text() -> Seq<char> {
    "Workflow outcomes do not match the registered workflows."@
}

/// Whether the outcomes can be those of `expected` requests, taken in order
/// up to the first failure: a failure stands at the place of a request, and
/// without a failure every request has its outcome.
pub open spec fn outcomes_fit(expected: int, outcomes: Seq<StartOutcome>) -> bool {
    match first_failure(outcomes) {
        Some(i) => i < expected,
        None => outcomes.len() == expected,
    }
}

/// Whether `r` is the result of starting `expected` workflows with these
/// outcomes. Outcomes that are not those of the requests give an internal
/// error. Otherwise the first outcome that is not a completion decides: a
/// call that was never made reports its own error; a call that came back
/// with an error reports an internal error whose message is that error's
/// display text. Without such an outcome the start succeeded.
pub open spec fn is_start_result(
    expected: int,
    outcomes: Seq<StartOutcome>,
    r: Result<(), QuerentError>,
) -> bool {
    if !outcomes_fit(expected, outcomes) {
        r matches Err(x) && x.message@ == mismatch_text() && x.cause
            == QuerentErrorCauseType::Internal(None) && x.backtrace is Some
    } else {
        match first_failure(outcomes) {
            None => r is Ok,
            Some(i) => match outcomes[i] {
                StartOutcome::NotSubmitted(e) => r == Err::<(), QuerentError>(e),
                StartOutcome::Failed(e) => r matches Err(x) && x.message@ == e.display() && x.cause
                    == QuerentErrorCauseType::Internal(None) && x.backtrace is Some,
                StartOutcome::Completed(_) => false,
            },
        }
    }
}

/// A start that succeeded had one reply for each workflow, and each reply
/// was a completion.
pub proof fn lemma_started_all(expected: int, outcomes: Seq<StartOutcome>, r: Result<(), QuerentError>)
    requires
        is_start_result(expected, outcomes, r),
        r is Ok,
    ensures
        outcomes.len() == expected,
        forall|i: int| 0 <= i < outcomes.len() ==> (#[trigger] outcomes[i]) is Completed,
{
    lemma_first_failure(outcomes);
}

impl StartOutcome {
    /// Whether the call came back with a value, so that the start goes on.
    pub fn completed(&self) -> (r: bool)
        ensures
            r == (*self is Completed),
    {
        match self {
            StartOutcome::Completed(_) => true,
            _ => false,
        }
    }
}

/// The error that reports outcomes that are not those of the requests.
fn mismatch() -> (e: QuerentError)
    ensures
        e.message@ == mismatch_text(),
        e.cause == QuerentErrorCauseType::Internal(None),
        e.backtrace is Some,
{
    QuerentError::internal(
        String::from_str("Workflow outcomes do not match the registered workflows."),
    )
}

/// The result of starting `expected` workflows, given what became of each
/// start, in the order of the requests and up to the first failure at least.
pub fn start_result(expected: usize, outcomes: Vec<StartOutcome>) -> (r: Result<(), QuerentError>)
    ensures
        is_start_result(expected as int, outcomes@, r),
{
    let mut rest = outcomes;
    let ghost all = outcomes@;
    let mut i: usize = 0;
    while i < rest.len()
        invariant
            rest@ == all,
            all == outcomes@,
            i <= all.len(),
            forall|j: int| 0 <= j < i ==> (#[trigger] all[j]) is Completed,
        decreases rest.len() - i,
    {
        if !rest[i].completed() {
            proof {
                lemma_first_failure(all);
                assert(first_failure(all) == Some(i as int)) by {
                    let f = first_failure(all);
                    if f is None {
                        assert(all[i as int] is Completed);
                    } else {
                        let k = f->Some_0;
                        if k < i {
                            assert(all[k] is Completed);
                        } else if k > i {
                            assert(all[i as int] is Completed);
                        }
                    }
                }
            }
            if i >= expected {
                return Err(mismatch());
            }
            let outcome = rest.remove(i);
            return match outcome {
                StartOutcome::NotSubmitted(e) => Err(e),
                StartOutcome::Failed(e) => Err(QuerentError::internal(e.to_display_string())),
                StartOutcome::Completed(_) => Ok(()),
            };
        }
        i += 1;
    }
    proof {
        lemma_first_failure(all);
        let f = first_failure(all);
        if f is Some {
            assert(all[f->Some_0] is Completed);
        }
    }
    if rest.len() != expected {
        return Err(mismatch());
    }
    Ok(())
}

/// What is to be done next to start the workflows.
#[derive(Debug, Clone, Copy, PartialEq, Eq, Structural)]
pub enum StartAction {
    /// Put the request with this index on the dispatcher's queue.
    Submit(usize),
    /// Await the reply to the request with this index and record it.
    Await(usize),
    /// Nothing is left to do: ask for the result.
    Finish,
}

/// The course of one start of the workflows as a value: how many requests
/// there are, how many are on the queue, and the outcomes recorded so far.
pub struct StartSessionView {
    pub total: int,
    pub submitted: int,
    pub outcomes: Seq<StartOutcome>,
}

impl StartSessionView {
    /// No more requests are on the queue than there are, no outcome was
    /// recorded before every request was on the queue, and nothing was
    /// recorded after a failure.
    pub open spec fn well_formed(self) -> bool {
        &&& 0 <= self.submitted <= self.total <= usize::MAX
        &&& self.outcomes.len() <= self.total
        &&& self.outcomes.len() > 0 ==> self.submitted == self.total
        &&& first_failure(self.outcomes) matches Some(i) ==> i == self.outcomes.len() - 1
    }

    /// What is to be done next: every request goes on the queue, in order,
    /// before the first reply is awaited; then the replies are awaited in
    /// order until one is a failure or none is left.
    pub open spec fn action(self) -> StartAction {
        if self.submitted < self.total {
            StartAction::Submit(self.submitted as usize)
        } else if first_failure(self.outcomes) is Some || self.outcomes.len() >= self.total {
            StartAction::Finish
        } else {
            StartAction::Await(self.outcomes.len() as usize)
        }
    }

    /// The course after a request was put on the queue; nothing changes
    /// where no request was due.
    pub open spec fn after_submit(self) -> StartSessionView {
        if self.action() is Submit {
            StartSessionView { submitted: self.submitted + 1, ..self }
        } else {
            self
        }
    }

    /// The course after an outcome was recorded; nothing changes where no
    /// reply was due.
    pub open spec fn after_outcome(self, outcome: StartOutcome) -> StartSessionView {
        if self.action() is Await {
            StartSessionView { outcomes: self.outcomes.push(outcome), ..self }
        } else {
            self
        }
    }
}

/// Every request is on the queue before the first reply is awaited, so a
/// workflow that is slow to answer delays the invocation of no other; and
/// each step keeps the course well formed.
pub proof fn lemma_submit_before_await(v: StartSessionView, outcome: StartOutcome)
    requires
        v.well_formed(),
    ensures
        v.action() is Await ==> v.submitted == v.total,
        v.outcomes.len() > 0 ==> v.submitted == v.total,
        v.action() matches StartAction::Submit(i) ==> i == v.submitted && v.outcomes.len() == 0,
        v.action() matches StartAction::Await(i) ==> i == v.outcomes.len() && i < v.total,
        v.after_submit().well_formed(),
        v.after_outcome(outcome).well_formed(),
{
    lemma_first_failure_push(v.outcomes, outcome);
}

/// A start that is over and succeeded had exactly one reply for each
/// request, each a completion; one that is over fits its requests.
pub proof fn lemma_finished_start(v: StartSessionView, r: Result<(), QuerentError>)
    requires
        v.well_formed(),
        v.action() is Finish,
        is_start_result(v.total, v.outcomes, r),
    ensures
        outcomes_fit(v.total, v.outcomes),
        r is Ok ==> v.outcomes.len() == v.total && forall|i: int|
            0 <= i < v.outcomes.len() ==> (#[trigger] v.outcomes[i]) is Completed,
{
    lemma_first_failure(v.outcomes);
}

/// The course of one start of the workflows.
#[derive(Debug)]
pub struct StartSession {
    total: usize,
    submitted: usize,
    outcomes: Vec<StartOutcome>,
    failed: bool,
}

impl View for StartSession {
    type V = StartSessionView;

    closed spec fn view(&self) -> StartSessionView {
        StartSessionView {
            total: self.total as int,
            submitted: self.submitted as int,
            outcomes: self.outcomes@,
        }
    }
}

impl StartSession {
    /// The course is well formed, and `failed` says whether a failure was
    /// recorded.
    #[verifier::type_invariant]
    pub closed spec fn wf(self) -> bool {
        &&& self@.well_formed()
        &&& self.failed == first_failure(self.outcomes@) is Some
    }

    /// What `wf` says of the value.
    pub proof fn lemma_wf(self)
        requires
            self.wf(),
        ensures
            self@.well_formed(),
    {
    }

    /// The start of `total` requests, none of which is on the queue yet.
    pub fn new(total: usize) -> (s: Self)
        ensures
            s@ == (StartSessionView { total: total as int, submitted: 0, outcomes: Seq::empty() }),
            s@.well_formed(),
    {
        StartSession { total, submitted: 0, outcomes: Vec::new(), failed: false }
    }

    /// What is to be done next.
    pub fn next_action(&self) -> (r: StartAction)
        ensures
            r == self@.action(),
    {
        proof {
            use_type_invariant(self);
        }
        if self.submitted < self.total {
            StartAction::Submit(self.submitted)
        } else if self.failed || self.outcomes.len() >= self.total {
            StartAction::Finish
        } else {
            StartAction::Await(self.outcomes.len())
        }
    }

    /// Records that the request that was due is on the queue.
    pub fn note_submitted(&mut self)
        ensures
            final(self)@ == old(self)@.after_submit(),
    {
        proof {
            use_type_invariant(&*self);
        }
        if self.submitted < self.total {
            let mut taken = StartSession::new(0);
            std::mem::swap(self, &mut taken);
            let StartSession { total, submitted, outcomes, failed } = taken;
            *self = StartSession { total, submitted: submitted + 1, outcomes, failed };
        }
    }

    /// Records the outcome of the reply that was due; an outcome that was
    /// not due is dropped.
    pub fn note_outcome(&mut self, outcome: StartOutcome)
        ensures
            final(self)@ == old(self)@.after_outcome(outcome),
    {
        proof {
            use_type_invariant(&*self);
        }
        if self.submitted >= self.total && !self.failed && self.outcomes.len() < self.total {
            let completed = outcome.completed();
            let mut taken = StartSession::new(0);
            std::mem::swap(self, &mut taken);
            let StartSession { total, submitted, mut outcomes, failed: _ } = taken;
            proof {
                lemma_first_failure_push(outcomes@, outcome);
            }
            outcomes.push(outcome);
            *self = StartSession { total, submitted, outcomes, failed: !completed };
        }
    }

    /// The result of the start, from the outcomes recorded. A start that is
    /// not over has outcomes that do not fit its requests, and reports so.
    pub fn finish(self) -> (r: Result<(), QuerentError>)
        ensures
            is_start_result(self@.total, self@.outcomes, r),
            !(self@.action() is Finish) ==> r is Err,
    {
        proof {
            use_type_invariant(&self);
        }
        let StartSession { total, submitted: _, outcomes, failed: _ } = self;
        start_result(total, outcomes)
    }
}

/// The pairs of id and value of a sequence of workflows.
pub open spec fn id_pairs(s: Seq<Workflow>) -> Seq<(Seq<char>, WorkflowView)> {
    Seq::new(s.len(), |i: int| (s[i].id@, s[i]@))
}

/// The texts of a sequence of strings.
pub open spec fn id_texts(s: Seq<String>) -> Seq<Seq<char>> {
    Seq::new(s.len(), |i: int| s[i]@)
}

/// The registry of workflows: each id at most once. It also keeps which
/// workflows are running.
#[derive(Debug)]
pub struct WorkflowManager {
    workflows: Vec<Workflow>,
    running: Vec<String>,
}

impl View for WorkflowManager {
    type V = Map<Seq<char>, WorkflowView>;

    closed spec fn view(&self) -> Map<Seq<char>, WorkflowView> {
        assoc_map(id_pairs(self.workflows@))
    }
}

impl WorkflowManager {
    /// No id is registered twice, no id is marked running twice, and what
    /// runs is registered.
    #[verifier::type_invariant]
    pub closed spec fn wf(self) -> bool {
        &&& assoc_distinct(id_pairs(self.workflows@))
        &&& id_texts(self.running@).no_duplicates()
        &&& forall|i: int|
            0 <= i < self.running@.len() ==> assoc_has(
                id_pairs(self.workflows@),
                #[trigger] self.running@[i]@,
            )
    }

    /// The ids in the order in which the workflows were registered.
    pub closed spec fn ids(self) -> Seq<Seq<char>> {
        Seq::new(self.workflows@.len(), |i: int| self.workflows@[i].id@)
    }

    /// The ids of the workflows that are running.
    pub closed spec fn running_ids(self) -> Set<Seq<char>> {
        id_texts(self.running@).to_set()
    }

    /// The registered ids are the keys of the registry, each once, and what
    /// runs is registered.
    pub proof fn lemma_ids(self)
        requires
            self.wf(),
        ensures
            self.ids().no_duplicates(),
            self@.dom().finite(),
            self@.len() == self.ids().len(),
            forall|k: Seq<char>| self.ids().contains(k) <==> self@.contains_key(k),
            forall|k: Seq<char>| self.running_ids().contains(k) ==> self@.contains_key(k),
    {
        let s = id_pairs(self.workflows@);
        lemma_assoc_len(s);
        assert forall|a: int, b: int| 0 <= a < self.ids().len() && 0 <= b < self.ids().len() && a
            != b implies self.ids()[a] != self.ids()[b] by {
            if a < b {
                assert(s[a].0 != s[b].0);
            } else {
                assert(s[b].0 != s[a].0);
            }
        }
        assert forall|k: Seq<char>| self.ids().contains(k) <==> self@.contains_key(k) by {
            lemma_assoc_dom(s, k);
            if self.ids().contains(k) {
                let i = choose|i: int| 0 <= i < self.ids().len() && self.ids()[i] == k;
                assert(s[i].0 == k);
            }
            if assoc_has(s, k) {
                let i = choose|i: int| 0 <= i < s.len() && (#[trigger] s[i]).0 == k;
                assert(self.ids()[i] == k);
            }
        }
        assert forall|k: Seq<char>| self.running_ids().contains(k) implies self@.contains_key(
            k,
        ) by {
            let i = choose|i: int|
                0 <= i < id_texts(self.running@).len() && id_texts(self.running@)[i] == k;
            assert(assoc_has(s, self.running@[i]@));
            lemma_assoc_dom(s, k);
        }
    }

    /// A registry without workflows.
    pub fn new() -> (m: Self)
        ensures
            m@ == Map::<Seq<char>, WorkflowView>::empty(),
            m.ids() == Seq::<Seq<char>>::empty(),
            m.running_ids() == Set::<Seq<char>>::empty(),
    {
        let m = WorkflowManager { workflows: Vec::new(), running: Vec::new() };
        assert(m.ids() =~= Seq::<Seq<char>>::empty());
        assert(id_texts(m.running@) =~= Seq::<Seq<char>>::empty());
        assert(m.running_ids() =~= Set::<Seq<char>>::empty());
        m
    }

    /// Where the workflow with the given id stands, if it is registered.
    fn position(&self, id: &str) -> (r: Option<usize>)
        ensures
            match r {
                Some(i) => i < self.workflows@.len() && self.workflows@[i as int].id@ == id@,
                None => !assoc_has(id_pairs(self.workflows@), id@),
            },
            r is Some <==> self@.contains_key(id@),
    {
        let wanted = id.to_owned();
        let mut i: usize = 0;
        while i < self.workflows.len()
            invariant
                i <= self.workflows@.len(),
                wanted@ == id@,
                forall|j: int| 0 <= j < i ==> (#[trigger] self.workflows@[j]).id@ != id@,
            decreases self.workflows.len() - i,
        {
            if self.workflows[i].id == wanted {
                proof {
                    lemma_assoc_dom(id_pairs(self.workflows@), id@);
                    assert(id_pairs(self.workflows@)[i as int].0 == id@);
                }
                return Some(i);
            }
            i += 1;
        }
        proof {
            lemma_assoc_dom(id_pairs(self.workflows@), id@);
        }
        assert(!assoc_has(id_pairs(self.workflows@), id@)) by {
            if assoc_has(id_pairs(self.workflows@), id@) {
                let j = choose|j: int|
                    0 <= j < id_pairs(self.workflows@).len() && (#[trigger] id_pairs(
                        self.workflows@,
                    )[j]).0 == id@;
                assert(self.workflows@[j].id@ == id@);
            }
        }
        None
    }

    /// Where the id stands among the running ones, if it is there.
    fn running_position(&self, id: &str) -> (r: Option<usize>)
        ensures
            match r {
                Some(i) => i < self.running@.len() && self.running@[i as int]@ == id@,
                None => forall|j: int| 0 <= j < self.running@.len() ==> self.running@[j]@ != id@,
            },
            r is Some <==> self.running_ids().contains(id@),
    {
        let wanted = id.to_owned();
        let mut i: usize = 0;
        while i < self.running.len()
            invariant
                i <= self.running@.len(),
                wanted@ == id@,
                forall|j: int| 0 <= j < i ==> self.running@[j]@ != id@,
            decreases self.running.len() - i,
        {
            if self.running[i] == wanted {
                assert(id_texts(self.running@)[i as int] == id@);
                return Some(i);
            }
            i += 1;
        }
        assert(!id_texts(self.running@).contains(id@)) by {
            if id_texts(self.running@).contains(id@) {
                let j = choose|j: int|
                    0 <= j < id_texts(self.running@).len() && id_texts(self.running@)[j] == id@;
                assert(self.running@[j]@ == id@);
            }
        }
        None
    }

    /// Registers a workflow. A workflow whose id is registered already is
    /// refused, and the registry stays as it was.
    pub fn add_workflow(&mut self, workflow: Workflow) -> (r: Result<(), DuplicateIdError>)
        ensures
            old(self)@.contains_key(workflow.id@) ==> (r matches Err(e) && e.id@ == workflow.id@)
                && final(self)@ == old(self)@ && final(self).ids() == old(self).ids(),
            !old(self)@.contains_key(workflow.id@) ==> r is Ok && final(self)@ == old(self)@.insert(
                workflow.id@,
                workflow@,
            ) && final(self).ids() == old(self).ids().push(workflow.id@),
            final(self).running_ids() == old(self).running_ids(),
    {
        proof {
            use_type_invariant(&*self);
        }
        match self.position(workflow.id.as_str()) {
            Some(_) => Err(DuplicateIdError { id: workflow.id }),
            None => {
                let ghost before = self.workflows@;
                let ghost added = workflow;
                let mut running: Vec<String> = Vec::new();
                std::mem::swap(&mut self.running, &mut running);
                let mut workflows: Vec<Workflow> = Vec::new();
                std::mem::swap(&mut self.workflows, &mut workflows);
                workflows.push(workflow);
                proof {
                    let s = id_pairs(before);
                    lemma_assoc_push(s, added.id@, added@);
                    assert(id_pairs(workflows@) =~= s.push((added.id@, added@)));
                    assert forall|i: int| 0 <= i < running@.len() implies assoc_has(
                        id_pairs(workflows@),
                        #[trigger] running@[i]@,
                    ) by {
                        let j = choose|j: int|
                            0 <= j < s.len() && (#[trigger] s[j]).0 == running@[i]@;
                        assert(id_pairs(workflows@)[j].0 == running@[i]@);
                    }
                }
                self.workflows = workflows;
                self.running = running;
                assert(self.ids() =~= old(self).ids().push(added.id@));
                Ok(())
            },
        }
    }

    /// Takes a workflow out of the registry. A workflow that is running or
    /// not registered stays out of reach, and the registry stays as it was.
    pub fn remove_workflow(&mut self, id: &str) -> (r: Result<(), LifecycleError>)
        ensures
            r == if old(self).running_ids().contains(id@) {
                Err::<(), LifecycleError>(LifecycleError::Running)
            } else if !old(self)@.contains_key(id@) {
                Err::<(), LifecycleError>(LifecycleError::NotFound)
            } else {
                Ok::<(), LifecycleError>(())
            },
            final(self)@ == if r is Ok {
                old(self)@.remove(id@)
            } else {
                old(self)@
            },
            final(self).running_ids() == old(self).running_ids(),
    {
        proof {
            use_type_invariant(&*self);
        }
        if self.running_position(id).is_some() {
            return Err(LifecycleError::Running);
        }
        match self.position(id) {
            None => Err(LifecycleError::NotFound),
            Some(i) => {
                let ghost before = self.workflows@;
                let mut running: Vec<String> = Vec::new();
                std::mem::swap(&mut self.running, &mut running);
                let mut workflows: Vec<Workflow> = Vec::new();
                std::mem::swap(&mut self.workflows, &mut workflows);
                let _ = workflows.remove(i);
                proof {
                    let s = id_pairs(before);
                    lemma_assoc_remove(s, i as int);
                    assert(id_pairs(workflows@) =~= s.remove(i as int));
                    assert forall|a: int| 0 <= a < running@.len() implies assoc_has(
                        id_pairs(workflows@),
                        #[trigger] running@[a]@,
                    ) by {
                        let k = running@[a]@;
                        assert(k != id@);
                        lemma_assoc_dom(s, k);
                        lemma_assoc_dom(s.remove(i as int), k);
                    }
                }
                self.workflows = workflows;
                self.running = running;
                Ok(())
            },
        }
    }

    /// A copy of the workflow with the given id, if it is registered.
    pub fn get_workflow(&self, id: &str) -> (r: Option<Workflow>)
        ensures
            r is Some <==> self@.contains_key(id@),
            r matches Some(w) ==> w@ == self@[id@],
    {
        proof {
            use_type_invariant(self);
        }
        match self.position(id) {
            Some(i) => {
                proof {
                    lemma_assoc_index(id_pairs(self.workflows@), i as int);
                }
                Some(self.workflows[i].clone())
            },
            None => None,
        }
    }

    /// Copies of all registered workflows, in the order of `ids`.
    pub fn get_workflows(&self) -> (r: Vec<Workflow>)
        ensures
            r@.len() == self.ids().len(),
            forall|i: int|
                0 <= i < r@.len() ==> (#[trigger] r@[i]).id@ == self.ids()[i] && self@.contains_key(
                    self.ids()[i],
                ) && r@[i]@ == self@[self.ids()[i]],
    {
        proof {
            use_type_invariant(self);
        }
        let mut out: Vec<Workflow> = Vec::new();
        let mut i: usize = 0;
        while i < self.workflows.len()
            invariant
                i <= self.workflows@.len(),
                out@.len() == i,
                assoc_distinct(id_pairs(self.workflows@)),
                forall|j: int|
                    0 <= j < i ==> (#[trigger] out@[j])@ == self.workflows@[j]@ && assoc_map(
                        id_pairs(self.workflows@),
                    ).contains_key(self.workflows@[j].id@) && assoc_map(id_pairs(self.workflows@))[
                        self.workflows@[j].id@
                    ] == self.workflows@[j]@,
            decreases self.workflows.len() - i,
        {
            proof {
                lemma_assoc_index(id_pairs(self.workflows@), i as int);
            }
            out.push(self.workflows[i].clone());
            i += 1;
        }
        out
    }

    /// The number of registered workflows.
    pub fn len(&self) -> (n: usize)
        ensures
            n == self.ids().len(),
    {
        self.workflows.len()
    }

    /// Whether the workflow with the given id is marked running.
    pub fn is_running(&self, id: &str) -> (r: bool)
        ensures
            r == self.running_ids().contains(id@),
    {
        self.running_position(id).is_some()
    }

    /// Marks a registered workflow running and hands out the request that
    /// runs it. A workflow that is not registered or runs already is
    /// refused, and nothing changes.
    pub fn start_workflow(&mut self, id: &str) -> (r: Result<CallRequest, LifecycleError>)
        ensures
            match r {
                Ok(request) => old(self)@.contains_key(id@) && !old(self).running_ids().contains(
                    id@,
                ) && request@ == request_of(old(self)@[id@]) && final(self).running_ids()
                    == old(self).running_ids().insert(id@),
                Err(e) => e == (if !old(self)@.contains_key(id@) {
                    LifecycleError::NotFound
                } else {
                    LifecycleError::Running
                }) && (!old(self)@.contains_key(id@) || old(self).running_ids().contains(id@))
                    && final(self).running_ids() == old(self).running_ids(),
            },
            final(self)@ == old(self)@,
            final(self).ids() == old(self).ids(),
    {
        proof {
            use_type_invariant(&*self);
        }
        let found = self.position(id);
        match found {
            None => Err(LifecycleError::NotFound),
            Some(i) => {
                if self.running_position(id).is_some() {
                    return Err(LifecycleError::Running);
                }
                proof {
                    lemma_assoc_index(id_pairs(self.workflows@), i as int);
                }
                let request = self.workflows[i].call_request();
                let ghost before = self.running@;
                let mut running: Vec<String> = Vec::new();
                std::mem::swap(&mut self.running, &mut running);
                running.push(self.workflows[i].id.clone());
                proof {
                    assert(id_texts(running@) =~= id_texts(before).push(id@));
                    assert(id_texts(running@).no_duplicates()) by {
                        assert forall|a: int, b: int|
                            0 <= a < id_texts(running@).len() && 0 <= b < id_texts(running@).len()
                                && a != b implies id_texts(running@)[a] != id_texts(running@)[b] by {
                            if a < before.len() && b < before.len() {
                                assert(id_texts(before)[a] != id_texts(before)[b]);
                            } else if a < before.len() {
                                assert(before[a]@ != id@);
                            } else {
                                assert(before[b]@ != id@);
                            }
                        }
                    }
                    assert forall|a: int| 0 <= a < running@.len() implies assoc_has(
                        id_pairs(self.workflows@),
                        #[trigger] running@[a]@,
                    ) by {
                        if a < before.len() {
                            assert(running@[a] == before[a]);
                        } else {
                            assert(id_pairs(self.workflows@)[i as int].0 == id@);
                        }
                    }
                    assert(id_texts(running@).to_set() =~= id_texts(before).to_set().insert(id@)) by {
                        assert forall|k: Seq<char>|
                            id_texts(running@).to_set().contains(k) <==> id_texts(
                                before,
                            ).to_set().insert(id@).contains(k) by {
                            if id_texts(running@).contains(k) {
                                let a = choose|a: int|
                                    0 <= a < id_texts(running@).len() && id_texts(running@)[a] == k;
                                if a < before.len() {
                                    assert(id_texts(before)[a] == k);
                                }
                            }
                            if id_texts(before).contains(k) {
                                let a = choose|a: int|
                                    0 <= a < id_texts(before).len() && id_texts(before)[a] == k;
                                assert(id_texts(running@)[a] == k);
                            }
                            if k == id@ {
                                assert(id_texts(running@)[before.len() as int] == k);
                            }
                        }
                    }
                }
                self.running = running;
                Ok(request)
            },
        }
    }

    /// Marks a running workflow stopped. A workflow that is not registered
    /// or does not run is refused, and nothing changes.
    pub fn stop_workflow(&mut self, id: &str) -> (r: Result<(), LifecycleError>)
        ensures
            r == if !old(self)@.contains_key(id@) {
                Err::<(), LifecycleError>(LifecycleError::NotFound)
            } else if !old(self).running_ids().contains(id@) {
                Err::<(), LifecycleError>(LifecycleError::NotRunning)
            } else {
                Ok::<(), LifecycleError>(())
            },
            final(self).running_ids() == if r is Ok {
                old(self).running_ids().remove(id@)
            } else {
                old(self).running_ids()
            },
            final(self)@ == old(self)@,
            final(self).ids() == old(self).ids(),
    {
        proof {
            use_type_invariant(&*self);
        }
        if self.position(id).is_none() {
            return Err(LifecycleError::NotFound);
        }
        match self.running_position(id) {
            None => Err(LifecycleError::NotRunning),
            Some(i) => {
                let ghost before = self.running@;
                let mut running: Vec<String> = Vec::new();
                std::mem::swap(&mut self.running, &mut running);
                let _ = running.remove(i);
                proof {
                    let t = id_texts(before);
                    assert(id_texts(running@) =~= t.remove(i as int));
                    assert(id_texts(running@).no_duplicates()) by {
                        assert forall|a: int, b: int|
                            0 <= a < id_texts(running@).len() && 0 <= b < id_texts(running@).len()
                                && a != b implies id_texts(running@)[a] != id_texts(running@)[b] by {
                            let a0 = if a < i { a } else { a + 1 };
                            let b0 = if b < i { b } else { b + 1 };
                            assert(t[a0] != t[b0]);
                        }
                    }
                    assert forall|a: int| 0 <= a < running@.len() implies assoc_has(
                        id_pairs(self.workflows@),
                        #[trigger] running@[a]@,
                    ) by {
                        let a0 = if a < i { a } else { a + 1 };
                        assert(running@[a] == before[a0]);
                    }
                    assert(id_texts(running@).to_set() =~= t.to_set().remove(id@)) by {
                        assert forall|k: Seq<char>|
                            id_texts(running@).to_set().contains(k) <==> t.to_set().remove(
                                id@,
                            ).contains(k) by {
                            if id_texts(running@).contains(k) {
                                let a = choose|a: int|
                                    0 <= a < id_texts(running@).len() && id_texts(running@)[a] == k;
                                let a0 = if a < i { a } else { a + 1 };
                                assert(t[a0] == k);
                                assert(t[a0] != t[i as int]);
                            }
                            if t.contains(k) && k != id@ {
                                let a = choose|a: int| 0 <= a < t.len() && t[a] == k;
                                let a1 = if a < i { a } else { a - 1 };
                                assert(id_texts(running@)[a1] == k);
                            }
                        }
                    }
                }
                self.running = running;
                Ok(())
            },
        }
    }

    /// One call request for each registered workflow, in the order of `ids`.
    pub fn call_requests(&self) -> (r: Vec<CallRequest>)
        ensures
            r@.len() == self.ids().len(),
            forall|i: int|
                0 <= i < r@.len() ==> self@.contains_key(self.ids()[i]) && (#[trigger] r@[i])@
                    == request_of(self@[self.ids()[i]]),
    {
        proof {
            use_type_invariant(self);
        }
        let mut out: Vec<CallRequest> = Vec::new();
        let mut i: usize = 0;
        while i < self.workflows.len()
            invariant
                i <= self.workflows@.len(),
                out@.len() == i,
                assoc_distinct(id_pairs(self.workflows@)),
                forall|j: int|
                    0 <= j < i ==> assoc_map(id_pairs(self.workflows@)).contains_key(
                        self.workflows@[j].id@,
                    ) && (#[trigger] out@[j])@ == request_of(
                        assoc_map(id_pairs(self.workflows@))[self.workflows@[j].id@],
                    ),
            decreases self.workflows.len() - i,
        {
            proof {
                lemma_assoc_index(id_pairs(self.workflows@), i as int);
            }
            out.push(self.workflows[i].call_request());
            i += 1;
        }
        out
    }

    /// The course of a start of the registered workflows: one request for
    /// each, none on the queue yet.
    pub fn start_session(&self) -> (s: StartSession)
        ensures
            s@ == (StartSessionView {
                total: self.ids().len() as int,
                submitted: 0,
                outcomes: Seq::empty(),
            }),
    {
        StartSession::new(self.workflows.len())
    }

    /// The result of starting the workflows, given what became of each
    /// start, in the order of the requests and up to the first failure at
    /// least. Outcomes that are not those of the registered workflows give
    /// an internal error. Otherwise the first outcome that is not a
    /// completion decides: a call that was never made reports its own
    /// error; a call that came back with an error reports an internal error
    /// whose message is that error's display text. Without such an outcome
    /// there is one completion for each workflow, and the start succeeded.
    pub fn start_workflows(&self, outcomes: Vec<StartOutcome>) -> (r: Result<(), QuerentError>)
        ensures
            is_start_result(self.ids().len() as int, outcomes@, r),
            r is Ok ==> outcomes@.len() == self.ids().len() && forall|i: int|
                0 <= i < outcomes@.len() ==> (#[trigger] outcomes@[i]) is Completed,
    {
        let r = start_result(self.workflows.len(), outcomes);
        proof {
            if r is Ok {
                lemma_started_all(self.ids().len() as int, outcomes@, r);
            }
        }
        r
    }

    /// The requests of two registered workflows with inline sources name
    /// different modules and files, whatever the workflows are called.
    pub proof fn lemma_requests_kept_apart(self, i: int, j: int)
        requires
            self.wf(),
            0 <= i < self.ids().len(),
            0 <= j < self.ids().len(),
            i != j,
            self@[self.ids()[i]].code is Some,
            self@[self.ids()[j]].code is Some,
        ensures
            self@.contains_key(self.ids()[i]),
            self@.contains_key(self.ids()[j]),
            callable_of(self@[self.ids()[i]])->Inline_module != callable_of(
                self@[self.ids()[j]],
            )->Inline_module,
            callable_of(self@[self.ids()[i]])->file != callable_of(self@[self.ids()[j]])->file,
    {
        let s = id_pairs(self.workflows@);
        lemma_assoc_index(s, i);
        lemma_assoc_index(s, j);
        if i < j {
            assert(s[i].0 != s[j].0);
        } else {
            assert(s[j].0 != s[i].0);
        }
        lemma_inline_modules_differ(self@[self.ids()[i]], self@[self.ids()[j]]);
    }
}

} // verus!
