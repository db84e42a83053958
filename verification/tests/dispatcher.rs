use querent_synapse::cross::clrepr::{CLRepr, PythonRef};
use querent_synapse::cross::clrepr_python::{ConversionError, PyValue};
use querent_synapse::querent::errors::{ErrorKind, QuerentError, QuerentErrorCauseType};
use querent_synapse::querent::workflow::py_runtime::{
    argument_failure, conversion_failure, initialization_failure, invocation_failure, lookup_failure,
    positional_arguments, reply_delivery, reply_for_value, schedule_failure, signal_for_reply,
    CallPhase, Directive, Dispatcher, InitStep, LookupStage, ProtocolError, PyAsyncCallback,
    PyAsyncFun, QueueFull, RuntimeStatus, Signal,
};

const PHASES: [CallPhase; 6] = [
    CallPhase::Queued,
    CallPhase::Converting,
    CallPhase::Invoking,
    CallPhase::AwaitingNative,
    CallPhase::Completed,
    CallPhase::Failed,
];

const SIGNALS: [Signal; 7] = [
    Signal::Dequeued,
    Signal::Converted,
    Signal::ConversionFailed,
    Signal::LookupFailed,
    Signal::Raised,
    Signal::Suspended,
    Signal::Returned,
];

#[test]
fn phase_machine_follows_the_documented_path() {
    assert_eq!(CallPhase::Queued.advance(Signal::Dequeued), Some(CallPhase::Converting));
    assert_eq!(CallPhase::Converting.advance(Signal::Converted), Some(CallPhase::Invoking));
    assert_eq!(CallPhase::Invoking.advance(Signal::Suspended), Some(CallPhase::AwaitingNative));
    assert_eq!(CallPhase::Invoking.advance(Signal::Returned), Some(CallPhase::Completed));
    assert_eq!(CallPhase::AwaitingNative.advance(Signal::Returned), Some(CallPhase::Completed));
    assert_eq!(CallPhase::Converting.advance(Signal::ConversionFailed), Some(CallPhase::Failed));
    assert_eq!(CallPhase::Invoking.advance(Signal::LookupFailed), Some(CallPhase::Failed));
    assert_eq!(CallPhase::Invoking.advance(Signal::Raised), Some(CallPhase::Failed));
    assert_eq!(CallPhase::AwaitingNative.advance(Signal::Raised), Some(CallPhase::Failed));
    assert_eq!(CallPhase::Queued.advance(Signal::Returned), None);
    assert_eq!(CallPhase::Converting.advance(Signal::Suspended), None);
    assert_eq!(CallPhase::AwaitingNative.advance(Signal::LookupFailed), None);
}

#[test]
fn answered_calls_take_no_further_signal() {
    let mut accepted = 0;
    for phase in PHASES {
        for signal in SIGNALS {
            let next = phase.advance(signal);
            if phase.terminal() {
                assert_eq!(next, None);
            }
            if let Some(p) = next {
                accepted += 1;
                assert_ne!(p, CallPhase::Queued);
                assert_eq!(p.directive() == Some(Directive::Reply), p.terminal());
            }
        }
    }
    assert_eq!(accepted, 11);
}

#[test]
fn directives_by_phase() {
    assert_eq!(CallPhase::Queued.directive(), None);
    assert_eq!(CallPhase::Converting.directive(), Some(Directive::ConvertArguments));
    assert_eq!(CallPhase::Invoking.directive(), Some(Directive::Invoke));
    assert_eq!(CallPhase::AwaitingNative.directive(), Some(Directive::Bridge));
    assert_eq!(CallPhase::Completed.directive(), Some(Directive::Reply));
    assert_eq!(CallPhase::Failed.directive(), Some(Directive::Reply));
    assert!(CallPhase::Converting.busy() && CallPhase::Invoking.busy());
    assert!(!CallPhase::Queued.busy() && !CallPhase::AwaitingNative.busy());
    assert!(!CallPhase::Completed.busy() && !CallPhase::Failed.busy());
}

#[test]
fn queue_is_bounded() {
    let mut d = Dispatcher::new(2);
    assert_eq!(d.submit(), Ok(0));
    assert_eq!(d.submit(), Ok(1));
    assert_eq!(d.submit(), Err(QueueFull));
    assert_eq!(d.submitted(), 2);
    assert_eq!(d.queued(), 2);
    assert_eq!(d.next_call(), Some(0));
    assert_eq!(d.queued(), 1);
    assert_eq!(d.submit(), Ok(2));
    assert_eq!(d.submit(), Err(QueueFull));
    let mut none = Dispatcher::new(0);
    assert_eq!(none.submit(), Err(QueueFull));
}

#[test]
fn one_call_at_a_time_in_submission_order() {
    let mut d = Dispatcher::new(1024);
    for expected in 0..3 {
        assert_eq!(d.submit(), Ok(expected));
    }
    assert!(!d.thread_taken());
    assert_eq!(d.next_call(), Some(0));
    assert!(d.thread_taken());
    assert_eq!(d.phase(0), Some(CallPhase::Converting));
    assert_eq!(d.next_call(), None);
    assert_eq!(d.signal(0, Signal::Converted), Ok((CallPhase::Invoking, Directive::Invoke)));
    assert_eq!(d.next_call(), None);
    assert_eq!(d.signal(0, Signal::Returned), Ok((CallPhase::Completed, Directive::Reply)));
    assert!(!d.thread_taken());
    assert_eq!(d.next_call(), Some(1));
    assert_eq!(d.phase(2), Some(CallPhase::Queued));
    assert_eq!(d.phase(3), None);
}

#[test]
fn n_workflows_give_exactly_n_replies() {
    let n = 5;
    let mut d = Dispatcher::new(1024);
    for _ in 0..n {
        d.submit().unwrap();
    }
    let mut replies = 0;
    let mut invoked = vec![0; n];
    while let Some(id) = d.next_call() {
        assert_eq!(d.signal(id, Signal::Converted).unwrap().1, Directive::Invoke);
        invoked[id] += 1;
        let signal = if id % 2 == 0 { Signal::Suspended } else { Signal::Raised };
        let (_, directive) = d.signal(id, signal).unwrap();
        if directive == Directive::Reply {
            replies += 1;
        }
    }
    for id in (0..n).rev() {
        if d.phase(id) == Some(CallPhase::AwaitingNative) {
            let (_, directive) = d.signal(id, Signal::Returned).unwrap();
            assert_eq!(directive, Directive::Reply);
            replies += 1;
        }
    }
    assert_eq!(replies, n);
    assert_eq!(d.replies(), n);
    assert!(invoked.iter().all(|&count| count == 1));
    for id in 0..n {
        assert!(d.phase(id).unwrap().terminal());
        for signal in SIGNALS {
            assert_eq!(d.signal(id, signal), Err(ProtocolError::Unexpected));
        }
    }
    assert_eq!(d.replies(), n);
}

#[test]
fn a_fast_call_can_finish_before_a_long_awaiting_one() {
    let mut d = Dispatcher::new(8);
    let slow = d.submit().unwrap();
    let fast = d.submit().unwrap();
    assert_eq!(d.next_call(), Some(slow));
    d.signal(slow, Signal::Converted).unwrap();
    assert_eq!(
        d.signal(slow, Signal::Suspended),
        Ok((CallPhase::AwaitingNative, Directive::Bridge))
    );
    assert!(!d.thread_taken());
    assert_eq!(d.next_call(), Some(fast));
    d.signal(fast, Signal::Converted).unwrap();
    assert_eq!(d.signal(fast, Signal::Returned), Ok((CallPhase::Completed, Directive::Reply)));
    assert_eq!(d.replies(), 1);
    assert_eq!(d.phase(slow), Some(CallPhase::AwaitingNative));
    assert_eq!(d.signal(slow, Signal::Returned), Ok((CallPhase::Completed, Directive::Reply)));
    assert_eq!(d.replies(), 2);
}

#[test]
fn a_missing_callable_fails_alone() {
    let mut d = Dispatcher::new(8);
    let broken = d.submit().unwrap();
    let good = d.submit().unwrap();
    assert_eq!(d.next_call(), Some(broken));
    d.signal(broken, Signal::Converted).unwrap();
    let failure = lookup_failure(LookupStage::Attribute, "no attribute".to_string());
    assert_eq!(failure.kind, ErrorKind::Lookup);
    assert_eq!(failure.message, "Failed to find start function.");
    let reply: Result<CLRepr, _> = Err(failure);
    let signal = signal_for_reply(&reply);
    assert_eq!(signal, Signal::LookupFailed);
    assert_eq!(d.signal(broken, signal), Ok((CallPhase::Failed, Directive::Reply)));
    assert!(!d.thread_taken());
    assert_eq!(d.next_call(), Some(good));
    d.signal(good, Signal::Converted).unwrap();
    assert_eq!(d.signal(good, Signal::Returned), Ok((CallPhase::Completed, Directive::Reply)));
    assert_eq!(d.phase(broken), Some(CallPhase::Failed));
    assert_eq!(d.replies(), 2);
}

#[test]
fn refused_signals_change_nothing() {
    let mut d = Dispatcher::new(8);
    assert_eq!(d.signal(0, Signal::Converted), Err(ProtocolError::UnknownCall));
    let id = d.submit().unwrap();
    assert_eq!(d.signal(id, Signal::Dequeued), Err(ProtocolError::Unexpected));
    assert_eq!(d.signal(id, Signal::Converted), Err(ProtocolError::Unexpected));
    assert_eq!(d.phase(id), Some(CallPhase::Queued));
    assert_eq!(d.signal(id + 1, Signal::Converted), Err(ProtocolError::UnknownCall));
    assert_eq!(d.next_call(), Some(id));
    assert_eq!(d.signal(id, Signal::Dequeued), Err(ProtocolError::Unexpected));
    assert_eq!(d.signal(id, Signal::Returned), Err(ProtocolError::Unexpected));
    assert_eq!(d.phase(id), Some(CallPhase::Converting));
    assert_eq!(d.replies(), 0);
    assert_eq!(d.signal(id, Signal::ConversionFailed), Ok((CallPhase::Failed, Directive::Reply)));
    assert_eq!(d.replies(), 1);
}

#[test]
fn failures_carry_their_kind_and_text() {
    let f = lookup_failure(LookupStage::Module, "No module named 'nope'".to_string());
    assert_eq!((f.kind, f.message.as_str(), f.trace.as_deref()), (
        ErrorKind::Lookup,
        "No module named 'nope'",
        None
    ));
    let f = lookup_failure(LookupStage::Callable, "not a function".to_string());
    assert_eq!(f.message, "not a function");
    let f = invocation_failure("ValueError: x", Some("Traceback: line 1".to_string()));
    assert_eq!(f.kind, ErrorKind::Invocation);
    assert_eq!(f.message, "Python error: ValueError: x");
    let e = f.into_error();
    assert_eq!(e.message, "Python error: ValueError: x\nTraceback: line 1");
    assert!(matches!(e.cause, QuerentErrorCauseType::Internal(None)));
    let f = invocation_failure("boom", None);
    assert_eq!(f.into_error().to_display_string(), "Internal: Python error: boom");
    let f = conversion_failure(ConversionError::DictKeyNotText);
    assert_eq!(f.kind, ErrorKind::Conversion);
    assert_eq!(f.message, "Python error: dictionary key is not a string");
    assert!(!ErrorKind::Conversion.blames_user());
    assert!(ErrorKind::DuplicateId.blames_user());
    assert!(ErrorKind::Initialization.fatal());
    assert!(!ErrorKind::Lookup.fatal() && !ErrorKind::Channel.fatal());
}

#[test]
fn replies_for_native_results() {
    assert!(matches!(reply_for_value(&PyValue::Int(7)), Ok(CLRepr::Int(7))));
    assert!(matches!(reply_for_value(&PyValue::NoneValue), Ok(CLRepr::Null)));
    let bad = PyValue::Dict(vec![(PyValue::Int(1), PyValue::Int(1))]);
    let reply = reply_for_value(&bad);
    assert_eq!(signal_for_reply(&reply), Signal::ConversionFailed);
    match reply {
        Err(f) => {
            assert_eq!(f.kind, ErrorKind::Conversion);
            assert_eq!(f.message, "Python error: dictionary key is not a string");
        },
        Ok(v) => panic!("unexpected value {:?}", v),
    }
    assert_eq!(signal_for_reply(&Ok(CLRepr::Null)), Signal::Returned);
    assert_eq!(signal_for_reply(&Err(invocation_failure("x", None))), Signal::Raised);
}

#[test]
fn configuration_is_the_last_positional_argument() {
    let args = vec![CLRepr::Int(3), CLRepr::Bool(false)];
    let with = positional_arguments(&args, Some(PyValue::Str("cfg".to_string())));
    assert_eq!(
        with,
        vec![PyValue::Int(3), PyValue::Bool(false), PyValue::Str("cfg".to_string())]
    );
    let without = positional_arguments(&args, None);
    assert_eq!(without, vec![PyValue::Int(3), PyValue::Bool(false)]);
    assert_eq!(positional_arguments(&vec![], None), vec![]);
}

#[test]
fn reply_is_delivered_once_through_the_callback() {
    let (tx, mut rx) = tokio::sync::oneshot::channel::<Result<CLRepr, QuerentError>>();
    let task = PyAsyncFun::new(
        PythonRef { handle: 5 },
        vec![CLRepr::Int(1)],
        PyAsyncCallback::Channel(tx),
        None,
    );
    let (fun, args, callback, config) = task.split();
    assert_eq!(fun, PythonRef { handle: 5 });
    assert_eq!(args.len(), 1);
    assert!(config.is_none());
    assert!(callback.complete(Ok(CLRepr::Int(7))).is_ok());
    assert!(matches!(rx.try_recv(), Ok(Ok(CLRepr::Int(7)))));
}

#[test]
fn reply_to_a_caller_that_left_is_an_internal_error() {
    let (tx, rx) = tokio::sync::oneshot::channel::<Result<CLRepr, QuerentError>>();
    drop(rx);
    let err = PyAsyncCallback::Channel(tx).complete(Ok(CLRepr::Null)).unwrap_err();
    assert_eq!(err.message, "Unable to send result back to consumer");
    assert!(matches!(err.cause, QuerentErrorCauseType::Internal(None)));
}

#[test]
fn a_failed_start_is_reported_to_every_later_attempt() {
    let mut status = RuntimeStatus::NotStarted;
    let refused = status.ensure_ready().unwrap_err();
    assert_eq!(refused.kind, ErrorKind::Initialization);
    assert_eq!(refused.message, "Unable to set PyRuntime");
    assert!(status.init(Ok(())).is_ok());
    assert_eq!(status, RuntimeStatus::Ready);
    assert!(status.ensure_ready().is_ok());
    assert!(status.init(Err(InitStep::Bridge)).is_ok());
    assert_eq!(status, RuntimeStatus::Ready);

    let mut status = RuntimeStatus::NotStarted;
    let failure = status.init(Err(InitStep::Bridge)).unwrap_err();
    assert_eq!(failure.kind, ErrorKind::Initialization);
    assert!(failure.kind.fatal());
    assert_eq!(failure.message, "Unable to initialize Python runtime");
    assert_eq!(status, RuntimeStatus::Failed(InitStep::Bridge));
    assert_eq!(status.init(Ok(())).unwrap_err().message, "Unable to initialize Python runtime");
    assert_eq!(status, RuntimeStatus::Failed(InitStep::Bridge));
    assert_eq!(status.ensure_ready().unwrap_err().message, "Unable to initialize Python runtime");

    assert_eq!(initialization_failure(InitStep::Slot).message, "Unable to set PyRuntime");
    let f = schedule_failure("channel closed");
    assert_eq!(f.kind, ErrorKind::Channel);
    assert_eq!(f.message, "Unable to schedule python function call: channel closed");
    assert_eq!(
        f.into_error().to_display_string(),
        "Internal: Unable to schedule python function call: channel closed"
    );
}

#[test]
fn reply_delivery_reports_a_lost_reply() {
    assert!(reply_delivery(true).is_ok());
    let err = reply_delivery(false).unwrap_err();
    assert_eq!(err.message, "Unable to send result back to consumer");
    assert!(matches!(err.cause, QuerentErrorCauseType::Internal(None)));
    assert!(err.backtrace().is_some());
}

#[test]
fn an_argument_the_runtime_cannot_take_is_a_conversion_failure() {
    let f = argument_failure("OverflowError: too large");
    assert_eq!(f.kind, ErrorKind::Conversion);
    assert_eq!(f.message, "Python error: OverflowError: too large");
    let reply: Result<CLRepr, _> = Err(f);
    assert_eq!(signal_for_reply(&reply), Signal::ConversionFailed);
    let mut d = Dispatcher::new(4);
    let first = d.submit().unwrap();
    let second = d.submit().unwrap();
    assert_eq!(d.next_call(), Some(first));
    assert_eq!(
        d.signal(first, signal_for_reply(&reply)),
        Ok((CallPhase::Failed, Directive::Reply))
    );
    assert_eq!(d.next_call(), Some(second));
}
