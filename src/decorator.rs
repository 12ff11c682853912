use vstd::prelude::*;
use crate::error::{error_message, LangSmithError};
use crate::json::{as_object_under, ensure_inputs_object, ensure_outputs_object, Json, JsonView};
use crate::run::{ordering_key, string_opt_view, update_of, Run, RunType};
use crate::strategies::{Request, TracingStrategy, Transport};
use crate::tracer::Tracer;

verus! {

/// `run` is the run of a traced call as it was started: named `name`, of
/// kind `run_type`, with `inputs` as an object, in session `session`, and the
/// root of a trace of its own.
pub open spec fn started_trace(
    run: Run,
    name: Seq<char>,
    run_type: RunType,
    inputs: JsonView,
    session: Option<Seq<char>>,
) -> bool {
    &&& run.name@ == name
    &&& run.run_type == run_type
    &&& run.inputs@ == as_object_under(inputs, "input"@)
    &&& string_opt_view(run.session_name) == session
    &&& run.parent_run_id is None
    &&& run.trace_id == Some(run.id)
    &&& run.dotted_order matches Some(k) && k@ == ordering_key(run.start_time, run.id, None)
}

/// The tracer for a traced call, or none at all when tracing is off: then no
/// run is made. Bare inputs go under `"input"`; the run belongs to
/// `session_name`.
pub fn start_trace(enabled: bool, name: &str, run_type: RunType, inputs: Json, session_name: Option<String>) -> (r: Option<Tracer>)
    ensures
        !enabled ==> r is None,
        enabled ==> {
            &&& r is Some
            &&& r->Some_0.run.name@ == name@
            &&& r->Some_0.run.run_type == run_type
            &&& r->Some_0.run.inputs@ == as_object_under(inputs@, "input"@)
            &&& r->Some_0.run.session_name == session_name
            &&& r->Some_0.run == (Run { session_name: r->Some_0.run.session_name, ..r->Some_0.run })
            &&& (Run { session_name: None, ..r->Some_0.run }).is_fresh()
            &&& r->Some_0.run.start_time.wf()
        },
{
    if !enabled {
        return None;
    }
    let tracer = Tracer::new(name.to_string(), run_type, ensure_inputs_object(inputs));
    match session_name {
        Some(s) => Some(tracer.with_session_name(s)),
        None => Some(tracer),
    }
}

/// Ends a traced run after its work succeeded with `outputs` (bare outputs go
/// under `"output"`).
pub fn finish_ok(tracer: &mut Tracer, outputs: Json) -> (r: Result<(), LangSmithError>)
    ensures
        old(tracer).run.end_time is None ==> {
            &&& r is Ok
            &&& final(tracer).run.outputs matches Some(o) && o@ == as_object_under(
                outputs@,
                "output"@,
            )
            &&& final(tracer).run.end_time is Some
            &&& final(tracer).run == (Run {
                outputs: final(tracer).run.outputs,
                end_time: final(tracer).run.end_time,
                ..old(tracer).run
            })
        },
        old(tracer).run.end_time is Some ==> r is Err && *final(tracer) == *old(tracer),
{
    tracer.end(ensure_outputs_object(outputs))
}

/// Records on a traced run that its work failed with the message `message`.
pub fn finish_err(tracer: &mut Tracer, message: &str)
    ensures
        final(tracer).run.error matches Some(m) && m@ == message@,
        final(tracer).run == (Run { error: final(tracer).run.error, ..old(tracer).run }),
{
    tracer.set_error(message);
}

/// How the work of a traced call turned out.
pub enum WorkOutcome<O, E> {
    /// It returned this output, which serialized to this payload.
    Succeeded(O, Json),
    /// It returned an output that could not be serialized, for this reason.
    OutputUnserializable(E),
    /// It failed with this error, whose message is this text.
    Failed(E, String),
}

/// The step of a traced call after its work: the run records the outcome, and
/// the result says what the caller gets and whether the run's end is to be
/// sent. The caller gets the work's own output or failure, or the reason its
/// output could not be serialized; in that last case the run is left as it
/// was and no end is sent.
pub fn settle<O, E>(tracer: &mut Tracer, outcome: WorkOutcome<O, E>) -> (r: (Result<O, E>, bool))
    ensures
        match outcome {
            WorkOutcome::Succeeded(o, j) => {
                &&& r.0 == Ok::<O, E>(o)
                &&& r.1
                &&& old(tracer).run.end_time is None ==> {
                    &&& final(tracer).run.outputs matches Some(out) && out@ == as_object_under(
                        j@,
                        "output"@,
                    )
                    &&& final(tracer).run.end_time is Some
                    &&& final(tracer).run == (Run {
                        outputs: final(tracer).run.outputs,
                        end_time: final(tracer).run.end_time,
                        ..old(tracer).run
                    })
                }
                &&& old(tracer).run.end_time is Some ==> *final(tracer) == *old(tracer)
            },
            WorkOutcome::OutputUnserializable(e) => {
                &&& r.0 == Err::<O, E>(e)
                &&& !r.1
                &&& *final(tracer) == *old(tracer)
            },
            WorkOutcome::Failed(e, m) => {
                &&& r.0 == Err::<O, E>(e)
                &&& r.1
                &&& final(tracer).run.error matches Some(text) && text@ == m@
                &&& final(tracer).run == (Run { error: final(tracer).run.error, ..old(tracer).run })
            },
        },
{
    match outcome {
        WorkOutcome::Succeeded(o, j) => {
            let _ = finish_ok(tracer, j);
            (Ok(o), true)
        },
        WorkOutcome::OutputUnserializable(e) => (Err(e), false),
        WorkOutcome::Failed(e, m) => {
            finish_err(tracer, m.as_str());
            (Err(e), true)
        },
    }
}

/// The run as it was when its start was sent: nothing recorded of its end.
pub open spec fn as_started(run: Run) -> Run {
    Run { outputs: None, end_time: None, error: None, ..run }
}

/// `after` is `before` with the start of `run` added, and then its end when
/// `ended`, carrying its terminal fields.
pub open spec fn sent_for(before: Seq<Request>, after: Seq<Request>, run: Run, ended: bool) -> bool {
    &&& after.len() == before.len() + if ended {
        2int
    } else {
        1int
    }
    &&& after.subrange(0, before.len() as int) == before
    &&& after[before.len() as int] == Request::Start(as_started(run))
    &&& ended ==> (after.last() matches Request::End(id, u) && id == run.id && update_of(u, run))
}

/// Runs `f` on `inputs`, traced through `strategy` when `enabled`, and
/// returns what the caller gets together with the traced run as it was last
/// handed to `strategy`.
///
/// When tracing is off, `f` runs alone: no run is made and nothing is sent.
/// When it is on:
/// - if serializing the inputs fails, that failure is returned, `f` does not
///   run and nothing is sent;
/// - otherwise a run is started and its start sent, and `f` runs;
/// - if `f` fails, the run records the failure's message, its end is sent,
///   and the failure is returned unchanged;
/// - if `f` succeeds but serializing its output fails, that failure is
///   returned and no end is sent;
/// - otherwise the run ends with the output, its end is sent, and `f`'s
///   result is returned.
/// Whatever the strategy answers, it changes none of this.
pub fn trace_node_sync<S, I, O, F, SI, SO>(
    strategy: &mut Transport<S>,
    enabled: bool,
    name: &str,
    run_type: RunType,
    session_name: Option<String>,
    inputs: I,
    serialize_inputs: SI,
    serialize_outputs: SO,
    f: F,
) -> (r: (Result<O, LangSmithError>, Option<Run>)) where
    S: TracingStrategy,
    F: FnOnce(I) -> Result<O, LangSmithError>,
    SI: FnOnce(&I) -> Result<Json, LangSmithError>,
    SO: FnOnce(&O) -> Result<Json, LangSmithError>,

    requires
        f.requires((inputs,)),
        serialize_inputs.requires((&inputs,)),
        forall|o: &O| serialize_outputs.requires((o,)),
    ensures
        !enabled ==> {
            &&& f.ensures((inputs,), r.0)
            &&& r.1 is None
            &&& final(strategy).sent@ == old(strategy).sent@
        },
        enabled ==> exists|sj: Result<Json, LangSmithError>|
            {
                &&& #[trigger] serialize_inputs.ensures((&inputs,), sj)
                &&& sj is Err ==> {
                    &&& r.0 == Err::<O, LangSmithError>(sj->Err_0)
                    &&& r.1 is None
                    &&& final(strategy).sent@ == old(strategy).sent@
                }
                &&& sj is Ok ==> {
                    &&& r.1 is Some
                    &&& started_trace(
                        r.1->Some_0,
                        name@,
                        run_type,
                        sj->Ok_0@,
                        string_opt_view(session_name),
                    )
                    &&& exists|fr: Result<O, LangSmithError>|
                        {
                            &&& #[trigger] f.ensures((inputs,), fr)
                            &&& fr is Err ==> {
                                &&& r.0 == fr
                                &&& r.1->Some_0.error matches Some(m) && m@ == error_message(
                                    fr->Err_0,
                                )
                                &&& r.1->Some_0.outputs is None
                                &&& r.1->Some_0.end_time is None
                                &&& sent_for(
                                    old(strategy).sent@,
                                    final(strategy).sent@,
                                    r.1->Some_0,
                                    true,
                                )
                            }
                            &&& fr is Ok ==> exists|so: Result<Json, LangSmithError>|
                                {
                                    &&& #[trigger] serialize_outputs.ensures((&fr->Ok_0,), so)
                                    &&& so is Err ==> {
                                        &&& r.0 == Err::<O, LangSmithError>(so->Err_0)
                                        &&& r.1->Some_0.end_time is None
                                        &&& r.1->Some_0.error is None
                                        &&& sent_for(
                                            old(strategy).sent@,
                                            final(strategy).sent@,
                                            r.1->Some_0,
                                            false,
                                        )
                                    }
                                    &&& so is Ok ==> {
                                        &&& r.0 == fr
                                        &&& r.1->Some_0.outputs matches Some(o) && o@
                                            == as_object_under(so->Ok_0@, "output"@)
                                        &&& r.1->Some_0.end_time is Some
                                        &&& r.1->Some_0.error is None
                                        &&& sent_for(
                                            old(strategy).sent@,
                                            final(strategy).sent@,
                                            r.1->Some_0,
                                            true,
                                        )
                                    }
                                }
                        }
                }
            },
{
    if !enabled {
        return (f(inputs), None);
    }
    let ghost arg = inputs;
    let ghost before = strategy.sent@;
    let sj = serialize_inputs(&inputs);
    let ghost sjg = sj;
    let inputs_value = match sj {
        Ok(v) => v,
        Err(e) => {
            assert(serialize_inputs.ensures((&arg,), sjg));
            return (Err(e), None);
        },
    };
    let ghost session = string_opt_view(session_name);
    let mut tracer = start_trace(true, name, run_type, inputs_value, session_name).unwrap();
    let _ = tracer.post(strategy);
    let ghost started = tracer.run;
    let ghost mid = strategy.sent@;
    assert(started_trace(started, name@, run_type, sjg->Ok_0@, session));
    assert(as_started(started) == started);
    let fr = f(inputs);
    let ghost frg = fr;
    match fr {
        Ok(output) => {
            let so = serialize_outputs(&output);
            let ghost sog = so;
            assert(serialize_outputs.ensures((&frg->Ok_0,), sog));
            assert(f.ensures((arg,), frg));
            match so {
                Ok(v) => {
                    let (result, _) = settle(&mut tracer, WorkOutcome::Succeeded(output, v));
                    let _ = tracer.patch(strategy);
                    proof {
                        assert(as_started(tracer.run) == started);
                        assert(strategy.sent@.subrange(0, before.len() as int) =~= before);
                    }
                    (result, Some(tracer.run))
                },
                Err(e) => {
                    let (result, _) = settle(&mut tracer, WorkOutcome::OutputUnserializable(e));
                    proof {
                        assert(strategy.sent@.subrange(0, before.len() as int) =~= before);
                    }
                    (result, Some(tracer.run))
                },
            }
        },
        Err(e) => {
            let m = e.message();
            let (result, _) = settle(&mut tracer, WorkOutcome::Failed(e, m));
            let _ = tracer.patch(strategy);
            proof {
                assert(as_started(tracer.run) == started);
                assert(strategy.sent@.subrange(0, before.len() as int) =~= before);
                assert(f.ensures((arg,), frg));
            }
            (result, Some(tracer.run))
        },
    }
}

} // verus!
