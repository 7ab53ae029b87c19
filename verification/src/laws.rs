//! What holds of the operations, whatever the disk and whatever the world answers.

use crate::chars::{is_space, trimmed};
use crate::decimal::{all_digits, decimal, is_digit, lemma_decimal_denotes, number, unsigned_part};
use crate::error::{ErrorKind, ErrorView};
use crate::model::{follow, Disk, End, Exchange};
use crate::pgtemp::{conn_string_spec, db_path, endpoint, recorded_port};
use crate::plan::{already_exists, outcome_spec, pending_spec, step, ActionView, EventView};
use crate::plan::{Place, StageView};
use crate::process::text_of;
use crate::tools::{probe_spec, stop_spec, Tool};
use crate::version::version_spec;
use vstd::prelude::*;
use vstd::utf8::{encode_utf8, encode_utf8_decode_utf8, encode_utf8_valid_utf8};

verus! {

/// The first exchange of a run: the world answers the pending action, and the
/// rest of the run goes on from the next stage.
pub proof fn lemma_first_exchange(
    root: Seq<char>,
    stage: StageView,
    disk: Disk,
    trace: Seq<Exchange>,
)
    requires
        follow(root, stage, disk, trace) is Some,
        pending_spec(root, stage) is Some,
    ensures
        trace.len() > 0,
        disk.answers(pending_spec(root, stage)->0, trace[0].event, trace[0].disk),
        follow(root, step(root, stage, trace[0].event), trace[0].disk, trace.drop_first()) is Some,
        ({
            let end = follow(root, stage, disk, trace)->0;
            let rest = follow(
                root,
                step(root, stage, trace[0].event),
                trace[0].disk,
                trace.drop_first(),
            )->0;
            &&& end.outcome == rest.outcome
            &&& end.disk == rest.disk
            &&& end.asked == seq![pending_spec(root, stage)->0] + rest.asked
        }),
{
}

/// A run from a stage that asks for nothing is over: nothing was exchanged.
pub proof fn lemma_no_exchange(root: Seq<char>, stage: StageView, disk: Disk, trace: Seq<Exchange>)
    requires
        follow(root, stage, disk, trace) is Some,
        pending_spec(root, stage) is None,
    ensures
        trace.len() == 0,
        outcome_spec(stage) is Some,
        follow(root, stage, disk, trace)->0 == (End {
            outcome: outcome_spec(stage)->0,
            disk,
            asked: Seq::empty(),
        }),
{
}

/// The version query, as a plan asks for it.
pub open spec fn ask_version() -> ActionView {
    ActionView::Run { tool: Tool::Probe, invocation: probe_spec() }
}

/// The look at the instance directory, as a plan asks for it.
pub open spec fn ask_root(root: Seq<char>) -> ActionView {
    ActionView::Exists { place: Place::Root, path: root }
}

/// Version gating. Where the version query fails or names no supported
/// version, create and destroy end with that error. They have asked for
/// nothing but the query, and the disk is as it was.
pub proof fn law_version_gate(root: Seq<char>, stage: StageView, disk: Disk, trace: Seq<Exchange>)
    requires
        stage is CreateProbe || stage is DestroyProbe,
        follow(root, stage, disk, trace) is Some,
        trace.len() > 0,
        trace[0].event matches EventView::Exited(exit) && version_spec(exit) is Err,
    ensures
        follow(root, stage, disk, trace)->0 == (End {
            outcome: Err(version_spec(trace[0].event->Exited_0)->Err_0),
            disk,
            asked: seq![ask_version()],
        }),
{
    lemma_first_exchange(root, stage, disk, trace);
    let next = step(root, stage, trace[0].event);
    lemma_no_exchange(root, next, trace[0].disk, trace.drop_first());
    assert(seq![ask_version()] + Seq::<ActionView>::empty() =~= seq![ask_version()]);
}

/// Destroy without an instance. Where there is no instance directory and the
/// installed version is supported, destroy succeeds. It has asked for the
/// version and looked for the directory, no more: the server is not stopped,
/// and the disk is as it was.
pub proof fn law_destroy_nothing(root: Seq<char>, disk: Disk, trace: Seq<Exchange>)
    requires
        !disk.root,
        follow(root, StageView::DestroyProbe, disk, trace) is Some,
        trace.len() > 0,
        trace[0].event matches EventView::Exited(exit) && version_spec(exit) is Ok,
    ensures
        follow(root, StageView::DestroyProbe, disk, trace)->0 == (End {
            outcome: Ok(()),
            disk,
            asked: seq![ask_version(), ask_root(root)],
        }),
{
    lemma_first_exchange(root, StageView::DestroyProbe, disk, trace);
    let rest = trace.drop_first();
    lemma_first_exchange(root, StageView::RootCheck, disk, rest);
    lemma_no_exchange(root, step(root, StageView::RootCheck, rest[0].event), disk, rest.drop_first());
    assert(seq![ask_version()] + (seq![ask_root(root)] + Seq::<ActionView>::empty()) =~= seq![
        ask_version(),
        ask_root(root),
    ]);
}

/// What a port marker holds that records `port`.
pub open spec fn marker_of(port: u32) -> Seq<u8> {
    encode_utf8(decimal(port as nat))
}

/// The port marker, as create writes it, records the port.
pub proof fn lemma_marker_round_trip(port: u32)
    requires
        port > 0,
    ensures
        recorded_port(marker_of(port)) == Some(port),
        conn_string_spec(Some(marker_of(port))) == Ok::<Seq<char>, ErrorView>(endpoint(port)),
{
    let text = decimal(port as nat);
    lemma_decimal_denotes(port as nat);
    encode_utf8_valid_utf8(text);
    encode_utf8_decode_utf8(text);
    assert(is_digit(text.last()));
    assert(!is_space(text.last()));
    assert(trimmed(text) == text);
}

/// Whether the world refuses nothing in `trace`.
pub open spec fn nothing_refused(trace: Seq<Exchange>) -> bool {
    forall|i: int| 0 <= i < trace.len() ==> !((#[trigger] trace[i]).event is Failed)
}

/// An initialisation that the file system does not refuse succeeds, and leaves
/// the instance directory with whatever was in it.
pub proof fn lemma_init_run(root: Seq<char>, disk: Disk, trace: Seq<Exchange>)
    requires
        follow(root, StageView::EnsureCheck, disk, trace) is Some,
        nothing_refused(trace),
    ensures
        ({
            let end = follow(root, StageView::EnsureCheck, disk, trace)->0;
            &&& end.outcome is Ok
            &&& end.disk == (Disk { root: true, ..disk })
            &&& disk.root ==> end.asked == seq![ask_root(root)]
        }),
{
    lemma_first_exchange(root, StageView::EnsureCheck, disk, trace);
    let rest = trace.drop_first();
    let then = step(root, StageView::EnsureCheck, trace[0].event);
    if disk.root {
        lemma_no_exchange(root, then, trace[0].disk, rest);
        assert(seq![ask_root(root)] + Seq::<ActionView>::empty() =~= seq![ask_root(root)]);
    } else {
        lemma_first_exchange(root, then, trace[0].disk, rest);
        assert(rest[0] == trace[1]);
        lemma_no_exchange(root, step(root, then, rest[0].event), rest[0].disk, rest.drop_first());
    }
}

/// Initialisation is idempotent. Where the file system refuses nothing, the
/// first initialisation succeeds and leaves the instance directory, with
/// whatever was in it; the second succeeds too, after one look at the
/// directory, and changes nothing.
pub proof fn law_init_twice(
    root: Seq<char>,
    disk: Disk,
    first: Seq<Exchange>,
    second: Seq<Exchange>,
)
    requires
        follow(root, StageView::EnsureCheck, disk, first) is Some,
        follow(
            root,
            StageView::EnsureCheck,
            follow(root, StageView::EnsureCheck, disk, first)->0.disk,
            second,
        ) is Some,
        nothing_refused(first),
    ensures
        ({
            let once = follow(root, StageView::EnsureCheck, disk, first)->0;
            let twice = follow(root, StageView::EnsureCheck, once.disk, second)->0;
            &&& once.outcome is Ok
            &&& once.disk == (Disk { root: true, ..disk })
            &&& twice == (End { outcome: Ok(()), disk: once.disk, asked: seq![ask_root(root)] })
        }),
{
    lemma_init_run(root, disk, first);
    let once = follow(root, StageView::EnsureCheck, disk, first)->0;
    lemma_first_exchange(root, StageView::EnsureCheck, once.disk, second);
    lemma_no_exchange(
        root,
        step(root, StageView::EnsureCheck, second[0].event),
        second[0].disk,
        second.drop_first(),
    );
    assert(seq![ask_root(root)] + Seq::<ActionView>::empty() =~= seq![ask_root(root)]);
}

/// What holds of the disk while create for `port` stands at `stage`: from the
/// stage after the writing of the port marker on, the marker records the port;
/// once the init tool has succeeded, the data directory is there.
pub open spec fn create_invariant(stage: StageView, disk: Disk, port: u32) -> bool {
    match stage {
        StageView::CreateProbe { port: p } => p == port,
        StageView::DataCheck { port: p } => p == port,
        StageView::MarkerWrite { port: p } => p == port,
        StageView::ParentCheck { port: p } => p == port && disk.marker == Some(marker_of(port)),
        StageView::ParentCreate { port: p } => p == port && disk.marker == Some(marker_of(port)),
        StageView::ParentRecheck { port: p, reason } => p == port && disk.marker == Some(
            marker_of(port),
        ),
        StageView::InitTool { port: p } => p == port && disk.marker == Some(marker_of(port)),
        StageView::Start { port: p } => p == port && disk.marker == Some(marker_of(port))
            && disk.data,
        StageView::CleanupCheck { error } => true,
        StageView::CleanupRemove { error } => true,
        StageView::Finished { error } => error is None ==> disk.marker == Some(marker_of(port))
            && disk.data,
        _ => false,
    }
}

/// Create keeps its invariant to the end.
pub proof fn lemma_create_runs(
    root: Seq<char>,
    stage: StageView,
    disk: Disk,
    port: u32,
    trace: Seq<Exchange>,
)
    requires
        create_invariant(stage, disk, port),
        follow(root, stage, disk, trace) is Some,
    ensures
        ({
            let end = follow(root, stage, disk, trace)->0;
            end.outcome is Ok ==> end.disk.marker == Some(marker_of(port)) && end.disk.data
        }),
    decreases trace.len(),
{
    if pending_spec(root, stage) is Some {
        lemma_first_exchange(root, stage, disk, trace);
        lemma_create_runs(
            root,
            step(root, stage, trace[0].event),
            trace[0].disk,
            port,
            trace.drop_first(),
        );
    } else {
        lemma_no_exchange(root, stage, disk, trace);
    }
}

/// A create that succeeds leaves a data directory, and a port marker that
/// records its port.
pub proof fn law_create_leaves_instance(root: Seq<char>, disk: Disk, port: u32, trace: Seq<Exchange>)
    requires
        follow(root, StageView::CreateProbe { port }, disk, trace) is Some,
        follow(root, StageView::CreateProbe { port }, disk, trace)->0.outcome is Ok,
    ensures
        ({
            let end = follow(root, StageView::CreateProbe { port }, disk, trace)->0;
            &&& end.disk.data
            &&& end.disk.marker == Some(marker_of(port))
        }),
{
    lemma_create_runs(root, StageView::CreateProbe { port }, disk, port, trace);
}

/// Create on a disk that holds a data directory fails and leaves the disk as
/// it was. It fails because an instance is already present, unless the version
/// query has failed before.
pub proof fn law_create_refused(root: Seq<char>, disk: Disk, port: u32, trace: Seq<Exchange>)
    requires
        disk.data,
        follow(root, StageView::CreateProbe { port }, disk, trace) is Some,
    ensures
        ({
            let end = follow(root, StageView::CreateProbe { port }, disk, trace)->0;
            &&& end.outcome is Err
            &&& end.disk == disk
            &&& (trace[0].event matches EventView::Exited(exit) && version_spec(exit) is Ok)
                ==> end.outcome == Err::<(), ErrorView>(
                ErrorView { kind: ErrorKind::AlreadyExists, message: already_exists() },
            )
        }),
{
    let stage = StageView::CreateProbe { port };
    lemma_first_exchange(root, stage, disk, trace);
    let rest = trace.drop_first();
    let then = step(root, stage, trace[0].event);
    if then is DataCheck {
        lemma_first_exchange(root, then, disk, rest);
        lemma_no_exchange(root, step(root, then, rest[0].event), rest[0].disk, rest.drop_first());
    } else {
        lemma_no_exchange(root, then, trace[0].disk, rest);
    }
}

/// Mutual exclusion. After a create for the port `p1` that succeeded, a create
/// for `p2` fails and changes nothing: the port marker still records `p1`. It
/// fails because an instance is already present, unless the version query has
/// failed before.
pub proof fn law_second_create_refused(
    root: Seq<char>,
    disk: Disk,
    p1: u32,
    p2: u32,
    first: Seq<Exchange>,
    second: Seq<Exchange>,
)
    requires
        follow(root, StageView::CreateProbe { port: p1 }, disk, first) is Some,
        follow(root, StageView::CreateProbe { port: p1 }, disk, first)->0.outcome is Ok,
        follow(
            root,
            StageView::CreateProbe { port: p2 },
            follow(root, StageView::CreateProbe { port: p1 }, disk, first)->0.disk,
            second,
        ) is Some,
    ensures
        ({
            let once = follow(root, StageView::CreateProbe { port: p1 }, disk, first)->0;
            let twice = follow(root, StageView::CreateProbe { port: p2 }, once.disk, second)->0;
            &&& twice.outcome is Err
            &&& twice.disk == once.disk
            &&& twice.disk.marker == Some(marker_of(p1))
            &&& (second[0].event matches EventView::Exited(exit) && version_spec(exit) is Ok)
                ==> twice.outcome == Err::<(), ErrorView>(
                ErrorView { kind: ErrorKind::AlreadyExists, message: already_exists() },
            )
        }),
{
    law_create_leaves_instance(root, disk, p1, first);
    let once = follow(root, StageView::CreateProbe { port: p1 }, disk, first)->0;
    law_create_refused(root, once.disk, p2, second);
}

/// Round trip. After a create for `port` that succeeded, the endpoint is
/// described as that of `port`.
pub proof fn law_create_then_describe(root: Seq<char>, disk: Disk, port: u32, trace: Seq<Exchange>)
    requires
        port > 0,
        follow(root, StageView::CreateProbe { port }, disk, trace) is Some,
        follow(root, StageView::CreateProbe { port }, disk, trace)->0.outcome is Ok,
    ensures
        conn_string_spec(follow(root, StageView::CreateProbe { port }, disk, trace)->0.disk.marker)
            == Ok::<Seq<char>, ErrorView>(endpoint(port)),
{
    law_create_leaves_instance(root, disk, port, trace);
    lemma_marker_round_trip(port);
}

/// Whether the world refuses nothing with `event`: the action was carried out,
/// and a tool that ran reported success and wrote text.
pub open spec fn helpful(event: EventView) -> bool {
    match event {
        EventView::Failed(_) => false,
        EventView::Exited(exit) => exit.success && text_of(exit.stdout) is Some,
        _ => true,
    }
}

/// The stages of a create that has not failed, on a disk that does not stand
/// in its way.
pub open spec fn create_on_track(stage: StageView, disk: Disk) -> bool {
    match stage {
        StageView::DataCheck { port } => !disk.data,
        StageView::MarkerWrite { port } => true,
        StageView::ParentCheck { port } => true,
        StageView::ParentCreate { port } => true,
        StageView::InitTool { port } => true,
        StageView::Start { port } => true,
        StageView::Finished { error } => error is None,
        _ => false,
    }
}

/// A create that has not failed succeeds where the world refuses nothing.
pub proof fn lemma_create_goes_through(
    root: Seq<char>,
    stage: StageView,
    disk: Disk,
    trace: Seq<Exchange>,
)
    requires
        create_on_track(stage, disk),
        follow(root, stage, disk, trace) is Some,
        forall|i: int| 0 <= i < trace.len() ==> helpful((#[trigger] trace[i]).event),
    ensures
        follow(root, stage, disk, trace)->0.outcome is Ok,
    decreases trace.len(),
{
    if pending_spec(root, stage) is Some {
        lemma_first_exchange(root, stage, disk, trace);
        let rest = trace.drop_first();
        assert(helpful(trace[0].event));
        assert forall|i: int| 0 <= i < rest.len() implies helpful((#[trigger] rest[i]).event) by {
            assert(rest[i] == trace[i + 1]);
        }
        lemma_create_goes_through(root, step(root, stage, trace[0].event), trace[0].disk, rest);
    } else {
        lemma_no_exchange(root, stage, disk, trace);
    }
}

/// Create on a free disk. Where the instance directory is there and no data
/// directory in it, the installed version is supported and the world refuses
/// nothing, create succeeds.
pub proof fn law_create_on_free_disk(root: Seq<char>, disk: Disk, port: u32, trace: Seq<Exchange>)
    requires
        disk.root,
        !disk.data,
        follow(root, StageView::CreateProbe { port }, disk, trace) is Some,
        trace.len() > 0,
        trace[0].event matches EventView::Exited(exit) && version_spec(exit) is Ok,
        forall|i: int| 0 <= i < trace.len() ==> helpful((#[trigger] trace[i]).event),
    ensures
        ({
            let end = follow(root, StageView::CreateProbe { port }, disk, trace)->0;
            &&& end.outcome is Ok
            &&& end.disk.data
            &&& end.disk.marker == Some(marker_of(port))
        }),
{
    let stage = StageView::CreateProbe { port };
    lemma_first_exchange(root, stage, disk, trace);
    let rest = trace.drop_first();
    assert forall|i: int| 0 <= i < rest.len() implies helpful((#[trigger] rest[i]).event) by {
        assert(rest[i] == trace[i + 1]);
    }
    lemma_create_goes_through(root, step(root, stage, trace[0].event), trace[0].disk, rest);
    law_create_leaves_instance(root, disk, port, trace);
}

/// A run that ends with a setup error has removed the instance, unless the
/// world refused its last action.
pub proof fn lemma_setup_failure_cleans(
    root: Seq<char>,
    stage: StageView,
    disk: Disk,
    trace: Seq<Exchange>,
)
    requires
        follow(root, stage, disk, trace) is Some,
        follow(root, stage, disk, trace)->0.outcome matches Err(error) && error.kind
            == ErrorKind::Setup,
        trace.len() > 0,
        !(trace.last().event is Failed),
    ensures
        follow(root, stage, disk, trace)->0.disk == Disk::empty(),
    decreases trace.len(),
{
    if pending_spec(root, stage) is Some {
        lemma_first_exchange(root, stage, disk, trace);
        let then = step(root, stage, trace[0].event);
        let rest = trace.drop_first();
        if pending_spec(root, then) is Some {
            lemma_first_exchange(root, then, trace[0].disk, rest);
            assert(rest.last() == trace.last());
            lemma_setup_failure_cleans(root, then, trace[0].disk, rest);
        } else {
            lemma_no_exchange(root, then, trace[0].disk, rest);
            assert(trace.last() == trace[0]);
        }
    } else {
        lemma_no_exchange(root, stage, disk, trace);
    }
}

/// Failure cleanup. Where create for `p1` fails in its setup, and the world
/// does not refuse the removal, nothing is left of the instance, and no port
/// is recorded. After the initialisation that comes before every create, a
/// create for `p2` then succeeds, where the world refuses nothing.
pub proof fn law_failed_setup_leaves_nothing(
    root: Seq<char>,
    disk: Disk,
    p1: u32,
    p2: u32,
    first: Seq<Exchange>,
    between: Seq<Exchange>,
    second: Seq<Exchange>,
)
    requires
        follow(root, StageView::CreateProbe { port: p1 }, disk, first) is Some,
        follow(root, StageView::CreateProbe { port: p1 }, disk, first)->0.outcome matches Err(
            error,
        ) && error.kind == ErrorKind::Setup,
        first.len() > 0 ==> !(first.last().event is Failed),
        follow(
            root,
            StageView::EnsureCheck,
            follow(root, StageView::CreateProbe { port: p1 }, disk, first)->0.disk,
            between,
        ) is Some,
        nothing_refused(between),
        follow(
            root,
            StageView::CreateProbe { port: p2 },
            follow(
                root,
                StageView::EnsureCheck,
                follow(root, StageView::CreateProbe { port: p1 }, disk, first)->0.disk,
                between,
            )->0.disk,
            second,
        ) is Some,
        second.len() > 0 ==> (second[0].event matches EventView::Exited(exit) && version_spec(exit)
            is Ok),
        forall|i: int| 0 <= i < second.len() ==> helpful((#[trigger] second[i]).event),
    ensures
        ({
            let once = follow(root, StageView::CreateProbe { port: p1 }, disk, first)->0;
            let ready = follow(root, StageView::EnsureCheck, once.disk, between)->0;
            let twice = follow(root, StageView::CreateProbe { port: p2 }, ready.disk, second)->0;
            &&& once.disk == Disk::empty()
            &&& conn_string_spec(once.disk.marker) matches Err(error) && error.kind
                == ErrorKind::NotFound
            &&& ready.outcome is Ok
            &&& ready.disk == (Disk { root: true, marker: None, data: false })
            &&& twice.outcome is Ok
            &&& twice.disk.data
            &&& twice.disk.marker == Some(marker_of(p2))
        }),
{
    let stage = StageView::CreateProbe { port: p1 };
    lemma_first_exchange(root, stage, disk, first);
    lemma_setup_failure_cleans(root, stage, disk, first);
    let once = follow(root, stage, disk, first)->0;
    lemma_init_run(root, once.disk, between);
    let ready = follow(root, StageView::EnsureCheck, once.disk, between)->0;
    lemma_first_exchange(root, StageView::CreateProbe { port: p2 }, ready.disk, second);
    law_create_on_free_disk(root, ready.disk, p2, second);
}

/// The stop of the server, as destroy asks for it.
pub open spec fn ask_stop(root: Seq<char>) -> ActionView {
    ActionView::Run { tool: Tool::Stop, invocation: stop_spec(db_path(root)) }
}

/// The ways of a destroy. It ends after the version query, after the look at
/// the instance directory, after the stop or after the removal. Where it
/// succeeds, no instance is left; where it ends with a stop error, it has asked
/// for the stop last and the disk is as it was.
pub proof fn lemma_destroy_run(root: Seq<char>, disk: Disk, trace: Seq<Exchange>)
    requires
        follow(root, StageView::DestroyProbe, disk, trace) is Some,
    ensures
        ({
            let end = follow(root, StageView::DestroyProbe, disk, trace)->0;
            &&& end.outcome is Ok ==> end.disk == Disk::empty()
            &&& (end.outcome matches Err(error) && error.kind == ErrorKind::Stop) ==> {
                &&& end.disk == disk
                &&& end.asked == seq![ask_version(), ask_root(root), ask_stop(root)]
            }
        }),
{
    lemma_first_exchange(root, StageView::DestroyProbe, disk, trace);
    let t1 = trace.drop_first();
    let s1 = step(root, StageView::DestroyProbe, trace[0].event);
    if s1 is RootCheck {
        lemma_first_exchange(root, s1, disk, t1);
        let t2 = t1.drop_first();
        let s2 = step(root, s1, t1[0].event);
        if s2 is Stop {
            lemma_first_exchange(root, s2, disk, t2);
            let t3 = t2.drop_first();
            let s3 = step(root, s2, t2[0].event);
            if s3 is Remove {
                lemma_first_exchange(root, s3, disk, t3);
                lemma_no_exchange(root, step(root, s3, t3[0].event), t3[0].disk, t3.drop_first());
            } else {
                lemma_no_exchange(root, s3, t2[0].disk, t3);
                assert(seq![ask_version()] + (seq![ask_root(root)] + (seq![ask_stop(root)]
                    + Seq::<ActionView>::empty())) =~= seq![
                    ask_version(),
                    ask_root(root),
                    ask_stop(root),
                ]);
            }
        } else {
            lemma_no_exchange(root, s2, t1[0].disk, t2);
        }
    } else {
        lemma_no_exchange(root, s1, trace[0].disk, t1);
    }
}

/// A destroy that succeeds leaves no instance.
pub proof fn law_destroy_leaves_nothing(root: Seq<char>, disk: Disk, trace: Seq<Exchange>)
    requires
        follow(root, StageView::DestroyProbe, disk, trace) is Some,
        follow(root, StageView::DestroyProbe, disk, trace)->0.outcome is Ok,
    ensures
        follow(root, StageView::DestroyProbe, disk, trace)->0.disk == Disk::empty(),
{
    lemma_destroy_run(root, disk, trace);
}

/// A stop that fails keeps the instance. Where destroy ends with a stop error,
/// it has asked for the version, looked for the instance directory and tried
/// to stop the server, no more: nothing was removed, and the disk is as it was.
pub proof fn law_failed_stop_keeps_instance(root: Seq<char>, disk: Disk, trace: Seq<Exchange>)
    requires
        follow(root, StageView::DestroyProbe, disk, trace) is Some,
        follow(root, StageView::DestroyProbe, disk, trace)->0.outcome matches Err(error)
            && error.kind == ErrorKind::Stop,
    ensures
        ({
            let end = follow(root, StageView::DestroyProbe, disk, trace)->0;
            &&& end.disk == disk
            &&& end.asked == seq![ask_version(), ask_root(root), ask_stop(root)]
        }),
{
    lemma_destroy_run(root, disk, trace);
}

/// Destroy twice. After a destroy that succeeded, a second destroy succeeds
/// too, where the installed version is still supported: it asks for the
/// version and looks for the instance directory, no more, and the disk stays
/// empty.
pub proof fn law_destroy_twice(
    root: Seq<char>,
    disk: Disk,
    first: Seq<Exchange>,
    second: Seq<Exchange>,
)
    requires
        follow(root, StageView::DestroyProbe, disk, first) is Some,
        follow(root, StageView::DestroyProbe, disk, first)->0.outcome is Ok,
        follow(
            root,
            StageView::DestroyProbe,
            follow(root, StageView::DestroyProbe, disk, first)->0.disk,
            second,
        ) is Some,
        second.len() > 0 ==> (second[0].event matches EventView::Exited(exit) && version_spec(exit)
            is Ok),
    ensures
        follow(
            root,
            StageView::DestroyProbe,
            follow(root, StageView::DestroyProbe, disk, first)->0.disk,
            second,
        )->0 == (End {
            outcome: Ok(()),
            disk: Disk::empty(),
            asked: seq![ask_version(), ask_root(root)],
        }),
{
    lemma_destroy_run(root, disk, first);
    lemma_first_exchange(root, StageView::DestroyProbe, Disk::empty(), second);
    law_destroy_nothing(root, Disk::empty(), second);
}

/// What is no white space is left when the white space at the end is taken off.
pub proof fn lemma_trimmed_keeps(text: Seq<char>, i: int)
    requires
        0 <= i < text.len(),
        !is_space(text[i]),
    ensures
        i < trimmed(text).len(),
        trimmed(text)[i] == text[i],
    decreases text.len(),
{
    if is_space(text.last()) {
        lemma_trimmed_keeps(text.drop_last(), i);
    }
}

/// Malformed state. A port marker that holds a character which is neither a
/// digit nor white space, nor a plus sign in front, records no port: to describe
/// the endpoint is a parse error.
pub proof fn law_malformed_marker(contents: Seq<u8>, i: int)
    requires
        text_of(contents) is Some,
        0 <= i < text_of(contents)->0.len(),
        !is_digit(text_of(contents)->0[i]),
        !is_space(text_of(contents)->0[i]),
        i == 0 ==> text_of(contents)->0[0] != '+',
    ensures
        recorded_port(contents) is None,
        conn_string_spec(Some(contents)) matches Err(error) && error.kind == ErrorKind::Parse,
{
    let text = text_of(contents)->0;
    lemma_trimmed_keeps(text, i);
    let kept = trimmed(text);
    let digits = unsigned_part(kept);
    if kept[0] == '+' {
        assert(digits[i - 1] == kept[i]);
    } else {
        assert(digits[i] == kept[i]);
    }
    assert(!all_digits(digits));
    assert(number(kept) is None);
}

} // verus!
