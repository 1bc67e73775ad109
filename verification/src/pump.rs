//! The log pump: translates the child's combined output/termination stream
//! into structured log records, stopping after the termination event.

use crate::text::{dec_rep_signed, fmt_i32, trim_end, trimmed_end};
use vstd::prelude::*;
use vstd::string::*;

verus! {

/// Severity of one log record, in the host's logging system.
#[derive(Clone, Copy, Debug, PartialEq, Eq, Structural)]
pub enum Severity {
    Info,
    Warn,
    Error,
}

/// One structured record handed to the host's logging sink.
pub struct LogRecord {
    pub severity: Severity,
    pub text: String,
}

impl View for LogRecord {
    type V = (Severity, Seq<char>);

    open spec fn view(&self) -> (Severity, Seq<char>) {
        (self.severity, self.text@)
    }
}

/// One event from the child's combined output/termination stream, already
/// decoded to text by the host.
pub enum SidecarEvent {
    /// A line of the child's standard output.
    StdoutLine(String),
    /// A line of the child's standard error.
    StderrLine(String),
    /// The child terminated, with its exit code when the OS reported one
    /// (none when, for example, a signal killed it).
    Terminated(Option<i32>),
    /// Any other event kind; ignored silently, a forward-compatibility
    /// placeholder.
    Other,
}

/// The text of the exit code as the termination record prints it.
pub open spec fn spec_code_text(code: Option<i32>) -> Seq<char> {
    match code {
        Some(v) => "Some("@ + dec_rep_signed(v as int) + ")"@,
        None => "None"@,
    }
}

/// The full text of the termination record.
pub open spec fn spec_termination_text(code: Option<i32>) -> Seq<char> {
    "[nextjs] terminated with code "@ + spec_code_text(code)
}

/// The record one event produces: its severity and text, or nothing for an
/// ignored event. Output lines are trimmed of trailing whitespace and tagged
/// with a fixed source label.
pub open spec fn spec_record_of(e: SidecarEvent) -> Option<(Severity, Seq<char>)> {
    match e {
        SidecarEvent::StdoutLine(l) => Some((Severity::Info, "[nextjs] "@ + trimmed_end(l@))),
        SidecarEvent::StderrLine(l) => Some((Severity::Warn, "[nextjs:err] "@ + trimmed_end(l@))),
        SidecarEvent::Terminated(c) => Some((Severity::Error, spec_termination_text(c))),
        SidecarEvent::Other => None,
    }
}

/// Whether the pump keeps consuming the stream after this event: it stops
/// only on termination.
pub open spec fn spec_keep_going(e: SidecarEvent) -> bool {
    !(e is Terminated)
}

/// The records one event contributes, as a sequence of zero or one.
pub open spec fn opt_record_seq(e: SidecarEvent) -> Seq<(Severity, Seq<char>)> {
    match spec_record_of(e) {
        Some(p) => seq![p],
        None => Seq::empty(),
    }
}

/// All records the pump emits for a stream of events: each event in arrival
/// order contributes its record, and nothing after the first termination
/// event contributes anything.
pub open spec fn spec_pump(events: Seq<SidecarEvent>) -> Seq<(Severity, Seq<char>)>
    decreases events.len(),
{
    if events.len() == 0 {
        Seq::empty()
    } else if events[0] is Terminated {
        opt_record_seq(events[0])
    } else {
        opt_record_seq(events[0]) + spec_pump(events.drop_first())
    }
}

/// The views of a sequence of emitted records.
pub open spec fn views_of(rs: Seq<LogRecord>) -> Seq<(Severity, Seq<char>)> {
    Seq::new(rs.len(), |i: int| rs[i]@)
}

/// The exit code written as the termination record prints it.
pub fn fmt_exit_code(code: Option<i32>) -> (r: String)
    ensures
        r@ == spec_code_text(code),
{
    match code {
        Some(v) => String::from_str("Some(").concat(fmt_i32(v).as_str()).concat(")"),
        None => String::from_str("None"),
    }
}

/// Translate one child event into at most one log record, and decide whether
/// the pump keeps consuming the stream.
pub fn pump_step(event: &SidecarEvent) -> (r: (Option<LogRecord>, bool))
    ensures
        r.1 == spec_keep_going(*event),
        match spec_record_of(*event) {
            Some(p) => r.0 matches Some(rec) && rec@ == p,
            None => r.0 is None,
        },
{
    match event {
        SidecarEvent::StdoutLine(l) => {
            let text = String::from_str("[nextjs] ").concat(trim_end(l.as_str()).as_str());
            (Some(LogRecord { severity: Severity::Info, text }), true)
        },
        SidecarEvent::StderrLine(l) => {
            let text = String::from_str("[nextjs:err] ").concat(trim_end(l.as_str()).as_str());
            (Some(LogRecord { severity: Severity::Warn, text }), true)
        },
        SidecarEvent::Terminated(c) => {
            let text = String::from_str("[nextjs] terminated with code ").concat(
                fmt_exit_code(*c).as_str(),
            );
            (Some(LogRecord { severity: Severity::Error, text }), false)
        },
        SidecarEvent::Other => (None, true),
    }
}

/// Adding one non-final event to a stream's prefix adds exactly that event's
/// contribution to the pump's output.
proof fn lemma_pump_extend(s: Seq<SidecarEvent>, i: int)
    requires
        0 <= i < s.len(),
        forall|j: int| 0 <= j < i ==> !(#[trigger] s[j] is Terminated),
    ensures
        spec_pump(s.subrange(0, i + 1)) == spec_pump(s.subrange(0, i)) + opt_record_seq(s[i]),
    decreases i,
{
    let pre = s.subrange(0, i);
    let ext = s.subrange(0, i + 1);
    if i == 0 {
        assert(pre =~= Seq::<SidecarEvent>::empty());
        assert(ext =~= seq![s[0]]);
        assert(ext.drop_first() =~= Seq::<SidecarEvent>::empty());
        assert(spec_pump(Seq::<SidecarEvent>::empty()) == Seq::<(Severity, Seq<char>)>::empty());
        assert(spec_pump(ext) =~= opt_record_seq(s[0]));
        assert(spec_pump(pre) + opt_record_seq(s[i]) =~= opt_record_seq(s[0]));
    } else {
        let t = s.drop_first();
        assert(!(s[0] is Terminated));
        assert(ext[0] == s[0]);
        assert(pre[0] == s[0]);
        assert(ext.drop_first() =~= t.subrange(0, i));
        assert(pre.drop_first() =~= t.subrange(0, i - 1));
        lemma_pump_extend(t, i - 1);
        assert(t[i - 1] == s[i]);
        assert(spec_pump(ext) == opt_record_seq(s[0]) + (spec_pump(t.subrange(0, i - 1))
            + opt_record_seq(s[i])));
        assert(opt_record_seq(s[0]) + (spec_pump(t.subrange(0, i - 1)) + opt_record_seq(s[i]))
            =~= (opt_record_seq(s[0]) + spec_pump(t.subrange(0, i - 1))) + opt_record_seq(s[i]));
    }
}

/// A stream with no termination event produces no error-severity record.
proof fn lemma_pump_no_error(s: Seq<SidecarEvent>)
    requires
        forall|j: int| 0 <= j < s.len() ==> !(#[trigger] s[j] is Terminated),
    ensures
        forall|k: int|
            0 <= k < spec_pump(s).len() ==> (#[trigger] spec_pump(s)[k]).0 != Severity::Error,
    decreases s.len(),
{
    if s.len() > 0 {
        let t = s.drop_first();
        assert(forall|j: int| 0 <= j < t.len() ==> !(#[trigger] t[j] is Terminated));
        lemma_pump_no_error(t);
        assert(spec_pump(s) == opt_record_seq(s[0]) + spec_pump(t));
        match spec_record_of(s[0]) {
            Some(p) => {
                assert(p.0 != Severity::Error);
            },
            None => {},
        }
    }
}

/// Once the child terminates, the pump stops: the stream's events after the
/// first termination event contribute no record, the termination record is
/// the last record emitted, and it is the only one of error severity.
pub proof fn lemma_pump_stops_after_termination(s: Seq<SidecarEvent>, i: int, code: Option<i32>)
    requires
        0 <= i < s.len(),
        s[i] == SidecarEvent::Terminated(code),
        forall|j: int| 0 <= j < i ==> !(#[trigger] s[j] is Terminated),
    ensures
        spec_pump(s) == spec_pump(s.subrange(0, i + 1)),
        spec_pump(s) == spec_pump(s.subrange(0, i)) + seq![
            (Severity::Error, spec_termination_text(code)),
        ],
        spec_pump(s).len() == spec_pump(s.subrange(0, i)).len() + 1,
        spec_pump(s).last() == (Severity::Error, spec_termination_text(code)),
        forall|k: int|
            0 <= k < spec_pump(s).len() - 1 ==> (#[trigger] spec_pump(s)[k]).0 != Severity::Error,
    decreases i,
{
    let pre = s.subrange(0, i);
    let ext = s.subrange(0, i + 1);
    if i == 0 {
        assert(spec_pump(s) == opt_record_seq(s[0]));
        assert(ext =~= seq![s[0]]);
        assert(spec_pump(ext) == opt_record_seq(s[0]));
        assert(pre =~= Seq::<SidecarEvent>::empty());
        assert(opt_record_seq(s[0]) =~= spec_pump(pre) + seq![
            (Severity::Error, spec_termination_text(code)),
        ]);
    } else {
        let t = s.drop_first();
        assert(!(s[0] is Terminated));
        assert(t[i - 1] == s[i]);
        lemma_pump_stops_after_termination(t, i - 1, code);
        assert(ext[0] == s[0]);
        assert(pre[0] == s[0]);
        assert(ext.drop_first() =~= t.subrange(0, i));
        assert(pre.drop_first() =~= t.subrange(0, i - 1));
        assert(spec_pump(s) == opt_record_seq(s[0]) + spec_pump(t));
        assert(spec_pump(ext) == opt_record_seq(s[0]) + spec_pump(t.subrange(0, i)));
        assert(spec_pump(t) == spec_pump(t.subrange(0, i)));
        assert(spec_pump(s) == opt_record_seq(s[0]) + (spec_pump(t.subrange(0, i - 1)) + seq![
            (Severity::Error, spec_termination_text(code)),
        ]));
        assert(opt_record_seq(s[0]) + (spec_pump(t.subrange(0, i - 1)) + seq![
            (Severity::Error, spec_termination_text(code)),
        ]) =~= (opt_record_seq(s[0]) + spec_pump(t.subrange(0, i - 1))) + seq![
            (Severity::Error, spec_termination_text(code)),
        ]);
        assert(spec_pump(pre) == opt_record_seq(s[0]) + spec_pump(t.subrange(0, i - 1)));
    }
    let out = spec_pump(s);
    let head = spec_pump(s.subrange(0, i));
    assert(forall|j: int| 0 <= j < pre.len() ==> !(#[trigger] pre[j] is Terminated));
    lemma_pump_no_error(pre);
    assert forall|k: int| 0 <= k < out.len() - 1 implies (#[trigger] out[k]).0 != Severity::Error by {
        assert(out[k] == head[k]);
    }
}

/// Run the whole pump over a finished stream of events: translate each event
/// in arrival order, stopping after the first termination event.
pub fn pump_run(events: &Vec<SidecarEvent>) -> (out: Vec<LogRecord>)
    ensures
        views_of(out@) == spec_pump(events@),
{
    let mut out: Vec<LogRecord> = Vec::new();
    let mut i: usize = 0;
    let mut running = true;
    proof {
        assert(events@.subrange(0, 0) =~= Seq::<SidecarEvent>::empty());
        assert(views_of(out@) =~= spec_pump(events@.subrange(0, 0)));
    }
    while running && i < events.len()
        invariant
            i <= events@.len(),
            running ==> forall|j: int| 0 <= j < i ==> !(#[trigger] events@[j] is Terminated),
            running ==> views_of(out@) == spec_pump(events@.subrange(0, i as int)),
            !running ==> views_of(out@) == spec_pump(events@),
        decreases events@.len() - i,
    {
        let event = &events[i];
        let ghost old_out = out@;
        let (rec, keep) = pump_step(event);
        match rec {
            Some(r) => out.push(r),
            None => {},
        }
        proof {
            assert(views_of(out@) =~= views_of(old_out) + opt_record_seq(events@[i as int]));
            if keep {
                lemma_pump_extend(events@, i as int);
            } else {
                let code = match events@[i as int] {
                    SidecarEvent::Terminated(c) => c,
                    _ => None,
                };
                lemma_pump_stops_after_termination(events@, i as int, code);
            }
        }
        running = keep;
        i = i + 1;
    }
    proof {
        if running {
            assert(events@.subrange(0, i as int) =~= events@);
        }
    }
    out
}

} // verus!
