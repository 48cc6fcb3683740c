//! The streaming install engine: merges the two output streams of the
//! long-running install process into one ordered sequence of tagged lines,
//! and closes the sequence with exactly one terminal line carrying the
//! outcome. Failures are folded into that terminal line as data, never
//! raised to the consumer.
//!
//! The engine is driven by observations (`InstallEvent`): one event per line
//! read from either stream, one per stream reaching end-of-input, and one
//! for process completion. The asynchronous plumbing that produces those
//! observations lives outside the library; the engine itself is the pure
//! state machine that decides what the consumer sees.

use vstd::prelude::*;

verus! {

/// The tag of one line of install progress: a line of standard output, a
/// line of standard error, or the terminal marker (success or failure).
#[derive(Clone, Copy, PartialEq, Eq, Structural, Debug)]
pub enum LogTag {
    Stdout,
    Stderr,
    Done,
    Error,
}

/// One tagged unit of progress output, carrying the raw line text.
pub struct LogLine {
    pub tag: LogTag,
    pub text: String,
}

/// A terminal tag closes the sequence: nothing follows it.
pub open spec fn is_terminal_tag(t: LogTag) -> bool {
    t is Done || t is Error
}

/// The literal wire prefix of each tag.
pub open spec fn tag_prefix(tag: LogTag) -> Seq<char> {
    match tag {
        LogTag::Stdout => "[OUT] "@,
        LogTag::Stderr => "[ERR] "@,
        LogTag::Done => "[DONE] "@,
        LogTag::Error => "[ERROR] "@,
    }
}

/// The wire framing of one line: tag prefix, raw text, trailing newline.
pub open spec fn rendered_line(tag: LogTag, text: Seq<char>) -> Seq<char> {
    (tag_prefix(tag) + text) + "\n"@
}

impl LogLine {
    /// Frames the line for the wire: the literal tag prefix, the raw text,
    /// and a trailing newline.
    pub fn render(&self) -> (r: String)
        ensures
            r@ == rendered_line(self.tag, self.text@),
    {
        let prefix: &str = match self.tag {
            LogTag::Stdout => "[OUT] ",
            LogTag::Stderr => "[ERR] ",
            LogTag::Done => "[DONE] ",
            LogTag::Error => "[ERROR] ",
        };
        String::from_str(prefix).concat(self.text.as_str()).concat("\n")
    }
}

/// One observation from the running install: a line arriving on one of the
/// two output streams, end-of-input on one of them, or process completion.
/// `status` and `message` carry the completion diagnostics as plain text.
pub enum InstallEvent {
    OutLine { text: String },
    ErrLine { text: String },
    OutEof,
    ErrEof,
    Exited { success: bool, status: String },
    WaitFailed { message: String },
}

/// The engine's state: which output streams are still open, and whether the
/// terminal line has been produced.
#[derive(Clone, Copy, PartialEq, Eq, Structural, Debug)]
pub struct InstallEngine {
    pub out_open: bool,
    pub err_open: bool,
    pub terminated: bool,
}

/// Completion events: the process exited, or waiting for it failed.
pub open spec fn is_exit_event(e: InstallEvent) -> bool {
    e is Exited || e is WaitFailed
}

/// Which observations a state admits: lines and end-of-input only on a
/// still-open stream, completion only once both streams have closed, and
/// nothing at all after the terminal line.
pub open spec fn event_ok(st: InstallEngine, e: InstallEvent) -> bool {
    match e {
        InstallEvent::OutLine { .. } => st.out_open && !st.terminated,
        InstallEvent::OutEof => st.out_open && !st.terminated,
        InstallEvent::ErrLine { .. } => st.err_open && !st.terminated,
        InstallEvent::ErrEof => st.err_open && !st.terminated,
        InstallEvent::Exited { .. } => !st.out_open && !st.err_open && !st.terminated,
        InstallEvent::WaitFailed { .. } => !st.out_open && !st.err_open && !st.terminated,
    }
}

/// The state after one observation.
pub open spec fn step_state(st: InstallEngine, e: InstallEvent) -> InstallEngine {
    match e {
        InstallEvent::OutLine { .. } => st,
        InstallEvent::ErrLine { .. } => st,
        InstallEvent::OutEof => InstallEngine {
            out_open: false,
            err_open: st.err_open,
            terminated: st.terminated,
        },
        InstallEvent::ErrEof => InstallEngine {
            out_open: st.out_open,
            err_open: false,
            terminated: st.terminated,
        },
        InstallEvent::Exited { .. } => InstallEngine {
            out_open: st.out_open,
            err_open: st.err_open,
            terminated: true,
        },
        InstallEvent::WaitFailed { .. } => InstallEngine {
            out_open: st.out_open,
            err_open: st.err_open,
            terminated: true,
        },
    }
}

/// Raw text of the terminal line after a successful exit.
pub open spec fn done_text() -> Seq<char> {
    "Installation completed successfully"@
}

/// Raw text of the terminal line after a non-success exit status.
pub open spec fn exit_failure_text(status: Seq<char>) -> Seq<char> {
    "Installation failed with status: "@ + status
}

/// Raw text of the terminal line when the exit status could not even be
/// retrieved.
pub open spec fn wait_failure_text(message: Seq<char>) -> Seq<char> {
    "Failed to wait for process: "@ + message
}

/// Raw text of the single line of a run whose process never started.
pub open spec fn spawn_failure_text(description: Seq<char>, error: Seq<char>) -> Seq<char> {
    (("Failed to spawn "@ + description) + " command: "@) + error
}

/// What one observation contributes to the output: stream lines are tagged
/// and forwarded, end-of-input contributes nothing, completion contributes
/// the terminal line with the outcome folded into its text.
pub open spec fn step_emit(e: InstallEvent) -> Option<(LogTag, Seq<char>)> {
    match e {
        InstallEvent::OutLine { text } => Some((LogTag::Stdout, text@)),
        InstallEvent::ErrLine { text } => Some((LogTag::Stderr, text@)),
        InstallEvent::OutEof => None,
        InstallEvent::ErrEof => None,
        InstallEvent::Exited { success, status } => if success {
            Some((LogTag::Done, done_text()))
        } else {
            Some((LogTag::Error, exit_failure_text(status@)))
        },
        InstallEvent::WaitFailed { message } => Some((LogTag::Error, wait_failure_text(message@))),
    }
}

/// An observation sequence every step of which is admissible from `st`.
pub open spec fn trace_ok_from(st: InstallEngine, events: Seq<InstallEvent>) -> bool
    decreases events.len(),
{
    events.len() == 0 || (event_ok(st, events[0]) && trace_ok_from(
        step_state(st, events[0]),
        events.skip(1),
    ))
}

impl InstallEngine {
    /// The state at spawn time: both streams open, no terminal line yet.
    pub open spec fn init() -> InstallEngine {
        InstallEngine { out_open: true, err_open: true, terminated: false }
    }
}

/// A complete install run: admissible from the initial state and closed by a
/// process-completion event.
pub open spec fn complete_trace(events: Seq<InstallEvent>) -> bool {
    &&& trace_ok_from(InstallEngine::init(), events)
    &&& events.len() > 0
    &&& is_exit_event(events.last())
}

/// The whole output of a run, as tag/text pairs, one per emitting event, in
/// event order.
pub open spec fn outputs_of(events: Seq<InstallEvent>) -> Seq<(LogTag, Seq<char>)>
    decreases events.len(),
{
    if events.len() == 0 {
        Seq::empty()
    } else {
        (match step_emit(events[0]) {
            Some(l) => seq![l],
            None => Seq::<(LogTag, Seq<char>)>::empty(),
        }) + outputs_of(events.skip(1))
    }
}

/// The tag/text model of an executable line sequence.
pub open spec fn lines_model(s: Seq<LogLine>) -> Seq<(LogTag, Seq<char>)> {
    Seq::new(s.len(), |i: int| (s[i].tag, s[i].text@))
}

/// The texts of the stdout lines the process emitted, in arrival order.
pub open spec fn out_stream_texts(events: Seq<InstallEvent>) -> Seq<Seq<char>>
    decreases events.len(),
{
    if events.len() == 0 {
        Seq::empty()
    } else {
        (match events[0] {
            InstallEvent::OutLine { text } => seq![text@],
            _ => Seq::<Seq<char>>::empty(),
        }) + out_stream_texts(events.skip(1))
    }
}

/// The texts of the stderr lines the process emitted, in arrival order.
pub open spec fn err_stream_texts(events: Seq<InstallEvent>) -> Seq<Seq<char>>
    decreases events.len(),
{
    if events.len() == 0 {
        Seq::empty()
    } else {
        (match events[0] {
            InstallEvent::ErrLine { text } => seq![text@],
            _ => Seq::<Seq<char>>::empty(),
        }) + err_stream_texts(events.skip(1))
    }
}

/// The texts of the OUT-tagged lines of an output, in order.
pub open spec fn out_line_texts(lines: Seq<(LogTag, Seq<char>)>) -> Seq<Seq<char>>
    decreases lines.len(),
{
    if lines.len() == 0 {
        Seq::empty()
    } else {
        (if lines[0].0 is Stdout {
            seq![lines[0].1]
        } else {
            Seq::<Seq<char>>::empty()
        }) + out_line_texts(lines.skip(1))
    }
}

/// The texts of the ERR-tagged lines of an output, in order.
pub open spec fn err_line_texts(lines: Seq<(LogTag, Seq<char>)>) -> Seq<Seq<char>>
    decreases lines.len(),
{
    if lines.len() == 0 {
        Seq::empty()
    } else {
        (if lines[0].0 is Stderr {
            seq![lines[0].1]
        } else {
            Seq::<Seq<char>>::empty()
        }) + err_line_texts(lines.skip(1))
    }
}

/// How many terminal-tagged lines an output holds.
pub open spec fn terminal_count(lines: Seq<(LogTag, Seq<char>)>) -> nat
    decreases lines.len(),
{
    if lines.len() == 0 {
        0
    } else {
        (if is_terminal_tag(lines[0].0) {
            1nat
        } else {
            0nat
        }) + terminal_count(lines.skip(1))
    }
}

proof fn lemma_out_line_texts_cons(l: (LogTag, Seq<char>), rest: Seq<(LogTag, Seq<char>)>)
    ensures
        out_line_texts(seq![l] + rest) == (if l.0 is Stdout {
            seq![l.1]
        } else {
            Seq::<Seq<char>>::empty()
        }) + out_line_texts(rest),
        err_line_texts(seq![l] + rest) == (if l.0 is Stderr {
            seq![l.1]
        } else {
            Seq::<Seq<char>>::empty()
        }) + err_line_texts(rest),
        terminal_count(seq![l] + rest) == (if is_terminal_tag(l.0) {
            1nat
        } else {
            0nat
        }) + terminal_count(rest),
{
    let s = seq![l] + rest;
    assert(s.len() > 0);
    assert(s[0] == l);
    assert(s.skip(1) =~= rest);
}

/// Law: every run forwards the process's stream lines faithfully — the
/// OUT-tagged texts of the output equal the stdout line texts, in order, and
/// the ERR-tagged texts equal the stderr line texts, in order. In
/// particular, a run whose process emitted N stdout and M stderr lines
/// produces exactly N OUT-tagged and M ERR-tagged lines: no loss, no
/// duplication.
pub proof fn lemma_stream_fidelity(events: Seq<InstallEvent>)
    ensures
        out_line_texts(outputs_of(events)) == out_stream_texts(events),
        err_line_texts(outputs_of(events)) == err_stream_texts(events),
    decreases events.len(),
{
    if events.len() == 0 {
        assert(out_line_texts(outputs_of(events)) =~= out_stream_texts(events));
        assert(err_line_texts(outputs_of(events)) =~= err_stream_texts(events));
    } else {
        let e = events[0];
        let rest = events.skip(1);
        lemma_stream_fidelity(rest);
        match step_emit(e) {
            Some(l) => {
                lemma_out_line_texts_cons(l, outputs_of(rest));
                assert(out_line_texts(outputs_of(events)) =~= out_stream_texts(events));
                assert(err_line_texts(outputs_of(events)) =~= err_stream_texts(events));
            },
            None => {
                assert(outputs_of(events) =~= outputs_of(rest));
                assert(out_stream_texts(events) =~= out_stream_texts(rest));
                assert(err_stream_texts(events) =~= err_stream_texts(rest));
            },
        }
    }
}

proof fn lemma_single_terminal_from(st: InstallEngine, events: Seq<InstallEvent>)
    requires
        trace_ok_from(st, events),
        !st.terminated,
        events.len() > 0,
        is_exit_event(events.last()),
    ensures
        outputs_of(events).len() > 0,
        terminal_count(outputs_of(events)) == 1,
        is_terminal_tag(outputs_of(events).last().0),
        forall|i: int|
            0 <= i < outputs_of(events).len() - 1 ==> !is_terminal_tag(outputs_of(events)[i].0),
    decreases events.len(),
{
    let e = events[0];
    let rest = events.skip(1);
    let out = outputs_of(events);
    if events.len() == 1 {
        assert(is_exit_event(e));
        let l = step_emit(e).unwrap();
        assert(out =~= seq![l] + outputs_of(rest));
        assert(outputs_of(rest) =~= Seq::<(LogTag, Seq<char>)>::empty());
        assert(out =~= seq![l]);
        lemma_out_line_texts_cons(l, outputs_of(rest));
        assert(terminal_count(outputs_of(rest)) == 0);
    } else {
        // The first event cannot be a completion event: after one, the state
        // is terminated and admits nothing, yet another event follows.
        if is_exit_event(e) {
            assert(step_state(st, e).terminated);
            assert(rest.len() > 0);
            assert(trace_ok_from(step_state(st, e), rest));
            assert(event_ok(step_state(st, e), rest[0]));
            assert(false);
        }
        assert(rest.last() == events.last());
        lemma_single_terminal_from(step_state(st, e), rest);
        let rest_out = outputs_of(rest);
        match step_emit(e) {
            Some(l) => {
                assert(!is_terminal_tag(l.0));
                lemma_out_line_texts_cons(l, rest_out);
                assert(out == seq![l] + rest_out);
                assert(out.last() == rest_out.last());
                assert forall|i: int| 0 <= i < out.len() - 1 implies !is_terminal_tag(
                    out[i].0,
                ) by {
                    if i == 0 {
                    } else {
                        assert(out[i] == rest_out[i - 1]);
                    }
                }
            },
            None => {
                assert(out =~= rest_out);
            },
        }
    }
}

/// Law: a complete install run produces exactly one terminal line (DONE or
/// ERROR), and it is the last element of the output sequence — even when the
/// process produced no output at all.
pub proof fn lemma_single_terminal(events: Seq<InstallEvent>)
    requires
        complete_trace(events),
    ensures
        outputs_of(events).len() > 0,
        terminal_count(outputs_of(events)) == 1,
        is_terminal_tag(outputs_of(events).last().0),
        forall|i: int|
            0 <= i < outputs_of(events).len() - 1 ==> !is_terminal_tag(outputs_of(events)[i].0),
{
    lemma_single_terminal_from(InstallEngine::init(), events);
}

impl InstallEngine {
    /// A fresh engine, in the state right after a successful spawn.
    pub fn new() -> (r: InstallEngine)
        ensures
            r == InstallEngine::init(),
    {
        InstallEngine { out_open: true, err_open: true, terminated: false }
    }

    /// Feeds one observation to the engine and returns the line to forward,
    /// if the observation produces one.
    pub fn step(&mut self, event: InstallEvent) -> (r: Option<LogLine>)
        requires
            event_ok(*old(self), event),
        ensures
            *final(self) == step_state(*old(self), event),
            match (r, step_emit(event)) {
                (Some(line), Some(m)) => line.tag == m.0 && line.text@ == m.1,
                (None, None) => true,
                _ => false,
            },
    {
        match event {
            InstallEvent::OutLine { text } => Some(LogLine { tag: LogTag::Stdout, text }),
            InstallEvent::ErrLine { text } => Some(LogLine { tag: LogTag::Stderr, text }),
            InstallEvent::OutEof => {
                self.out_open = false;
                None
            },
            InstallEvent::ErrEof => {
                self.err_open = false;
                None
            },
            InstallEvent::Exited { success, status } => {
                self.terminated = true;
                if success {
                    Some(
                        LogLine {
                            tag: LogTag::Done,
                            text: String::from_str("Installation completed successfully"),
                        },
                    )
                } else {
                    Some(
                        LogLine {
                            tag: LogTag::Error,
                            text: String::from_str("Installation failed with status: ").concat(
                                status.as_str(),
                            ),
                        },
                    )
                }
            },
            InstallEvent::WaitFailed { message } => {
                self.terminated = true;
                Some(
                    LogLine {
                        tag: LogTag::Error,
                        text: String::from_str("Failed to wait for process: ").concat(
                            message.as_str(),
                        ),
                    },
                )
            },
        }
    }
}

/// Runs a whole admissible observation sequence through the engine and
/// collects every emitted line: the executable counterpart of `outputs_of`.
pub fn run_install(events: Vec<InstallEvent>) -> (r: Vec<LogLine>)
    requires
        trace_ok_from(InstallEngine::init(), events@),
    ensures
        lines_model(r@) == outputs_of(events@),
{
    let ghost orig = events@;
    let mut events = events;
    let mut engine = InstallEngine::new();
    let mut out: Vec<LogLine> = Vec::new();
    proof {
        assert(lines_model(out@) =~= Seq::<(LogTag, Seq<char>)>::empty());
        assert(lines_model(out@) + outputs_of(events@) =~= outputs_of(orig));
    }
    while events.len() > 0
        invariant
            trace_ok_from(engine, events@),
            lines_model(out@) + outputs_of(events@) == outputs_of(orig),
        decreases events.len(),
    {
        let ghost pre_events = events@;
        let ghost pre_out = out@;
        let e = events.remove(0);
        proof {
            assert(events@ =~= pre_events.skip(1));
        }
        let emitted = engine.step(e);
        match emitted {
            Some(line) => {
                out.push(line);
                proof {
                    assert(lines_model(out@) =~= lines_model(pre_out) + seq![
                        (step_emit(pre_events[0]).unwrap().0, step_emit(pre_events[0]).unwrap().1),
                    ]);
                    assert(outputs_of(pre_events) == seq![step_emit(pre_events[0]).unwrap()]
                        + outputs_of(events@));
                    assert(lines_model(out@) + outputs_of(events@) =~= outputs_of(orig));
                }
            },
            None => {
                proof {
                    assert(outputs_of(pre_events) =~= outputs_of(events@));
                }
            },
        }
    }
    proof {
        assert(outputs_of(events@) =~= Seq::<(LogTag, Seq<char>)>::empty());
        assert(lines_model(out@) =~= lines_model(out@) + outputs_of(events@));
    }
    out
}

/// The whole output of a run whose process could not be spawned: a single
/// ERROR-tagged terminal line describing the failure, with no OUT or ERR
/// lines — the Streaming state is never entered.
pub fn spawn_failure_output(description: &str, error: &str) -> (r: Vec<LogLine>)
    ensures
        r@.len() == 1,
        r@[0].tag is Error,
        r@[0].text@ == spawn_failure_text(description@, error@),
        out_line_texts(lines_model(r@)).len() == 0,
        err_line_texts(lines_model(r@)).len() == 0,
        terminal_count(lines_model(r@)) == 1,
{
    let text = String::from_str("Failed to spawn ").concat(description).concat(
        " command: ",
    ).concat(error);
    let mut v: Vec<LogLine> = Vec::new();
    v.push(LogLine { tag: LogTag::Error, text });
    proof {
        let m = lines_model(v@);
        assert(m.len() == 1);
        assert(m.skip(1) =~= Seq::<(LogTag, Seq<char>)>::empty());
        assert(out_line_texts(m.skip(1)) =~= Seq::<Seq<char>>::empty());
        assert(err_line_texts(m.skip(1)) =~= Seq::<Seq<char>>::empty());
        assert(terminal_count(m.skip(1)) == 0);
        assert(out_line_texts(m) =~= Seq::<Seq<char>>::empty());
        assert(err_line_texts(m) =~= Seq::<Seq<char>>::empty());
    }
    v
}

} // verus!
