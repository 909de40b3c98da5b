//! Child-process events and their one-line log renderings: each recorded
//! event becomes exactly one newline-terminated log line, in delivery order.

use vstd::prelude::*;
use crate::text::{ascii_bytes_of, i32_dec, int_digits, is_ascii_bytes, lit_bytes};

verus! {

/// One event received from the child process's I/O channel.
pub enum ChildEvent {
    /// A line captured from the child's standard output.
    Stdout(Vec<u8>),
    /// A line captured from the child's standard error.
    Stderr(Vec<u8>),
    /// A channel-level error report, as text bytes.
    Error(Vec<u8>),
    /// The child exited, with the exit code and the terminating signal,
    /// where the platform reports them.
    Terminated(Option<i32>, Option<i32>),
    /// Any other stream event; the log does not record it.
    Other,
}

/// What a captured payload becomes once sanitized for the UTF-8 log file:
/// the bytes decoded with replacement of invalid sequences, re-encoded.
pub uninterp spec fn sanitize_of(b: Seq<u8>) -> Seq<u8>;

/// Relies on String::from_utf8_lossy: invalid sequences are replaced with
/// the replacement character, and valid UTF-8 — so in particular plain
/// ASCII — passes through unchanged.
#[verifier::external_body]
fn utf8_sanitize(b: &Vec<u8>) -> (r: Vec<u8>)
    ensures
        r@ == sanitize_of(b@),
        vstd::utf8::valid_utf8(b@) ==> r@ == b@,
        is_ascii_bytes(b@) ==> r@ == b@,
{
    String::from_utf8_lossy(b).into_owned().into_bytes()
}

/// The sequence with every trailing occurrence of `x` removed.
pub open spec fn trim_end(s: Seq<u8>, x: u8) -> Seq<u8>
    decreases s.len(),
{
    if s.len() > 0 && s.last() == x {
        trim_end(s.drop_last(), x)
    } else {
        s
    }
}

/// A payload as the log shows it: trailing line feeds removed first, then
/// trailing carriage returns.
pub open spec fn trimmed(s: Seq<u8>) -> Seq<u8> {
    trim_end(trim_end(s, 10), 13)
}

/// Removes every trailing occurrence of one byte.
fn trim_end_byte(v: &Vec<u8>, x: u8) -> (r: Vec<u8>)
    ensures
        r@ == trim_end(v@, x),
{
    let mut j = v.len();
    proof {
        assert(v@.take(j as int) =~= v@);
    }
    while j > 0 && v[j - 1] == x
        invariant
            j <= v@.len(),
            trim_end(v@, x) == trim_end(v@.take(j as int), x),
        decreases j,
    {
        proof {
            assert(v@.take(j as int).drop_last() =~= v@.take(j - 1 as int));
        }
        j -= 1;
    }
    proof {
        if j > 0 {
            assert(v@.take(j as int).last() == v@[j - 1]);
        }
        assert(trim_end(v@.take(j as int), x) == v@.take(j as int));
    }
    let mut r: Vec<u8> = Vec::new();
    let mut i: usize = 0;
    while i < j
        invariant
            i <= j <= v@.len(),
            r@ == v@.take(i as int),
        decreases j - i,
    {
        r.push(v[i]);
        proof {
            assert(r@ =~= v@.take(i + 1 as int));
        }
        i += 1;
    }
    r
}

/// Removes a payload's trailing line feeds, then its trailing carriage
/// returns.
pub fn trim_trailing(v: &Vec<u8>) -> (r: Vec<u8>)
    ensures
        r@ == trimmed(v@),
{
    let a = trim_end_byte(v, 10);
    trim_end_byte(&a, 13)
}

/// The log line for one standard-output payload.
pub open spec fn stdout_line(b: Seq<u8>) -> Seq<u8> {
    ascii_bytes_of("[stdout] "@) + sanitize_of(trimmed(b)) + ascii_bytes_of("\n"@)
}

/// The log line for one standard-error payload.
pub open spec fn stderr_line(b: Seq<u8>) -> Seq<u8> {
    ascii_bytes_of("[stderr] "@) + sanitize_of(trimmed(b)) + ascii_bytes_of("\n"@)
}

/// The log line for a channel-level error report.
pub open spec fn error_line(b: Seq<u8>) -> Seq<u8> {
    ascii_bytes_of("[error] "@) + b + ascii_bytes_of("\n"@)
}

/// The rendering of an optional exit code or signal number.
pub open spec fn opt_code_bytes(c: Option<i32>) -> Seq<u8> {
    match c {
        Some(n) => ascii_bytes_of("Some("@) + int_digits(n as int) + ascii_bytes_of(")"@),
        None => ascii_bytes_of("None"@),
    }
}

/// The log line recording the child's termination.
pub open spec fn terminated_line(code: Option<i32>, signal: Option<i32>) -> Seq<u8> {
    ascii_bytes_of("[terminated] code: "@) + opt_code_bytes(code) + ascii_bytes_of(", signal: "@)
        + opt_code_bytes(signal) + ascii_bytes_of("\n"@)
}

/// The log line an event becomes, if the log records the event at all.
pub open spec fn event_line(e: ChildEvent) -> Option<Seq<u8>> {
    match e {
        ChildEvent::Stdout(b) => Some(stdout_line(b@)),
        ChildEvent::Stderr(b) => Some(stderr_line(b@)),
        ChildEvent::Error(b) => Some(error_line(b@)),
        ChildEvent::Terminated(code, signal) => Some(terminated_line(code, signal)),
        ChildEvent::Other => None,
    }
}

/// Renders an optional exit code or signal number.
fn opt_code(c: &Option<i32>) -> (r: Vec<u8>)
    ensures
        r@ == opt_code_bytes(*c),
{
    match c {
        Some(n) => {
            proof {
                reveal_strlit("Some(");
                reveal_strlit(")");
            }
            let mut out = lit_bytes("Some(");
            let mut digits = i32_dec(*n);
            out.append(&mut digits);
            let mut close = lit_bytes(")");
            out.append(&mut close);
            out
        },
        None => {
            proof {
                reveal_strlit("None");
            }
            lit_bytes("None")
        },
    }
}

/// Renders one child event as its newline-terminated log line; an event the
/// log does not record gives nothing.
pub fn format_event(e: &ChildEvent) -> (r: Option<Vec<u8>>)
    ensures
        match r {
            Some(line) => event_line(*e) == Some(line@),
            None => event_line(*e) is None,
        },
{
    proof {
        reveal_strlit("\n");
    }
    match e {
        ChildEvent::Stdout(b) => {
            proof {
                reveal_strlit("[stdout] ");
            }
            let mut out = lit_bytes("[stdout] ");
            let t = trim_trailing(b);
            let mut payload = utf8_sanitize(&t);
            out.append(&mut payload);
            let mut nl = lit_bytes("\n");
            out.append(&mut nl);
            Some(out)
        },
        ChildEvent::Stderr(b) => {
            proof {
                reveal_strlit("[stderr] ");
            }
            let mut out = lit_bytes("[stderr] ");
            let t = trim_trailing(b);
            let mut payload = utf8_sanitize(&t);
            out.append(&mut payload);
            let mut nl = lit_bytes("\n");
            out.append(&mut nl);
            Some(out)
        },
        ChildEvent::Error(b) => {
            proof {
                reveal_strlit("[error] ");
            }
            let mut out = lit_bytes("[error] ");
            let mut payload = vstd::slice::slice_to_vec(b.as_slice());
            out.append(&mut payload);
            let mut nl = lit_bytes("\n");
            out.append(&mut nl);
            Some(out)
        },
        ChildEvent::Terminated(code, signal) => {
            proof {
                reveal_strlit("[terminated] code: ");
                reveal_strlit(", signal: ");
            }
            let mut out = lit_bytes("[terminated] code: ");
            let mut c = opt_code(code);
            out.append(&mut c);
            let mut mid = lit_bytes(", signal: ");
            out.append(&mut mid);
            let mut s = opt_code(signal);
            out.append(&mut s);
            let mut nl = lit_bytes("\n");
            out.append(&mut nl);
            Some(out)
        },
        ChildEvent::Other => None,
    }
}

/// The log lines a whole event stream produces, in delivery order: one line
/// per recorded event, none for the rest.
pub open spec fn event_lines(es: Seq<ChildEvent>) -> Seq<Seq<u8>>
    decreases es.len(),
{
    if es.len() == 0 {
        Seq::empty()
    } else {
        event_lines(es.drop_last()) + match event_line(es.last()) {
            Some(l) => seq![l],
            None => Seq::empty(),
        }
    }
}

/// One more event at the end of the stream appends at most its own line at
/// the end of the log and leaves every earlier line in place: the log keeps
/// delivery order.
pub proof fn lemma_event_lines_push(es: Seq<ChildEvent>, e: ChildEvent)
    ensures
        event_lines(es.push(e)) == event_lines(es) + match event_line(e) {
            Some(l) => seq![l],
            None => Seq::<Seq<u8>>::empty(),
        },
{
    assert(es.push(e).drop_last() =~= es);
    assert(es.push(e).last() == e);
}

/// Renders a batch of events: one line per recorded event, in delivery
/// order.
pub fn render_events(events: &Vec<ChildEvent>) -> (r: Vec<Vec<u8>>)
    ensures
        r@.map_values(|l: Vec<u8>| l@) == event_lines(events@),
{
    let mut r: Vec<Vec<u8>> = Vec::new();
    let mut i: usize = 0;
    while i < events.len()
        invariant
            i <= events@.len(),
            r@.map_values(|l: Vec<u8>| l@) == event_lines(events@.take(i as int)),
        decreases events@.len() - i,
    {
        let ghost prev = r@.map_values(|l: Vec<u8>| l@);
        match format_event(&events[i]) {
            Some(line) => {
                let ghost line_view = line@;
                r.push(line);
                proof {
                    assert(r@.map_values(|l: Vec<u8>| l@) =~= prev.push(line_view));
                }
            },
            None => {},
        }
        proof {
            lemma_event_lines_push(events@.take(i as int), events@[i as int]);
            assert(events@.take(i as int).push(events@[i as int]) =~= events@.take(i + 1 as int));
        }
        i += 1;
    }
    proof {
        assert(events@.take(events@.len() as int) =~= events@);
    }
    r
}

} // verus!
