//! Port discovery: mapping the child process's line-oriented output onto the
//! single advertised port.
//!
//! The child announces the port it bound with one sentinel line of the form
//! `SANDCASTLE_SERVER_PORT=<digits>` on its standard output, where `<digits>`
//! (once surrounding whitespace is removed) is a base-10 number that fits in
//! 16 bits. [`parse_port_line`] is the pure line matcher; [`PortDiscovery`]
//! is the one-shot consumer that publishes the first successfully parsed
//! announcement and ignores every later one.

use vstd::prelude::*;

verus! {

/// The sentinel prefix `SANDCASTLE_SERVER_PORT=`, as bytes.
pub open spec fn sentinel_prefix() -> Seq<u8> {
    seq![
        83u8, 65u8, 78u8, 68u8, 67u8, 65u8, 83u8, 84u8, 76u8, 69u8, 95u8,
        83u8, 69u8, 82u8, 86u8, 69u8, 82u8, 95u8, 80u8, 79u8, 82u8, 84u8,
        61u8,
    ]
}

/// ASCII whitespace: space, tab, line feed, vertical tab, form feed,
/// carriage return.
pub open spec fn is_ascii_whitespace(b: u8) -> bool {
    b == 32 || (9 <= b && b <= 13)
}

/// ASCII decimal digit.
pub open spec fn is_ascii_digit(b: u8) -> bool {
    48 <= b && b <= 57
}

pub open spec fn all_digits(s: Seq<u8>) -> bool {
    forall|i: int| 0 <= i < s.len() ==> is_ascii_digit(#[trigger] s[i])
}

/// The number written by a sequence of decimal digit bytes.
pub open spec fn digits_value(s: Seq<u8>) -> int
    decreases s.len(),
{
    if s.len() == 0 {
        0
    } else {
        digits_value(s.drop_last()) * 10 + (s.last() - 48)
    }
}

/// `s` with leading ASCII whitespace removed.
pub open spec fn trim_start(s: Seq<u8>) -> Seq<u8>
    decreases s.len(),
{
    if s.len() > 0 && is_ascii_whitespace(s[0]) {
        trim_start(s.drop_first())
    } else {
        s
    }
}

/// `s` with trailing ASCII whitespace removed.
pub open spec fn trim_end(s: Seq<u8>) -> Seq<u8>
    decreases s.len(),
{
    if s.len() > 0 && is_ascii_whitespace(s.last()) {
        trim_end(s.drop_last())
    } else {
        s
    }
}

/// `s` with whitespace removed from both ends.
pub open spec fn trimmed(s: Seq<u8>) -> Seq<u8> {
    trim_end(trim_start(s))
}

/// The port number written by `s`: `s`, less surrounding whitespace, must be
/// a nonempty run of decimal digits whose value fits in 16 bits.
pub open spec fn spec_parse_port(s: Seq<u8>) -> Option<u16> {
    let t = trimmed(s);
    if t.len() > 0 && all_digits(t) && digits_value(t) <= 65535 {
        Some(digits_value(t) as u16)
    } else {
        None
    }
}

pub open spec fn has_sentinel_prefix(line: Seq<u8>) -> bool {
    line.len() >= sentinel_prefix().len() && line.subrange(
        0,
        sentinel_prefix().len() as int,
    ) == sentinel_prefix()
}

/// What one line of standard output announces: the port written after the
/// sentinel prefix, or nothing if the line is no well-formed announcement.
pub open spec fn spec_parse_port_line(line: Seq<u8>) -> Option<u16> {
    if has_sentinel_prefix(line) {
        spec_parse_port(line.skip(sentinel_prefix().len() as int))
    } else {
        None
    }
}

fn is_whitespace_byte(b: u8) -> (r: bool)
    ensures
        r == is_ascii_whitespace(b),
{
    b == 32 || (9 <= b && b <= 13)
}

/// The sentinel prefix as an executable byte vector.
fn sentinel_prefix_bytes() -> (r: Vec<u8>)
    ensures
        r@ == sentinel_prefix(),
{
    let r: Vec<u8> = vec![
        83u8, 65u8, 78u8, 68u8, 67u8, 65u8, 83u8, 84u8, 76u8, 69u8, 95u8,
        83u8, 69u8, 82u8, 86u8, 69u8, 82u8, 95u8, 80u8, 79u8, 82u8, 84u8,
        61u8,
    ];
    proof {
        assert(r@ =~= sentinel_prefix());
    }
    r
}

proof fn lemma_digits_value_bounds(s: Seq<u8>)
    requires
        all_digits(s),
    ensures
        digits_value(s) >= 0,
    decreases s.len(),
{
    if s.len() > 0 {
        assert(all_digits(s.drop_last()));
        lemma_digits_value_bounds(s.drop_last());
    }
}

/// Appending digits never shrinks the written value, so a prefix that is
/// already too large for 16 bits condemns the whole run.
proof fn lemma_digits_value_prefix_le(s: Seq<u8>, j: int)
    requires
        all_digits(s),
        0 <= j <= s.len(),
    ensures
        digits_value(s.take(j)) <= digits_value(s),
    decreases s.len() - j,
{
    if j < s.len() {
        assert(all_digits(s.take(j + 1)));
        assert(s.take(j + 1).drop_last() =~= s.take(j));
        assert(s.take(j + 1).last() == s[j]);
        assert(all_digits(s.take(j)));
        lemma_digits_value_bounds(s.take(j));
        assert(digits_value(s.take(j)) <= digits_value(s.take(j + 1)));
        lemma_digits_value_prefix_le(s, j + 1);
        assert(s.take(s.len() as int) =~= s);
    } else {
        assert(s.take(j) =~= s);
    }
}

/// If everything before index `k` is whitespace and `k` is past the end or a
/// non-whitespace byte, trimming the start lands exactly on index `k`.
proof fn lemma_trim_start_at(s: Seq<u8>, k: int)
    requires
        0 <= k <= s.len(),
        forall|j: int| 0 <= j < k ==> is_ascii_whitespace(#[trigger] s[j]),
        k == s.len() || !is_ascii_whitespace(s[k]),
    ensures
        trim_start(s) == s.skip(k),
    decreases k,
{
    if k == 0 {
        assert(s.skip(0) =~= s);
    } else {
        assert(is_ascii_whitespace(s[0]));
        let t = s.drop_first();
        assert(forall|j: int| 0 <= j < k - 1 ==> is_ascii_whitespace(#[trigger] t[j]));
        assert(k - 1 == t.len() || !is_ascii_whitespace(t[k - 1]));
        lemma_trim_start_at(t, k - 1);
        assert(t.skip(k - 1) =~= s.skip(k));
    }
}

/// If everything from index `k` on is whitespace and `k` is the start or
/// preceded by a non-whitespace byte, trimming the end lands exactly on `k`.
proof fn lemma_trim_end_at(s: Seq<u8>, k: int)
    requires
        0 <= k <= s.len(),
        forall|j: int| k <= j < s.len() ==> is_ascii_whitespace(#[trigger] s[j]),
        k == 0 || !is_ascii_whitespace(s[k - 1]),
    ensures
        trim_end(s) == s.take(k),
    decreases s.len() - k,
{
    if k == s.len() {
        if s.len() > 0 {
            assert(!is_ascii_whitespace(s.last()));
        }
        assert(s.take(k) =~= s);
    } else {
        assert(is_ascii_whitespace(s.last()));
        let t = s.drop_last();
        assert(forall|j: int| k <= j < t.len() ==> is_ascii_whitespace(#[trigger] t[j]));
        lemma_trim_end_at(t, k);
        assert(t.take(k) =~= s.take(k));
    }
}

/// Parses the port number written (with optional surrounding whitespace)
/// in `bytes[from..]`.
fn parse_port_digits(bytes: &[u8], from: usize) -> (r: Option<u16>)
    requires
        from <= bytes@.len(),
    ensures
        r == spec_parse_port(bytes@.skip(from as int)),
{
    let ghost s = bytes@.skip(from as int);
    let n = bytes.len();

    // Skip leading whitespace.
    let mut lo = from;
    while lo < n && is_whitespace_byte(bytes[lo])
        invariant
            from <= lo <= n,
            n == bytes@.len(),
            forall|j: int| from <= j < lo ==> is_ascii_whitespace(#[trigger] bytes@[j]),
        decreases n - lo,
    {
        lo = lo + 1;
    }
    proof {
        assert(forall|j: int|
            0 <= j < lo - from ==> is_ascii_whitespace(#[trigger] s[j]));
        lemma_trim_start_at(s, lo - from);
        assert(s.skip((lo - from) as int) =~= bytes@.skip(lo as int));
    }
    let ghost s1 = bytes@.skip(lo as int);

    // Drop trailing whitespace.
    let mut hi = n;
    while hi > lo && is_whitespace_byte(bytes[hi - 1])
        invariant
            lo <= hi <= n,
            n == bytes@.len(),
            forall|j: int| hi <= j < n ==> is_ascii_whitespace(#[trigger] bytes@[j]),
        decreases hi,
    {
        hi = hi - 1;
    }
    proof {
        assert(forall|j: int|
            hi - lo <= j < s1.len() ==> is_ascii_whitespace(#[trigger] s1[j]));
        lemma_trim_end_at(s1, hi - lo);
        assert(s1.take((hi - lo) as int) =~= bytes@.subrange(lo as int, hi as int));
    }
    let ghost t = bytes@.subrange(lo as int, hi as int);
    assert(trimmed(s) == t);

    if lo == hi {
        // Nothing but whitespace after the prefix.
        assert(t.len() == 0);
        return None;
    }

    // Accumulate the digits, rejecting the line as soon as a non-digit
    // appears or the value can no longer fit in 16 bits.
    let mut value: u32 = 0;
    let mut k = lo;
    while k < hi
        invariant
            from <= lo <= k <= hi <= n,
            n == bytes@.len(),
            t == bytes@.subrange(lo as int, hi as int),
            t == trimmed(bytes@.skip(from as int)),
            all_digits(t.take((k - lo) as int)),
            value <= 65535,
            value == digits_value(t.take((k - lo) as int)),
        decreases hi - k,
    {
        let b = bytes[k];
        assert(b == t[k - lo]);
        if b < 48 || b > 57 {
            assert(!is_ascii_digit(t[k - lo]));
            assert(!all_digits(t));
            return None;
        }
        proof {
            assert(t.take((k - lo) as int + 1).drop_last() =~= t.take((k - lo) as int));
            assert(t.take((k - lo) as int + 1).last() == t[k - lo]);
        }
        value = value * 10 + (b - 48) as u32;
        let ghost m = (k - lo) as int + 1;
        assert(all_digits(t.take(m)));
        assert(value == digits_value(t.take(m)));
        if value > 65535 {
            proof {
                if all_digits(t) && digits_value(t) <= 65535 {
                    lemma_digits_value_prefix_le(t, m);
                    assert(false);
                }
            }
            return None;
        }
        k = k + 1;
    }
    assert(t.take((hi - lo) as int) =~= t);
    assert(all_digits(t));
    assert(value == digits_value(t));
    Some(value as u16)
}

/// The pure line matcher: returns the announced port when `line` is a
/// well-formed sentinel line, and nothing otherwise.
pub fn parse_port_line(line: &[u8]) -> (r: Option<u16>)
    ensures
        r == spec_parse_port_line(line@),
{
    let prefix = sentinel_prefix_bytes();
    if line.len() < prefix.len() {
        return None;
    }
    let mut i: usize = 0;
    while i < prefix.len()
        invariant
            prefix@ == sentinel_prefix(),
            i <= prefix@.len() <= line@.len(),
            forall|j: int| 0 <= j < i ==> line@[j] == sentinel_prefix()[j],
        decreases prefix@.len() - i,
    {
        if line[i] != prefix[i] {
            proof {
                assert(line@.subrange(0, sentinel_prefix().len() as int)[i as int]
                    != sentinel_prefix()[i as int]);
            }
            return None;
        }
        i = i + 1;
    }
    proof {
        assert(line@.subrange(0, sentinel_prefix().len() as int) =~= sentinel_prefix());
    }
    parse_port_digits(line, prefix.len())
}

/// One event on the child process's combined output stream.
pub enum OutputEvent {
    /// A line of standard output: the only place an announcement counts.
    Stdout(Vec<u8>),
    /// A line of standard error; surfaced for diagnostics only.
    Stderr(Vec<u8>),
    /// A process-level error report; surfaced for diagnostics only.
    ProcessError(String),
    /// The child terminated: no further announcement can arrive.
    Terminated,
    /// Any other stream event; ignored.
    Other,
}

/// What the draining task should do with one event.
#[derive(Clone, Copy, Debug, PartialEq, Eq)]
pub enum DiscoveryAction {
    /// Deliver this port on the one-shot channel, then log the line.
    Publish(u16),
    /// Log the standard-output line; it announces nothing new.
    LogStdout,
    /// Log the standard-error line.
    LogStderr,
    /// Log the process error.
    LogError,
    /// Stop draining: the child is gone.
    Finish,
    /// Nothing to do.
    Ignore,
}

/// The port a single event announces, if any: only a well-formed sentinel
/// line on standard output announces one.
pub open spec fn spec_event_port(ev: OutputEvent) -> Option<u16> {
    match ev {
        OutputEvent::Stdout(line) => spec_parse_port_line(line@),
        _ => None,
    }
}

/// The publication state after one event: a port already published is final;
/// otherwise the event's own announcement, if any, is published.
pub open spec fn spec_step(published: Option<u16>, ev: OutputEvent) -> Option<u16> {
    match published {
        Some(_) => published,
        None => spec_event_port(ev),
    }
}

/// The action one event calls for, given the publication state.
pub open spec fn spec_action(published: Option<u16>, ev: OutputEvent) -> DiscoveryAction {
    match ev {
        OutputEvent::Stdout(line) => match (published, spec_parse_port_line(line@)) {
            (Option::None, Option::Some(p)) => DiscoveryAction::Publish(p),
            _ => DiscoveryAction::LogStdout,
        },
        OutputEvent::Stderr(_) => DiscoveryAction::LogStderr,
        OutputEvent::ProcessError(_) => DiscoveryAction::LogError,
        OutputEvent::Terminated => DiscoveryAction::Finish,
        OutputEvent::Other => DiscoveryAction::Ignore,
    }
}

/// The one-shot consumer of output events: it remembers the first announced
/// port and lets no later announcement replace it.
pub struct PortDiscovery {
    published: Option<u16>,
}

impl PortDiscovery {
    /// The port published so far, if any.
    pub closed spec fn spec_published(self) -> Option<u16> {
        self.published
    }

    /// A consumer that has published nothing yet.
    pub fn new() -> (r: Self)
        ensures
            r.spec_published() is None,
    {
        PortDiscovery { published: None }
    }

    /// The port published so far, if any.
    pub fn published(&self) -> (r: Option<u16>)
        ensures
            r == self.spec_published(),
    {
        self.published
    }

    /// Consumes one output event. Exactly the first well-formed sentinel
    /// line on standard output yields a `Publish`; a malformed number after
    /// the prefix is silently ignored, and nothing on standard error or in
    /// process errors ever publishes.
    pub fn on_event(&mut self, ev: &OutputEvent) -> (r: DiscoveryAction)
        ensures
            final(self).spec_published() == spec_step(old(self).spec_published(), *ev),
            r == spec_action(old(self).spec_published(), *ev),
    {
        match ev {
            OutputEvent::Stdout(line) => {
                if self.published.is_none() {
                    match parse_port_line(line.as_slice()) {
                        Some(p) => {
                            self.published = Some(p);
                            DiscoveryAction::Publish(p)
                        },
                        None => DiscoveryAction::LogStdout,
                    }
                } else {
                    DiscoveryAction::LogStdout
                }
            },
            OutputEvent::Stderr(_) => DiscoveryAction::LogStderr,
            OutputEvent::ProcessError(_) => DiscoveryAction::LogError,
            OutputEvent::Terminated => DiscoveryAction::Finish,
            OutputEvent::Other => DiscoveryAction::Ignore,
        }
    }
}

/// The publication state after a whole sequence of events.
pub open spec fn run_events(published: Option<u16>, events: Seq<OutputEvent>) -> Option<u16>
    decreases events.len(),
{
    if events.len() == 0 {
        published
    } else {
        run_events(spec_step(published, events[0]), events.drop_first())
    }
}

/// Law: publication is one-shot. Once a port has been published, no sequence
/// of further output events can change or clear it.
pub proof fn lemma_publication_is_final(port: u16, events: Seq<OutputEvent>)
    ensures
        run_events(Some(port), events) == Some(port),
    decreases events.len(),
{
    if events.len() > 0 {
        lemma_publication_is_final(port, events.drop_first());
    }
}

/// Law: if no event of the stream carries a well-formed sentinel
/// announcement, discovery never publishes — the waiting caller can only
/// time out.
pub proof fn lemma_no_announcement_no_publication(events: Seq<OutputEvent>)
    requires
        forall|i: int| 0 <= i < events.len() ==> spec_event_port(#[trigger] events[i]) is None,
    ensures
        run_events(None, events) is None,
    decreases events.len(),
{
    if events.len() > 0 {
        let rest = events.drop_first();
        assert forall|i: int| 0 <= i < rest.len() implies spec_event_port(
            #[trigger] rest[i],
        ) is None by {
            assert(rest[i] == events[i + 1]);
        }
        lemma_no_announcement_no_publication(rest);
    }
}

/// Law: the first announcement wins. If event `i` is the first to announce a
/// port, that port is what the whole stream publishes, whatever follows.
pub proof fn lemma_first_announcement_wins(events: Seq<OutputEvent>, i: int)
    requires
        0 <= i < events.len(),
        spec_event_port(events[i]) is Some,
        forall|j: int| 0 <= j < i ==> spec_event_port(#[trigger] events[j]) is None,
    ensures
        run_events(None, events) == spec_event_port(events[i]),
    decreases i,
{
    let rest = events.drop_first();
    if i == 0 {
        lemma_publication_is_final(spec_event_port(events[0])->Some_0, rest);
    } else {
        assert(spec_event_port(events[0]) is None);
        assert forall|j: int| 0 <= j < i - 1 implies spec_event_port(
            #[trigger] rest[j],
        ) is None by {
            assert(rest[j] == events[j + 1]);
        }
        assert(rest[i - 1] == events[i]);
        lemma_first_announcement_wins(rest, i - 1);
    }
}

} // verus!
