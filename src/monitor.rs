//! Decisions of the clipboard monitor.
//!
//! The host program runs the polling loop: every `POLL_INTERVAL_MS` it tries
//! to lock the enable flag without blocking, asks `check_flag` what to do,
//! reads the clipboard when told to, and hands the outcome to
//! `observe_clipboard`, which says what to forward for translation.
use vstd::prelude::*;

use crate::clipboard::ClipboardFault;

verus! {

/// Time between two polls of the clipboard, in milliseconds.
pub const POLL_INTERVAL_MS: u64 = 500;

/// The enable switch of the clipboard monitor, stored as text ("true" or
/// "false") as the configuration store holds it.
pub struct ClipboardMonitorEnableWrapper(pub String);

/// The text that `ClipboardMonitorEnableWrapper` holds for an enable state.
pub open spec fn flag_text(enabled: bool) -> Seq<char> {
    if enabled {
        seq!['t', 'r', 'u', 'e']
    } else {
        seq!['f', 'a', 'l', 's', 'e']
    }
}

/// The flag reads as enabled when its text contains "true".
pub open spec fn flag_enabled(text: Seq<char>) -> bool {
    exists|i: int|
        0 <= i && i + 4 <= text.len() && #[trigger] text.subrange(i, i + 4) == flag_text(true)
}

/// Whether "true" begins at position `i` of `text`.
spec fn true_at(text: Seq<char>, i: int) -> bool {
    &&& text[i] == 't'
    &&& text[i + 1] == 'r'
    &&& text[i + 2] == 'u'
    &&& text[i + 3] == 'e'
}

proof fn lemma_true_at(text: Seq<char>, i: int)
    requires
        0 <= i,
        i + 4 <= text.len(),
    ensures
        true_at(text, i) <==> text.subrange(i, i + 4) == flag_text(true),
{
    if true_at(text, i) {
        assert(text.subrange(i, i + 4) =~= flag_text(true));
    }
    if text.subrange(i, i + 4) == flag_text(true) {
        assert(text.subrange(i, i + 4)[0] == 't');
        assert(text.subrange(i, i + 4)[1] == 'r');
        assert(text.subrange(i, i + 4)[2] == 'u');
        assert(text.subrange(i, i + 4)[3] == 'e');
    }
}

impl ClipboardMonitorEnableWrapper {
    /// The flag for a stored enable setting.
    pub fn from_setting(enabled: bool) -> (r: Self)
        ensures
            r.0@ == flag_text(enabled),
    {
        let mut s = String::new();
        if enabled {
            s = String::from_str("true");
            proof {
                reveal_strlit("true");
            }
            assert(s@ =~= flag_text(true));
        } else {
            s = String::from_str("false");
            proof {
                reveal_strlit("false");
            }
            assert(s@ =~= flag_text(false));
        }
        ClipboardMonitorEnableWrapper(s)
    }

    /// Whether the monitor may keep running.
    pub fn is_enabled(&self) -> (r: bool)
        ensures
            r == flag_enabled(self.0@),
    {
        let text = self.0.as_str();
        let n = text.unicode_len();
        if n < 4 {
            return false;
        }
        let mut i: usize = 0;
        while i <= n - 4
            invariant
                n == text@.len(),
                text@ == self.0@,
                4 <= n,
                i <= n - 3,
                forall|j: int| 0 <= j < i ==> !true_at(text@, j),
            decreases n - i,
        {
            if text.get_char(i) == 't' && text.get_char(i + 1) == 'r' && text.get_char(i + 2)
                == 'u' && text.get_char(i + 3) == 'e' {
                proof {
                    lemma_true_at(text@, i as int);
                }
                return true;
            }
            i = i + 1;
        }
        proof {
            assert forall|j: int|
                0 <= j && j + 4 <= text@.len() implies #[trigger] text@.subrange(j, j + 4)
                != flag_text(true) by {
                lemma_true_at(text@, j);
            }
        }
        false
    }
}

/// The monitor's state: the text it last forwarded, and whether its loop
/// still runs.
pub struct MonitorModel {
    pub last_seen: Seq<char>,
    pub running: bool,
}

/// What one poll finds: the flag's text, or `None` where the flag was locked
/// elsewhere; the clipboard's text, or `None` where it held none or could not
/// be read.
pub struct Poll {
    pub flag: Option<Seq<char>>,
    pub clipboard: Option<Seq<char>>,
}

/// A monitor that was just started.
pub open spec fn initial_model() -> MonitorModel {
    MonitorModel { last_seen: Seq::empty(), running: true }
}

/// The text that one poll forwards for translation.
pub open spec fn poll_forward(m: MonitorModel, p: Poll) -> Option<Seq<char>> {
    if m.running && p.flag is Some && flag_enabled(p.flag->0) && p.clipboard is Some
        && p.clipboard->0 != m.last_seen {
        Some(p.clipboard->0)
    } else {
        None
    }
}

/// The state after one poll.
pub open spec fn poll_step(m: MonitorModel, p: Poll) -> MonitorModel {
    if !m.running || p.flag is None {
        m
    } else if !flag_enabled(p.flag->0) {
        MonitorModel { last_seen: m.last_seen, running: false }
    } else {
        match poll_forward(m, p) {
            Some(t) => MonitorModel { last_seen: t, running: true },
            None => m,
        }
    }
}

pub open spec fn option_seq(o: Option<Seq<char>>) -> Seq<Seq<char>> {
    match o {
        Some(t) => seq![t],
        None => Seq::empty(),
    }
}

/// The texts forwarded for translation over a run of polls, in order.
pub open spec fn forwarded(m: MonitorModel, polls: Seq<Poll>) -> Seq<Seq<char>>
    decreases polls.len(),
{
    if polls.len() == 0 {
        Seq::empty()
    } else {
        option_seq(poll_forward(m, polls[0])) + forwarded(poll_step(m, polls[0]), polls.drop_first())
    }
}

/// The state after a run of polls.
pub open spec fn model_after(m: MonitorModel, polls: Seq<Poll>) -> MonitorModel
    decreases polls.len(),
{
    if polls.len() == 0 {
        m
    } else {
        model_after(poll_step(m, polls[0]), polls.drop_first())
    }
}

/// Polls that each find the flag enabled and the clipboard holding the next
/// text of `writes`.
pub open spec fn enabled_polls(writes: Seq<Seq<char>>) -> Seq<Poll> {
    Seq::new(
        writes.len(),
        |i: int| Poll { flag: Some(flag_text(true)), clipboard: Some(writes[i]) },
    )
}

/// What a read of the clipboard gives the monitor: the text, or nothing.
pub open spec fn read_text(read: Result<String, ClipboardFault>) -> Option<Seq<char>> {
    match read {
        Ok(t) => Some(t@),
        Err(_) => None,
    }
}

pub open spec fn flag_view(flag: Option<&ClipboardMonitorEnableWrapper>) -> Option<Seq<char>> {
    match flag {
        Some(f) => Some(f.0@),
        None => None,
    }
}

pub open spec fn string_option_view(o: Option<String>) -> Option<Seq<char>> {
    match o {
        Some(t) => Some(t@),
        None => None,
    }
}

/// What `check_flag` tells the polling loop to do.
#[derive(Clone, Copy, Debug, PartialEq, Eq, Structural)]
pub enum FlagCheck {
    /// The flag was locked elsewhere: sleep and poll again.
    Skip,
    /// The flag is enabled: read the clipboard and hand the outcome to
    /// `observe_clipboard`.
    ReadClipboard,
    /// The flag is disabled: leave the loop for good.
    Stop,
}

/// The state of one running clipboard monitor. Restarting the monitor after
/// it stopped takes a new one.
pub struct ClipboardMonitor {
    last_seen: String,
    running: bool,
}

impl View for ClipboardMonitor {
    type V = MonitorModel;

    closed spec fn view(&self) -> MonitorModel {
        MonitorModel { last_seen: self.last_seen@, running: self.running }
    }
}

impl ClipboardMonitor {
    /// A monitor that has forwarded nothing yet.
    pub fn new() -> (r: Self)
        ensures
            r@ == initial_model(),
    {
        let r = ClipboardMonitor { last_seen: String::new(), running: true };
        assert(r@.last_seen =~= Seq::<char>::empty());
        r
    }

    /// Whether the polling loop still runs.
    pub fn is_running(&self) -> (r: bool)
        ensures
            r == self@.running,
    {
        self.running
    }

    /// The text last forwarded for translation.
    pub fn last_seen(&self) -> (r: &String)
        ensures
            r@ == self@.last_seen,
    {
        &self.last_seen
    }

    /// First half of a poll: `flag` is the enable flag, or `None` where a
    /// non-blocking lock of it failed.
    pub fn check_flag(&mut self, flag: Option<&ClipboardMonitorEnableWrapper>) -> (r: FlagCheck)
        ensures
            final(self)@ == poll_step(old(self)@, Poll { flag: flag_view(flag), clipboard: None }),
            r == (if !old(self)@.running {
                FlagCheck::Stop
            } else {
                match flag_view(flag) {
                    None => FlagCheck::Skip,
                    Some(f) => if flag_enabled(f) {
                        FlagCheck::ReadClipboard
                    } else {
                        FlagCheck::Stop
                    },
                }
            }),
    {
        if !self.running {
            return FlagCheck::Stop;
        }
        match flag {
            None => FlagCheck::Skip,
            Some(f) => {
                if f.is_enabled() {
                    FlagCheck::ReadClipboard
                } else {
                    self.running = false;
                    FlagCheck::Stop
                }
            },
        }
    }

    /// Second half of a poll, after `check_flag` said to read the clipboard:
    /// returns the text to forward for translation, if any. A failed read
    /// counts as an empty clipboard.
    pub fn observe_clipboard(&mut self, read: Result<String, ClipboardFault>) -> (r: Option<
        String,
    >)
        ensures
            final(self)@ == poll_step(
                old(self)@,
                Poll { flag: Some(flag_text(true)), clipboard: read_text(read) },
            ),
            string_option_view(r) == poll_forward(
                old(self)@,
                Poll { flag: Some(flag_text(true)), clipboard: read_text(read) },
            ),
    {
        proof {
            lemma_true_flag_enabled();
        }
        if !self.running {
            return None;
        }
        match read {
            Ok(text) => {
                if text == self.last_seen {
                    None
                } else {
                    self.last_seen = text.clone();
                    Some(text)
                }
            },
            Err(_) => None,
        }
    }
}

/// The text "true" reads as enabled.
pub proof fn lemma_true_flag_enabled()
    ensures
        flag_enabled(flag_text(true)),
{
    let t = flag_text(true);
    assert(t.len() == 4);
    assert(t.subrange(0int, 0int + 4) =~= t);
}

/// Running polls one run after another forwards what each run forwards, in
/// order.
pub proof fn lemma_forwarded_concat(m: MonitorModel, a: Seq<Poll>, b: Seq<Poll>)
    ensures
        forwarded(m, a + b) == forwarded(m, a) + forwarded(model_after(m, a), b),
        model_after(m, a + b) == model_after(model_after(m, a), b),
    decreases a.len(),
{
    if a.len() == 0 {
        assert(a + b =~= b);
    } else {
        let m1 = poll_step(m, a[0]);
        assert((a + b)[0] == a[0]);
        assert((a + b).drop_first() =~= a.drop_first() + b);
        lemma_forwarded_concat(m1, a.drop_first(), b);
    }
}

/// A stopped monitor forwards nothing and stays stopped.
pub proof fn lemma_stopped_forwards_nothing(m: MonitorModel, polls: Seq<Poll>)
    requires
        !m.running,
    ensures
        forwarded(m, polls) == Seq::<Seq<char>>::empty(),
        model_after(m, polls) == m,
    decreases polls.len(),
{
    if polls.len() > 0 {
        lemma_stopped_forwards_nothing(m, polls.drop_first());
    }
}

proof fn lemma_distinct_writes_from(m: MonitorModel, writes: Seq<Seq<char>>)
    requires
        m.running,
        writes.len() > 0 ==> writes[0] != m.last_seen,
        forall|i: int| 0 <= i < writes.len() - 1 ==> #[trigger] writes[i] != writes[i + 1],
    ensures
        forwarded(m, enabled_polls(writes)) == writes,
    decreases writes.len(),
{
    lemma_true_flag_enabled();
    let polls = enabled_polls(writes);
    if writes.len() > 0 {
        let rest = writes.drop_first();
        let m1 = poll_step(m, polls[0]);
        assert(m1 == MonitorModel { last_seen: writes[0], running: true });
        assert(polls.drop_first() =~= enabled_polls(rest));
        assert forall|i: int| 0 <= i < rest.len() - 1 implies #[trigger] rest[i] != rest[i + 1] by {
            assert(writes[i + 1] != writes[i + 1 + 1]);
        }
        if rest.len() > 0 {
            assert(writes[0int] != writes[0int + 1]);
        }
        lemma_distinct_writes_from(m1, rest);
        assert(writes =~= seq![writes[0]] + rest);
    } else {
        assert(writes =~= Seq::<Seq<char>>::empty());
    }
}

/// When the flag stays enabled and the clipboard holds a new text at every
/// poll, no two in a row equal and the first not empty, a fresh monitor
/// forwards every text exactly once, in order.
pub proof fn lemma_distinct_writes_forwarded_in_order(writes: Seq<Seq<char>>)
    requires
        writes.len() > 0 ==> writes[0] != Seq::<char>::empty(),
        forall|i: int| 0 <= i < writes.len() - 1 ==> #[trigger] writes[i] != writes[i + 1],
    ensures
        forwarded(initial_model(), enabled_polls(writes)) == writes,
{
    lemma_distinct_writes_from(initial_model(), writes);
}

proof fn lemma_repeat_from(
    m: MonitorModel,
    before: Seq<Seq<char>>,
    text: Seq<char>,
    after: Seq<Seq<char>>,
)
    ensures
        forwarded(m, enabled_polls(before + seq![text, text] + after)) == forwarded(
            m,
            enabled_polls(before + seq![text] + after),
        ),
    decreases before.len(),
{
    lemma_true_flag_enabled();
    let twice = before + seq![text, text] + after;
    let once = before + seq![text] + after;
    let pt = enabled_polls(twice);
    let po = enabled_polls(once);
    if before.len() > 0 {
        assert(twice[0] == before[0]);
        assert(once[0] == before[0]);
        assert(pt[0] == po[0]);
        let m1 = poll_step(m, pt[0]);
        assert(pt.drop_first() =~= enabled_polls(before.drop_first() + seq![text, text] + after));
        assert(po.drop_first() =~= enabled_polls(before.drop_first() + seq![text] + after));
        lemma_repeat_from(m1, before.drop_first(), text, after);
    } else {
        assert(twice =~= seq![text, text] + after);
        assert(once =~= seq![text] + after);
        assert(pt[0] == po[0]);
        let m1 = poll_step(m, pt[0]);
        let rest = pt.drop_first();
        assert(rest[0] == pt[1]);
        assert(poll_forward(m1, rest[0]) is None);
        assert(poll_step(m1, rest[0]) == m1);
        assert(rest.drop_first() =~= enabled_polls(after));
        assert(po.drop_first() =~= enabled_polls(after));
        assert(forwarded(m1, rest) =~= forwarded(m1, enabled_polls(after)));
    }
}

/// The clipboard holding the same text at two polls in a row gives one
/// translation, not two: the repeated poll forwards nothing.
pub proof fn lemma_repeated_write_forwarded_once(
    before: Seq<Seq<char>>,
    text: Seq<char>,
    after: Seq<Seq<char>>,
)
    ensures
        forwarded(initial_model(), enabled_polls(before + seq![text, text] + after)) == forwarded(
            initial_model(),
            enabled_polls(before + seq![text] + after),
        ),
{
    lemma_repeat_from(initial_model(), before, text, after);
}

/// Once a poll finds the flag disabled, nothing is forwarded again, whatever
/// the clipboard or the flag holds later: only a fresh monitor resumes.
pub proof fn lemma_disabled_stops_forwarding(before: Seq<Poll>, disabled: Poll, after: Seq<Poll>)
    requires
        disabled.flag is Some,
        !flag_enabled(disabled.flag->0),
    ensures
        forwarded(initial_model(), before + seq![disabled] + after) == forwarded(
            initial_model(),
            before,
        ),
        !model_after(initial_model(), before + seq![disabled]).running,
{
    let m = initial_model();
    let m1 = model_after(m, before);
    lemma_forwarded_concat(m, before, seq![disabled]);
    lemma_forwarded_concat(m, before + seq![disabled], after);
    let m2 = model_after(m1, seq![disabled]);
    let single = seq![disabled];
    assert(single[0] == disabled);
    assert(single.drop_first() =~= Seq::<Poll>::empty());
    assert(poll_forward(m1, disabled) is None);
    assert(!poll_step(m1, disabled).running);
    assert(model_after(poll_step(m1, disabled), single.drop_first()) == poll_step(m1, disabled));
    assert(forwarded(poll_step(m1, disabled), single.drop_first()) =~= Seq::<Seq<char>>::empty());
    assert(model_after(m1, single) == poll_step(m1, disabled));
    assert(forwarded(m1, seq![disabled]) =~= Seq::<Seq<char>>::empty());
    assert(!m2.running);
    lemma_stopped_forwards_nothing(m2, after);
    assert(forwarded(m, before + seq![disabled] + after) =~= forwarded(m, before));
}

/// A poll made of `check_flag` on an enabled flag followed by
/// `observe_clipboard` forwards and changes what one poll that finds that
/// flag and that clipboard does.
pub proof fn lemma_poll_in_two_halves(m: MonitorModel, flag: Seq<char>, clipboard: Option<Seq<char>>)
    requires
        flag_enabled(flag),
    ensures
        poll_step(
            poll_step(m, Poll { flag: Some(flag), clipboard: None }),
            Poll { flag: Some(flag_text(true)), clipboard },
        ) == poll_step(m, Poll { flag: Some(flag), clipboard }),
        poll_forward(
            poll_step(m, Poll { flag: Some(flag), clipboard: None }),
            Poll { flag: Some(flag_text(true)), clipboard },
        ) == poll_forward(m, Poll { flag: Some(flag), clipboard }),
{
    lemma_true_flag_enabled();
}

} // verus!
