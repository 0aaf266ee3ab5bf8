//! The audio sessions of Windows from which the user picks a capture target.
use crate::names::non_empty;
use crate::number;
use crate::number::to_decimal;
use crate::pcm;
use crate::pcm::{ACTIVE_AUDIO_BITS, order_key};
use crate::text;
use crate::text::chars_of;
use std::collections::HashMap;
use vstd::prelude::*;

verus! {

/// What the system says of an audio session.
#[derive(Clone, Copy, Debug, PartialEq, Eq, Structural)]
pub enum SessionState {
    Active,
    Inactive,
    Expired,
    Unknown,
}

impl SessionState {
    pub open spec fn text(self) -> Seq<char> {
        match self {
            SessionState::Active => "active"@,
            SessionState::Inactive => "inactive"@,
            SessionState::Expired => "expired"@,
            SessionState::Unknown => "unknown"@,
        }
    }

    pub fn name(self) -> (r: &'static str)
        ensures
            r@ == self.text(),
    {
        match self {
            SessionState::Active => "active",
            SessionState::Inactive => "inactive",
            SessionState::Expired => "expired",
            SessionState::Unknown => "unknown",
        }
    }
}

/// A session as it was read. The peak and the volume are bit patterns of
/// single-precision values, and the texts are how they are shown.
#[derive(Debug)]
pub struct RenderSession {
    pub pid: u32,
    pub state: SessionState,
    pub display_name: String,
    pub peak: u32,
    pub volume: u32,
    pub muted: bool,
    pub peak_text: String,
    pub volume_text: String,
}

/// A session that the user can pick. The peak and the volume are bit patterns of
/// single-precision values.
#[derive(Debug, Default)]
pub struct WindowsAudioSessionOption {
    pub pid: u32,
    pub process_name: String,
    pub display_name: String,
    pub state: String,
    pub peak: u32,
    pub volume: u32,
    pub muted: bool,
    pub audible: bool,
    pub label: String,
}

#[verifier::ext_equal]
pub struct SessionView {
    pub pid: u32,
    pub process_name: Seq<char>,
    pub display_name: Seq<char>,
    pub state: Seq<char>,
    pub peak: u32,
    pub volume: u32,
    pub muted: bool,
    pub audible: bool,
    pub label: Seq<char>,
}

impl View for WindowsAudioSessionOption {
    type V = SessionView;

    open spec fn view(&self) -> SessionView {
        SessionView {
            pid: self.pid,
            process_name: self.process_name@,
            display_name: self.display_name@,
            state: self.state@,
            peak: self.peak,
            volume: self.volume,
            muted: self.muted,
            audible: self.audible,
            label: self.label@,
        }
    }
}

/// The views of the sessions, in order.
pub open spec fn session_views(sessions: Seq<WindowsAudioSessionOption>) -> Seq<SessionView> {
    sessions.map_values(|s: WindowsAudioSessionOption| s@)
}

impl Clone for WindowsAudioSessionOption {
    fn clone(&self) -> (r: WindowsAudioSessionOption)
        ensures
            r@ == self@,
    {
        WindowsAudioSessionOption {
            pid: self.pid,
            process_name: self.process_name.clone(),
            display_name: self.display_name.clone(),
            state: self.state.clone(),
            peak: self.peak,
            volume: self.volume,
            muted: self.muted,
            audible: self.audible,
            label: self.label.clone(),
        }
    }
}

pub fn clone_sessions(sessions: &Vec<WindowsAudioSessionOption>) -> (r: Vec<
    WindowsAudioSessionOption,
>)
    ensures
        session_views(r@) == session_views(sessions@),
{
    let mut r: Vec<WindowsAudioSessionOption> = Vec::new();
    let mut i: usize = 0;
    while i < sessions.len()
        invariant
            i <= sessions@.len(),
            r@.len() == i,
            forall|k: int| 0 <= k < i ==> (#[trigger] r@[k])@ == sessions@[k]@,
        decreases sessions@.len() - i,
    {
        r.push(sessions[i].clone());
        i += 1;
    }
    assert(session_views(r@) =~= session_views(sessions@));
    r
}

/// The name under which a session is shown.
pub open spec fn label_name(process_name: Seq<char>, display_name: Seq<char>) -> Seq<char> {
    if !text::blank(process_name) {
        text::trimmed(process_name)
    } else if !text::blank(display_name) {
        text::trimmed(display_name)
    } else {
        "Unknown session"@
    }
}

/// The session as the user sees it.
pub open spec fn session_option(s: RenderSession, process_name: Seq<char>) -> SessionView {
    SessionView {
        pid: s.pid,
        process_name,
        display_name: s.display_name@,
        state: s.state.text(),
        peak: s.peak,
        volume: s.volume,
        muted: s.muted,
        audible: pcm::reaches_threshold(s.peak) && !s.muted && s.state == SessionState::Active,
        label: label_name(process_name, s.display_name@) + " pid "@ + number::decimal(
            s.pid as nat,
        ) + " | "@ + s.state.text() + " | peak "@ + s.peak_text@ + " | vol "@ + s.volume_text@
            + "%"@ + if s.muted {
            " | muted"@
        } else {
            ""@
        },
    }
}

/// The session as the user sees it.
fn describe_session(s: RenderSession, process_name: String) -> (r: WindowsAudioSessionOption)
    ensures
        r@ == session_option(s, process_name@),
{
    let active = match s.state {
        SessionState::Active => true,
        _ => false,
    };
    let audible = s.peak >= ACTIVE_AUDIO_BITS && s.peak <= 0x7f80_0000 && !s.muted && active;
    let shown = match non_empty(process_name.as_str()) {
        Some(name) => name.to_owned(),
        None => match non_empty(s.display_name.as_str()) {
            Some(name) => name.to_owned(),
            None => "Unknown session".to_owned(),
        },
    };
    let label = shown.concat(" pid ").concat(to_decimal(s.pid as u64).as_str()).concat(
        " | ",
    ).concat(s.state.name()).concat(" | peak ").concat(s.peak_text.as_str()).concat(
        " | vol ",
    ).concat(s.volume_text.as_str()).concat("%").concat(
        if s.muted {
            " | muted"
        } else {
            ""
        },
    );
    WindowsAudioSessionOption {
        pid: s.pid,
        state: s.state.name().to_owned(),
        peak: s.peak,
        volume: s.volume,
        muted: s.muted,
        audible,
        label,
        process_name,
        display_name: s.display_name,
    }
}

// ---------------------------------------------------------------------------
// Order
// ---------------------------------------------------------------------------

/// Whether `a` comes before `b` in the order of characters.
pub open spec fn text_less(a: Seq<char>, b: Seq<char>) -> bool
    decreases a.len(),
{
    if b.len() == 0 {
        false
    } else if a.len() == 0 {
        true
    } else if a[0] == b[0] {
        text_less(a.drop_first(), b.drop_first())
    } else {
        a[0] < b[0]
    }
}

/// Whether `a` stands before `b` in the list: the audible sessions first, then the
/// louder ones, then by process name.
pub open spec fn listed_before(a: SessionView, b: SessionView) -> bool {
    if a.audible != b.audible {
        a.audible
    } else if pcm::total_order(a.peak) != pcm::total_order(b.peak) {
        pcm::total_order(a.peak) > pcm::total_order(b.peak)
    } else {
        text_less(a.process_name, b.process_name)
    }
}

/// Whether neither of the two stands before the other.
pub open spec fn ties(a: SessionView, b: SessionView) -> bool {
    !listed_before(a, b) && !listed_before(b, a)
}

/// Whether no session stands before one that it should follow.
pub open spec fn is_listed(sessions: Seq<SessionView>) -> bool {
    forall|i: int, j: int|
        0 <= i < j < sessions.len() ==> !listed_before(
            #[trigger] sessions[j],
            #[trigger] sessions[i],
        )
}

/// The sessions that tie with `e`, in the order in which they stand.
pub open spec fn tied_with(sessions: Seq<SessionView>, e: SessionView) -> Seq<SessionView> {
    sessions.filter(|s: SessionView| ties(s, e))
}

/// The sessions that have a process.
pub open spec fn with_process(sessions: Seq<SessionView>) -> Seq<SessionView> {
    sessions.filter(|s: SessionView| s.pid != 0)
}

/// Whether `listed` holds the sessions of `found` that have a process, in the order
/// of the list, and those that tie in the order in which they were found.
pub open spec fn is_listing(listed: Seq<SessionView>, found: Seq<SessionView>) -> bool {
    &&& is_listed(listed)
    &&& forall|e: SessionView|
        #![trigger tied_with(listed, e)]
        tied_with(listed, e) == tied_with(with_process(found), e)
}

fn text_less_than(a: &str, b: &str) -> (r: bool)
    ensures
        r == text_less(a@, b@),
{
    let left = chars_of(a);
    let right = chars_of(b);
    let mut i: usize = 0;
    assert(a@.skip(0) =~= a@);
    assert(b@.skip(0) =~= b@);
    loop
        invariant
            left@ == a@,
            right@ == b@,
            i <= left@.len(),
            i <= right@.len(),
            text_less(a@.skip(i as int), b@.skip(i as int)) == text_less(a@, b@),
        decreases left@.len() - i,
    {
        if i >= right.len() {
            return false;
        }
        if i >= left.len() {
            return true;
        }
        assert(a@.skip(i as int)[0] == a@[i as int]);
        assert(b@.skip(i as int)[0] == b@[i as int]);
        assert(a@.skip(i as int).drop_first() =~= a@.skip(i + 1));
        assert(b@.skip(i as int).drop_first() =~= b@.skip(i + 1));
        if left[i] != right[i] {
            return left[i] < right[i];
        }
        i += 1;
    }
}

fn stands_before(a: &WindowsAudioSessionOption, b: &WindowsAudioSessionOption) -> (r: bool)
    ensures
        r == listed_before(a@, b@),
{
    let left = order_key(a.peak);
    let right = order_key(b.peak);
    if a.audible != b.audible {
        a.audible
    } else if left != right {
        left > right
    } else {
        text_less_than(a.process_name.as_str(), b.process_name.as_str())
    }
}

proof fn lemma_text_less_not_both(a: Seq<char>, b: Seq<char>)
    ensures
        !(text_less(a, b) && text_less(b, a)),
        !text_less(a, b) && !text_less(b, a) ==> a == b,
    decreases a.len(),
{
    if a.len() > 0 && b.len() > 0 && a[0] == b[0] {
        lemma_text_less_not_both(a.drop_first(), b.drop_first());
        if a.drop_first() == b.drop_first() {
            assert(a =~= seq![a[0]] + a.drop_first());
            assert(b =~= seq![b[0]] + b.drop_first());
        }
    } else if a.len() == 0 && b.len() == 0 {
        assert(a =~= b);
    }
}

proof fn lemma_text_less_transitive(a: Seq<char>, b: Seq<char>, c: Seq<char>)
    requires
        text_less(a, b),
        text_less(b, c),
    ensures
        text_less(a, c),
    decreases a.len(),
{
    if a.len() > 0 && a[0] == b[0] && b[0] == c[0] {
        lemma_text_less_transitive(a.drop_first(), b.drop_first(), c.drop_first());
    }
}

/// The order of the list is strict, and a session that follows another follows
/// everything that ties with it.
proof fn lemma_listing_order(a: SessionView, b: SessionView, c: SessionView)
    ensures
        !(listed_before(a, b) && listed_before(b, a)),
        listed_before(a, b) && !listed_before(c, b) ==> listed_before(a, c),
        !listed_before(b, a) && listed_before(b, c) ==> listed_before(a, c),
        !listed_before(b, a) && !listed_before(c, b) ==> !listed_before(c, a),
{
    let (x, y, z) = (a.process_name, b.process_name, c.process_name);
    lemma_text_less_not_both(x, y);
    lemma_text_less_not_both(y, z);
    lemma_text_less_not_both(x, z);
    if text_less(x, y) && text_less(y, z) {
        lemma_text_less_transitive(x, y, z);
    }
    if text_less(y, x) && text_less(x, z) {
        lemma_text_less_transitive(y, x, z);
    }
    if text_less(z, x) && text_less(x, y) {
        lemma_text_less_transitive(z, x, y);
    }
    if text_less(x, z) && text_less(z, y) {
        lemma_text_less_transitive(x, z, y);
    }
    if text_less(z, y) && text_less(y, x) {
        lemma_text_less_transitive(z, y, x);
    }
    if text_less(y, z) && text_less(z, x) {
        lemma_text_less_transitive(y, z, x);
    }
}

/// Putting `x` in front of the first session that does not stand before it.
proof fn lemma_insert_keeps_ties(rest: Seq<SessionView>, x: SessionView, at: int, e: SessionView)
    requires
        0 <= at <= rest.len(),
        forall|k: int| 0 <= k < at ==> listed_before(#[trigger] rest[k], x),
    ensures
        tied_with(rest.insert(at, x), e) == tied_with(seq![x], e) + tied_with(rest, e),
{
    let pred = |s: SessionView| ties(s, e);
    let front = rest.take(at);
    let back = rest.skip(at);
    assert(rest.insert(at, x) =~= front + (seq![x] + back));
    assert(rest =~= front + back);
    Seq::filter_distributes_over_add(front, seq![x] + back, pred);
    Seq::filter_distributes_over_add(seq![x], back, pred);
    Seq::filter_distributes_over_add(front, back, pred);
    let one = seq![x].filter(pred);
    if ties(x, e) {
        assert forall|k: int| 0 <= k < front.len() implies !pred(#[trigger] front[k]) by {
            assert(front[k] == rest[k]);
            lemma_listing_order(front[k], x, e);
        }
        lemma_filter_none(front, pred);
        assert(front.filter(pred) =~= Seq::<SessionView>::empty());
        assert(front.filter(pred) + (one + back.filter(pred)) =~= one + back.filter(pred));
        assert(front.filter(pred) + back.filter(pred) =~= back.filter(pred));
    } else {
        lemma_filter_one(x, pred);
        assert(one + back.filter(pred) =~= back.filter(pred));
        assert(one + (front + back).filter(pred) =~= (front + back).filter(pred));
    }
}

proof fn lemma_filter_one(x: SessionView, pred: spec_fn(SessionView) -> bool)
    ensures
        seq![x].filter(pred) == if pred(x) {
            seq![x]
        } else {
            Seq::empty()
        },
{
    reveal_with_fuel(Seq::filter, 2);
    assert(seq![x].drop_last() =~= Seq::<SessionView>::empty());
    assert(seq![x].filter(pred) =~= if pred(x) {
        seq![x]
    } else {
        Seq::empty()
    });
}

proof fn lemma_filter_none(s: Seq<SessionView>, pred: spec_fn(SessionView) -> bool)
    requires
        forall|k: int| 0 <= k < s.len() ==> !pred(#[trigger] s[k]),
    ensures
        s.filter(pred).len() == 0,
    decreases s.len(),
{
    reveal(Seq::filter);
    if s.len() > 0 {
        let before = s.drop_last();
        assert forall|k: int| 0 <= k < before.len() implies !pred(#[trigger] before[k]) by {
            assert(before[k] == s[k]);
        }
        lemma_filter_none(before, pred);
        assert(!pred(s[s.len() - 1]));
    }
}

/// A listing with one more session found in front of all others.
proof fn lemma_listing_grows(
    listed: Seq<SessionView>,
    found: Seq<SessionView>,
    x: SessionView,
    at: int,
)
    requires
        is_listing(listed, found),
        x.pid != 0,
        0 <= at <= listed.len(),
        forall|k: int| 0 <= k < at ==> listed_before(#[trigger] listed[k], x),
        at < listed.len() ==> !listed_before(listed[at], x),
    ensures
        is_listing(listed.insert(at, x), seq![x] + found),
{
    let grown = listed.insert(at, x);
    assert forall|i: int, j: int| 0 <= i < j < grown.len() implies !listed_before(
        #[trigger] grown[j],
        #[trigger] grown[i],
    ) by {
        if i == at {
            lemma_listing_order(x, listed[at], listed[j - 1]);
            if j - 1 > at {
                assert(!listed_before(listed[j - 1], listed[at]));
            }
        } else if j == at {
            assert(listed_before(listed[i], x));
            lemma_listing_order(listed[i], x, x);
        } else {
            let old_i = if i < at {
                i
            } else {
                i - 1
            };
            let old_j = if j < at {
                j
            } else {
                j - 1
            };
            assert(!listed_before(listed[old_j], listed[old_i]));
        }
    }
    assert forall|e: SessionView|
        #![trigger tied_with(grown, e)]
        tied_with(grown, e) == tied_with(with_process(seq![x] + found), e) by {
        lemma_insert_keeps_ties(listed, x, at, e);
        assert(tied_with(listed, e) == tied_with(with_process(found), e));
        let kept = |s: SessionView| s.pid != 0;
        Seq::filter_distributes_over_add(seq![x], found, kept);
        lemma_filter_one(x, kept);
        Seq::filter_distributes_over_add(
            seq![x],
            with_process(found),
            |s: SessionView| ties(s, e),
        );
    }
}

/// A listing with one more session found that has no process.
proof fn lemma_listing_skips(listed: Seq<SessionView>, found: Seq<SessionView>, x: SessionView)
    requires
        is_listing(listed, found),
        x.pid == 0,
    ensures
        is_listing(listed, seq![x] + found),
{
    let kept = |s: SessionView| s.pid != 0;
    Seq::filter_distributes_over_add(seq![x], found, kept);
    lemma_filter_one(x, kept);
    assert(with_process(seq![x] + found) =~= with_process(found));
}

/// The sessions with a process, in the order of the list. Sessions that tie keep
/// the order in which they were found.
pub fn list_sessions(found: Vec<WindowsAudioSessionOption>) -> (listed: Vec<
    WindowsAudioSessionOption,
>)
    ensures
        is_listing(session_views(listed@), session_views(found@)),
{
    let ghost all = session_views(found@);
    let mut left = found;
    let mut listed: Vec<WindowsAudioSessionOption> = Vec::new();
    proof {
        reveal(Seq::filter);
        assert(session_views(listed@) =~= Seq::<SessionView>::empty());
        assert(all.skip(all.len() as int) =~= Seq::<SessionView>::empty());
    }
    while left.len() > 0
        invariant
            left@.len() <= all.len(),
            session_views(left@) == all.take(left@.len() as int),
            is_listing(session_views(listed@), all.skip(left@.len() as int)),
        decreases left@.len(),
    {
        let ghost n = left@.len();
        let ghost views = session_views(left@);
        assert(views.last() == left@.last()@);
        if let Some(x) = left.pop() {
            assert(session_views(left@) =~= views.drop_last());
            assert(session_views(left@) =~= all.take(n - 1));
            assert(all.skip(n - 1) =~= seq![x@] + all.skip(n as int));
            let ghost before = session_views(listed@);
            if x.pid != 0 {
                let mut at: usize = 0;
                while at < listed.len() && stands_before(&listed[at], &x)
                    invariant
                        at <= listed@.len(),
                        before == session_views(listed@),
                        forall|k: int| 0 <= k < at ==> listed_before(#[trigger] before[k], x@),
                    ensures
                        at <= listed@.len(),
                        before == session_views(listed@),
                        forall|k: int| 0 <= k < at ==> listed_before(#[trigger] before[k], x@),
                        at < listed@.len() ==> !listed_before(before[at as int], x@),
                    decreases listed@.len() - at,
                {
                    assert(before[at as int] == listed@[at as int]@);
                    at += 1;
                }
                proof {
                    lemma_listing_grows(before, all.skip(n as int), x@, at as int);
                }
                let ghost moved = x@;
                listed.insert(at, x);
                assert(session_views(listed@) =~= before.insert(at as int, moved));
            } else {
                proof {
                    lemma_listing_skips(before, all.skip(n as int), x@);
                }
            }
        }
    }
    assert(all.skip(0) =~= all);
    listed
}

/// The name of the process with the number, or nothing.
pub open spec fn image_of(processes: Map<u32, String>, pid: u32) -> Seq<char> {
    if processes.contains_key(pid) {
        processes[pid]@
    } else {
        Seq::empty()
    }
}

/// The sessions as the user sees them, in the order in which they were found.
pub open spec fn described(found: Seq<RenderSession>, processes: Map<u32, String>) -> Seq<
    SessionView,
> {
    found.map_values(|s: RenderSession| session_option(s, image_of(processes, s.pid)))
}

/// The list of the sessions that were found, given the images of the processes.
pub fn windows_render_audio_sessions(
    found: Vec<RenderSession>,
    processes: &HashMap<u32, String>,
) -> (listed: Vec<WindowsAudioSessionOption>)
    ensures
        is_listing(session_views(listed@), described(found@, processes@)),
{
    let ghost all = found@;
    let mut left = found;
    let mut options: Vec<WindowsAudioSessionOption> = Vec::new();
    let ghost shown = described(all, processes@);
    while left.len() > 0
        invariant
            left@.len() + options@.len() == all.len(),
            left@ == all.take(left@.len() as int),
            shown == described(all, processes@),
            forall|k: int|
                0 <= k < options@.len() ==> (#[trigger] options@[k])@ == shown[left@.len() + k],
        decreases left@.len(),
    {
        let ghost n = left@.len();
        assert(left@.last() == all[n - 1]);
        if let Some(session) = left.pop() {
            assert(left@ =~= all.take(n - 1));
            let name = match processes.get(&session.pid) {
                Some(name) => name.clone(),
                None => String::new(),
            };
            let ghost before = options@;
            assert(session == all[n - 1]);
            options.insert(0, describe_session(session, name));
            assert forall|k: int| 0 <= k < options@.len() implies (#[trigger] options@[k])@
                == shown[n - 1 + k] by {
                if k > 0 {
                    assert(options@[k] == before[k - 1]);
                }
            }
        }
    }
    assert(session_views(options@) =~= shown);
    list_sessions(options)
}

// ---------------------------------------------------------------------------
// Laws
// ---------------------------------------------------------------------------

/// A listing holds a session exactly where it was found with a process.
pub proof fn listing_keeps_sessions(
    listed: Seq<SessionView>,
    found: Seq<SessionView>,
    s: SessionView,
)
    requires
        is_listing(listed, found),
    ensures
        listed.contains(s) <==> found.contains(s) && s.pid != 0,
{
    let kept = |x: SessionView| x.pid != 0;
    let tied = |x: SessionView| ties(x, s);
    lemma_listing_order(s, s, s);
    lemma_text_less_not_both(s.process_name, s.process_name);
    let present = with_process(found);
    assert(tied_with(listed, s) == tied_with(present, s));
    if listed.contains(s) {
        let i = choose|i: int| 0 <= i < listed.len() && listed[i] == s;
        listed.lemma_filter_contains(tied, i);
        present.lemma_filter_contains_rev(tied, s);
        let j = choose|j: int| 0 <= j < present.len() && present[j] == s;
        found.lemma_filter_pred(kept, j);
        found.lemma_filter_contains_rev(kept, s);
    }
    if found.contains(s) && s.pid != 0 {
        let i = choose|i: int| 0 <= i < found.len() && found[i] == s;
        found.lemma_filter_contains(kept, i);
        let j = choose|j: int| 0 <= j < present.len() && present[j] == s;
        present.lemma_filter_contains(tied, j);
        listed.lemma_filter_contains_rev(tied, s);
    }
}

/// The audible sessions come first, and among those that are equally audible the
/// louder one never follows the quieter one.
pub proof fn audible_sessions_come_first(listed: Seq<SessionView>, i: int, j: int)
    requires
        is_listed(listed),
        0 <= i < j < listed.len(),
    ensures
        listed[j].audible ==> listed[i].audible,
        listed[i].audible == listed[j].audible ==> pcm::total_order(listed[j].peak)
            <= pcm::total_order(listed[i].peak),
{
    assert(!listed_before(listed[j], listed[i]));
}

/// A session is audible exactly where it is active, is not muted and its peak is at
/// least the threshold; what was read of it is shown as it is.
pub proof fn session_is_shown_as_read(s: RenderSession, process_name: Seq<char>)
    ensures
        ({
            let shown = session_option(s, process_name);
            &&& shown.audible <==> s.state == SessionState::Active && !s.muted && 0x3a03_126f
                <= s.peak <= 0x7f80_0000
            &&& shown.pid == s.pid
            &&& shown.process_name == process_name
            &&& shown.display_name == s.display_name@
            &&& shown.peak == s.peak
            &&& shown.volume == s.volume
            &&& shown.muted == s.muted
            &&& shown.state == "active"@ <==> s.state == SessionState::Active
        }),
{
    reveal_strlit("active");
    reveal_strlit("inactive");
    reveal_strlit("expired");
    reveal_strlit("unknown");
    assert("active"@.len() == 6 && "inactive"@.len() == 8);
    assert("expired"@.len() == 7 && "unknown"@.len() == 7);
}

/// The label of a session begins with its process, or else with its own name, goes on
/// with its number, state, peak and volume, and ends with whether it is muted.
pub proof fn label_names_the_session(s: RenderSession, process_name: Seq<char>)
    ensures
        ({
            let label = session_option(s, process_name).label;
            let name = if !text::blank(process_name) {
                text::trimmed(process_name)
            } else if !text::blank(s.display_name@) {
                text::trimmed(s.display_name@)
            } else {
                "Unknown session"@
            };
            let start = name + " pid "@ + number::decimal(s.pid as nat) + " | "@ + s.state.text()
                + " | peak "@ + s.peak_text@ + " | vol "@ + s.volume_text@ + "%"@;
            &&& s.muted ==> label == start + " | muted"@
            &&& !s.muted ==> label == start
        }),
{
    reveal_strlit("");
    let label = session_option(s, process_name).label;
    if !s.muted {
        assert(label =~= label + ""@);
    }
}

/// Texts are ordered by their first difference, and a text comes before every longer
/// one that begins with it.
pub proof fn texts_are_ordered_by_first_difference(
    start: Seq<char>,
    a: char,
    b: char,
    x: Seq<char>,
    y: Seq<char>,
)
    ensures
        a != b ==> (text_less(start + (seq![a] + x), start + (seq![b] + y)) <==> a < b),
        text_less(start, start + (seq![b] + y)),
        !text_less(start + (seq![a] + x), start),
        !text_less(start, start),
    decreases start.len(),
{
    let left = start + (seq![a] + x);
    let right = start + (seq![b] + y);
    if start.len() > 0 {
        let rest = start.drop_first();
        texts_are_ordered_by_first_difference(rest, a, b, x, y);
        assert(left[0] == start[0] && right[0] == start[0]);
        assert(left.drop_first() =~= rest + (seq![a] + x));
        assert(right.drop_first() =~= rest + (seq![b] + y));
    } else {
        assert(left[0] == a && right[0] == b);
    }
}

/// Among sessions that are equally loud the names of the processes decide.
pub proof fn equally_loud_sessions_go_by_name(listed: Seq<SessionView>, i: int, j: int)
    requires
        is_listed(listed),
        0 <= i < j < listed.len(),
        listed[i].audible == listed[j].audible,
        listed[i].peak == listed[j].peak,
    ensures
        !text_less(listed[j].process_name, listed[i].process_name),
{
    assert(!listed_before(listed[j], listed[i]));
}

/// Louder means a larger value, not a larger pattern of bits: of two audible sessions
/// the one with the larger peak comes first.
pub proof fn louder_sessions_come_first(listed: Seq<SessionView>, i: int, j: int)
    requires
        is_listed(listed),
        0 <= i < listed.len(),
        0 <= j < listed.len(),
        listed[i].audible == listed[j].audible,
        listed[i].peak < 0x8000_0000,
        listed[j].peak < 0x8000_0000,
        listed[i].peak > listed[j].peak,
    ensures
        i < j,
{
    if j < i {
        assert(!listed_before(listed[i], listed[j]));
    }
}

/// Every session that was found and has a process is listed, with the image of its
/// process where that is known.
pub proof fn found_session_is_listed(
    listed: Seq<SessionView>,
    found: Seq<RenderSession>,
    processes: Map<u32, String>,
    k: int,
) -> (place: int)
    requires
        is_listing(listed, described(found, processes)),
        0 <= k < found.len(),
        found[k].pid != 0,
    ensures
        0 <= place < listed.len(),
        listed[place].pid == found[k].pid,
        listed[place].display_name == found[k].display_name@,
        listed[place].peak == found[k].peak,
        listed[place].muted == found[k].muted,
        processes.contains_key(found[k].pid) ==> listed[place].process_name
            == processes[found[k].pid]@,
        !processes.contains_key(found[k].pid) ==> listed[place].process_name.len() == 0,
{
    let shown = described(found, processes);
    let s = shown[k];
    assert(shown.contains(s));
    listing_keeps_sessions(listed, shown, s);
    choose|place: int| 0 <= place < listed.len() && listed[place] == s
}

} // verus!
