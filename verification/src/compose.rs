//! The compose state machine. Only `dead_acute` followed by `c` or `C` is
//! rewritten (to `ç` / `Ç`); every other key goes back to the caller to be
//! passed through unchanged.
use std::collections::HashSet;
use vstd::prelude::*;

verus! {

/// Keysym of the dead acute accent (`dead_acute`).
pub const KEY_DEAD_ACUTE: u32 = 0xfe51;

/// Keysym of the lower-case letter `c`.
pub const KEY_C_LOWER: u32 = 0x0063;

/// Keysym of the upper-case letter `C`.
pub const KEY_C_UPPER: u32 = 0x0043;

/// Text committed for `dead_acute` + `c`: U+00E7, LATIN SMALL LETTER C WITH CEDILLA.
pub const CEDILLA_LOWER: &'static str = "\u{00E7}";

/// Text committed for `dead_acute` + `C`: U+00C7, LATIN CAPITAL LETTER C WITH CEDILLA.
pub const CEDILLA_UPPER: &'static str = "\u{00C7}";

/// A dead-acute press held back until the next key decides what it means.
#[derive(Clone, Copy, Debug)]
pub struct PendingKey {
    pub keycode: u32,
    pub time: u32,
}

/// What the caller must do with a key press.
#[derive(Debug)]
pub enum Action {
    /// Pass the press through unchanged.
    Forward,
    /// Drop the press (it has been buffered).
    Swallow,
    /// Drop the press and commit this text instead.
    Commit(&'static str),
    /// Replay the buffered dead key (press and release), then pass the press through.
    ReplayThenForward(PendingKey),
    /// Replay the buffered dead key (press and release); the new press is buffered.
    ReplayThenBuffer(PendingKey),
}

/// The abstract state of a [`ComposeState`]: the buffered dead key, if any,
/// and the keycodes whose next release must not reach the application.
pub struct ComposeView {
    pub pending: Option<PendingKey>,
    pub swallowed: Set<u32>,
}

impl ComposeView {
    /// The state right after construction or a reset.
    pub open spec fn idle() -> ComposeView {
        ComposeView { pending: None, swallowed: Set::empty() }
    }
}

/// The effect of a key press with keysym `sym` on state `s`: the new state
/// and the action handed back to the caller.
pub open spec fn press_spec(s: ComposeView, sym: u32, keycode: u32, time: u32) -> (ComposeView, Action) {
    let key = PendingKey { keycode, time };
    match s.pending {
        None => {
            if sym == KEY_DEAD_ACUTE {
                (ComposeView { pending: Some(key), swallowed: s.swallowed.insert(keycode) }, Action::Swallow)
            } else {
                (s, Action::Forward)
            }
        },
        Some(prev) => {
            if sym == KEY_C_LOWER {
                (ComposeView { pending: None, swallowed: s.swallowed.insert(keycode) }, Action::Commit(CEDILLA_LOWER))
            } else if sym == KEY_C_UPPER {
                (ComposeView { pending: None, swallowed: s.swallowed.insert(keycode) }, Action::Commit(CEDILLA_UPPER))
            } else if sym == KEY_DEAD_ACUTE {
                (ComposeView { pending: Some(key), swallowed: s.swallowed.insert(keycode) }, Action::ReplayThenBuffer(prev))
            } else {
                (ComposeView { pending: None, swallowed: s.swallowed }, Action::ReplayThenForward(prev))
            }
        },
    }
}

/// The effect of releasing `keycode` on state `s`: the new state and whether
/// the release is swallowed.
pub open spec fn release_spec(s: ComposeView, keycode: u32) -> (ComposeView, bool) {
    (ComposeView { pending: s.pending, swallowed: s.swallowed.remove(keycode) }, s.swallowed.contains(keycode))
}

/// Compose state of one input-method context.
pub struct ComposeState {
    pending: Option<PendingKey>,
    swallowed_releases: HashSet<u32>,
}

impl View for ComposeState {
    type V = ComposeView;

    closed spec fn view(&self) -> ComposeView {
        ComposeView { pending: self.pending, swallowed: self.swallowed_releases@ }
    }
}

impl Default for ComposeState {
    fn default() -> (s: Self)
        ensures
            s@ == ComposeView::idle(),
    {
        ComposeState { pending: None, swallowed_releases: HashSet::new() }
    }
}

impl ComposeState {
    /// Feeds a key press (keysym `sym`, hardware `keycode`, timestamp `time`)
    /// through the state machine and says what to do with it.
    pub fn on_press(&mut self, sym: u32, keycode: u32, time: u32) -> (action: Action)
        ensures
            (final(self)@, action) == press_spec(old(self)@, sym, keycode, time),
    {
        match self.pending.take() {
            None => self.handle_idle_press(sym, keycode, time),
            Some(prev) => self.handle_after_acute(prev, sym, keycode, time),
        }
    }

    fn handle_idle_press(&mut self, sym: u32, keycode: u32, time: u32) -> (action: Action)
        ensures
            sym == KEY_DEAD_ACUTE ==> {
                &&& action == Action::Swallow
                &&& final(self)@.pending == Some(PendingKey { keycode, time })
                &&& final(self)@.swallowed == old(self)@.swallowed.insert(keycode)
            },
            sym != KEY_DEAD_ACUTE ==> action == Action::Forward && final(self)@ == old(self)@,
    {
        if sym == KEY_DEAD_ACUTE {
            self.pending = Some(PendingKey { keycode, time });
            self.swallowed_releases.insert(keycode);
            Action::Swallow
        } else {
            Action::Forward
        }
    }

    fn handle_after_acute(&mut self, prev: PendingKey, sym: u32, keycode: u32, time: u32) -> (action: Action)
        ensures
            sym == KEY_C_LOWER ==> {
                &&& action == Action::Commit(CEDILLA_LOWER)
                &&& final(self)@.pending == old(self)@.pending
                &&& final(self)@.swallowed == old(self)@.swallowed.insert(keycode)
            },
            sym == KEY_C_UPPER ==> {
                &&& action == Action::Commit(CEDILLA_UPPER)
                &&& final(self)@.pending == old(self)@.pending
                &&& final(self)@.swallowed == old(self)@.swallowed.insert(keycode)
            },
            sym == KEY_DEAD_ACUTE ==> {
                &&& action == Action::ReplayThenBuffer(prev)
                &&& final(self)@.pending == Some(PendingKey { keycode, time })
                &&& final(self)@.swallowed == old(self)@.swallowed.insert(keycode)
            },
            sym != KEY_C_LOWER && sym != KEY_C_UPPER && sym != KEY_DEAD_ACUTE ==> {
                &&& action == Action::ReplayThenForward(prev)
                &&& final(self)@ == old(self)@
            },
    {
        if sym == KEY_C_LOWER {
            self.swallowed_releases.insert(keycode);
            Action::Commit(CEDILLA_LOWER)
        } else if sym == KEY_C_UPPER {
            self.swallowed_releases.insert(keycode);
            Action::Commit(CEDILLA_UPPER)
        } else if sym == KEY_DEAD_ACUTE {
            self.pending = Some(PendingKey { keycode, time });
            self.swallowed_releases.insert(keycode);
            Action::ReplayThenBuffer(prev)
        } else {
            Action::ReplayThenForward(prev)
        }
    }

    /// Feeds a key release through the state machine. Returns `true` when the
    /// release belongs to a press that was swallowed, so it must be dropped too.
    pub fn on_release(&mut self, keycode: u32) -> (swallow: bool)
        ensures
            (final(self)@, swallow) == release_spec(old(self)@, keycode),
    {
        self.swallowed_releases.remove(&keycode)
    }
}

/// A dead-acute press followed by a `c` (or `C`) press commits `ç` (or `Ç`),
/// whatever state the machine was in before, and leaves nothing buffered.
/// From an idle state the dead-acute press itself is swallowed; otherwise the
/// key that was buffered before is replayed.
pub proof fn lemma_dead_acute_then_c_commits_cedilla(
    s: ComposeView,
    acute_keycode: u32,
    acute_time: u32,
    c_sym: u32,
    c_keycode: u32,
    c_time: u32,
)
    requires
        c_sym == KEY_C_LOWER || c_sym == KEY_C_UPPER,
    ensures
        ({
            let (s1, a1) = press_spec(s, KEY_DEAD_ACUTE, acute_keycode, acute_time);
            let (s2, a2) = press_spec(s1, c_sym, c_keycode, c_time);
            &&& s.pending is None ==> a1 == Action::Swallow
            &&& s.pending matches Some(prev) ==> a1 == Action::ReplayThenBuffer(prev)
            &&& a2 == Action::Commit(if c_sym == KEY_C_LOWER { CEDILLA_LOWER } else { CEDILLA_UPPER })
            &&& s2.pending is None
            &&& s2.swallowed == s.swallowed.insert(acute_keycode).insert(c_keycode)
        }),
{
}

/// After any press, a key is buffered exactly when the press was a dead
/// acute, and then the buffered key is that very press.
pub proof fn lemma_pending_is_last_dead_acute(s: ComposeView, sym: u32, keycode: u32, time: u32)
    ensures
        ({
            let (s1, _a) = press_spec(s, sym, keycode, time);
            &&& s1.pending is Some <==> sym == KEY_DEAD_ACUTE
            &&& sym == KEY_DEAD_ACUTE ==> s1.pending == Some(PendingKey { keycode, time })
        }),
{
}

/// A press that does not reach the application unchanged (swallowed,
/// committed as text, or buffered) makes the release of the same key be
/// swallowed as well; a press that is passed through leaves the handling of
/// every release as it was.
pub proof fn lemma_release_follows_press(s: ComposeView, sym: u32, keycode: u32, time: u32)
    ensures
        ({
            let (s1, a) = press_spec(s, sym, keycode, time);
            &&& (a is Swallow || a is Commit || a is ReplayThenBuffer) ==> release_spec(s1, keycode).1
            &&& (a is Forward || a is ReplayThenForward) ==> s1.swallowed == s.swallowed
        }),
{
}

/// The set of keys whose release is swallowed only ever gains the key being
/// pressed.
pub proof fn lemma_press_only_adds_pressed_key(s: ComposeView, sym: u32, keycode: u32, time: u32)
    ensures
        ({
            let (s1, _a) = press_spec(s, sym, keycode, time);
            &&& s.swallowed.subset_of(s1.swallowed)
            &&& s1.swallowed.subset_of(s.swallowed.insert(keycode))
        }),
{
}

/// A release is swallowed at most once: after a release of a key, a second
/// release of the same key passes through.
pub proof fn lemma_release_swallowed_once(s: ComposeView, keycode: u32)
    ensures
        !release_spec(release_spec(s, keycode).0, keycode).1,
        release_spec(s, keycode).0.pending == s.pending,
{
}

/// From an idle state every release passes through and nothing changes, and
/// every press of a key other than a dead acute is passed through unchanged.
pub proof fn lemma_idle_is_transparent(sym: u32, keycode: u32, time: u32)
    ensures
        release_spec(ComposeView::idle(), keycode) == (ComposeView::idle(), false),
        sym != KEY_DEAD_ACUTE ==> press_spec(ComposeView::idle(), sym, keycode, time) == (
        ComposeView::idle(), Action::Forward),
{
    assert(ComposeView::idle().swallowed.remove(keycode) =~= Set::<u32>::empty());
}

/// While a dead key is buffered, `c` commits `ç` and `C` commits `Ç`, whether
/// or not the dead key has been released in between: nothing stays buffered
/// and only the release of the `c` key is added to the swallowed releases.
pub proof fn lemma_buffered_then_c_commits(s: ComposeView, prev: PendingKey, keycode: u32, time: u32)
    requires
        s.pending == Some(prev),
    ensures
        press_spec(s, KEY_C_LOWER, keycode, time) == (
            ComposeView { pending: None, swallowed: s.swallowed.insert(keycode) },
            Action::Commit(CEDILLA_LOWER),
        ),
        press_spec(s, KEY_C_UPPER, keycode, time) == (
            ComposeView { pending: None, swallowed: s.swallowed.insert(keycode) },
            Action::Commit(CEDILLA_UPPER),
        ),
{
}

/// While a dead key is buffered, any key other than `c`, `C` or a dead acute
/// replays the buffered key and is then passed through, whether or not the
/// dead key has been released in between; nothing stays buffered and the
/// swallowed releases are untouched.
pub proof fn lemma_buffered_then_other_replays(
    s: ComposeView,
    prev: PendingKey,
    sym: u32,
    keycode: u32,
    time: u32,
)
    requires
        s.pending == Some(prev),
        sym != KEY_C_LOWER,
        sym != KEY_C_UPPER,
        sym != KEY_DEAD_ACUTE,
    ensures
        press_spec(s, sym, keycode, time) == (
            ComposeView { pending: None, swallowed: s.swallowed },
            Action::ReplayThenForward(prev),
        ),
{
}

/// While a dead key is buffered, a second dead acute replays the first one
/// and takes its place in the buffer; its own release will be swallowed.
pub proof fn lemma_buffered_then_dead_acute_replays_and_buffers(
    s: ComposeView,
    prev: PendingKey,
    keycode: u32,
    time: u32,
)
    requires
        s.pending == Some(prev),
    ensures
        press_spec(s, KEY_DEAD_ACUTE, keycode, time) == (
            ComposeView {
                pending: Some(PendingKey { keycode, time }),
                swallowed: s.swallowed.insert(keycode),
            },
            Action::ReplayThenBuffer(prev),
        ),
{
}

/// With nothing buffered, a dead acute is swallowed and buffered (its release
/// will be swallowed too), and any other key is passed through with the state
/// unchanged.
pub proof fn lemma_unbuffered_press(s: ComposeView, sym: u32, keycode: u32, time: u32)
    requires
        s.pending is None,
    ensures
        press_spec(s, KEY_DEAD_ACUTE, keycode, time) == (
            ComposeView {
                pending: Some(PendingKey { keycode, time }),
                swallowed: s.swallowed.insert(keycode),
            },
            Action::Swallow,
        ),
        sym != KEY_DEAD_ACUTE ==> press_spec(s, sym, keycode, time) == (s, Action::Forward),
{
}

/// A release is swallowed exactly when its key is among the swallowed
/// releases; it then leaves that set, and the buffered key is not touched.
pub proof fn lemma_release(s: ComposeView, keycode: u32)
    ensures
        release_spec(s, keycode) == (
            ComposeView { pending: s.pending, swallowed: s.swallowed.remove(keycode) },
            s.swallowed.contains(keycode),
        ),
{
}

/// Typing a dead acute, releasing it, then another key: the release is
/// swallowed, `c` / `C` then commit `ç` / `Ç`, a further dead acute replays
/// the first one and is buffered, and any other key replays the dead acute
/// (its press and time) before being passed through. This holds from any
/// starting state.
pub proof fn lemma_dead_acute_released_then_key(
    s: ComposeView,
    acute_keycode: u32,
    acute_time: u32,
    sym: u32,
    keycode: u32,
    time: u32,
)
    ensures
        ({
            let (s1, _a1) = press_spec(s, KEY_DEAD_ACUTE, acute_keycode, acute_time);
            let (s2, swallowed) = release_spec(s1, acute_keycode);
            let (s3, a3) = press_spec(s2, sym, keycode, time);
            let acute = PendingKey { keycode: acute_keycode, time: acute_time };
            &&& swallowed
            &&& sym == KEY_C_LOWER ==> a3 == Action::Commit(CEDILLA_LOWER) && s3.pending is None
            &&& sym == KEY_C_UPPER ==> a3 == Action::Commit(CEDILLA_UPPER) && s3.pending is None
            &&& sym == KEY_DEAD_ACUTE ==> a3 == Action::ReplayThenBuffer(acute)
                && s3.pending == Some(PendingKey { keycode, time })
            &&& (sym != KEY_C_LOWER && sym != KEY_C_UPPER && sym != KEY_DEAD_ACUTE) ==> a3
                == Action::ReplayThenForward(acute) && s3.pending is None
        }),
{
}

} // verus!
