//! The per-connection keyboard session: the decisions taken on each event of
//! the grabbed keyboard and of the input-method context. Every key event is
//! turned into the list of requests to send upstream, in order; the caller
//! performs them.
use crate::compose::{
    press_spec, release_spec, Action, ComposeState, ComposeView, PendingKey, CEDILLA_LOWER,
    KEY_C_LOWER, KEY_DEAD_ACUTE,
};
use vstd::prelude::*;

verus! {

/// Offset between the evdev keycodes of `wl_keyboard.key` and xkb keycodes.
pub const KEYCODE_OFFSET: u32 = 8;

/// `wl_keyboard.key_state.released`.
pub const KEY_STATE_RELEASED: u32 = 0;

/// `wl_keyboard.key_state.pressed`.
pub const KEY_STATE_PRESSED: u32 = 1;

/// A request to send to the input-method context.
#[derive(Clone, Copy, Debug, PartialEq, Eq)]
pub enum KeyOutput {
    /// `zwp_input_method_context_v1.key(serial, time, key, state)`.
    Key { serial: u32, time: u32, key: u32, state: u32 },
    /// `zwp_input_method_context_v1.commit_string(serial, text)`.
    Commit { serial: u32, text: &'static str },
}

/// The xkb keycode of an evdev keycode.
pub fn xkb_keycode(key: u32) -> (code: u32)
    requires
        key + KEYCODE_OFFSET <= u32::MAX,
    ensures
        code == key + KEYCODE_OFFSET,
{
    key + KEYCODE_OFFSET
}

/// A key request with keyboard serial `serial`.
pub open spec fn key_event(serial: u32, time: u32, key: u32, state: u32) -> KeyOutput {
    KeyOutput::Key { serial, time, key, state }
}

/// Replaying a buffered key: its press and its release, both at its own time.
pub open spec fn replay_spec(prev: PendingKey, serial: u32) -> Seq<KeyOutput> {
    seq![
        key_event(serial, prev.time, prev.keycode, KEY_STATE_PRESSED),
        key_event(serial, prev.time, prev.keycode, KEY_STATE_RELEASED),
    ]
}

/// The requests that carry out `action` for a press of `key` at `time`.
pub open spec fn action_outputs_spec(
    action: Action,
    kbd_serial: u32,
    text_serial: u32,
    time: u32,
    key: u32,
) -> Seq<KeyOutput> {
    match action {
        Action::Forward => seq![key_event(kbd_serial, time, key, KEY_STATE_PRESSED)],
        Action::Swallow => Seq::empty(),
        Action::Commit(text) => seq![KeyOutput::Commit { serial: text_serial, text }],
        Action::ReplayThenForward(prev) => replay_spec(prev, kbd_serial).push(
            key_event(kbd_serial, time, key, KEY_STATE_PRESSED),
        ),
        Action::ReplayThenBuffer(prev) => replay_spec(prev, kbd_serial),
    }
}

/// The abstract state of a [`KeyboardSession`].
pub struct SessionView {
    pub compose: ComposeView,
    /// Serial of the last `commit_state` of the input-method context.
    pub text_serial: u32,
    /// Serial of the last `wl_keyboard.key`.
    pub kbd_serial: u32,
}

/// The effect of a `wl_keyboard.key` event on session `s`: the new state and
/// the requests to send. `sym` is the keysym of the key under the current
/// keymap and modifiers, or `None` when no keymap is known; it only matters
/// for presses.
pub open spec fn key_spec(
    s: SessionView,
    serial: u32,
    time: u32,
    key: u32,
    state: u32,
    sym: Option<u32>,
) -> (SessionView, Seq<KeyOutput>) {
    if state == KEY_STATE_PRESSED {
        match sym {
            None => (
                SessionView { compose: s.compose, text_serial: s.text_serial, kbd_serial: serial },
                seq![key_event(serial, time, key, KEY_STATE_PRESSED)],
            ),
            Some(sym) => {
                let (c, action) = press_spec(s.compose, sym, key, time);
                (
                    SessionView { compose: c, text_serial: s.text_serial, kbd_serial: serial },
                    action_outputs_spec(action, serial, s.text_serial, time, key),
                )
            },
        }
    } else if state == KEY_STATE_RELEASED {
        let (c, swallow) = release_spec(s.compose, key);
        (
            SessionView { compose: c, text_serial: s.text_serial, kbd_serial: serial },
            if swallow {
                Seq::empty()
            } else {
                seq![key_event(serial, time, key, KEY_STATE_RELEASED)]
            },
        )
    } else {
        (
            SessionView { compose: s.compose, text_serial: s.text_serial, kbd_serial: serial },
            seq![key_event(serial, time, key, state)],
        )
    }
}

/// Builds the requests that carry out `action` for a press of `key` at `time`.
pub fn action_outputs(action: Action, kbd_serial: u32, text_serial: u32, time: u32, key: u32) -> (out:
    Vec<KeyOutput>)
    ensures
        out@ == action_outputs_spec(action, kbd_serial, text_serial, time, key),
{
    let mut out: Vec<KeyOutput> = Vec::new();
    match action {
        Action::Forward => {
            out.push(KeyOutput::Key { serial: kbd_serial, time, key, state: KEY_STATE_PRESSED });
        },
        Action::Swallow => {},
        Action::Commit(text) => {
            out.push(KeyOutput::Commit { serial: text_serial, text });
        },
        Action::ReplayThenForward(prev) => {
            push_replay(&mut out, prev, kbd_serial);
            out.push(KeyOutput::Key { serial: kbd_serial, time, key, state: KEY_STATE_PRESSED });
        },
        Action::ReplayThenBuffer(prev) => {
            push_replay(&mut out, prev, kbd_serial);
        },
    }
    out
}

fn push_replay(out: &mut Vec<KeyOutput>, prev: PendingKey, serial: u32)
    ensures
        final(out)@ == old(out)@ + replay_spec(prev, serial),
{
    out.push(
        KeyOutput::Key { serial, time: prev.time, key: prev.keycode, state: KEY_STATE_PRESSED },
    );
    out.push(
        KeyOutput::Key { serial, time: prev.time, key: prev.keycode, state: KEY_STATE_RELEASED },
    );
}

/// The plain state of one client connection: the compose machine and the
/// latest serials seen from the compositor.
pub struct KeyboardSession {
    compose: ComposeState,
    text_serial: u32,
    last_kbd_serial: u32,
}

impl View for KeyboardSession {
    type V = SessionView;

    closed spec fn view(&self) -> SessionView {
        SessionView {
            compose: self.compose@,
            text_serial: self.text_serial,
            kbd_serial: self.last_kbd_serial,
        }
    }
}

impl KeyboardSession {
    /// A fresh session: idle compose machine, both serials zero.
    pub fn new() -> (s: Self)
        ensures
            s@ == (SessionView { compose: ComposeView::idle(), text_serial: 0, kbd_serial: 0 }),
    {
        KeyboardSession { compose: ComposeState::default(), text_serial: 0, last_kbd_serial: 0 }
    }

    /// Drops any buffered dead key and swallowed release. Done when a text
    /// input gains or loses focus and when the context is reset.
    pub fn reset_compose(&mut self)
        ensures
            final(self)@ == (SessionView {
                compose: ComposeView::idle(),
                text_serial: old(self)@.text_serial,
                kbd_serial: old(self)@.kbd_serial,
            }),
    {
        self.compose = ComposeState::default();
    }

    /// Records the serial of a `commit_state` request, used for later commits.
    pub fn commit_state(&mut self, serial: u32)
        ensures
            final(self)@ == (SessionView {
                compose: old(self)@.compose,
                text_serial: serial,
                kbd_serial: old(self)@.kbd_serial,
            }),
    {
        self.text_serial = serial;
    }

    /// Handles a `wl_keyboard.key` event and returns the requests to send,
    /// in order.
    pub fn on_key(&mut self, serial: u32, time: u32, key: u32, state: u32, sym: Option<u32>) -> (out:
        Vec<KeyOutput>)
        ensures
            (final(self)@, out@) == key_spec(old(self)@, serial, time, key, state, sym),
    {
        self.last_kbd_serial = serial;
        if state == KEY_STATE_PRESSED {
            self.handle_press(time, key, sym)
        } else if state == KEY_STATE_RELEASED {
            let swallow = self.compose.on_release(key);
            let mut out: Vec<KeyOutput> = Vec::new();
            if !swallow {
                out.push(KeyOutput::Key { serial, time, key, state: KEY_STATE_RELEASED });
            }
            out
        } else {
            let mut out: Vec<KeyOutput> = Vec::new();
            out.push(KeyOutput::Key { serial, time, key, state });
            out
        }
    }

    fn handle_press(&mut self, time: u32, key: u32, sym: Option<u32>) -> (out: Vec<KeyOutput>)
        ensures
            final(self)@.text_serial == old(self)@.text_serial,
            final(self)@.kbd_serial == old(self)@.kbd_serial,
            (final(self)@, out@) == key_spec(
                old(self)@,
                old(self)@.kbd_serial,
                time,
                key,
                KEY_STATE_PRESSED,
                sym,
            ),
    {
        match sym {
            None => {
                let mut out: Vec<KeyOutput> = Vec::new();
                out.push(
                    KeyOutput::Key {
                        serial: self.last_kbd_serial,
                        time,
                        key,
                        state: KEY_STATE_PRESSED,
                    },
                );
                out
            },
            Some(sym) => {
                let action = self.compose.on_press(sym, key, time);
                action_outputs(action, self.last_kbd_serial, self.text_serial, time, key)
            },
        }
    }
}

/// `dead_acute` then `c` (or `C`) typed on the hardware keyboard, from a
/// session with no buffered dead key: neither press nor release reaches the
/// application as a key; the only request sent is one `commit_string` of `ç`
/// (or `Ç`) with the latest text serial.
pub proof fn lemma_dead_acute_then_c_sends_only_the_cedilla(
    s: SessionView,
    acute: (u32, u32, u32),
    c_sym: u32,
    c: (u32, u32, u32),
    acute_release: (u32, u32, Option<u32>),
    c_release: (u32, u32, Option<u32>),
)
    requires
        s.compose.pending is None,
        c_sym == KEY_C_LOWER || c_sym == crate::compose::KEY_C_UPPER,
        acute.2 != c.2,
    ensures
        ({
            let (s1, o1) = key_spec(s, acute.0, acute.1, acute.2, KEY_STATE_PRESSED, Some(KEY_DEAD_ACUTE));
            let (s2, o2) = key_spec(s1, c.0, c.1, c.2, KEY_STATE_PRESSED, Some(c_sym));
            let (s3, o3) = key_spec(s2, acute_release.0, acute_release.1, acute.2, KEY_STATE_RELEASED, acute_release.2);
            let (s4, o4) = key_spec(s3, c_release.0, c_release.1, c.2, KEY_STATE_RELEASED, c_release.2);
            &&& o1 == Seq::<KeyOutput>::empty()
            &&& o2 == seq![KeyOutput::Commit {
                serial: s.text_serial,
                text: if c_sym == KEY_C_LOWER { CEDILLA_LOWER } else { crate::compose::CEDILLA_UPPER },
            }]
            &&& o3 == Seq::<KeyOutput>::empty()
            &&& o4 == Seq::<KeyOutput>::empty()
            &&& s4.compose.pending is None
            &&& s4.text_serial == s.text_serial
        }),
{
    let (s1, o1) = key_spec(s, acute.0, acute.1, acute.2, KEY_STATE_PRESSED, Some(KEY_DEAD_ACUTE));
    let (s2, o2) = key_spec(s1, c.0, c.1, c.2, KEY_STATE_PRESSED, Some(c_sym));
    assert(s2.compose.swallowed.contains(acute.2));
    assert(s2.compose.swallowed.contains(c.2));
}

/// Any key that is not a dead acute, typed while no dead key is buffered and
/// no release of it is pending, reaches the application unchanged: its press
/// and its release are each forwarded once, with the serial and time of the
/// event, and the compose state is left as it was.
pub proof fn lemma_other_keys_pass_through(
    s: SessionView,
    press: (u32, u32, Option<u32>),
    release: (u32, u32, Option<u32>),
    key: u32,
)
    requires
        s.compose.pending is None,
        !s.compose.swallowed.contains(key),
        press.2 != Some(KEY_DEAD_ACUTE),
    ensures
        ({
            let (s1, o1) = key_spec(s, press.0, press.1, key, KEY_STATE_PRESSED, press.2);
            let (s2, o2) = key_spec(s1, release.0, release.1, key, KEY_STATE_RELEASED, release.2);
            &&& o1 == seq![key_event(press.0, press.1, key, KEY_STATE_PRESSED)]
            &&& o2 == seq![key_event(release.0, release.1, key, KEY_STATE_RELEASED)]
            &&& s2.compose == s.compose
        }),
{
    let (s1, o1) = key_spec(s, press.0, press.1, key, KEY_STATE_PRESSED, press.2);
    assert(s1.compose.swallowed.remove(key) =~= s.compose.swallowed);
}

/// Every key request carries the serial of the `wl_keyboard.key` event being
/// handled, and every commit carries the serial of the last `commit_state`.
pub proof fn lemma_requests_carry_latest_serials(
    s: SessionView,
    serial: u32,
    time: u32,
    key: u32,
    state: u32,
    sym: Option<u32>,
)
    ensures
        ({
            let (s1, out) = key_spec(s, serial, time, key, state, sym);
            &&& s1.kbd_serial == serial
            &&& s1.text_serial == s.text_serial
            &&& forall|i: int|
                0 <= i < out.len() ==> match #[trigger] out[i] {
                    KeyOutput::Key { serial: ks, .. } => ks == serial,
                    KeyOutput::Commit { serial: cs, .. } => cs == s.text_serial,
                }
        }),
{
}

/// Events other than a press or a release (a repeat, for instance) are
/// forwarded as they are and change nothing but the keyboard serial.
pub proof fn lemma_other_key_states_forwarded(
    s: SessionView,
    serial: u32,
    time: u32,
    key: u32,
    state: u32,
    sym: Option<u32>,
)
    requires
        state != KEY_STATE_PRESSED,
        state != KEY_STATE_RELEASED,
    ensures
        key_spec(s, serial, time, key, state, sym) == (
            SessionView { compose: s.compose, text_serial: s.text_serial, kbd_serial: serial },
            seq![key_event(serial, time, key, state)],
        ),
{
}

/// A press that arrives while no keymap is known (no keysym) is forwarded
/// once, with the serial and time of the event, and the compose state is left
/// as it was.
pub proof fn lemma_press_without_keymap_forwarded(s: SessionView, serial: u32, time: u32, key: u32)
    ensures
        key_spec(s, serial, time, key, KEY_STATE_PRESSED, None) == (
            SessionView { compose: s.compose, text_serial: s.text_serial, kbd_serial: serial },
            seq![key_event(serial, time, key, KEY_STATE_PRESSED)],
        ),
{
}

/// The requests for each compose action, for every serial, time and key:
/// a forward is the press itself; a swallow sends nothing; a commit is one
/// `commit_string` with the text serial; a replay sends the buffered key's
/// press and then its release, both at the buffered key's own time and with
/// the keyboard serial, followed by the press itself only for
/// `ReplayThenForward`. Replays do not depend on the key being pressed.
pub proof fn lemma_action_requests(
    prev: PendingKey,
    text: &'static str,
    kbd_serial: u32,
    text_serial: u32,
    time: u32,
    key: u32,
)
    ensures
        action_outputs_spec(Action::Forward, kbd_serial, text_serial, time, key) == seq![
            KeyOutput::Key { serial: kbd_serial, time, key, state: KEY_STATE_PRESSED },
        ],
        action_outputs_spec(Action::Swallow, kbd_serial, text_serial, time, key) == Seq::<
            KeyOutput,
        >::empty(),
        action_outputs_spec(Action::Commit(text), kbd_serial, text_serial, time, key) == seq![
            KeyOutput::Commit { serial: text_serial, text },
        ],
        action_outputs_spec(Action::ReplayThenBuffer(prev), kbd_serial, text_serial, time, key)
            == seq![
            KeyOutput::Key {
                serial: kbd_serial,
                time: prev.time,
                key: prev.keycode,
                state: KEY_STATE_PRESSED,
            },
            KeyOutput::Key {
                serial: kbd_serial,
                time: prev.time,
                key: prev.keycode,
                state: KEY_STATE_RELEASED,
            },
        ],
        action_outputs_spec(Action::ReplayThenForward(prev), kbd_serial, text_serial, time, key)
            == seq![
            KeyOutput::Key {
                serial: kbd_serial,
                time: prev.time,
                key: prev.keycode,
                state: KEY_STATE_PRESSED,
            },
            KeyOutput::Key {
                serial: kbd_serial,
                time: prev.time,
                key: prev.keycode,
                state: KEY_STATE_RELEASED,
            },
            KeyOutput::Key { serial: kbd_serial, time, key, state: KEY_STATE_PRESSED },
        ],
{
    assert(replay_spec(prev, kbd_serial).push(key_event(kbd_serial, time, key, KEY_STATE_PRESSED))
        =~= seq![
        key_event(kbd_serial, prev.time, prev.keycode, KEY_STATE_PRESSED),
        key_event(kbd_serial, prev.time, prev.keycode, KEY_STATE_RELEASED),
        key_event(kbd_serial, time, key, KEY_STATE_PRESSED),
    ]);
}

/// A press with a known keysym goes through the compose machine, whatever
/// the times involved: the session's compose state becomes the machine's new
/// state and the requests are exactly those of the action the machine
/// returns, with the event's serial and the last text serial.
pub proof fn lemma_press_goes_through_compose(
    s: SessionView,
    serial: u32,
    time: u32,
    key: u32,
    sym: u32,
)
    ensures
        ({
            let (c, action) = press_spec(s.compose, sym, key, time);
            let (s1, out) = key_spec(s, serial, time, key, KEY_STATE_PRESSED, Some(sym));
            &&& s1.compose == c
            &&& out == action_outputs_spec(action, serial, s.text_serial, time, key)
        }),
{
}

/// A dead acute followed, at any later time, by any key other than `c`, `C`
/// or a dead acute (released in between or not): the dead key's press and
/// release are replayed at its own time, then the key's press is forwarded,
/// all with the serial of the second press.
pub proof fn lemma_dead_acute_then_other_key_replays(
    s: SessionView,
    acute: (u32, u32, u32),
    acute_release: Option<(u32, u32)>,
    next: (u32, u32, u32),
    sym: u32,
)
    requires
        sym != KEY_C_LOWER,
        sym != crate::compose::KEY_C_UPPER,
        sym != KEY_DEAD_ACUTE,
    ensures
        ({
            let (s1, _o1) = key_spec(s, acute.0, acute.1, acute.2, KEY_STATE_PRESSED, Some(KEY_DEAD_ACUTE));
            let s2 = match acute_release {
                Some(r) => key_spec(s1, r.0, r.1, acute.2, KEY_STATE_RELEASED, None).0,
                None => s1,
            };
            let (_s3, o3) = key_spec(s2, next.0, next.1, next.2, KEY_STATE_PRESSED, Some(sym));
            o3 == seq![
                KeyOutput::Key { serial: next.0, time: acute.1, key: acute.2, state: KEY_STATE_PRESSED },
                KeyOutput::Key { serial: next.0, time: acute.1, key: acute.2, state: KEY_STATE_RELEASED },
                KeyOutput::Key { serial: next.0, time: next.1, key: next.2, state: KEY_STATE_PRESSED },
            ]
        }),
{
    let (s1, _o1) = key_spec(s, acute.0, acute.1, acute.2, KEY_STATE_PRESSED, Some(KEY_DEAD_ACUTE));
    let s2 = match acute_release {
        Some(r) => key_spec(s1, r.0, r.1, acute.2, KEY_STATE_RELEASED, None).0,
        None => s1,
    };
    let prev = PendingKey { keycode: acute.2, time: acute.1 };
    assert(s2.compose.pending == Some(prev));
    lemma_action_requests(prev, CEDILLA_LOWER, next.0, s2.text_serial, next.1, next.2);
}

/// A release is dropped exactly when its key's release was swallowed, and is
/// otherwise forwarded once with the event's serial and time.
pub proof fn lemma_release_requests(s: SessionView, serial: u32, time: u32, key: u32, sym: Option<u32>)
    ensures
        key_spec(s, serial, time, key, KEY_STATE_RELEASED, sym).1 == if s.compose.swallowed.contains(
            key,
        ) {
            Seq::<KeyOutput>::empty()
        } else {
            seq![KeyOutput::Key { serial, time, key, state: KEY_STATE_RELEASED }]
        },
{
}

} // verus!
