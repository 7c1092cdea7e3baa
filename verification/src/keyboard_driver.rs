use vstd::prelude::*;

verus! {

// The scancode decoder and its key codes come from the pc-keyboard crate;
// the decoder's state is opaque here, so everything the driver logic reads
// is converted to plain values at the wrappers below.

#[verifier::external_type_specification]
#[verifier::external_body]
pub struct ExKeyCode(pc_keyboard::KeyCode);

/// The stateful PS/2 scancode decoder of the pc-keyboard crate, for the US
/// 104-key layout and scancode set 1. Its state is opaque to the verifier,
/// so it lives in this opaque cell and is only touched through the trusted
/// wrappers below.
#[verifier::external_body]
pub struct Decoder {
    inner: pc_keyboard::PS2Keyboard<pc_keyboard::layouts::Us104Key, pc_keyboard::ScancodeSet1>,
}

/// The transition a key event reports.
#[derive(Debug, Clone, Copy, PartialEq, Eq, Structural)]
pub enum KeyState {
    /// The key was just released.
    Up,
    /// The key was just pressed.
    Down,
    /// Press and release as one atomic event.
    SingleShot,
}

/// One decoded key transition, as plain values: the key code, its table
/// index, and the direction.
#[derive(Debug, Clone, Copy, PartialEq, Eq)]
pub struct KeyStroke {
    /// The key that changed.
    pub code: pc_keyboard::KeyCode,
    /// The key's index into the pressed-key table; always below 128.
    pub index: u8,
    /// Whether the key went up or down.
    pub state: KeyState,
}

/// What a key press means: a printable character, or a raw key with no
/// character of its own.
#[derive(Debug, Clone, Copy, PartialEq, Eq)]
pub enum DecodedKey {
    RawKey(pc_keyboard::KeyCode),
    Unicode(char),
}

/// Relies on pc_keyboard::PS2Keyboard::new with the US 104-key layout,
/// scancode set 1 and control handling off, matching the PS/2 hardware this
/// driver serves.
#[verifier::external_body]
fn new_decoder() -> Decoder {
    Decoder {
        inner: pc_keyboard::PS2Keyboard::new(
            pc_keyboard::ScancodeSet1::new(),
            pc_keyboard::layouts::Us104Key,
            pc_keyboard::HandleControl::Ignore,
        ),
    }
}

/// Relies on pc_keyboard::PS2Keyboard::add_byte: a scancode byte yields at
/// most one key event. `KeyCode` is a `repr(u8)` enum of 125 variants with
/// no explicit discriminants, so the cast index is always below 128. A
/// decode error yields no event.
#[verifier::external_body]
fn kb_add_byte(
    kb: &mut Decoder,
    byte: u8,
) -> (r: Option<KeyStroke>)
    ensures
        r matches Some(ks) ==> ks.index < 128,
{
    match kb.inner.add_byte(byte) {
        Ok(Some(ev)) => Some(
            KeyStroke {
                code: ev.code,
                index: ev.code as u8,
                state: match ev.state {
                    pc_keyboard::KeyState::Up => KeyState::Up,
                    pc_keyboard::KeyState::Down => KeyState::Down,
                    pc_keyboard::KeyState::SingleShot => KeyState::SingleShot,
                },
            },
        ),
        _ => None,
    }
}

/// Relies on pc_keyboard::PS2Keyboard::process_keyevent: asks the layout
/// for the meaning of a key transition. The answer depends on the decoder's
/// modifier state, so nothing is promised of it.
#[verifier::external_body]
fn kb_process_keyevent(
    kb: &mut Decoder,
    code: pc_keyboard::KeyCode,
    state: KeyState,
) -> (r: Option<DecodedKey>)
{
    let st = match state {
        KeyState::Up => pc_keyboard::KeyState::Up,
        KeyState::Down => pc_keyboard::KeyState::Down,
        KeyState::SingleShot => pc_keyboard::KeyState::SingleShot,
    };
    match kb.inner.process_keyevent(pc_keyboard::KeyEvent { code, state: st }) {
        Some(pc_keyboard::DecodedKey::Unicode(c)) => Some(DecodedKey::Unicode(c)),
        Some(pc_keyboard::DecodedKey::RawKey(k)) => Some(DecodedKey::RawKey(k)),
        None => None,
    }
}

/// The keyboard driver: decodes scancode bytes into key transitions and
/// keeps only the latest decoded key plus a per-key pressed table. There is
/// no queue: a reader polling slower than the keys change misses the
/// intermediate ones by design.
pub struct KeyboardDriver {
    /// The stateful scancode decoder.
    pub decoder: Decoder,
    /// Which keys are currently held, by key index.
    pub pressed_keys: [bool; 128],
    /// The character of the latest key-down, where it had one.
    pub current_char: Option<char>,
    /// The key that produced `current_char`.
    pub current_char_as_key: Option<pc_keyboard::KeyCode>,
    /// The latest raw key-down with no character of its own.
    pub current_key: Option<pc_keyboard::KeyCode>,
    /// Whether the latest decoded key was a character.
    pub is_unicode: bool,
}

/// How one key transition changes the driver's plain state, given what the
/// layout decoded it to: the pressed table records the transition under the
/// key's index; a decoded character or raw key replaces the previous one
/// (each clearing the other); and a release clears both, so a reader sees
/// "no active key" as soon as the release is observed, while the pressed
/// table keeps the other keys' history.
pub open spec fn driver_after_event_spec(
    pre: KeyboardDriver,
    stroke: KeyStroke,
    decoded: Option<DecodedKey>,
    post: KeyboardDriver,
) -> bool {
    &&& post.pressed_keys@ == pre.pressed_keys@.update(
        stroke.index as int,
        stroke.state != KeyState::Up,
    )
    &&& match decoded {
        Some(DecodedKey::Unicode(c)) => {
            &&& post.current_char_as_key == Some(stroke.code)
            &&& post.is_unicode
            &&& if stroke.state == KeyState::Up {
                post.current_char is None && post.current_key is None
            } else {
                post.current_char == Some(c) && post.current_key is None
            }
        },
        Some(DecodedKey::RawKey(k)) => {
            &&& post.current_char_as_key == pre.current_char_as_key
            &&& !post.is_unicode
            &&& if stroke.state == KeyState::Up {
                post.current_char is None && post.current_key is None
            } else {
                post.current_key == Some(k) && post.current_char is None
            }
        },
        None => {
            &&& post.current_char_as_key == pre.current_char_as_key
            &&& post.is_unicode == pre.is_unicode
            &&& if stroke.state == KeyState::Up {
                post.current_char is None && post.current_key is None
            } else {
                post.current_char == pre.current_char && post.current_key == pre.current_key
            }
        },
    }
}

/// The driver's plain state did not change: what holds of a fed byte that
/// decoded to no event.
pub open spec fn driver_unchanged_spec(pre: KeyboardDriver, post: KeyboardDriver) -> bool {
    &&& post.pressed_keys == pre.pressed_keys
    &&& post.current_char == pre.current_char
    &&& post.current_char_as_key == pre.current_char_as_key
    &&& post.current_key == pre.current_key
    &&& post.is_unicode == pre.is_unicode
}

impl KeyboardDriver {
    /// Creates a driver with no key pressed and nothing decoded.
    pub fn new() -> (d: KeyboardDriver)
        ensures
            forall|i: int| 0 <= i < 128 ==> !d.pressed_keys@[i],
            d.current_char is None,
            d.current_char_as_key is None,
            d.current_key is None,
            !d.is_unicode,
    {
        KeyboardDriver {
            decoder: new_decoder(),
            pressed_keys: [false;128],
            current_char: None,
            current_char_as_key: None,
            current_key: None,
            is_unicode: false,
        }
    }

    /// Records what a key transition decoded to: a character or raw key
    /// replaces the previous one, each clearing the other.
    pub fn set_char_or_key(&mut self, event: DecodedKey, code: pc_keyboard::KeyCode)
        ensures
            final(self).decoder == old(self).decoder,
            final(self).pressed_keys == old(self).pressed_keys,
            match event {
                DecodedKey::Unicode(c) => {
                    &&& final(self).current_char == Some(c)
                    &&& final(self).current_key is None
                    &&& final(self).current_char_as_key == Some(code)
                    &&& final(self).is_unicode
                },
                DecodedKey::RawKey(k) => {
                    &&& final(self).current_key == Some(k)
                    &&& final(self).current_char is None
                    &&& final(self).current_char_as_key == old(self).current_char_as_key
                    &&& !final(self).is_unicode
                },
            },
    {
        match event {
            DecodedKey::Unicode(character) => {
                self.current_char = Some(character);
                self.current_key = None;
                self.current_char_as_key = Some(code);
                self.is_unicode = true;
            },
            DecodedKey::RawKey(key) => {
                self.current_key = Some(key);
                self.current_char = None;
                self.is_unicode = false;
            },
        }
    }

    /// Records a key transition in the pressed table and, on a release,
    /// clears the current key and character.
    pub fn update_pressed(&mut self, index: u8, state: KeyState)
        requires
            index < 128,
        ensures
            final(self).decoder == old(self).decoder,
            final(self).pressed_keys@ == old(self).pressed_keys@.update(
                index as int,
                state != KeyState::Up,
            ),
            final(self).current_char_as_key == old(self).current_char_as_key,
            final(self).is_unicode == old(self).is_unicode,
            state == KeyState::Up ==> final(self).current_char is None && final(self).current_key
                is None,
            state != KeyState::Up ==> final(self).current_char == old(self).current_char
                && final(self).current_key == old(self).current_key,
    {
        let is_key_up = match state {
            KeyState::Up => true,
            _ => false,
        };
        self.pressed_keys[index as usize] = !is_key_up;
        if is_key_up {
            self.current_char = None;
            self.current_key = None;
        }
    }

    /// Applies one key transition and its decoded meaning to the driver
    /// state; the exact step of the driver's state machine, for any value
    /// the layout may have decoded.
    pub fn apply_key_event(&mut self, stroke: KeyStroke, decoded: Option<DecodedKey>)
        requires
            stroke.index < 128,
        ensures
            final(self).decoder == old(self).decoder,
            driver_after_event_spec(*old(self), stroke, decoded, *final(self)),
    {
        match decoded {
            Some(key) => {
                self.set_char_or_key(key, stroke.code);
            },
            None => {},
        }
        self.update_pressed(stroke.index, stroke.state);
    }

    /// Handles one decoded key transition: asks the layout what it means,
    /// then applies the step. Whatever the layout answered, the driver
    /// state after the call is the exact step for some decoding.
    pub fn handle_key_event(&mut self, stroke: KeyStroke)
        requires
            stroke.index < 128,
        ensures
            exists|d: Option<DecodedKey>|
                driver_after_event_spec(*old(self), stroke, d, *final(self)),
    {
        let decode = kb_process_keyevent(&mut self.decoder, stroke.code, stroke.state);
        let ghost pre = *self;
        proof {
            assert(driver_unchanged_spec(*old(self), pre));
        }
        self.apply_key_event(stroke, decode);
        proof {
            assert(driver_after_event_spec(*old(self), stroke, decode, *self));
        }
    }

    /// Feeds one raw scancode byte from the hardware port into the decoder:
    /// at most one key event comes out, and the driver state moves by
    /// exactly that event's step, or not at all. A byte the decoder
    /// rejects leaves the driver unchanged rather than aborting: the input
    /// surface stays live under corrupted input.
    pub fn handle_byte(&mut self, byte: u8)
        ensures
            driver_unchanged_spec(*old(self), *final(self)) || exists|
                stroke: KeyStroke,
                d: Option<DecodedKey>,
            |
                stroke.index < 128 && driver_after_event_spec(*old(self), stroke, d, *final(self)),
    {
        let decode = kb_add_byte(&mut self.decoder, byte);
        match decode {
            Some(stroke) => {
                let ghost mid = *self;
                self.handle_key_event(stroke);
                proof {
                    let d = choose|d: Option<DecodedKey>|
                        driver_after_event_spec(mid, stroke, d, *self);
                    assert(driver_after_event_spec(*old(self), stroke, d, *self));
                }
            },
            None => {},
        }
    }
}

/// Last write wins: when a key-down decoded to one character is followed by
/// another key-down decoded to a second character, with no release in
/// between, the driver reports the second character, while the pressed
/// table still shows the first key held.
pub proof fn lemma_last_write_wins(
    s0: KeyboardDriver,
    s1: KeyboardDriver,
    s2: KeyboardDriver,
    e1: KeyStroke,
    e2: KeyStroke,
    c1: char,
    c2: char,
)
    requires
        e1.index < 128,
        e2.index < 128,
        e1.index != e2.index,
        e1.state == KeyState::Down,
        e2.state == KeyState::Down,
        driver_after_event_spec(s0, e1, Some(DecodedKey::Unicode(c1)), s1),
        driver_after_event_spec(s1, e2, Some(DecodedKey::Unicode(c2)), s2),
    ensures
        s2.current_char == Some(c2),
        s2.current_char != Some(c1) || c1 == c2,
        s2.pressed_keys@[e1.index as int],
        s2.pressed_keys@[e2.index as int],
{
}

} // verus!
