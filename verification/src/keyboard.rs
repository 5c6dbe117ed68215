//! The hexadecimal keypad: the keys, and the snapshot of the keys that are
//! held down at one moment.

use vstd::prelude::*;

verus! {

/// The sixteen keys of the keypad.
#[derive(Clone, Copy, Debug, PartialEq, Eq, Structural)]
pub enum KeyPad {
    Key0,
    Key1,
    Key2,
    Key3,
    Key4,
    Key5,
    Key6,
    Key7,
    Key8,
    Key9,
    KeyA,
    KeyB,
    KeyC,
    KeyD,
    KeyE,
    KeyF,
}

impl KeyPad {
    /// The hexadecimal digit that the key stands for.
    pub open spec fn digit(self) -> u8 {
        match self {
            KeyPad::Key0 => 0x0,
            KeyPad::Key1 => 0x1,
            KeyPad::Key2 => 0x2,
            KeyPad::Key3 => 0x3,
            KeyPad::Key4 => 0x4,
            KeyPad::Key5 => 0x5,
            KeyPad::Key6 => 0x6,
            KeyPad::Key7 => 0x7,
            KeyPad::Key8 => 0x8,
            KeyPad::Key9 => 0x9,
            KeyPad::KeyA => 0xA,
            KeyPad::KeyB => 0xB,
            KeyPad::KeyC => 0xC,
            KeyPad::KeyD => 0xD,
            KeyPad::KeyE => 0xE,
            KeyPad::KeyF => 0xF,
        }
    }

    /// The key's bit in a key mask: bit `digit()` and no other.
    pub fn mask(self) -> (mask: u16)
        ensures
            mask == 1u16 << (self.digit() as u16),
    {
        assert(1u16 << 0u16 == 0x0001 && 1u16 << 1u16 == 0x0002 && 1u16 << 2u16 == 0x0004 && 1u16
            << 3u16 == 0x0008 && 1u16 << 4u16 == 0x0010 && 1u16 << 5u16 == 0x0020 && 1u16 << 6u16
            == 0x0040 && 1u16 << 7u16 == 0x0080 && 1u16 << 8u16 == 0x0100 && 1u16 << 9u16
            == 0x0200 && 1u16 << 10u16 == 0x0400 && 1u16 << 11u16 == 0x0800 && 1u16 << 12u16
            == 0x1000 && 1u16 << 13u16 == 0x2000 && 1u16 << 14u16 == 0x4000 && 1u16 << 15u16
            == 0x8000) by (bit_vector);
        match self {
            KeyPad::Key0 => 0x0001,
            KeyPad::Key1 => 0x0002,
            KeyPad::Key2 => 0x0004,
            KeyPad::Key3 => 0x0008,
            KeyPad::Key4 => 0x0010,
            KeyPad::Key5 => 0x0020,
            KeyPad::Key6 => 0x0040,
            KeyPad::Key7 => 0x0080,
            KeyPad::Key8 => 0x0100,
            KeyPad::Key9 => 0x0200,
            KeyPad::KeyA => 0x0400,
            KeyPad::KeyB => 0x0800,
            KeyPad::KeyC => 0x1000,
            KeyPad::KeyD => 0x2000,
            KeyPad::KeyE => 0x4000,
            KeyPad::KeyF => 0x8000,
        }
    }
}

/// Whether bit `key` of `mask` is set.
pub open spec fn has_bit(mask: u16, key: u8) -> bool {
    mask & (1u16 << (key as u16)) != 0
}

/// The keys that a 16-bit key mask holds: key `k` is in the set when bit `k`
/// of the mask is set.
pub open spec fn keys_of(mask: u16) -> Set<u8> {
    Set::new(|key: u8| key < 16 && has_bit(mask, key))
}

proof fn lemma_same_bit(one: u16, other: u16, key: u8)
    requires
        keys_of(one) == keys_of(other),
        key < 16,
    ensures
        has_bit(one, key) == has_bit(other, key),
{
    assert(keys_of(one).contains(key) == has_bit(one, key));
    assert(keys_of(other).contains(key) == has_bit(other, key));
}

/// A key mask holds no more than its keys: two masks with the same keys are
/// the same mask.
pub proof fn lemma_keys_determine_mask(one: u16, other: u16)
    requires
        keys_of(one) == keys_of(other),
    ensures
        one == other,
{
    lemma_same_bit(one, other, 0);
    lemma_same_bit(one, other, 1);
    lemma_same_bit(one, other, 2);
    lemma_same_bit(one, other, 3);
    lemma_same_bit(one, other, 4);
    lemma_same_bit(one, other, 5);
    lemma_same_bit(one, other, 6);
    lemma_same_bit(one, other, 7);
    lemma_same_bit(one, other, 8);
    lemma_same_bit(one, other, 9);
    lemma_same_bit(one, other, 10);
    lemma_same_bit(one, other, 11);
    lemma_same_bit(one, other, 12);
    lemma_same_bit(one, other, 13);
    lemma_same_bit(one, other, 14);
    lemma_same_bit(one, other, 15);
    assert(one == other) by (bit_vector)
        requires
            has_bit(one, 0) == has_bit(other, 0),
            has_bit(one, 1) == has_bit(other, 1),
            has_bit(one, 2) == has_bit(other, 2),
            has_bit(one, 3) == has_bit(other, 3),
            has_bit(one, 4) == has_bit(other, 4),
            has_bit(one, 5) == has_bit(other, 5),
            has_bit(one, 6) == has_bit(other, 6),
            has_bit(one, 7) == has_bit(other, 7),
            has_bit(one, 8) == has_bit(other, 8),
            has_bit(one, 9) == has_bit(other, 9),
            has_bit(one, 10) == has_bit(other, 10),
            has_bit(one, 11) == has_bit(other, 11),
            has_bit(one, 12) == has_bit(other, 12),
            has_bit(one, 13) == has_bit(other, 13),
            has_bit(one, 14) == has_bit(other, 14),
            has_bit(one, 15) == has_bit(other, 15),
    ;
}

/// A snapshot of the keypad: the set of keys that are held down.
pub struct State {
    state: u16,
}

impl View for State {
    type V = Set<u8>;

    closed spec fn view(&self) -> Set<u8> {
        keys_of(self.state)
    }
}

impl State {
    /// The snapshot in which no key is held down.
    pub fn new() -> (state: Self)
        ensures
            state@ == Set::<u8>::empty(),
    {
        assert(forall|key: u16| 0u16 & (1u16 << key) == 0) by (bit_vector);
        assert(keys_of(0) =~= Set::<u8>::empty());
        Self { state: 0 }
    }

    /// Marks `key` as held down.
    pub fn add_key(&mut self, key: KeyPad)
        ensures
            final(self)@ == old(self)@.insert(key.digit()),
    {
        let mask = key.mask();
        let ghost before = self.state;
        let ghost digit = key.digit() as u16;
        self.state |= mask;
        assert(forall|other: u16|
            other < 16 && digit < 16 ==> (((before | (1u16 << digit)) & (1u16 << other) != 0) <==> (
            other == digit || before & (1u16 << other) != 0))) by (bit_vector);
        assert(keys_of(self.state) =~= keys_of(before).insert(key.digit()));
    }

    /// Whether the key with the digit `keypos` is held down. The keypad has no
    /// key for a `keypos` above `0xF`, so none is held down there.
    pub fn has_key(&self, keypos: u8) -> (held: bool)
        ensures
            held == self@.contains(keypos),
    {
        keypos < 16 && (self.state & (1u16 << keypos)) != 0
    }

    /// The snapshot as a key mask, bit `k` for key `k`.
    pub fn as_raw(&self) -> (mask: u16)
        ensures
            keys_of(mask) == self@,
    {
        self.state
    }
}

/// The keys of the host's keyboard that the emulator reacts to; every other
/// key is `Other`.
#[derive(Clone, Copy, Debug, PartialEq, Eq, Structural)]
pub enum HostKey {
    Num1,
    Num2,
    Num3,
    Num4,
    Q,
    W,
    E,
    R,
    A,
    S,
    D,
    F,
    Z,
    X,
    C,
    V,
    Escape,
    Other,
}

/// What the host's window system reports: a request to close the window, a
/// key going down, or anything else.
#[derive(Clone, Copy, Debug, PartialEq, Eq, Structural)]
pub enum HostEvent {
    Quit,
    KeyDown(HostKey),
    Other,
}

impl HostKey {
    /// The key of the keypad that the host key stands for: the four rows
    /// `1234`, `QWER`, `ASDF`, `ZXCV` of the keyboard are the rows `123C`,
    /// `456D`, `789E`, `A0BF` of the keypad.
    pub open spec fn keypad_of(self) -> Option<KeyPad> {
        match self {
            HostKey::Num1 => Some(KeyPad::Key1),
            HostKey::Num2 => Some(KeyPad::Key2),
            HostKey::Num3 => Some(KeyPad::Key3),
            HostKey::Num4 => Some(KeyPad::KeyC),
            HostKey::Q => Some(KeyPad::Key4),
            HostKey::W => Some(KeyPad::Key5),
            HostKey::E => Some(KeyPad::Key6),
            HostKey::R => Some(KeyPad::KeyD),
            HostKey::A => Some(KeyPad::Key7),
            HostKey::S => Some(KeyPad::Key8),
            HostKey::D => Some(KeyPad::Key9),
            HostKey::F => Some(KeyPad::KeyE),
            HostKey::Z => Some(KeyPad::KeyA),
            HostKey::X => Some(KeyPad::Key0),
            HostKey::C => Some(KeyPad::KeyB),
            HostKey::V => Some(KeyPad::KeyF),
            HostKey::Escape => None,
            HostKey::Other => None,
        }
    }

    /// The key of the keypad that the host key stands for, if it stands for
    /// one.
    pub fn keypad(self) -> (key: Option<KeyPad>)
        ensures
            key == self.keypad_of(),
    {
        match self {
            HostKey::Num1 => Some(KeyPad::Key1),
            HostKey::Num2 => Some(KeyPad::Key2),
            HostKey::Num3 => Some(KeyPad::Key3),
            HostKey::Num4 => Some(KeyPad::KeyC),
            HostKey::Q => Some(KeyPad::Key4),
            HostKey::W => Some(KeyPad::Key5),
            HostKey::E => Some(KeyPad::Key6),
            HostKey::R => Some(KeyPad::KeyD),
            HostKey::A => Some(KeyPad::Key7),
            HostKey::S => Some(KeyPad::Key8),
            HostKey::D => Some(KeyPad::Key9),
            HostKey::F => Some(KeyPad::KeyE),
            HostKey::Z => Some(KeyPad::KeyA),
            HostKey::X => Some(KeyPad::Key0),
            HostKey::C => Some(KeyPad::KeyB),
            HostKey::V => Some(KeyPad::KeyF),
            _ => None,
        }
    }
}

impl HostKey {
    /// Whether the host key stands for the key `digit` of the keypad.
    pub open spec fn stands_for(self, digit: u8) -> bool {
        match self.keypad_of() {
            Some(key) => key.digit() == digit,
            None => false,
        }
    }
}

impl HostEvent {
    /// Whether the event ends the session: the window is closed, or the
    /// escape key goes down.
    pub open spec fn terminates(self) -> bool {
        self == HostEvent::Quit || self == HostEvent::KeyDown(HostKey::Escape)
    }
}

/// The keys of the keypad that are held down when the host keys `pressed`
/// are.
pub open spec fn keys_held(pressed: Seq<HostKey>) -> Set<u8> {
    Set::new(
        |digit: u8|
            exists|i: int| 0 <= i < pressed.len() && #[trigger] pressed[i].stands_for(digit),
    )
}

/// Whether one of `events` ends the session.
pub open spec fn terminated(events: Seq<HostEvent>) -> bool {
    exists|i: int| 0 <= i < events.len() && (#[trigger] events[i]).terminates()
}

/// One poll of the keyboard, from what the host reports: the events since
/// the last poll, and the host keys that are held down now. The poll ends
/// the session if one of the events does. Otherwise it gives the snapshot of
/// the keypad, built afresh from the keys held down.
pub fn poll(events: &[HostEvent], pressed: &[HostKey]) -> (outcome: Result<State, ()>)
    ensures
        terminated(events@) ==> outcome is Err,
        !terminated(events@) ==> outcome is Ok && outcome->Ok_0@ == keys_held(pressed@),
{
    for i in 0..events.len()
        invariant
            !terminated(events@.take(i as int)),
    {
        match events[i] {
            HostEvent::Quit | HostEvent::KeyDown(HostKey::Escape) => {
                assert(events@[i as int].terminates());
                return Err(());
            },
            _ => {
                assert forall|k: int| 0 <= k < i + 1 implies !(#[trigger] events@.take(
                    i + 1,
                )[k]).terminates() by {
                    if k < i {
                        assert(events@.take(i as int)[k] == events@[k]);
                    }
                }
            },
        }
    }
    assert(events@.take(events@.len() as int) =~= events@);

    let mut state = State::new();
    for i in 0..pressed.len()
        invariant
            state@ == keys_held(pressed@.take(i as int)),
    {
        let ghost before = state@;
        match pressed[i].keypad() {
            Some(key) => state.add_key(key),
            None => {},
        }
        proof {
            let shorter = pressed@.take(i as int);
            let longer = pressed@.take(i + 1);
            assert forall|digit: u8| keys_held(longer).contains(digit) <==> state@.contains(
                digit,
            ) by {
                if keys_held(longer).contains(digit) {
                    let k = choose|k: int|
                        0 <= k < longer.len() && #[trigger] longer[k].stands_for(digit);
                    if k < i {
                        assert(shorter[k] == longer[k]);
                        assert(keys_held(shorter).contains(digit));
                    }
                }
                if before.contains(digit) {
                    let k = choose|k: int|
                        0 <= k < shorter.len() && #[trigger] shorter[k].stands_for(digit);
                    assert(longer[k] == shorter[k]);
                    assert(longer[k].stands_for(digit));
                }
                if pressed@[i as int].stands_for(digit) {
                    assert(longer[i as int].stands_for(digit));
                }
            }
            assert(state@ =~= keys_held(longer));
        }
    }
    assert(pressed@.take(pressed@.len() as int) =~= pressed@);
    Ok(state)
}

} // verus!
