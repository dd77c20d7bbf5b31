//! The sixteen-key hexadecimal keypad and its mapping onto host keys.
//!
//! The keypad is laid out over the left-hand block of a keyboard:
//!
//! ```text
//!   1 2 3 C        1 2 3 4
//!   4 5 6 D   <-   Q W E R
//!   7 8 9 E        A S D F
//!   A 0 B F        Y X C V
//! ```

use vstd::prelude::*;

verus! {

/// Identity of a key of the host keyboard. Keys that carry no keypad digit
/// are all `Other`.
#[derive(Clone, Copy, Debug, PartialEq, Eq, Structural)]
pub enum HostKey {
    Key1,
    Key2,
    Key3,
    Key4,
    Q,
    W,
    E,
    R,
    A,
    S,
    D,
    F,
    Y,
    X,
    C,
    V,
    Other,
}

/// Number of distinct `HostKey` values.
pub const HOST_KEYS: usize = 17;

/// The host key that carries keypad digit `digit`, if `digit` is one.
pub open spec fn key_of_digit(digit: u8) -> Option<HostKey> {
    if digit == 0x0 {
        Some(HostKey::X)
    } else if digit == 0x1 {
        Some(HostKey::Key1)
    } else if digit == 0x2 {
        Some(HostKey::Key2)
    } else if digit == 0x3 {
        Some(HostKey::Key3)
    } else if digit == 0x4 {
        Some(HostKey::Q)
    } else if digit == 0x5 {
        Some(HostKey::W)
    } else if digit == 0x6 {
        Some(HostKey::E)
    } else if digit == 0x7 {
        Some(HostKey::A)
    } else if digit == 0x8 {
        Some(HostKey::S)
    } else if digit == 0x9 {
        Some(HostKey::D)
    } else if digit == 0xA {
        Some(HostKey::Y)
    } else if digit == 0xB {
        Some(HostKey::C)
    } else if digit == 0xC {
        Some(HostKey::Key4)
    } else if digit == 0xD {
        Some(HostKey::R)
    } else if digit == 0xE {
        Some(HostKey::F)
    } else if digit == 0xF {
        Some(HostKey::V)
    } else {
        None
    }
}

/// The keypad digit that host key `key` carries, if it carries one: the
/// inverse of `key_of_digit`.
pub open spec fn digit_of_key(key: HostKey) -> Option<u8> {
    if exists|d: u8| key_of_digit(d) == Some(key) {
        Some(choose|d: u8| key_of_digit(d) == Some(key))
    } else {
        None
    }
}

/// Whether `layout` is the keypad's layout: sixteen host keys, the key of
/// each digit at that digit's place.
pub open spec fn is_keypad_layout(layout: Seq<HostKey>) -> bool {
    &&& layout.len() == 16
    &&& forall|d: u8| d < 16 ==> Some(#[trigger] layout[d as int]) == key_of_digit(d)
}

/// Position of a key in the order in which `HostKey` lists them.
pub open spec fn ordinal(key: HostKey) -> int {
    match key {
        HostKey::Key1 => 0,
        HostKey::Key2 => 1,
        HostKey::Key3 => 2,
        HostKey::Key4 => 3,
        HostKey::Q => 4,
        HostKey::W => 5,
        HostKey::E => 6,
        HostKey::R => 7,
        HostKey::A => 8,
        HostKey::S => 9,
        HostKey::D => 10,
        HostKey::F => 11,
        HostKey::Y => 12,
        HostKey::X => 13,
        HostKey::C => 14,
        HostKey::V => 15,
        HostKey::Other => 16,
    }
}

/// The first keypad digit carried by a key of `keys`, in order, if any key
/// of `keys` carries one.
pub open spec fn first_digit(keys: Seq<HostKey>) -> Option<u8>
    decreases keys.len(),
{
    if keys.len() == 0 {
        None
    } else if digit_of_key(keys[0]) is Some {
        digit_of_key(keys[0])
    } else {
        first_digit(keys.drop_first())
    }
}

/// The two directions of the mapping never drift apart: a digit's key
/// carries that digit, and a key that carries a digit is that digit's key.
pub proof fn lemma_mapping_is_bijection()
    ensures
        forall|d: u8| d < 16 ==> #[trigger] key_of_digit(d) is Some,
        forall|d: u8| d >= 16 ==> #[trigger] key_of_digit(d) is None,
        forall|d: u8|
            d < 16 ==> digit_of_key(#[trigger] key_of_digit(d).unwrap()) == Some(d),
        forall|k: HostKey|
            #[trigger] digit_of_key(k) is Some ==> digit_of_key(k).unwrap() < 16 && key_of_digit(
                digit_of_key(k).unwrap(),
            ) == Some(k),
        digit_of_key(HostKey::Other) is None,
        forall|k: HostKey| k != HostKey::Other ==> #[trigger] digit_of_key(k) is Some,
{
    assert forall|d: u8| d < 16 implies digit_of_key(#[trigger] key_of_digit(d).unwrap()) == Some(
        d,
    ) by {
        let k = key_of_digit(d).unwrap();
        assert(key_of_digit(d) == Some(k));
        let e = choose|e: u8| key_of_digit(e) == Some(k);
        assert(key_of_digit(e) == Some(k));
    }
    assert forall|k: HostKey| k != HostKey::Other implies #[trigger] digit_of_key(k) is Some by {
        lemma_every_keypad_key_has_a_digit(k);
    }
}

proof fn lemma_every_keypad_key_has_a_digit(k: HostKey)
    requires
        k != HostKey::Other,
    ensures
        exists|d: u8| key_of_digit(d) == Some(k),
{
    let d: u8 = match k {
        HostKey::Key1 => 0x1,
        HostKey::Key2 => 0x2,
        HostKey::Key3 => 0x3,
        HostKey::Key4 => 0xC,
        HostKey::Q => 0x4,
        HostKey::W => 0x5,
        HostKey::E => 0x6,
        HostKey::R => 0xD,
        HostKey::A => 0x7,
        HostKey::S => 0x8,
        HostKey::D => 0x9,
        HostKey::F => 0xE,
        HostKey::Y => 0xA,
        HostKey::X => 0x0,
        HostKey::C => 0xB,
        HostKey::V => 0xF,
        HostKey::Other => 0,
    };
    assert(key_of_digit(d) == Some(k));
}

/// What the host keyboard reported at one poll.
#[derive(Clone, Debug, PartialEq, Eq)]
pub struct KeyPoll {
    /// The keys that are held down at this moment.
    pub down: Vec<HostKey>,
    /// The keys that went down since the previous poll, in the order in which
    /// the host lists them.
    pub pressed: Vec<HostKey>,
}

/// What the keyboard reported at one poll, as the instructions see it.
pub struct Keys {
    /// The host keys held down.
    pub down: Set<HostKey>,
    /// The host keys that went down since the previous poll, in order.
    pub pressed: Seq<HostKey>,
}

impl View for KeyPoll {
    type V = Keys;

    open spec fn view(&self) -> Keys {
        Keys { down: self.down@.to_set(), pressed: self.pressed@ }
    }
}

impl KeyPoll {

    /// A poll during which no key is touched.
    pub fn idle() -> (poll: KeyPoll)
        ensures
            poll@.down == Set::<HostKey>::empty(),
            poll@.pressed == Seq::<HostKey>::empty(),
    {
        let poll = KeyPoll { down: Vec::new(), pressed: Vec::new() };
        assert(poll@.down =~= Set::<HostKey>::empty());
        poll
    }

    /// Answers the raw key-down query for one host key.
    pub fn is_key_down(&self, key: HostKey) -> (down: bool)
        ensures
            down == self@.down.contains(key),
    {
        let mut i: usize = 0;
        while i < self.down.len()
            invariant
                i <= self.down.len(),
                forall|j: int| 0 <= j < i ==> self.down@[j] != key,
            decreases self.down.len() - i,
        {
            if self.down[i] == key {
                return true;
            }
            i += 1;
        }
        false
    }
}

/// The mapping between keypad digits and host keys: the layout indexed by
/// digit and, computed from it once at construction, its inverse indexed by
/// key.
#[derive(Clone, Copy, Debug, PartialEq, Eq)]
pub struct InputMapper {
    keys: [HostKey; 16],
    digits: [Option<u8>; HOST_KEYS],
}

/// Position of `key` among the host keys, as an index.
fn slot(key: HostKey) -> (s: usize)
    ensures
        s == ordinal(key),
        s < HOST_KEYS,
{
    match key {
        HostKey::Key1 => 0,
        HostKey::Key2 => 1,
        HostKey::Key3 => 2,
        HostKey::Key4 => 3,
        HostKey::Q => 4,
        HostKey::W => 5,
        HostKey::E => 6,
        HostKey::R => 7,
        HostKey::A => 8,
        HostKey::S => 9,
        HostKey::D => 10,
        HostKey::F => 11,
        HostKey::Y => 12,
        HostKey::X => 13,
        HostKey::C => 14,
        HostKey::V => 15,
        HostKey::Other => 16,
    }
}

impl View for InputMapper {
    type V = Seq<HostKey>;

    /// The layout: the host key of each digit, by digit.
    closed spec fn view(&self) -> Seq<HostKey> {
        self.keys@
    }
}

impl InputMapper {
    #[verifier::type_invariant]
    spec fn holds_the_layout(self) -> bool {
        &&& forall|d: u8| d < 16 ==> Some(#[trigger] self.keys@[d as int]) == key_of_digit(d)
        &&& forall|k: HostKey| #[trigger] self.digits@[ordinal(k)] == digit_of_key(k)
    }

    /// Builds the mapping: the layout as written above, and the inverse
    /// filled in from it digit by digit.
    pub fn new() -> (mapper: InputMapper)
        ensures
            mapper@.len() == 16,
            forall|d: u8| d < 16 ==> Some(#[trigger] mapper@[d as int]) == key_of_digit(d),
    {
        let keys: [HostKey; 16] = [
            HostKey::X,
            HostKey::Key1,
            HostKey::Key2,
            HostKey::Key3,
            HostKey::Q,
            HostKey::W,
            HostKey::E,
            HostKey::A,
            HostKey::S,
            HostKey::D,
            HostKey::Y,
            HostKey::C,
            HostKey::Key4,
            HostKey::R,
            HostKey::F,
            HostKey::V,
        ];
        let mut digits: [Option<u8>; HOST_KEYS] = [None; HOST_KEYS];
        let mut d: u8 = 0;
        while d < 16
            invariant
                d <= 16,
                forall|e: u8| e < 16 ==> Some(#[trigger] keys@[e as int]) == key_of_digit(e),
                forall|e: u8| e < d ==> digits@[ordinal(#[trigger] keys@[e as int])] == Some(e),
                forall|s: int|
                    0 <= s < HOST_KEYS ==> (#[trigger] digits@[s] matches Some(e) ==> e < d
                        && ordinal(keys@[e as int]) == s),
            decreases 16 - d,
        {
            let s = slot(keys[d as usize]);
            digits[s] = Some(d);
            d += 1;
        }
        proof {
            lemma_mapping_is_bijection();
            assert forall|k: HostKey| #[trigger] digits@[ordinal(k)] == digit_of_key(k) by {
                if digit_of_key(k) is Some {
                    let e = digit_of_key(k).unwrap();
                    assert(key_of_digit(e) == Some(k));
                    assert(Some(keys@[e as int]) == key_of_digit(e));
                } else {
                    if digits@[ordinal(k)] is Some {
                        let e = digits@[ordinal(k)].unwrap();
                        assert(ordinal(keys@[e as int]) == ordinal(k));
                        assert(Some(keys@[e as int]) == key_of_digit(e));
                        assert(keys@[e as int] == k);
                    }
                }
            }
        }
        InputMapper { keys, digits }
    }

    /// The host key that carries the keypad digit `digit`; `None` where
    /// `digit` is above `0xF`.
    pub fn key_for(&self, digit: u8) -> (key: Option<HostKey>)
        ensures
            key == key_of_digit(digit),
    {
        proof {
            use_type_invariant(self);
        }
        if digit < 16 {
            Some(self.keys[digit as usize])
        } else {
            None
        }
    }

    /// The keypad digit that `key` carries; `None` for a key outside the
    /// keypad.
    pub fn digit_for(&self, key: HostKey) -> (digit: Option<u8>)
        ensures
            digit == digit_of_key(key),
    {
        proof {
            use_type_invariant(self);
        }
        self.digits[slot(key)]
    }

    /// The digit of the first key of `pressed` that belongs to the keypad.
    pub fn first_pressed_digit(&self, pressed: &Vec<HostKey>) -> (digit: Option<u8>)
        ensures
            digit == first_digit(pressed@),
    {
        let mut i: usize = 0;
        assert(pressed@.skip(0) =~= pressed@);
        while i < pressed.len()
            invariant
                i <= pressed.len(),
                first_digit(pressed@) == first_digit(pressed@.skip(i as int)),
            decreases pressed.len() - i,
        {
            let found = self.digit_for(pressed[i]);
            proof {
                let rest = pressed@.skip(i as int);
                assert(rest[0] == pressed@[i as int]);
                assert(rest.drop_first() =~= pressed@.skip(i + 1));
            }
            if found.is_some() {
                return found;
            }
            i += 1;
        }
        proof {
            assert(pressed@.skip(i as int).len() == 0);
        }
        None
    }
}

} // verus!
