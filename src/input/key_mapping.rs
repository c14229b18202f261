//! Canonical key identifiers: parsing configuration names and overlay labels.
use vstd::prelude::*;

use crate::text::{trim, trimmed};

verus! {

/// A key or mouse button that the overlay can monitor.
#[derive(Clone, Copy, Debug, PartialEq, Eq, Hash, Structural)]
pub enum KeyId {
    A,
    B,
    C,
    D,
    E,
    F,
    G,
    H,
    I,
    J,
    K,
    L,
    M,
    N,
    O,
    P,
    Q,
    R,
    S,
    T,
    U,
    V,
    W,
    X,
    Y,
    Z,
    D0,
    D1,
    D2,
    D3,
    D4,
    D5,
    D6,
    D7,
    D8,
    D9,
    F1,
    F2,
    F3,
    F4,
    F5,
    F6,
    F7,
    F8,
    F9,
    F10,
    F11,
    F12,
    Space,
    Enter,
    Tab,
    Backspace,
    Escape,
    LShift,
    RShift,
    LControl,
    RControl,
    LAlt,
    RAlt,
    Mouse1,
    Mouse2,
    Mouse3,
    Mouse4,
    Mouse5,
}

/// `s` with the ASCII lower-case letters made upper-case.
pub open spec fn ascii_upper(s: Seq<char>) -> Seq<char> {
    s.map_values(|c: char| upper_char(c))
}

/// The ASCII upper-case form of a character.
pub open spec fn upper_char(c: char) -> char {
    if 'a' <= c <= 'z' {
        ((c as u32) - 32) as char
    } else {
        c
    }
}

/// The key that an upper-case name stands for.
pub open spec fn key_of_name(name: Seq<char>) -> Option<KeyId> {
    if name == "A"@ {
        Some(KeyId::A)
    } else if name == "B"@ {
        Some(KeyId::B)
    } else if name == "C"@ {
        Some(KeyId::C)
    } else if name == "D"@ {
        Some(KeyId::D)
    } else if name == "E"@ {
        Some(KeyId::E)
    } else if name == "F"@ {
        Some(KeyId::F)
    } else if name == "G"@ {
        Some(KeyId::G)
    } else if name == "H"@ {
        Some(KeyId::H)
    } else if name == "I"@ {
        Some(KeyId::I)
    } else if name == "J"@ {
        Some(KeyId::J)
    } else if name == "K"@ {
        Some(KeyId::K)
    } else if name == "L"@ {
        Some(KeyId::L)
    } else if name == "M"@ {
        Some(KeyId::M)
    } else if name == "N"@ {
        Some(KeyId::N)
    } else if name == "O"@ {
        Some(KeyId::O)
    } else if name == "P"@ {
        Some(KeyId::P)
    } else if name == "Q"@ {
        Some(KeyId::Q)
    } else if name == "R"@ {
        Some(KeyId::R)
    } else if name == "S"@ {
        Some(KeyId::S)
    } else if name == "T"@ {
        Some(KeyId::T)
    } else if name == "U"@ {
        Some(KeyId::U)
    } else if name == "V"@ {
        Some(KeyId::V)
    } else if name == "W"@ {
        Some(KeyId::W)
    } else if name == "X"@ {
        Some(KeyId::X)
    } else if name == "Y"@ {
        Some(KeyId::Y)
    } else if name == "Z"@ {
        Some(KeyId::Z)
    } else if name == "0"@ {
        Some(KeyId::D0)
    } else if name == "D0"@ {
        Some(KeyId::D0)
    } else if name == "NUM0"@ {
        Some(KeyId::D0)
    } else if name == "1"@ {
        Some(KeyId::D1)
    } else if name == "D1"@ {
        Some(KeyId::D1)
    } else if name == "NUM1"@ {
        Some(KeyId::D1)
    } else if name == "2"@ {
        Some(KeyId::D2)
    } else if name == "D2"@ {
        Some(KeyId::D2)
    } else if name == "NUM2"@ {
        Some(KeyId::D2)
    } else if name == "3"@ {
        Some(KeyId::D3)
    } else if name == "D3"@ {
        Some(KeyId::D3)
    } else if name == "NUM3"@ {
        Some(KeyId::D3)
    } else if name == "4"@ {
        Some(KeyId::D4)
    } else if name == "D4"@ {
        Some(KeyId::D4)
    } else if name == "NUM4"@ {
        Some(KeyId::D4)
    } else if name == "5"@ {
        Some(KeyId::D5)
    } else if name == "D5"@ {
        Some(KeyId::D5)
    } else if name == "NUM5"@ {
        Some(KeyId::D5)
    } else if name == "6"@ {
        Some(KeyId::D6)
    } else if name == "D6"@ {
        Some(KeyId::D6)
    } else if name == "NUM6"@ {
        Some(KeyId::D6)
    } else if name == "7"@ {
        Some(KeyId::D7)
    } else if name == "D7"@ {
        Some(KeyId::D7)
    } else if name == "NUM7"@ {
        Some(KeyId::D7)
    } else if name == "8"@ {
        Some(KeyId::D8)
    } else if name == "D8"@ {
        Some(KeyId::D8)
    } else if name == "NUM8"@ {
        Some(KeyId::D8)
    } else if name == "9"@ {
        Some(KeyId::D9)
    } else if name == "D9"@ {
        Some(KeyId::D9)
    } else if name == "NUM9"@ {
        Some(KeyId::D9)
    } else if name == "F1"@ {
        Some(KeyId::F1)
    } else if name == "F2"@ {
        Some(KeyId::F2)
    } else if name == "F3"@ {
        Some(KeyId::F3)
    } else if name == "F4"@ {
        Some(KeyId::F4)
    } else if name == "F5"@ {
        Some(KeyId::F5)
    } else if name == "F6"@ {
        Some(KeyId::F6)
    } else if name == "F7"@ {
        Some(KeyId::F7)
    } else if name == "F8"@ {
        Some(KeyId::F8)
    } else if name == "F9"@ {
        Some(KeyId::F9)
    } else if name == "F10"@ {
        Some(KeyId::F10)
    } else if name == "F11"@ {
        Some(KeyId::F11)
    } else if name == "F12"@ {
        Some(KeyId::F12)
    } else if name == "SPACE"@ {
        Some(KeyId::Space)
    } else if name == "ENTER"@ {
        Some(KeyId::Enter)
    } else if name == "RETURN"@ {
        Some(KeyId::Enter)
    } else if name == "TAB"@ {
        Some(KeyId::Tab)
    } else if name == "BACKSPACE"@ {
        Some(KeyId::Backspace)
    } else if name == "ESC"@ {
        Some(KeyId::Escape)
    } else if name == "ESCAPE"@ {
        Some(KeyId::Escape)
    } else if name == "LSHIFT"@ {
        Some(KeyId::LShift)
    } else if name == "RSHIFT"@ {
        Some(KeyId::RShift)
    } else if name == "LCONTROL"@ {
        Some(KeyId::LControl)
    } else if name == "LCTRL"@ {
        Some(KeyId::LControl)
    } else if name == "RCONTROL"@ {
        Some(KeyId::RControl)
    } else if name == "RCTRL"@ {
        Some(KeyId::RControl)
    } else if name == "LALT"@ {
        Some(KeyId::LAlt)
    } else if name == "RALT"@ {
        Some(KeyId::RAlt)
    } else if name == "ALTGR"@ {
        Some(KeyId::RAlt)
    } else if name == "MOUSE1"@ {
        Some(KeyId::Mouse1)
    } else if name == "MOUSE2"@ {
        Some(KeyId::Mouse2)
    } else if name == "MOUSE3"@ {
        Some(KeyId::Mouse3)
    } else if name == "MOUSE4"@ {
        Some(KeyId::Mouse4)
    } else if name == "MOUSE5"@ {
        Some(KeyId::Mouse5)
    } else {
        None
    }
}

/// The message of an unknown key name.
pub open spec fn unknown_key_message(s: Seq<char>) -> Seq<char> {
    "unsupported key name '"@ + s + "' (examples: A, 0, F1, LControl, Mouse1)"@
}

/// The key named by `s`, whatever its case and surrounding whitespace, or the
/// message of the error.
pub open spec fn parse_key(s: Seq<char>) -> Result<KeyId, Seq<char>> {
    match key_of_name(ascii_upper(trimmed(s))) {
        Some(k) => Ok(k),
        None => Err(unknown_key_message(s)),
    }
}

/// Whether `t` in ASCII upper case is `name`.
fn upper_equals(t: &str, name: &str) -> (r: bool)
    ensures
        r == (ascii_upper(t@) == name@),
{
    let n = t.unicode_len();
    if n != name.unicode_len() {
        proof {
            assert(ascii_upper(t@).len() == t@.len());
        }
        return false;
    }
    let mut i: usize = 0;
    while i < n
        invariant
            n == t@.len() == name@.len(),
            0 <= i <= n,
            forall|j: int| 0 <= j < i ==> upper_char(t@[j]) == name@[j],
        decreases n - i,
    {
        let c = t.get_char(i);
        let u = if 'a' <= c && c <= 'z' {
            (c as u8 - 32) as char
        } else {
            c
        };
        if u != name.get_char(i) {
            proof {
                assert(ascii_upper(t@)[i as int] != name@[i as int]);
            }
            return false;
        }
        i = i + 1;
    }
    proof {
        assert(ascii_upper(t@) =~= name@);
    }
    true
}

/// The key named by the upper-case form of `t`.
fn key_of_upper(t: &str) -> (r: Option<KeyId>)
    ensures
        r == key_of_name(ascii_upper(t@)),
{
    if upper_equals(t, "A") {
        Some(KeyId::A)
    } else if upper_equals(t, "B") {
        Some(KeyId::B)
    } else if upper_equals(t, "C") {
        Some(KeyId::C)
    } else if upper_equals(t, "D") {
        Some(KeyId::D)
    } else if upper_equals(t, "E") {
        Some(KeyId::E)
    } else if upper_equals(t, "F") {
        Some(KeyId::F)
    } else if upper_equals(t, "G") {
        Some(KeyId::G)
    } else if upper_equals(t, "H") {
        Some(KeyId::H)
    } else if upper_equals(t, "I") {
        Some(KeyId::I)
    } else if upper_equals(t, "J") {
        Some(KeyId::J)
    } else if upper_equals(t, "K") {
        Some(KeyId::K)
    } else if upper_equals(t, "L") {
        Some(KeyId::L)
    } else if upper_equals(t, "M") {
        Some(KeyId::M)
    } else if upper_equals(t, "N") {
        Some(KeyId::N)
    } else if upper_equals(t, "O") {
        Some(KeyId::O)
    } else if upper_equals(t, "P") {
        Some(KeyId::P)
    } else if upper_equals(t, "Q") {
        Some(KeyId::Q)
    } else if upper_equals(t, "R") {
        Some(KeyId::R)
    } else if upper_equals(t, "S") {
        Some(KeyId::S)
    } else if upper_equals(t, "T") {
        Some(KeyId::T)
    } else if upper_equals(t, "U") {
        Some(KeyId::U)
    } else if upper_equals(t, "V") {
        Some(KeyId::V)
    } else if upper_equals(t, "W") {
        Some(KeyId::W)
    } else if upper_equals(t, "X") {
        Some(KeyId::X)
    } else if upper_equals(t, "Y") {
        Some(KeyId::Y)
    } else if upper_equals(t, "Z") {
        Some(KeyId::Z)
    } else if upper_equals(t, "0") {
        Some(KeyId::D0)
    } else if upper_equals(t, "D0") {
        Some(KeyId::D0)
    } else if upper_equals(t, "NUM0") {
        Some(KeyId::D0)
    } else if upper_equals(t, "1") {
        Some(KeyId::D1)
    } else if upper_equals(t, "D1") {
        Some(KeyId::D1)
    } else if upper_equals(t, "NUM1") {
        Some(KeyId::D1)
    } else if upper_equals(t, "2") {
        Some(KeyId::D2)
    } else if upper_equals(t, "D2") {
        Some(KeyId::D2)
    } else if upper_equals(t, "NUM2") {
        Some(KeyId::D2)
    } else if upper_equals(t, "3") {
        Some(KeyId::D3)
    } else if upper_equals(t, "D3") {
        Some(KeyId::D3)
    } else if upper_equals(t, "NUM3") {
        Some(KeyId::D3)
    } else if upper_equals(t, "4") {
        Some(KeyId::D4)
    } else if upper_equals(t, "D4") {
        Some(KeyId::D4)
    } else if upper_equals(t, "NUM4") {
        Some(KeyId::D4)
    } else if upper_equals(t, "5") {
        Some(KeyId::D5)
    } else if upper_equals(t, "D5") {
        Some(KeyId::D5)
    } else if upper_equals(t, "NUM5") {
        Some(KeyId::D5)
    } else if upper_equals(t, "6") {
        Some(KeyId::D6)
    } else if upper_equals(t, "D6") {
        Some(KeyId::D6)
    } else if upper_equals(t, "NUM6") {
        Some(KeyId::D6)
    } else if upper_equals(t, "7") {
        Some(KeyId::D7)
    } else if upper_equals(t, "D7") {
        Some(KeyId::D7)
    } else if upper_equals(t, "NUM7") {
        Some(KeyId::D7)
    } else if upper_equals(t, "8") {
        Some(KeyId::D8)
    } else if upper_equals(t, "D8") {
        Some(KeyId::D8)
    } else if upper_equals(t, "NUM8") {
        Some(KeyId::D8)
    } else if upper_equals(t, "9") {
        Some(KeyId::D9)
    } else if upper_equals(t, "D9") {
        Some(KeyId::D9)
    } else if upper_equals(t, "NUM9") {
        Some(KeyId::D9)
    } else if upper_equals(t, "F1") {
        Some(KeyId::F1)
    } else if upper_equals(t, "F2") {
        Some(KeyId::F2)
    } else if upper_equals(t, "F3") {
        Some(KeyId::F3)
    } else if upper_equals(t, "F4") {
        Some(KeyId::F4)
    } else if upper_equals(t, "F5") {
        Some(KeyId::F5)
    } else if upper_equals(t, "F6") {
        Some(KeyId::F6)
    } else if upper_equals(t, "F7") {
        Some(KeyId::F7)
    } else if upper_equals(t, "F8") {
        Some(KeyId::F8)
    } else if upper_equals(t, "F9") {
        Some(KeyId::F9)
    } else if upper_equals(t, "F10") {
        Some(KeyId::F10)
    } else if upper_equals(t, "F11") {
        Some(KeyId::F11)
    } else if upper_equals(t, "F12") {
        Some(KeyId::F12)
    } else if upper_equals(t, "SPACE") {
        Some(KeyId::Space)
    } else if upper_equals(t, "ENTER") {
        Some(KeyId::Enter)
    } else if upper_equals(t, "RETURN") {
        Some(KeyId::Enter)
    } else if upper_equals(t, "TAB") {
        Some(KeyId::Tab)
    } else if upper_equals(t, "BACKSPACE") {
        Some(KeyId::Backspace)
    } else if upper_equals(t, "ESC") {
        Some(KeyId::Escape)
    } else if upper_equals(t, "ESCAPE") {
        Some(KeyId::Escape)
    } else if upper_equals(t, "LSHIFT") {
        Some(KeyId::LShift)
    } else if upper_equals(t, "RSHIFT") {
        Some(KeyId::RShift)
    } else if upper_equals(t, "LCONTROL") {
        Some(KeyId::LControl)
    } else if upper_equals(t, "LCTRL") {
        Some(KeyId::LControl)
    } else if upper_equals(t, "RCONTROL") {
        Some(KeyId::RControl)
    } else if upper_equals(t, "RCTRL") {
        Some(KeyId::RControl)
    } else if upper_equals(t, "LALT") {
        Some(KeyId::LAlt)
    } else if upper_equals(t, "RALT") {
        Some(KeyId::RAlt)
    } else if upper_equals(t, "ALTGR") {
        Some(KeyId::RAlt)
    } else if upper_equals(t, "MOUSE1") {
        Some(KeyId::Mouse1)
    } else if upper_equals(t, "MOUSE2") {
        Some(KeyId::Mouse2)
    } else if upper_equals(t, "MOUSE3") {
        Some(KeyId::Mouse3)
    } else if upper_equals(t, "MOUSE4") {
        Some(KeyId::Mouse4)
    } else if upper_equals(t, "MOUSE5") {
        Some(KeyId::Mouse5)
    } else {
        None
    }
}

/// The overlay label of a key.
pub open spec fn label_of(k: KeyId) -> Seq<char> {
    match k {
        KeyId::A => "A"@,
        KeyId::B => "B"@,
        KeyId::C => "C"@,
        KeyId::D => "D"@,
        KeyId::E => "E"@,
        KeyId::F => "F"@,
        KeyId::G => "G"@,
        KeyId::H => "H"@,
        KeyId::I => "I"@,
        KeyId::J => "J"@,
        KeyId::K => "K"@,
        KeyId::L => "L"@,
        KeyId::M => "M"@,
        KeyId::N => "N"@,
        KeyId::O => "O"@,
        KeyId::P => "P"@,
        KeyId::Q => "Q"@,
        KeyId::R => "R"@,
        KeyId::S => "S"@,
        KeyId::T => "T"@,
        KeyId::U => "U"@,
        KeyId::V => "V"@,
        KeyId::W => "W"@,
        KeyId::X => "X"@,
        KeyId::Y => "Y"@,
        KeyId::Z => "Z"@,
        KeyId::D0 => "0"@,
        KeyId::D1 => "1"@,
        KeyId::D2 => "2"@,
        KeyId::D3 => "3"@,
        KeyId::D4 => "4"@,
        KeyId::D5 => "5"@,
        KeyId::D6 => "6"@,
        KeyId::D7 => "7"@,
        KeyId::D8 => "8"@,
        KeyId::D9 => "9"@,
        KeyId::F1 => "F1"@,
        KeyId::F2 => "F2"@,
        KeyId::F3 => "F3"@,
        KeyId::F4 => "F4"@,
        KeyId::F5 => "F5"@,
        KeyId::F6 => "F6"@,
        KeyId::F7 => "F7"@,
        KeyId::F8 => "F8"@,
        KeyId::F9 => "F9"@,
        KeyId::F10 => "F10"@,
        KeyId::F11 => "F11"@,
        KeyId::F12 => "F12"@,
        KeyId::Space => "Space"@,
        KeyId::Enter => "Enter"@,
        KeyId::Tab => "Tab"@,
        KeyId::Backspace => "Backspace"@,
        KeyId::Escape => "Escape"@,
        KeyId::LShift => "LShift"@,
        KeyId::RShift => "RShift"@,
        KeyId::LControl => "LControl"@,
        KeyId::RControl => "RControl"@,
        KeyId::LAlt => "LAlt"@,
        KeyId::RAlt => "RAlt"@,
        KeyId::Mouse1 => "Mouse1"@,
        KeyId::Mouse2 => "Mouse2"@,
        KeyId::Mouse3 => "Mouse3"@,
        KeyId::Mouse4 => "Mouse4"@,
        KeyId::Mouse5 => "Mouse5"@,
    }
}

impl KeyId {
    /// Parses a key name: surrounding whitespace is ignored, and letters match
    /// in either case.
    pub fn parse(s: &str) -> (r: Result<KeyId, String>)
        ensures
            match parse_key(s@) {
                Ok(k) => r == Ok::<KeyId, String>(k),
                Err(m) => r is Err && r->Err_0@ == m,
            },
    {
        let t = trim(s);
        match key_of_upper(t) {
            Some(k) => Ok(k),
            None => {
                let mut message = "unsupported key name '".to_owned();
                message.append(s);
                message.append("' (examples: A, 0, F1, LControl, Mouse1)");
                Err(message)
            },
        }
    }

    /// The overlay label of the key.
    pub fn label(&self) -> (r: &'static str)
        ensures
            r@ == label_of(*self),
    {
        match self {
            KeyId::A => "A",
            KeyId::B => "B",
            KeyId::C => "C",
            KeyId::D => "D",
            KeyId::E => "E",
            KeyId::F => "F",
            KeyId::G => "G",
            KeyId::H => "H",
            KeyId::I => "I",
            KeyId::J => "J",
            KeyId::K => "K",
            KeyId::L => "L",
            KeyId::M => "M",
            KeyId::N => "N",
            KeyId::O => "O",
            KeyId::P => "P",
            KeyId::Q => "Q",
            KeyId::R => "R",
            KeyId::S => "S",
            KeyId::T => "T",
            KeyId::U => "U",
            KeyId::V => "V",
            KeyId::W => "W",
            KeyId::X => "X",
            KeyId::Y => "Y",
            KeyId::Z => "Z",
            KeyId::D0 => "0",
            KeyId::D1 => "1",
            KeyId::D2 => "2",
            KeyId::D3 => "3",
            KeyId::D4 => "4",
            KeyId::D5 => "5",
            KeyId::D6 => "6",
            KeyId::D7 => "7",
            KeyId::D8 => "8",
            KeyId::D9 => "9",
            KeyId::F1 => "F1",
            KeyId::F2 => "F2",
            KeyId::F3 => "F3",
            KeyId::F4 => "F4",
            KeyId::F5 => "F5",
            KeyId::F6 => "F6",
            KeyId::F7 => "F7",
            KeyId::F8 => "F8",
            KeyId::F9 => "F9",
            KeyId::F10 => "F10",
            KeyId::F11 => "F11",
            KeyId::F12 => "F12",
            KeyId::Space => "Space",
            KeyId::Enter => "Enter",
            KeyId::Tab => "Tab",
            KeyId::Backspace => "Backspace",
            KeyId::Escape => "Escape",
            KeyId::LShift => "LShift",
            KeyId::RShift => "RShift",
            KeyId::LControl => "LControl",
            KeyId::RControl => "RControl",
            KeyId::LAlt => "LAlt",
            KeyId::RAlt => "RAlt",
            KeyId::Mouse1 => "Mouse1",
            KeyId::Mouse2 => "Mouse2",
            KeyId::Mouse3 => "Mouse3",
            KeyId::Mouse4 => "Mouse4",
            KeyId::Mouse5 => "Mouse5",
        }
    }

    /// The overlay label of the key, owned.
    pub fn to_string(&self) -> (r: String)
        ensures
            r@ == label_of(*self),
    {
        self.label().to_owned()
    }
}

impl std::str::FromStr for KeyId {
    type Err = String;

    fn from_str(s: &str) -> Result<KeyId, String> {
        KeyId::parse(s)
    }
}

} // verus!
