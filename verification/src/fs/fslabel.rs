//! Filesystem labels.
//!
//! A mounted filesystem is named by one of 26 single-letter tags, and every
//! path is namespaced by a leading `<label>:` prefix.  A path without a `:`
//! carries no label and is invalid; the label character itself is read
//! case-insensitively.

use vstd::prelude::*;

use crate::fs::error::Error;

verus! {

/// The label of a mounted filesystem.
#[derive(Debug, Clone, Copy, PartialEq, Eq, Hash, Structural)]
pub enum FsLabel {
    A,
    B,
    C,
    D,
    E,
    F,
    G,
    H,
    I,
    J,
    K,
    L,
    M,
    N,
    O,
    P,
    Q,
    R,
    S,
    T,
    U,
    V,
    W,
    X,
    Y,
    Z,
}

/// The lower-case letter a label is written as on the wire.
pub open spec fn label_char(l: FsLabel) -> char {
    match l {
        FsLabel::A => 'a',
        FsLabel::B => 'b',
        FsLabel::C => 'c',
        FsLabel::D => 'd',
        FsLabel::E => 'e',
        FsLabel::F => 'f',
        FsLabel::G => 'g',
        FsLabel::H => 'h',
        FsLabel::I => 'i',
        FsLabel::J => 'j',
        FsLabel::K => 'k',
        FsLabel::L => 'l',
        FsLabel::M => 'm',
        FsLabel::N => 'n',
        FsLabel::O => 'o',
        FsLabel::P => 'p',
        FsLabel::Q => 'q',
        FsLabel::R => 'r',
        FsLabel::S => 's',
        FsLabel::T => 't',
        FsLabel::U => 'u',
        FsLabel::V => 'v',
        FsLabel::W => 'w',
        FsLabel::X => 'x',
        FsLabel::Y => 'y',
        FsLabel::Z => 'z',
    }
}

/// The upper-case letter a label is displayed as.
pub open spec fn label_upper_char(l: FsLabel) -> char {
    match l {
        FsLabel::A => 'A',
        FsLabel::B => 'B',
        FsLabel::C => 'C',
        FsLabel::D => 'D',
        FsLabel::E => 'E',
        FsLabel::F => 'F',
        FsLabel::G => 'G',
        FsLabel::H => 'H',
        FsLabel::I => 'I',
        FsLabel::J => 'J',
        FsLabel::K => 'K',
        FsLabel::L => 'L',
        FsLabel::M => 'M',
        FsLabel::N => 'N',
        FsLabel::O => 'O',
        FsLabel::P => 'P',
        FsLabel::Q => 'Q',
        FsLabel::R => 'R',
        FsLabel::S => 'S',
        FsLabel::T => 'T',
        FsLabel::U => 'U',
        FsLabel::V => 'V',
        FsLabel::W => 'W',
        FsLabel::X => 'X',
        FsLabel::Y => 'Y',
        FsLabel::Z => 'Z',
    }
}

/// The label a character names, read case-insensitively; `None` for any
/// character that is not a letter.
pub open spec fn label_of_char(c: char) -> Option<FsLabel> {
    match c {
        'a' | 'A' => Some(FsLabel::A),
        'b' | 'B' => Some(FsLabel::B),
        'c' | 'C' => Some(FsLabel::C),
        'd' | 'D' => Some(FsLabel::D),
        'e' | 'E' => Some(FsLabel::E),
        'f' | 'F' => Some(FsLabel::F),
        'g' | 'G' => Some(FsLabel::G),
        'h' | 'H' => Some(FsLabel::H),
        'i' | 'I' => Some(FsLabel::I),
        'j' | 'J' => Some(FsLabel::J),
        'k' | 'K' => Some(FsLabel::K),
        'l' | 'L' => Some(FsLabel::L),
        'm' | 'M' => Some(FsLabel::M),
        'n' | 'N' => Some(FsLabel::N),
        'o' | 'O' => Some(FsLabel::O),
        'p' | 'P' => Some(FsLabel::P),
        'q' | 'Q' => Some(FsLabel::Q),
        'r' | 'R' => Some(FsLabel::R),
        's' | 'S' => Some(FsLabel::S),
        't' | 'T' => Some(FsLabel::T),
        'u' | 'U' => Some(FsLabel::U),
        'v' | 'V' => Some(FsLabel::V),
        'w' | 'W' => Some(FsLabel::W),
        'x' | 'X' => Some(FsLabel::X),
        'y' | 'Y' => Some(FsLabel::Y),
        'z' | 'Z' => Some(FsLabel::Z),
        _ => None,
    }
}

/// Whether the path carries a `:` anywhere, i.e. a label prefix at all.
pub open spec fn has_colon(s: Seq<char>) -> bool {
    exists|i: int| 0 <= i < s.len() && s[i] == ':'
}

/// The label a character names, read case-insensitively.
pub fn label_from_char(c: char) -> (r: Option<FsLabel>)
    ensures
        r == label_of_char(c),
{
    match c {
        'a' | 'A' => Some(FsLabel::A),
        'b' | 'B' => Some(FsLabel::B),
        'c' | 'C' => Some(FsLabel::C),
        'd' | 'D' => Some(FsLabel::D),
        'e' | 'E' => Some(FsLabel::E),
        'f' | 'F' => Some(FsLabel::F),
        'g' | 'G' => Some(FsLabel::G),
        'h' | 'H' => Some(FsLabel::H),
        'i' | 'I' => Some(FsLabel::I),
        'j' | 'J' => Some(FsLabel::J),
        'k' | 'K' => Some(FsLabel::K),
        'l' | 'L' => Some(FsLabel::L),
        'm' | 'M' => Some(FsLabel::M),
        'n' | 'N' => Some(FsLabel::N),
        'o' | 'O' => Some(FsLabel::O),
        'p' | 'P' => Some(FsLabel::P),
        'q' | 'Q' => Some(FsLabel::Q),
        'r' | 'R' => Some(FsLabel::R),
        's' | 'S' => Some(FsLabel::S),
        't' | 'T' => Some(FsLabel::T),
        'u' | 'U' => Some(FsLabel::U),
        'v' | 'V' => Some(FsLabel::V),
        'w' | 'W' => Some(FsLabel::W),
        'x' | 'X' => Some(FsLabel::X),
        'y' | 'Y' => Some(FsLabel::Y),
        'z' | 'Z' => Some(FsLabel::Z),
        _ => None,
    }
}

/// Whether the string contains a `:` at any position.
pub fn contains_colon(s: &str) -> (r: bool)
    ensures
        r == has_colon(s@),
{
    let n = s.unicode_len();
    let mut i: usize = 0;
    while i < n
        invariant
            n == s@.len(),
            i <= n,
            forall|j: int| 0 <= j < i ==> s@[j] != ':',
        decreases n - i,
    {
        if s.get_char(i) == ':' {
            proof {
                assert(0 <= i < s@.len() && s@[i as int] == ':');
            }
            return true;
        }
        i = i + 1;
    }
    false
}

impl FsLabel {
    /// Extract the filesystem label from a path.
    ///
    /// A path carries a label exactly when it contains a `:` and its first
    /// character names a label (case-insensitively).  A path without a `:`
    /// is rejected as carrying no label at all; one whose first character is
    /// not a letter is rejected as naming no label.
    pub fn extract_from_path(path: &str) -> (r: Result<FsLabel, Error>)
        ensures
            r is Ok <==> has_colon(path@) && label_of_char(path@[0]) is Some,
            r matches Ok(l) ==> label_of_char(path@[0]) == Some(l),
            !has_colon(path@) ==> (r matches Err(e) && e matches Error::NoFsLabel(p)
                && p@ == path@),
            has_colon(path@) && label_of_char(path@[0]) is None ==> (r matches Err(e)
                && e matches Error::NotAFsLabel(p) && p@ == path@.subrange(0, 1)),
    {
        if !contains_colon(path) {
            return Err(Error::NoFsLabel(path.to_owned()));
        }
        proof {
            assert(path@.len() > 0);
        }
        let c = path.get_char(0);
        match label_from_char(c) {
            Some(l) => Ok(l),
            None => Err(Error::NotAFsLabel(path.substring_char(0, 1).to_owned())),
        }
    }

    /// Parse a label from its one-character spelling, either case.
    pub fn from_str(s: &str) -> (r: Result<FsLabel, Error>)
        ensures
            r is Ok <==> s@.len() == 1 && label_of_char(s@[0]) is Some,
            r matches Ok(l) ==> label_of_char(s@[0]) == Some(l),
            r matches Err(e) ==> e matches Error::NotAFsLabel(p) && p@ == s@,
    {
        if s.unicode_len() == 1 {
            if let Some(l) = label_from_char(s.get_char(0)) {
                return Ok(l);
            }
        }
        Err(Error::NotAFsLabel(s.to_owned()))
    }

    /// The label's name: its upper-case letter.
    pub fn name(&self) -> (r: &'static str)
        ensures
            r@ == seq![label_upper_char(*self)],
    {
        proof {
            reveal_strlit("A");
            reveal_strlit("B");
            reveal_strlit("C");
            reveal_strlit("D");
            reveal_strlit("E");
            reveal_strlit("F");
            reveal_strlit("G");
            reveal_strlit("H");
            reveal_strlit("I");
            reveal_strlit("J");
            reveal_strlit("K");
            reveal_strlit("L");
            reveal_strlit("M");
            reveal_strlit("N");
            reveal_strlit("O");
            reveal_strlit("P");
            reveal_strlit("Q");
            reveal_strlit("R");
            reveal_strlit("S");
            reveal_strlit("T");
            reveal_strlit("U");
            reveal_strlit("V");
            reveal_strlit("W");
            reveal_strlit("X");
            reveal_strlit("Y");
            reveal_strlit("Z");
        }
        let r: &'static str = match self {
            FsLabel::A => "A",
            FsLabel::B => "B",
            FsLabel::C => "C",
            FsLabel::D => "D",
            FsLabel::E => "E",
            FsLabel::F => "F",
            FsLabel::G => "G",
            FsLabel::H => "H",
            FsLabel::I => "I",
            FsLabel::J => "J",
            FsLabel::K => "K",
            FsLabel::L => "L",
            FsLabel::M => "M",
            FsLabel::N => "N",
            FsLabel::O => "O",
            FsLabel::P => "P",
            FsLabel::Q => "Q",
            FsLabel::R => "R",
            FsLabel::S => "S",
            FsLabel::T => "T",
            FsLabel::U => "U",
            FsLabel::V => "V",
            FsLabel::W => "W",
            FsLabel::X => "X",
            FsLabel::Y => "Y",
            FsLabel::Z => "Z",
        };
        proof {
            assert(r@ =~= seq![label_upper_char(*self)]);
        }
        r
    }

    /// The byte the label is handed to the host as: its lower-case letter.
    pub fn to_byte(self) -> (r: u8)
        ensures
            r == label_char(self) as u8,
    {
        match self {
            FsLabel::A => 97,
            FsLabel::B => 98,
            FsLabel::C => 99,
            FsLabel::D => 100,
            FsLabel::E => 101,
            FsLabel::F => 102,
            FsLabel::G => 103,
            FsLabel::H => 104,
            FsLabel::I => 105,
            FsLabel::J => 106,
            FsLabel::K => 107,
            FsLabel::L => 108,
            FsLabel::M => 109,
            FsLabel::N => 110,
            FsLabel::O => 111,
            FsLabel::P => 112,
            FsLabel::Q => 113,
            FsLabel::R => 114,
            FsLabel::S => 115,
            FsLabel::T => 116,
            FsLabel::U => 117,
            FsLabel::V => 118,
            FsLabel::W => 119,
            FsLabel::X => 120,
            FsLabel::Y => 121,
            FsLabel::Z => 122,
        }
    }
}

} // verus!
