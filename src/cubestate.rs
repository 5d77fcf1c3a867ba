//! The facelet state of the cube: 54 colors, nine per face, as the cube packs
//! them two to a byte.

use vstd::prelude::*;
use crate::error::ParseError;

verus! {

/// The color of a facelet, which also names the face whose center has it.
#[derive(Debug, Clone, Copy, PartialEq, Eq, Structural)]
pub enum Color {
    Orange,
    Red,
    Yellow,
    White,
    Green,
    Blue,
}

impl Color {
    /// The value that stands for this color in the facelet state.
    pub open spec fn code(self) -> u8 {
        match self {
            Color::Orange => 0,
            Color::Red => 1,
            Color::Yellow => 2,
            Color::White => 3,
            Color::Green => 4,
            Color::Blue => 5,
        }
    }

    /// The color that a facelet value stands for, if any.
    pub open spec fn from_code(x: u8) -> Option<Color> {
        if x == 0 {
            Some(Color::Orange)
        } else if x == 1 {
            Some(Color::Red)
        } else if x == 2 {
            Some(Color::Yellow)
        } else if x == 3 {
            Some(Color::White)
        } else if x == 4 {
            Some(Color::Green)
        } else if x == 5 {
            Some(Color::Blue)
        } else {
            None
        }
    }

    /// Where the nine facelets of the face with this center start.
    pub open spec fn face_start(self) -> int {
        match self {
            Color::White => 0,
            Color::Red => 9,
            Color::Green => 18,
            Color::Yellow => 27,
            Color::Orange => 36,
            Color::Blue => 45,
        }
    }

    /// The square that draws this color.
    pub open spec fn emoji_spec(self) -> Seq<char> {
        match self {
            Color::Orange => "\u{1F7E7}"@,
            Color::Red => "\u{1F7E5}"@,
            Color::Yellow => "\u{1F7E8}"@,
            Color::White => "\u{2B1C}"@,
            Color::Green => "\u{1F7E9}"@,
            Color::Blue => "\u{1F7E6}"@,
        }
    }

    /// Index into the 54 facelets where this color's face starts.
    pub fn state_index(&self) -> (r: usize)
        ensures
            r as int == self.face_start(),
    {
        match self {
            Color::White => 0,
            Color::Red => 9,
            Color::Green => 18,
            Color::Yellow => 27,
            Color::Orange => 36,
            Color::Blue => 45,
        }
    }

    /// The color that the facelet value `x` stands for, if any.
    pub fn from_u8(x: u8) -> (r: Option<Color>)
        ensures
            r == Color::from_code(x),
            r matches Some(c) ==> c.code() == x,
    {
        match x {
            0 => Some(Color::Orange),
            1 => Some(Color::Red),
            2 => Some(Color::Yellow),
            3 => Some(Color::White),
            4 => Some(Color::Green),
            5 => Some(Color::Blue),
            _ => None,
        }
    }

    /// The colored square that draws this color.
    pub fn emoji(&self) -> (r: &'static str)
        ensures
            r@ == self.emoji_spec(),
    {
        match self {
            Color::Orange => "\u{1F7E7}",
            Color::Red => "\u{1F7E5}",
            Color::Yellow => "\u{1F7E8}",
            Color::White => "\u{2B1C}",
            Color::Green => "\u{1F7E9}",
            Color::Blue => "\u{1F7E6}",
        }
    }
}

/// The facelet values that a byte packs: its low nibble, then its high one.
pub open spec fn unpack_facelets(raw: Seq<u8>) -> Seq<u8> {
    Seq::new(
        2 * raw.len(),
        |i: int|
            if i % 2 == 0 {
                (raw[i / 2] % 16) as u8
            } else {
                (raw[i / 2] / 16) as u8
            },
    )
}

/// Facelet values packed two to a byte, the first in the low nibble.
pub open spec fn pack_facelets(f: Seq<u8>) -> Seq<u8> {
    Seq::new(f.len() / 2, |i: int| (f[2 * i] + 16 * f[2 * i + 1]) as u8)
}

/// The code of the color of the face at position `face` in the state order
/// (white, red, green, yellow, orange, blue).
pub open spec fn solved_face_code(face: int) -> u8 {
    if face == 0 {
        3
    } else if face == 1 {
        1
    } else if face == 2 {
        4
    } else if face == 3 {
        2
    } else if face == 4 {
        0
    } else {
        5
    }
}

/// The facelets of a solved cube: each face wholly in its center's color.
pub open spec fn solved_facelets() -> Seq<u8> {
    Seq::new(54, |i: int| solved_face_code(i / 9))
}

/// Whether every facelet value stands for one of the six colors.
pub open spec fn known_colors(f: Seq<u8>) -> bool {
    forall|i: int| 0 <= i < f.len() ==> #[trigger] f[i] <= 5
}

/// The 54 facelet values of the cube, face after face.
#[derive(Debug)]
pub struct CubeState {
    facelets: [u8; 54],
}

impl View for CubeState {
    type V = Seq<u8>;

    closed spec fn view(&self) -> Seq<u8> {
        self.facelets@
    }
}

fn solved_code_at(i: usize) -> (r: u8)
    requires
        i < 54,
    ensures
        r == solved_facelets()[i as int],
{
    if i < 9 {
        3
    } else if i < 18 {
        1
    } else if i < 27 {
        4
    } else if i < 36 {
        2
    } else if i < 45 {
        0
    } else {
        5
    }
}

impl CubeState {
    /// Unpacks the 27 bytes of a facelet block, low nibble first.
    pub fn from_raw(raw: &[u8]) -> (r: CubeState)
        requires
            raw@.len() == 27,
        ensures
            r@ == unpack_facelets(raw@),
    {
        let mut facelets: [u8; 54] = [0u8; 54];
        let mut i: usize = 0;
        while i < 27
            invariant
                0 <= i <= 27,
                raw@.len() == 27,
                forall|j: int| 0 <= j < 2 * i ==> facelets@[j] == #[trigger] unpack_facelets(raw@)[j],
            decreases 27 - i,
        {
            let x = raw[i];
            let lo = x & 0xf;
            let hi = (x & 0xF0) >> 4;
            assert(x & 0xf == x % 16 && (x & 0xF0) >> 4 == x / 16) by (bit_vector);
            facelets[2 * i] = lo;
            facelets[2 * i + 1] = hi;
            i += 1;
        }
        assert(facelets@ =~= unpack_facelets(raw@));
        CubeState { facelets }
    }

    /// Whether every facelet holds one of the six colors.
    pub fn colors_known(&self) -> (r: bool)
        ensures
            r == known_colors(self@),
    {
        let mut i: usize = 0;
        while i < 54
            invariant
                0 <= i <= 54,
                self@.len() == 54,
                forall|j: int| 0 <= j < i ==> #[trigger] self@[j] <= 5,
            decreases 54 - i,
        {
            if self.facelets[i] > 5 {
                return false;
            }
            i += 1;
        }
        true
    }

    /// Whether every face is wholly in the color of its center, as on a
    /// solved cube.
    pub fn is_solved(&self) -> (r: bool)
        ensures
            r == (self@ == solved_facelets()),
    {
        let mut i: usize = 0;
        while i < 54
            invariant
                0 <= i <= 54,
                self@.len() == 54,
                forall|j: int| 0 <= j < i ==> self@[j] == #[trigger] solved_facelets()[j],
            decreases 54 - i,
        {
            if self.facelets[i] != solved_code_at(i) {
                return false;
            }
            i += 1;
        }
        assert(self@ =~= solved_facelets());
        true
    }

    /// The colors of the nine facelets of the face whose center is `center`;
    /// fails with `BadColorValue` where one of them holds no known color.
    pub fn face_colors(&self, center: Color) -> (r: Result<[Color; 9], ParseError>)
        ensures
            r is Err <==> exists|j: int|
                0 <= j < 9 && #[trigger] self@[center.face_start() + j] > 5,
            r matches Err(e) ==> e == ParseError::BadColorValue,
            r matches Ok(a) ==> forall|j: int|
                0 <= j < 9 ==> (#[trigger] a@[j]).code() == self@[center.face_start() + j],
    {
        let idx = center.state_index();
        let mut colors: [Color; 9] = [Color::Orange; 9];
        let mut j: usize = 0;
        while j < 9
            invariant
                0 <= j <= 9,
                idx as int == center.face_start(),
                self@.len() == 54,
                forall|k: int| 0 <= k < j ==> #[trigger] self@[idx + k] <= 5,
                forall|k: int| 0 <= k < j ==> (#[trigger] colors@[k]).code() == self@[idx + k],
            decreases 9 - j,
        {
            match Color::from_u8(self.facelets[idx + j]) {
                Some(c) => {
                    colors[j] = c;
                },
                None => {
                    assert(self@[center.face_start() + j] > 5);
                    return Err(ParseError::BadColorValue);
                },
            }
            j += 1;
        }
        Ok(colors)
    }
}

/// Packing facelet values two to a byte and unpacking the bytes again gives
/// the values back.
pub proof fn packed_facelets_round_trip(f: Seq<u8>)
    requires
        f.len() % 2 == 0,
        forall|i: int| 0 <= i < f.len() ==> #[trigger] f[i] < 16,
    ensures
        pack_facelets(f).len() * 2 == f.len(),
        unpack_facelets(pack_facelets(f)) == f,
{
    let p = pack_facelets(f);
    assert forall|i: int| 0 <= i < f.len() implies #[trigger] unpack_facelets(p)[i] == f[i] by {
        let j = i / 2;
        let lo = f[2 * j];
        let hi = f[2 * j + 1];
        assert(lo < 16 && hi < 16);
        assert((lo + 16 * hi) % 16 == lo && (lo + 16 * hi) / 16 == hi) by (nonlinear_arith)
            requires
                lo < 16,
                hi < 16,
        ;
    }
    assert(unpack_facelets(p) =~= f);
}

/// The state decoded from the packed solved arrangement is solved, and the
/// state decoded from it with any one facelet changed is not.
pub proof fn solved_facelets_decode(i: int, v: u8)
    requires
        0 <= i < 54,
        v < 16,
        v != solved_facelets()[i],
    ensures
        unpack_facelets(pack_facelets(solved_facelets())) == solved_facelets(),
        unpack_facelets(pack_facelets(solved_facelets().update(i, v))) != solved_facelets(),
{
    let s = solved_facelets();
    let t = s.update(i, v);
    assert forall|j: int| 0 <= j < 54 implies #[trigger] s[j] < 16 by {}
    packed_facelets_round_trip(s);
    assert forall|j: int| 0 <= j < 54 implies #[trigger] t[j] < 16 by {}
    packed_facelets_round_trip(t);
    assert(t[i] != s[i]);
}

} // verus!
