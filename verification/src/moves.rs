//! The 18 face-turn commands, the reset sentinel, and their decoding.

use vstd::prelude::*;
use crate::direction::Direction;

verus! {

/// One of the 18 discrete face moves, plus `Reset`.
///
/// A bare letter is a clockwise quarter turn of that face, `Prime` marks the
/// counter-clockwise quarter turn, `2` the half turn.
#[derive(Clone, Copy, PartialEq, Eq, Structural, Debug)]
pub enum CubeMove {
    U,
    D,
    L,
    R,
    F,
    B,
    UPrime,
    DPrime,
    LPrime,
    RPrime,
    FPrime,
    BPrime,
    U2,
    D2,
    L2,
    R2,
    F2,
    B2,
    Reset,
}

/// The documented decoding table: the turned face and the signed angle in
/// degrees (clockwise is -90, counter-clockwise +90, a half turn 180).
/// `Reset` has no geometric effect and decodes to `None`.
pub open spec fn decode_spec(m: CubeMove) -> Option<(Direction, int)> {
    match m {
        CubeMove::U => Some((Direction::Up, -90int)),
        CubeMove::D => Some((Direction::Down, -90int)),
        CubeMove::L => Some((Direction::Left, -90int)),
        CubeMove::R => Some((Direction::Right, -90int)),
        CubeMove::F => Some((Direction::Front, -90int)),
        CubeMove::B => Some((Direction::Back, -90int)),
        CubeMove::UPrime => Some((Direction::Up, 90int)),
        CubeMove::DPrime => Some((Direction::Down, 90int)),
        CubeMove::LPrime => Some((Direction::Left, 90int)),
        CubeMove::RPrime => Some((Direction::Right, 90int)),
        CubeMove::FPrime => Some((Direction::Front, 90int)),
        CubeMove::BPrime => Some((Direction::Back, 90int)),
        CubeMove::U2 => Some((Direction::Up, 180int)),
        CubeMove::D2 => Some((Direction::Down, 180int)),
        CubeMove::L2 => Some((Direction::Left, 180int)),
        CubeMove::R2 => Some((Direction::Right, 180int)),
        CubeMove::F2 => Some((Direction::Front, 180int)),
        CubeMove::B2 => Some((Direction::Back, 180int)),
        CubeMove::Reset => None,
    }
}

/// `m` is one of the twelve quarter-turn moves.
pub open spec fn is_quarter_move(m: CubeMove) -> bool {
    match decode_spec(m) {
        Some((_d, deg)) => deg == -90 || deg == 90,
        None => false,
    }
}

/// `m` is one of the six half-turn moves.
pub open spec fn is_double_move(m: CubeMove) -> bool {
    match decode_spec(m) {
        Some((_d, deg)) => deg == 180,
        None => false,
    }
}

/// The move that undoes a quarter-turn move: the other quarter turn of the
/// same face.
pub open spec fn inverse_move(m: CubeMove) -> CubeMove {
    match m {
        CubeMove::U => CubeMove::UPrime,
        CubeMove::D => CubeMove::DPrime,
        CubeMove::L => CubeMove::LPrime,
        CubeMove::R => CubeMove::RPrime,
        CubeMove::F => CubeMove::FPrime,
        CubeMove::B => CubeMove::BPrime,
        CubeMove::UPrime => CubeMove::U,
        CubeMove::DPrime => CubeMove::D,
        CubeMove::LPrime => CubeMove::L,
        CubeMove::RPrime => CubeMove::R,
        CubeMove::FPrime => CubeMove::F,
        CubeMove::BPrime => CubeMove::B,
        _ => m,
    }
}

impl CubeMove {
    /// Decodes a move into the turned face and the signed rotation angle in
    /// degrees, exactly as the table in `decode_spec` documents; `Reset`
    /// yields `None`.
    pub fn to_direction_and_degree(&self) -> (r: Option<(Direction, i64)>)
        ensures
            r matches Some((d, deg)) ==> decode_spec(*self) == Some((d, deg as int)),
            r is None <==> decode_spec(*self) is None,
    {
        match self {
            CubeMove::U => Some((Direction::Up, -90)),
            CubeMove::D => Some((Direction::Down, -90)),
            CubeMove::L => Some((Direction::Left, -90)),
            CubeMove::R => Some((Direction::Right, -90)),
            CubeMove::F => Some((Direction::Front, -90)),
            CubeMove::B => Some((Direction::Back, -90)),
            CubeMove::UPrime => Some((Direction::Up, 90)),
            CubeMove::DPrime => Some((Direction::Down, 90)),
            CubeMove::LPrime => Some((Direction::Left, 90)),
            CubeMove::RPrime => Some((Direction::Right, 90)),
            CubeMove::FPrime => Some((Direction::Front, 90)),
            CubeMove::BPrime => Some((Direction::Back, 90)),
            CubeMove::U2 => Some((Direction::Up, 180)),
            CubeMove::D2 => Some((Direction::Down, 180)),
            CubeMove::L2 => Some((Direction::Left, 180)),
            CubeMove::R2 => Some((Direction::Right, 180)),
            CubeMove::F2 => Some((Direction::Front, 180)),
            CubeMove::B2 => Some((Direction::Back, 180)),
            CubeMove::Reset => None,
        }
    }

    /// Parses a move token, accepting exactly the nineteen documented
    /// spellings and rejecting everything else.
    pub fn from_param(param: &str) -> (r: Result<CubeMove, ()>)
        ensures
            r == parse_move_spec(param@),
    {
        let n = param.unicode_len();
        if n == 1 {
            let c0 = param.get_char(0);
            match c0 {
                'U' => Ok(CubeMove::U),
                'D' => Ok(CubeMove::D),
                'L' => Ok(CubeMove::L),
                'R' => Ok(CubeMove::R),
                'F' => Ok(CubeMove::F),
                'B' => Ok(CubeMove::B),
                _ => Err(()),
            }
        } else if n == 2 {
            let c0 = param.get_char(0);
            let c1 = param.get_char(1);
            if c1 != '2' {
                Err(())
            } else {
                match c0 {
                    'U' => Ok(CubeMove::U2),
                    'D' => Ok(CubeMove::D2),
                    'L' => Ok(CubeMove::L2),
                    'R' => Ok(CubeMove::R2),
                    'F' => Ok(CubeMove::F2),
                    'B' => Ok(CubeMove::B2),
                    _ => Err(()),
                }
            }
        } else if n == 5 {
            let c0 = param.get_char(0);
            let c1 = param.get_char(1);
            let c2 = param.get_char(2);
            let c3 = param.get_char(3);
            let c4 = param.get_char(4);
            if c0 == 'R' && c1 == 'e' && c2 == 's' && c3 == 'e' && c4 == 't' {
                Ok(CubeMove::Reset)
            } else {
                Err(())
            }
        } else if n == 6 {
            let c0 = param.get_char(0);
            let c1 = param.get_char(1);
            let c2 = param.get_char(2);
            let c3 = param.get_char(3);
            let c4 = param.get_char(4);
            let c5 = param.get_char(5);
            if !(c1 == 'P' && c2 == 'r' && c3 == 'i' && c4 == 'm' && c5 == 'e') {
                Err(())
            } else {
                match c0 {
                    'U' => Ok(CubeMove::UPrime),
                    'D' => Ok(CubeMove::DPrime),
                    'L' => Ok(CubeMove::LPrime),
                    'R' => Ok(CubeMove::RPrime),
                    'F' => Ok(CubeMove::FPrime),
                    'B' => Ok(CubeMove::BPrime),
                    _ => Err(()),
                }
            }
        } else {
            Err(())
        }
    }
}

/// Which move a token spells: a face letter, the letter followed by `2`, the
/// letter followed by `Prime`, or `Reset`; anything else is rejected.
pub open spec fn parse_move_spec(s: Seq<char>) -> Result<CubeMove, ()> {
    if s.len() == 1 {
        match face_letter_spec(s[0]) {
            Some(f) => Ok(face_quarter_move(f)),
            None => Err(()),
        }
    } else if s.len() == 2 && s[1] == '2' {
        match face_letter_spec(s[0]) {
            Some(f) => Ok(face_double_move(f)),
            None => Err(()),
        }
    } else if s.len() == 5 && s[0] == 'R' && s[1] == 'e' && s[2] == 's' && s[3] == 'e' && s[4]
        == 't' {
        Ok(CubeMove::Reset)
    } else if s.len() == 6 && s[1] == 'P' && s[2] == 'r' && s[3] == 'i' && s[4] == 'm' && s[5]
        == 'e' {
        match face_letter_spec(s[0]) {
            Some(f) => Ok(face_prime_move(f)),
            None => Err(()),
        }
    } else {
        Err(())
    }
}

/// The face a single letter names, if any.
pub open spec fn face_letter_spec(c: char) -> Option<Direction> {
    if c == 'U' {
        Some(Direction::Up)
    } else if c == 'D' {
        Some(Direction::Down)
    } else if c == 'L' {
        Some(Direction::Left)
    } else if c == 'R' {
        Some(Direction::Right)
    } else if c == 'F' {
        Some(Direction::Front)
    } else if c == 'B' {
        Some(Direction::Back)
    } else {
        None
    }
}

/// The clockwise quarter-turn move of a face.
pub open spec fn face_quarter_move(d: Direction) -> CubeMove {
    match d {
        Direction::Up => CubeMove::U,
        Direction::Down => CubeMove::D,
        Direction::Left => CubeMove::L,
        Direction::Right => CubeMove::R,
        Direction::Front => CubeMove::F,
        Direction::Back => CubeMove::B,
    }
}

/// The counter-clockwise quarter-turn move of a face.
pub open spec fn face_prime_move(d: Direction) -> CubeMove {
    match d {
        Direction::Up => CubeMove::UPrime,
        Direction::Down => CubeMove::DPrime,
        Direction::Left => CubeMove::LPrime,
        Direction::Right => CubeMove::RPrime,
        Direction::Front => CubeMove::FPrime,
        Direction::Back => CubeMove::BPrime,
    }
}

/// The half-turn move of a face.
pub open spec fn face_double_move(d: Direction) -> CubeMove {
    match d {
        Direction::Up => CubeMove::U2,
        Direction::Down => CubeMove::D2,
        Direction::Left => CubeMove::L2,
        Direction::Right => CubeMove::R2,
        Direction::Front => CubeMove::F2,
        Direction::Back => CubeMove::B2,
    }
}

/// Every non-reset move decodes to exactly one (face, angle) pair, `Reset`
/// to none, and no two distinct moves share a pair: decoding is injective.
pub proof fn lemma_decode_exactly_once(m1: CubeMove, m2: CubeMove)
    ensures
        m1 is Reset <==> decode_spec(m1) is None,
        decode_spec(m1) == decode_spec(m2) ==> m1 == m2,
{
}

/// The inverse of a quarter-turn move turns the same face by the opposite
/// angle.
pub proof fn lemma_inverse_move_decode(m: CubeMove)
    requires
        is_quarter_move(m),
    ensures
        is_quarter_move(inverse_move(m)),
        decode_spec(inverse_move(m)) matches Some((d, deg)) ==> {
            &&& decode_spec(m) matches Some((d0, deg0)) && d == d0 && deg == -deg0
        },
{
}

} // verus!
