use vstd::prelude::*;
use vstd::std_specs::convert::FromSpecImpl;

use crate::websocket::messages::MakeMove;

verus! {

/// The side a player has in a game. `Unassigned` is the colour of a player who is
/// not seated in any game.
#[derive(Debug, Clone, Copy, PartialEq, Eq, Structural)]
pub enum Color {
    Black,
    White,
    Unassigned,
}

impl Color {
    /// The other side of the board; a player without a side has no opposite.
    pub open spec fn spec_opposite(self) -> Color {
        match self {
            Color::Black => Color::White,
            Color::White => Color::Black,
            Color::Unassigned => Color::Unassigned,
        }
    }

    #[verifier::when_used_as_spec(spec_opposite)]
    pub fn opposite(self) -> (r: Color)
        ensures
            r == self.spec_opposite(),
    {
        match self {
            Color::Black => Color::White,
            Color::White => Color::Black,
            Color::Unassigned => Color::Unassigned,
        }
    }
}

impl Color {
    /// The colour that the letter `code` stands for on the wire: `b` or `w`.
    pub open spec fn coded(code: Seq<char>) -> Option<Color> {
        if code == "b"@ {
            Some(Color::Black)
        } else if code == "w"@ {
            Some(Color::White)
        } else {
            None
        }
    }

    /// The letter that stands for the colour on the wire. A player without a
    /// colour has none.
    pub open spec fn code(self) -> Option<Seq<char>> {
        match self {
            Color::Black => Some("b"@),
            Color::White => Some("w"@),
            Color::Unassigned => None,
        }
    }

    pub fn from_code(code: &str) -> (r: Option<Color>)
        ensures
            r == Color::coded(code@),
    {
        if code.eq("b") {
            Some(Color::Black)
        } else if code.eq("w") {
            Some(Color::White)
        } else {
            None
        }
    }

    pub fn as_code(&self) -> (r: Option<&'static str>)
        ensures
            match self.code() {
                Some(c) => r matches Some(s) && s@ == c,
                None => r is None,
            },
    {
        match self {
            Color::Black => Some("b"),
            Color::White => Some("w"),
            Color::Unassigned => None,
        }
    }
}

/// A move as mathematical values.
pub struct ChessMoveView {
    pub from: Seq<char>,
    pub to: Seq<char>,
    pub promotion_piece: Option<Seq<char>>,
}

/// A move of a piece from one square to another, as it is passed on to the
/// opponent.
#[derive(Debug, Clone)]
pub struct ChessMove {
    pub from: String,
    pub to: String,
    pub promotion_piece: Option<String>,
}

impl View for ChessMove {
    type V = ChessMoveView;

    open spec fn view(&self) -> ChessMoveView {
        ChessMoveView {
            from: self.from@,
            to: self.to@,
            promotion_piece: match self.promotion_piece {
                Some(p) => Some(p@),
                None => None,
            },
        }
    }
}

impl FromSpecImpl<MakeMove> for ChessMove {
    open spec fn obeys_from_spec() -> bool {
        true
    }

    open spec fn from_spec(value: MakeMove) -> ChessMove {
        ChessMove { from: value.from, to: value.to, promotion_piece: value.promotion_piece }
    }
}

impl From<MakeMove> for ChessMove {
    fn from(value: MakeMove) -> (r: ChessMove) {
        ChessMove { from: value.from, to: value.to, promotion_piece: value.promotion_piece }
    }
}

} // verus!
