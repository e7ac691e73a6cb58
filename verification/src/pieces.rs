use vstd::prelude::*;

verus! {

/// Status of a piece on the track.
#[derive(Clone, Copy, Debug, PartialEq, Eq, Structural)]
pub enum Status {
    Active,
    Captured,
    Free,
}

/// The four fish colors, one fish per color.
#[derive(Clone, Copy, Debug, PartialEq, Eq, Structural)]
pub enum Color {
    Blue,
    Orange,
    Pink,
    Yellow,
}

/// The six faces of the die: two move the boat, four name a fish color.
#[derive(Clone, Copy, Debug, PartialEq, Eq, Structural)]
pub enum DieFace {
    Red,
    Green,
    Pink,
    Orange,
    Yellow,
    Blue,
}

/// The outcome category of one trial.
#[derive(Clone, Copy, Debug, PartialEq, Eq, Structural)]
pub enum Outcome {
    FishWin,
    FishersWin,
    Tie,
}

/// Which fish moves in place of a fish that is already free.
#[derive(Clone, Copy, Debug, PartialEq, Eq, Structural)]
pub enum Strategy {
    NextActive,
    NearestSea,
    FarthestFromSea,
}

/// A piece on the track: the boat or one of the four fish.
#[derive(Clone, Copy, Debug, PartialEq, Eq, Structural)]
pub struct Piece {
    pub position: u16,
    pub status: Status,
}

/// Board-size configuration for a run of trials.
#[derive(Clone, Copy, Debug, PartialEq, Eq, Structural)]
pub struct Config {
    pub fish_tiles: u16,
    pub boat_tiles: u16,
    pub iterations: u16,
}

impl Config {
    /// The boat's starting position, one past the last boat tile, fits in u16.
    pub open spec fn track_fits(self) -> bool {
        self.fish_tiles + self.boat_tiles + 2 <= u16::MAX
    }
}

/// The index of each fish in the fish array, in the fixed color order.
pub open spec fn spec_color_index(c: Color) -> int {
    match c {
        Color::Blue => 0,
        Color::Orange => 1,
        Color::Pink => 2,
        Color::Yellow => 3,
    }
}

impl Color {
    /// The fish array slot owned by this color.
    pub fn index(self) -> (i: usize)
        ensures
            i == spec_color_index(self),
    {
        match self {
            Color::Blue => 0,
            Color::Orange => 1,
            Color::Pink => 2,
            Color::Yellow => 3,
        }
    }
}

impl DieFace {
    /// The fish color a face names, or `None` for the two boat faces.
    pub open spec fn spec_fish_color(self) -> Option<Color> {
        match self {
            DieFace::Red => None,
            DieFace::Green => None,
            DieFace::Pink => Some(Color::Pink),
            DieFace::Orange => Some(Color::Orange),
            DieFace::Yellow => Some(Color::Yellow),
            DieFace::Blue => Some(Color::Blue),
        }
    }

    /// The fish color a face names, or `None` for the two boat faces.
    pub fn fish_color(self) -> (c: Option<Color>)
        ensures
            c == self.spec_fish_color(),
    {
        match self {
            DieFace::Red => None,
            DieFace::Green => None,
            DieFace::Pink => Some(Color::Pink),
            DieFace::Orange => Some(Color::Orange),
            DieFace::Yellow => Some(Color::Yellow),
            DieFace::Blue => Some(Color::Blue),
        }
    }
}

impl Outcome {
    /// The report label of this outcome category.
    pub fn label(self) -> (r: &'static str)
        ensures
            self == Outcome::FishWin ==> r@ == "fish"@,
            self == Outcome::FishersWin ==> r@ == "fishers"@,
            self == Outcome::Tie ==> r@ == "tie"@,
    {
        match self {
            Outcome::FishWin => "fish",
            Outcome::FishersWin => "fishers",
            Outcome::Tie => "tie",
        }
    }
}

/// Every outcome category is one of exactly fish win, tie, or fishers win.
pub proof fn lemma_outcome_exhaustive(outcome: Outcome)
    ensures
        outcome == Outcome::FishWin || outcome == Outcome::Tie || outcome == Outcome::FishersWin,
{
}

/// An active or captured piece stands off the sea; a free fish sits in the sea.
pub open spec fn piece_wf(p: Piece) -> bool {
    match p.status {
        Status::Active => p.position >= 1,
        Status::Captured => p.position >= 1,
        Status::Free => p.position == 0,
    }
}

/// The shape every reachable fish array has: four pieces, each well formed.
pub open spec fn fish_wf(fish: Seq<Piece>) -> bool {
    &&& fish.len() == 4
    &&& forall|i: int| 0 <= i < 4 ==> piece_wf(#[trigger] fish[i])
}

/// Four pieces, and every active one can move one tile without leaving the track.
pub open spec fn fish_movable(fish: Seq<Piece>) -> bool {
    &&& fish.len() == 4
    &&& forall|i: int|
        0 <= i < 4 && (#[trigger] fish[i]).status == Status::Active ==> fish[i].position >= 1
}

/// Some fish is still active.
pub open spec fn any_active(fish: Seq<Piece>) -> bool {
    exists|i: int| 0 <= i < 4 && (#[trigger] fish[i]).status == Status::Active
}

/// Well-formed fish arrays are movable.
pub proof fn lemma_wf_movable(fish: Seq<Piece>)
    requires
        fish_wf(fish),
    ensures
        fish_movable(fish),
{
}

} // verus!
