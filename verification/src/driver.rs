use vstd::prelude::*;

use crate::engine::run_game;
use crate::pieces::{Config, Outcome, Strategy};

verus! {

/// How many trials ended in each outcome category.
#[derive(Clone, Copy, Debug, PartialEq, Eq, Structural)]
pub struct Counts {
    pub fish_win: u32,
    pub fishers_win: u32,
    pub tie: u32,
}

impl Counts {
    /// The tally of one outcome category.
    pub fn count_of(&self, outcome: Outcome) -> (r: u32)
        ensures
            outcome == Outcome::FishWin ==> r == self.fish_win,
            outcome == Outcome::FishersWin ==> r == self.fishers_win,
            outcome == Outcome::Tie ==> r == self.tie,
    {
        match outcome {
            Outcome::FishWin => self.fish_win,
            Outcome::FishersWin => self.fishers_win,
            Outcome::Tie => self.tie,
        }
    }
}

/// Run the configured number of independent trials and tally each trial's
/// outcome category. The three tallies sum to exactly the iteration count.
pub fn run_simulation(config: &Config, strategy: Strategy) -> (r: Counts)
    requires
        config.track_fits(),
    ensures
        r.fish_win + r.fishers_win + r.tie == config.iterations,
{
    let mut counts = Counts { fish_win: 0, fishers_win: 0, tie: 0 };
    let mut i: u16 = 0;
    while i < config.iterations
        invariant
            i <= config.iterations,
            config.track_fits(),
            counts.fish_win + counts.fishers_win + counts.tie == i,
        decreases config.iterations - i,
    {
        let result = run_game(config, strategy);
        match result {
            Outcome::FishWin => {
                counts.fish_win = counts.fish_win + 1;
            },
            Outcome::FishersWin => {
                counts.fishers_win = counts.fishers_win + 1;
            },
            Outcome::Tie => {
                counts.tie = counts.tie + 1;
            },
        }
        i = i + 1;
    }
    counts
}

} // verus!
