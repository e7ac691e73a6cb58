use vstd::prelude::*;

use rand::RngExt;

use crate::pieces::{
    any_active, fish_wf, lemma_wf_movable, piece_wf, spec_color_index, Config,
    DieFace, Outcome, Piece, Status, Strategy,
};
use crate::strategy::{
    chosen_index, dec_piece, displaced, lemma_chosen_index_props, update_by_strategy,
};

verus! {

/// The status a fish takes when recomputed against the boat: in the sea it is
/// free, level with or behind the boat it is captured, otherwise unchanged.
pub open spec fn updated_status(f: Piece, boat: Piece) -> Status {
    if f.position == 0 {
        Status::Free
    } else if boat.position <= f.position {
        Status::Captured
    } else {
        f.status
    }
}

/// A fish after its per-turn status recomputation; its position is untouched.
pub open spec fn updated_piece(f: Piece, boat: Piece) -> Piece {
    Piece { position: f.position, status: updated_status(f, boat) }
}

/// Recompute one fish's status against the boat.
pub fn update_fish_state(fish: &mut Piece, boat: &Piece)
    ensures
        *final(fish) == updated_piece(*old(fish), *boat),
{
    if fish.position == 0 {
        fish.status = Status::Free;
    } else if boat.position <= fish.position {
        fish.status = Status::Captured;
    }
}

/// The trial is over: the boat reached the sea, or no fish is still active.
pub open spec fn win_condition(boat: Piece, fish: Seq<Piece>) -> bool {
    boat.position == 0 || !any_active(fish)
}

/// Whether the trial is over in this state.
pub fn check_win_condition(boat: &Piece, fish: &[Piece; 4]) -> (r: bool)
    ensures
        r == win_condition(*boat, fish@),
{
    if boat.position == 0 {
        return true;
    }
    let mut i: usize = 0;
    while i < 4
        invariant
            0 <= i <= 4,
            boat.position != 0,
            forall|j: int| 0 <= j < i ==> (#[trigger] fish@[j]).status != Status::Active,
        decreases 4 - i,
    {
        if fish[i].status == Status::Active {
            assert(any_active(fish@));
            return false;
        }
        i = i + 1;
    }
    true
}

/// The number of free fish among `fish[0..n)`.
pub open spec fn free_count_prefix(fish: Seq<Piece>, n: int) -> int
    decreases n,
{
    if n <= 0 {
        0
    } else {
        free_count_prefix(fish, n - 1) + if fish[n - 1].status == Status::Free {
            1int
        } else {
            0int
        }
    }
}

/// The number of fish that escaped to the sea.
pub open spec fn escaped_count(fish: Seq<Piece>) -> int {
    free_count_prefix(fish, 4)
}

/// The outcome category a terminal fish array yields: more than two escaped
/// fish win for the fish, exactly two tie, fewer win for the fishers.
pub open spec fn winner_of(fish: Seq<Piece>) -> Outcome {
    if escaped_count(fish) > 2 {
        Outcome::FishWin
    } else if escaped_count(fish) == 2 {
        Outcome::Tie
    } else {
        Outcome::FishersWin
    }
}

/// Tally the escaped fish and name the outcome category.
pub fn determine_winner(fish: &[Piece; 4]) -> (r: Outcome)
    ensures
        r == winner_of(fish@),
{
    let mut num_fish_escaped: usize = 0;
    let mut i: usize = 0;
    while i < 4
        invariant
            0 <= i <= 4,
            num_fish_escaped == free_count_prefix(fish@, i as int),
            num_fish_escaped <= i,
        decreases 4 - i,
    {
        if fish[i].status == Status::Free {
            num_fish_escaped = num_fish_escaped + 1;
        }
        i = i + 1;
    }
    if num_fish_escaped > 2 {
        Outcome::FishWin
    } else if num_fish_escaped == 2 {
        Outcome::Tie
    } else {
        Outcome::FishersWin
    }
}

/// The boat and fish after the movement phase of one turn: a boat face moves
/// the boat; a fish face moves its fish if active, advances the boat if that
/// fish is captured, and hands the move to the policy's pick if it is free.
pub open spec fn moved_state(boat: Piece, fish: Seq<Piece>, face: DieFace, strategy: Strategy) -> (
    Piece,
    Seq<Piece>,
) {
    match face.spec_fish_color() {
        Option::None => (dec_piece(boat), fish),
        Option::Some(c) => {
            let i = spec_color_index(c);
            match fish[i].status {
                Status::Active => (boat, fish.update(i, dec_piece(fish[i]))),
                Status::Captured => (dec_piece(boat), fish),
                Status::Free => (boat, displaced(fish, chosen_index(strategy, fish))),
            }
        },
    }
}

/// All four fish after the per-turn status recomputation against the boat.
pub open spec fn refreshed(boat: Piece, fish: Seq<Piece>) -> Seq<Piece> {
    Seq::new(4, |i: int| updated_piece(fish[i], boat))
}

/// One full turn: the movement phase for the drawn face, then the status
/// recomputation of every fish.
pub open spec fn turn_spec(boat: Piece, fish: Seq<Piece>, face: DieFace, strategy: Strategy) -> (
    Piece,
    Seq<Piece>,
) {
    let moved = moved_state(boat, fish, face, strategy);
    (moved.0, refreshed(moved.0, moved.1))
}

/// Play one turn for the drawn die face. Positions never increase, and a fish
/// that has left the active state never returns to it.
pub fn play_turn(boat: &mut Piece, fish: &mut [Piece; 4], face: DieFace, strategy: Strategy)
    requires
        old(boat).position >= 1,
        fish_wf(old(fish)@),
    ensures
        *final(boat) == turn_spec(*old(boat), old(fish)@, face, strategy).0,
        final(fish)@ == turn_spec(*old(boat), old(fish)@, face, strategy).1,
        fish_wf(final(fish)@),
        final(boat).position <= old(boat).position,
        final(boat).status == old(boat).status,
        forall|i: int|
            0 <= i < 4 ==> (#[trigger] final(fish)@[i]).position <= old(fish)@[i].position,
        forall|i: int|
            0 <= i < 4 && old(fish)@[i].status != Status::Active
                ==> (#[trigger] final(fish)@[i]).status != Status::Active,
        forall|i: int|
            0 <= i < 4 && old(fish)@[i].status == Status::Free ==> (#[trigger] final(fish)@[i])
                == old(fish)@[i],
        forall|i: int|
            0 <= i < 4 && old(fish)@[i].status == Status::Captured
                ==> (#[trigger] final(fish)@[i]).status == Status::Captured,
{
    proof {
        lemma_wf_movable(old(fish)@);
    }
    match face.fish_color() {
        Option::None => {
            boat.position = boat.position - 1;
        },
        Option::Some(c) => {
            let i = c.index();
            if fish[i].status == Status::Active {
                let p = fish[i];
                fish[i] = Piece { position: p.position - 1, status: p.status };
            } else if fish[i].status == Status::Captured {
                boat.position = boat.position - 1;
            } else {
                proof {
                    lemma_chosen_index_props(strategy, fish@);
                }
                update_by_strategy(fish, strategy);
            }
        },
    }
    let ghost moved_boat = *boat;
    let ghost moved_fish = fish@;
    assert((moved_boat, moved_fish) == moved_state(*old(boat), old(fish)@, face, strategy));
    let mut i: usize = 0;
    while i < 4
        invariant
            0 <= i <= 4,
            *boat == moved_boat,
            fish@.len() == 4,
            moved_fish.len() == 4,
            forall|j: int| i <= j < 4 ==> fish@[j] == moved_fish[j],
            forall|j: int| 0 <= j < i ==> fish@[j] == updated_piece(moved_fish[j], moved_boat),
        decreases 4 - i,
    {
        let mut f = fish[i];
        update_fish_state(&mut f, boat);
        fish[i] = f;
        i = i + 1;
    }
    assert(fish@ =~= refreshed(moved_boat, moved_fish));
    proof {
        lemma_turn_preserves(*old(boat), old(fish)@, face, strategy);
    }
}

/// The sum of every piece's distance to the sea: the trial's termination measure.
pub open spec fn total_positions(boat: Piece, fish: Seq<Piece>) -> int {
    boat.position + fish[0].position + fish[1].position + fish[2].position + fish[3].position
}

/// Every turn played before the win condition holds brings some piece exactly
/// one tile closer to the sea, so a trial ends after finitely many turns.
pub proof fn lemma_turn_decreases(boat: Piece, fish: Seq<Piece>, face: DieFace, strategy: Strategy)
    requires
        boat.position >= 1,
        fish_wf(fish),
        !win_condition(boat, fish),
    ensures
        ({
            let next = turn_spec(boat, fish, face, strategy);
            total_positions(next.0, next.1) == total_positions(boat, fish) - 1
        }),
{
    let moved = moved_state(boat, fish, face, strategy);
    lemma_chosen_index_props(strategy, fish);
    assert(refreshed(moved.0, moved.1)[0].position == moved.1[0].position);
    assert(refreshed(moved.0, moved.1)[1].position == moved.1[1].position);
    assert(refreshed(moved.0, moved.1)[2].position == moved.1[2].position);
    assert(refreshed(moved.0, moved.1)[3].position == moved.1[3].position);
}

/// The boat's starting piece: one boat tile past the last fish tile, plus the
/// two start squares.
pub open spec fn initial_boat(config: Config) -> Piece {
    Piece {
        position: (config.fish_tiles + config.boat_tiles + 2) as u16,
        status: Status::Active,
    }
}

/// The four fish at their shared starting square, all active.
pub open spec fn initial_fish(config: Config) -> Seq<Piece> {
    Seq::new(
        4,
        |i: int| Piece { position: (config.fish_tiles + 1) as u16, status: Status::Active },
    )
}

/// The state reached by playing the given die faces in order, stopping early
/// as soon as the win condition holds.
pub open spec fn replay(boat: Piece, fish: Seq<Piece>, faces: Seq<DieFace>, strategy: Strategy) -> (
    Piece,
    Seq<Piece>,
)
    decreases faces.len(),
{
    if faces.len() == 0 || win_condition(boat, fish) {
        (boat, fish)
    } else {
        let next = turn_spec(boat, fish, faces[0], strategy);
        replay(next.0, next.1, faces.subrange(1, faces.len() as int), strategy)
    }
}

/// Playing one more face either leaves a finished trial alone or plays one turn
/// after the faces before it.
pub proof fn lemma_replay_snoc(
    boat: Piece,
    fish: Seq<Piece>,
    faces: Seq<DieFace>,
    face: DieFace,
    strategy: Strategy,
)
    ensures
        ({
            let reached = replay(boat, fish, faces, strategy);
            replay(boat, fish, faces.push(face), strategy) == if win_condition(
                reached.0,
                reached.1,
            ) {
                reached
            } else {
                turn_spec(reached.0, reached.1, face, strategy)
            }
        }),
    decreases faces.len(),
{
    if faces.len() == 0 || win_condition(boat, fish) {
        assert(faces.push(face).len() == faces.len() + 1);
        if win_condition(boat, fish) {
            assert(replay(boat, fish, faces, strategy) == (boat, fish));
            assert(replay(boat, fish, faces.push(face), strategy) == (boat, fish));
        } else {
            let next = turn_spec(boat, fish, face, strategy);
            assert(faces.push(face)[0] == face);
            assert(faces.push(face).subrange(1, 1) =~= Seq::<DieFace>::empty());
            assert(replay(next.0, next.1, Seq::<DieFace>::empty(), strategy) == next);
            assert(replay(boat, fish, faces.push(face), strategy) == next);
        }
    } else {
        let next = turn_spec(boat, fish, faces[0], strategy);
        let rest = faces.subrange(1, faces.len() as int);
        assert(faces.push(face).len() == faces.len() + 1);
        assert(faces.push(face)[0] == faces[0]);
        assert(faces.push(face).subrange(1, faces.len() as int + 1) =~= rest.push(face));
        assert(replay(boat, fish, faces, strategy) == replay(next.0, next.1, rest, strategy));
        assert(replay(boat, fish, faces.push(face), strategy) == replay(
            next.0,
            next.1,
            rest.push(face),
            strategy,
        ));
        lemma_replay_snoc(next.0, next.1, rest, face, strategy);
    }
}

/// One turn keeps the fish array well formed, never raises a position, and
/// never returns a captured or free fish to the active state; a free fish is
/// frozen entirely.
pub proof fn lemma_turn_preserves(boat: Piece, fish: Seq<Piece>, face: DieFace, strategy: Strategy)
    requires
        boat.position >= 1,
        fish_wf(fish),
    ensures
        ({
            let next = turn_spec(boat, fish, face, strategy);
            &&& fish_wf(next.1)
            &&& next.0.position <= boat.position
            &&& next.0.status == boat.status
            &&& (forall|i: int| 0 <= i < 4 ==> (#[trigger] next.1[i]).position <= fish[i].position)
            &&& (forall|i: int|
                0 <= i < 4 && fish[i].status != Status::Active ==> (#[trigger] next.1[i]).status
                    != Status::Active)
            &&& (forall|i: int|
                0 <= i < 4 && fish[i].status == Status::Free ==> (#[trigger] next.1[i]) == fish[i])
            &&& (forall|i: int|
                0 <= i < 4 && fish[i].status == Status::Captured ==> (#[trigger] next.1[i]).status
                    == Status::Captured)
        }),
{
    let moved = moved_state(boat, fish, face, strategy);
    let next = turn_spec(boat, fish, face, strategy);
    lemma_chosen_index_props(strategy, fish);
    assert forall|i: int| 0 <= i < 4 implies (#[trigger] next.1[i]) == updated_piece(
        moved.1[i],
        moved.0,
    ) by {}
    assert forall|i: int| 0 <= i < 4 implies piece_wf(#[trigger] next.1[i]) by {
        assert(next.1[i] == updated_piece(moved.1[i], moved.0));
    }
    assert forall|i: int|
        0 <= i < 4 && fish[i].status == Status::Free implies (#[trigger] next.1[i]) == fish[i] by {
        assert(moved.1[i] == fish[i]);
        assert(fish[i].position == 0);
    }
}

/// Any sequence of played turns keeps the fish array well formed, never moves
/// any piece away from the sea, and never returns a fish to the active state:
/// once free it is frozen, once captured it stays captured.
pub proof fn lemma_trial_monotone(
    boat: Piece,
    fish: Seq<Piece>,
    faces: Seq<DieFace>,
    strategy: Strategy,
)
    requires
        fish_wf(fish),
    ensures
        ({
            let reached = replay(boat, fish, faces, strategy);
            &&& fish_wf(reached.1)
            &&& reached.0.position <= boat.position
            &&& reached.0.status == boat.status
            &&& (forall|i: int|
                0 <= i < 4 ==> (#[trigger] reached.1[i]).position <= fish[i].position)
            &&& (forall|i: int|
                0 <= i < 4 && fish[i].status != Status::Active ==> (#[trigger] reached.1[i]).status
                    != Status::Active)
            &&& (forall|i: int|
                0 <= i < 4 && fish[i].status == Status::Free ==> (#[trigger] reached.1[i])
                    == fish[i])
            &&& (forall|i: int|
                0 <= i < 4 && fish[i].status == Status::Captured ==> (#[trigger] reached.1[i]).status
                    == Status::Captured)
        }),
    decreases faces.len(),
{
    if faces.len() == 0 || win_condition(boat, fish) {
    } else {
        let next = turn_spec(boat, fish, faces[0], strategy);
        lemma_turn_preserves(boat, fish, faces[0], strategy);
        lemma_trial_monotone(
            next.0,
            next.1,
            faces.subrange(1, faces.len() as int),
            strategy,
        );
    }
}

/// The die face behind each of the six equally likely draw indices.
pub open spec fn spec_face_of_index(i: int) -> DieFace {
    if i == 0 {
        DieFace::Red
    } else if i == 1 {
        DieFace::Green
    } else if i == 2 {
        DieFace::Pink
    } else if i == 3 {
        DieFace::Orange
    } else if i == 4 {
        DieFace::Yellow
    } else {
        DieFace::Blue
    }
}

/// Relies on rand::rng and rand::RngExt::random_range: a draw from the thread's
/// generator, uniform over the nonempty range `0..6`, so always below 6.
#[verifier::external_body]
fn roll_index() -> (r: usize)
    ensures
        r < 6,
{
    let mut rng = rand::rng();
    rng.random_range(0..6)
}

/// Turn a draw index into its die face.
pub fn face_of_index(i: usize) -> (f: DieFace)
    requires
        i < 6,
    ensures
        f == spec_face_of_index(i as int),
{
    match i {
        0 => DieFace::Red,
        1 => DieFace::Green,
        2 => DieFace::Pink,
        3 => DieFace::Orange,
        4 => DieFace::Yellow,
        _ => DieFace::Blue,
    }
}

/// Draw one die face uniformly at random.
pub fn dice_roll() -> DieFace {
    face_of_index(roll_index())
}

/// Play one trial from the starting board to a terminal state, drawing a die
/// face each turn, and name the outcome category. The result is the winner of
/// a complete play of the game: some face sequence leads from the starting
/// board to a terminal state whose outcome it is.
pub fn run_game(config: &Config, strategy: Strategy) -> (r: Outcome)
    requires
        config.track_fits(),
    ensures
        exists|faces: Seq<DieFace>|
            {
                let reached = #[trigger] replay(
                    initial_boat(*config),
                    initial_fish(*config),
                    faces,
                    strategy,
                );
                win_condition(reached.0, reached.1) && fish_wf(reached.1) && r == winner_of(
                    reached.1,
                )
            },
{
    let start: u16 = config.fish_tiles + 1;
    let mut boat = Piece {
        position: config.fish_tiles + config.boat_tiles + 2,
        status: Status::Active,
    };
    let mut fish = [
        Piece { position: start, status: Status::Active },
        Piece { position: start, status: Status::Active },
        Piece { position: start, status: Status::Active },
        Piece { position: start, status: Status::Active },
    ];
    assert(fish@ =~= initial_fish(*config));
    let ghost mut drawn: Seq<DieFace> = Seq::empty();
    loop
        invariant
            config.track_fits(),
            fish_wf(fish@),
            replay(initial_boat(*config), initial_fish(*config), drawn, strategy) == (
                boat,
                fish@,
            ),
        ensures
            win_condition(boat, fish@),
            fish_wf(fish@),
            replay(initial_boat(*config), initial_fish(*config), drawn, strategy) == (
                boat,
                fish@,
            ),
        decreases total_positions(boat, fish@),
    {
        if check_win_condition(&boat, &fish) {
            break ;
        }
        let current_dice_roll = dice_roll();
        proof {
            lemma_turn_decreases(boat, fish@, current_dice_roll, strategy);
            lemma_replay_snoc(
                initial_boat(*config),
                initial_fish(*config),
                drawn,
                current_dice_roll,
                strategy,
            );
        }
        play_turn(&mut boat, &mut fish, current_dice_roll, strategy);
        proof {
            drawn = drawn.push(current_dice_roll);
        }
    }
    let winner = determine_winner(&fish);
    proof {
        let reached = replay(initial_boat(*config), initial_fish(*config), drawn, strategy);
        assert(win_condition(reached.0, reached.1) && fish_wf(reached.1) && winner == winner_of(
            reached.1,
        ));
    }
    winner
}

} // verus!
