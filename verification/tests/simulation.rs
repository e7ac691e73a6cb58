use little_fish::driver::{run_simulation, Counts};
use little_fish::engine::{
    check_win_condition, determine_winner, dice_roll, face_of_index, play_turn, run_game,
    update_fish_state,
};
use little_fish::pieces::{Color, Config, DieFace, Outcome, Piece, Status, Strategy};
use little_fish::strategy::{
    move_fish_farthest_from_sea, move_fish_nearest_sea, move_next_active_fish, update_by_strategy,
};

fn active(position: u16) -> Piece {
    Piece {
        position,
        status: Status::Active,
    }
}

fn free() -> Piece {
    Piece {
        position: 0,
        status: Status::Free,
    }
}

fn captured(position: u16) -> Piece {
    Piece {
        position,
        status: Status::Captured,
    }
}

#[test]
fn winner_for_each_escape_count() {
    // 0 or 1 escaped fish: the fishers win.
    let none_escaped = [active(3), active(2), captured(4), captured(5)];
    assert_eq!(determine_winner(&none_escaped), Outcome::FishersWin);
    let one_escaped = [free(), active(2), captured(4), active(1)];
    assert_eq!(determine_winner(&one_escaped), Outcome::FishersWin);
    // Exactly 2 escaped fish: a tie.
    let two_escaped = [free(), free(), captured(4), captured(5)];
    assert_eq!(determine_winner(&two_escaped), Outcome::Tie);
    // 3 or 4 escaped fish: the fish win.
    let three_escaped = [free(), free(), free(), captured(5)];
    assert_eq!(determine_winner(&three_escaped), Outcome::FishWin);
    let four_escaped = [free(), free(), free(), free()];
    assert_eq!(determine_winner(&four_escaped), Outcome::FishWin);
}

#[test]
fn win_condition_cases() {
    let boat_home = Piece {
        position: 0,
        status: Status::Active,
    };
    let still_out = Piece {
        position: 3,
        status: Status::Active,
    };
    let some_active = [active(1), active(2), free(), captured(4)];
    let none_active = [free(), free(), captured(4), captured(5)];
    assert!(check_win_condition(&boat_home, &some_active));
    assert!(check_win_condition(&still_out, &none_active));
    assert!(!check_win_condition(&still_out, &some_active));
}

#[test]
fn status_update_rules() {
    let boat = Piece {
        position: 3,
        status: Status::Active,
    };
    // A fish in the sea is free.
    let mut in_sea = active(0);
    update_fish_state(&mut in_sea, &boat);
    assert_eq!(in_sea.status, Status::Free);
    assert_eq!(in_sea.position, 0);
    // A fish level with or behind the boat is captured.
    let mut level = active(3);
    update_fish_state(&mut level, &boat);
    assert_eq!(level.status, Status::Captured);
    assert_eq!(level.position, 3);
    let mut behind = active(5);
    update_fish_state(&mut behind, &boat);
    assert_eq!(behind.status, Status::Captured);
    // A fish strictly ahead of the boat keeps its status.
    let mut ahead = active(2);
    update_fish_state(&mut ahead, &boat);
    assert_eq!(ahead.status, Status::Active);
    assert_eq!(ahead.position, 2);
}

#[test]
fn displacement_moves_farthest_fish() {
    // Blue is already free; a blue draw must move the farthest active fish:
    // orange, from 5 to 4, and nothing else.
    let mut fish = [
        Piece {
            position: 3,
            status: Status::Free,
        },
        active(5),
        active(2),
        active(4),
    ];
    update_by_strategy(&mut fish, Strategy::FarthestFromSea);
    assert_eq!(fish[0].position, 3);
    assert_eq!(fish[1].position, 4);
    assert_eq!(fish[2].position, 2);
    assert_eq!(fish[3].position, 4);
    assert_eq!(fish[0].status, Status::Free);
    assert_eq!(fish[1].status, Status::Active);
    assert_eq!(fish[2].status, Status::Active);
    assert_eq!(fish[3].status, Status::Active);
}

#[test]
fn farthest_tie_picks_last() {
    // Blue and pink share the greatest position; the later slot moves.
    let mut fish = [active(5), active(3), active(5), active(2)];
    move_fish_farthest_from_sea(&mut fish);
    assert_eq!(fish[0].position, 5);
    assert_eq!(fish[2].position, 4);
}

#[test]
fn nearest_sea_moves_closest_fish() {
    let mut fish = [active(3), active(5), active(2), active(4)];
    move_fish_nearest_sea(&mut fish);
    assert_eq!(fish[2].position, 1);
    assert_eq!(fish[0].position, 3);
    assert_eq!(fish[1].position, 5);
    assert_eq!(fish[3].position, 4);
}

#[test]
fn nearest_tie_picks_first() {
    // Orange and pink share the least position; the earlier slot moves.
    let mut fish = [active(3), active(2), active(2), active(4)];
    move_fish_nearest_sea(&mut fish);
    assert_eq!(fish[1].position, 1);
    assert_eq!(fish[2].position, 2);
}

#[test]
fn next_active_moves_first_active_fish() {
    let mut fish = [free(), captured(4), active(2), active(3)];
    move_next_active_fish(&mut fish);
    assert_eq!(fish[2].position, 1);
    assert_eq!(fish[3].position, 3);
    assert_eq!(fish[1].position, 4);
}

#[test]
fn displacement_without_active_fish_changes_nothing() {
    let mut fish = [free(), free(), captured(4), captured(5)];
    let before = fish;
    update_by_strategy(&mut fish, Strategy::FarthestFromSea);
    assert_eq!(fish, before);
    move_next_active_fish(&mut fish);
    assert_eq!(fish, before);
    move_fish_nearest_sea(&mut fish);
    assert_eq!(fish, before);
}

#[test]
fn boat_face_moves_only_the_boat() {
    let mut boat = Piece {
        position: 7,
        status: Status::Active,
    };
    let mut fish = [active(4), active(4), active(4), active(4)];
    play_turn(&mut boat, &mut fish, DieFace::Red, Strategy::FarthestFromSea);
    assert_eq!(boat.position, 6);
    for f in &fish {
        assert_eq!(f.position, 4);
        assert_eq!(f.status, Status::Active);
    }
    play_turn(
        &mut boat,
        &mut fish,
        DieFace::Green,
        Strategy::FarthestFromSea,
    );
    assert_eq!(boat.position, 5);
}

#[test]
fn fish_face_moves_that_fish() {
    let mut boat = Piece {
        position: 9,
        status: Status::Active,
    };
    let mut fish = [active(4), active(4), active(4), active(4)];
    play_turn(
        &mut boat,
        &mut fish,
        DieFace::Orange,
        Strategy::FarthestFromSea,
    );
    assert_eq!(boat.position, 9);
    assert_eq!(fish[1].position, 3);
    assert_eq!(fish[0].position, 4);
    assert_eq!(fish[2].position, 4);
    assert_eq!(fish[3].position, 4);
}

#[test]
fn captured_fish_donates_its_move_to_the_boat() {
    let mut boat = Piece {
        position: 3,
        status: Status::Active,
    };
    let mut fish = [captured(4), active(2), active(2), active(2)];
    play_turn(&mut boat, &mut fish, DieFace::Blue, Strategy::FarthestFromSea);
    assert_eq!(boat.position, 2);
    // The captured fish stays captured and never moves again.
    assert_eq!(fish[0].position, 4);
    assert_eq!(fish[0].status, Status::Captured);
    // The other fish are now level with the boat and captured.
    assert_eq!(fish[1].status, Status::Captured);
}

#[test]
fn statuses_stick_and_positions_never_increase() {
    let mut boat = Piece {
        position: 7,
        status: Status::Active,
    };
    let mut fish = [active(4), active(4), active(4), active(4)];
    let faces = [
        DieFace::Blue,
        DieFace::Red,
        DieFace::Blue,
        DieFace::Orange,
        DieFace::Green,
        DieFace::Blue,
        DieFace::Blue,
        DieFace::Red,
        DieFace::Yellow,
        DieFace::Green,
        DieFace::Pink,
        DieFace::Red,
        DieFace::Green,
        DieFace::Red,
    ];
    for face in faces {
        if check_win_condition(&boat, &fish) {
            break;
        }
        let boat_before = boat;
        let fish_before = fish;
        play_turn(&mut boat, &mut fish, face, Strategy::FarthestFromSea);
        assert!(boat.position <= boat_before.position);
        for i in 0..4 {
            assert!(fish[i].position <= fish_before[i].position);
            if fish_before[i].status != Status::Active {
                assert_ne!(fish[i].status, Status::Active);
            }
            if fish_before[i].status == Status::Free {
                assert_eq!(fish[i], fish_before[i]);
            }
        }
    }
}

#[test]
fn adjacent_start_scenario_frees_a_fish() {
    // fishTileCount == 0 and boatTileCount == 0: fish start at 1, boat at 2.
    // Drawing blue over and over frees a fish before the boat ever moves.
    let mut boat = Piece {
        position: 2,
        status: Status::Active,
    };
    let mut fish = [active(1), active(1), active(1), active(1)];
    let mut turns: u32 = 0;
    while !check_win_condition(&boat, &fish) {
        play_turn(&mut boat, &mut fish, DieFace::Blue, Strategy::FarthestFromSea);
        turns += 1;
        assert!(turns <= 20, "the trial must end within a generous bound");
    }
    let escaped = fish.iter().filter(|f| f.status == Status::Free).count();
    assert!(escaped >= 1);
    let outcome = determine_winner(&fish);
    assert!(matches!(
        outcome,
        Outcome::FishWin | Outcome::Tie | Outcome::FishersWin
    ));
}

#[test]
fn trial_from_smallest_board_terminates() {
    let config = Config {
        fish_tiles: 0,
        boat_tiles: 0,
        iterations: 1,
    };
    let outcome = run_game(&config, Strategy::FarthestFromSea);
    assert!(matches!(
        outcome,
        Outcome::FishWin | Outcome::Tie | Outcome::FishersWin
    ));
}

#[test]
fn tallies_sum_to_iteration_count() {
    let config = Config {
        fish_tiles: 2,
        boat_tiles: 2,
        iterations: 40,
    };
    let counts = run_simulation(&config, Strategy::FarthestFromSea);
    assert_eq!(counts.fish_win + counts.fishers_win + counts.tie, 40);
}

#[test]
fn tallies_sum_for_default_board() {
    let config = Config {
        fish_tiles: 5,
        boat_tiles: 5,
        iterations: 100,
    };
    let counts = run_simulation(&config, Strategy::NearestSea);
    assert_eq!(counts.fish_win + counts.fishers_win + counts.tie, 100);
}

#[test]
fn count_of_reads_each_tally() {
    let counts = Counts {
        fish_win: 3,
        fishers_win: 5,
        tie: 2,
    };
    assert_eq!(counts.count_of(Outcome::FishWin), 3);
    assert_eq!(counts.count_of(Outcome::FishersWin), 5);
    assert_eq!(counts.count_of(Outcome::Tie), 2);
}

#[test]
fn outcome_labels() {
    assert_eq!(Outcome::FishWin.label(), "fish");
    assert_eq!(Outcome::FishersWin.label(), "fishers");
    assert_eq!(Outcome::Tie.label(), "tie");
}

#[test]
fn die_face_table() {
    assert_eq!(face_of_index(0), DieFace::Red);
    assert_eq!(face_of_index(1), DieFace::Green);
    assert_eq!(face_of_index(2), DieFace::Pink);
    assert_eq!(face_of_index(3), DieFace::Orange);
    assert_eq!(face_of_index(4), DieFace::Yellow);
    assert_eq!(face_of_index(5), DieFace::Blue);
}

#[test]
fn faces_name_their_fish() {
    assert_eq!(DieFace::Red.fish_color(), None);
    assert_eq!(DieFace::Green.fish_color(), None);
    assert_eq!(DieFace::Blue.fish_color(), Some(Color::Blue));
    assert_eq!(DieFace::Orange.fish_color(), Some(Color::Orange));
    assert_eq!(DieFace::Pink.fish_color(), Some(Color::Pink));
    assert_eq!(DieFace::Yellow.fish_color(), Some(Color::Yellow));
    assert_eq!(Color::Blue.index(), 0);
    assert_eq!(Color::Orange.index(), 1);
    assert_eq!(Color::Pink.index(), 2);
    assert_eq!(Color::Yellow.index(), 3);
}

#[test]
fn dice_roll_yields_a_face() {
    for _ in 0..100 {
        let face = dice_roll();
        assert!(matches!(
            face,
            DieFace::Red
                | DieFace::Green
                | DieFace::Pink
                | DieFace::Orange
                | DieFace::Yellow
                | DieFace::Blue
        ));
    }
}

#[test]
fn zero_iterations_give_an_empty_tally() {
    let config = Config {
        fish_tiles: 5,
        boat_tiles: 5,
        iterations: 0,
    };
    let counts = run_simulation(&config, Strategy::FarthestFromSea);
    assert_eq!(counts.fish_win, 0);
    assert_eq!(counts.fishers_win, 0);
    assert_eq!(counts.tie, 0);
}

#[test]
fn largest_board_still_finishes() {
    // The boat starts on the last square a u16 position can hold.
    let config = Config {
        fish_tiles: u16::MAX - 2,
        boat_tiles: 0,
        iterations: 1,
    };
    let outcome = run_game(&config, Strategy::FarthestFromSea);
    assert!(matches!(
        outcome,
        Outcome::FishWin | Outcome::Tie | Outcome::FishersWin
    ));
}
