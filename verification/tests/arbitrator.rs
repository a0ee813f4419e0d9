use puzzle_bots::game_turn::{GameTurn, PlayerTurn};
use puzzle_bots::moves::Move;

const TRACK: &str = ".....#...#...#................";

fn race(my_pos: i32, rivals: &[(i32, i32)]) -> GameTurn {
    let mut others = Vec::new();
    for (id, (pos, stun)) in rivals.iter().enumerate() {
        others.push(PlayerTurn::new(*pos, *stun, id as i32 + 1));
    }
    let mut game_turn = GameTurn::new(0, 0, PlayerTurn::new(my_pos, 0, 0), others);
    game_turn.add_track(TRACK.to_string());
    game_turn
}

#[test]
fn move_that_stumbles_least_is_chosen() {
    // two runners stand right before a hurdle, one has a free run
    let mut game_turns = vec![race(4, &[]), race(8, &[]), race(0, &[])];
    assert_eq!(game_turns[0].preferred_move(), Move::Up);
    assert_eq!(game_turns[1].preferred_move(), Move::Up);
    assert_eq!(game_turns[2].preferred_move(), Move::Right);
    assert_eq!(GameTurn::count_stumbles(&game_turns, Move::Up), 0);
    assert_eq!(GameTurn::count_stumbles(&game_turns, Move::Right), 2);
    assert_eq!(GameTurn::choose_action(&game_turns), Move::Up);
    assert_eq!(GameTurn::safe_approach(&mut game_turns), "UP");

    // the order of the races does not matter
    let mut game_turns = vec![race(0, &[]), race(4, &[]), race(8, &[])];
    assert_eq!(GameTurn::safe_approach(&mut game_turns), "UP");
}

#[test]
fn of_two_safe_moves_the_longer_is_chosen() {
    // a race without a track asks for two cells, the other has a free run of three
    let mut game_turns = vec![GameTurn::default(), race(0, &[])];
    assert_eq!(game_turns[0].preferred_move(), Move::Down);
    assert_eq!(game_turns[1].preferred_move(), Move::Right);
    assert_eq!(GameTurn::count_stumbles(&game_turns, Move::Down), 0);
    assert_eq!(GameTurn::count_stumbles(&game_turns, Move::Right), 0);
    assert_eq!(Move::Down.steps(), 2);
    assert_eq!(Move::Right.steps(), 3);
    assert_eq!(GameTurn::choose_action(&game_turns), Move::Right);
    assert_eq!(GameTurn::safe_approach(&mut game_turns), "RIGHT");

    let mut game_turns = vec![race(0, &[]), GameTurn::default()];
    assert_eq!(GameTurn::safe_approach(&mut game_turns), "RIGHT");
}

#[test]
fn no_race_gives_the_shortest_move() {
    let mut game_turns: Vec<GameTurn> = Vec::new();
    assert_eq!(GameTurn::choose_action(&game_turns), Move::Left);
    assert_eq!(GameTurn::safe_approach(&mut game_turns), "LEFT");
    assert_eq!(GameTurn::safe_approach(&mut game_turns), GameTurn::nothing());
    assert!(game_turns.is_empty());
    assert_eq!(GameTurn::weakest_lane(&game_turns), 0);
    assert_eq!(GameTurn::count_stumbles(&game_turns, Move::Right), 0);
}

#[test]
fn distances_and_preferences_on_the_sample_track() {
    let mut game_turn = race(2, &[]);
    assert_eq!(game_turn.find_closest_hurdle(), 3);
    assert_eq!(game_turn.preferred_move(), Move::Down);
    assert_eq!(game_turn.decide(), "DOWN");

    let mut game_turn = race(4, &[]);
    assert_eq!(game_turn.find_closest_hurdle(), 1);
    assert_eq!(game_turn.preferred_move(), Move::Up);
    assert_eq!(game_turn.decide(), "UP");

    let mut game_turn = race(29, &[]);
    assert_eq!(game_turn.find_closest_hurdle(), 4);
    assert_eq!(game_turn.preferred_move(), Move::Right);
    assert_eq!(game_turn.decide(), "RIGHT");

    let expected: [usize; 30] = [
        4, 4, 3, 2, 1, 4, 3, 2, 1, 4, 3, 2, 1, 4, 4, 4, 4, 4, 4, 4, 4, 4, 4, 4, 4, 4, 4, 4, 4, 4,
    ];
    for (pos, distance) in expected.iter().enumerate() {
        assert_eq!(race(pos as i32, &[]).find_closest_hurdle(), *distance);
    }
}

#[test]
fn single_race_gets_its_own_preference() {
    for pos in 0..30 {
        let mut game_turns = vec![race(pos, &[])];
        let preferred = game_turns[0].preferred_move().name();
        assert_eq!(GameTurn::safe_approach(&mut game_turns), preferred);
    }
}

#[test]
fn safe_approach_leaves_every_race_decided() {
    let mut game_turns = vec![race(3, &[(1, 0)]), GameTurn::default(), race(6, &[])];
    game_turns[1].set_run_id(9);
    assert_eq!(GameTurn::safe_approach(&mut game_turns), "LEFT");
    assert_eq!(game_turns.len(), 3);
    assert_eq!(game_turns[0].closest_hurdle, Some(2));
    assert_eq!(game_turns[0].suitable_move, Some("LEFT".to_string()));
    assert_eq!(game_turns[0].other_players, vec![PlayerTurn::new(1, 0, 1)]);
    assert_eq!(game_turns[1].closest_hurdle, None);
    assert_eq!(game_turns[1].suitable_move, None);
    assert_eq!(game_turns[1].run_id, 9);
    assert_eq!(game_turns[2].closest_hurdle, Some(3));
    assert_eq!(game_turns[2].suitable_move, Some("DOWN".to_string()));
    assert_eq!(game_turns[2].track, Some(TRACK.to_string()));
    assert_eq!(game_turns[2].my_player, PlayerTurn::new(6, 0, 0));
}

#[test]
fn ground_moves_stumble_on_or_past_the_hurdle_and_jumps_never() {
    for (pos, distance) in [(4, 1usize), (3, 2), (2, 3), (1, 4)] {
        let game_turn = race(pos, &[]);
        assert_eq!(game_turn.hurdle_in_sight(), distance);
        assert_eq!(game_turn.stumbles_on(Move::Left), distance <= 1);
        assert_eq!(game_turn.stumbles_on(Move::Down), distance <= 2);
        assert_eq!(game_turn.stumbles_on(Move::Right), distance <= 3);
        assert!(!game_turn.stumbles_on(Move::Up));
    }
    let game_turn = GameTurn::default();
    for played in [Move::Left, Move::Up, Move::Down, Move::Right] {
        assert!(!game_turn.stumbles_on(played));
        for distance in 0..6usize {
            assert_eq!(played.trips_at(distance), played != Move::Up && played.steps() as usize >= distance);
        }
    }
}

#[test]
fn moves_have_words_and_steps() {
    for (played, word, steps) in
        [(Move::Left, "LEFT", 1u8), (Move::Up, "UP", 2), (Move::Down, "DOWN", 2), (Move::Right, "RIGHT", 3)]
    {
        assert_eq!(played.name(), word);
        assert_eq!(played.steps(), steps);
        assert_eq!(Move::parse(&word.to_string()), Some(played));
    }
    assert_eq!(Move::parse(&"NOTHING".to_string()), None);
    assert_eq!(Move::parse(&"Up".to_string()), None);
    assert_eq!(Move::choose_for(0), Move::Right);
    assert_eq!(Move::choose_for(1), Move::Up);
    assert_eq!(Move::choose_for(2), Move::Left);
    assert_eq!(Move::choose_for(3), Move::Down);
    assert_eq!(Move::choose_for(4), Move::Right);
    assert_eq!(Move::choose_for(77), Move::Right);
}

#[test]
fn ranking_goes_by_stumbles_then_advance_then_shield() {
    // fewer stumbles first, whatever the advance
    assert!(Move::Left.outranks(0, Move::Right, 1, Move::Up));
    assert!(!Move::Right.outranks(1, Move::Left, 0, Move::Up));
    // then the longer advance
    assert!(Move::Right.outranks(2, Move::Down, 2, Move::Down));
    assert!(!Move::Down.outranks(2, Move::Right, 2, Move::Down));
    assert!(Move::Up.outranks(0, Move::Left, 0, Move::Down));
    // then, between the two moves of two cells, the shield
    assert!(Move::Up.outranks(1, Move::Down, 1, Move::Up));
    assert!(!Move::Down.outranks(1, Move::Up, 1, Move::Up));
    assert!(Move::Down.outranks(1, Move::Up, 1, Move::Down));
    assert!(!Move::Up.outranks(1, Move::Down, 1, Move::Down));
    // a move does not outrank itself
    for played in [Move::Left, Move::Up, Move::Down, Move::Right] {
        assert!(!played.outranks(3, played, 3, played));
    }
}

#[test]
fn lead_is_measured_against_the_best_rival_less_its_stun() {
    assert_eq!(race(5, &[]).lead_over_rivals(), None);
    assert_eq!(race(5, &[(3, 0)]).lead_over_rivals(), Some(2));
    assert_eq!(race(5, &[(3, 0), (9, 0)]).lead_over_rivals(), Some(-4));
    assert_eq!(race(5, &[(9, 3), (3, 0)]).lead_over_rivals(), Some(-1));
    assert_eq!(race(5, &[(9, 3), (3, 0), (8, 1)]).lead_over_rivals(), Some(-2));
    assert_eq!(
        race(i32::MAX, &[(i32::MIN, i32::MAX)]).lead_over_rivals(),
        Some(3 * (i32::MAX as i64) + 1)
    );
    assert_eq!(
        race(i32::MIN, &[(i32::MAX, i32::MIN)]).lead_over_rivals(),
        Some(3 * (i32::MIN as i64) + 1)
    );
}

#[test]
fn weakest_lane_is_the_first_with_the_smallest_lead() {
    let game_turns = vec![race(5, &[(3, 0)]), race(5, &[(9, 0)]), race(1, &[(5, 0)]), race(0, &[])];
    assert_eq!(GameTurn::weakest_lane(&game_turns), 1);
    // a runner without rivals is never the weakest while another has some
    let game_turns = vec![race(0, &[]), race(9, &[(1, 0)]), race(0, &[])];
    assert_eq!(GameTurn::weakest_lane(&game_turns), 1);
    let game_turns = vec![race(0, &[]), race(3, &[])];
    assert_eq!(GameTurn::weakest_lane(&game_turns), 0);
    let game_turns = vec![race(4, &[(2, 0)]), race(7, &[(5, 0)])];
    assert_eq!(GameTurn::weakest_lane(&game_turns), 0);
}

#[test]
fn chosen_move_is_the_preference_of_the_race_nearest_to_a_hurdle() {
    for a in 0..14 {
        for b in 0..14 {
            for c in 0..14 {
                let mut game_turns = vec![race(a, &[]), race(b, &[]), race(c, &[])];
                let nearest = game_turns.iter().map(|turn| turn.find_closest_hurdle()).min().unwrap();
                let played = GameTurn::choose_action(&game_turns);
                let word = GameTurn::safe_approach(&mut game_turns);
                assert_eq!(word, played.name());
                // deciding has changed nothing that the choice goes by
                assert_eq!(GameTurn::choose_action(&game_turns), played);
                assert_eq!(word, GameTurn::move_based_on_dist(nearest));
                let played = Move::parse(&word).unwrap();
                assert_eq!(GameTurn::count_stumbles(&game_turns, played), 0);
            }
        }
    }
}

#[test]
fn stale_distance_can_make_every_move_stumble() {
    // a race that goes by a distance of zero stumbles over every ground move
    let mut stale = race(0, &[]);
    stale.closest_hurdle = Some(0);
    let mut game_turns = vec![stale, race(3, &[])];
    assert_eq!(game_turns[0].preferred_move(), Move::Right);
    assert_eq!(game_turns[1].preferred_move(), Move::Left);
    assert_eq!(GameTurn::count_stumbles(&game_turns, Move::Right), 2);
    assert_eq!(GameTurn::count_stumbles(&game_turns, Move::Left), 1);
    assert_eq!(GameTurn::safe_approach(&mut game_turns), "LEFT");
}

#[test]
fn progress_weighs_advance_stumbles_and_standing() {
    let game_turns = vec![race(4, &[(3, 0), (6, 0)]), race(0, &[(1, 0), (2, 0)])];
    assert_eq!(game_turns[0].lead_change_for(Move::Up), 4);
    assert_eq!(game_turns[1].lead_change_for(Move::Up), 3);
    assert_eq!(game_turns[0].lead_change_for(Move::Right), 1);
    assert_eq!(game_turns[1].lead_change_for(Move::Right), 3);
    assert_eq!(GameTurn::progress_of(&game_turns, Move::Up), 5);
    assert_eq!(GameTurn::progress_of(&game_turns, Move::Right), 3);
    assert_eq!(GameTurn::progress_of(&game_turns, Move::Left), 1 - 2 + 1);
    assert_eq!(GameTurn::progress_of(&game_turns, Move::Down), 2 - 2 + 2);

    let mut game_turns = game_turns;
    assert_eq!(GameTurn::progress_approach(&mut game_turns), "UP");
    assert_eq!(game_turns[0].suitable_move, Some("UP".to_string()));
    assert_eq!(game_turns[1].suitable_move, Some("RIGHT".to_string()));
    assert_eq!(game_turns[0].closest_hurdle, Some(1));
    assert_eq!(game_turns[1].closest_hurdle, Some(4));
}

#[test]
fn progress_rounds_the_mean_standing_toward_zero() {
    // one race of three has a track; its runner leads by five and a step costs it one
    let mut game_turns = vec![race(20, &[(15, 0), (2, 0)]), GameTurn::default(), GameTurn::default()];
    game_turns[0].closest_hurdle = Some(9);
    assert_eq!(game_turns[0].lead_change_for(Move::Right), -2);
    assert_eq!(GameTurn::progress_of(&game_turns, Move::Right), 3);
    let mut game_turns = vec![race(20, &[(15, 0), (2, 0)]), GameTurn::default()];
    game_turns[0].closest_hurdle = Some(9);
    assert_eq!(GameTurn::progress_of(&game_turns, Move::Right), 3 - 1);
    // two stumbles cost five cells, three cost seven
    let game_turns = vec![race(4, &[(0, 0), (0, 0)]), race(8, &[(0, 0), (0, 0)])];
    assert_eq!(game_turns[0].lead_change_for(Move::Left), 1 - 4);
    assert_eq!(game_turns[1].lead_change_for(Move::Left), 1 - 8);
    assert_eq!(GameTurn::progress_of(&game_turns, Move::Left), 1 - 5 - 5);
    let game_turns =
        vec![race(4, &[(0, 0), (0, 0)]), race(8, &[(0, 0), (0, 0)]), race(12, &[(0, 0), (0, 0)])];
    assert_eq!(game_turns[2].lead_change_for(Move::Left), 1 - 12);
    assert_eq!(GameTurn::progress_of(&game_turns, Move::Left), 1 - 7 - 7);
}

#[test]
fn progress_approach_prefers_the_earliest_of_equal_moves() {
    let mut game_turns = vec![GameTurn::default()];
    assert_eq!(GameTurn::progress_approach(&mut game_turns), "UP");
    assert_eq!(game_turns[0].suitable_move, None);
    let mut game_turns: Vec<GameTurn> = Vec::new();
    assert_eq!(GameTurn::progress_approach(&mut game_turns), "UP");

    // both moves promise two; the one of the first race is played
    let mut game_turns = vec![race(2, &[(0, 0), (0, 0)]), race(1, &[(0, 0), (0, 0)])];
    assert_eq!(GameTurn::progress_of(&game_turns, Move::Down), 2 - 0 + 0);
    assert_eq!(GameTurn::progress_of(&game_turns, Move::Right), 3 - 2 + 1);
    assert_eq!(GameTurn::progress_approach(&mut game_turns), "DOWN");
    let mut game_turns = vec![race(1, &[(0, 0), (0, 0)]), race(2, &[(0, 0), (0, 0)])];
    assert_eq!(GameTurn::progress_approach(&mut game_turns), "RIGHT");
}
