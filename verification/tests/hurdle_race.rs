use puzzle_bots::game_turn::{GameTurn, PlayerTurn};
use rand::Rng;

const RIGHT: &str = "RIGHT";
const UP: &str = "UP";
const DOWN: &str = "DOWN";
const LEFT: &str = "LEFT";
const TRACK1: &str = ".....#...#...#................";

fn race_at(my_pos: i32) -> GameTurn {
    let mut game_turn = GameTurn::default();
    game_turn.add_track(TRACK1.to_string());
    game_turn.add_player_details(PlayerTurn::new(my_pos, 0, 0));
    game_turn
}

#[test]
fn right_closest_hurdle() {
    let track = TRACK1.to_string();
    let my_pos: usize = 2;
    let mut h_pos: usize = 4;
    for i in my_pos + 1..(my_pos + 4) {
        if i < track.len() && track.get(i..i + 1).unwrap() == "#" {
            h_pos = i - my_pos;
            break;
        }
    }
    assert_eq!(h_pos, 3);
    assert_eq!(race_at(2).find_closest_hurdle(), h_pos);

    let my_pos: usize = 7;
    let mut h_pos: usize = 4;
    for i in my_pos + 1..(my_pos + 4) {
        if i < track.len() && track.get(i..i + 1).unwrap() == "#" {
            h_pos = i - my_pos;
            break;
        }
    }
    assert_eq!(h_pos, 2);
    assert_eq!(race_at(7).find_closest_hurdle(), h_pos);

    let track = TRACK1.to_string();
    let my_pos: usize = 11;
    let ahead_track = &track[my_pos + 1..];
    let h_pos = ahead_track
        .split_once('#')
        .map(|parts| parts.0.len() + my_pos + 1);
    assert_eq!(h_pos.unwrap(), 13);
    assert_eq!(race_at(11).find_closest_hurdle() + my_pos, 13);
}

#[test]
fn main_test_up() {
    let details = PlayerTurn::new(4, 0, 0);
    let track = TRACK1.to_string();
    let mut game_turn = GameTurn::default();
    game_turn.add_track(track);
    game_turn.add_player_details(details);
    println!("{:?}", game_turn.find_closest_hurdle());

    assert_eq!(game_turn.decide(), UP.to_string());

    let details = PlayerTurn::new(29, 0, 0);
    let track = TRACK1.to_string();
    let mut game_turn = GameTurn::default();
    game_turn.add_track(track);
    game_turn.add_player_details(details);

    println!("{:?}", game_turn.find_closest_hurdle());
    // at the last cell no hurdle is in sight, so the runner takes the longest move
    assert_eq!(game_turn.decide(), RIGHT.to_string());
}

#[test]
fn main_test_down() {
    let details = PlayerTurn::new(2, 0, 0);
    let track = TRACK1.to_string();
    let mut game_turn = GameTurn::default();
    game_turn.add_track(track);
    game_turn.add_player_details(details);
    println!("{:?}", game_turn.find_closest_hurdle());

    assert_eq!(game_turn.decide(), DOWN.to_string());
    println!("{}", game_turn.decide());
}

#[test]
fn main_test_left() {
    let details = PlayerTurn::new(3, 0, 0);
    let track = TRACK1.to_string();
    let mut game_turn = GameTurn::default();
    game_turn.add_track(track);
    game_turn.add_player_details(details);
    println!("{:?}", game_turn.find_closest_hurdle());

    assert_eq!(game_turn.decide(), LEFT.to_string());
}

#[test]
fn main_test_right() {
    let details = PlayerTurn::new(0, 0, 0);
    let track = TRACK1.to_string();
    let mut game_turn = GameTurn::default();
    game_turn.add_track(track);
    game_turn.add_player_details(details);

    println!("{:?}", game_turn.find_closest_hurdle());
    assert_eq!(game_turn.decide(), RIGHT.to_string());

    let details = PlayerTurn::new(14, 0, 0);
    let track = TRACK1.to_string();
    let mut game_turn = GameTurn::default();
    game_turn.add_track(track);
    game_turn.add_player_details(details);

    println!("{:?}", game_turn.find_closest_hurdle());
    assert_eq!(game_turn.decide(), RIGHT.to_string());
}

fn create_multiple_games(n: u32) -> Vec<GameTurn> {
    let track = TRACK1.to_string();
    let mut game_turns = Vec::new();
    let mut rng = rand::thread_rng();
    for i in 0..n {
        let mut game_turn = GameTurn::default();
        let a: i32 = rng.gen_range(0..5);
        let details = PlayerTurn::new(a, 0, 0);
        game_turn.add_track(track.clone());
        game_turn.set_run_id(i as u8);
        game_turn.add_player_details(details.clone());
        game_turns.push(game_turn);
    }
    game_turns
}

#[test]
fn safest_move_in_all_games() {
    let mut game_turns = create_multiple_games(3);
    println!("{:?}", game_turns.clone());
    let safest_move = GameTurn::safe_approach(&mut game_turns);
    println!("{:?}", safest_move);

    // whatever the positions are, the move is one of the four and nobody stumbles over it
    let played = puzzle_bots::moves::Move::parse(&safest_move).unwrap();
    assert_eq!(GameTurn::count_stumbles(&game_turns, played), 0);
    let nearest = game_turns.iter().map(|turn| turn.find_closest_hurdle()).min().unwrap();
    assert_eq!(safest_move, GameTurn::move_based_on_dist(nearest));
}

#[test]
fn decide_reads_one_byte_per_cell() {
    // a hurdle two cells ahead, then one that is out of sight
    let mut game_turn = GameTurn::default();
    game_turn.add_track("..#....#".to_string());
    game_turn.add_player_details(PlayerTurn::new(0, 0, 0));
    assert_eq!(game_turn.find_closest_hurdle(), 2);
    assert_eq!(game_turn.decide(), LEFT.to_string());

    game_turn.add_player_details(PlayerTurn::new(3, 0, 0));
    assert_eq!(game_turn.find_closest_hurdle(), 4);
}

#[test]
fn runner_before_the_track_sees_its_first_cells() {
    let mut game_turn = GameTurn::default();
    game_turn.add_track("#....".to_string());
    game_turn.add_player_details(PlayerTurn::new(-1, 0, 0));
    assert_eq!(game_turn.find_closest_hurdle(), 1);
    game_turn.add_player_details(PlayerTurn::new(-3, 0, 0));
    assert_eq!(game_turn.find_closest_hurdle(), 3);
    game_turn.add_player_details(PlayerTurn::new(-4, 0, 0));
    assert_eq!(game_turn.find_closest_hurdle(), 4);
    game_turn.add_player_details(PlayerTurn::new(i32::MIN, 0, 0));
    assert_eq!(game_turn.find_closest_hurdle(), 4);
    game_turn.add_player_details(PlayerTurn::new(i32::MAX, 0, 0));
    assert_eq!(game_turn.find_closest_hurdle(), 4);
}

#[test]
fn race_without_track_prefers_two_cells_and_remembers_nothing() {
    let mut game_turn = GameTurn::new(3, 1, PlayerTurn::new(7, 0, 2), Vec::new());
    assert_eq!(game_turn.find_closest_hurdle(), 4);
    assert_eq!(game_turn.decide(), DOWN.to_string());
    assert_eq!(game_turn.closest_hurdle, None);
    assert_eq!(game_turn.suitable_move, None);
    assert_eq!(game_turn.game_id, 3);
    assert_eq!(game_turn.run_id, 1);
    assert_eq!(game_turn.my_player, PlayerTurn::new(7, 0, 2));
}

#[test]
fn decide_remembers_distance_and_word() {
    let mut game_turn = race_at(2);
    assert_eq!(game_turn.closest_hurdle, None);
    assert_eq!(game_turn.decide(), DOWN.to_string());
    assert_eq!(game_turn.closest_hurdle, Some(3));
    assert_eq!(game_turn.suitable_move, Some(DOWN.to_string()));

    // what was looked up before is what the next decision goes by
    game_turn.add_player_details(PlayerTurn::new(4, 0, 0));
    assert_eq!(game_turn.find_closest_hurdle(), 1);
    assert_eq!(game_turn.decide(), DOWN.to_string());
    assert_eq!(game_turn.hurdle_in_sight(), 3);
}

#[test]
fn default_turn_is_empty() {
    let game_turn = GameTurn::default();
    assert_eq!(game_turn.game_id, 0);
    assert_eq!(game_turn.run_id, 0);
    assert_eq!(game_turn.track, None);
    assert_eq!(game_turn.closest_hurdle, None);
    assert_eq!(game_turn.my_player, PlayerTurn::default());
    assert_eq!(PlayerTurn::default(), PlayerTurn::new(0, 0, 0));
    assert!(game_turn.other_players.is_empty());
    assert_eq!(game_turn.suitable_move, None);
}

#[test]
fn words_and_values_of_moves() {
    assert_eq!(GameTurn::left(), LEFT);
    assert_eq!(GameTurn::right(), RIGHT);
    assert_eq!(GameTurn::up(), UP);
    assert_eq!(GameTurn::down(), DOWN);
    assert_eq!(GameTurn::nothing(), LEFT);

    assert_eq!(GameTurn::move_to_value(&LEFT.to_string()), 1);
    assert_eq!(GameTurn::move_to_value(&UP.to_string()), 2);
    assert_eq!(GameTurn::move_to_value(&DOWN.to_string()), 2);
    assert_eq!(GameTurn::move_to_value(&RIGHT.to_string()), 3);
    assert_eq!(GameTurn::move_to_value(&"NOTHING".to_string()), 99);
    assert_eq!(GameTurn::move_to_value(&"left".to_string()), 99);
    assert_eq!(GameTurn::move_to_value(&String::new()), 99);

    assert_eq!(GameTurn::value_to_move(1), LEFT);
    assert_eq!(GameTurn::value_to_move(2), DOWN);
    assert_eq!(GameTurn::value_to_move(3), RIGHT);
    assert_eq!(GameTurn::value_to_move(0), "NOTHING");
    assert_eq!(GameTurn::value_to_move(99), "NOTHING");

    assert_eq!(GameTurn::move_based_on_dist(0), RIGHT);
    assert_eq!(GameTurn::move_based_on_dist(1), UP);
    assert_eq!(GameTurn::move_based_on_dist(2), LEFT);
    assert_eq!(GameTurn::move_based_on_dist(3), DOWN);
    assert_eq!(GameTurn::move_based_on_dist(4), RIGHT);
    assert_eq!(GameTurn::move_based_on_dist(usize::MAX), RIGHT);
}

#[test]
fn aggressive_strategy_jumps_only_at_the_hurdle() {
    assert_eq!(GameTurn::aggressive_strategy(1), UP);
    assert_eq!(GameTurn::aggressive_strategy(0), RIGHT);
    assert_eq!(GameTurn::aggressive_strategy(2), RIGHT);
    assert_eq!(GameTurn::aggressive_strategy(3), RIGHT);
    assert_eq!(GameTurn::aggressive_strategy(4), RIGHT);
}
