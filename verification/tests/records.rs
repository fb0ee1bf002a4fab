use leetify::records::EXPECTED_PAIR;
use leetify::{deserialize_score, deserialize_team_scores, exactly_two, LengthMismatch, TeamScore};

fn team(team_number: u32, score: u32) -> TeamScore {
    TeamScore { team_number, score }
}

#[test]
fn score_of_two_numbers_keeps_their_order() {
    assert_eq!(deserialize_score(vec![13, 7]), Ok([13, 7]));
    assert_eq!(deserialize_score(vec![7, 13]), Ok([7, 13]));
    assert_eq!(deserialize_score(vec![0, u32::MAX]), Ok([0, u32::MAX]));
}

#[test]
fn score_of_another_length_is_a_mismatch() {
    assert_eq!(deserialize_score(vec![]), Err(LengthMismatch { found: 0 }));
    assert_eq!(deserialize_score(vec![13]), Err(LengthMismatch { found: 1 }));
    assert_eq!(deserialize_score(vec![13, 7, 1]), Err(LengthMismatch { found: 3 }));
    assert_eq!(deserialize_score(vec![1; 100]), Err(LengthMismatch { found: 100 }));
}

#[test]
fn team_scores_of_two_keep_their_order() {
    let scores = deserialize_team_scores(vec![team(2, 13), team(3, 9)]).unwrap();
    assert_eq!(scores[0].team_number, 2);
    assert_eq!(scores[0].score, 13);
    assert_eq!(scores[1].team_number, 3);
    assert_eq!(scores[1].score, 9);
}

#[test]
fn team_scores_of_another_length_are_a_mismatch() {
    assert_eq!(deserialize_team_scores(vec![]).unwrap_err(), LengthMismatch { found: 0 });
    assert_eq!(deserialize_team_scores(vec![team(2, 13)]).unwrap_err().found, 1);
    let three = vec![team(2, 13), team(3, 9), team(4, 1)];
    assert_eq!(deserialize_team_scores(three).unwrap_err().found, 3);
}

#[test]
fn exactly_two_works_on_any_item() {
    let pair = exactly_two(vec!["a".to_string(), "b".to_string()]).unwrap();
    assert_eq!(pair, ["a".to_string(), "b".to_string()]);
    let e = exactly_two(vec!["a".to_string()]).unwrap_err();
    assert_eq!(e.found, 1);
    let e = exactly_two(Vec::<u8>::new()).unwrap_err();
    assert_eq!(e.found, 0);
}

#[test]
fn decoded_json_arrays_meet_the_length_rule() {
    let two: Vec<u32> = serde_json::from_str("[16, 14]").unwrap();
    assert_eq!(deserialize_score(two), Ok([16, 14]));
    let three: Vec<u32> = serde_json::from_str("[16, 14, 2]").unwrap();
    assert_eq!(deserialize_score(three), Err(LengthMismatch { found: 3 }));
    let one: Vec<u32> = serde_json::from_str("[16]").unwrap();
    assert_eq!(deserialize_score(one), Err(LengthMismatch { found: 1 }));
    let none: Vec<u32> = serde_json::from_str("[]").unwrap();
    assert_eq!(deserialize_score(none), Err(LengthMismatch { found: 0 }));
}

#[test]
fn expectation_text() {
    assert_eq!(EXPECTED_PAIR, "exactly 2 elements");
}
