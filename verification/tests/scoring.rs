use guess_number_game::game::score_guess;

#[test]
fn higher_wins_above_value() {
    // randomValue = 50, direction "higher", guess 60 -> won
    assert!(score_guess(&"higher".to_string(), 60, 50));
}

#[test]
fn higher_loses_below_value() {
    // randomValue = 50, direction "higher", guess 40 -> lost
    assert!(!score_guess(&"higher".to_string(), 40, 50));
}

#[test]
fn lower_wins_below_value() {
    // randomValue = 50, direction "lower", guess 40 -> won
    assert!(score_guess(&"lower".to_string(), 40, 50));
}

#[test]
fn equal_wins_on_exact_value() {
    // randomValue = 50, direction "equal", guess 50 -> won
    assert!(score_guess(&"equal".to_string(), 50, 50));
}

#[test]
fn equal_loses_off_by_one() {
    // randomValue = 50, direction "equal", guess 51 -> lost
    assert!(!score_guess(&"equal".to_string(), 51, 50));
}

#[test]
fn unrecognized_direction_loses() {
    assert!(!score_guess(&"sideways".to_string(), 50, 50));
    assert!(!score_guess(&"".to_string(), 50, 50));
    assert!(!score_guess(&"HIGHER".to_string(), 60, 50));
}

#[test]
fn higher_is_strict() {
    assert!(!score_guess(&"higher".to_string(), 50, 50));
    assert!(!score_guess(&"lower".to_string(), 50, 50));
}
