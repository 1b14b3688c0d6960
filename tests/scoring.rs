use elo_rating::{Experience, GameResult};

#[test]
fn development_coefficients_are_exact() {
    assert_eq!(Experience::New.get_development_coefficient(), 40);
    assert_eq!(Experience::Intermediate.get_development_coefficient(), 20);
    assert_eq!(Experience::Expert.get_development_coefficient(), 10);
}

#[test]
fn development_coefficient_decreases_with_experience() {
    let new = Experience::New.get_development_coefficient();
    let intermediate = Experience::Intermediate.get_development_coefficient();
    let expert = Experience::Expert.get_development_coefficient();
    assert!(new > intermediate);
    assert!(intermediate > expert);
}

#[test]
fn half_points_are_exact() {
    assert_eq!(GameResult::Win.get_half_points(), 2);
    assert_eq!(GameResult::Draw.get_half_points(), 1);
    assert_eq!(GameResult::Loss.get_half_points(), 0);
}

#[test]
fn points_from_half_points() {
    assert_eq!(GameResult::Win.get_half_points() as f64 / 2.0, 1.0);
    assert_eq!(GameResult::Draw.get_half_points() as f64 / 2.0, 0.5);
    assert_eq!(GameResult::Loss.get_half_points() as f64 / 2.0, 0.0);
}

#[test]
fn classified_tier_gives_its_coefficient() {
    assert_eq!(
        Experience::get_experience(25, 1000, 2400).get_development_coefficient(),
        10
    );
    assert_eq!(
        Experience::get_experience(18, 50, 2299).get_development_coefficient(),
        20
    );
    assert_eq!(
        Experience::get_experience(17, 50, 2299).get_development_coefficient(),
        40
    );
}
