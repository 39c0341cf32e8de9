use quiz_game::address::derive_bump;
use quiz_game::error::QuizError;
use quiz_game::reward::{calculate_bonus, EXPIRY_WINDOW, MINIMUM_STAKE};
use quiz_game::state::AccountId;

fn id_with_first(first: u8) -> AccountId {
    let mut bytes = [0u8; 32];
    bytes[0] = first;
    AccountId { bytes }
}

#[test]
fn constants_match_the_business_rules() {
    assert_eq!(MINIMUM_STAKE, 1_000_000);
    assert_eq!(EXPIRY_WINDOW, 3600);
}

#[test]
fn perfect_tier_bonus_exact_value() {
    // seed = 100 XOR 6 = 98, percent = 10 + 98 % 81 = 27
    assert_eq!(calculate_bonus(3, 1000, 100, 6), 270);
    // a higher count stays in the same tier
    assert_eq!(calculate_bonus(5, 1000, 100, 6), 270);
}

#[test]
fn good_tier_bonus_exact_value() {
    // seed = 98, percent = 5 + 98 % 21 = 19
    assert_eq!(calculate_bonus(2, 1000, 100, 6), 190);
}

#[test]
fn poor_tier_pays_no_bonus() {
    assert_eq!(calculate_bonus(1, 1000, 100, 6), 0);
    assert_eq!(calculate_bonus(0, 1_000_000, 40, 0), 0);
}

#[test]
fn bonus_rounds_down() {
    // seed = 0, percent for the good tier = 5; 5% of 199 is 9.95
    assert_eq!(calculate_bonus(2, 199, 0, 0), 9);
}

#[test]
fn bonus_percent_stays_in_tier_ranges() {
    for t in 0..5000i64 {
        let good = calculate_bonus(2, 100, t, 17);
        assert!(good >= 5 && good <= 25);
        let perfect = calculate_bonus(3, 100, t, 17);
        assert!(perfect >= 10 && perfect <= 90);
    }
}

#[test]
fn large_stake_does_not_overflow() {
    // percent = 10 + (3 XOR 1) % 81 = 12
    let stake = u64::MAX / 2;
    let bonus = calculate_bonus(3, stake, 3, 1);
    assert_eq!(bonus, (stake as u128 * 12 / 100) as u64);
}

#[test]
fn identity_equality_is_byte_for_byte() {
    let a = id_with_first(9);
    let b = id_with_first(9);
    assert!(a.equals(&b));
    let mut differing = [0u8; 32];
    differing[0] = 9;
    differing[31] = 1;
    let c = AccountId { bytes: differing };
    assert!(!a.equals(&c));
    assert_eq!(a.low_byte(), 9);
}

#[test]
fn bump_is_deterministic_fold() {
    let a = id_with_first(5);
    assert_eq!(derive_bump(&a), 5);
    let b = id_with_first(5);
    assert_eq!(derive_bump(&a), derive_bump(&b));
    let mut bytes = [0u8; 32];
    bytes[0] = 0b1100;
    bytes[1] = 0b1010;
    let c = AccountId { bytes };
    assert_eq!(derive_bump(&c), 0b0110);
}

#[test]
fn error_messages_name_the_cause() {
    assert_eq!(
        QuizError::InvalidAmount.message(),
        "Amount must be greater than 0"
    );
    assert_eq!(QuizError::EmptyQuizId.message(), "Quiz ID cannot be empty");
    assert_eq!(QuizError::UnauthorizedUser.message(), "Unauthorized user");
}
