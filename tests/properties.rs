use sanitizr::collection::validate_entries;
use sanitizr::number::validate_number;
use sanitizr::string::{decide_text, validate_text};
use sanitizr::text::digits_text;
use sanitizr::{Decimal, FieldErrors, Validatable, Validate, Validator};
use std::collections::VecDeque;

fn whole(n: i64) -> Decimal {
    Decimal::from_i64(n)
}

struct Account {
    username: String,
    age: u32,
}

impl Validate for Account {
    fn validate(&self) -> Result<(), Vec<String>> {
        let mut errors = FieldErrors::new();
        errors.check(
            "username",
            self.username.validate(&Validator::new().length(5, 10)),
        );
        errors.check(
            "age",
            self.age.validate(&Validator::new().range(whole(18), whole(120))),
        );
        errors.finish()
    }
}

#[test]
fn length_bound_edges() {
    let validator = Validator::new().length(3, 5);
    assert!("abc".validate(&validator).is_ok());
    assert!("abcde".validate(&validator).is_ok());
    assert!("ab".validate(&validator).is_err());
    assert!("abcdef".validate(&validator).is_err());
    assert!(vec![1, 2, 3].validate(&validator).is_ok());
    assert!(vec![1, 2].validate(&validator).is_err());
    assert!(vec![1, 2, 3, 4, 5, 6].validate(&validator).is_err());
}

#[test]
fn length_counts_characters() {
    let validator = Validator::new().length(2, 2);
    assert!("\u{e9}\u{e8}".validate(&validator).is_ok());
}

#[test]
fn empty_string_and_empty_bound() {
    assert!("".validate(&Validator::new().length(0, 0)).is_ok());
    assert!("".validate(&Validator::new().length(1, 3)).is_err());
    assert!("a".validate(&Validator::new().length(3, 1)).is_err());
    let none: Vec<u8> = Vec::new();
    assert!(none.validate(&Validator::new().length(0, 2)).is_ok());
}

#[test]
fn numeric_bound_edges() {
    let validator = Validator::new().range(whole(-3), whole(7));
    assert!((-3_i8).validate(&validator).is_ok());
    assert!(7_i64.validate(&validator).is_ok());
    assert!((-4_i16).validate(&validator).is_err());
    assert!(8_isize.validate(&validator).is_err());
    assert!(0_usize.validate(&validator).is_ok());
    assert!(u64::MAX.validate(&validator).is_err());
    assert!(u64::MAX.validate(&Validator::new().range(whole(0), Decimal::from_u64(u64::MAX))).is_ok());
}

#[test]
fn fractional_bounds() {
    let validator = Validator::new().range(Decimal::new(-15, 1), Decimal::new(150, 2));
    assert!(Decimal::new(-15, 1).validate(&validator).is_ok());
    assert!(Decimal::new(15, 1).validate(&validator).is_ok());
    assert!(Decimal::new(1501, 3).validate(&validator).is_err());
    assert!(1_u8.validate(&validator).is_ok());
    assert!(2_u16.validate(&validator).is_err());
}

#[test]
fn number_message_cites_bounds_and_value() {
    let validator = Validator::new().range(Decimal::new(-15, 1), Decimal::new(15, 1));
    assert_eq!(
        Decimal::new(-205, 2).validate(&validator),
        Err("Value must be between -1.5 and 1.5, but was -2.05".to_string())
    );
    let validator = Validator::new().range(whole(0), whole(100));
    assert_eq!(
        validate_number(&whole(-1), &validator),
        Err("Value must be between 0 and 100, but was -1".to_string())
    );
}

#[test]
fn decimal_text_and_order() {
    assert_eq!(Decimal::new(-7, 3).to_text(), "-0.007");
    assert_eq!(Decimal::new(1200, 0).to_text(), "1200");
    assert_eq!(digits_text(0), "0");
    assert_eq!(digits_text(90210), "90210");
    assert!(Decimal::new(5, 1).le(&Decimal::new(50, 2)));
    assert!(Decimal::new(50, 2).le(&Decimal::new(5, 1)));
    assert!(!Decimal::new(6, 1).le(&Decimal::new(59, 2)));
}

#[test]
fn malformed_decimal_fails_a_numeric_bound() {
    let huge = Decimal { mantissa: i128::MAX, scale: 0 };
    assert!(huge.validate(&Validator::new()).is_ok());
    assert_eq!(
        huge.validate(&Validator::new().range(whole(0), whole(1))),
        Err("Value is not a well-formed decimal".to_string())
    );
}

#[test]
fn pattern_results() {
    let validator = Validator::new().pattern("b+");
    assert!("abba".validate(&validator).is_ok());
    assert_eq!(
        "aaa".validate(&validator),
        Err("Value does not match the pattern: b+".to_string())
    );
    let again = "aaa".validate(&validator);
    assert_eq!(again, "aaa".validate(&validator));
}

#[test]
fn invalid_pattern_is_a_failure() {
    let validator = Validator::new().pattern("foo(bar");
    assert_eq!(
        "foobar".validate(&validator),
        Err("Invalid regex pattern: foo(bar".to_string())
    );
    assert_eq!(
        validate_text("foobar", &validator),
        Err("Invalid regex pattern: foo(bar".to_string())
    );
}

#[test]
fn length_is_checked_before_pattern() {
    let validator = Validator::new().length(1, 2).pattern("foo(bar");
    assert_eq!(
        "abc".validate(&validator),
        Err("Length must be between 1 and 2, but was 3".to_string())
    );
}

#[test]
fn decide_text_on_each_verdict() {
    let validator = Validator::new().pattern("x");
    assert_eq!(decide_text("y", &validator, Some(true)), Ok(()));
    assert_eq!(
        decide_text("y", &validator, Some(false)),
        Err("Value does not match the pattern: x".to_string())
    );
    assert_eq!(
        decide_text("y", &validator, None),
        Err("Invalid regex pattern: x".to_string())
    );
    assert_eq!(decide_text("y", &Validator::new(), None), Ok(()));
}

#[test]
fn numbers_ignore_length_and_pattern() {
    let validator = Validator::new().length(10, 20).pattern("^x$");
    assert!(5_u32.validate(&validator).is_ok());
    assert!("x".validate(&Validator::new().range(whole(5), whole(6))).is_ok());
}

#[test]
fn container_fails_fast() {
    let validator = Validator::new().range(whole(0), whole(10));
    assert_eq!(
        vec![1, 50, 9, 70].validate(&validator),
        Err("Invalid item at index 1: Value must be between 0 and 10, but was 50".to_string())
    );
}

#[test]
fn container_length_before_items() {
    let validator = Validator::new().length(1, 2).range(whole(0), whole(10));
    assert_eq!(
        vec![50, 60, 70].validate(&validator),
        Err("Collection length must be between 1 and 2, but was 3".to_string())
    );
}

#[test]
fn nested_containers_share_the_rule_set() {
    let validator = Validator::new().length(1, 2);
    assert!(vec![vec![1], vec![2, 3]].validate(&validator).is_ok());
    assert_eq!(
        vec![vec![1], vec![2, 3, 4]].validate(&validator),
        Err("Invalid item at index 1: Collection length must be between 1 and 2, but was 3"
            .to_string())
    );
    let words = vec!["ab".to_string(), "abc".to_string()];
    assert_eq!(
        words.validate(&validator),
        Err("Invalid item at index 1: Length must be between 1 and 2, but was 3".to_string())
    );
}

#[test]
fn deque_items() {
    let mut deque = VecDeque::new();
    deque.push_back(3_i32);
    deque.push_front(12_i32);
    let validator = Validator::new().range(whole(0), whole(10));
    assert_eq!(
        deque.validate(&validator),
        Err("Invalid item at index 0: Value must be between 0 and 10, but was 12".to_string())
    );
    assert!(deque.validate(&Validator::new().length(3, 4)).is_err());
}

#[test]
fn map_checks_key_then_value() {
    let validator = Validator::new().pattern("^k").range(whole(0), whole(10));
    let entries = vec![("k1".to_string(), 1_u8), ("x".to_string(), 99_u8)];
    assert_eq!(
        validate_entries(&entries, &validator),
        Err("Invalid key of entry 1: Value does not match the pattern: ^k".to_string())
    );
    let entries = vec![("k1".to_string(), 1_u8), ("k2".to_string(), 99_u8)];
    assert_eq!(
        validate_entries(&entries, &validator),
        Err("Invalid value of entry 1: Value must be between 0 and 10, but was 99".to_string())
    );
    assert_eq!(
        validate_entries(&entries, &Validator::new().length(3, 3)),
        Err("HashMap length must be between 3 and 3, but was 2".to_string())
    );
}

#[test]
fn no_rule_passes_everything() {
    let validator = Validator::new();
    assert!("".validate(&validator).is_ok());
    assert!(i64::MIN.validate(&validator).is_ok());
    assert!(vec![vec!["anything".to_string()]].validate(&validator).is_ok());
    assert!(validate_entries(&[(1_u8, -1_i8)], &validator).is_ok());
}

#[test]
fn builder_last_write_wins() {
    let validator = Validator::new().length(1, 2).length(3, 4).pattern("a").pattern("b");
    assert_eq!(validator.length, Some((3, 4)));
    assert_eq!(validator.pattern, Some("b".to_string()));
    assert!(validator.range.is_none());
}

#[test]
fn example_string_length() {
    let validator = Validator::new().length(5, 10);
    assert!("hello".validate(&validator).is_ok());
    let message = "hi".validate(&validator).unwrap_err();
    assert_eq!(message, "Length must be between 5 and 10, but was 2");
}

#[test]
fn example_numeric_range() {
    let validator = Validator::new().range(Decimal::new(0, 1), Decimal::new(1000, 1));
    assert!(50_i32.validate(&validator).is_ok());
    assert!((-1_i32).validate(&validator).is_err());
}

#[test]
fn example_container_items() {
    let validator = Validator::new().range(whole(0), whole(10));
    assert!(vec![1, 5, 9].validate(&validator).is_ok());
    let message = vec![1, 5, 11].validate(&validator).unwrap_err();
    assert!(message.starts_with("Invalid item at index 2: "));
}

#[test]
fn example_structure_fields() {
    let good = Account { username: "James".to_string(), age: 25 };
    assert!(good.validate().is_ok());
    let bad = Account { username: "Jo".to_string(), age: 15 };
    assert_eq!(
        bad.validate(),
        Err(vec![
            "username: Length must be between 5 and 10, but was 2".to_string(),
            "age: Value must be between 18 and 120, but was 15".to_string(),
        ])
    );
}

#[test]
fn field_errors_keep_only_failures() {
    let mut errors = FieldErrors::new();
    errors.check("a", Ok(()));
    errors.check("b", Err("bad".to_string()));
    errors.check("c", Ok(()));
    assert_eq!(errors.finish(), Err(vec!["b: bad".to_string()]));
    assert_eq!(FieldErrors::new().finish(), Ok(()));
}

#[test]
fn widest_integers() {
    let validator = Validator::new().range(whole(0), whole(10));
    assert_eq!(
        u128::MAX.validate(&validator),
        Err("Value must be between 0 and 10, but was 340282366920938463463374607431768211455"
            .to_string())
    );
    assert_eq!(
        i128::MIN.validate(&validator),
        Err("Value must be between 0 and 10, but was -170141183460469231731687303715884105728"
            .to_string())
    );
    assert!(7_i128.validate(&validator).is_ok());
    assert!(10_u128.validate(&validator).is_ok());
    let wide = Validator::new().range(Decimal::from_i64(i64::MIN), Decimal::from_u64(u64::MAX));
    assert!(i64::MIN.validate(&wide).is_ok());
    assert!(u64::MAX.validate(&wide).is_ok());
    assert!((u64::MAX as u128 + 1).validate(&wide).is_err());
}

#[test]
fn whole_numbers_against_fractional_bounds() {
    let validator = Validator::new().range(Decimal::new(-5, 1), Decimal::new(25, 1));
    assert!(0_i32.validate(&validator).is_ok());
    assert!(2_i32.validate(&validator).is_ok());
    assert_eq!(
        (-1_i32).validate(&validator),
        Err("Value must be between -0.5 and 2.5, but was -1".to_string())
    );
    assert!(3_u8.validate(&validator).is_err());
}

#[test]
fn empty_map_below_length_bound() {
    let entries: Vec<(i32, i32)> = Vec::new();
    assert_eq!(
        validate_entries(&entries, &Validator::new().length(1, 3)),
        Err("HashMap length must be between 1 and 3, but was 0".to_string())
    );
}

#[test]
fn map_reports_only_first_failing_entry() {
    let validator = Validator::new().length(1, 5).range(whole(0), whole(10));
    let entries = vec![(1_u8, 2_u8), (20_u8, 3_u8), (4_u8, 40_u8)];
    assert_eq!(
        validate_entries(&entries, &validator),
        Err("Invalid key of entry 1: Value must be between 0 and 10, but was 20".to_string())
    );
}

#[test]
fn well_formed_rule_sets() {
    assert!(Validator::new().well_formed());
    assert!(Validator::new().range(whole(-1), Decimal::new(5, 18)).well_formed());
    let bad = Decimal { mantissa: 0, scale: 19 };
    assert!(!bad.well_formed());
    assert!(!Validator::new().range(whole(0), bad).well_formed());
}
