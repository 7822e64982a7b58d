use sanitizr::collection::validate_entries;
use sanitizr::{Decimal, FieldErrors, Validatable, Validate, Validator};
use std::collections::{HashMap, VecDeque};

fn whole(n: i64) -> Decimal {
    Decimal::from_i64(n)
}

#[test]
fn test_string_validation() {
    let validator = Validator::new().length(5, 10);
    assert!("hello".validate(&validator).is_ok());
    assert!("hi".validate(&validator).is_err());
}

#[test]
fn test_number_validation() {
    let validator = Validator::new().range(whole(0), whole(100));
    assert!(Decimal::new(500, 1).validate(&validator).is_ok());
    assert!(Decimal::new(-10, 1).validate(&validator).is_err());
}

struct User {
    username: String,
    age: u32,
}

impl Validate for User {
    fn validate(&self) -> Result<(), Vec<String>> {
        let mut errors = FieldErrors::new();
        errors.check(
            "username",
            self.username.validate(&Validator::new().length(5, 10)),
        );
        errors.check(
            "age",
            self.age.validate(&Validator::new().range(whole(18), whole(120))),
        );
        errors.finish()
    }
}

#[test]
fn test_struct_validation() {
    let user = User {
        username: "James".to_string(),
        age: 25,
    };
    let validator = Validator::new();
    assert!(Validate::validate(&user).is_ok());
    assert!(Validatable::validate(&user.username, &validator).is_ok());
}

#[test]
fn test_vec_length_validation() {
    let validator = Validator::new().length(2, 4);
    assert!(vec![1, 2, 3].validate(&validator).is_ok());
    assert!(vec![1].validate(&validator).is_err());
    assert!(vec![1, 2, 3, 4, 5].validate(&validator).is_err());
}

#[test]
fn test_vec_item_validation() {
    let validator = Validator::new().range(whole(0), whole(10));
    assert!(vec![1, 5, 9].validate(&validator).is_ok());
    assert!(vec![1, 5, 11].validate(&validator).is_err());
}

#[test]
fn test_hashmap_validation() {
    let mut map = HashMap::new();
    map.insert("key1".to_string(), 5);
    map.insert("key2".to_string(), 8);

    let validator = Validator::new()
        .length(1, 3)
        .pattern(r"^key\d$")
        .range(whole(0), whole(10));

    // The same rule set governs the map and every key and value in it:
    // "key1" has four characters, outside the length bound 1..=3.
    let entries: Vec<(String, i32)> = map.clone().into_iter().collect();
    let message = validate_entries(&entries, &validator).unwrap_err();
    assert!(message.contains("Invalid key of entry"));
    assert!(message.contains("Length must be between 1 and 3, but was 4"));

    let validator = Validator::new()
        .length(1, 4)
        .pattern(r"^key\d$")
        .range(whole(0), whole(10));
    assert!(validate_entries(&entries, &validator).is_ok());

    map.insert("invalid_key".to_string(), 15);
    let entries: Vec<(String, i32)> = map.clone().into_iter().collect();
    assert!(validate_entries(&entries, &validator).is_err());
}

#[test]
fn test_integer_range_validation() {
    let validator = Validator::new().range(whole(0), whole(100));
    assert!(50_i32.validate(&validator).is_ok());
    assert!((-1_i32).validate(&validator).is_err());
    assert!(101_i32.validate(&validator).is_err());
}

#[test]
fn test_float_range_validation() {
    let validator = Validator::new().range(Decimal::new(-15, 1), Decimal::new(15, 1));
    assert!(Decimal::new(5, 1).validate(&validator).is_ok());
    assert!(Decimal::new(-20, 1).validate(&validator).is_err());
    assert!(Decimal::new(20, 1).validate(&validator).is_err());
}

#[test]
fn test_unsigned_range_validation() {
    let validator = Validator::new().range(whole(10), whole(20));
    assert!(15_u32.validate(&validator).is_ok());
    assert!(5_u32.validate(&validator).is_err());
    assert!(25_u32.validate(&validator).is_err());
}

#[test]
fn test_string_length_validation() {
    let validator = Validator::new().length(5, 10);
    assert!("hello".validate(&validator).is_ok());
    assert!("hi".validate(&validator).is_err());
    assert!("hello world".validate(&validator).is_err());
}

#[test]
fn test_string_pattern_validation() {
    let validator = Validator::new().pattern(r"^\d{3}-\d{3}-\d{4}$");
    assert!("123-456-7890".validate(&validator).is_ok());
    assert!("123-45-67890".validate(&validator).is_err());
}

#[test]
fn test_string_combined_validation() {
    let validator = Validator::new().length(5, 15).pattern(r"^[a-zA-Z]+$");
    assert!("HelloWorld".validate(&validator).is_ok());
    assert!("Hi".validate(&validator).is_err());
    assert!("Hello123World".validate(&validator).is_err());
}
