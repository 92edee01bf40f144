use sha2::Digest;

use ddate_backend::errors::{ProfileError, ValidationField};
use ddate_backend::profile::UserInputParams;
use ddate_backend::store::{create_an_account, State};

fn input(name: Option<&str>) -> UserInputParams {
    UserInputParams {
        gender: Some("f".to_string()),
        email: Some("alice@example.com".to_string()),
        name: name.map(|n| n.to_string()),
        mobile_number: None,
        dob: None,
        gender_pronouns: None,
        religion: None,
        height: None,
        zodiac: None,
        diet: None,
        occupation: None,
        looking_for: None,
        smoking: None,
        drinking: None,
        hobbies: None,
        sports: None,
        art_and_culture: None,
        pets: None,
        general_habits: None,
        outdoor_activities: None,
        travel: None,
        movies: None,
        interests_in: None,
        age: Some(30),
        location: Some("berlin".to_string()),
        min_preferred_age: Some(18),
        max_preferred_age: Some(99),
        preferred_gender: Some("f".to_string()),
        preferred_location: Some("berlin".to_string()),
        introduction: None,
        images: None,
    }
}

#[test]
fn account_id_is_hex_digest_of_seed() {
    let mut state = State::new();
    let seed: Vec<u8> = vec![1, 2, 3, 4];
    let expected = format!("{:x}", sha2::Sha256::digest(&seed));
    let id = create_an_account(&mut state, &seed, 7, "caller".to_string(), input(Some("alice")))
        .unwrap();
    assert_eq!(id, expected);
    let got = state.get_account(expected).unwrap();
    assert_eq!(got.created_at, 7);
    assert_eq!(got.creator_principal, "caller");
    assert_eq!(got.params.name, Some("alice".to_string()));
    assert!(got.status);
    assert!(got.notifications.is_empty());
    assert!(got.matched_profiles.is_empty());
    assert_eq!(got.params.rightswipes, None);
}

#[test]
fn same_seed_collides() {
    let mut state = State::new();
    let seed: Vec<u8> = vec![9, 9];
    assert!(
        create_an_account(&mut state, &seed, 1, "caller".to_string(), input(Some("alice")))
            .is_ok()
    );
    let again = create_an_account(&mut state, &seed, 2, "caller".to_string(), input(Some("bob")));
    assert_eq!(again, Err(ProfileError::AlreadyExists));
    assert_eq!(state.user_profiles.len(), 1);
}

#[test]
fn invalid_input_inserts_nothing() {
    let mut state = State::new();
    let seed: Vec<u8> = vec![5];
    let r = create_an_account(&mut state, &seed, 1, "caller".to_string(), input(None));
    assert_eq!(r, Err(ProfileError::Validation(ValidationField::Name)));
    assert_eq!(state.user_profiles.len(), 0);
}
