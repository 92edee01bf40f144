use ddate_backend::errors::{ProfileError, ValidationField};
use ddate_backend::profile::{UserInputParams, UserProfileCreationInfo, UserProfileParams};
use ddate_backend::store::{Pagination, State, SwipeDirection};

fn empty_patch() -> UserProfileParams {
    UserProfileParams {
        user_id: None,
        gender: None,
        email: None,
        name: None,
        mobile_number: None,
        dob: None,
        gender_pronouns: None,
        religion: None,
        height: None,
        zodiac: None,
        diet: None,
        occupation: None,
        looking_for: None,
        smoking: None,
        drinking: None,
        hobbies: None,
        sports: None,
        art_and_culture: None,
        pets: None,
        general_habits: None,
        outdoor_activities: None,
        travel: None,
        movies: None,
        interests_in: None,
        age: None,
        location: None,
        min_preferred_age: None,
        max_preferred_age: None,
        preferred_gender: None,
        preferred_location: None,
        introduction: None,
        images: None,
        likes: None,
        matches: None,
        notifications: None,
        matched_profiles: None,
        leftswipes: None,
        rightswipes: None,
    }
}

fn base_params(name: &str) -> UserProfileParams {
    let mut p = empty_patch();
    p.name = Some(name.to_string());
    p.email = Some(format!("{}@example.com", name));
    p.age = Some(30);
    p.min_preferred_age = Some(18);
    p.max_preferred_age = Some(99);
    p.location = Some("berlin".to_string());
    p.preferred_location = Some("berlin".to_string());
    p.gender = Some("f".to_string());
    p.preferred_gender = Some("f".to_string());
    p
}

fn record(name: &str) -> UserProfileCreationInfo {
    UserProfileCreationInfo {
        user_id: String::new(),
        created_at: 0,
        creator_principal: "caller".to_string(),
        params: base_params(name),
        notifications: Vec::new(),
        matched_profiles: Vec::new(),
        status: true,
    }
}

#[test]
fn create_and_get_roundtrip() {
    let mut state = State::new();
    let r = state.create_account("alice".to_string(), record("alice"));
    assert_eq!(r, Ok("alice".to_string()));
    let got = state.get_account("alice".to_string()).unwrap();
    assert_eq!(got.user_id, "alice");
    assert_eq!(got.params.name, Some("alice".to_string()));
    assert!(got.status);
}

#[test]
fn duplicate_id_rejected_store_keeps_first() {
    let mut state = State::new();
    assert!(state.create_account("alice".to_string(), record("alice")).is_ok());
    let second = state.create_account("alice".to_string(), record("mallory"));
    assert_eq!(second, Err(ProfileError::AlreadyExists));
    assert_eq!(state.user_profiles.len(), 1);
    let got = state.get_account("alice".to_string()).unwrap();
    assert_eq!(got.params.name, Some("alice".to_string()));
}

#[test]
fn create_missing_fields_each_named() {
    let cases: Vec<(ValidationField, Box<dyn Fn(&mut UserProfileParams)>)> = vec![
        (ValidationField::Name, Box::new(|p| p.name = None)),
        (ValidationField::Email, Box::new(|p| p.email = None)),
        (ValidationField::Age, Box::new(|p| p.age = None)),
        (ValidationField::MinPreferredAge, Box::new(|p| p.min_preferred_age = None)),
        (ValidationField::MaxPreferredAge, Box::new(|p| p.max_preferred_age = None)),
        (ValidationField::Location, Box::new(|p| p.location = None)),
        (ValidationField::PreferredLocation, Box::new(|p| p.preferred_location = None)),
        (ValidationField::Gender, Box::new(|p| p.gender = None)),
        (ValidationField::PreferredGender, Box::new(|p| p.preferred_gender = None)),
    ];
    for (field, strip) in cases {
        let mut state = State::new();
        let mut rec = record("alice");
        strip(&mut rec.params);
        let r = state.create_account("alice".to_string(), rec);
        assert_eq!(r, Err(ProfileError::Validation(field)));
        assert_eq!(state.user_profiles.len(), 0);
    }
}

#[test]
fn create_blank_name_rejected() {
    let mut state = State::new();
    let mut rec = record("alice");
    rec.params.name = Some("  \t\n ".to_string());
    let r = state.create_account("alice".to_string(), rec);
    assert_eq!(r, Err(ProfileError::Validation(ValidationField::Name)));
    assert_eq!(state.user_profiles.len(), 0);
}

#[test]
fn update_missing_and_inactive() {
    let mut state = State::new();
    assert_eq!(
        state.update_account("ghost".to_string(), empty_patch()),
        Err(ProfileError::NotFound)
    );
    assert!(state.create_account("alice".to_string(), record("alice")).is_ok());
    assert!(state.set_user_inactive("alice".to_string()).is_ok());
    assert_eq!(
        state.update_account("alice".to_string(), empty_patch()),
        Err(ProfileError::Inactive)
    );
}

#[test]
fn update_merges_only_present_fields() {
    let mut state = State::new();
    assert!(state.create_account("alice".to_string(), record("alice")).is_ok());
    let mut patch = empty_patch();
    patch.occupation = Some("engineer".to_string());
    patch.age = Some(31);
    assert_eq!(
        state.update_account("alice".to_string(), patch),
        Ok("alice".to_string())
    );
    let got = state.get_account("alice".to_string()).unwrap();
    assert_eq!(got.params.occupation, Some("engineer".to_string()));
    assert_eq!(got.params.age, Some(31));
    assert_eq!(got.params.name, Some("alice".to_string()));
    assert_eq!(got.params.email, Some("alice@example.com".to_string()));
    assert_eq!(got.params.location, Some("berlin".to_string()));
    assert_eq!(got.params.hobbies, None);
}

#[test]
fn delete_then_get_not_found() {
    let mut state = State::new();
    assert!(state.create_account("alice".to_string(), record("alice")).is_ok());
    assert_eq!(state.delete_account("alice".to_string()), Ok("alice".to_string()));
    match state.get_account("alice".to_string()) {
        Err(e) => assert_eq!(e, ProfileError::NotFound),
        Ok(_) => panic!("deleted profile still readable"),
    }
    assert!(state.create_account("alice".to_string(), record("alice")).is_ok());
}

#[test]
fn delete_missing_and_inactive() {
    let mut state = State::new();
    assert_eq!(state.delete_account("ghost".to_string()), Err(ProfileError::NotFound));
    assert!(state.create_account("alice".to_string(), record("alice")).is_ok());
    assert!(state.set_user_inactive("alice".to_string()).is_ok());
    assert_eq!(state.delete_account("alice".to_string()), Err(ProfileError::Inactive));
}

#[test]
fn inactive_key_blocks_get_and_create() {
    let mut state = State::new();
    assert!(state.create_account("alice".to_string(), record("alice")).is_ok());
    assert_eq!(state.set_user_inactive("alice".to_string()), Ok("alice".to_string()));
    match state.get_account("alice".to_string()) {
        Err(e) => assert_eq!(e, ProfileError::Inactive),
        Ok(_) => panic!("inactive profile still readable"),
    }
    let r = state.create_account("alice".to_string(), record("alice"));
    assert_eq!(r, Err(ProfileError::AlreadyExists));
    // deactivating again still succeeds and changes nothing
    assert_eq!(state.set_user_inactive("alice".to_string()), Ok("alice".to_string()));
    assert_eq!(state.set_user_inactive("ghost".to_string()), Err(ProfileError::NotFound));
}

#[test]
fn pagination_seven_records_pages_of_three() {
    let mut state = State::new();
    for i in 0..7 {
        let id = format!("user{}", i);
        assert!(state.create_account(id.clone(), record(&id)).is_ok());
    }
    let page1 = state
        .get_all_accounts(Pagination { page: 1, size: 3 })
        .unwrap();
    assert_eq!(page1.total_profiles, 7);
    assert_eq!(page1.profiles.len(), 3);
    assert_eq!(page1.profiles[0].user_id, "user0");
    let page3 = state
        .get_all_accounts(Pagination { page: 3, size: 3 })
        .unwrap();
    assert_eq!(page3.total_profiles, 7);
    assert_eq!(page3.profiles.len(), 1);
    assert_eq!(page3.profiles[0].user_id, "user6");
    let page4 = state.get_all_accounts(Pagination { page: 4, size: 3 });
    match page4 {
        Err(e) => assert_eq!(e, ProfileError::OutOfRange),
        Ok(_) => panic!("page past the end answered"),
    }
}

#[test]
fn pagination_rejects_zero_page_and_size() {
    let mut state = State::new();
    assert!(state.create_account("alice".to_string(), record("alice")).is_ok());
    match state.get_all_accounts(Pagination { page: 0, size: 3 }) {
        Err(e) => assert_eq!(e, ProfileError::Validation(ValidationField::Page)),
        Ok(_) => panic!("zero page accepted"),
    }
    match state.get_all_accounts(Pagination { page: 1, size: 0 }) {
        Err(e) => assert_eq!(e, ProfileError::Validation(ValidationField::Size)),
        Ok(_) => panic!("zero size accepted"),
    }
}

#[test]
fn listing_skips_inactive_records() {
    let mut state = State::new();
    assert!(state.create_account("alice".to_string(), record("alice")).is_ok());
    assert!(state.create_account("bob".to_string(), record("bob")).is_ok());
    assert!(state.set_user_inactive("alice".to_string()).is_ok());
    let page = state
        .get_all_accounts(Pagination { page: 1, size: 10 })
        .unwrap();
    assert_eq!(page.total_profiles, 1);
    assert_eq!(page.profiles[0].user_id, "bob");
}

#[test]
fn record_swipe_is_idempotent() {
    let mut state = State::new();
    assert!(state.create_account("alice".to_string(), record("alice")).is_ok());
    assert!(state.create_account("bob".to_string(), record("bob")).is_ok());
    let first = state.record_swipe("alice".to_string(), "bob".to_string(), SwipeDirection::Right);
    assert_eq!(first, Ok("alice".to_string()));
    let second = state.record_swipe("alice".to_string(), "bob".to_string(), SwipeDirection::Right);
    assert_eq!(second, Ok("alice".to_string()));
    let got = state.get_account("alice".to_string()).unwrap();
    let rights = got.params.rightswipes.unwrap();
    assert_eq!(rights, vec!["bob".to_string()]);
}

#[test]
fn record_swipe_left_and_errors() {
    let mut state = State::new();
    assert!(state.create_account("alice".to_string(), record("alice")).is_ok());
    assert!(state.create_account("bob".to_string(), record("bob")).is_ok());
    let r = state.record_swipe("alice".to_string(), "bob".to_string(), SwipeDirection::Left);
    assert_eq!(r, Ok("alice".to_string()));
    let got = state.get_account("alice".to_string()).unwrap();
    assert_eq!(got.params.leftswipes.unwrap(), vec!["bob".to_string()]);
    assert_eq!(got.params.rightswipes, None);
    // a profile may not swipe on itself
    assert_eq!(
        state.record_swipe("alice".to_string(), "alice".to_string(), SwipeDirection::Right),
        Err(ProfileError::Validation(ValidationField::SwipeTarget))
    );
    // both parties must exist and be active
    assert_eq!(
        state.record_swipe("ghost".to_string(), "bob".to_string(), SwipeDirection::Right),
        Err(ProfileError::NotFound)
    );
    assert_eq!(
        state.record_swipe("alice".to_string(), "ghost".to_string(), SwipeDirection::Right),
        Err(ProfileError::NotFound)
    );
    assert!(state.set_user_inactive("bob".to_string()).is_ok());
    assert_eq!(
        state.record_swipe("alice".to_string(), "bob".to_string(), SwipeDirection::Right),
        Err(ProfileError::Inactive)
    );
    assert_eq!(
        state.record_swipe("bob".to_string(), "alice".to_string(), SwipeDirection::Right),
        Err(ProfileError::Inactive)
    );
}

#[test]
fn merge_replaces_sequences_whole() {
    let mut base = base_params("alice");
    base.hobbies = Some(vec!["chess".to_string(), "running".to_string()]);
    let mut patch = empty_patch();
    patch.hobbies = Some(vec!["painting".to_string()]);
    base.merge(patch);
    assert_eq!(base.hobbies, Some(vec!["painting".to_string()]));
    assert_eq!(base.name, Some("alice".to_string()));
}

#[test]
fn conversion_from_input_leaves_relationships_unset() {
    let input = UserInputParams {
        gender: Some("f".to_string()),
        email: Some("alice@example.com".to_string()),
        name: Some("alice".to_string()),
        mobile_number: None,
        dob: None,
        gender_pronouns: None,
        religion: None,
        height: None,
        zodiac: None,
        diet: None,
        occupation: None,
        looking_for: None,
        smoking: None,
        drinking: None,
        hobbies: Some(vec!["chess".to_string()]),
        sports: None,
        art_and_culture: None,
        pets: None,
        general_habits: None,
        outdoor_activities: None,
        travel: None,
        movies: None,
        interests_in: None,
        age: Some(30),
        location: Some("berlin".to_string()),
        min_preferred_age: Some(18),
        max_preferred_age: Some(99),
        preferred_gender: Some("f".to_string()),
        preferred_location: Some("berlin".to_string()),
        introduction: None,
        images: None,
    };
    let params = UserProfileParams::from(input);
    assert_eq!(params.name, Some("alice".to_string()));
    assert_eq!(params.hobbies, Some(vec!["chess".to_string()]));
    assert_eq!(params.user_id, None);
    assert_eq!(params.likes, None);
    assert_eq!(params.leftswipes, None);
    assert_eq!(params.rightswipes, None);
    assert_eq!(params.matched_profiles, None);
}

#[test]
fn error_messages_name_the_condition() {
    assert_eq!(ProfileError::NotFound.message(), "Profile not found");
    assert_eq!(ProfileError::Inactive.message(), "Account is inactive");
    assert_eq!(ProfileError::AlreadyExists.message(), "User profile already exists");
    assert_eq!(ProfileError::OutOfRange.message(), "Page number out of range");
    assert_eq!(
        ProfileError::Validation(ValidationField::Name).message(),
        "Name is required"
    );
    assert_eq!(
        ProfileError::Validation(ValidationField::MinPreferredAge).message(),
        "Minimum preferred age is required"
    );
}
