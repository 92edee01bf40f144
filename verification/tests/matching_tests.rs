use ddate_backend::errors::{ProfileError, ValidationField};
use ddate_backend::matcher::{find_matches, remove_matches};
use ddate_backend::profile::{UserProfileCreationInfo, UserProfileParams};
use ddate_backend::store::{Pagination, State, SwipeDirection};

fn empty_params() -> UserProfileParams {
    UserProfileParams {
        user_id: None,
        gender: None,
        email: None,
        name: None,
        mobile_number: None,
        dob: None,
        gender_pronouns: None,
        religion: None,
        height: None,
        zodiac: None,
        diet: None,
        occupation: None,
        looking_for: None,
        smoking: None,
        drinking: None,
        hobbies: None,
        sports: None,
        art_and_culture: None,
        pets: None,
        general_habits: None,
        outdoor_activities: None,
        travel: None,
        movies: None,
        interests_in: None,
        age: None,
        location: None,
        min_preferred_age: None,
        max_preferred_age: None,
        preferred_gender: None,
        preferred_location: None,
        introduction: None,
        images: None,
        likes: None,
        matches: None,
        notifications: None,
        matched_profiles: None,
        leftswipes: None,
        rightswipes: None,
    }
}

/// A profile whose preferences accept the others built the same way.
fn candidate(name: &str, age: u64) -> UserProfileCreationInfo {
    let mut p = empty_params();
    p.name = Some(name.to_string());
    p.email = Some(format!("{}@example.com", name));
    p.age = Some(age);
    p.min_preferred_age = Some(18);
    p.max_preferred_age = Some(60);
    p.location = Some("berlin".to_string());
    p.preferred_location = Some("berlin".to_string());
    p.gender = Some("f".to_string());
    p.preferred_gender = Some("f".to_string());
    UserProfileCreationInfo {
        user_id: String::new(),
        created_at: 0,
        creator_principal: "caller".to_string(),
        params: p,
        notifications: Vec::new(),
        matched_profiles: Vec::new(),
        status: true,
    }
}

fn store_with(names: &[&str]) -> State {
    let mut state = State::new();
    for name in names {
        assert!(state
            .create_account(name.to_string(), candidate(name, 30))
            .is_ok());
    }
    state
}

fn page1() -> Pagination {
    Pagination { page: 1, size: 10 }
}

#[test]
fn mutual_right_swipe_matches_both_ways() {
    let mut state = store_with(&["alice", "bob"]);
    assert!(state
        .record_swipe("alice".to_string(), "bob".to_string(), SwipeDirection::Right)
        .is_ok());
    assert!(state
        .record_swipe("bob".to_string(), "alice".to_string(), SwipeDirection::Right)
        .is_ok());
    let for_alice = find_matches(&state, &"alice".to_string(), page1()).unwrap();
    assert_eq!(for_alice.total_matches, 1);
    assert_eq!(for_alice.paginated_profiles[0].user_id, "bob");
    assert_eq!(for_alice.error_message, None);
    let for_bob = find_matches(&state, &"bob".to_string(), page1()).unwrap();
    assert_eq!(for_bob.total_matches, 1);
    assert_eq!(for_bob.paginated_profiles[0].user_id, "alice");
}

#[test]
fn one_sided_swipe_matches_nobody() {
    let mut state = store_with(&["alice", "bob"]);
    assert!(state
        .record_swipe("alice".to_string(), "bob".to_string(), SwipeDirection::Right)
        .is_ok());
    match find_matches(&state, &"alice".to_string(), page1()) {
        Err(e) => assert_eq!(e, ProfileError::OutOfRange),
        Ok(m) => panic!("one-sided swipe produced {} matches", m.total_matches),
    }
    match find_matches(&state, &"bob".to_string(), page1()) {
        Err(e) => assert_eq!(e, ProfileError::OutOfRange),
        Ok(m) => panic!("one-sided swipe produced {} matches", m.total_matches),
    }
}

#[test]
fn age_and_preference_filters_apply() {
    let mut state = store_with(&["alice"]);
    // bob is too old for alice's preferred range
    assert!(state
        .create_account("bob".to_string(), candidate("bob", 61))
        .is_ok());
    assert!(state
        .record_swipe("alice".to_string(), "bob".to_string(), SwipeDirection::Right)
        .is_ok());
    assert!(state
        .record_swipe("bob".to_string(), "alice".to_string(), SwipeDirection::Right)
        .is_ok());
    match find_matches(&state, &"alice".to_string(), page1()) {
        Err(e) => assert_eq!(e, ProfileError::OutOfRange),
        Ok(m) => panic!("out-of-range age matched {} profiles", m.total_matches),
    }
    // bob still matches from his own side: alice is inside his bounds
    let for_bob = find_matches(&state, &"bob".to_string(), page1()).unwrap();
    assert_eq!(for_bob.total_matches, 1);
}

#[test]
fn find_matches_errors() {
    let mut state = store_with(&["alice", "bob"]);
    match find_matches(&state, &"ghost".to_string(), page1()) {
        Err(e) => assert_eq!(e, ProfileError::NotFound),
        Ok(_) => panic!("missing seeker answered"),
    }
    match find_matches(&state, &"alice".to_string(), Pagination { page: 0, size: 5 }) {
        Err(e) => assert_eq!(e, ProfileError::Validation(ValidationField::Page)),
        Ok(_) => panic!("zero page accepted"),
    }
    match find_matches(&state, &"alice".to_string(), Pagination { page: 1, size: 0 }) {
        Err(e) => assert_eq!(e, ProfileError::Validation(ValidationField::Size)),
        Ok(_) => panic!("zero size accepted"),
    }
    assert!(state.set_user_inactive("alice".to_string()).is_ok());
    match find_matches(&state, &"alice".to_string(), page1()) {
        Err(e) => assert_eq!(e, ProfileError::Inactive),
        Ok(_) => panic!("inactive seeker answered"),
    }
}

#[test]
fn inactive_candidates_do_not_match() {
    let mut state = store_with(&["alice", "bob"]);
    assert!(state
        .record_swipe("alice".to_string(), "bob".to_string(), SwipeDirection::Right)
        .is_ok());
    assert!(state
        .record_swipe("bob".to_string(), "alice".to_string(), SwipeDirection::Right)
        .is_ok());
    assert!(state.set_user_inactive("bob".to_string()).is_ok());
    match find_matches(&state, &"alice".to_string(), page1()) {
        Err(e) => assert_eq!(e, ProfileError::OutOfRange),
        Ok(m) => panic!("inactive candidate matched {} profiles", m.total_matches),
    }
}

#[test]
fn match_pagination_pages_and_range() {
    let mut state = store_with(&["seeker", "c0", "c1", "c2"]);
    for c in ["c0", "c1", "c2"] {
        assert!(state
            .record_swipe("seeker".to_string(), c.to_string(), SwipeDirection::Right)
            .is_ok());
        assert!(state
            .record_swipe(c.to_string(), "seeker".to_string(), SwipeDirection::Right)
            .is_ok());
    }
    let p1 = find_matches(&state, &"seeker".to_string(), Pagination { page: 1, size: 2 }).unwrap();
    assert_eq!(p1.total_matches, 3);
    assert_eq!(p1.paginated_profiles.len(), 2);
    assert_eq!(p1.paginated_profiles[0].user_id, "c0");
    assert_eq!(p1.paginated_profiles[1].user_id, "c1");
    let p2 = find_matches(&state, &"seeker".to_string(), Pagination { page: 2, size: 2 }).unwrap();
    assert_eq!(p2.total_matches, 3);
    assert_eq!(p2.paginated_profiles.len(), 1);
    assert_eq!(p2.paginated_profiles[0].user_id, "c2");
    match find_matches(&state, &"seeker".to_string(), Pagination { page: 3, size: 2 }) {
        Err(e) => assert_eq!(e, ProfileError::OutOfRange),
        Ok(_) => panic!("page past the last match answered"),
    }
}

#[test]
fn remove_matches_clears_every_trace() {
    let mut state = store_with(&["alice", "bob", "carol", "dave"]);
    // mutual with bob, one-way toward carol, and dave unilaterally
    // right-swiped alice without reciprocation
    assert!(state
        .record_swipe("alice".to_string(), "bob".to_string(), SwipeDirection::Right)
        .is_ok());
    assert!(state
        .record_swipe("bob".to_string(), "alice".to_string(), SwipeDirection::Right)
        .is_ok());
    assert!(state
        .record_swipe("alice".to_string(), "carol".to_string(), SwipeDirection::Left)
        .is_ok());
    assert!(state
        .record_swipe("dave".to_string(), "alice".to_string(), SwipeDirection::Right)
        .is_ok());
    assert!(state
        .record_swipe("carol".to_string(), "alice".to_string(), SwipeDirection::Left)
        .is_ok());

    let r = remove_matches(&mut state, "alice".to_string());
    assert_eq!(r, Ok("alice".to_string()));

    for profile in &state.user_profiles {
        if let Some(left) = &profile.params.leftswipes {
            assert!(!left.contains(&"alice".to_string()));
        }
        if let Some(right) = &profile.params.rightswipes {
            assert!(!right.contains(&"alice".to_string()));
        }
    }
    let alice = state.get_account("alice".to_string()).unwrap();
    assert!(alice.matched_profiles.is_empty());
    assert_eq!(alice.params.leftswipes, Some(Vec::new()));
    assert_eq!(alice.params.rightswipes, Some(Vec::new()));
    // the others keep what does not involve alice
    let bob = state.get_account("bob".to_string()).unwrap();
    assert_eq!(bob.params.rightswipes, Some(Vec::new()));
    assert_eq!(bob.params.name, Some("bob".to_string()));
}

#[test]
fn remove_matches_errors() {
    let mut state = store_with(&["alice"]);
    assert_eq!(
        remove_matches(&mut state, "ghost".to_string()),
        Err(ProfileError::NotFound)
    );
    assert!(state.set_user_inactive("alice".to_string()).is_ok());
    assert_eq!(
        remove_matches(&mut state, "alice".to_string()),
        Err(ProfileError::Inactive)
    );
}

#[test]
fn zero_age_bounds_accept_zero_age() {
    // a zero preferred range accepts exactly a zero age
    let mut state = State::new();
    let mut a = candidate("alice", 0);
    a.params.min_preferred_age = Some(0);
    a.params.max_preferred_age = Some(0);
    let mut b = candidate("bob", 0);
    b.params.min_preferred_age = Some(0);
    b.params.max_preferred_age = Some(0);
    assert!(state.create_account("alice".to_string(), a).is_ok());
    assert!(state.create_account("bob".to_string(), b).is_ok());
    assert!(state
        .record_swipe("alice".to_string(), "bob".to_string(), SwipeDirection::Right)
        .is_ok());
    assert!(state
        .record_swipe("bob".to_string(), "alice".to_string(), SwipeDirection::Right)
        .is_ok());
    let m = find_matches(&state, &"alice".to_string(), page1()).unwrap();
    assert_eq!(m.total_matches, 1);
}
