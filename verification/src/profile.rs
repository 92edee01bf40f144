//! The profile entity schema: attribute parameters, the stored record,
//! notifications, and the field-wise merge used by partial updates.
//!
//! Every attribute field is independently optional so that a patch can
//! update any subset of them; required-at-creation fields are validated
//! once by the store, not enforced as non-null thereafter.

use vstd::prelude::*;

verus! {

/// A relationship event queued on a profile.
#[derive(Clone, Copy, Debug, PartialEq, Eq, Structural)]
pub enum NotificationType {
    Like,
}

/// An entry of a profile's notification queue; append-only from the
/// store's perspective.
#[derive(Debug)]
pub struct Notification {
    pub sender_id: String,
    pub receiver_id: String,
    pub notification_type: NotificationType,
}

/// The mathematical value of a `Notification`.
pub ghost struct NotificationView {
    pub sender_id: Seq<char>,
    pub receiver_id: Seq<char>,
    pub notification_type: NotificationType,
}

impl View for Notification {
    type V = NotificationView;

    open spec fn view(&self) -> NotificationView {
        NotificationView {
            sender_id: self.sender_id@,
            receiver_id: self.receiver_id@,
            notification_type: self.notification_type,
        }
    }
}

impl DeepView for Notification {
    type V = NotificationView;

    open spec fn deep_view(&self) -> NotificationView {
        self.view()
    }
}

impl Clone for Notification {
    fn clone(&self) -> (r: Self)
        ensures
            r == *self,
    {
        Notification {
            sender_id: self.sender_id.clone(),
            receiver_id: self.receiver_id.clone(),
            notification_type: self.notification_type,
        }
    }
}

/// The attribute fields a caller may supply when creating or patching a
/// profile. Relationship state can never be smuggled in through this type.
#[derive(Debug)]
pub struct UserInputParams {
    pub gender: Option<String>,
    pub email: Option<String>,
    pub name: Option<String>,
    pub mobile_number: Option<String>,
    pub dob: Option<String>,
    pub gender_pronouns: Option<String>,
    pub religion: Option<String>,
    pub height: Option<String>,
    pub zodiac: Option<String>,
    pub diet: Option<String>,
    pub occupation: Option<String>,
    pub looking_for: Option<String>,
    pub smoking: Option<String>,
    pub drinking: Option<String>,
    pub hobbies: Option<Vec<String>>,
    pub sports: Option<Vec<String>>,
    pub art_and_culture: Option<Vec<String>>,
    pub pets: Option<String>,
    pub general_habits: Option<Vec<String>>,
    pub outdoor_activities: Option<Vec<String>>,
    pub travel: Option<Vec<String>>,
    pub movies: Option<Vec<String>>,
    pub interests_in: Option<String>,
    pub age: Option<u64>,
    pub location: Option<String>,
    pub min_preferred_age: Option<u64>,
    pub max_preferred_age: Option<u64>,
    pub preferred_gender: Option<String>,
    pub preferred_location: Option<String>,
    pub introduction: Option<String>,
    pub images: Option<Vec<String>>,
}

/// A profile's optional-valued fields, attributes and relationship state
/// alike. The swipe sets are kept as duplicate-free vectors of user ids.
#[derive(Debug)]
pub struct UserProfileParams {
    pub user_id: Option<String>,
    pub gender: Option<String>,
    pub email: Option<String>,
    pub name: Option<String>,
    pub mobile_number: Option<String>,
    pub dob: Option<String>,
    pub gender_pronouns: Option<String>,
    pub religion: Option<String>,
    pub height: Option<String>,
    pub zodiac: Option<String>,
    pub diet: Option<String>,
    pub occupation: Option<String>,
    pub looking_for: Option<String>,
    pub smoking: Option<String>,
    pub drinking: Option<String>,
    pub hobbies: Option<Vec<String>>,
    pub sports: Option<Vec<String>>,
    pub art_and_culture: Option<Vec<String>>,
    pub pets: Option<String>,
    pub general_habits: Option<Vec<String>>,
    pub outdoor_activities: Option<Vec<String>>,
    pub travel: Option<Vec<String>>,
    pub movies: Option<Vec<String>>,
    pub interests_in: Option<String>,
    pub age: Option<u64>,
    pub location: Option<String>,
    pub min_preferred_age: Option<u64>,
    pub max_preferred_age: Option<u64>,
    pub preferred_gender: Option<String>,
    pub preferred_location: Option<String>,
    pub introduction: Option<String>,
    pub images: Option<Vec<String>>,
    pub likes: Option<Vec<String>>,
    pub matches: Option<Vec<String>>,
    pub notifications: Option<Vec<Notification>>,
    pub matched_profiles: Option<Vec<String>>,
    pub leftswipes: Option<Vec<String>>,
    pub rightswipes: Option<Vec<String>>,
}

/// The stored entity: immutable identity fields, the optional attribute
/// and relationship parameters, a notification queue, the resolved-match
/// list, and the active/soft-deleted flag.
#[derive(Debug)]
pub struct UserProfileCreationInfo {
    pub user_id: String,
    pub created_at: u64,
    pub creator_principal: String,
    pub params: UserProfileParams,
    pub notifications: Vec<Notification>,
    pub matched_profiles: Vec<String>,
    pub status: bool,
}

/// The mathematical value of a `UserProfileParams`.
pub ghost struct ParamsView {
    pub user_id: Option<Seq<char>>,
    pub gender: Option<Seq<char>>,
    pub email: Option<Seq<char>>,
    pub name: Option<Seq<char>>,
    pub mobile_number: Option<Seq<char>>,
    pub dob: Option<Seq<char>>,
    pub gender_pronouns: Option<Seq<char>>,
    pub religion: Option<Seq<char>>,
    pub height: Option<Seq<char>>,
    pub zodiac: Option<Seq<char>>,
    pub diet: Option<Seq<char>>,
    pub occupation: Option<Seq<char>>,
    pub looking_for: Option<Seq<char>>,
    pub smoking: Option<Seq<char>>,
    pub drinking: Option<Seq<char>>,
    pub hobbies: Option<Seq<Seq<char>>>,
    pub sports: Option<Seq<Seq<char>>>,
    pub art_and_culture: Option<Seq<Seq<char>>>,
    pub pets: Option<Seq<char>>,
    pub general_habits: Option<Seq<Seq<char>>>,
    pub outdoor_activities: Option<Seq<Seq<char>>>,
    pub travel: Option<Seq<Seq<char>>>,
    pub movies: Option<Seq<Seq<char>>>,
    pub interests_in: Option<Seq<char>>,
    pub age: Option<u64>,
    pub location: Option<Seq<char>>,
    pub min_preferred_age: Option<u64>,
    pub max_preferred_age: Option<u64>,
    pub preferred_gender: Option<Seq<char>>,
    pub preferred_location: Option<Seq<char>>,
    pub introduction: Option<Seq<char>>,
    pub images: Option<Seq<Seq<char>>>,
    pub likes: Option<Seq<Seq<char>>>,
    pub matches: Option<Seq<Seq<char>>>,
    pub notifications: Option<Seq<NotificationView>>,
    pub matched_profiles: Option<Seq<Seq<char>>>,
    pub leftswipes: Option<Seq<Seq<char>>>,
    pub rightswipes: Option<Seq<Seq<char>>>,
}

impl View for UserProfileParams {
    type V = ParamsView;

    open spec fn view(&self) -> ParamsView {
        ParamsView {
            user_id: self.user_id.deep_view(),
            gender: self.gender.deep_view(),
            email: self.email.deep_view(),
            name: self.name.deep_view(),
            mobile_number: self.mobile_number.deep_view(),
            dob: self.dob.deep_view(),
            gender_pronouns: self.gender_pronouns.deep_view(),
            religion: self.religion.deep_view(),
            height: self.height.deep_view(),
            zodiac: self.zodiac.deep_view(),
            diet: self.diet.deep_view(),
            occupation: self.occupation.deep_view(),
            looking_for: self.looking_for.deep_view(),
            smoking: self.smoking.deep_view(),
            drinking: self.drinking.deep_view(),
            hobbies: self.hobbies.deep_view(),
            sports: self.sports.deep_view(),
            art_and_culture: self.art_and_culture.deep_view(),
            pets: self.pets.deep_view(),
            general_habits: self.general_habits.deep_view(),
            outdoor_activities: self.outdoor_activities.deep_view(),
            travel: self.travel.deep_view(),
            movies: self.movies.deep_view(),
            interests_in: self.interests_in.deep_view(),
            age: self.age,
            location: self.location.deep_view(),
            min_preferred_age: self.min_preferred_age,
            max_preferred_age: self.max_preferred_age,
            preferred_gender: self.preferred_gender.deep_view(),
            preferred_location: self.preferred_location.deep_view(),
            introduction: self.introduction.deep_view(),
            images: self.images.deep_view(),
            likes: self.likes.deep_view(),
            matches: self.matches.deep_view(),
            notifications: self.notifications.deep_view(),
            matched_profiles: self.matched_profiles.deep_view(),
            leftswipes: self.leftswipes.deep_view(),
            rightswipes: self.rightswipes.deep_view(),
        }
    }
}

impl DeepView for UserProfileParams {
    type V = ParamsView;

    open spec fn deep_view(&self) -> ParamsView {
        self.view()
    }
}

/// The mathematical value of a stored profile record.
pub ghost struct ProfileView {
    pub user_id: Seq<char>,
    pub created_at: u64,
    pub creator_principal: Seq<char>,
    pub params: ParamsView,
    pub notifications: Seq<NotificationView>,
    pub matched_profiles: Seq<Seq<char>>,
    pub status: bool,
}

impl View for UserProfileCreationInfo {
    type V = ProfileView;

    open spec fn view(&self) -> ProfileView {
        ProfileView {
            user_id: self.user_id@,
            created_at: self.created_at,
            creator_principal: self.creator_principal@,
            params: self.params@,
            notifications: self.notifications.deep_view(),
            matched_profiles: self.matched_profiles.deep_view(),
            status: self.status,
        }
    }
}

impl DeepView for UserProfileCreationInfo {
    type V = ProfileView;

    open spec fn deep_view(&self) -> ProfileView {
        self.view()
    }
}

/// Copies an optional string field.
pub fn clone_opt_string(o: &Option<String>) -> (r: Option<String>)
    ensures
        r == *o,
{
    match o {
        Some(s) => Some(s.clone()),
        None => None,
    }
}

/// Copies a vector of strings, keeping every element equal.
pub fn clone_string_vec(v: &Vec<String>) -> (r: Vec<String>)
    ensures
        r@ == v@,
{
    let mut r: Vec<String> = Vec::new();
    let mut i: usize = 0;
    while i < v.len()
        invariant
            i <= v.len(),
            r@ == v@.take(i as int),
        decreases v.len() - i,
    {
        r.push(v[i].clone());
        proof {
            assert(v@.take(i + 1 as int) =~= v@.take(i as int).push(v@[i as int]));
        }
        i = i + 1;
    }
    proof {
        assert(v@.take(v@.len() as int) =~= v@);
    }
    r
}

/// Copies an optional vector of strings.
pub fn clone_opt_string_vec(o: &Option<Vec<String>>) -> (r: Option<Vec<String>>)
    ensures
        r.deep_view() == o.deep_view(),
        r is Some <==> *o is Some,
{
    match o {
        Some(v) => Some(clone_string_vec(v)),
        None => None,
    }
}

/// Copies a notification queue, keeping every element equal.
pub fn clone_notification_vec(v: &Vec<Notification>) -> (r: Vec<Notification>)
    ensures
        r@ == v@,
{
    let mut r: Vec<Notification> = Vec::new();
    let mut i: usize = 0;
    while i < v.len()
        invariant
            i <= v.len(),
            r@ == v@.take(i as int),
        decreases v.len() - i,
    {
        r.push(v[i].clone());
        proof {
            assert(v@.take(i + 1 as int) =~= v@.take(i as int).push(v@[i as int]));
        }
        i = i + 1;
    }
    proof {
        assert(v@.take(v@.len() as int) =~= v@);
    }
    r
}

/// Copies an optional notification queue.
pub fn clone_opt_notification_vec(o: &Option<Vec<Notification>>) -> (r: Option<Vec<Notification>>)
    ensures
        r.deep_view() == o.deep_view(),
        r is Some <==> *o is Some,
{
    match o {
        Some(v) => Some(clone_notification_vec(v)),
        None => None,
    }
}

impl Clone for UserProfileParams {
    /// A copy with the same mathematical value.
    fn clone(&self) -> (r: Self)
        ensures
            r@ == self@,
    {
        UserProfileParams {
            user_id: clone_opt_string(&self.user_id),
            gender: clone_opt_string(&self.gender),
            email: clone_opt_string(&self.email),
            name: clone_opt_string(&self.name),
            mobile_number: clone_opt_string(&self.mobile_number),
            dob: clone_opt_string(&self.dob),
            gender_pronouns: clone_opt_string(&self.gender_pronouns),
            religion: clone_opt_string(&self.religion),
            height: clone_opt_string(&self.height),
            zodiac: clone_opt_string(&self.zodiac),
            diet: clone_opt_string(&self.diet),
            occupation: clone_opt_string(&self.occupation),
            looking_for: clone_opt_string(&self.looking_for),
            smoking: clone_opt_string(&self.smoking),
            drinking: clone_opt_string(&self.drinking),
            hobbies: clone_opt_string_vec(&self.hobbies),
            sports: clone_opt_string_vec(&self.sports),
            art_and_culture: clone_opt_string_vec(&self.art_and_culture),
            pets: clone_opt_string(&self.pets),
            general_habits: clone_opt_string_vec(&self.general_habits),
            outdoor_activities: clone_opt_string_vec(&self.outdoor_activities),
            travel: clone_opt_string_vec(&self.travel),
            movies: clone_opt_string_vec(&self.movies),
            interests_in: clone_opt_string(&self.interests_in),
            age: self.age,
            location: clone_opt_string(&self.location),
            min_preferred_age: self.min_preferred_age,
            max_preferred_age: self.max_preferred_age,
            preferred_gender: clone_opt_string(&self.preferred_gender),
            preferred_location: clone_opt_string(&self.preferred_location),
            introduction: clone_opt_string(&self.introduction),
            images: clone_opt_string_vec(&self.images),
            likes: clone_opt_string_vec(&self.likes),
            matches: clone_opt_string_vec(&self.matches),
            notifications: clone_opt_notification_vec(&self.notifications),
            matched_profiles: clone_opt_string_vec(&self.matched_profiles),
            leftswipes: clone_opt_string_vec(&self.leftswipes),
            rightswipes: clone_opt_string_vec(&self.rightswipes),
        }
    }
}

impl Clone for UserProfileCreationInfo {
    /// A copy with the same mathematical value.
    fn clone(&self) -> (r: Self)
        ensures
            r@ == self@,
    {
        UserProfileCreationInfo {
            user_id: self.user_id.clone(),
            created_at: self.created_at,
            creator_principal: self.creator_principal.clone(),
            params: self.params.clone(),
            notifications: clone_notification_vec(&self.notifications),
            matched_profiles: clone_string_vec(&self.matched_profiles),
            status: self.status,
        }
    }
}

/// Field-wise override: the patch value where present, the base value
/// where absent.
pub open spec fn patched<T>(base: Option<T>, patch: Option<T>) -> Option<T> {
    if patch is Some {
        patch
    } else {
        base
    }
}

/// The result of merging a patch into a base parameter set: every
/// attribute field present in the patch overwrites the base field whole;
/// absent fields are left untouched. The profile's identity (`user_id`)
/// and its relationship state (likes, matches, notifications, matched
/// profiles and both swipe sets) are never touched by the generic merge
/// path; they change only through the dedicated relationship operations.
pub open spec fn merged(base: ParamsView, patch: ParamsView) -> ParamsView {
    ParamsView {
        user_id: base.user_id,
        gender: patched(base.gender, patch.gender),
        email: patched(base.email, patch.email),
        name: patched(base.name, patch.name),
        mobile_number: patched(base.mobile_number, patch.mobile_number),
        dob: patched(base.dob, patch.dob),
        gender_pronouns: patched(base.gender_pronouns, patch.gender_pronouns),
        religion: patched(base.religion, patch.religion),
        height: patched(base.height, patch.height),
        zodiac: patched(base.zodiac, patch.zodiac),
        diet: patched(base.diet, patch.diet),
        occupation: patched(base.occupation, patch.occupation),
        looking_for: patched(base.looking_for, patch.looking_for),
        smoking: patched(base.smoking, patch.smoking),
        drinking: patched(base.drinking, patch.drinking),
        hobbies: patched(base.hobbies, patch.hobbies),
        sports: patched(base.sports, patch.sports),
        art_and_culture: patched(base.art_and_culture, patch.art_and_culture),
        pets: patched(base.pets, patch.pets),
        general_habits: patched(base.general_habits, patch.general_habits),
        outdoor_activities: patched(base.outdoor_activities, patch.outdoor_activities),
        travel: patched(base.travel, patch.travel),
        movies: patched(base.movies, patch.movies),
        interests_in: patched(base.interests_in, patch.interests_in),
        age: patched(base.age, patch.age),
        location: patched(base.location, patch.location),
        min_preferred_age: patched(base.min_preferred_age, patch.min_preferred_age),
        max_preferred_age: patched(base.max_preferred_age, patch.max_preferred_age),
        preferred_gender: patched(base.preferred_gender, patch.preferred_gender),
        preferred_location: patched(base.preferred_location, patch.preferred_location),
        introduction: patched(base.introduction, patch.introduction),
        images: patched(base.images, patch.images),
        likes: base.likes,
        matches: base.matches,
        notifications: base.notifications,
        matched_profiles: base.matched_profiles,
        leftswipes: base.leftswipes,
        rightswipes: base.rightswipes,
    }
}

/// Overrides `base` with `patch` where the patch is present; leaves it
/// untouched where the patch is absent.
pub fn merge_field<T: DeepView>(base: &mut Option<T>, patch: Option<T>)
    ensures
        final(base).deep_view() == patched(old(base).deep_view(), patch.deep_view()),
{
    if let Some(x) = patch {
        *base = Some(x);
    }
}

impl UserProfileParams {
    /// Applies a partial update: every attribute field present in `other`
    /// overwrites the field in `self` whole (sequence-valued fields are
    /// replaced, not appended); absent fields are left untouched. The
    /// identity and relationship fields are never touched here.
    #[verifier::rlimit(100)]
    pub fn merge(&mut self, other: UserProfileParams)
        ensures
            final(self)@ == merged(old(self)@, other@),
    {
        merge_field(&mut self.gender, other.gender);
        merge_field(&mut self.email, other.email);
        merge_field(&mut self.name, other.name);
        merge_field(&mut self.mobile_number, other.mobile_number);
        merge_field(&mut self.dob, other.dob);
        merge_field(&mut self.gender_pronouns, other.gender_pronouns);
        merge_field(&mut self.religion, other.religion);
        merge_field(&mut self.height, other.height);
        merge_field(&mut self.zodiac, other.zodiac);
        merge_field(&mut self.diet, other.diet);
        merge_field(&mut self.occupation, other.occupation);
        merge_field(&mut self.looking_for, other.looking_for);
        merge_field(&mut self.smoking, other.smoking);
        merge_field(&mut self.drinking, other.drinking);
        merge_field(&mut self.hobbies, other.hobbies);
        merge_field(&mut self.sports, other.sports);
        merge_field(&mut self.art_and_culture, other.art_and_culture);
        merge_field(&mut self.pets, other.pets);
        merge_field(&mut self.general_habits, other.general_habits);
        merge_field(&mut self.outdoor_activities, other.outdoor_activities);
        merge_field(&mut self.travel, other.travel);
        merge_field(&mut self.movies, other.movies);
        merge_field(&mut self.interests_in, other.interests_in);
        merge_field(&mut self.age, other.age);
        merge_field(&mut self.location, other.location);
        merge_field(&mut self.min_preferred_age, other.min_preferred_age);
        merge_field(&mut self.max_preferred_age, other.max_preferred_age);
        merge_field(&mut self.preferred_gender, other.preferred_gender);
        merge_field(&mut self.preferred_location, other.preferred_location);
        merge_field(&mut self.introduction, other.introduction);
        merge_field(&mut self.images, other.images);
    }
}

/// The parameter set a fresh input converts to: every attribute carried
/// over unchanged, every identity and relationship field unset.
pub open spec fn params_from_input(input: UserInputParams) -> UserProfileParams {
    UserProfileParams {
        user_id: None,
        gender: input.gender,
        email: input.email,
        name: input.name,
        mobile_number: input.mobile_number,
        dob: input.dob,
        gender_pronouns: input.gender_pronouns,
        religion: input.religion,
        height: input.height,
        zodiac: input.zodiac,
        diet: input.diet,
        occupation: input.occupation,
        looking_for: input.looking_for,
        smoking: input.smoking,
        drinking: input.drinking,
        hobbies: input.hobbies,
        sports: input.sports,
        art_and_culture: input.art_and_culture,
        pets: input.pets,
        general_habits: input.general_habits,
        outdoor_activities: input.outdoor_activities,
        travel: input.travel,
        movies: input.movies,
        interests_in: input.interests_in,
        age: input.age,
        location: input.location,
        min_preferred_age: input.min_preferred_age,
        max_preferred_age: input.max_preferred_age,
        preferred_gender: input.preferred_gender,
        preferred_location: input.preferred_location,
        introduction: input.introduction,
        images: input.images,
        likes: None,
        matches: None,
        notifications: None,
        matched_profiles: None,
        leftswipes: None,
        rightswipes: None,
    }
}

impl From<UserInputParams> for UserProfileParams {
    /// Carries the attribute fields over and leaves every identity and
    /// relationship field unset.
    fn from(input: UserInputParams) -> (r: Self) {
        UserProfileParams {
            user_id: None,
            gender: input.gender,
            email: input.email,
            name: input.name,
            mobile_number: input.mobile_number,
            dob: input.dob,
            gender_pronouns: input.gender_pronouns,
            religion: input.religion,
            height: input.height,
            zodiac: input.zodiac,
            diet: input.diet,
            occupation: input.occupation,
            looking_for: input.looking_for,
            smoking: input.smoking,
            drinking: input.drinking,
            hobbies: input.hobbies,
            sports: input.sports,
            art_and_culture: input.art_and_culture,
            pets: input.pets,
            general_habits: input.general_habits,
            outdoor_activities: input.outdoor_activities,
            travel: input.travel,
            movies: input.movies,
            interests_in: input.interests_in,
            age: input.age,
            location: input.location,
            min_preferred_age: input.min_preferred_age,
            max_preferred_age: input.max_preferred_age,
            preferred_gender: input.preferred_gender,
            preferred_location: input.preferred_location,
            introduction: input.introduction,
            images: input.images,
            likes: None,
            matches: None,
            notifications: None,
            matched_profiles: None,
            leftswipes: None,
            rightswipes: None,
        }
    }
}

impl vstd::std_specs::convert::FromSpecImpl<UserInputParams> for UserProfileParams {
    open spec fn obeys_from_spec() -> bool {
        true
    }

    open spec fn from_spec(input: UserInputParams) -> Self {
        params_from_input(input)
    }
}

/// Merging touches exactly the attribute fields that the patch carries:
/// every field absent from the patch keeps its base value, every field
/// present takes the patch value whole, and the identity and relationship
/// fields always keep their base values.
pub proof fn lemma_merge_overwrites_present_only(base: ParamsView, patch: ParamsView)
    ensures
        patch.gender is None ==> merged(base, patch).gender == base.gender,
        patch.gender is Some ==> merged(base, patch).gender == patch.gender,
        patch.email is None ==> merged(base, patch).email == base.email,
        patch.email is Some ==> merged(base, patch).email == patch.email,
        patch.name is None ==> merged(base, patch).name == base.name,
        patch.name is Some ==> merged(base, patch).name == patch.name,
        patch.mobile_number is None ==> merged(base, patch).mobile_number == base.mobile_number,
        patch.mobile_number is Some ==> merged(base, patch).mobile_number == patch.mobile_number,
        patch.dob is None ==> merged(base, patch).dob == base.dob,
        patch.dob is Some ==> merged(base, patch).dob == patch.dob,
        patch.gender_pronouns is None ==> merged(base, patch).gender_pronouns
            == base.gender_pronouns,
        patch.gender_pronouns is Some ==> merged(base, patch).gender_pronouns
            == patch.gender_pronouns,
        patch.religion is None ==> merged(base, patch).religion == base.religion,
        patch.religion is Some ==> merged(base, patch).religion == patch.religion,
        patch.height is None ==> merged(base, patch).height == base.height,
        patch.height is Some ==> merged(base, patch).height == patch.height,
        patch.zodiac is None ==> merged(base, patch).zodiac == base.zodiac,
        patch.zodiac is Some ==> merged(base, patch).zodiac == patch.zodiac,
        patch.diet is None ==> merged(base, patch).diet == base.diet,
        patch.diet is Some ==> merged(base, patch).diet == patch.diet,
        patch.occupation is None ==> merged(base, patch).occupation == base.occupation,
        patch.occupation is Some ==> merged(base, patch).occupation == patch.occupation,
        patch.looking_for is None ==> merged(base, patch).looking_for == base.looking_for,
        patch.looking_for is Some ==> merged(base, patch).looking_for == patch.looking_for,
        patch.smoking is None ==> merged(base, patch).smoking == base.smoking,
        patch.smoking is Some ==> merged(base, patch).smoking == patch.smoking,
        patch.drinking is None ==> merged(base, patch).drinking == base.drinking,
        patch.drinking is Some ==> merged(base, patch).drinking == patch.drinking,
        patch.hobbies is None ==> merged(base, patch).hobbies == base.hobbies,
        patch.hobbies is Some ==> merged(base, patch).hobbies == patch.hobbies,
        patch.sports is None ==> merged(base, patch).sports == base.sports,
        patch.sports is Some ==> merged(base, patch).sports == patch.sports,
        patch.art_and_culture is None ==> merged(base, patch).art_and_culture
            == base.art_and_culture,
        patch.art_and_culture is Some ==> merged(base, patch).art_and_culture
            == patch.art_and_culture,
        patch.pets is None ==> merged(base, patch).pets == base.pets,
        patch.pets is Some ==> merged(base, patch).pets == patch.pets,
        patch.general_habits is None ==> merged(base, patch).general_habits
            == base.general_habits,
        patch.general_habits is Some ==> merged(base, patch).general_habits
            == patch.general_habits,
        patch.outdoor_activities is None ==> merged(base, patch).outdoor_activities
            == base.outdoor_activities,
        patch.outdoor_activities is Some ==> merged(base, patch).outdoor_activities
            == patch.outdoor_activities,
        patch.travel is None ==> merged(base, patch).travel == base.travel,
        patch.travel is Some ==> merged(base, patch).travel == patch.travel,
        patch.movies is None ==> merged(base, patch).movies == base.movies,
        patch.movies is Some ==> merged(base, patch).movies == patch.movies,
        patch.interests_in is None ==> merged(base, patch).interests_in == base.interests_in,
        patch.interests_in is Some ==> merged(base, patch).interests_in == patch.interests_in,
        patch.age is None ==> merged(base, patch).age == base.age,
        patch.age is Some ==> merged(base, patch).age == patch.age,
        patch.location is None ==> merged(base, patch).location == base.location,
        patch.location is Some ==> merged(base, patch).location == patch.location,
        patch.min_preferred_age is None ==> merged(base, patch).min_preferred_age
            == base.min_preferred_age,
        patch.min_preferred_age is Some ==> merged(base, patch).min_preferred_age
            == patch.min_preferred_age,
        patch.max_preferred_age is None ==> merged(base, patch).max_preferred_age
            == base.max_preferred_age,
        patch.max_preferred_age is Some ==> merged(base, patch).max_preferred_age
            == patch.max_preferred_age,
        patch.preferred_gender is None ==> merged(base, patch).preferred_gender
            == base.preferred_gender,
        patch.preferred_gender is Some ==> merged(base, patch).preferred_gender
            == patch.preferred_gender,
        patch.preferred_location is None ==> merged(base, patch).preferred_location
            == base.preferred_location,
        patch.preferred_location is Some ==> merged(base, patch).preferred_location
            == patch.preferred_location,
        patch.introduction is None ==> merged(base, patch).introduction == base.introduction,
        patch.introduction is Some ==> merged(base, patch).introduction == patch.introduction,
        patch.images is None ==> merged(base, patch).images == base.images,
        patch.images is Some ==> merged(base, patch).images == patch.images,
        merged(base, patch).user_id == base.user_id,
        merged(base, patch).likes == base.likes,
        merged(base, patch).matches == base.matches,
        merged(base, patch).notifications == base.notifications,
        merged(base, patch).matched_profiles == base.matched_profiles,
        merged(base, patch).leftswipes == base.leftswipes,
        merged(base, patch).rightswipes == base.rightswipes,
{
}

} // verus!
