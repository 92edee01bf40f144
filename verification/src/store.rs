//! The keyed profile store: creation with required-field validation,
//! partial update by merge, hard delete, soft delete, paginated listing,
//! and the write side of the swipe relationship model.
//!
//! The store is a sequence of records whose `user_id` fields are unique;
//! every operation preserves that well-formedness, and every failing
//! operation leaves the store unchanged.

use vstd::prelude::*;

use crate::errors::{ProfileError, ValidationField};
use crate::idgen::{hash_seed, user_id_of};
use crate::profile::{
    merged, params_from_input, ParamsView, ProfileView, UserInputParams, UserProfileCreationInfo,
    UserProfileParams,
};
use crate::text::{is_missing_text, missing_text};

verus! {

/// A 1-based page request.
#[derive(Clone, Copy, Debug)]
pub struct Pagination {
    pub page: usize,
    pub size: usize,
}

/// One page of active profiles together with the count of all of them.
#[derive(Debug)]
pub struct PaginatedProfiles {
    pub total_profiles: usize,
    pub profiles: Vec<UserProfileCreationInfo>,
}

/// A direct message between two profiles.
#[derive(Debug)]
pub struct Message {
    pub id: String,
    pub sender_id: String,
    pub receiver_id: String,
    pub content: String,
    pub timestamp: u64,
}

/// Which swipe set a swipe lands in: left = pass, right = interest.
#[derive(Clone, Copy, Debug, PartialEq, Eq, Structural)]
pub enum SwipeDirection {
    Left,
    Right,
}

/// Whether some record in the sequence carries the given id.
pub open spec fn contains_id(s: Seq<ProfileView>, id: Seq<char>) -> bool {
    exists|i: int| 0 <= i < s.len() && s[i].user_id == id
}

/// The position of the record carrying the given id; meaningful only
/// under `unique_ids` and `contains_id`.
pub open spec fn index_of_id(s: Seq<ProfileView>, id: Seq<char>) -> int {
    choose|i: int| 0 <= i < s.len() && s[i].user_id == id
}

/// No two records carry the same id.
pub open spec fn unique_ids(s: Seq<ProfileView>) -> bool {
    forall|i: int, j: int| 0 <= i < j < s.len() ==> s[i].user_id != s[j].user_id
}

/// Under unique ids, `index_of_id` is the one position carrying the id.
pub proof fn lemma_index_of_id(s: Seq<ProfileView>, id: Seq<char>)
    requires
        unique_ids(s),
        contains_id(s, id),
    ensures
        0 <= index_of_id(s, id) < s.len(),
        s[index_of_id(s, id)].user_id == id,
        forall|j: int| 0 <= j < s.len() && s[j].user_id == id ==> j == index_of_id(s, id),
{
    let i = index_of_id(s, id);
    assert(0 <= i < s.len() && s[i].user_id == id);
    assert forall|j: int| 0 <= j < s.len() && s[j].user_id == id implies j == i by {
        if j < i {
            assert(s[j].user_id != s[i].user_id);
        } else if i < j {
            assert(s[i].user_id != s[j].user_id);
        }
    }
}

/// The records of a sequence that are still active.
pub open spec fn active_profiles(s: Seq<ProfileView>) -> Seq<ProfileView> {
    s.filter(|p: ProfileView| p.status)
}

/// Extending a prefix by one element extends its filtered image exactly
/// when the element satisfies the predicate.
pub proof fn lemma_filter_take_step<A>(s: Seq<A>, pred: spec_fn(A) -> bool, i: int)
    requires
        0 <= i < s.len(),
    ensures
        pred(s[i]) ==> s.take(i + 1).filter(pred) == s.take(i).filter(pred).push(s[i]),
        !pred(s[i]) ==> s.take(i + 1).filter(pred) == s.take(i).filter(pred),
{
    reveal_with_fuel(Seq::filter, 2);
    assert(s.take(i + 1).drop_last() =~= s.take(i));
    assert(s.take(i + 1).last() == s[i]);
}

/// The required-at-creation fields, checked in order: the first one that
/// is absent (or, for the textual ones, blank) is reported.
pub open spec fn first_missing(p: ParamsView) -> Option<ValidationField> {
    if missing_text(p.name) {
        Some(ValidationField::Name)
    } else if missing_text(p.email) {
        Some(ValidationField::Email)
    } else if p.age is None {
        Some(ValidationField::Age)
    } else if p.min_preferred_age is None {
        Some(ValidationField::MinPreferredAge)
    } else if p.max_preferred_age is None {
        Some(ValidationField::MaxPreferredAge)
    } else if missing_text(p.location) {
        Some(ValidationField::Location)
    } else if missing_text(p.preferred_location) {
        Some(ValidationField::PreferredLocation)
    } else if missing_text(p.gender) {
        Some(ValidationField::Gender)
    } else if missing_text(p.preferred_gender) {
        Some(ValidationField::PreferredGender)
    } else {
        None
    }
}

/// Checks the required-at-creation fields, reporting the first missing one.
pub fn validate_required(p: &UserProfileParams) -> (r: Option<ValidationField>)
    ensures
        r == first_missing(p@),
{
    if is_missing_text(&p.name) {
        Some(ValidationField::Name)
    } else if is_missing_text(&p.email) {
        Some(ValidationField::Email)
    } else if p.age.is_none() {
        Some(ValidationField::Age)
    } else if p.min_preferred_age.is_none() {
        Some(ValidationField::MinPreferredAge)
    } else if p.max_preferred_age.is_none() {
        Some(ValidationField::MaxPreferredAge)
    } else if is_missing_text(&p.location) {
        Some(ValidationField::Location)
    } else if is_missing_text(&p.preferred_location) {
        Some(ValidationField::PreferredLocation)
    } else if is_missing_text(&p.gender) {
        Some(ValidationField::Gender)
    } else if is_missing_text(&p.preferred_gender) {
        Some(ValidationField::PreferredGender)
    } else {
        None
    }
}

/// The shared keyed collection of profile records.
pub struct State {
    pub user_profiles: Vec<UserProfileCreationInfo>,
}

impl View for State {
    type V = Seq<ProfileView>;

    open spec fn view(&self) -> Seq<ProfileView> {
        self.user_profiles.deep_view()
    }
}

impl State {
    /// The store invariant: ids are unique keys. Every operation
    /// requires and preserves it; `new` establishes it.
    pub open spec fn wf(self) -> bool {
        unique_ids(self@)
    }

    /// An empty store.
    pub fn new() -> (r: State)
        ensures
            r.wf(),
            r@ == Seq::<ProfileView>::empty(),
    {
        let r = State { user_profiles: Vec::new() };
        proof {
            assert(r@ =~= Seq::<ProfileView>::empty());
        }
        r
    }

    /// The position of the record carrying the id, if any.
    pub(crate) fn find_position(&self, user_id: &String) -> (r: Option<usize>)
        ensures
            match r {
                Some(i) => i < self@.len() && self@[i as int].user_id == user_id@,
                None => !contains_id(self@, user_id@),
            },
    {
        let n = self.user_profiles.len();
        let mut i: usize = 0;
        while i < n
            invariant
                i <= n,
                n == self.user_profiles.len(),
                forall|j: int| 0 <= j < i ==> self@[j].user_id != user_id@,
            decreases n - i,
        {
            if self.user_profiles[i].user_id == *user_id {
                return Some(i);
            }
            i = i + 1;
        }
        None
    }

    /// Validates the required fields and inserts the record under the
    /// given id (the record's own `user_id` field is set to that key).
    /// Fails with the first missing field, or with `AlreadyExists` when
    /// the key is taken — whether the holder is active or not. On
    /// success the confirmation carries the id.
    pub fn create_account(&mut self, user_id: String, params: UserProfileCreationInfo) -> (r:
        Result<String, ProfileError>)
        requires
            old(self).wf(),
        ensures
            final(self).wf(),
            r is Err ==> final(self)@ == old(self)@,
            match first_missing(params@.params) {
                Some(f) => r == Err::<String, ProfileError>(ProfileError::Validation(f)),
                None => if contains_id(old(self)@, user_id@) {
                    r == Err::<String, ProfileError>(ProfileError::AlreadyExists)
                } else {
                    &&& r is Ok
                    &&& r->Ok_0@ == user_id@
                    &&& final(self)@ == old(self)@.push(
                        (ProfileView { user_id: user_id@, ..params@ }),
                    )
                },
            },
    {
        if let Some(field) = validate_required(&params.params) {
            return Err(ProfileError::Validation(field));
        }
        if self.find_position(&user_id).is_some() {
            return Err(ProfileError::AlreadyExists);
        }
        let mut record = params;
        record.user_id = user_id.clone();
        self.user_profiles.push(record);
        proof {
            assert(self@ =~= old(self)@.push((ProfileView { user_id: user_id@, ..params@ })));
        }
        Ok(user_id)
    }

    /// Merges the patch into the record under the id. Fails with
    /// `NotFound` when the id is absent and with `Inactive` when the
    /// record is soft-deleted; otherwise only the fields present in the
    /// patch change.
    pub fn update_account(&mut self, user_id: String, new_params: UserProfileParams) -> (r: Result<
        String,
        ProfileError,
    >)
        requires
            old(self).wf(),
        ensures
            final(self).wf(),
            r is Err ==> final(self)@ == old(self)@,
            !contains_id(old(self)@, user_id@) ==> r == Err::<String, ProfileError>(
                ProfileError::NotFound,
            ),
            contains_id(old(self)@, user_id@) && !old(self)@[index_of_id(old(self)@, user_id@)].status
                ==> r == Err::<String, ProfileError>(ProfileError::Inactive),
            contains_id(old(self)@, user_id@) && old(self)@[index_of_id(old(self)@, user_id@)].status
                ==> ({
                let i = index_of_id(old(self)@, user_id@);
                let p = old(self)@[i];
                &&& r is Ok
                &&& r->Ok_0@ == user_id@
                &&& final(self)@ == old(self)@.update(
                    i,
                    (ProfileView { params: merged(p.params, new_params@), ..p }),
                )
            }),
    {
        let pos = self.find_position(&user_id);
        match pos {
            None => Err(ProfileError::NotFound),
            Some(i) => {
                proof {
                    lemma_index_of_id(self@, user_id@);
                }
                if !self.user_profiles[i].status {
                    return Err(ProfileError::Inactive);
                }
                let mut record = self.user_profiles.remove(i);
                record.params.merge(new_params);
                self.user_profiles.insert(i, record);
                proof {
                    let p = old(self)@[i as int];
                    assert(self@ =~= old(self)@.update(
                        i as int,
                        (ProfileView { params: merged(p.params, new_params@), ..p }),
                    ));
                }
                Ok(user_id)
            },
        }
    }

    /// Removes the record under the id from the store for good. Fails
    /// with `NotFound` when the id is absent and with `Inactive` when
    /// the record is soft-deleted.
    pub fn delete_account(&mut self, user_id: String) -> (r: Result<String, ProfileError>)
        requires
            old(self).wf(),
        ensures
            final(self).wf(),
            r is Err ==> final(self)@ == old(self)@,
            !contains_id(old(self)@, user_id@) ==> r == Err::<String, ProfileError>(
                ProfileError::NotFound,
            ),
            contains_id(old(self)@, user_id@) && !old(self)@[index_of_id(old(self)@, user_id@)].status
                ==> r == Err::<String, ProfileError>(ProfileError::Inactive),
            contains_id(old(self)@, user_id@) && old(self)@[index_of_id(old(self)@, user_id@)].status
                ==> r is Ok && r->Ok_0@ == user_id@ && final(self)@ == old(self)@.remove(
                index_of_id(old(self)@, user_id@),
            ),
    {
        let pos = self.find_position(&user_id);
        match pos {
            None => Err(ProfileError::NotFound),
            Some(i) => {
                proof {
                    lemma_index_of_id(self@, user_id@);
                }
                if !self.user_profiles[i].status {
                    return Err(ProfileError::Inactive);
                }
                let _removed = self.user_profiles.remove(i);
                proof {
                    assert(self@ =~= old(self)@.remove(i as int));
                }
                Ok(user_id)
            },
        }
    }

    /// Returns a copy of the record under the id. Fails with `NotFound`
    /// when the id is absent and with `Inactive` when the record is
    /// soft-deleted.
    pub fn get_account(&self, user_id: String) -> (r: Result<UserProfileCreationInfo, ProfileError>)
        requires
            self.wf(),
        ensures
            !contains_id(self@, user_id@) ==> r == Err::<UserProfileCreationInfo, ProfileError>(
                ProfileError::NotFound,
            ),
            contains_id(self@, user_id@) && !self@[index_of_id(self@, user_id@)].status ==> r
                == Err::<UserProfileCreationInfo, ProfileError>(ProfileError::Inactive),
            contains_id(self@, user_id@) && self@[index_of_id(self@, user_id@)].status ==> r is Ok
                && r->Ok_0@ == self@[index_of_id(self@, user_id@)],
    {
        let pos = self.find_position(&user_id);
        match pos {
            None => Err(ProfileError::NotFound),
            Some(i) => {
                proof {
                    lemma_index_of_id(self@, user_id@);
                }
                if !self.user_profiles[i].status {
                    return Err(ProfileError::Inactive);
                }
                Ok(self.user_profiles[i].clone())
            },
        }
    }

    /// Lists one 1-based page of the active records, in store order,
    /// together with the count of all active records. Fails when the
    /// page number is zero, the page size is zero, or the page starts
    /// past the last active record.
    pub fn get_all_accounts(&self, pagination: Pagination) -> (r: Result<
        PaginatedProfiles,
        ProfileError,
    >)
        ensures
            pagination.page == 0 ==> r == Err::<PaginatedProfiles, ProfileError>(
                ProfileError::Validation(ValidationField::Page),
            ),
            pagination.page >= 1 && pagination.size == 0 ==> r == Err::<
                PaginatedProfiles,
                ProfileError,
            >(ProfileError::Validation(ValidationField::Size)),
            pagination.page >= 1 && pagination.size >= 1 ==> ({
                let actives = active_profiles(self@);
                let start = (pagination.page - 1) * pagination.size;
                let end = if start + pagination.size <= actives.len() {
                    start + pagination.size
                } else {
                    actives.len() as int
                };
                if start >= actives.len() {
                    r == Err::<PaginatedProfiles, ProfileError>(ProfileError::OutOfRange)
                } else {
                    &&& r is Ok
                    &&& r->Ok_0.total_profiles == actives.len()
                    &&& r->Ok_0.profiles.deep_view() == actives.subrange(start, end)
                }
            }),
    {
        if pagination.page == 0 {
            return Err(ProfileError::Validation(ValidationField::Page));
        }
        if pagination.size == 0 {
            return Err(ProfileError::Validation(ValidationField::Size));
        }
        let actives = self.collect_active();
        let total = actives.len();
        let start = match (pagination.page - 1).checked_mul(pagination.size) {
            None => {
                return Err(ProfileError::OutOfRange);
            },
            Some(s) => s,
        };
        if start >= total {
            return Err(ProfileError::OutOfRange);
        }
        let end = match start.checked_add(pagination.size) {
            None => total,
            Some(e) => if e <= total {
                e
            } else {
                total
            },
        };
        let mut page_items: Vec<UserProfileCreationInfo> = Vec::new();
        let mut j = start;
        while j < end
            invariant
                start <= j <= end <= total,
                total == actives.len(),
                actives.deep_view() == active_profiles(self@),
                page_items.deep_view() == actives.deep_view().subrange(start as int, j as int),
            decreases end - j,
        {
            page_items.push(actives[j].clone());
            proof {
                assert(actives.deep_view().subrange(start as int, j + 1 as int)
                    =~= actives.deep_view().subrange(start as int, j as int).push(
                    actives.deep_view()[j as int],
                ));
            }
            j = j + 1;
        }
        Ok(PaginatedProfiles { total_profiles: total, profiles: page_items })
    }

    /// Copies every active record, in store order.
    fn collect_active(&self) -> (r: Vec<UserProfileCreationInfo>)
        ensures
            r.deep_view() == active_profiles(self@),
    {
        let mut actives: Vec<UserProfileCreationInfo> = Vec::new();
        let n = self.user_profiles.len();
        let mut i: usize = 0;
        proof {
            assert(self@.take(0) =~= Seq::<ProfileView>::empty());
            assert(actives.deep_view() =~= active_profiles(self@.take(0)));
        }
        while i < n
            invariant
                i <= n,
                n == self.user_profiles.len(),
                actives.deep_view() == active_profiles(self@.take(i as int)),
            decreases n - i,
        {
            proof {
                lemma_filter_take_step(self@, |p: ProfileView| p.status, i as int);
            }
            if self.user_profiles[i].status {
                actives.push(self.user_profiles[i].clone());
                proof {
                    assert(actives.deep_view() =~= active_profiles(self@.take(i as int)).push(
                        self@[i as int],
                    ));
                }
            }
            i = i + 1;
        }
        proof {
            assert(self@.take(n as int) =~= self@);
        }
        actives
    }

    /// Flips the record under the id to inactive, leaving everything
    /// else as it was; the key stays reserved. Fails only with
    /// `NotFound`; deactivating an already-inactive record succeeds and
    /// changes nothing.
    pub fn set_user_inactive(&mut self, user_id: String) -> (r: Result<String, ProfileError>)
        requires
            old(self).wf(),
        ensures
            final(self).wf(),
            r is Err ==> final(self)@ == old(self)@,
            !contains_id(old(self)@, user_id@) ==> r == Err::<String, ProfileError>(
                ProfileError::NotFound,
            ),
            contains_id(old(self)@, user_id@) ==> r is Ok && r->Ok_0@ == user_id@ && final(self)@
                == old(self)@.update(
                index_of_id(old(self)@, user_id@),
                (ProfileView { status: false, ..old(self)@[index_of_id(old(self)@, user_id@)] }),
            ),
    {
        let pos = self.find_position(&user_id);
        match pos {
            None => Err(ProfileError::NotFound),
            Some(i) => {
                proof {
                    lemma_index_of_id(self@, user_id@);
                }
                let mut record = self.user_profiles.remove(i);
                record.status = false;
                self.user_profiles.insert(i, record);
                proof {
                    assert(self@ =~= old(self)@.update(
                        i as int,
                        (ProfileView { status: false, ..old(self)@[i as int] }),
                    ));
                }
                Ok(user_id)
            },
        }
    }
}

/// Membership of an id in a duplicate-free id list.
pub fn contains_id_vec(v: &Vec<String>, id: &String) -> (r: bool)
    ensures
        r == v.deep_view().contains(id@),
{
    let n = v.len();
    let mut i: usize = 0;
    while i < n
        invariant
            i <= n,
            n == v.len(),
            forall|j: int| 0 <= j < i ==> v.deep_view()[j] != id@,
        decreases n - i,
    {
        if v[i] == *id {
            proof {
                assert(v.deep_view()[i as int] == id@);
            }
            return true;
        }
        i = i + 1;
    }
    false
}

/// An optional swipe set with the id added: an absent set becomes the
/// one-element set; a set already holding the id is left as it is;
/// otherwise the id is appended.
pub open spec fn id_inserted(o: Option<Seq<Seq<char>>>, id: Seq<char>) -> Option<Seq<Seq<char>>> {
    match o {
        None => Some(seq![id]),
        Some(s) => if s.contains(id) {
            Some(s)
        } else {
            Some(s.push(id))
        },
    }
}

/// Adds the id to an optional swipe set, creating the set when absent
/// and leaving it untouched when the id is already a member.
fn insert_swipe_id(o: &mut Option<Vec<String>>, id: &String)
    ensures
        final(o).deep_view() == id_inserted(old(o).deep_view(), id@),
{
    if let Some(v) = o {
        if !contains_id_vec(v, id) {
            v.push(id.clone());
            proof {
                assert(v.deep_view() =~= old(o)->0.deep_view().push(id@));
            }
        }
    } else {
        let mut v: Vec<String> = Vec::new();
        v.push(id.clone());
        proof {
            assert(v.deep_view() =~= seq![id@]);
        }
        *o = Some(v);
    }
}

/// The store after an actor's swipe on a target lands: only the actor's
/// record changes, and in it only the swipe set of the given direction,
/// which takes the target id as `id_inserted` says.
pub open spec fn after_swipe(
    s: Seq<ProfileView>,
    actor: Seq<char>,
    target: Seq<char>,
    direction: SwipeDirection,
) -> Seq<ProfileView> {
    let i = index_of_id(s, actor);
    let p = s[i];
    let q = match direction {
        SwipeDirection::Left => (ProfileView {
            params: ParamsView {
                leftswipes: id_inserted(p.params.leftswipes, target),
                ..p.params
            },
            ..p
        }),
        SwipeDirection::Right => (ProfileView {
            params: ParamsView {
                rightswipes: id_inserted(p.params.rightswipes, target),
                ..p.params
            },
            ..p
        }),
    };
    s.update(i, q)
}

impl State {
    /// Records a one-directional swipe: adds the target id to the
    /// actor's left or right swipe set. Adding an existing member
    /// changes nothing, so the operation is idempotent. A profile may
    /// not swipe on itself; both ids must name records that exist and
    /// are active, the actor being checked first.
    pub fn record_swipe(
        &mut self,
        actor_id: String,
        target_id: String,
        direction: SwipeDirection,
    ) -> (r: Result<String, ProfileError>)
        requires
            old(self).wf(),
        ensures
            final(self).wf(),
            r is Err ==> final(self)@ == old(self)@,
            actor_id@ == target_id@ ==> r == Err::<String, ProfileError>(
                ProfileError::Validation(ValidationField::SwipeTarget),
            ),
            actor_id@ != target_id@ && !contains_id(old(self)@, actor_id@) ==> r == Err::<
                String,
                ProfileError,
            >(ProfileError::NotFound),
            actor_id@ != target_id@ && contains_id(old(self)@, actor_id@) && !old(self)@[index_of_id(
                old(self)@,
                actor_id@,
            )].status ==> r == Err::<String, ProfileError>(ProfileError::Inactive),
            actor_id@ != target_id@ && contains_id(old(self)@, actor_id@) && old(self)@[index_of_id(
                old(self)@,
                actor_id@,
            )].status && !contains_id(old(self)@, target_id@) ==> r == Err::<String, ProfileError>(
                ProfileError::NotFound,
            ),
            actor_id@ != target_id@ && contains_id(old(self)@, actor_id@) && old(self)@[index_of_id(
                old(self)@,
                actor_id@,
            )].status && contains_id(old(self)@, target_id@) && !old(self)@[index_of_id(
                old(self)@,
                target_id@,
            )].status ==> r == Err::<String, ProfileError>(ProfileError::Inactive),
            actor_id@ != target_id@ && contains_id(old(self)@, actor_id@) && old(self)@[index_of_id(
                old(self)@,
                actor_id@,
            )].status && contains_id(old(self)@, target_id@) && old(self)@[index_of_id(
                old(self)@,
                target_id@,
            )].status ==> r is Ok && r->Ok_0@ == actor_id@ && final(self)@ == after_swipe(
                old(self)@,
                actor_id@,
                target_id@,
                direction,
            ),
    {
        if actor_id == target_id {
            return Err(ProfileError::Validation(ValidationField::SwipeTarget));
        }
        let apos = match self.find_position(&actor_id) {
            None => {
                return Err(ProfileError::NotFound);
            },
            Some(i) => i,
        };
        proof {
            lemma_index_of_id(self@, actor_id@);
        }
        if !self.user_profiles[apos].status {
            return Err(ProfileError::Inactive);
        }
        let tpos = match self.find_position(&target_id) {
            None => {
                return Err(ProfileError::NotFound);
            },
            Some(j) => j,
        };
        proof {
            lemma_index_of_id(self@, target_id@);
        }
        if !self.user_profiles[tpos].status {
            return Err(ProfileError::Inactive);
        }
        let mut record = self.user_profiles.remove(apos);
        match direction {
            SwipeDirection::Left => insert_swipe_id(&mut record.params.leftswipes, &target_id),
            SwipeDirection::Right => insert_swipe_id(&mut record.params.rightswipes, &target_id),
        }
        self.user_profiles.insert(apos, record);
        proof {
            assert(self@ =~= after_swipe(old(self)@, actor_id@, target_id@, direction));
        }
        Ok(actor_id)
    }
}

/// Recording the same swipe twice lands the store in the same place as
/// recording it once: the second swipe finds the target already in the
/// actor's set and changes nothing.
pub proof fn lemma_record_swipe_idempotent(
    s: Seq<ProfileView>,
    actor: Seq<char>,
    target: Seq<char>,
    direction: SwipeDirection,
)
    requires
        unique_ids(s),
        contains_id(s, actor),
    ensures
        after_swipe(after_swipe(s, actor, target, direction), actor, target, direction)
            == after_swipe(s, actor, target, direction),
{
    lemma_index_of_id(s, actor);
    let i = index_of_id(s, actor);
    let t = after_swipe(s, actor, target, direction);
    assert(unique_ids(t));
    assert(contains_id(t, actor)) by {
        assert(t[i].user_id == actor);
    }
    lemma_index_of_id(t, actor);
    assert(index_of_id(t, actor) == i);
    let p = s[i];
    let q = t[i];
    match direction {
        SwipeDirection::Left => {
            assert(id_inserted(q.params.leftswipes, target) == q.params.leftswipes) by {
                lemma_id_inserted_idempotent(p.params.leftswipes, target);
            }
        },
        SwipeDirection::Right => {
            assert(id_inserted(q.params.rightswipes, target) == q.params.rightswipes) by {
                lemma_id_inserted_idempotent(p.params.rightswipes, target);
            }
        },
    }
    assert(after_swipe(t, actor, target, direction) =~= t);
}

/// Inserting an id into a set that already came out of an insertion of
/// the same id changes nothing.
pub proof fn lemma_id_inserted_idempotent(o: Option<Seq<Seq<char>>>, id: Seq<char>)
    ensures
        id_inserted(id_inserted(o, id), id) == id_inserted(o, id),
{
    match o {
        None => {
            assert(seq![id].contains(id)) by {
                assert(seq![id][0] == id);
            }
        },
        Some(s) => {
            if !s.contains(id) {
                assert(s.push(id).contains(id)) by {
                    assert(s.push(id)[s.len() as int] == id);
                }
            }
        },
    }
}

/// A created id is taken: the record just pushed carries it, so a
/// second creation under the same id meets `create_account`'s
/// `AlreadyExists` case and leaves the store unchanged.
pub proof fn lemma_created_id_is_taken(s: Seq<ProfileView>, p: ProfileView)
    ensures
        contains_id(s.push(p), p.user_id),
{
    assert(s.push(p)[s.len() as int] == p);
}

/// A hard delete frees the id: the store that `delete_account` leaves
/// holds the key nowhere, so a following `get_account` on the same id
/// meets its `NotFound` case.
pub proof fn lemma_delete_frees_id(s: Seq<ProfileView>, id: Seq<char>)
    requires
        unique_ids(s),
        contains_id(s, id),
    ensures
        unique_ids(s.remove(index_of_id(s, id))),
        !contains_id(s.remove(index_of_id(s, id)), id),
{
    lemma_index_of_id(s, id);
    let i = index_of_id(s, id);
    let t = s.remove(i);
    assert forall|k: int| 0 <= k < t.len() implies t[k].user_id != id by {
        if k < i {
            assert(t[k] == s[k]);
        } else {
            assert(t[k] == s[k + 1]);
        }
    }
    assert forall|a: int, b: int| 0 <= a < b < t.len() implies t[a].user_id != t[b].user_id by {
        let a0 = if a < i {
            a
        } else {
            a + 1
        };
        let b0 = if b < i {
            b
        } else {
            b + 1
        };
        assert(t[a] == s[a0]);
        assert(t[b] == s[b0]);
    }
}

/// A soft delete keeps the key: the store that `set_user_inactive`
/// leaves still holds the id, now inactive, so a following
/// `get_account` meets its `Inactive` case and a `create_account` under
/// the same id meets its `AlreadyExists` case.
pub proof fn lemma_inactive_key_still_blocks(s: Seq<ProfileView>, id: Seq<char>)
    requires
        unique_ids(s),
        contains_id(s, id),
    ensures
        ({
            let t = s.update(
                index_of_id(s, id),
                (ProfileView { status: false, ..s[index_of_id(s, id)] }),
            );
            &&& unique_ids(t)
            &&& contains_id(t, id)
            &&& !t[index_of_id(t, id)].status
        }),
{
    lemma_index_of_id(s, id);
    let i = index_of_id(s, id);
    let t = s.update(i, (ProfileView { status: false, ..s[i] }));
    assert(t[i].user_id == id);
    assert(contains_id(t, id));
    assert(unique_ids(t));
    lemma_index_of_id(t, id);
    assert(index_of_id(t, id) == i);
}

/// Derives a fresh id from the host-supplied random seed, builds the
/// record with the given creation time and creator identity and with
/// empty relationship state, and inserts it as `create_account` does.
pub fn create_an_account(
    state: &mut State,
    seed: &Vec<u8>,
    created_at: u64,
    creator_principal: String,
    params: UserInputParams,
) -> (r: Result<String, ProfileError>)
    requires
        old(state).wf(),
    ensures
        final(state).wf(),
        r is Err ==> final(state)@ == old(state)@,
        match first_missing(params_from_input(params)@) {
            Some(f) => r == Err::<String, ProfileError>(ProfileError::Validation(f)),
            None => if contains_id(old(state)@, user_id_of(seed@)) {
                r == Err::<String, ProfileError>(ProfileError::AlreadyExists)
            } else {
                &&& r is Ok
                &&& r->Ok_0@ == user_id_of(seed@)
                &&& final(state)@ == old(state)@.push(
                    (ProfileView {
                        user_id: user_id_of(seed@),
                        created_at: created_at,
                        creator_principal: creator_principal@,
                        params: params_from_input(params)@,
                        notifications: Seq::<crate::profile::NotificationView>::empty(),
                        matched_profiles: Seq::<Seq<char>>::empty(),
                        status: true,
                    }),
                )
            },
        },
{
    let user_id = hash_seed(seed);
    let profile = UserProfileCreationInfo {
        user_id: user_id.clone(),
        created_at: created_at,
        creator_principal: creator_principal,
        params: UserProfileParams::from(params),
        notifications: Vec::new(),
        matched_profiles: Vec::new(),
        status: true,
    };
    proof {
        assert(profile.notifications.deep_view() =~= Seq::<
            crate::profile::NotificationView,
        >::empty());
        assert(profile.matched_profiles.deep_view() =~= Seq::<Seq<char>>::empty());
    }
    state.create_account(user_id, profile)
}

} // verus!
