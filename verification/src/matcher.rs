//! The match query and the cascading relationship cleanup.
//!
//! A match candidate must be a different, active profile whose age falls
//! inside the seeker's preferred bounds, whose gender and location equal
//! the seeker's preferences, and with whom the seeker stands in a mutual
//! right swipe. The cleanup tears every trace of one profile out of all
//! swipe sets in the store, its own included.

use vstd::prelude::*;

use crate::errors::{ProfileError, ValidationField};
use crate::profile::{ParamsView, ProfileView, UserProfileCreationInfo};
use crate::store::{
    contains_id, contains_id_vec, index_of_id, lemma_filter_take_step, lemma_index_of_id,
    Pagination, State,
};

verus! {

/// One page of match candidates together with the count of all of them.
/// The error message is never filled in the success path; it is reserved.
#[derive(Debug)]
pub struct MatchResult {
    pub total_matches: usize,
    pub paginated_profiles: Vec<UserProfileCreationInfo>,
    pub error_message: Option<String>,
}

/// A missing age or age bound falls back to zero.
pub open spec fn unwrap_or_zero(o: Option<u64>) -> u64 {
    match o {
        Some(x) => x,
        None => 0,
    }
}

/// Membership of an id in an optional swipe set; an absent set holds
/// nothing.
pub open spec fn opt_member(o: Option<Seq<Seq<char>>>, id: Seq<char>) -> bool {
    match o {
        None => false,
        Some(s) => s.contains(id),
    }
}

/// Whether `cand` is an eligible match for `seeker`: a different,
/// active profile, age within the seeker's preferred bounds (absent
/// values falling back to zero), gender and location equal to the
/// seeker's preferences (absent on both sides counting as equal), and a
/// right swipe recorded in each direction.
pub open spec fn eligible(seeker: ProfileView, cand: ProfileView) -> bool {
    &&& cand.user_id != seeker.user_id
    &&& cand.status
    &&& unwrap_or_zero(cand.params.age) >= unwrap_or_zero(seeker.params.min_preferred_age)
    &&& unwrap_or_zero(cand.params.age) <= unwrap_or_zero(seeker.params.max_preferred_age)
    &&& cand.params.gender == seeker.params.preferred_gender
    &&& cand.params.location == seeker.params.preferred_location
    &&& opt_member(cand.params.rightswipes, seeker.user_id)
    &&& opt_member(seeker.params.rightswipes, cand.user_id)
}

/// All eligible matches for the seeker, in store order.
pub open spec fn eligible_matches(s: Seq<ProfileView>, seeker: ProfileView) -> Seq<ProfileView> {
    s.filter(|c: ProfileView| eligible(seeker, c))
}

/// Equality of two optional texts, absent-on-both-sides included.
fn opt_str_eq(a: &Option<String>, b: &Option<String>) -> (r: bool)
    ensures
        r == (a.deep_view() == b.deep_view()),
{
    match a {
        None => match b {
            None => true,
            Some(_) => false,
        },
        Some(x) => match b {
            None => false,
            Some(y) => *x == *y,
        },
    }
}

/// Membership of an id in an optional swipe set.
fn opt_contains_id(o: &Option<Vec<String>>, id: &String) -> (r: bool)
    ensures
        r == opt_member(o.deep_view(), id@),
{
    match o {
        None => false,
        Some(v) => contains_id_vec(v, id),
    }
}

/// Checks the whole eligibility condition for one candidate.
fn is_eligible(seeker: &UserProfileCreationInfo, cand: &UserProfileCreationInfo) -> (r: bool)
    ensures
        r == eligible(seeker@, cand@),
{
    if cand.user_id == seeker.user_id {
        return false;
    }
    if !cand.status {
        return false;
    }
    let cand_age = match cand.params.age {
        Some(a) => a,
        None => 0,
    };
    let min_age = match seeker.params.min_preferred_age {
        Some(a) => a,
        None => 0,
    };
    let max_age = match seeker.params.max_preferred_age {
        Some(a) => a,
        None => 0,
    };
    if cand_age < min_age || cand_age > max_age {
        return false;
    }
    if !opt_str_eq(&cand.params.gender, &seeker.params.preferred_gender) {
        return false;
    }
    if !opt_str_eq(&cand.params.location, &seeker.params.preferred_location) {
        return false;
    }
    if !opt_contains_id(&cand.params.rightswipes, &seeker.user_id) {
        return false;
    }
    if !opt_contains_id(&seeker.params.rightswipes, &cand.user_id) {
        return false;
    }
    true
}

/// A stateless read over the store: all profiles eligible for the given
/// seeker, counted in full and returned one 1-based page at a time.
/// Fails with `NotFound`/`Inactive` for the seeker, with a validation
/// error for a zero page or size, and with `OutOfRange` when the page
/// starts past the last match.
pub fn find_matches(state: &State, profile_id: &String, pagination: Pagination) -> (r: Result<
    MatchResult,
    ProfileError,
>)
    requires
        state.wf(),
    ensures
        !contains_id(state@, profile_id@) ==> r == Err::<MatchResult, ProfileError>(
            ProfileError::NotFound,
        ),
        contains_id(state@, profile_id@) && !state@[index_of_id(state@, profile_id@)].status ==> r
            == Err::<MatchResult, ProfileError>(ProfileError::Inactive),
        contains_id(state@, profile_id@) && state@[index_of_id(state@, profile_id@)].status ==> ({
            let seeker = state@[index_of_id(state@, profile_id@)];
            let ms = eligible_matches(state@, seeker);
            if pagination.page == 0 {
                r == Err::<MatchResult, ProfileError>(
                    ProfileError::Validation(ValidationField::Page),
                )
            } else if pagination.size == 0 {
                r == Err::<MatchResult, ProfileError>(
                    ProfileError::Validation(ValidationField::Size),
                )
            } else {
                let start = (pagination.page - 1) * pagination.size;
                let end = if start + pagination.size <= ms.len() {
                    start + pagination.size
                } else {
                    ms.len() as int
                };
                if start >= ms.len() {
                    r == Err::<MatchResult, ProfileError>(ProfileError::OutOfRange)
                } else {
                    &&& r is Ok
                    &&& r->Ok_0.total_matches == ms.len()
                    &&& r->Ok_0.paginated_profiles.deep_view() == ms.subrange(start, end)
                    &&& r->Ok_0.error_message is None
                }
            }
        }),
{
    let spos = match state.find_position(profile_id) {
        None => {
            return Err(ProfileError::NotFound);
        },
        Some(i) => i,
    };
    proof {
        lemma_index_of_id(state@, profile_id@);
    }
    if !state.user_profiles[spos].status {
        return Err(ProfileError::Inactive);
    }
    if pagination.page == 0 {
        return Err(ProfileError::Validation(ValidationField::Page));
    }
    if pagination.size == 0 {
        return Err(ProfileError::Validation(ValidationField::Size));
    }
    let ghost seeker = state@[index_of_id(state@, profile_id@)];
    let mut matched: Vec<UserProfileCreationInfo> = Vec::new();
    let n = state.user_profiles.len();
    let mut i: usize = 0;
    proof {
        assert(state@.take(0) =~= Seq::<ProfileView>::empty());
        assert(matched.deep_view() =~= eligible_matches(state@.take(0), seeker));
    }
    while i < n
        invariant
            i <= n,
            n == state.user_profiles.len(),
            spos < state.user_profiles.len(),
            state@[spos as int] == seeker,
            matched.deep_view() == eligible_matches(state@.take(i as int), seeker),
        decreases n - i,
    {
        proof {
            lemma_filter_take_step(state@, |c: ProfileView| eligible(seeker, c), i as int);
        }
        if is_eligible(&state.user_profiles[spos], &state.user_profiles[i]) {
            matched.push(state.user_profiles[i].clone());
            proof {
                assert(matched.deep_view() =~= eligible_matches(state@.take(i as int), seeker).push(
                    state@[i as int],
                ));
            }
        }
        i = i + 1;
    }
    proof {
        assert(state@.take(n as int) =~= state@);
    }
    let total = matched.len();
    let start = match (pagination.page - 1).checked_mul(pagination.size) {
        None => {
            return Err(ProfileError::OutOfRange);
        },
        Some(s) => s,
    };
    if start >= total {
        return Err(ProfileError::OutOfRange);
    }
    let end = match start.checked_add(pagination.size) {
        None => total,
        Some(e) => if e <= total {
            e
        } else {
            total
        },
    };
    let mut page_items: Vec<UserProfileCreationInfo> = Vec::new();
    let mut j = start;
    while j < end
        invariant
            start <= j <= end <= total,
            total == matched.len(),
            matched.deep_view() == eligible_matches(state@, seeker),
            page_items.deep_view() == matched.deep_view().subrange(start as int, j as int),
        decreases end - j,
    {
        page_items.push(matched[j].clone());
        proof {
            assert(matched.deep_view().subrange(start as int, j + 1 as int)
                =~= matched.deep_view().subrange(start as int, j as int).push(
                matched.deep_view()[j as int],
            ));
        }
        j = j + 1;
    }
    Ok(MatchResult { total_matches: total, paginated_profiles: page_items, error_message: None })
}

/// An optional swipe set with every occurrence of the id taken out,
/// other members kept in order.
pub open spec fn id_removed(o: Option<Seq<Seq<char>>>, id: Seq<char>) -> Option<Seq<Seq<char>>> {
    match o {
        None => None,
        Some(s) => Some(s.filter(|x: Seq<char>| x != id)),
    }
}

/// An optional swipe set emptied; an absent set stays absent.
pub open spec fn cleared_set(o: Option<Seq<Seq<char>>>) -> Option<Seq<Seq<char>>> {
    match o {
        None => None,
        Some(_) => Some(Seq::<Seq<char>>::empty()),
    }
}

/// A record with the given id taken out of both of its swipe sets and
/// everything else untouched.
pub open spec fn swept(p: ProfileView, id: Seq<char>) -> ProfileView {
    ProfileView {
        params: ParamsView {
            leftswipes: id_removed(p.params.leftswipes, id),
            rightswipes: id_removed(p.params.rightswipes, id),
            ..p.params
        },
        ..p
    }
}

/// A record with its matched-profile list and both swipe sets emptied
/// and everything else untouched.
pub open spec fn relationships_cleared(p: ProfileView) -> ProfileView {
    ProfileView {
        matched_profiles: Seq::<Seq<char>>::empty(),
        params: ParamsView {
            leftswipes: cleared_set(p.params.leftswipes),
            rightswipes: cleared_set(p.params.rightswipes),
            ..p.params
        },
        ..p
    }
}

/// Keeps only the members of an id list that differ from the given id.
fn retain_other_ids(v: &mut Vec<String>, id: &String)
    ensures
        final(v).deep_view() == old(v).deep_view().filter(|x: Seq<char>| x != id@),
{
    let mut kept: Vec<String> = Vec::new();
    let n = v.len();
    let mut i: usize = 0;
    proof {
        assert(old(v).deep_view().take(0) =~= Seq::<Seq<char>>::empty());
        assert(kept.deep_view() =~= old(v).deep_view().take(0).filter(|x: Seq<char>| x != id@));
    }
    while i < n
        invariant
            i <= n,
            n == v.len(),
            *v == *old(v),
            kept.deep_view() == old(v).deep_view().take(i as int).filter(
                |x: Seq<char>| x != id@,
            ),
        decreases n - i,
    {
        proof {
            lemma_filter_take_step(old(v).deep_view(), |x: Seq<char>| x != id@, i as int);
        }
        if !(v[i] == *id) {
            kept.push(v[i].clone());
            proof {
                assert(kept.deep_view() =~= old(v).deep_view().take(i as int).filter(
                    |x: Seq<char>| x != id@,
                ).push(old(v).deep_view()[i as int]));
            }
        }
        i = i + 1;
    }
    proof {
        assert(old(v).deep_view().take(n as int) =~= old(v).deep_view());
    }
    *v = kept;
}

/// Takes the id out of an optional swipe set.
fn remove_swipe_id(o: &mut Option<Vec<String>>, id: &String)
    ensures
        final(o).deep_view() == id_removed(old(o).deep_view(), id@),
{
    if let Some(v) = o {
        retain_other_ids(v, id);
    }
}

/// Empties an optional swipe set.
fn clear_swipe_set(o: &mut Option<Vec<String>>)
    ensures
        final(o).deep_view() == cleared_set(old(o).deep_view()),
{
    if let Some(v) = o {
        v.clear();
        proof {
            assert(v.deep_view() =~= Seq::<Seq<char>>::empty());
        }
    }
}

/// Clearing a set wipes out whatever a removal left of it.
proof fn lemma_cleared_after_removed(o: Option<Seq<Seq<char>>>, id: Seq<char>)
    ensures
        cleared_set(id_removed(o, id)) == cleared_set(o),
{
}

/// A set that came out of the removal no longer holds the id.
proof fn lemma_id_removed_free(o: Option<Seq<Seq<char>>>, id: Seq<char>)
    ensures
        !opt_member(id_removed(o, id), id),
{
    if o is Some {
        let s = o->0;
        let pred = |x: Seq<char>| x != id;
        let f = s.filter(pred);
        assert forall|j: int| 0 <= j < f.len() implies f[j] != id by {
            s.lemma_filter_pred(pred, j);
        }
    }
}

/// The cascading cleanup: after the user's own matched-profile list and
/// swipe sets are emptied, a full sweep takes the user's id out of every
/// other record's swipe sets — including records that had unilaterally
/// swiped on the user. All per-record changes land together; a failing
/// call changes nothing.
pub fn remove_matches(state: &mut State, user_id: String) -> (r: Result<String, ProfileError>)
    requires
        old(state).wf(),
    ensures
        final(state).wf(),
        r is Err ==> final(state)@ == old(state)@,
        !contains_id(old(state)@, user_id@) ==> r == Err::<String, ProfileError>(
            ProfileError::NotFound,
        ),
        contains_id(old(state)@, user_id@) && !old(state)@[index_of_id(old(state)@, user_id@)].status
            ==> r == Err::<String, ProfileError>(ProfileError::Inactive),
        contains_id(old(state)@, user_id@) && old(state)@[index_of_id(old(state)@, user_id@)].status
            ==> ({
            let i = index_of_id(old(state)@, user_id@);
            &&& r is Ok
            &&& r->Ok_0@ == user_id@
            &&& final(state)@.len() == old(state)@.len()
            &&& forall|k: int|
                0 <= k < old(state)@.len() && k != i ==> final(state)@[k] == swept(
                    old(state)@[k],
                    user_id@,
                )
            &&& final(state)@[i] == relationships_cleared(old(state)@[i])
            &&& forall|k: int|
                0 <= k < final(state)@.len() ==> !opt_member(
                    final(state)@[k].params.leftswipes,
                    user_id@,
                ) && !opt_member(final(state)@[k].params.rightswipes, user_id@)
            &&& final(state)@[i].matched_profiles == Seq::<Seq<char>>::empty()
        }),
{
    let upos = match state.find_position(&user_id) {
        None => {
            return Err(ProfileError::NotFound);
        },
        Some(i) => i,
    };
    proof {
        lemma_index_of_id(state@, user_id@);
    }
    if !state.user_profiles[upos].status {
        return Err(ProfileError::Inactive);
    }
    let ghost s0 = state@;
    let n = state.user_profiles.len();
    let mut j: usize = 0;
    while j < n
        invariant
            j <= n,
            n == state.user_profiles.len(),
            state@.len() == s0.len(),
            forall|k: int| 0 <= k < j ==> state@[k] == swept(s0[k], user_id@),
            forall|k: int| j <= k < n ==> state@[k] == s0[k],
        decreases n - j,
    {
        let ghost before = state@;
        let mut record = state.user_profiles.remove(j);
        remove_swipe_id(&mut record.params.leftswipes, &user_id);
        remove_swipe_id(&mut record.params.rightswipes, &user_id);
        state.user_profiles.insert(j, record);
        proof {
            assert(record@ == swept(s0[j as int], user_id@));
            assert(state@ =~= before.update(j as int, swept(s0[j as int], user_id@)));
        }
        j = j + 1;
    }
    let ghost after_sweep = state@;
    let mut own = state.user_profiles.remove(upos);
    proof {
        assert(after_sweep[upos as int] == swept(s0[upos as int], user_id@));
        assert(own.deep_view() == after_sweep[upos as int]);
    }
    own.matched_profiles.clear();
    clear_swipe_set(&mut own.params.leftswipes);
    clear_swipe_set(&mut own.params.rightswipes);
    proof {
        assert(own.matched_profiles.deep_view() =~= Seq::<Seq<char>>::empty());
        lemma_cleared_after_removed(s0[upos as int].params.leftswipes, user_id@);
        lemma_cleared_after_removed(s0[upos as int].params.rightswipes, user_id@);
        assert(own@ == relationships_cleared(s0[upos as int]));
    }
    state.user_profiles.insert(upos, own);
    proof {
        assert(state@ =~= after_sweep.update(upos as int, relationships_cleared(s0[upos as int])));
        assert(state@[upos as int] == relationships_cleared(s0[upos as int]));
        assert forall|k: int| 0 <= k < state@.len() implies !opt_member(
            state@[k].params.leftswipes,
            user_id@,
        ) && !opt_member(state@[k].params.rightswipes, user_id@) by {
            if k != upos {
                lemma_id_removed_free(s0[k].params.leftswipes, user_id@);
                lemma_id_removed_free(s0[k].params.rightswipes, user_id@);
            }
        }
        assert forall|a: int, b: int| 0 <= a < b < state@.len() implies state@[a].user_id
            != state@[b].user_id by {
            assert(state@[a].user_id == s0[a].user_id);
            assert(state@[b].user_id == s0[b].user_id);
        }
    }
    Ok(user_id)
}

/// Match symmetry: when two active profiles each satisfy the other's
/// preferences and each has right-swiped the other, each is an eligible
/// match for the other.
pub proof fn lemma_match_symmetry(a: ProfileView, b: ProfileView)
    requires
        a.status,
        b.status,
        a.user_id != b.user_id,
        b.params.gender == a.params.preferred_gender,
        b.params.location == a.params.preferred_location,
        a.params.gender == b.params.preferred_gender,
        a.params.location == b.params.preferred_location,
        unwrap_or_zero(b.params.age) >= unwrap_or_zero(a.params.min_preferred_age),
        unwrap_or_zero(b.params.age) <= unwrap_or_zero(a.params.max_preferred_age),
        unwrap_or_zero(a.params.age) >= unwrap_or_zero(b.params.min_preferred_age),
        unwrap_or_zero(a.params.age) <= unwrap_or_zero(b.params.max_preferred_age),
        opt_member(a.params.rightswipes, b.user_id),
        opt_member(b.params.rightswipes, a.user_id),
    ensures
        eligible(a, b),
        eligible(b, a),
{
}

/// Without reciprocity there is no match: when one side has not
/// right-swiped the other, neither sees the other as eligible.
pub proof fn lemma_no_match_without_reciprocity(a: ProfileView, b: ProfileView)
    requires
        !opt_member(a.params.rightswipes, b.user_id),
    ensures
        !eligible(a, b),
        !eligible(b, a),
{
}

/// A record that is eligible for the seeker is among the seeker's
/// matches, wherever in the store it stands.
pub proof fn lemma_eligible_candidate_is_matched(s: Seq<ProfileView>, seeker: ProfileView, k: int)
    requires
        0 <= k < s.len(),
        eligible(seeker, s[k]),
    ensures
        eligible_matches(s, seeker).contains(s[k]),
{
    s.lemma_filter_contains(|c: ProfileView| eligible(seeker, c), k);
}

} // verus!
