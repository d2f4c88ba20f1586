//! An in-memory provider for tests: it keeps reviews in creation order,
//! numbers them one after another, and can be told to fail its next create,
//! update or get, or to report the companion tool or the login as missing.
//!
//! Its operations take `&mut self`, so one instance shared between callers
//! sits behind one lock of the caller's choosing, and every change of its
//! state happens under it.

use crate::error::Error;
use crate::providers::{
    auth_command_of, cli_name_of, display_name_of, install_url_of, native_review_id,
    CliProbe, CreateReviewParams, Provider, ProviderType, Review, ReviewState,
    UpdateReviewParams,
};
use crate::text::{decimal, push_decimal, str_eq};
use vstd::prelude::*;

verus! {

/// The last position in `s` whose id (or, with `by_branch`, whose source
/// branch) is `key`.
pub open spec fn last_position_of(s: Seq<Review>, key: Seq<char>, by_branch: bool) -> Option<int>
    decreases s.len(),
{
    if s.len() == 0 {
        None
    } else if (if by_branch {
        s.last().source_branch@
    } else {
        s.last().id@
    }) == key {
        Some(s.len() - 1)
    } else {
        last_position_of(s.drop_last(), key, by_branch)
    }
}

/// A position that `last_position_of` gives is in range and holds the key.
pub proof fn lemma_last_position_of(s: Seq<Review>, key: Seq<char>, by_branch: bool)
    ensures
        last_position_of(s, key, by_branch) matches Some(i) ==> 0 <= i < s.len() && (if by_branch {
            s[i].source_branch@
        } else {
            s[i].id@
        }) == key,
    decreases s.len(),
{
    if s.len() > 0 {
        lemma_last_position_of(s.drop_last(), key, by_branch);
    }
}

/// Where the review with id `id` stands.
pub open spec fn position_by_id(s: Seq<Review>, id: Seq<char>) -> Option<int> {
    last_position_of(s, id, false)
}

/// Where the most recent review created for `branch` stands.
pub open spec fn latest_for_branch(s: Seq<Review>, branch: Seq<char>) -> Option<int> {
    last_position_of(s, branch, true)
}

/// A review with the fields that `p` holds put in.
pub open spec fn apply_update(v: Review, p: UpdateReviewParams) -> Review {
    Review {
        title: match p.title {
            Some(t) => t,
            None => v.title,
        },
        description: match p.description {
            Some(d) => d,
            None => v.description,
        },
        target_branch: match p.target_branch {
            Some(b) => b,
            None => v.target_branch,
        },
        draft: match p.draft {
            Some(d) => d,
            None => v.draft,
        },
        ..v
    }
}

/// The web address of review number `n` in the in-memory provider.
pub open spec fn mock_review_url(k: ProviderType, n: nat) -> Seq<char> {
    match k {
        ProviderType::GitLab => "https://gitlab.com/mock/repo/-/merge_requests/"@ + decimal(n),
        ProviderType::GitHub => "https://github.com/mock/repo/pull/"@ + decimal(n),
    }
}

/// The review that creating review number `n` from `p` makes.
pub open spec fn created_review(k: ProviderType, n: nat, p: CreateReviewParams, v: Review) -> bool {
    &&& v.id@ == native_review_id(k, n)
    &&& v.url@ == mock_review_url(k, n)
    &&& v.title == p.title
    &&& v.description == p.description
    &&& v.source_branch == p.source_branch
    &&& v.target_branch == p.target_branch
    &&& v.draft == p.draft
    &&& v.state == ReviewState::Open
}

/// A created review is the one found under its id and the one found for its
/// source branch; every other branch finds what it found before, so on a store
/// where nothing was created for a branch, nothing is found for it.
pub proof fn lemma_review_lifecycle(s: Seq<Review>, v: Review, other: Seq<char>)
    ensures
        position_by_id(s.push(v), v.id@) == Some(s.len() as int),
        latest_for_branch(s.push(v), v.source_branch@) == Some(s.len() as int),
        other != v.source_branch@ ==> latest_for_branch(s.push(v), other) == latest_for_branch(
            s,
            other,
        ),
        latest_for_branch(Seq::<Review>::empty(), other) is None,
{
    assert(s.push(v).drop_last() =~= s);
}

/// An update that sets only the title changes the title and leaves the
/// description, target branch, draft flag and everything else as they were.
pub proof fn lemma_title_only_update(v: Review, p: UpdateReviewParams)
    requires
        p.title is Some,
        p.description is None,
        p.target_branch is None,
        p.draft is None,
    ensures
        apply_update(v, p) == (Review { title: p.title->0, ..v }),
{
}

/// Reviews created after the latest one for a branch, none of them for that
/// branch, leave it the latest: what is found for the branch does not change.
pub proof fn lemma_latest_skips_other_branches(s: Seq<Review>, t: Seq<Review>, branch: Seq<char>)
    requires
        forall|j: int| 0 <= j < t.len() ==> (#[trigger] t[j]).source_branch@ != branch,
    ensures
        latest_for_branch(s + t, branch) == latest_for_branch(s, branch),
    decreases t.len(),
{
    if t.len() == 0 {
        assert(s + t =~= s);
    } else {
        assert((s + t).drop_last() =~= s + t.drop_last());
        assert((s + t).last() == t[t.len() - 1]);
        lemma_latest_skips_other_branches(s, t.drop_last(), branch);
    }
}

/// Putting a review with the same id at the position of an id keeps that
/// position the one found for the id.
proof fn lemma_update_keeps_position(s: Seq<Review>, i: int, v: Review)
    requires
        position_by_id(s, v.id@) == Some(i),
    ensures
        position_by_id(s.update(i, v), v.id@) == Some(i),
    decreases s.len(),
{
    lemma_last_position_of(s, v.id@, false);
    if i < s.len() - 1 {
        assert(s.update(i, v).drop_last() =~= s.drop_last().update(i, v));
        assert(s.update(i, v).last() == s.last());
        lemma_update_keeps_position(s.drop_last(), i, v);
    }
}

/// A title-only update followed by a get of the same id gives the review with
/// the new title and every other field as it was.
pub proof fn lemma_title_update_then_get(s: Seq<Review>, p: UpdateReviewParams, i: int)
    requires
        position_by_id(s, p.review_id@) == Some(i),
        p.title is Some,
        p.description is None,
        p.target_branch is None,
        p.draft is None,
    ensures
        position_by_id(s.update(i, apply_update(s[i], p)), p.review_id@) == Some(i),
        s.update(i, apply_update(s[i], p))[i] == (Review { title: p.title->0, ..s[i] }),
{
    lemma_last_position_of(s, p.review_id@, false);
    lemma_update_keeps_position(s, i, apply_update(s[i], p));
}

/// An in-memory provider.
pub struct MockProvider {
    reviews: Vec<Review>,
    cli_available: bool,
    authenticated: bool,
    fail_create: bool,
    fail_update: bool,
    fail_get: bool,
    provider_type: ProviderType,
}

impl MockProvider {
    /// The reviews, in creation order.
    pub closed spec fn reviews(&self) -> Seq<Review> {
        self.reviews@
    }

    /// The companion tool is reported as installed.
    pub closed spec fn cli_is_available(&self) -> bool {
        self.cli_available
    }

    /// The user is reported as logged in.
    pub closed spec fn is_authenticated(&self) -> bool {
        self.authenticated
    }

    /// The next create fails.
    pub closed spec fn create_fails(&self) -> bool {
        self.fail_create
    }

    /// The next update fails.
    pub closed spec fn update_fails(&self) -> bool {
        self.fail_update
    }

    /// The next get fails.
    pub closed spec fn get_fails(&self) -> bool {
        self.fail_get
    }

    /// The service this provider stands in for.
    pub closed spec fn service(&self) -> ProviderType {
        self.provider_type
    }

    /// Every review's id is its native id under its creation number, from 1.
    pub closed spec fn wf(&self) -> bool {
        forall|i: int|
            0 <= i < self.reviews@.len() ==> (#[trigger] self.reviews@[i]).id@ == native_review_id(
                self.provider_type,
                (i + 1) as nat,
            )
    }

    /// `other` has the same settings as `self`, whatever their reviews.
    pub open spec fn same_settings(&self, other: &MockProvider) -> bool {
        &&& self.cli_is_available() == other.cli_is_available()
        &&& self.is_authenticated() == other.is_authenticated()
        &&& self.create_fails() == other.create_fails()
        &&& self.update_fails() == other.update_fails()
        &&& self.get_fails() == other.get_fails()
        &&& self.service() == other.service()
    }

    /// An empty provider standing in for the given service, with the tool
    /// installed, the user logged in and no failure pending.
    pub fn new(provider_type: ProviderType) -> (r: MockProvider)
        ensures
            r.wf(),
            r.reviews().len() == 0,
            r.cli_is_available(),
            r.is_authenticated(),
            !r.create_fails(),
            !r.update_fails(),
            !r.get_fails(),
            r.service() == provider_type,
    {
        MockProvider {
            reviews: Vec::new(),
            cli_available: true,
            authenticated: true,
            fail_create: false,
            fail_update: false,
            fail_get: false,
            provider_type,
        }
    }

    /// An empty provider standing in for GitLab.
    pub fn new_gitlab() -> (r: MockProvider)
        ensures
            r.wf(),
            r.reviews().len() == 0,
            r.cli_is_available(),
            r.is_authenticated(),
            !r.create_fails(),
            !r.update_fails(),
            !r.get_fails(),
            r.service() == ProviderType::GitLab,
    {
        MockProvider::new(ProviderType::GitLab)
    }

    /// An empty provider standing in for GitHub.
    pub fn new_github() -> (r: MockProvider)
        ensures
            r.wf(),
            r.reviews().len() == 0,
            r.cli_is_available(),
            r.is_authenticated(),
            !r.create_fails(),
            !r.update_fails(),
            !r.get_fails(),
            r.service() == ProviderType::GitHub,
    {
        MockProvider::new(ProviderType::GitHub)
    }

    /// Sets whether the companion tool is reported as installed.
    pub fn set_cli_available(&mut self, available: bool)
        ensures
            final(self).cli_is_available() == available,
            final(self).reviews() == old(self).reviews(),
            final(self).is_authenticated() == old(self).is_authenticated(),
            final(self).create_fails() == old(self).create_fails(),
            final(self).update_fails() == old(self).update_fails(),
            final(self).get_fails() == old(self).get_fails(),
            final(self).service() == old(self).service(),
            old(self).wf() ==> final(self).wf(),
    {
        self.cli_available = available;
    }

    /// Sets whether the user is reported as logged in.
    pub fn set_authenticated(&mut self, authenticated: bool)
        ensures
            final(self).is_authenticated() == authenticated,
            final(self).reviews() == old(self).reviews(),
            final(self).cli_is_available() == old(self).cli_is_available(),
            final(self).create_fails() == old(self).create_fails(),
            final(self).update_fails() == old(self).update_fails(),
            final(self).get_fails() == old(self).get_fails(),
            final(self).service() == old(self).service(),
            old(self).wf() ==> final(self).wf(),
    {
        self.authenticated = authenticated;
    }

    /// Makes the next create fail, once.
    pub fn fail_next_create(&mut self)
        ensures
            final(self).create_fails(),
            final(self).reviews() == old(self).reviews(),
            final(self).cli_is_available() == old(self).cli_is_available(),
            final(self).is_authenticated() == old(self).is_authenticated(),
            final(self).update_fails() == old(self).update_fails(),
            final(self).get_fails() == old(self).get_fails(),
            final(self).service() == old(self).service(),
            old(self).wf() ==> final(self).wf(),
    {
        self.fail_create = true;
    }

    /// Makes the next update fail, once.
    pub fn fail_next_update(&mut self)
        ensures
            final(self).update_fails(),
            final(self).reviews() == old(self).reviews(),
            final(self).cli_is_available() == old(self).cli_is_available(),
            final(self).is_authenticated() == old(self).is_authenticated(),
            final(self).create_fails() == old(self).create_fails(),
            final(self).get_fails() == old(self).get_fails(),
            final(self).service() == old(self).service(),
            old(self).wf() ==> final(self).wf(),
    {
        self.fail_update = true;
    }

    /// Makes the next get fail, once.
    pub fn fail_next_get(&mut self)
        ensures
            final(self).get_fails(),
            final(self).reviews() == old(self).reviews(),
            final(self).cli_is_available() == old(self).cli_is_available(),
            final(self).is_authenticated() == old(self).is_authenticated(),
            final(self).create_fails() == old(self).create_fails(),
            final(self).update_fails() == old(self).update_fails(),
            final(self).service() == old(self).service(),
            old(self).wf() ==> final(self).wf(),
    {
        self.fail_get = true;
    }

    /// Copies of all reviews, in creation order.
    pub fn get_all_reviews(&self) -> (r: Vec<Review>)
        ensures
            r@ == self.reviews(),
    {
        let mut out: Vec<Review> = Vec::new();
        let mut i: usize = 0;
        while i < self.reviews.len()
            invariant
                i <= self.reviews@.len(),
                out@ == self.reviews@.subrange(0, i as int),
            decreases self.reviews@.len() - i,
        {
            out.push(self.reviews[i].duplicate());
            i = i + 1;
            assert(out@ =~= self.reviews@.subrange(0, i as int));
        }
        assert(self.reviews@.subrange(0, i as int) =~= self.reviews@);
        out
    }

    /// Removes every review; numbering starts again from 1.
    pub fn clear_reviews(&mut self)
        ensures
            final(self).reviews().len() == 0,
            final(self).same_settings(old(self)),
            final(self).wf(),
    {
        self.reviews = Vec::new();
    }

    /// How many reviews there are.
    pub fn review_count(&self) -> (r: usize)
        ensures
            r == self.reviews().len(),
    {
        self.reviews.len()
    }

    /// The last position whose id (or, with `by_branch`, source branch) is
    /// `key`.
    fn last_position(&self, key: &str, by_branch: bool) -> (r: Option<usize>)
        ensures
            match r {
                Some(i) => last_position_of(self.reviews@, key@, by_branch) == Some(i as int),
                None => last_position_of(self.reviews@, key@, by_branch) is None,
            },
            r matches Some(i) ==> i < self.reviews@.len(),
    {
        proof {
            lemma_last_position_of(self.reviews@, key@, by_branch);
        }
        let mut i: usize = self.reviews.len();
        assert(self.reviews@.subrange(0, i as int) =~= self.reviews@);
        while i > 0
            invariant
                i <= self.reviews@.len(),
                last_position_of(self.reviews@, key@, by_branch) == last_position_of(
                    self.reviews@.subrange(0, i as int),
                    key@,
                    by_branch,
                ),
            decreases i,
        {
            let v = &self.reviews[i - 1];
            let hit = if by_branch {
                str_eq(v.source_branch.as_str(), key)
            } else {
                str_eq(v.id.as_str(), key)
            };
            assert(self.reviews@.subrange(0, i as int).drop_last() =~= self.reviews@.subrange(
                0,
                i - 1,
            ));
            if hit {
                return Some(i - 1);
            }
            i = i - 1;
        }
        None
    }

    /// The companion tool is installed, or the error that names it and where
    /// to get it.
    pub fn check_cli_available(&self) -> (r: Result<(), Error>)
        ensures
            self.cli_is_available() ==> r is Ok,
            !self.cli_is_available() ==> (r matches Err(
                Error::ProviderCliNotFound { provider, cli_name, install_url },
            ) && provider@ == display_name_of(self.service()) && cli_name@ == cli_name_of(
                self.service(),
            ) && install_url@ == install_url_of(self.service())),
    {
        if self.cli_available {
            Ok(())
        } else {
            Err(
                Error::ProviderCliNotFound {
                    provider: self.provider_type.to_string(),
                    cli_name: String::from_str(self.provider_type.cli_name()),
                    install_url: String::from_str(self.provider_type.install_url()),
                },
            )
        }
    }

    /// The user is logged in, or the error that names the login command.
    pub fn check_authentication(&self) -> (r: Result<(), Error>)
        ensures
            self.is_authenticated() ==> r is Ok,
            !self.is_authenticated() ==> (r matches Err(
                Error::ProviderAuthRequired { provider, auth_command },
            ) && provider@ == display_name_of(self.service()) && auth_command@ == auth_command_of(
                self.service(),
            )),
    {
        if self.authenticated {
            Ok(())
        } else {
            Err(
                Error::ProviderAuthRequired {
                    provider: self.provider_type.to_string(),
                    auth_command: String::from_str(self.provider_type.auth_command()),
                },
            )
        }
    }

    /// Creates a review under the next number; a pending create failure is
    /// reported (and cleared) instead.
    pub fn create_review(&mut self, params: CreateReviewParams) -> (r: Result<Review, Error>)
        ensures
            final(self).service() == old(self).service(),
            final(self).cli_is_available() == old(self).cli_is_available(),
            final(self).is_authenticated() == old(self).is_authenticated(),
            final(self).update_fails() == old(self).update_fails(),
            final(self).get_fails() == old(self).get_fails(),
            !final(self).create_fails(),
            old(self).wf() ==> final(self).wf(),
            old(self).create_fails() ==> (r matches Err(Error::ProviderOperationFailed { .. })
                && final(self).reviews() == old(self).reviews()),
            !old(self).create_fails() && old(self).reviews().len() < u64::MAX ==> (r matches Ok(v)
                && created_review(old(self).service(), (old(self).reviews().len() + 1) as nat, params, v)
                && final(self).reviews() == old(self).reviews().push(v)),
            !old(self).create_fails() && old(self).reviews().len() >= u64::MAX ==> (r matches Err(
                Error::ProviderOperationFailed { .. },
            ) && final(self).reviews() == old(self).reviews()),
    {
        if self.fail_create {
            self.fail_create = false;
            return Err(Error::provider_op("Simulated create failure"));
        }
        let count = self.reviews.len();
        if count as u64 >= u64::MAX {
            return Err(Error::provider_op("No review numbers are left"));
        }
        let number = count as u64 + 1;
        let id = crate::providers::format_review_id(self.provider_type, number);
        let mut url = match self.provider_type {
            ProviderType::GitLab => String::from_str("https://gitlab.com/mock/repo/-/merge_requests/"),
            ProviderType::GitHub => String::from_str("https://github.com/mock/repo/pull/"),
        };
        push_decimal(&mut url, number);
        let review = Review {
            id,
            url,
            title: params.title,
            description: params.description,
            source_branch: params.source_branch,
            target_branch: params.target_branch,
            draft: params.draft,
            state: ReviewState::Open,
        };
        self.reviews.push(review.duplicate());
        Ok(review)
    }

    /// Puts the fields that `params` holds into the review with its id; a
    /// pending update failure is reported (and cleared) instead.
    pub fn update_review(&mut self, params: UpdateReviewParams) -> (r: Result<Review, Error>)
        ensures
            final(self).service() == old(self).service(),
            final(self).cli_is_available() == old(self).cli_is_available(),
            final(self).is_authenticated() == old(self).is_authenticated(),
            final(self).create_fails() == old(self).create_fails(),
            final(self).get_fails() == old(self).get_fails(),
            !final(self).update_fails(),
            old(self).wf() ==> final(self).wf(),
            old(self).update_fails() ==> (r matches Err(Error::ProviderOperationFailed { .. })
                && final(self).reviews() == old(self).reviews()),
            r matches Ok(v) ==> v.id@ == params.review_id@,
            !old(self).update_fails() ==> match position_by_id(old(self).reviews(), params.review_id@) {
                Some(i) => r == Ok::<Review, Error>(apply_update(old(self).reviews()[i], params))
                    && final(self).reviews() == old(self).reviews().update(
                    i,
                    apply_update(old(self).reviews()[i], params),
                ),
                None => r matches Err(Error::ReviewNotFound { branch }) && branch@
                    == params.review_id@ && final(self).reviews() == old(self).reviews(),
            },
    {
        if self.fail_update {
            self.fail_update = false;
            return Err(Error::provider_op("Simulated update failure"));
        }
        proof {
            lemma_last_position_of(self.reviews@, params.review_id@, false);
        }
        match self.last_position(params.review_id.as_str(), false) {
            None => Err(Error::ReviewNotFound { branch: params.review_id }),
            Some(i) => {
                let mut v = self.reviews[i].duplicate();
                if let Some(t) = params.title {
                    v.title = t;
                }
                if let Some(d) = params.description {
                    v.description = d;
                }
                if let Some(b) = params.target_branch {
                    v.target_branch = b;
                }
                if let Some(d) = params.draft {
                    v.draft = d;
                }
                self.reviews[i] = v.duplicate();
                proof {
                    assert(self.reviews@ =~= old(self).reviews@.update(i as int, v));
                }
                Ok(v)
            },
        }
    }

    /// The review with the given id; a pending get failure is reported (and
    /// cleared) instead.
    pub fn get_review(&mut self, review_id: &str) -> (r: Result<Review, Error>)
        ensures
            final(self).reviews() == old(self).reviews(),
            final(self).service() == old(self).service(),
            final(self).cli_is_available() == old(self).cli_is_available(),
            final(self).is_authenticated() == old(self).is_authenticated(),
            final(self).create_fails() == old(self).create_fails(),
            final(self).update_fails() == old(self).update_fails(),
            !final(self).get_fails(),
            old(self).wf() ==> final(self).wf(),
            old(self).get_fails() ==> r matches Err(Error::ProviderOperationFailed { .. }),
            r matches Ok(v) ==> v.id@ == review_id@,
            !old(self).get_fails() ==> match position_by_id(old(self).reviews(), review_id@) {
                Some(i) => r == Ok::<Review, Error>(old(self).reviews()[i]),
                None => r matches Err(Error::ReviewNotFound { branch }) && branch@ == review_id@,
            },
    {
        if self.fail_get {
            self.fail_get = false;
            return Err(Error::provider_op("Simulated get failure"));
        }
        proof {
            lemma_last_position_of(self.reviews@, review_id@, false);
        }
        match self.last_position(review_id, false) {
            Some(i) => Ok(self.reviews[i].duplicate()),
            None => Err(Error::ReviewNotFound { branch: String::from_str(review_id) }),
        }
    }

    /// The most recent review created for the branch, if any.
    pub fn find_review_for_branch(&self, branch: &str) -> (r: Result<Option<Review>, Error>)
        ensures
            match latest_for_branch(self.reviews(), branch@) {
                Some(i) => r == Ok::<Option<Review>, Error>(Some(self.reviews()[i])),
                None => r == Ok::<Option<Review>, Error>(None),
            },
            r matches Ok(Some(v)) ==> v.source_branch@ == branch@,
    {
        proof {
            lemma_last_position_of(self.reviews@, branch@, true);
        }
        match self.last_position(branch, true) {
            Some(i) => Ok(Some(self.reviews[i].duplicate())),
            None => Ok(None),
        }
    }
}

/// In a well-formed store the review created n-th has review number n, so
/// the ids that successive creations hand out are distinct and their numbers
/// strictly increase.
pub proof fn lemma_sequential_ids(m: MockProvider, i: int, j: int)
    requires
        m.wf(),
        0 <= i < j < m.reviews().len(),
    ensures
        crate::providers::review_number_of(m.reviews()[i].id@) == Some((i + 1) as nat),
        crate::providers::review_number_of(m.reviews()[j].id@) == Some((j + 1) as nat),
        m.reviews()[i].id@ != m.reviews()[j].id@,
{
    let k = m.service();
    assert(m.reviews()[i].id@ == native_review_id(k, (i + 1) as nat));
    assert(m.reviews()[j].id@ == native_review_id(k, (j + 1) as nat));
    crate::providers::lemma_review_number_round_trip(k, (i + 1) as nat);
    crate::providers::lemma_review_number_round_trip(k, (j + 1) as nat);
}

impl Provider for MockProvider {
    open spec fn kind(&self) -> ProviderType {
        self.service()
    }

    open spec fn cli_ok(&self, probe: &CliProbe) -> bool {
        self.cli_is_available()
    }

    open spec fn logged_in(&self, probe: &CliProbe) -> bool {
        self.is_authenticated()
    }

    open spec fn implemented(&self) -> bool {
        true
    }

    fn provider_type(&self) -> (r: ProviderType) {
        self.provider_type
    }

    fn check_cli_available(&self, probe: &CliProbe) -> (r: Result<(), Error>) {
        MockProvider::check_cli_available(self)
    }

    fn check_authentication(&self, probe: &CliProbe) -> (r: Result<(), Error>) {
        MockProvider::check_authentication(self)
    }

    fn create_review(&mut self, params: CreateReviewParams) -> (r: Result<Review, Error>) {
        MockProvider::create_review(self, params)
    }

    fn update_review(&mut self, params: UpdateReviewParams) -> (r: Result<Review, Error>) {
        MockProvider::update_review(self, params)
    }

    fn get_review(&mut self, review_id: &str) -> (r: Result<Review, Error>) {
        MockProvider::get_review(self, review_id)
    }

    fn find_review_for_branch(&self, branch: &str) -> (r: Result<Option<Review>, Error>) {
        MockProvider::find_review_for_branch(self, branch)
    }
}

} // verus!
