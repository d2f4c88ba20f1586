//! The metadata record kept for a repository: format version, provider,
//! base branch, and per-branch review information. Reading and writing the
//! file is the caller's part.

use crate::error::Error;
use crate::providers::ProviderType;
use crate::text::copy_string;
use vstd::prelude::*;

verus! {

/// The metadata format version this library reads and writes.
pub const METADATA_VERSION: &'static str = "1";

/// The metadata of a repository.
#[derive(Debug, Clone)]
pub struct Metadata {
    /// The format version.
    pub version: String,
    /// The hosting service.
    pub provider: ProviderType,
    /// The branch stacks are based on, such as `main`.
    pub base_branch: String,
    /// The per-branch records, by branch name.
    pub branches: Vec<(String, BranchMetadata)>,
}

/// What is kept for one branch.
#[derive(Debug, Clone)]
pub struct BranchMetadata {
    /// The review's native id, once there is one.
    pub review_id: Option<String>,
    /// The review's address, once there is one.
    pub review_url: Option<String>,
    /// The branch this one is stacked on.
    pub parent: String,
    /// When the record was made, in RFC 3339 form.
    pub created_at: String,
    /// When it was last changed, in RFC 3339 form.
    pub updated_at: Option<String>,
}

/// Relies on chrono's `Utc::now` and `DateTime::to_rfc3339`: the current time
/// as RFC 3339 text. Nothing is assumed of its value.
#[verifier::external_body]
fn now_rfc3339() -> (r: String) {
    chrono::Utc::now().to_rfc3339()
}

/// Where the metadata file lies inside the tool's metadata directory.
pub fn get_metadata_path(basalt_dir: &str) -> (r: String)
    ensures
        r@ == crate::repo::environment::joined(basalt_dir@, "metadata.yml"@),
{
    crate::repo::environment::join_path(basalt_dir, "metadata.yml")
}

/// The first position of a record for branch `name`.
pub open spec fn first_with_key(s: Seq<(String, BranchMetadata)>, name: Seq<char>) -> Option<int>
    decreases s.len(),
{
    if s.len() == 0 {
        None
    } else if s[0].0@ == name {
        Some(0)
    } else {
        match first_with_key(s.drop_first(), name) {
            Some(i) => Some(i + 1),
            None => None,
        }
    }
}

/// The record kept for branch `name`, if any.
pub open spec fn branch_of(s: Seq<(String, BranchMetadata)>, name: Seq<char>) -> Option<BranchMetadata> {
    match first_with_key(s, name) {
        Some(i) => Some(s[i].1),
        None => None,
    }
}

/// The records without any for branch `name`, in their order.
pub open spec fn drop_key(s: Seq<(String, BranchMetadata)>, name: Seq<char>) -> Seq<(String, BranchMetadata)>
    decreases s.len(),
{
    if s.len() == 0 {
        s
    } else if s.last().0@ == name {
        drop_key(s.drop_last(), name)
    } else {
        drop_key(s.drop_last(), name).push(s.last())
    }
}

/// No two records are for the same branch.
pub open spec fn distinct_keys(s: Seq<(String, BranchMetadata)>) -> bool {
    forall|i: int, j: int|
        0 <= i < s.len() && 0 <= j < s.len() && i != j ==> #[trigger] s[i].0@ != #[trigger] s[j].0@
}

/// Some record is for branch `name`.
pub open spec fn has_key(s: Seq<(String, BranchMetadata)>, name: Seq<char>) -> bool {
    exists|i: int| 0 <= i < s.len() && (#[trigger] s[i]).0@ == name
}

/// Dropping a branch's records keeps only branches that had records.
proof fn lemma_drop_key_has_key(s: Seq<(String, BranchMetadata)>, name: Seq<char>, other: Seq<char>)
    requires
        has_key(drop_key(s, name), other),
    ensures
        has_key(s, other),
    decreases s.len(),
{
    if s.len() > 0 {
        let d = drop_key(s.drop_last(), name);
        if s.last().0@ != name && other == s.last().0@ {
            assert(s[s.len() - 1].0@ == other);
        } else {
            if s.last().0@ != name {
                let i = choose|i: int| 0 <= i < d.push(s.last()).len() && (#[trigger] d.push(s.last())[i]).0@ == other;
                assert(d.push(s.last())[i] == d[i]);
            }
            assert(has_key(d, other));
            lemma_drop_key_has_key(s.drop_last(), name, other);
            let i = choose|i: int| 0 <= i < s.drop_last().len() && (#[trigger] s.drop_last()[i]).0@ == other;
            assert(s[i] == s.drop_last()[i]);
        }
    }
}

/// Dropping a branch's records keeps distinct branches distinct.
proof fn lemma_drop_key_distinct(s: Seq<(String, BranchMetadata)>, name: Seq<char>)
    requires
        distinct_keys(s),
    ensures
        distinct_keys(drop_key(s, name)),
    decreases s.len(),
{
    if s.len() > 0 {
        let t = s.drop_last();
        assert forall|i: int, j: int|
            0 <= i < t.len() && 0 <= j < t.len() && i != j implies #[trigger] t[i].0@ != #[trigger] t[j].0@ by {
            assert(t[i] == s[i] && t[j] == s[j]);
        }
        lemma_drop_key_distinct(t, name);
        let d = drop_key(t, name);
        if s.last().0@ != name {
            let e = d.push(s.last());
            assert forall|j: int| 0 <= j < d.len() implies (#[trigger] d[j]).0@ != s.last().0@ by {
                if d[j].0@ == s.last().0@ {
                    assert(has_key(d, s.last().0@));
                    lemma_drop_key_has_key(t, name, s.last().0@);
                    let i = choose|i: int| 0 <= i < t.len() && (#[trigger] t[i]).0@ == s.last().0@;
                    assert(t[i] == s[i]);
                    assert(s[i].0@ != s[s.len() - 1].0@);
                }
            }
            assert forall|i: int, j: int|
                0 <= i < e.len() && 0 <= j < e.len() && i != j implies #[trigger] e[i].0@ != #[trigger] e[j].0@ by {
                if i < d.len() {
                    assert(e[i] == d[i]);
                }
                if j < d.len() {
                    assert(e[j] == d[j]);
                }
            }
        }
    }
}

/// A position that `first_with_key` gives is in range and holds the branch,
/// and none before it does.
proof fn lemma_first_with_key(s: Seq<(String, BranchMetadata)>, name: Seq<char>)
    ensures
        match first_with_key(s, name) {
            Some(i) => 0 <= i < s.len() && s[i].0@ == name && forall|j: int|
                0 <= j < i ==> (#[trigger] s[j]).0@ != name,
            None => forall|j: int| 0 <= j < s.len() ==> (#[trigger] s[j]).0@ != name,
        },
    decreases s.len(),
{
    if s.len() > 0 {
        lemma_first_with_key(s.drop_first(), name);
        assert forall|j: int| 1 <= j < s.len() implies #[trigger] s[j] == s.drop_first()[j - 1] by {}
    }
}

/// With no record for a branch before `k`, the first one at or after is the
/// first one.
proof fn lemma_first_with_key_at(s: Seq<(String, BranchMetadata)>, name: Seq<char>, k: int)
    requires
        0 <= k < s.len(),
        s[k].0@ == name,
        forall|j: int| 0 <= j < k ==> (#[trigger] s[j]).0@ != name,
    ensures
        first_with_key(s, name) == Some(k),
    decreases k,
{
    if k > 0 {
        assert forall|j: int| 0 <= j < k - 1 implies (#[trigger] s.drop_first()[j]).0@ != name by {
            assert(s.drop_first()[j] == s[j + 1]);
        }
        lemma_first_with_key_at(s.drop_first(), name, k - 1);
    }
}

/// Dropping a branch's records keeps every other record, in order, and no
/// record of that branch.
proof fn lemma_drop_key(s: Seq<(String, BranchMetadata)>, name: Seq<char>, other: Seq<char>)
    ensures
        forall|j: int| 0 <= j < drop_key(s, name).len() ==> (#[trigger] drop_key(s, name)[j]).0@
            != name,
        other != name ==> branch_of(drop_key(s, name), other) == branch_of(s, other),
    decreases s.len(),
{
    if s.len() > 0 {
        lemma_drop_key(s.drop_last(), name, other);
        let d = drop_key(s.drop_last(), name);
        lemma_first_with_key(d, other);
        lemma_first_with_key(s.drop_last(), other);
        lemma_first_with_key(s, other);
        if other != name && s.last().0@ != name {
            let e = d.push(s.last());
            lemma_first_with_key(e, other);
            match first_with_key(d, other) {
                Some(i) => {
                    assert(e[i] == d[i]);
                    assert forall|j: int| 0 <= j < i implies (#[trigger] e[j]).0@ != other by {
                        assert(e[j] == d[j]);
                    }
                    lemma_first_with_key_at(e, other, i);
                    let i2 = first_with_key(s.drop_last(), other)->0;
                    assert(s[i2] == s.drop_last()[i2]);
                    assert forall|j: int| 0 <= j < i2 implies (#[trigger] s[j]).0@ != other by {
                        assert(s[j] == s.drop_last()[j]);
                    }
                    lemma_first_with_key_at(s, other, i2);
                },
                None => {
                    assert forall|j: int| 0 <= j < s.len() - 1 implies (#[trigger] s[j]).0@ != other by {
                        assert(s[j] == s.drop_last()[j]);
                    }
                    if s.last().0@ == other {
                        assert forall|j: int| 0 <= j < d.len() implies (#[trigger] e[j]).0@ != other by {
                            assert(e[j] == d[j]);
                        }
                        lemma_first_with_key_at(e, other, d.len() as int);
                        lemma_first_with_key_at(s, other, s.len() - 1);
                    } else {
                        assert forall|j: int| 0 <= j < e.len() implies (#[trigger] e[j]).0@ != other by {
                            if j < d.len() {
                                assert(e[j] == d[j]);
                            }
                        }
                    }
                },
            }
        } else if other != name {
            match first_with_key(s.drop_last(), other) {
                Some(i2) => {
                    assert(s[i2] == s.drop_last()[i2]);
                    assert forall|j: int| 0 <= j < i2 implies (#[trigger] s[j]).0@ != other by {
                        assert(s[j] == s.drop_last()[j]);
                    }
                    lemma_first_with_key_at(s, other, i2);
                },
                None => {
                    assert forall|j: int| 0 <= j < s.len() implies (#[trigger] s[j]).0@ != other by {
                        if j < s.len() - 1 {
                            assert(s[j] == s.drop_last()[j]);
                        }
                    }
                },
            }
        }
        if s.last().0@ != name {
            let e = d.push(s.last());
            assert forall|j: int| 0 <= j < e.len() implies (#[trigger] e[j]).0@ != name by {
                if j < d.len() {
                    assert(e[j] == d[j]);
                }
            }
        }
    }
}

impl Metadata {
    /// No two branch records are for the same branch.
    pub open spec fn wf(&self) -> bool {
        distinct_keys(self.branches@)
    }

    /// The record kept for branch `name`, if any.
    pub open spec fn branch(&self, name: Seq<char>) -> Option<BranchMetadata> {
        branch_of(self.branches@, name)
    }

    /// A record of the current format version with no branch records.
    pub fn new(provider: ProviderType, base_branch: String) -> (r: Metadata)
        ensures
            r.version@ == METADATA_VERSION@,
            r.provider == provider,
            r.base_branch == base_branch,
            r.branches@.len() == 0,
            r.wf(),
    {
        Metadata {
            version: String::from_str(METADATA_VERSION),
            provider,
            base_branch,
            branches: Vec::new(),
        }
    }

    /// The record is of the supported format version, or the error that names
    /// both versions.
    pub fn validate_version(&self) -> (r: Result<(), Error>)
        ensures
            self.version@ == METADATA_VERSION@ ==> r is Ok,
            self.version@ != METADATA_VERSION@ ==> (r matches Err(
                Error::UnsupportedMetadataVersion { version, supported_version },
            ) && version@ == self.version@ && supported_version@ == METADATA_VERSION@),
    {
        if crate::text::str_eq(self.version.as_str(), METADATA_VERSION) {
            Ok(())
        } else {
            Err(
                Error::UnsupportedMetadataVersion {
                    version: copy_string(&self.version),
                    supported_version: String::from_str(METADATA_VERSION),
                },
            )
        }
    }

    /// The position of the first record for branch `name`.
    fn position(&self, name: &str) -> (r: Option<usize>)
        ensures
            match r {
                Some(i) => first_with_key(self.branches@, name@) == Some(i as int),
                None => first_with_key(self.branches@, name@) is None,
            },
            r matches Some(i) ==> i < self.branches@.len(),
    {
        proof {
            lemma_first_with_key(self.branches@, name@);
        }
        let mut i: usize = 0;
        while i < self.branches.len()
            invariant
                i <= self.branches@.len(),
                forall|j: int| 0 <= j < i ==> (#[trigger] self.branches@[j]).0@ != name@,
            decreases self.branches@.len() - i,
        {
            if crate::text::str_eq(self.branches[i].0.as_str(), name) {
                proof {
                    lemma_first_with_key_at(self.branches@, name@, i as int);
                }
                return Some(i);
            }
            i = i + 1;
        }
        None
    }

    /// Stores the record for branch `branch_name`, in place of any it had.
    pub fn set_branch(&mut self, branch_name: String, metadata: BranchMetadata)
        ensures
            final(self).branch(branch_name@) == Some(metadata),
            forall|other: Seq<char>|
                other != branch_name@ ==> #[trigger] final(self).branch(other) == old(self).branch(
                    other,
                ),
            final(self).version == old(self).version,
            final(self).provider == old(self).provider,
            final(self).base_branch == old(self).base_branch,
            old(self).wf() ==> final(self).wf(),
    {
        let ghost name = branch_name@;
        let mut kept: Vec<(String, BranchMetadata)> = Vec::new();
        let mut old_entries: Vec<(String, BranchMetadata)> = Vec::new();
        std::mem::swap(&mut old_entries, &mut self.branches);
        let mut i: usize = 0;
        while i < old_entries.len()
            invariant
                i <= old_entries@.len(),
                name == branch_name@,
                kept@ == drop_key(old_entries@.subrange(0, i as int), name),
            decreases old_entries@.len() - i,
        {
            assert(old_entries@.subrange(0, i + 1).drop_last() =~= old_entries@.subrange(0, i as int));
            assert(old_entries@.subrange(0, i + 1).last() == old_entries@[i as int]);
            if !crate::text::str_eq(old_entries[i].0.as_str(), branch_name.as_str()) {
                let entry = (copy_string(&old_entries[i].0), old_entries[i].1.clone_record());
                assert(entry == old_entries@[i as int]);
                kept.push(entry);
            }
            i = i + 1;
        }
        assert(old_entries@.subrange(0, i as int) =~= old_entries@);
        proof {
            lemma_drop_key(old_entries@, name, name);
            lemma_first_with_key_at(kept@.push((branch_name, metadata)), name, kept@.len() as int);
            assert forall|other: Seq<char>| other != name implies #[trigger] branch_of(
                kept@.push((branch_name, metadata)),
                other,
            ) == branch_of(old_entries@, other) by {
                lemma_drop_key(old_entries@, name, other);
                let e = kept@.push((branch_name, metadata));
                lemma_first_with_key(kept@, other);
                lemma_first_with_key(e, other);
                match first_with_key(kept@, other) {
                    Some(k) => {
                        assert(e[k] == kept@[k]);
                        assert forall|j: int| 0 <= j < k implies (#[trigger] e[j]).0@ != other by {
                            assert(e[j] == kept@[j]);
                        }
                        lemma_first_with_key_at(e, other, k);
                    },
                    None => {
                        assert forall|j: int| 0 <= j < e.len() implies (#[trigger] e[j]).0@ != other by {
                            if j < kept@.len() {
                                assert(e[j] == kept@[j]);
                            }
                        }
                    },
                }
            }
        }
        proof {
            if distinct_keys(old_entries@) {
                lemma_drop_key_distinct(old_entries@, name);
                let e = kept@.push((branch_name, metadata));
                assert forall|i: int, j: int|
                    0 <= i < e.len() && 0 <= j < e.len() && i != j implies #[trigger] e[i].0@
                    != #[trigger] e[j].0@ by {
                    if i < kept@.len() {
                        assert(e[i] == kept@[i]);
                    }
                    if j < kept@.len() {
                        assert(e[j] == kept@[j]);
                    }
                }
            }
        }
        kept.push((branch_name, metadata));
        self.branches = kept;
    }

    /// The record kept for branch `branch_name`, if any.
    pub fn get_branch(&self, branch_name: &str) -> (r: Option<&BranchMetadata>)
        ensures
            match self.branch(branch_name@) {
                Some(m) => r matches Some(b) && *b == m,
                None => r is None,
            },
    {
        match self.position(branch_name) {
            Some(i) => Some(&self.branches[i].1),
            None => None,
        }
    }

    /// Removes the record for branch `branch_name` and hands it back, if
    /// there was one.
    pub fn remove_branch(&mut self, branch_name: &str) -> (r: Option<BranchMetadata>)
        ensures
            r == old(self).branch(branch_name@),
            final(self).branch(branch_name@) is None,
            forall|other: Seq<char>|
                other != branch_name@ ==> #[trigger] final(self).branch(other) == old(self).branch(
                    other,
                ),
            final(self).version == old(self).version,
            final(self).provider == old(self).provider,
            final(self).base_branch == old(self).base_branch,
            old(self).wf() ==> final(self).wf(),
    {
        let ghost name = branch_name@;
        let removed = match self.position(branch_name) {
            Some(i) => Some(self.branches[i].1.clone_record()),
            None => None,
        };
        let mut kept: Vec<(String, BranchMetadata)> = Vec::new();
        let mut old_entries: Vec<(String, BranchMetadata)> = Vec::new();
        std::mem::swap(&mut old_entries, &mut self.branches);
        let mut i: usize = 0;
        while i < old_entries.len()
            invariant
                i <= old_entries@.len(),
                name == branch_name@,
                kept@ == drop_key(old_entries@.subrange(0, i as int), name),
            decreases old_entries@.len() - i,
        {
            assert(old_entries@.subrange(0, i + 1).drop_last() =~= old_entries@.subrange(0, i as int));
            assert(old_entries@.subrange(0, i + 1).last() == old_entries@[i as int]);
            if !crate::text::str_eq(old_entries[i].0.as_str(), branch_name) {
                let entry = (copy_string(&old_entries[i].0), old_entries[i].1.clone_record());
                assert(entry == old_entries@[i as int]);
                kept.push(entry);
            }
            i = i + 1;
        }
        assert(old_entries@.subrange(0, i as int) =~= old_entries@);
        proof {
            lemma_drop_key(old_entries@, name, name);
            lemma_first_with_key(kept@, name);
            assert forall|other: Seq<char>| other != name implies #[trigger] branch_of(kept@, other)
                == branch_of(old_entries@, other) by {
                lemma_drop_key(old_entries@, name, other);
            }
        }
        proof {
            if distinct_keys(old_entries@) {
                lemma_drop_key_distinct(old_entries@, name);
            }
        }
        self.branches = kept;
        removed
    }

    /// Whether a record is kept for branch `branch_name`.
    pub fn has_branch(&self, branch_name: &str) -> (r: bool)
        ensures
            r == self.branch(branch_name@) is Some,
    {
        self.position(branch_name).is_some()
    }
}

impl BranchMetadata {
    /// A copy of the record, equal to it field by field.
    pub fn clone_record(&self) -> (r: BranchMetadata)
        ensures
            r == *self,
    {
        BranchMetadata {
            review_id: match &self.review_id {
                Some(s) => Some(copy_string(s)),
                None => None,
            },
            review_url: match &self.review_url {
                Some(s) => Some(copy_string(s)),
                None => None,
            },
            parent: copy_string(&self.parent),
            created_at: copy_string(&self.created_at),
            updated_at: match &self.updated_at {
                Some(s) => Some(copy_string(s)),
                None => None,
            },
        }
    }

    /// A record for a branch stacked on `parent`, made now, with no review.
    pub fn new(parent: String) -> (r: BranchMetadata)
        ensures
            r.parent == parent,
            r.review_id is None,
            r.review_url is None,
            r.updated_at is None,
    {
        BranchMetadata {
            review_id: None,
            review_url: None,
            parent,
            created_at: now_rfc3339(),
            updated_at: None,
        }
    }

    /// Records the branch's review, and that the record changed now.
    pub fn set_review(&mut self, review_id: String, review_url: String)
        ensures
            final(self).review_id == Some(review_id),
            final(self).review_url == Some(review_url),
            final(self).updated_at is Some,
            final(self).parent == old(self).parent,
            final(self).created_at == old(self).created_at,
    {
        self.review_id = Some(review_id);
        self.review_url = Some(review_url);
        self.updated_at = Some(now_rfc3339());
    }

    /// Records that the record changed now.
    pub fn touch(&mut self)
        ensures
            final(self).updated_at is Some,
            final(self).review_id == old(self).review_id,
            final(self).review_url == old(self).review_url,
            final(self).parent == old(self).parent,
            final(self).created_at == old(self).created_at,
    {
        self.updated_at = Some(now_rfc3339());
    }
}

} // verus!
