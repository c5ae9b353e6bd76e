//! The closed enumerations that cross the engine boundary as numbers.

use vstd::prelude::*;

verus! {

/// What a repository is in the middle of.
#[derive(Clone, Copy, Debug, PartialEq, Eq, Structural)]
pub enum RepositoryState {
    /// Nothing is in progress.
    Clean,
    /// A merge is in progress.
    Merge,
    /// A revert is in progress.
    Revert,
    /// A cherry-pick is in progress.
    CherryPick,
    /// A bisection is in progress.
    Bisect,
    /// A rebase is in progress.
    Rebase,
    /// An interactive rebase is in progress.
    RebaseInteractive,
    /// A merging rebase is in progress.
    RebaseMerge,
    /// A mailbox is being applied.
    ApplyMailbox,
    /// A mailbox is being applied or a rebase is in progress.
    ApplyMailboxOrRebase,
}

impl RepositoryState {
    /// The number by which the engine reports this state.
    pub open spec fn raw_spec(self) -> i32 {
        match self {
            RepositoryState::Clean => 0,
            RepositoryState::Merge => 1,
            RepositoryState::Revert => 2,
            RepositoryState::CherryPick => 4,
            RepositoryState::Bisect => 6,
            RepositoryState::Rebase => 7,
            RepositoryState::RebaseInteractive => 8,
            RepositoryState::RebaseMerge => 9,
            RepositoryState::ApplyMailbox => 10,
            RepositoryState::ApplyMailboxOrRebase => 11,
        }
    }

    /// Whether `code` is the number of one of the ten states.
    pub open spec fn known(code: i32) -> bool {
        exists|s: RepositoryState| s.raw_spec() == code
    }

    /// The state that the engine reports by `code`.
    pub open spec fn of(code: i32) -> RepositoryState
        recommends
            Self::known(code),
    {
        choose|s: RepositoryState| s.raw_spec() == code
    }

    /// The number by which the engine reports this state.
    #[verifier::when_used_as_spec(raw_spec)]
    pub fn raw(self) -> (code: i32)
        ensures
            code == self.raw_spec(),
    {
        match self {
            RepositoryState::Clean => 0,
            RepositoryState::Merge => 1,
            RepositoryState::Revert => 2,
            RepositoryState::CherryPick => 4,
            RepositoryState::Bisect => 6,
            RepositoryState::Rebase => 7,
            RepositoryState::RebaseInteractive => 8,
            RepositoryState::RebaseMerge => 9,
            RepositoryState::ApplyMailbox => 10,
            RepositoryState::ApplyMailboxOrRebase => 11,
        }
    }

    /// The state that the engine reports by `code`, or nothing when `code`
    /// is the number of none of the ten states.
    pub fn from_raw(code: i32) -> (res: Option<RepositoryState>)
        ensures
            res is Some <==> Self::known(code),
            res matches Some(s) ==> s.raw_spec() == code && s == Self::of(code),
    {
        let res = if code == 0 {
            Some(RepositoryState::Clean)
        } else if code == 1 {
            Some(RepositoryState::Merge)
        } else if code == 2 {
            Some(RepositoryState::Revert)
        } else if code == 4 {
            Some(RepositoryState::CherryPick)
        } else if code == 6 {
            Some(RepositoryState::Bisect)
        } else if code == 7 {
            Some(RepositoryState::Rebase)
        } else if code == 8 {
            Some(RepositoryState::RebaseInteractive)
        } else if code == 9 {
            Some(RepositoryState::RebaseMerge)
        } else if code == 10 {
            Some(RepositoryState::ApplyMailbox)
        } else if code == 11 {
            Some(RepositoryState::ApplyMailboxOrRebase)
        } else {
            None
        };
        proof {
            if let Some(s) = res {
                assert(s.raw_spec() == code);
                Self::raw_is_injective(s, Self::of(code));
            } else {
                assert forall|s: RepositoryState| s.raw_spec() != code by {}
            }
        }
        res
    }

    /// No two states share a number.
    pub proof fn raw_is_injective(a: RepositoryState, b: RepositoryState)
        requires
            a.raw_spec() == b.raw_spec(),
        ensures
            a == b,
    {
    }

    /// Reading back the number of a state gives that state.
    pub proof fn of_raw(s: RepositoryState)
        ensures
            Self::known(s.raw_spec()),
            Self::of(s.raw_spec()) == s,
    {
        Self::raw_is_injective(s, Self::of(s.raw_spec()));
    }
}

/// How far a reset reaches.
#[derive(Clone, Copy, Debug, PartialEq, Eq, Structural)]
pub enum ResetType {
    /// Move the head only.
    Soft,
    /// Move the head and replace the index by the target's tree.
    Mixed,
    /// Move the head, replace the index, and replace the working tree by the
    /// index.
    Hard,
}

impl ResetType {
    pub open spec fn raw_spec(self) -> i32 {
        match self {
            ResetType::Soft => 1,
            ResetType::Mixed => 2,
            ResetType::Hard => 3,
        }
    }

    /// The number by which the engine knows this kind of reset.
    #[verifier::when_used_as_spec(raw_spec)]
    pub fn raw(self) -> (code: i32)
        ensures
            code == self.raw_spec(),
    {
        match self {
            ResetType::Soft => 1,
            ResetType::Mixed => 2,
            ResetType::Hard => 3,
        }
    }
}

/// Where a branch lives.
#[derive(Clone, Copy, Debug, PartialEq, Eq, Structural)]
pub enum BranchType {
    /// A branch of this repository.
    Local,
    /// A branch that tracks a remote.
    Remote,
}

impl BranchType {
    pub open spec fn raw_spec(self) -> i32 {
        match self {
            BranchType::Local => 1,
            BranchType::Remote => 2,
        }
    }

    /// The number by which the engine knows this kind of branch.
    #[verifier::when_used_as_spec(raw_spec)]
    pub fn raw(self) -> (code: i32)
        ensures
            code == self.raw_spec(),
    {
        match self {
            BranchType::Local => 1,
            BranchType::Remote => 2,
        }
    }

    /// The number for a walk over the branches that `filter` lets through:
    /// one kind, or both when there is no filter.
    pub open spec fn filter_spec(filter: Option<BranchType>) -> i32 {
        match filter {
            Some(kind) => kind.raw_spec(),
            None => ALL_BRANCHES,
        }
    }

    /// The number for a walk over the branches that `filter` lets through.
    #[verifier::when_used_as_spec(filter_spec)]
    pub fn filter(filter: Option<BranchType>) -> (code: i32)
        ensures
            code == Self::filter_spec(filter),
    {
        match filter {
            Some(kind) => kind.raw(),
            None => ALL_BRANCHES,
        }
    }
}

/// The number that stands for an object of any kind.
pub const ANY_KIND: i32 = -2;

/// The number that stands for a walk over local and remote branches alike.
pub const ALL_BRANCHES: i32 = 3;

/// The kind of an object in the store.
#[derive(Clone, Copy, Debug, PartialEq, Eq, Structural)]
pub enum ObjectKind {
    /// Any kind.
    Any,
    /// A commit.
    Commit,
    /// A tree.
    Tree,
    /// A blob.
    Blob,
    /// A tag.
    Tag,
}

impl ObjectKind {
    pub open spec fn raw_spec(self) -> i32 {
        match self {
            ObjectKind::Any => ANY_KIND,
            ObjectKind::Commit => 1,
            ObjectKind::Tree => 2,
            ObjectKind::Blob => 3,
            ObjectKind::Tag => 4,
        }
    }

    /// The number by which the engine knows this kind of object.
    #[verifier::when_used_as_spec(raw_spec)]
    pub fn raw(self) -> (code: i32)
        ensures
            code == self.raw_spec(),
    {
        match self {
            ObjectKind::Any => ANY_KIND,
            ObjectKind::Commit => 1,
            ObjectKind::Tree => 2,
            ObjectKind::Blob => 3,
            ObjectKind::Tag => 4,
        }
    }

    /// The number for a lookup that expects `kind`: that kind, or any kind
    /// when nothing is expected.
    pub open spec fn expected_spec(kind: Option<ObjectKind>) -> i32 {
        match kind {
            Some(k) => k.raw_spec(),
            None => ANY_KIND,
        }
    }

    /// The number for a lookup that expects `kind`.
    #[verifier::when_used_as_spec(expected_spec)]
    pub fn expected(kind: Option<ObjectKind>) -> (code: i32)
        ensures
            code == Self::expected_spec(kind),
    {
        match kind {
            Some(k) => k.raw(),
            None => ANY_KIND,
        }
    }
}

} // verus!
