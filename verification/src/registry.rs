//! The ordered, cyclic registry of commit types.
//!
//! The registry is a closed set of five variants, held as an explicit order
//! with index arithmetic: position `i` wraps to `(i + 1) % 5` going forward
//! and to `(i + 4) % 5` going back. Each variant carries a display glyph, a
//! semantic-versioning bump level and a short description.

use vstd::prelude::*;

verus! {

/// Number of commit types in the registry.
pub const COMMIT_TYPE_COUNT: usize = 5;

/// Semantic-versioning severity carried by a commit type.
#[derive(Clone, Copy, Debug, PartialEq, Eq, Structural)]
pub enum BumpLevel {
    Major,
    Minor,
    Patch,
    NoBump,
}

impl BumpLevel {
    /// Display name of the bump level.
    pub open spec fn name_spec(self) -> Seq<char> {
        match self {
            BumpLevel::Major => "Major"@,
            BumpLevel::Minor => "Minor"@,
            BumpLevel::Patch => "Patch"@,
            BumpLevel::NoBump => "None"@,
        }
    }

    /// Display name of the bump level.
    pub fn name(self) -> (r: &'static str)
        ensures
            r@ == self.name_spec(),
    {
        match self {
            BumpLevel::Major => "Major",
            BumpLevel::Minor => "Minor",
            BumpLevel::Patch => "Patch",
            BumpLevel::NoBump => "None",
        }
    }
}

/// A commit type: one member of the fixed, ordered, cyclic variant set.
#[derive(Clone, Copy, Debug, PartialEq, Eq, Structural)]
pub enum CommitType {
    Breaking,
    Feature,
    Bugfix,
    Other,
    Meta,
}

impl CommitType {
    /// Zero-based position of the variant in the registry order.
    pub open spec fn index_spec(self) -> int {
        match self {
            CommitType::Breaking => 0,
            CommitType::Feature => 1,
            CommitType::Bugfix => 2,
            CommitType::Other => 3,
            CommitType::Meta => 4,
        }
    }

    /// The variant standing at position `i` of the registry order.
    pub open spec fn from_index_spec(i: int) -> CommitType {
        if i == 0 {
            CommitType::Breaking
        } else if i == 1 {
            CommitType::Feature
        } else if i == 2 {
            CommitType::Bugfix
        } else if i == 3 {
            CommitType::Other
        } else {
            CommitType::Meta
        }
    }

    /// Cyclic successor: the next variant in order, wrapping from the last
    /// to the first.
    pub open spec fn next_spec(self) -> CommitType {
        Self::from_index_spec((self.index_spec() + 1) % 5)
    }

    /// Cyclic predecessor: the previous variant in order, wrapping from the
    /// first to the last.
    pub open spec fn prev_spec(self) -> CommitType {
        Self::from_index_spec((self.index_spec() + 4) % 5)
    }

    /// Glyph shown in front of a message of this type.
    pub open spec fn emoji_spec(self) -> Seq<char> {
        match self {
            CommitType::Breaking => "💥"@,
            CommitType::Feature => "🎉"@,
            CommitType::Bugfix => "🐛"@,
            CommitType::Other => "🔥"@,
            CommitType::Meta => "🌹"@,
        }
    }

    /// Human description of this commit type.
    pub open spec fn description_spec(self) -> Seq<char> {
        match self {
            CommitType::Breaking => "Breaking change"@,
            CommitType::Feature => "New functionality"@,
            CommitType::Bugfix => "Bugfix"@,
            CommitType::Other => "Cleanup / Performance"@,
            CommitType::Meta => "Meta"@,
        }
    }

    /// Bump level of this commit type.
    pub open spec fn bump_level_spec(self) -> BumpLevel {
        match self {
            CommitType::Breaking => BumpLevel::Major,
            CommitType::Feature => BumpLevel::Minor,
            CommitType::Bugfix => BumpLevel::Patch,
            CommitType::Other => BumpLevel::Patch,
            CommitType::Meta => BumpLevel::NoBump,
        }
    }

    /// The registry in its fixed order.
    pub open spec fn all_variants() -> Seq<CommitType> {
        seq![
            CommitType::Breaking,
            CommitType::Feature,
            CommitType::Bugfix,
            CommitType::Other,
            CommitType::Meta,
        ]
    }

    /// First variant of the registry order.
    pub fn first_variant() -> (r: CommitType)
        ensures
            r == Self::from_index_spec(0),
    {
        CommitType::Breaking
    }

    /// Last variant of the registry order.
    pub fn last_variant() -> (r: CommitType)
        ensures
            r == Self::from_index_spec(4),
    {
        CommitType::Meta
    }

    /// Zero-based position of the variant in the registry order.
    pub fn index(self) -> (i: usize)
        ensures
            i == self.index_spec(),
            i < COMMIT_TYPE_COUNT,
    {
        match self {
            CommitType::Breaking => 0,
            CommitType::Feature => 1,
            CommitType::Bugfix => 2,
            CommitType::Other => 3,
            CommitType::Meta => 4,
        }
    }

    /// Positional lookup for numeric hotkeys: the variant at zero-based
    /// position `index`, or nothing when the position is outside the
    /// registry.
    pub fn commit_type_at_index(index: usize) -> (r: Option<CommitType>)
        ensures
            index < COMMIT_TYPE_COUNT ==> r == Some(Self::from_index_spec(index as int)),
            index >= COMMIT_TYPE_COUNT ==> r is None,
    {
        match index {
            0 => Some(CommitType::Breaking),
            1 => Some(CommitType::Feature),
            2 => Some(CommitType::Bugfix),
            3 => Some(CommitType::Other),
            4 => Some(CommitType::Meta),
            _ => None,
        }
    }

    /// Cyclic successor of this variant.
    pub fn next_variant(self) -> (r: CommitType)
        ensures
            r == self.next_spec(),
    {
        match self {
            CommitType::Breaking => CommitType::Feature,
            CommitType::Feature => CommitType::Bugfix,
            CommitType::Bugfix => CommitType::Other,
            CommitType::Other => CommitType::Meta,
            CommitType::Meta => CommitType::Breaking,
        }
    }

    /// Cyclic predecessor of this variant.
    pub fn prev_variant(self) -> (r: CommitType)
        ensures
            r == self.prev_spec(),
    {
        match self {
            CommitType::Breaking => CommitType::Meta,
            CommitType::Feature => CommitType::Breaking,
            CommitType::Bugfix => CommitType::Feature,
            CommitType::Other => CommitType::Bugfix,
            CommitType::Meta => CommitType::Other,
        }
    }

    /// All variants, in registry order.
    pub fn variants() -> (r: Vec<CommitType>)
        ensures
            r@ == Self::all_variants(),
    {
        let mut r: Vec<CommitType> = Vec::new();
        r.push(CommitType::Breaking);
        r.push(CommitType::Feature);
        r.push(CommitType::Bugfix);
        r.push(CommitType::Other);
        r.push(CommitType::Meta);
        proof {
            assert(r@ =~= Self::all_variants());
        }
        r
    }

    /// Glyph shown in front of a message of this type.
    pub fn emoji(self) -> (r: &'static str)
        ensures
            r@ == self.emoji_spec(),
    {
        match self {
            CommitType::Breaking => "💥",
            CommitType::Feature => "🎉",
            CommitType::Bugfix => "🐛",
            CommitType::Other => "🔥",
            CommitType::Meta => "🌹",
        }
    }

    /// Human description of this commit type.
    pub fn description(self) -> (r: &'static str)
        ensures
            r@ == self.description_spec(),
    {
        match self {
            CommitType::Breaking => "Breaking change",
            CommitType::Feature => "New functionality",
            CommitType::Bugfix => "Bugfix",
            CommitType::Other => "Cleanup / Performance",
            CommitType::Meta => "Meta",
        }
    }

    /// Bump level of this commit type.
    pub fn bump_level(self) -> (r: BumpLevel)
        ensures
            r == self.bump_level_spec(),
    {
        match self {
            CommitType::Breaking => BumpLevel::Major,
            CommitType::Feature => BumpLevel::Minor,
            CommitType::Bugfix => BumpLevel::Patch,
            CommitType::Other => BumpLevel::Patch,
            CommitType::Meta => BumpLevel::NoBump,
        }
    }
}

/// Cyclic closure of the registry: every successor and predecessor stays in
/// the variant set, the successor of the last variant is the first, and the
/// predecessor of the first is the last.
pub proof fn lemma_cyclic_closure()
    ensures
        forall|t: CommitType| CommitType::all_variants().contains(#[trigger] t.next_spec()),
        forall|t: CommitType| CommitType::all_variants().contains(#[trigger] t.prev_spec()),
        CommitType::from_index_spec(4).next_spec() == CommitType::from_index_spec(0),
        CommitType::from_index_spec(0).prev_spec() == CommitType::from_index_spec(4),
        forall|t: CommitType| #[trigger] t.next_spec().prev_spec() == t,
        forall|t: CommitType| #[trigger] t.prev_spec().next_spec() == t,
{
    assert forall|t: CommitType| CommitType::all_variants().contains(
        #[trigger] t.next_spec(),
    ) by {
        assert(CommitType::all_variants()[t.next_spec().index_spec()] == t.next_spec());
    }
    assert forall|t: CommitType| CommitType::all_variants().contains(
        #[trigger] t.prev_spec(),
    ) by {
        assert(CommitType::all_variants()[t.prev_spec().index_spec()] == t.prev_spec());
    }
}

} // verus!
