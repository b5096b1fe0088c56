use emoji_commit::registry::{BumpLevel, CommitType, COMMIT_TYPE_COUNT};

#[test]
fn registry_order_and_count() {
    let all = CommitType::variants();
    assert_eq!(all.len(), COMMIT_TYPE_COUNT);
    assert_eq!(
        all,
        vec![
            CommitType::Breaking,
            CommitType::Feature,
            CommitType::Bugfix,
            CommitType::Other,
            CommitType::Meta,
        ]
    );
    assert_eq!(CommitType::first_variant(), CommitType::Breaking);
    assert_eq!(CommitType::last_variant(), CommitType::Meta);
}

#[test]
fn registry_next_is_cyclic() {
    assert_eq!(CommitType::Breaking.next_variant(), CommitType::Feature);
    assert_eq!(CommitType::Feature.next_variant(), CommitType::Bugfix);
    assert_eq!(CommitType::Bugfix.next_variant(), CommitType::Other);
    assert_eq!(CommitType::Other.next_variant(), CommitType::Meta);
    assert_eq!(CommitType::Meta.next_variant(), CommitType::Breaking);
}

#[test]
fn registry_prev_is_cyclic() {
    assert_eq!(CommitType::Breaking.prev_variant(), CommitType::Meta);
    assert_eq!(CommitType::Meta.prev_variant(), CommitType::Other);
    assert_eq!(CommitType::Other.prev_variant(), CommitType::Bugfix);
    assert_eq!(CommitType::Bugfix.prev_variant(), CommitType::Feature);
    assert_eq!(CommitType::Feature.prev_variant(), CommitType::Breaking);
}

#[test]
fn registry_round_trips_through_neighbours() {
    for t in CommitType::variants() {
        assert_eq!(t.next_variant().prev_variant(), t);
        assert_eq!(t.prev_variant().next_variant(), t);
    }
}

#[test]
fn registry_lookup_by_position() {
    assert_eq!(CommitType::commit_type_at_index(0), Some(CommitType::Breaking));
    assert_eq!(CommitType::commit_type_at_index(1), Some(CommitType::Feature));
    assert_eq!(CommitType::commit_type_at_index(2), Some(CommitType::Bugfix));
    assert_eq!(CommitType::commit_type_at_index(3), Some(CommitType::Other));
    assert_eq!(CommitType::commit_type_at_index(4), Some(CommitType::Meta));
    assert_eq!(CommitType::commit_type_at_index(5), None);
    assert_eq!(CommitType::commit_type_at_index(8), None);
}

#[test]
fn registry_glyphs() {
    assert_eq!(CommitType::Breaking.emoji(), "💥");
    assert_eq!(CommitType::Feature.emoji(), "🎉");
    assert_eq!(CommitType::Bugfix.emoji(), "🐛");
    assert_eq!(CommitType::Other.emoji(), "🔥");
    assert_eq!(CommitType::Meta.emoji(), "🌹");
}

#[test]
fn registry_bump_levels_and_names() {
    assert_eq!(CommitType::Breaking.bump_level(), BumpLevel::Major);
    assert_eq!(CommitType::Feature.bump_level(), BumpLevel::Minor);
    assert_eq!(CommitType::Bugfix.bump_level(), BumpLevel::Patch);
    assert_eq!(CommitType::Other.bump_level(), BumpLevel::Patch);
    assert_eq!(CommitType::Meta.bump_level(), BumpLevel::NoBump);
    assert_eq!(BumpLevel::Major.name(), "Major");
    assert_eq!(BumpLevel::Minor.name(), "Minor");
    assert_eq!(BumpLevel::Patch.name(), "Patch");
    assert_eq!(BumpLevel::NoBump.name(), "None");
}

#[test]
fn registry_descriptions() {
    assert_eq!(CommitType::Breaking.description(), "Breaking change");
    assert_eq!(CommitType::Feature.description(), "New functionality");
    assert_eq!(CommitType::Bugfix.description(), "Bugfix");
    assert_eq!(CommitType::Other.description(), "Cleanup / Performance");
    assert_eq!(CommitType::Meta.description(), "Meta");
}
