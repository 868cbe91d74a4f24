use locspan::{
    FailingRecorder, MapMetadataRecursively, Meta, MetadataRecorder, MetadataRenumber,
    TryMapMetadataRecursively,
};

/// A chain of three nested metadata pairs with metadata 10, 20, 30 from the
/// root inwards.
fn three_node_tree() -> Meta<Box<Meta<Box<Meta<u64, u64>>, u64>>, u64> {
    Meta(Box::new(Meta(Box::new(Meta(7u64, 30u64)), 20u64)), 10u64)
}

#[test]
fn recursive_mapping_visits_in_pre_order() {
    let tree = three_node_tree();
    let mut recorder = MetadataRecorder { seen: Vec::new() };
    let mapped = tree.map_metadata_recursively(&mut recorder);
    assert_eq!(recorder.seen, vec![10u64, 20, 30]);
    assert_eq!(mapped, three_node_tree());
}

#[test]
fn recursive_mapping_supports_stateful_renumbering() {
    let tree = three_node_tree();
    let mut mapper = MetadataRenumber { next: 0 };
    let mapped = tree.map_metadata_recursively(&mut mapper);
    assert_eq!(
        mapped,
        Meta(Box::new(Meta(Box::new(Meta(7u64, 2u64)), 1u64)), 0u64)
    );
    assert_eq!(mapper.next, 3);
}

#[test]
fn renumbering_works_over_any_metadata_type() {
    let tree: Meta<Box<Meta<u64, &str>>, &str> = Meta(Box::new(Meta(4u64, "inner")), "outer");
    let mut mapper = MetadataRenumber { next: 10 };
    let mapped = tree.map_metadata_recursively(&mut mapper);
    assert_eq!(mapped, Meta(Box::new(Meta(4u64, 11u64)), 10u64));
}

#[test]
fn recursive_mapping_through_option() {
    let tree: Meta<Option<Meta<u64, u64>>, u64> = Meta(Some(Meta(3u64, 20u64)), 10u64);
    let mut recorder = MetadataRecorder { seen: Vec::new() };
    let mapped = tree.map_metadata_recursively(&mut recorder);
    assert_eq!(recorder.seen, vec![10u64, 20]);
    assert_eq!(mapped, Meta(Some(Meta(3u64, 20u64)), 10u64));

    let empty: Meta<Option<Meta<u64, u64>>, u64> = Meta(None, 10u64);
    let mut recorder = MetadataRecorder { seen: Vec::new() };
    let mapped = empty.map_metadata_recursively(&mut recorder);
    assert_eq!(recorder.seen, vec![10u64]);
    assert_eq!(mapped, Meta(None, 10u64));
}

#[test]
fn recursive_mapping_visits_sequence_children_first_to_last() {
    let tree: Meta<Vec<Meta<u64, u64>>, u64> =
        Meta(vec![Meta(1u64, 20u64), Meta(2u64, 30u64), Meta(3u64, 40u64)], 10u64);
    let mut recorder = MetadataRecorder { seen: Vec::new() };
    let mapped = tree.map_metadata_recursively(&mut recorder);
    assert_eq!(recorder.seen, vec![10u64, 20, 30, 40]);
    assert_eq!(
        mapped,
        Meta(vec![Meta(1u64, 20u64), Meta(2u64, 30u64), Meta(3u64, 40u64)], 10u64)
    );
}

#[test]
fn fallible_mapping_over_sequence_stops_mid_sequence() {
    let tree: Meta<Vec<Meta<u64, u64>>, u64> =
        Meta(vec![Meta(1u64, 20u64), Meta(2u64, 30u64), Meta(3u64, 40u64)], 10u64);
    let mut recorder = FailingRecorder { seen: Vec::new(), fail_on: 30 };
    let r = tree.try_map_metadata_recursively(&mut recorder);
    assert_eq!(r, Err(30u64));
    assert_eq!(recorder.seen, vec![10u64, 20, 30]);
}

#[test]
fn fallible_mapping_aborts_on_first_failure() {
    let tree = three_node_tree();
    let mut recorder = FailingRecorder { seen: Vec::new(), fail_on: 20 };
    let r = tree.try_map_metadata_recursively(&mut recorder);
    assert_eq!(r, Err(20u64));
    assert_eq!(recorder.seen, vec![10u64, 20]);
}

#[test]
fn fallible_mapping_can_fail_on_the_root() {
    let tree = three_node_tree();
    let mut recorder = FailingRecorder { seen: Vec::new(), fail_on: 10 };
    let r = tree.try_map_metadata_recursively(&mut recorder);
    assert_eq!(r, Err(10u64));
    assert_eq!(recorder.seen, vec![10u64]);
}

#[test]
fn fallible_mapping_succeeds_when_nothing_fails() {
    let tree = three_node_tree();
    let mut recorder = FailingRecorder { seen: Vec::new(), fail_on: 99 };
    let r = tree.try_map_metadata_recursively(&mut recorder);
    assert_eq!(r, Ok(three_node_tree()));
    assert_eq!(recorder.seen, vec![10u64, 20, 30]);
}

#[test]
fn cast_metadata_recursively_converts_every_occurrence() {
    let tree: Meta<Box<Meta<u64, u32>>, u32> = Meta(Box::new(Meta(5u64, 2u32)), 1u32);
    let cast: Meta<Box<Meta<u64, u64>>, u64> = tree.cast_metadata_recursively();
    assert_eq!(cast, Meta(Box::new(Meta(5u64, 2u64)), 1u64));
}

#[test]
fn try_cast_metadata_recursively_fails_on_first_bad_conversion() {
    let good: Meta<Box<Meta<u64, u64>>, u64> = Meta(Box::new(Meta(5u64, 2u64)), 1u64);
    let cast: Result<Meta<Box<Meta<u64, u32>>, u32>, _> = good.try_cast_metadata_recursively();
    assert_eq!(cast, Ok(Meta(Box::new(Meta(5u64, 2u32)), 1u32)));

    let bad: Meta<Box<Meta<u64, u64>>, u64> = Meta(Box::new(Meta(5u64, u64::MAX)), 1u64);
    let cast: Result<Meta<Box<Meta<u64, u32>>, u32>, _> = bad.try_cast_metadata_recursively();
    assert!(cast.is_err());
}

#[test]
fn non_recursive_metadata_cast_on_single_pair() {
    let m: Meta<&str, u32> = Meta("v", 3u32);
    let c: Meta<&str, u64> = m.cast_metadata();
    assert_eq!(c, Meta("v", 3u64));
}
