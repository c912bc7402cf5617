//! Per-display position memory, and where the window opens.

use clawd_core::position::{monitor_key, startup_placement, PositionStore, SavedPosition};

fn at(x: i32, y: i32) -> SavedPosition {
    SavedPosition { x, y }
}

#[test]
fn a_remembered_position_reads_back() {
    let mut store = PositionStore::new();
    assert_eq!(store.get("a"), None);
    assert_eq!(store.last_used(), None);

    store.remember("a".to_string(), at(10, 20));
    store.remember("b".to_string(), at(-5, 7));
    assert_eq!(store.get("a"), Some(at(10, 20)));
    assert_eq!(store.get("b"), Some(at(-5, 7)));
    assert_eq!(store.last_used(), Some("b"));

    // Remembering again replaces, and does not duplicate.
    store.remember("a".to_string(), at(1, 2));
    assert_eq!(store.get("a"), Some(at(1, 2)));
    assert_eq!(store.get("b"), Some(at(-5, 7)));
    assert_eq!(store.last_used(), Some("a"));
    assert_eq!(store.entries().len(), 2);
}

#[test]
fn forgetting_clears_everything() {
    let mut store = PositionStore::new();
    store.remember("a".to_string(), at(10, 20));
    store.forget_all();
    assert_eq!(store.get("a"), None);
    assert_eq!(store.last_used(), None);
    assert!(store.entries().is_empty());
}

#[test]
fn startup_prefers_the_display_last_used() {
    let mut store = PositionStore::new();
    store.remember("left".to_string(), at(0, 0));
    store.remember("right".to_string(), at(2000, 100));
    let monitors = vec!["left".to_string(), "right".to_string()];

    let p = startup_placement(&store, &monitors, Some("left")).expect("a display");
    assert_eq!(p.monitor, "right");
    assert_eq!(p.saved, Some(at(2000, 100)));
}

#[test]
fn a_missing_last_display_falls_through_to_any_remembered_one() {
    let mut store = PositionStore::new();
    store.remember("left".to_string(), at(3, 4));
    store.remember("gone".to_string(), at(9, 9));
    let monitors = vec!["primary".to_string(), "left".to_string()];

    let p = startup_placement(&store, &monitors, Some("primary")).expect("a display");
    assert_eq!(p.monitor, "left");
    assert_eq!(p.saved, Some(at(3, 4)));
}

#[test]
fn with_nothing_remembered_the_primary_is_used() {
    let store = PositionStore::new();
    let monitors = vec!["a".to_string(), "b".to_string()];

    let p = startup_placement(&store, &monitors, Some("b")).expect("a display");
    assert_eq!(p.monitor, "b");
    assert_eq!(p.saved, None);

    let p = startup_placement(&store, &monitors, None).expect("a display");
    assert_eq!(p.monitor, "a");
    assert_eq!(p.saved, None);

    assert!(startup_placement(&store, &Vec::new(), None).is_none());
}

#[test]
fn a_display_key_folds_in_size_and_origin() {
    assert_eq!(
        monitor_key(Some("DELL U2720Q"), 3840, 2160, 0, 0),
        "DELL U2720Q@3840x2160+0+0"
    );
    assert_eq!(monitor_key(None, 1920, 1080, -1920, 0), "display@1920x1080+-1920+0");
    assert_ne!(
        monitor_key(Some("LG"), 1920, 1080, 0, 0),
        monitor_key(Some("LG"), 1920, 1080, 1920, 0)
    );
}

#[test]
fn a_store_is_rebuilt_from_what_was_written_out() {
    let mut store = PositionStore::new();
    store.remember("left".to_string(), at(1, 2));
    store.remember("right".to_string(), at(3, 4));

    let rebuilt = PositionStore::from_entries(store.entries(), Some("left".to_string()));
    assert_eq!(rebuilt.get("left"), Some(at(1, 2)));
    assert_eq!(rebuilt.get("right"), Some(at(3, 4)));
    assert_eq!(rebuilt.last_used(), Some("left"));

    // A later entry for the same display wins.
    let rebuilt = PositionStore::from_entries(
        vec![("a".to_string(), at(1, 1)), ("a".to_string(), at(2, 2))],
        None,
    );
    assert_eq!(rebuilt.get("a"), Some(at(2, 2)));
    assert_eq!(rebuilt.entries().len(), 1);
    assert_eq!(rebuilt.last_used(), None);
}

#[test]
fn after_forgetting_the_pet_opens_on_the_primary() {
    let mut store = PositionStore::new();
    store.remember("left".to_string(), at(1, 2));
    store.forget_all();
    let monitors = vec!["left".to_string(), "right".to_string()];
    let p = startup_placement(&store, &monitors, Some("right")).expect("a display");
    assert_eq!(p.monitor, "right");
    assert_eq!(p.saved, None);
}
