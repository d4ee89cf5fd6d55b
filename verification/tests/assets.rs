use brengin::asset_registry::{
    check_loading, get_candidate_paths, is_final_result, state_of_result, AssetBasePaths,
    AssetLoadError, AssetLoadState, AssetLoaderPlugin, AssetsLoadStatus,
};
use brengin::assets::asset_id::{AssetId, ASSET_ID_SENTINEL};
use brengin::assets::asset_stats::{setup_asset_stats_entry, update_stats_system, AssetStats};
use brengin::assets::AssetTable;

#[test]
fn asset_table_hands_out_increasing_ids() {
    let mut t: AssetTable<&str, u8> = AssetTable::new();
    assert_eq!(t.next_id(), 0);
    let a = t.insert("a", 1);
    let b = t.insert("b", 2);
    assert_eq!(a, 0);
    assert_eq!(b, 1);
    assert_eq!(t.next_id(), 2);
    assert_eq!(t.len(), 2);
    assert!(t.contains(a));
    assert_eq!(*t.get(b), "b");
    assert_eq!(t.get_by_id(a), Some(&"a"));
    assert_eq!(t.get_by_id(7), None);
    assert_eq!(t.handle_of(b), Some(&2));
    let mut ids = t.ids();
    ids.sort();
    assert_eq!(ids, vec![0, 1]);
}

#[test]
fn asset_table_retain_drops_rejected_handles_and_keeps_ids_fresh() {
    let mut t: AssetTable<&str, u8> = AssetTable::default();
    t.insert("a", 0);
    t.insert("b", 1);
    t.insert("c", 0);
    t.retain(|w| *w != 0);
    assert_eq!(t.len(), 1);
    assert!(!t.contains(0));
    assert!(t.contains(1));
    assert!(!t.contains(2));
    // ids are never reused
    assert_eq!(t.insert("d", 1), 3);
}

#[test]
fn asset_id_sentinel_and_equality() {
    let a: AssetId<u8> = AssetId::new(4);
    let b: AssetId<u8> = AssetId::new(4);
    assert!(a == b);
    assert_eq!(a.id(), 4);
    let d: AssetId<u8> = AssetId::default();
    assert_eq!(d.id(), ASSET_ID_SENTINEL);
    assert_eq!(AssetId::<u8>::sentinel().id(), u64::MAX);
    assert!(!(a == d));
    let c = a;
    assert_eq!(c.id(), 4);
}

#[test]
fn asset_stats_entry_records_the_number_of_assets() {
    let mut stats = AssetStats::default();
    setup_asset_stats_entry(&mut stats, 9, "Image".to_string());
    let e = stats.references.get(&9).unwrap();
    assert_eq!(e.name, "Image");
    assert_eq!((e.size, e.data_references, e.weak_references), (0, 0, 0));

    let mut t: AssetTable<u8, ()> = AssetTable::new();
    t.insert(1, ());
    t.insert(2, ());
    update_stats_system(&t, &vec![(1, 2), (3, 1)], &mut stats, 9);
    let e = stats.references.get(&9).unwrap();
    assert_eq!(e.size, 2);
    assert_eq!(e.data_references, 4);
    assert_eq!(e.weak_references, 3);
    assert_eq!(e.name, "Image");
}

#[test]
fn load_status_tracks_running_loads() {
    let mut s = AssetsLoadStatus::default();
    assert!(!s.is_anything_loading());
    assert!(!check_loading(&s));
    assert!(s.status(1).is_none());
    s.set(1, AssetLoadState::Loading);
    s.set(2, AssetLoadState::Loaded);
    assert!(s.is_anything_loading());
    assert!(check_loading(&s));
    assert!(matches!(s.status(2), Some(AssetLoadState::Loaded)));
    s.set(1, AssetLoadState::Error(AssetLoadError::LoaderNotFound));
    assert!(!s.is_anything_loading());
    assert!(matches!(s.status(1), Some(AssetLoadState::Error(AssetLoadError::LoaderNotFound))));
    assert!(matches!(AssetLoadState::default(), AssetLoadState::Loading));
}

#[test]
fn only_a_missing_file_lets_the_search_go_on() {
    let missing: Result<u8, AssetLoadError> =
        Err(AssetLoadError::FileNotFound("a.png".to_string()));
    let failed: Result<u8, AssetLoadError> = Err(AssetLoadError::LoadFailed("bad".into()));
    let no_loader: Result<u8, AssetLoadError> = Err(AssetLoadError::LoaderNotFound);
    assert!(!is_final_result(&missing));
    assert!(is_final_result(&failed));
    assert!(is_final_result(&no_loader));
    assert!(is_final_result(&Ok::<u8, AssetLoadError>(1)));
}

#[test]
fn load_results_become_load_states() {
    let (v, s) = state_of_result::<u8>(Ok(5));
    assert_eq!(v, Some(5));
    assert!(matches!(s, AssetLoadState::Loaded));
    let (v, s) = state_of_result::<u8>(Err(AssetLoadError::LoadFailed("x".into())));
    assert_eq!(v, None);
    assert!(matches!(s, AssetLoadState::Error(AssetLoadError::LoadFailed(m)) if m == "x"));
}

#[test]
fn candidate_paths_follow_the_base_paths() {
    let bases = AssetBasePaths(vec!["/a".to_string(), "b/".to_string(), String::new()]);
    let p = "img/x.png";
    let c = get_candidate_paths(&bases, p);
    assert_eq!(c, vec!["/a/img/x.png".to_string(), "b/img/x.png".to_string(), "img/x.png".to_string()]);
    let none = get_candidate_paths(&AssetBasePaths(vec![]), p);
    assert!(none.is_empty());
}

#[test]
fn loader_plugin_hands_back_its_loader() {
    let plugin: AssetLoaderPlugin<u8, &str> = AssetLoaderPlugin::new("png");
    assert_eq!(plugin.into_loader(), "png");
}
