use nexum::{
    capsule::{Capsule, CapsuleMode, CapsuleState},
    store::{capsule_from_row, is_duplicate_column, CapsuleStore, StoreError},
};

#[test]
fn renaming_display_name_keeps_slug_stable_in_store() {
    let mut store = CapsuleStore::new();
    let mut capsule = Capsule::new("cap-store-3", "Billing API", CapsuleMode::HostDefault, 2);
    store.upsert(capsule.clone()).unwrap();

    capsule.rename_display_name("Billing API V2");
    store.upsert(capsule).unwrap();

    let loaded = store.get("cap-store-3").unwrap().unwrap();
    assert_eq!(loaded.slug, "billing-api");
    assert_eq!(loaded.display_name, "Billing API V2");
}

#[test]
fn store_supports_lifecycle_state_transition() {
    let mut store = CapsuleStore::new();
    store
        .upsert(Capsule::new(
            "cap-store-4",
            "Stateful Capsule",
            CapsuleMode::HostDefault,
            3,
        ))
        .unwrap();

    store
        .transition_state("cap-store-4", nexum::capsule::CapsuleState::Degraded)
        .unwrap();

    let loaded = store.get("cap-store-4").unwrap().unwrap();
    assert_eq!(loaded.state, nexum::capsule::CapsuleState::Degraded);
}

#[test]
fn store_allocates_stable_capsule_ports_and_releases_them() {
    let mut store = CapsuleStore::new();
    store
        .upsert(Capsule::new(
            "cap-store-ports",
            "Ports Capsule",
            CapsuleMode::HostDefault,
            5,
        ))
        .unwrap();

    let first = store
        .allocate_port("cap-store-ports", 6100, 6103)
        .unwrap()
        .unwrap();
    let second = store
        .allocate_port("cap-store-ports", 6100, 6103)
        .unwrap()
        .unwrap();
    assert_eq!(first, second);
    assert_eq!(first, 6100);

    let released = store.release_ports("cap-store-ports").unwrap();
    assert_eq!(released, 1);

    let reassigned = store
        .allocate_port("cap-store-other", 6100, 6103)
        .unwrap()
        .unwrap();
    assert_eq!(reassigned, 6100);
}

#[test]
fn store_persists_capsule_repo_path_updates() {
    let mut store = CapsuleStore::new();
    store
        .upsert(
            Capsule::new(
                "cap-store-repo",
                "Repo Capsule",
                CapsuleMode::HostDefault,
                6,
            )
            .with_repo_path("/workspace/repo-capsule"),
        )
        .unwrap();

    let loaded = store.get("cap-store-repo").unwrap().unwrap();
    assert_eq!(loaded.repo_path, "/workspace/repo-capsule");

    store
        .set_repo_path("cap-store-repo", "/workspace/moved")
        .unwrap();
    let loaded = store.get("cap-store-repo").unwrap().unwrap();
    assert_eq!(loaded.repo_path, "/workspace/moved");
    assert_eq!(loaded.slug, "repo-capsule");
}

#[test]
fn store_rejects_slug_change_for_existing_capsule() {
    let mut store = CapsuleStore::new();
    let mut capsule = Capsule::new(
        "cap-store-slug",
        "Slug Capsule",
        CapsuleMode::HostDefault,
        5,
    );
    store.upsert(capsule.clone()).unwrap();

    capsule.slug = "manually-mutated".to_string();
    let error = store.upsert(capsule).unwrap_err();
    assert!(matches!(error, StoreError::ImmutableSlug { .. }));
    assert_eq!(
        error,
        StoreError::ImmutableSlug {
            capsule_id: "cap-store-slug".into(),
            existing_slug: "slug-capsule".into(),
            attempted_slug: "manually-mutated".into(),
        }
    );
    assert_eq!(
        store.get("cap-store-slug").unwrap().unwrap().slug,
        "slug-capsule"
    );
}

#[test]
fn capsules_are_listed_in_ascending_order_of_id() {
    let mut store = CapsuleStore::new();
    for id in ["cap-store-2", "cap-store-10", "cap-store-1", "b", "a"] {
        store
            .upsert(Capsule::new(id, "Search Core", CapsuleMode::HostDefault, 4))
            .unwrap();
    }
    let ids = store
        .list()
        .unwrap()
        .into_iter()
        .map(|capsule| capsule.capsule_id)
        .collect::<Vec<_>>();
    assert_eq!(
        ids,
        vec!["a", "b", "cap-store-1", "cap-store-10", "cap-store-2"]
    );
    assert_eq!(store.get("missing").unwrap(), None);
}

#[test]
fn updates_of_an_unknown_capsule_change_nothing() {
    let mut store = CapsuleStore::new();
    store
        .upsert(Capsule::new("known", "Known", CapsuleMode::HostDefault, 1))
        .unwrap();
    store.rename_display_name("unknown", "X").unwrap();
    store.set_repo_path("unknown", "/x").unwrap();
    store
        .transition_state("unknown", CapsuleState::Archived)
        .unwrap();
    let listed = store.list().unwrap();
    assert_eq!(
        listed,
        vec![Capsule::new("known", "Known", CapsuleMode::HostDefault, 1)]
    );
    store.rename_display_name("known", "Renamed").unwrap();
    let loaded = store.get("known").unwrap().unwrap();
    assert_eq!(loaded.display_name, "Renamed");
    assert_eq!(loaded.slug, "known");
    assert_eq!(loaded.state, CapsuleState::Ready);
}

#[test]
fn ports_of_different_capsules_never_overlap() {
    let mut store = CapsuleStore::new();
    assert_eq!(store.allocate_port("a", 7000, 7002).unwrap(), Some(7000));
    assert_eq!(store.allocate_port("b", 7000, 7002).unwrap(), Some(7001));
    assert_eq!(store.allocate_port("c", 7001, 7002).unwrap(), Some(7002));
    assert_eq!(store.allocate_port("d", 7000, 7002).unwrap(), None);
    assert_eq!(store.allocate_port("d", 7002, 7000).unwrap(), None);
    assert_eq!(store.allocate_port("d", 6999, 7002).unwrap(), Some(6999));
    assert_eq!(store.allocate_port("e", 65535, 65535).unwrap(), Some(65535));
    assert_eq!(store.allocate_port("f", 65535, 65535).unwrap(), None);
    assert_eq!(store.allocate_port("a", 1, 2).unwrap(), Some(7000));
    assert_eq!(store.list_ports("a").unwrap(), vec![7000]);
    assert_eq!(store.list_ports("d").unwrap(), vec![6999]);
    assert_eq!(store.list_ports("zz").unwrap(), Vec::<u16>::new());
    assert_eq!(store.release_ports("zz").unwrap(), 0);
    assert_eq!(store.release_ports("b").unwrap(), 1);
    assert_eq!(store.list_ports("b").unwrap(), Vec::<u16>::new());
    assert_eq!(store.allocate_port("g", 7000, 7002).unwrap(), Some(7001));
    for id in ["a", "c", "d", "e", "g"] {
        for other in ["a", "c", "d", "e", "g"] {
            if id != other {
                let mine = store.list_ports(id).unwrap();
                let theirs = store.list_ports(other).unwrap();
                assert!(mine.iter().all(|p| !theirs.contains(p)));
            }
        }
    }
}

#[test]
fn rows_are_read_with_safe_defaults() {
    let capsule = capsule_from_row(
        "id".into(),
        "slug".into(),
        "Name".into(),
        "/repo".into(),
        "isolated_nix_shell",
        "degraded",
        9,
    );
    assert_eq!(capsule.mode, CapsuleMode::IsolatedNixShell);
    assert_eq!(capsule.state, CapsuleState::Degraded);
    assert_eq!(capsule.workspace, 9);
    assert_eq!(capsule.repo_path, "/repo");
    let capsule = capsule_from_row(
        "id".into(),
        "slug".into(),
        "Name".into(),
        "".into(),
        "something",
        "unheard-of",
        0,
    );
    assert_eq!(capsule.mode, CapsuleMode::HostDefault);
    assert_eq!(capsule.state, CapsuleState::Ready);
    assert!(is_duplicate_column("duplicate column name: state"));
    assert!(is_duplicate_column("x duplicate column name"));
    assert!(!is_duplicate_column("duplicate column"));
    assert!(!is_duplicate_column(""));
}

#[test]
fn errors_are_written_as_one_line() {
    assert_eq!(StoreError::Db("locked".into()).message(), "db: locked");
    assert_eq!(StoreError::Io("denied".into()).message(), "io: denied");
    assert_eq!(StoreError::Yaml("bad".into()).message(), "yaml: bad");
    assert_eq!(
        StoreError::ImmutableSlug {
            capsule_id: "c".into(),
            existing_slug: "a".into(),
            attempted_slug: "b".into()
        }
        .message(),
        "immutable slug for capsule c: a cannot become b"
    );
}
