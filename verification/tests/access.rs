use toshi_router::access::Access;
use toshi_router::routes::Resource;

const RESOURCES: [Resource; 5] = [
    Resource::Search,
    Resource::Index,
    Resource::Bulk,
    Resource::Summary,
    Resource::Root,
];

#[test]
fn each_resource_asks_for_its_access() {
    assert_eq!(Access::of(Resource::Search), Access::Shared);
    assert_eq!(Access::of(Resource::Summary), Access::Shared);
    assert_eq!(Access::of(Resource::Index), Access::Exclusive);
    assert_eq!(Access::of(Resource::Bulk), Access::Exclusive);
    assert_eq!(Access::of(Resource::Root), Access::Free);
}

#[test]
fn searches_may_run_together() {
    let search = Access::of(Resource::Search);
    let summary = Access::of(Resource::Summary);
    assert!(search.may_overlap(search));
    assert!(search.may_overlap(summary));
    assert!(summary.may_overlap(search));
    assert!(summary.may_overlap(summary));
}

#[test]
fn bulk_ingest_and_search_never_run_together() {
    let bulk = Access::of(Resource::Bulk);
    let search = Access::of(Resource::Search);
    assert!(!bulk.may_overlap(search));
    assert!(!search.may_overlap(bulk));
}

#[test]
fn writers_never_run_together() {
    let bulk = Access::of(Resource::Bulk);
    let index = Access::of(Resource::Index);
    assert!(!bulk.may_overlap(bulk));
    assert!(!bulk.may_overlap(index));
    assert!(!index.may_overlap(bulk));
    assert!(!index.may_overlap(index));
}

#[test]
fn root_request_runs_beside_anything() {
    let root = Access::of(Resource::Root);
    for resource in RESOURCES {
        assert!(root.may_overlap(Access::of(resource)));
        assert!(Access::of(resource).may_overlap(root));
    }
}

#[test]
fn overlap_table_is_complete_and_symmetric() {
    let all = [Access::Free, Access::Shared, Access::Exclusive];
    for a in all {
        for b in all {
            let expected = a == Access::Free
                || b == Access::Free
                || (a == Access::Shared && b == Access::Shared);
            assert_eq!(a.may_overlap(b), expected);
            assert_eq!(a.may_overlap(b), b.may_overlap(a));
        }
    }
}
