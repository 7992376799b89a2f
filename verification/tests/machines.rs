use garage_operator::admin::ApiQuotas;
use garage_operator::admin::KeyReply;
use garage_operator::machine::access_key_next;
use garage_operator::machine::bucket_next;
use garage_operator::machine::instance_next;
use garage_operator::machine::layout_done;
use garage_operator::machine::plan_layout;
use garage_operator::machine::reconcile_target;
use garage_operator::machine::AccessKeyAction;
use garage_operator::machine::AccessKeyEvent;
use garage_operator::machine::BucketAction;
use garage_operator::machine::BucketEvent;
use garage_operator::machine::LayoutPlan;
use garage_operator::machine::NodesObservation;
use garage_operator::resources::AccessKey;
use garage_operator::resources::AccessKeyPermissions;
use garage_operator::resources::AccessKeySpec;
use garage_operator::resources::AccessKeyState;
use garage_operator::resources::AccessKeyStatus;
use garage_operator::resources::Bucket;
use garage_operator::resources::BucketQuotas;
use garage_operator::resources::BucketSpec;
use garage_operator::resources::BucketState;
use garage_operator::resources::BucketStatus;
use garage_operator::resources::Garage;
use garage_operator::resources::GarageConfig;
use garage_operator::resources::GarageSecrets;
use garage_operator::resources::GarageSpec;
use garage_operator::resources::GarageState;
use garage_operator::resources::GarageStatus;
use garage_operator::resources::GarageStorage;
use garage_operator::resources::NamespacedReference;
use garage_operator::resources::SecretRef;

fn demo_garage(auto_layout: bool) -> Garage {
    Garage {
        name: "demo".to_string(),
        namespace: Some("ns".to_string()),
        spec: GarageSpec {
            auto_layout,
            config: GarageConfig::default(),
            secrets: GarageSecrets { admin: None, rpc: None },
            storage: GarageStorage {
                meta: "pvc-m".to_string(),
                data: vec!["pvc-d0".to_string()],
            },
        },
        status: None,
    }
}

fn photos_bucket(status: Option<BucketStatus>) -> Bucket {
    Bucket {
        name: "photos".to_string(),
        namespace: Some("ns".to_string()),
        spec: BucketSpec {
            garage_ref: NamespacedReference {
                name: "demo".to_string(),
                namespace: "ns".to_string(),
            },
            quotas: BucketQuotas {
                max_size: Some("5Gi".to_string()),
                max_object_count: None,
            },
        },
        status,
    }
}

fn demo_key(status: Option<AccessKeyStatus>) -> AccessKey {
    AccessKey {
        name: "k".to_string(),
        namespace: Some("ns".to_string()),
        spec: AccessKeySpec {
            garage_ref: NamespacedReference {
                name: "demo".to_string(),
                namespace: "ns".to_string(),
            },
            bucket_ref: NamespacedReference {
                name: "photos".to_string(),
                namespace: "ns".to_string(),
            },
            permissions: AccessKeyPermissions { read: true, write: true, owner: false },
            secret_ref: SecretRef { name: None, namespace: None },
        },
        status,
    }
}

#[test]
fn instance_creating_with_auto_layout_moves_to_laying_out() {
    let (status, requeue) = instance_next(None, true, false, 42);
    assert_eq!(status.state, GarageState::LayingOut);
    assert_eq!(status.capacity, 42);
    assert_eq!(requeue, 2);
}

#[test]
fn instance_creating_without_auto_layout_moves_to_ready() {
    let (status, requeue) = instance_next(None, false, false, 0);
    assert_eq!(status.state, GarageState::Ready);
    assert_eq!(requeue, 2);
}

#[test]
fn instance_laying_out_stays_until_layout_committed() {
    let laying = GarageStatus { capacity: 7, state: GarageState::LayingOut };
    let (status, requeue) = instance_next(Some(laying), true, false, 7);
    assert_eq!(status.state, GarageState::LayingOut);
    assert_eq!(requeue, 2);
    let (status, _) = instance_next(Some(laying), true, true, 7);
    assert_eq!(status.state, GarageState::Ready);
}

#[test]
fn instance_errored_restarts_after_fifteen_seconds() {
    let errored = GarageStatus { capacity: 0, state: GarageState::Errored };
    let (status, requeue) = instance_next(Some(errored), true, false, 0);
    assert_eq!(status.state, GarageState::Creating);
    assert_eq!(requeue, 15);
}

#[test]
fn ready_instance_ignores_auto_layout_removal() {
    let ready = GarageStatus { capacity: 9, state: GarageState::Ready };
    let (with_auto, d1) = instance_next(Some(ready), true, false, 9);
    let (without_auto, d2) = instance_next(Some(ready), false, false, 9);
    assert_eq!(with_auto.state, GarageState::Ready);
    assert_eq!(without_auto.state, GarageState::Ready);
    assert_eq!(with_auto.capacity, 9);
    assert_eq!(d1, 3600);
    assert_eq!(d2, 3600);
}

#[test]
fn layout_plan_stages_role_with_ownership_tags() {
    let obs = NodesObservation {
        node_id: "node-1".to_string(),
        layout_version: 0,
        staged_ids: vec![],
    };
    let plan = plan_layout(&"demo".to_string(), &"garage".to_string(), 1024, &obs);
    assert!(!layout_done(&plan));
    match plan {
        LayoutPlan::Stage(role) => {
            assert_eq!(role.id, "node-1");
            assert_eq!(role.capacity, 1024);
            assert_eq!(role.zone, "garage");
            assert_eq!(
                role.tags,
                vec!["owned-by/garage-operator".to_string(), "garage-instance/demo".to_string()]
            );
        },
        _ => panic!("expected a staged role"),
    }
}

#[test]
fn layout_plan_skips_staging_when_already_staged() {
    let obs = NodesObservation {
        node_id: "node-1".to_string(),
        layout_version: 0,
        staged_ids: vec!["node-1".to_string()],
    };
    let plan = plan_layout(&"demo".to_string(), &"garage".to_string(), 1024, &obs);
    assert!(matches!(plan, LayoutPlan::ApplyOnly));
}

#[test]
fn layout_plan_done_once_version_committed() {
    let obs = NodesObservation {
        node_id: "node-1".to_string(),
        layout_version: 1,
        staged_ids: vec![],
    };
    let plan = plan_layout(&"demo".to_string(), &"garage".to_string(), 1024, &obs);
    assert!(layout_done(&plan));
}

#[test]
fn bucket_creation_looks_up_then_creates_and_persists_id() {
    let bucket = photos_bucket(None);
    assert!(matches!(bucket_next(&bucket, &BucketEvent::Begin), BucketAction::Lookup));
    assert!(matches!(
        bucket_next(&bucket, &BucketEvent::Looked(None)),
        BucketAction::Create
    ));
    match bucket_next(&bucket, &BucketEvent::Created("bid-1".to_string())) {
        BucketAction::Persist(status, requeue) => {
            assert_eq!(status.id, "bid-1");
            assert_eq!(status.state, BucketState::Configuring);
            assert_eq!(requeue, 2);
        },
        _ => panic!("expected the new id persisted"),
    }
}

#[test]
fn bucket_creation_adopts_existing_id_without_creating() {
    let bucket = photos_bucket(None);
    match bucket_next(&bucket, &BucketEvent::Looked(Some("pre-existing".to_string()))) {
        BucketAction::Persist(status, _) => {
            assert_eq!(status.id, "pre-existing");
            assert_eq!(status.state, BucketState::Configuring);
        },
        _ => panic!("expected the pre-existing id adopted"),
    }
}

#[test]
fn bucket_configuring_sends_translated_quotas() {
    let bucket = photos_bucket(Some(BucketStatus {
        id: "bid-1".to_string(),
        state: BucketState::Configuring,
    }));
    match bucket_next(&bucket, &BucketEvent::Begin) {
        BucketAction::SetQuotas(id, ApiQuotas { max_size, max_objects }) => {
            assert_eq!(id, "bid-1");
            assert_eq!(max_size, Some(5 * 1024 * 1024 * 1024));
            assert_eq!(max_size, Some(5368709120));
            assert_eq!(max_objects, None);
        },
        _ => panic!("expected a quota write"),
    }
    match bucket_next(&bucket, &BucketEvent::QuotasSet) {
        BucketAction::Persist(status, requeue) => {
            assert_eq!(status.id, "bid-1");
            assert_eq!(status.state, BucketState::Ready);
            assert_eq!(requeue, 1);
        },
        _ => panic!("expected the ready status persisted"),
    }
}

#[test]
fn bucket_ready_pass_changes_nothing() {
    let bucket = photos_bucket(Some(BucketStatus {
        id: "bid-1".to_string(),
        state: BucketState::Ready,
    }));
    match bucket_next(&bucket, &BucketEvent::Begin) {
        BucketAction::Persist(status, requeue) => {
            assert_eq!(status.id, "bid-1");
            assert_eq!(status.state, BucketState::Ready);
            assert_eq!(requeue, 3600);
        },
        _ => panic!("expected only the unchanged status persisted"),
    }
}

#[test]
fn bucket_errored_resets_to_creating() {
    let bucket = photos_bucket(Some(BucketStatus {
        id: "bid-1".to_string(),
        state: BucketState::Errored,
    }));
    match bucket_next(&bucket, &BucketEvent::Begin) {
        BucketAction::Persist(status, requeue) => {
            assert_eq!(status.id, "");
            assert_eq!(status.state, BucketState::Creating);
            assert_eq!(requeue, 15);
        },
        _ => panic!("expected a reset status"),
    }
}

#[test]
fn access_key_creation_sets_friendly_permissions() {
    let key = demo_key(None);
    let bucket = photos_bucket(Some(BucketStatus {
        id: "bid-1".to_string(),
        state: BucketState::Ready,
    }));
    let garage = demo_garage(true);
    assert!(matches!(
        access_key_next(&key, &bucket, &garage, AccessKeyEvent::Begin),
        AccessKeyAction::LookupKey(false)
    ));
    assert!(matches!(
        access_key_next(&key, &bucket, &garage, AccessKeyEvent::Looked(None)),
        AccessKeyAction::CreateKey
    ));
    match access_key_next(&key, &bucket, &garage, AccessKeyEvent::Created("kid-1".to_string())) {
        AccessKeyAction::Persist(status, requeue) => {
            assert_eq!(status.id, "kid-1");
            assert_eq!(status.state, AccessKeyState::Configuring);
            assert_eq!(status.permissions_friendly, "RW-");
            assert_eq!(requeue, 2);
        },
        _ => panic!("expected the new id persisted"),
    }
}

#[test]
fn access_key_configuring_grants_permissions_on_bucket() {
    let key = demo_key(Some(AccessKeyStatus {
        id: "kid-1".to_string(),
        state: AccessKeyState::Configuring,
        permissions_friendly: "RW-".to_string(),
    }));
    let bucket = photos_bucket(Some(BucketStatus {
        id: "bid-1".to_string(),
        state: BucketState::Ready,
    }));
    let garage = demo_garage(true);
    match access_key_next(&key, &bucket, &garage, AccessKeyEvent::Begin) {
        AccessKeyAction::Allow(key_id, bucket_id, permissions) => {
            assert_eq!(key_id, "kid-1");
            assert_eq!(bucket_id, "bid-1");
            assert!(permissions.read);
            assert!(permissions.write);
            assert!(!permissions.owner);
        },
        _ => panic!("expected a permission grant"),
    }
}

#[test]
fn access_key_ready_writes_all_four_credential_entries() {
    let key = demo_key(Some(AccessKeyStatus {
        id: "kid-1".to_string(),
        state: AccessKeyState::Ready,
        permissions_friendly: "RW-".to_string(),
    }));
    let bucket = photos_bucket(Some(BucketStatus {
        id: "bid-1".to_string(),
        state: BucketState::Ready,
    }));
    let garage = demo_garage(true);
    assert!(matches!(
        access_key_next(&key, &bucket, &garage, AccessKeyEvent::Begin),
        AccessKeyAction::LookupKey(true)
    ));
    let fetched = KeyReply {
        access_key_id: Some("GK123".to_string()),
        name: Some("k".to_string()),
        secret_access_key: Some("example-secret-key".to_string()),
    };
    match access_key_next(&key, &bucket, &garage, AccessKeyEvent::Fetched(fetched)) {
        AccessKeyAction::WriteSecret(name, entries) => {
            assert_eq!(name, "k.photos.key");
            assert_eq!(entries.len(), 4);
            assert_eq!(entries[0].name, "AWS_ACCESS_KEY_ID");
            assert_eq!(entries[0].value, "GK123");
            assert_eq!(entries[1].name, "AWS_SECRET_ACCESS_KEY");
            assert_eq!(entries[1].value, "example-secret-key");
            assert_eq!(entries[2].name, "AWS_DEFAULT_REGION");
            assert_eq!(entries[2].value, "garage");
            assert_eq!(entries[3].name, "AWS_ENDPOINT_URL");
            assert_eq!(entries[3].value, "http://demo-api.ns.svc.cluster.local:3900");
        },
        _ => panic!("expected the credential object written"),
    }
}

#[test]
fn access_key_rewrite_carries_the_same_pair_after_out_of_band_deletion() {
    let key = demo_key(Some(AccessKeyStatus {
        id: "kid-1".to_string(),
        state: AccessKeyState::Ready,
        permissions_friendly: "RW-".to_string(),
    }));
    let bucket = photos_bucket(Some(BucketStatus {
        id: "bid-1".to_string(),
        state: BucketState::Ready,
    }));
    let garage = demo_garage(true);
    let fetched = || KeyReply {
        access_key_id: Some("GK123".to_string()),
        name: Some("k".to_string()),
        secret_access_key: Some("example-secret-key".to_string()),
    };
    let first = access_key_next(&key, &bucket, &garage, AccessKeyEvent::Fetched(fetched()));
    let second = access_key_next(&key, &bucket, &garage, AccessKeyEvent::Fetched(fetched()));
    match (first, second) {
        (AccessKeyAction::WriteSecret(n1, e1), AccessKeyAction::WriteSecret(n2, e2)) => {
            assert_eq!(n1, n2);
            assert_eq!(e1.len(), e2.len());
            for (a, b) in e1.iter().zip(e2.iter()) {
                assert_eq!(a.name, b.name);
                assert_eq!(a.value, b.value);
            }
        },
        _ => panic!("expected two identical credential writes"),
    }
}

#[test]
fn access_key_uses_declared_secret_reference_when_present() {
    let mut key = demo_key(Some(AccessKeyStatus {
        id: "kid-1".to_string(),
        state: AccessKeyState::Ready,
        permissions_friendly: "RW-".to_string(),
    }));
    key.spec.secret_ref.name = Some("my-credentials".to_string());
    let name = garage_operator::machine::access_secret_name(&key);
    assert_eq!(name, "my-credentials");
}

#[test]
fn access_key_ready_pass_persists_status_unchanged() {
    let key = demo_key(Some(AccessKeyStatus {
        id: "kid-1".to_string(),
        state: AccessKeyState::Ready,
        permissions_friendly: "RW-".to_string(),
    }));
    let bucket = photos_bucket(None);
    let garage = demo_garage(true);
    match access_key_next(&key, &bucket, &garage, AccessKeyEvent::SecretWritten) {
        AccessKeyAction::Persist(status, requeue) => {
            assert_eq!(status.id, "kid-1");
            assert_eq!(status.state, AccessKeyState::Ready);
            assert_eq!(status.permissions_friendly, "RW-");
            assert_eq!(requeue, 3600);
        },
        _ => panic!("expected the unchanged status persisted"),
    }
}

#[test]
fn access_key_configuring_fails_without_bucket_id() {
    let key = demo_key(Some(AccessKeyStatus {
        id: "kid-1".to_string(),
        state: AccessKeyState::Configuring,
        permissions_friendly: "RW-".to_string(),
    }));
    let bucket = photos_bucket(None);
    let garage = demo_garage(true);
    match access_key_next(&key, &bucket, &garage, AccessKeyEvent::Begin) {
        AccessKeyAction::Fail(e) => {
            assert_eq!(e.metric_label(), "illegalaccesskey");
        },
        _ => panic!("expected a validation failure"),
    }
}

#[test]
fn watch_mapping_drops_malformed_references() {
    let good = NamespacedReference { name: "demo".to_string(), namespace: "ns".to_string() };
    let target = reconcile_target(&good).expect("a well-formed reference maps to its instance");
    assert_eq!(target.name, "demo");
    assert_eq!(target.namespace, "ns");
    let unnamed = NamespacedReference { name: "".to_string(), namespace: "ns".to_string() };
    assert!(reconcile_target(&unnamed).is_none());
    let unspaced = NamespacedReference { name: "demo".to_string(), namespace: "".to_string() };
    assert!(reconcile_target(&unspaced).is_none());
}

#[test]
fn event_notes_name_the_instance() {
    assert_eq!(
        garage_operator::machine::delete_requested_note(&"demo".to_string()),
        "Delete `demo`"
    );
    assert_eq!(
        garage_operator::machine::layout_requested_note(&"demo".to_string()),
        "Configuring layout for `demo`"
    );
    assert_eq!(garage_operator::machine::GARAGE_FINALIZER, "garage.deuxfleurs.fr");
}

#[test]
fn instance_walks_from_creating_through_laying_out_to_ready() {
    let garage = demo_garage(true);
    let zone = garage.spec.config.region.clone();
    let capacity: i64 = 1073741824;

    // First pass: no status yet, so the machine declares the instance
    // laying-out.
    let (status, _) = instance_next(None, garage.spec.auto_layout, false, capacity);
    assert_eq!(status.state, GarageState::LayingOut);

    // Second pass: the topology is empty; the plan stages a role and the
    // instance keeps laying out.
    let obs = NodesObservation {
        node_id: "node-1".to_string(),
        layout_version: 0,
        staged_ids: vec![],
    };
    let plan = plan_layout(&garage.name, &zone, capacity, &obs);
    assert!(matches!(plan, LayoutPlan::Stage(_)));
    let (status, _) =
        instance_next(Some(status), garage.spec.auto_layout, layout_done(&plan), capacity);
    assert_eq!(status.state, GarageState::LayingOut);

    // Third pass: the commit took; the version is nonzero and the machine
    // declares the instance ready.
    let obs = NodesObservation {
        node_id: "node-1".to_string(),
        layout_version: 1,
        staged_ids: vec![],
    };
    let plan = plan_layout(&garage.name, &zone, capacity, &obs);
    let (status, requeue) =
        instance_next(Some(status), garage.spec.auto_layout, layout_done(&plan), capacity);
    assert_eq!(status.state, GarageState::Ready);
    assert_eq!(status.capacity, capacity);
    assert_eq!(requeue, 2);
}

#[test]
fn access_key_configuring_blocks_on_empty_bucket_id() {
    let key = demo_key(Some(AccessKeyStatus {
        id: "kid-1".to_string(),
        state: AccessKeyState::Configuring,
        permissions_friendly: "RW-".to_string(),
    }));
    // A bucket fresh out of an error reset carries a status whose id is
    // still empty; configuring must block on it just like on no status.
    let bucket = photos_bucket(Some(BucketStatus {
        id: "".to_string(),
        state: BucketState::Creating,
    }));
    let garage = demo_garage(true);
    match access_key_next(&key, &bucket, &garage, AccessKeyEvent::Begin) {
        AccessKeyAction::Fail(e) => assert_eq!(e.metric_label(), "illegalaccesskey"),
        _ => panic!("expected configuring to block"),
    }
}

#[test]
fn ownership_references_match_on_both_parts() {
    let reference = NamespacedReference { name: "demo".to_string(), namespace: "ns".to_string() };
    assert!(garage_operator::machine::references(
        &reference,
        &"ns".to_string(),
        &"demo".to_string()
    ));
    assert!(!garage_operator::machine::references(
        &reference,
        &"other".to_string(),
        &"demo".to_string()
    ));
    assert!(!garage_operator::machine::references(
        &reference,
        &"ns".to_string(),
        &"photos".to_string()
    ));
}
