use garage_operator::project::claim_capacities;
use garage_operator::project::claim_capacity_bytes;
use garage_operator::project::config_toml;
use garage_operator::project::generate_secret_value;
use garage_operator::project::instance_labels;
use garage_operator::project::plan_generated_secrets;
use garage_operator::project::project;
use garage_operator::project::service_plan;
use garage_operator::project::total_capacity;
use garage_operator::project::workload_plan;
use garage_operator::project::ClaimObservation;
use garage_operator::project::VolumeSource;
use garage_operator::errors::Error;
use garage_operator::resources::Garage;
use garage_operator::resources::GarageConfig;
use garage_operator::resources::GarageSecrets;
use garage_operator::resources::GarageSpec;
use garage_operator::resources::GarageStorage;
use garage_operator::resources::PortConfig;
use garage_operator::resources::SecretRef;
use garage_operator::text::i64_to_string;
use garage_operator::text::u64_to_string;

fn demo_garage() -> Garage {
    Garage {
        name: "demo".to_string(),
        namespace: Some("ns".to_string()),
        spec: GarageSpec {
            auto_layout: true,
            config: GarageConfig::default(),
            secrets: GarageSecrets { admin: None, rpc: None },
            storage: GarageStorage {
                meta: "pvc-m".to_string(),
                data: vec!["pvc-d0".to_string(), "pvc-d1".to_string()],
            },
        },
        status: None,
    }
}

#[test]
fn decimal_rendering_is_exact() {
    assert_eq!(u64_to_string(0), "0");
    assert_eq!(u64_to_string(3903), "3903");
    assert_eq!(u64_to_string(5368709120), "5368709120");
    assert_eq!(i64_to_string(-42), "-42");
    assert_eq!(i64_to_string(0), "0");
    assert_eq!(i64_to_string(i64::MIN), "-9223372036854775808");
}

#[test]
fn defaults_match_the_stock_configuration() {
    let ports = PortConfig::default();
    assert_eq!(ports.admin, 3903);
    assert_eq!(ports.rpc, 3901);
    assert_eq!(ports.s3_api, 3900);
    assert_eq!(ports.s3_web, 3902);
    let config = GarageConfig::default();
    assert_eq!(config.region, "garage");
    assert_eq!(config.replication_mode, "none");
    assert_eq!(garage_operator::resources::region(), "garage");
    assert_eq!(garage_operator::resources::replication(), "none");
}

#[test]
fn prefixed_names_are_distinct_for_distinct_suffixes() {
    let garage = demo_garage();
    assert_eq!(garage.prefixed_name("api"), "demo-api");
    assert_eq!(garage.prefixed_name("config"), "demo-config");
    assert_ne!(garage.prefixed_name("admin.key"), garage.prefixed_name("rpc.key"));
}

#[test]
fn config_text_fills_the_template_exactly() {
    let expected = "metadata_dir = \"/mnt/meta\"\ndata_dir     = [ { path = \"/mnt/disk0\", capacity = \"1073741824B\" },{ path = \"/mnt/disk1\", capacity = \"536870912B\" } ]\ndb_engine    = \"lmdb\"\n\nreplication_mode = \"none\"\n\n# RPC info\nrpc_secret_file = \"/secrets/rpc.key\"\nrpc_bind_addr   = \"[::]:3901\"\n\n[s3_api]\ns3_region = \"garage\"\napi_bind_addr = \"[::]:3900\"\n\n[s3_web]\nbind_addr = \"[::]:3902\"\nroot_domain = \".web.garage.localhost\"\nindex = \"index.html\"\n\n[admin]\napi_bind_addr = \"0.0.0.0:3903\"\nadmin_token_file = \"/secrets/admin.key\"\n";
    let text = config_toml(&GarageConfig::default(), &vec![1073741824, 536870912]);
    assert_eq!(text, expected);
}

#[test]
fn claim_capacity_sums_all_entries() {
    let claim = ClaimObservation {
        name: "pvc-d0".to_string(),
        capacities: Some(vec!["1Gi".to_string(), "512Mi".to_string()]),
    };
    assert_eq!(claim_capacity_bytes(&claim).unwrap(), 1073741824 + 536870912);
}

#[test]
fn missing_claim_is_a_missing_data_source() {
    let claim = ClaimObservation { name: "pvc-x".to_string(), capacities: None };
    match claim_capacity_bytes(&claim) {
        Err(Error::MissingDataSource(name)) => assert_eq!(name, "pvc-x"),
        _ => panic!("expected the missing claim reported"),
    }
}

#[test]
fn unreadable_claim_capacity_is_a_coding_error() {
    let claim = ClaimObservation {
        name: "pvc-x".to_string(),
        capacities: Some(vec!["not a quantity".to_string()]),
    };
    match claim_capacity_bytes(&claim) {
        Err(Error::SerializationError(name)) => assert_eq!(name, "pvc-x"),
        _ => panic!("expected the unreadable value reported"),
    }
}

#[test]
fn capacities_come_back_in_declaration_order() {
    let claims = vec![
        ClaimObservation {
            name: "pvc-d0".to_string(),
            capacities: Some(vec!["1Gi".to_string()]),
        },
        ClaimObservation {
            name: "pvc-d1".to_string(),
            capacities: Some(vec!["2Gi".to_string()]),
        },
    ];
    let caps = claim_capacities(&claims).unwrap();
    assert_eq!(caps, vec![1073741824, 2147483648]);
    let total = total_capacity(&"demo".to_string(), &caps).unwrap();
    assert_eq!(total, 3221225472);
}

#[test]
fn total_capacity_of_nothing_is_zero() {
    assert_eq!(total_capacity(&"demo".to_string(), &vec![]).unwrap(), 0);
}

#[test]
fn labels_carry_name_and_version() {
    let labels = instance_labels(&demo_garage());
    assert_eq!(labels.len(), 2);
    assert_eq!(labels[0].name, "app.kubernetes.io/name");
    assert_eq!(labels[0].value, "demo");
    assert_eq!(labels[1].name, "app.kubernetes.io/version");
    assert_eq!(labels[1].value, garage_operator::GARAGE_VERSION);
}

#[test]
fn service_exposes_all_four_ports_under_the_derived_name() {
    let service = service_plan(&demo_garage());
    assert_eq!(service.name, "demo-api");
    let ports: Vec<(&str, u16)> =
        service.ports.iter().map(|p| (p.name.as_str(), p.port)).collect();
    assert_eq!(ports, vec![("admin", 3903), ("rpc", 3901), ("s3-api", 3900), ("s3-web", 3902)]);
    // The selector carries the name label alone, so endpoints keep selecting
    // the pods across a version upgrade; the version pair stays on the
    // object's own labels.
    assert_eq!(service.selector.len(), 1);
    assert_eq!(service.selector[0].name, "app.kubernetes.io/name");
    assert_eq!(service.selector[0].value, "demo");
    assert_eq!(service.labels.len(), 2);
}

#[test]
fn workload_mounts_config_credentials_and_claims_in_order() {
    let garage = demo_garage();
    let workload = workload_plan(&garage, &"0.8.2".to_string());
    assert_eq!(workload.name, "demo");
    assert_eq!(workload.image, "dxflrs/garage:0.8.2");

    let ports: Vec<(&str, u16)> =
        workload.ports.iter().map(|p| (p.name.as_str(), p.port)).collect();
    assert_eq!(ports, vec![("s3-api", 3900), ("rpc", 3901), ("s3-web", 3902), ("admin", 3903)]);

    assert_eq!(workload.mounts.len(), 6);
    assert_eq!(workload.mounts[0].mount_path, "/etc/garage.toml");
    assert_eq!(workload.mounts[0].sub_path.as_deref(), Some("garage.toml"));
    assert!(workload.mounts[0].read_only);
    assert_eq!(workload.mounts[1].mount_path, "/secrets/admin.key");
    assert_eq!(workload.mounts[1].sub_path.as_deref(), Some("key"));
    assert_eq!(workload.mounts[2].mount_path, "/secrets/rpc.key");
    assert_eq!(workload.mounts[3].mount_path, "/mnt/meta");
    assert!(!workload.mounts[3].read_only);
    assert_eq!(workload.mounts[4].name, "data-pvc-0");
    assert_eq!(workload.mounts[4].mount_path, "/mnt/data0");
    assert_eq!(workload.mounts[5].name, "data-pvc-1");
    assert_eq!(workload.mounts[5].mount_path, "/mnt/data1");

    assert_eq!(workload.volumes.len(), 6);
    match &workload.volumes[0].source {
        VolumeSource::Config(name) => assert_eq!(name, "demo-config"),
        _ => panic!("expected the configuration volume first"),
    }
    match &workload.volumes[1].source {
        VolumeSource::Credential(name) => assert_eq!(name, "demo-admin.key"),
        _ => panic!("expected the admin credential volume"),
    }
    match &workload.volumes[2].source {
        VolumeSource::Credential(name) => assert_eq!(name, "demo-rpc.key"),
        _ => panic!("expected the rpc credential volume"),
    }
    match &workload.volumes[3].source {
        VolumeSource::Claim(name) => assert_eq!(name, "pvc-m"),
        _ => panic!("expected the metadata claim"),
    }
    match &workload.volumes[4].source {
        VolumeSource::Claim(name) => assert_eq!(name, "pvc-d0"),
        _ => panic!("expected the first data claim"),
    }
    match &workload.volumes[5].source {
        VolumeSource::Claim(name) => assert_eq!(name, "pvc-d1"),
        _ => panic!("expected the second data claim"),
    }
}

#[test]
fn workload_honours_user_supplied_credential_references() {
    let mut garage = demo_garage();
    garage.spec.secrets.admin = Some(SecretRef {
        name: Some("my-admin".to_string()),
        namespace: None,
    });
    let workload = workload_plan(&garage, &"0.8.2".to_string());
    match &workload.volumes[1].source {
        VolumeSource::Credential(name) => assert_eq!(name, "my-admin"),
        _ => panic!("expected the referenced credential"),
    }
}

fn assert_hex64(value: &str) {
    assert_eq!(value.len(), 64);
    assert!(value.chars().all(|c| c.is_ascii_hexdigit() && !c.is_ascii_uppercase()));
}

#[test]
fn generated_secret_values_are_64_hex_characters() {
    assert_hex64(&generate_secret_value());
}

#[test]
fn secrets_are_generated_only_when_absent_and_unreferenced() {
    let garage = demo_garage();
    let both = plan_generated_secrets(&garage, false, false);
    assert_eq!(both.len(), 2);
    assert_eq!(both[0].name, "demo-admin.key");
    assert_eq!(both[1].name, "demo-rpc.key");
    assert_hex64(&both[0].value);
    assert_hex64(&both[1].value);

    let rpc_only = plan_generated_secrets(&garage, true, false);
    assert_eq!(rpc_only.len(), 1);
    assert_eq!(rpc_only[0].name, "demo-rpc.key");

    let none_needed = plan_generated_secrets(&garage, true, true);
    assert!(none_needed.is_empty());

    let mut referenced = demo_garage();
    referenced.spec.secrets.admin = Some(SecretRef { name: None, namespace: None });
    let rpc_again = plan_generated_secrets(&referenced, false, false);
    assert_eq!(rpc_again.len(), 1);
    assert_eq!(rpc_again[0].name, "demo-rpc.key");
}

#[test]
fn projection_bundles_all_four_sub_objects() {
    let garage = demo_garage();
    let projection = project(&garage, &vec![1073741824, 536870912], false, false, &"0.8.2".to_string());
    assert_eq!(projection.config_name, "demo-config");
    assert!(projection.config_text.contains("/mnt/disk1"));
    assert_eq!(projection.secrets.len(), 2);
    assert_eq!(projection.service.name, "demo-api");
    assert_eq!(projection.workload.image, "dxflrs/garage:0.8.2");
}

#[test]
fn claim_with_no_capacity_entries_counts_zero_bytes() {
    let claim = ClaimObservation { name: "pvc-empty".to_string(), capacities: Some(vec![]) };
    assert_eq!(claim_capacity_bytes(&claim).unwrap(), 0);
}
