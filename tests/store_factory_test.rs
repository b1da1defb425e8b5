use std::sync::Arc;

use nativelink_store::factory::{mentions, store_factory, store_factory_unregistered};
use nativelink_store::health::{HealthRegistry, HealthStatus};
use nativelink_store::store::{
    Backend, ConfigError, FilesystemConfig, GrpcConfig, MemoryConfig, S3Config, ShardConfig,
    Slot, Store, StoreConfig,
};

fn memory(max_bytes: u64) -> StoreConfig {
    StoreConfig::Memory(MemoryConfig { max_bytes, evict_bytes: 0 })
}

fn filesystem() -> StoreConfig {
    StoreConfig::Filesystem(FilesystemConfig {
        content_path: "/tmp/content".to_string(),
        temp_path: "/tmp/temp".to_string(),
    })
}

fn paths(report: &[nativelink_store::health::HealthStatusDescription]) -> Vec<String> {
    report.iter().map(|d| d.component.clone()).collect()
}

fn all_composites() -> Vec<StoreConfig> {
    vec![
        StoreConfig::Verify { backend: Box::new(memory(0)), verify_size: true, verify_hash: false },
        StoreConfig::Dedup { index_store: Box::new(memory(0)), content_store: Box::new(memory(0)) },
        StoreConfig::Compression { backend: Box::new(memory(0)) },
        StoreConfig::FastSlow { fast: Box::new(memory(0)), slow: Box::new(memory(0)) },
        StoreConfig::SizePartitioning {
            size: 10,
            lower_store: Box::new(memory(0)),
            upper_store: Box::new(memory(0)),
        },
        StoreConfig::ExistenceCache { backend: Box::new(memory(0)) },
        StoreConfig::CompletenessChecking {
            backend: Box::new(memory(0)),
            cas_store: Box::new(memory(0)),
        },
        StoreConfig::Shard { stores: vec![ShardConfig { store: memory(0), weight: None }] },
    ]
}

#[test]
fn fast_slow_reports_fast_and_slow() {
    let config = StoreConfig::FastSlow { fast: Box::new(memory(0)), slow: Box::new(filesystem()) };
    let mut root: HealthRegistry<Arc<Store>> = HealthRegistry::new("root".to_string());
    let store = store_factory(&config, &mut root).unwrap();
    assert!(matches!(&*store, Store::FastSlow { .. }));

    let report = root.flatten();
    assert_eq!(report.len(), 2);
    assert_eq!(paths(&report), vec!["root/fast_slow/fast", "root/fast_slow/slow"]);
    assert!(report.iter().all(|d| d.status == HealthStatus::Okay));
}

#[test]
fn dedup_nested_under_outer() {
    let config =
        StoreConfig::Dedup { index_store: Box::new(memory(0)), content_store: Box::new(memory(0)) };
    let mut root: HealthRegistry<Arc<Store>> = HealthRegistry::new("root".to_string());
    let outer = root.add_dependency("outer".to_string());
    store_factory(&config, outer).unwrap();

    let report = root.flatten();
    assert_eq!(
        paths(&report),
        vec!["root/outer/dedup/index_store", "root/outer/dedup/content_store"]
    );
}

#[test]
fn registered_indicators_are_the_built_children() {
    let config = StoreConfig::FastSlow { fast: Box::new(memory(7)), slow: Box::new(filesystem()) };
    let mut root: HealthRegistry<Arc<Store>> = HealthRegistry::new("root".to_string());
    let store = store_factory(&config, &mut root).unwrap();
    let entries = root.iter_collectors();
    match &*store {
        Store::FastSlow { fast, slow } => {
            assert!(Arc::ptr_eq(entries[0].1, fast));
            assert!(Arc::ptr_eq(entries[1].1, slow));
        }
        _ => panic!("expected a fast/slow store"),
    }
}

#[test]
fn shard_keeps_configured_order() {
    let config = StoreConfig::Shard {
        stores: vec![
            ShardConfig { store: memory(100), weight: Some(1) },
            ShardConfig { store: memory(200), weight: None },
            ShardConfig { store: memory(300), weight: Some(3) },
        ],
    };
    let mut root: HealthRegistry<Arc<Store>> = HealthRegistry::new("root".to_string());
    let store = store_factory(&config, &mut root).unwrap();
    match &*store {
        Store::Shard { stores } => {
            let sizes: Vec<u64> = stores
                .iter()
                .map(|m| match &*m.store {
                    Store::Memory(c) => c.max_bytes,
                    _ => panic!("expected a memory store"),
                })
                .collect();
            assert_eq!(sizes, vec![100, 200, 300]);
            let weights: Vec<Option<u32>> = stores.iter().map(|m| m.weight).collect();
            assert_eq!(weights, vec![Some(1), None, Some(3)]);
        }
        _ => panic!("expected a shard store"),
    }
    assert_eq!(
        paths(&root.flatten()),
        vec!["root/shard_store/shard", "root/shard_store/shard", "root/shard_store/shard"]
    );
}

#[test]
fn shard_with_malformed_member_fails_with_first_error() {
    let config = StoreConfig::Shard {
        stores: vec![
            ShardConfig { store: memory(0), weight: None },
            ShardConfig {
                store: StoreConfig::Memory(MemoryConfig { max_bytes: 10, evict_bytes: 20 }),
                weight: None,
            },
            ShardConfig { store: StoreConfig::Grpc(GrpcConfig {
                instance_name: "main".to_string(),
                endpoint: String::new(),
            }), weight: None },
        ],
    };
    let mut root: HealthRegistry<Arc<Store>> = HealthRegistry::new("root".to_string());
    let err = store_factory(&config, &mut root).unwrap_err();
    match err {
        ConfigError::Child { slot: Slot::Shard(1), cause } => {
            assert!(matches!(*cause, ConfigError::Malformed(Backend::Memory)))
        }
        other => panic!("unexpected error {:?}", other),
    }
    assert!(root.iter_collectors().is_empty());
}

#[test]
fn empty_shard_is_refused() {
    let mut root: HealthRegistry<Arc<Store>> = HealthRegistry::new("root".to_string());
    let err = store_factory(&StoreConfig::Shard { stores: vec![] }, &mut root).unwrap_err();
    assert!(matches!(err, ConfigError::EmptyShard));
}

#[test]
fn child_error_names_its_slot() {
    let config = StoreConfig::Verify {
        backend: Box::new(StoreConfig::FastSlow {
            fast: Box::new(memory(0)),
            slow: Box::new(StoreConfig::S3(S3Config {
                region: "us-east-1".to_string(),
                bucket: String::new(),
            })),
        }),
        verify_size: true,
        verify_hash: true,
    };
    let mut root: HealthRegistry<Arc<Store>> = HealthRegistry::new("root".to_string());
    let err = store_factory(&config, &mut root).unwrap_err();
    match err {
        ConfigError::Child { slot: Slot::Inner, cause } => match *cause {
            ConfigError::Child { slot: Slot::Slow, cause } => {
                assert!(matches!(*cause, ConfigError::Malformed(Backend::S3)))
            }
            other => panic!("unexpected cause {:?}", other),
        },
        other => panic!("unexpected error {:?}", other),
    }
    assert!(root.iter_collectors().is_empty());
}

#[test]
fn malformed_terminals_are_refused() {
    let mut root: HealthRegistry<Arc<Store>> = HealthRegistry::new("root".to_string());
    let same_dirs = StoreConfig::Filesystem(FilesystemConfig {
        content_path: "/data".to_string(),
        temp_path: "/data".to_string(),
    });
    assert!(matches!(
        store_factory(&same_dirs, &mut root),
        Err(ConfigError::Malformed(Backend::Filesystem))
    ));
    let no_temp = StoreConfig::Filesystem(FilesystemConfig {
        content_path: "/data".to_string(),
        temp_path: String::new(),
    });
    assert!(matches!(
        store_factory(&no_temp, &mut root),
        Err(ConfigError::Malformed(Backend::Filesystem))
    ));
    let no_endpoint = StoreConfig::Grpc(GrpcConfig {
        instance_name: "main".to_string(),
        endpoint: String::new(),
    });
    assert!(matches!(
        store_factory(&no_endpoint, &mut root),
        Err(ConfigError::Malformed(Backend::Grpc))
    ));
    let bad_memory = StoreConfig::Memory(MemoryConfig { max_bytes: 1, evict_bytes: 2 });
    assert!(matches!(
        store_factory(&bad_memory, &mut root),
        Err(ConfigError::Malformed(Backend::Memory))
    ));
    assert!(root.iter_collectors().is_empty());
}

#[test]
fn memory_without_byte_limit_accepts_any_eviction() {
    let config = StoreConfig::Memory(MemoryConfig { max_bytes: 0, evict_bytes: 500 });
    assert!(store_factory_unregistered(&config).is_ok());
    let config = StoreConfig::Memory(MemoryConfig { max_bytes: 500, evict_bytes: 500 });
    assert!(store_factory_unregistered(&config).is_ok());
}

#[test]
fn terminal_registers_on_given_registry() {
    let mut root: HealthRegistry<Arc<Store>> = HealthRegistry::new("root".to_string());
    let store = store_factory(&StoreConfig::Noop, &mut root).unwrap();
    let entries = root.iter_collectors();
    assert_eq!(entries.len(), 1);
    assert_eq!(entries[0].0, "root");
    assert!(Arc::ptr_eq(entries[0].1, &store));
}

#[test]
fn composites_need_a_health_registry() {
    for config in all_composites() {
        assert!(matches!(
            store_factory_unregistered(&config),
            Err(ConfigError::MissingHealthRegistry)
        ));
    }
}

#[test]
fn terminals_build_without_a_health_registry() {
    let terminals = vec![
        memory(0),
        filesystem(),
        StoreConfig::S3(S3Config { region: "eu".to_string(), bucket: "cas".to_string() }),
        StoreConfig::Grpc(GrpcConfig {
            instance_name: "main".to_string(),
            endpoint: "grpc://localhost:50051".to_string(),
        }),
        StoreConfig::Noop,
        StoreConfig::RefStore { name: "other".to_string() },
    ];
    for config in terminals {
        assert!(store_factory_unregistered(&config).is_ok());
    }
}

#[test]
fn composites_build_with_a_health_registry() {
    for config in all_composites() {
        let mut root: HealthRegistry<Arc<Store>> = HealthRegistry::new("root".to_string());
        assert!(store_factory(&config, &mut root).is_ok());
    }
}

#[test]
fn variant_registry_names() {
    let expected = vec![
        vec!["root/verify_store/inner_store"],
        vec!["root/dedup/index_store", "root/dedup/content_store"],
        vec!["root/compression/inner_store"],
        vec!["root/fast_slow/fast", "root/fast_slow/slow"],
        vec!["root/size_partitioning/lower", "root/size_partitioning/upper"],
        vec!["root/existence_cache/inner_store"],
        vec!["root/completeness_checking/ac", "root/completeness_checking/cas"],
        vec!["root/shard_store/shard"],
    ];
    for (config, want) in all_composites().into_iter().zip(expected) {
        let mut root: HealthRegistry<Arc<Store>> = HealthRegistry::new("root".to_string());
        store_factory(&config, &mut root).unwrap();
        assert_eq!(paths(&root.flatten()), want);
    }
}

#[test]
fn settings_are_carried_into_the_built_store() {
    let config = StoreConfig::SizePartitioning {
        size: 1024,
        lower_store: Box::new(memory(1)),
        upper_store: Box::new(filesystem()),
    };
    let mut root: HealthRegistry<Arc<Store>> = HealthRegistry::new("root".to_string());
    let store = store_factory(&config, &mut root).unwrap();
    match &*store {
        Store::SizePartitioning { size, lower_store, upper_store } => {
            assert_eq!(*size, 1024);
            assert!(matches!(&**lower_store, Store::Memory(MemoryConfig { max_bytes: 1, .. })));
            match &**upper_store {
                Store::Filesystem(f) => {
                    assert_eq!(f.content_path, "/tmp/content");
                    assert_eq!(f.temp_path, "/tmp/temp");
                }
                _ => panic!("expected a filesystem store"),
            }
        }
        _ => panic!("expected a size-partitioning store"),
    }
}

#[test]
fn mentions_finds_links_at_any_depth() {
    let config = StoreConfig::Shard {
        stores: vec![
            ShardConfig { store: memory(0), weight: None },
            ShardConfig {
                store: StoreConfig::Compression {
                    backend: Box::new(StoreConfig::RefStore { name: "cas".to_string() }),
                },
                weight: None,
            },
        ],
    };
    assert!(mentions(&config, &"cas".to_string()));
    assert!(!mentions(&config, &"ac".to_string()));
}
