use graphql_rs::loader::config::DataLoaderConfig;
use graphql_rs::loader::executor::{Delivery, LoadError};
use graphql_rs::loader::facade::{BatchLoadFn, ConfigError, DataLoader, LoadStep};
use graphql_rs::loader::metrics::DataLoaderMetrics;
use graphql_rs::loader::queue::BatchRequest;
use std::cell::{Cell, RefCell};
use std::collections::HashMap;
use std::rc::Rc;

/// Mock batch loader for testing user data
struct UserBatchLoader {
    /// Counter to track how many batch operations were executed
    batch_count: Rc<Cell<usize>>,
    /// The key lists of the batch operations
    calls: Rc<RefCell<Vec<Vec<u32>>>>,
    /// Mock database of users
    users: HashMap<u32, String>,
}

impl UserBatchLoader {
    fn new() -> Self {
        let mut users = HashMap::new();
        users.insert(1, "Alice".to_string());
        users.insert(2, "Bob".to_string());
        users.insert(3, "Charlie".to_string());
        users.insert(4, "Diana".to_string());
        users.insert(5, "Eve".to_string());

        Self {
            batch_count: Rc::new(Cell::new(0)),
            calls: Rc::new(RefCell::new(Vec::new())),
            users,
        }
    }
}

impl BatchLoadFn<u32, String, String> for UserBatchLoader {
    fn load(&self, keys: Vec<u32>) -> Result<HashMap<u32, String>, String> {
        // Increment batch counter
        self.batch_count.set(self.batch_count.get() + 1);
        self.calls.borrow_mut().push(keys.clone());

        let mut results = HashMap::new();
        for key in keys {
            if let Some(user) = self.users.get(&key) {
                results.insert(key, user.clone());
            }
        }

        Ok(results)
    }
}

/// Mock batch loader that always fails for error testing
struct FailingBatchLoader;

impl BatchLoadFn<u32, String, String> for FailingBatchLoader {
    fn load(&self, _keys: Vec<u32>) -> Result<HashMap<u32, String>, String> {
        Err("Database connection failed".to_string())
    }
}

fn outcome_for(deliveries: &[Delivery<u32, String, String>], ticket: u64) -> Result<String, String> {
    let found: Vec<&Delivery<u32, String, String>> =
        deliveries.iter().filter(|d| d.ticket == ticket).collect();
    assert_eq!(found.len(), 1, "ticket {ticket} is answered once");
    match &found[0].outcome {
        Ok(value) => Ok(value.clone()),
        Err(LoadError::Batch(error)) => Err(error.clone()),
        Err(LoadError::MissingKey(key)) => Err(format!("missing key {key}")),
    }
}

/// One `load` driven to its end by a caller that is alone: where the request
/// has to wait for the timer, the timer fires next.
fn load_alone<F: BatchLoadFn<u32, String, String>>(
    loader: &mut DataLoader<u32, String, F>,
    key: u32,
    now: u64,
) -> Result<String, String> {
    let (ticket, batch) = match loader.load(key, now) {
        LoadStep::Hit(value) => return Ok(value),
        LoadStep::Flush { ticket, batch } => (ticket, batch),
        LoadStep::ArmTimer { ticket } | LoadStep::Wait { ticket } => {
            (ticket, loader.on_timer().expect("a request waits"))
        }
    };
    let deliveries = loader.execute_batch(batch, now);
    outcome_for(&deliveries, ticket)
}

#[test]
fn test_basic_dataloader_functionality() {
    let loader = UserBatchLoader::new();
    let batch_count = Rc::clone(&loader.batch_count);
    let mut dataloader = DataLoader::new(loader);

    // Load a single user
    let result = load_alone(&mut dataloader, 1, 0).unwrap();
    assert_eq!(result, "Alice");

    // Should have executed exactly one batch
    assert_eq!(batch_count.get(), 1);
}

#[test]
fn test_dataloader_batching() {
    let loader = UserBatchLoader::new();
    let batch_count = Rc::clone(&loader.batch_count);
    let calls = Rc::clone(&loader.calls);

    // Configure with longer batch delay to ensure batching
    let config = DataLoaderConfig {
        max_batch_size: 100,
        batch_delay_ms: 50,
        cache_enabled: true,
        cache_ttl_seconds: Some(300),
        enable_metrics: true,
    };

    let mut dataloader = DataLoader::with_config(loader, config).ok().unwrap();

    // Three callers ask within the delay window
    assert!(matches!(dataloader.load(1, 0), LoadStep::ArmTimer { ticket: 0 }));
    assert!(matches!(dataloader.load(2, 1), LoadStep::Wait { ticket: 1 }));
    assert!(matches!(dataloader.load(3, 2), LoadStep::Wait { ticket: 2 }));
    assert_eq!(dataloader.batch_delay_ms(), 50);

    // The timer fires
    let batch = dataloader.on_timer().unwrap();
    let deliveries = dataloader.execute_batch(batch, 50);
    let user_names: Vec<String> =
        vec![0, 1, 2].into_iter().map(|t| outcome_for(&deliveries, t).unwrap()).collect();

    // Verify results
    assert_eq!(user_names, vec!["Alice", "Bob", "Charlie"]);

    // Should have executed exactly one batch (all requests batched together)
    assert_eq!(batch_count.get(), 1);
    assert_eq!(dataloader.get_metrics().batches_executed, 1);
    assert_eq!(calls.borrow()[0], vec![1, 2, 3]);
}

#[test]
fn test_dataloader_caching() {
    let loader = UserBatchLoader::new();
    let batch_count = Rc::clone(&loader.batch_count);
    let mut dataloader = DataLoader::new(loader);

    // Load the same user twice
    let result1 = load_alone(&mut dataloader, 1, 0).unwrap();
    let result2 = load_alone(&mut dataloader, 1, 5).unwrap();

    assert_eq!(result1, "Alice");
    assert_eq!(result2, "Alice");

    // Should have executed exactly one batch (second load was cached)
    assert_eq!(batch_count.get(), 1);

    // Verify cache metrics
    let metrics = dataloader.get_metrics();
    assert_eq!(metrics.total_requests, 2);
    assert_eq!(metrics.cache_hits, 1);
    assert_eq!(metrics.cache_misses, 1);
    assert_eq!(metrics.batches_executed, 1);
    assert_eq!(metrics.cache_hit_per_mille(), 500);
    assert_eq!(metrics.cache_hits as f64 / metrics.total_requests as f64, 0.5);
}

#[test]
fn test_dataloader_load_many() {
    let loader = UserBatchLoader::new();
    let batch_count = Rc::clone(&loader.batch_count);
    let mut dataloader = DataLoader::new(loader);

    // Load multiple users at once
    let keys = vec![1, 2, 3, 4];
    let results = dataloader.load_many(keys, 0).unwrap();

    assert_eq!(results.len(), 4);
    assert_eq!(results.get(&1), Some(&"Alice".to_string()));
    assert_eq!(results.get(&2), Some(&"Bob".to_string()));
    assert_eq!(results.get(&3), Some(&"Charlie".to_string()));
    assert_eq!(results.get(&4), Some(&"Diana".to_string()));

    // Should have executed exactly one batch
    assert_eq!(batch_count.get(), 1);
}

#[test]
fn test_dataloader_error_handling() {
    let loader = FailingBatchLoader;
    let mut dataloader = DataLoader::new(loader);

    // Load should propagate the error
    let result = load_alone(&mut dataloader, 1, 0);
    assert!(result.is_err());
    assert_eq!(result.unwrap_err(), "Database connection failed");
}

#[test]
fn test_dataloader_cache_operations() {
    let loader = UserBatchLoader::new();
    let batch_count = Rc::clone(&loader.batch_count);
    let mut dataloader = DataLoader::new(loader);

    // Load and cache a user
    let result1 = load_alone(&mut dataloader, 1, 0).unwrap();
    assert_eq!(result1, "Alice");
    assert_eq!(batch_count.get(), 1);

    // Load again - should be cached
    let result2 = load_alone(&mut dataloader, 1, 1).unwrap();
    assert_eq!(result2, "Alice");
    assert_eq!(batch_count.get(), 1); // No additional batch

    // Clear specific key
    dataloader.clear_key(&1);

    // Load again - should execute new batch
    let result3 = load_alone(&mut dataloader, 1, 2).unwrap();
    assert_eq!(result3, "Alice");
    assert_eq!(batch_count.get(), 2); // New batch executed

    // Clear entire cache
    dataloader.clear_cache();

    // Load again - should execute another batch
    let result4 = load_alone(&mut dataloader, 1, 3).unwrap();
    assert_eq!(result4, "Alice");
    assert_eq!(batch_count.get(), 3); // Another new batch
}

#[test]
fn test_dataloader_max_batch_size() {
    let loader = UserBatchLoader::new();
    let batch_count = Rc::clone(&loader.batch_count);

    // Configure with small max batch size
    let config = DataLoaderConfig {
        max_batch_size: 2,
        batch_delay_ms: 1000, // Long delay to test max batch size trigger
        cache_enabled: true,
        cache_ttl_seconds: Some(300),
        enable_metrics: true,
    };

    let mut dataloader = DataLoader::with_config(loader, config).ok().unwrap();
    let mut user_names = Vec::new();

    // The first request arms the timer, the second fills the batch
    assert!(matches!(dataloader.load(1, 0), LoadStep::ArmTimer { ticket: 0 }));
    let batch = match dataloader.load(2, 0) {
        LoadStep::Flush { ticket: 1, batch } => batch,
        other => panic!("the second request fills the batch, got {other:?}"),
    };
    assert_eq!(batch, vec![BatchRequest { key: 1, ticket: 0 }, BatchRequest { key: 2, ticket: 1 }]);
    let deliveries = dataloader.execute_batch(batch, 0);
    user_names.push(outcome_for(&deliveries, 0).unwrap());
    user_names.push(outcome_for(&deliveries, 1).unwrap());

    // The third starts a batch of its own, which the timer flushes
    assert!(matches!(dataloader.load(3, 0), LoadStep::ArmTimer { ticket: 2 }));
    let batch = dataloader.on_timer().unwrap();
    let deliveries = dataloader.execute_batch(batch, 1000);
    user_names.push(outcome_for(&deliveries, 2).unwrap());

    assert_eq!(user_names.len(), 3);

    // Should have executed 2 batches (first 2 users in one batch due to max size, third in another)
    assert_eq!(batch_count.get(), 2);
}

#[test]
fn test_dataloader_metrics() {
    let loader = UserBatchLoader::new();
    let mut dataloader = DataLoader::new(loader);

    // Perform various operations
    let _result1 = load_alone(&mut dataloader, 1, 0).unwrap(); // Cache miss
    let _result2 = load_alone(&mut dataloader, 1, 0).unwrap(); // Cache hit
    let _result3 = load_alone(&mut dataloader, 2, 0).unwrap(); // Cache miss

    let metrics = dataloader.get_metrics();

    assert_eq!(metrics.total_requests, 3);
    assert_eq!(metrics.cache_hits, 1);
    assert_eq!(metrics.cache_misses, 2);
    assert_eq!(metrics.batches_executed, 2);
    assert_eq!(metrics.cache_hit_per_mille(), 333);
    assert_eq!(metrics.cache_hits as f64 / metrics.total_requests as f64, 1.0 / 3.0);
    assert_eq!(metrics.total_keys_loaded, 2);
    assert!(metrics.average_batch_size_floor() > 0);
    assert!(metrics.total_keys_loaded as f64 / metrics.batches_executed as f64 > 0.0);
}

#[test]
fn test_dataloader_config_options() {
    let loader = UserBatchLoader::new();
    let batch_count = Rc::clone(&loader.batch_count);

    // Test with caching disabled
    let config = DataLoaderConfig {
        max_batch_size: 100,
        batch_delay_ms: 10,
        cache_enabled: false,
        cache_ttl_seconds: None,
        enable_metrics: false,
    };

    let mut dataloader = DataLoader::with_config(loader, config).ok().unwrap();

    // Load the same key twice - should execute two batches since caching is disabled
    let _result1 = load_alone(&mut dataloader, 1, 0).unwrap();
    let _result2 = load_alone(&mut dataloader, 1, 0).unwrap();
    assert_eq!(batch_count.get(), 2);

    let metrics = dataloader.get_metrics();
    // With metrics disabled, counters should be zero
    assert_eq!(metrics.total_requests, 0);
    assert_eq!(metrics.cache_hits, 0);
    assert_eq!(metrics.cache_misses, 0);
    assert_eq!(metrics, DataLoaderMetrics::default());
}

#[test]
fn test_dataloader_metrics_calculations() {
    let mut metrics = DataLoaderMetrics::default();

    // Test cache hit ratio with no requests
    assert_eq!(metrics.cache_hit_per_mille() as f64 / 1000.0, 0.0);

    // Add some data
    metrics.total_requests = 10;
    metrics.cache_hits = 7;
    metrics.cache_misses = 3;

    assert_eq!(metrics.cache_hit_per_mille() as f64 / 1000.0, 0.7);

    // Test average batch size calculation
    metrics.batches_executed = 1;
    metrics.total_keys_loaded = 5;
    assert_eq!(metrics.average_batch_size_floor() as f64, 5.0);

    metrics.batches_executed = 2;
    metrics.total_keys_loaded = 5 + 3;
    assert_eq!(metrics.average_batch_size_floor() as f64, 4.0); // (5 + 3) / 2
}

#[test]
fn metrics_ratios_in_whole_numbers() {
    let mut metrics = DataLoaderMetrics::default();

    // No requests, no batches
    assert_eq!(metrics.cache_hit_per_mille(), 0);
    assert_eq!(metrics.average_batch_size_floor(), 0);

    metrics.total_requests = 10;
    metrics.cache_hits = 7;
    metrics.cache_misses = 3;

    assert_eq!(metrics.cache_hit_per_mille(), 700);

    metrics.batches_executed = 1;
    metrics.total_keys_loaded = 5;
    assert_eq!(metrics.average_batch_size_floor(), 5);

    metrics.batches_executed = 2;
    metrics.total_keys_loaded = 8;
    assert_eq!(metrics.average_batch_size_floor(), 4); // (5 + 3) / 2

    metrics.batches_executed = 3;
    assert_eq!(metrics.average_batch_size_floor(), 2); // 8 / 3, rounded down

    metrics.total_requests = u64::MAX;
    metrics.cache_hits = u64::MAX;
    assert_eq!(metrics.cache_hit_per_mille(), 1000);
}

/// Integration test demonstrating real-world usage pattern
#[test]
fn test_dataloader_graphql_scenario() {
    // Simulate a GraphQL query that loads multiple posts, each needing its author
    let loader = UserBatchLoader::new();
    let batch_count = Rc::clone(&loader.batch_count);
    let calls = Rc::clone(&loader.calls);
    let mut dataloader = DataLoader::new(loader);

    // Four posts ask for their authors; posts 1 and 3 share one
    let author_ids: Vec<u32> = vec![1, 2, 1, 3];
    for (ticket, author_id) in author_ids.iter().enumerate() {
        let step = dataloader.load(*author_id, 0);
        let expected = ticket as u64;
        assert!(matches!(
            step,
            LoadStep::ArmTimer { ticket } | LoadStep::Wait { ticket } if ticket == expected
        ));
    }
    let batch = dataloader.on_timer().unwrap();
    assert_eq!(batch.len(), 4);
    let deliveries = dataloader.execute_batch(batch, 10);
    let author_names: Vec<String> =
        (0..4).map(|t| outcome_for(&deliveries, t).unwrap()).collect();

    // Verify all authors were loaded
    assert_eq!(author_names, vec!["Alice", "Bob", "Alice", "Charlie"]);

    // Despite 4 author loads (including duplicate for Alice), only 1 batch should have executed
    assert_eq!(batch_count.get(), 1);
    assert_eq!(calls.borrow()[0], vec![1, 2, 3]);

    let metrics = dataloader.get_metrics();
    assert_eq!(metrics.total_requests, 4);
    assert_eq!(metrics.cache_misses, 4); // All were cache misses: they came before the batch
    assert_eq!(metrics.batches_executed, 1);
    // With deduplication, only 3 unique users are loaded: Alice, Bob, Charlie
    assert_eq!(metrics.total_keys_loaded, 3);
}

#[test]
fn zero_batch_size_is_refused_at_construction() {
    let config = DataLoaderConfig {
        max_batch_size: 0,
        batch_delay_ms: 10,
        cache_enabled: true,
        cache_ttl_seconds: Some(300),
        enable_metrics: true,
    };
    assert!(!config.validate());
    let made = DataLoader::<u32, String, _>::with_config(UserBatchLoader::new(), config);
    assert!(matches!(made, Err(ConfigError::ZeroBatchSize)));
    let smallest = DataLoaderConfig { max_batch_size: 1, ..DataLoaderConfig::default() };
    assert!(smallest.validate());
    assert!(DataLoader::<u32, String, _>::with_config(UserBatchLoader::new(), smallest).is_ok());
}
