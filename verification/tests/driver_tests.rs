use datagen_pipeline::driver::{BulkConfig, BulkDriver};
use datagen_pipeline::generators::generate_triple;
use datagen_pipeline::BATCH_SIZE;

#[test]
fn bulk_run_of_2500_with_batch_1000_flushes_exactly_three_times() {
    let config = BulkConfig {
        total_records: 2500,
        batch_size: BATCH_SIZE,
        volume_ceiling: u64::MAX,
    };
    let mut driver = BulkDriver::new(config);
    let mut flush_sizes: Vec<usize> = Vec::new();
    let mut file_sink_rows: usize = 0;

    while driver.should_generate() {
        let (user, product, order) = generate_triple();
        // Every record reaches the file sinks immediately.
        file_sink_rows += 1;
        if let Some(batch) = driver.record_triple(user, product, order) {
            assert_eq!(batch.users.len(), batch.products.len());
            assert_eq!(batch.users.len(), batch.orders.len());
            flush_sizes.push(batch.users.len());
        }
    }
    if let Some(tail) = driver.finish() {
        flush_sizes.push(tail.users.len());
    }

    assert_eq!(flush_sizes, vec![1000, 1000, 500]);
    assert_eq!(driver.flushes, 3);
    assert_eq!(driver.generated, 2500);
    assert_eq!(file_sink_rows, 2500);
}

#[test]
fn volume_ceiling_stops_at_first_flush_boundary_and_generation_ends() {
    let config = BulkConfig {
        total_records: 1_000,
        batch_size: 10,
        volume_ceiling: 4096,
    };
    let mut driver = BulkDriver::new(config);
    let mut generated_after_stop = 0u64;

    while driver.should_generate() {
        let (user, product, order) = generate_triple();
        if driver.record_triple(user, product, order).is_some() {
            // The combined file-sink size already meets the ceiling at the
            // first flush boundary.
            driver.observe_volume(4096);
        }
    }
    let generated_at_stop = driver.generated;
    let tail = driver.finish();
    assert!(tail.is_none());

    // No further records can be generated after the stop.
    if driver.should_generate() {
        generated_after_stop += 1;
    }
    assert_eq!(generated_after_stop, 0);
    assert_eq!(generated_at_stop, 10);
    assert_eq!(driver.flushes, 1);
}

#[test]
fn below_ceiling_the_run_continues_to_its_target() {
    let config = BulkConfig {
        total_records: 30,
        batch_size: 10,
        volume_ceiling: 1_000_000,
    };
    let mut driver = BulkDriver::new(config);
    let mut flushes_seen = 0u64;
    while driver.should_generate() {
        let (user, product, order) = generate_triple();
        if driver.record_triple(user, product, order).is_some() {
            flushes_seen += 1;
            driver.observe_volume(flushes_seen * 100);
        }
    }
    assert!(driver.finish().is_none());
    assert_eq!(flushes_seen, 3);
    assert_eq!(driver.generated, 30);
}

#[test]
fn partial_final_batch_is_flushed_not_dropped() {
    let config = BulkConfig {
        total_records: 5,
        batch_size: 10,
        volume_ceiling: u64::MAX,
    };
    let mut driver = BulkDriver::new(config);
    while driver.should_generate() {
        let (user, product, order) = generate_triple();
        assert!(driver.record_triple(user, product, order).is_none());
    }
    let tail = driver.finish().expect("partial batch must be flushed");
    assert_eq!(tail.users.len(), 5);
    assert_eq!(tail.products.len(), 5);
    assert_eq!(tail.orders.len(), 5);
    assert_eq!(driver.flushes, 1);
}
