use heartbeat_core::event::{AdvertisementEvent, ManufacturerData};
use heartbeat_core::extract::extract_sample;
use heartbeat_core::greeting::greet;
use heartbeat_core::store::{handle_advertisement, HeartRateStore};
use heartbeat_core::text::u8_to_dec_string;

fn event(company_id: u16, data: Vec<u8>, name: Option<&str>, rssi: Option<i16>) -> AdvertisementEvent {
    AdvertisementEvent {
        manufacturer_data: Some(ManufacturerData { company_id, data }),
        name: name.map(|n| n.to_string()),
        rssi,
    }
}

#[test]
fn initial_state_is_empty() {
    let store = HeartRateStore::new();
    assert_eq!(store.query_latest(), "");
    assert_eq!(store.use_global_value(), "");
}

#[test]
fn read_after_write_returns_text_of_value() {
    let mut store = HeartRateStore::new();
    store.report_sample(72);
    assert_eq!(store.query_latest(), "72");
    assert_eq!(store.query_latest(), "72");
    store.report_sample(200);
    assert_eq!(store.query_latest(), "200");
    assert_eq!(store.use_global_value(), "200");
}

#[test]
fn decimal_text_exact_values() {
    assert_eq!(u8_to_dec_string(0), "0");
    assert_eq!(u8_to_dec_string(7), "7");
    assert_eq!(u8_to_dec_string(9), "9");
    assert_eq!(u8_to_dec_string(10), "10");
    assert_eq!(u8_to_dec_string(42), "42");
    assert_eq!(u8_to_dec_string(99), "99");
    assert_eq!(u8_to_dec_string(100), "100");
    assert_eq!(u8_to_dec_string(157), "157");
    assert_eq!(u8_to_dec_string(255), "255");
}

#[test]
fn extraction_reads_fourth_payload_byte() {
    let e = event(0x0157, vec![0x01, 0x02, 0x03, 72], Some("Band"), Some(-60));
    let sample = extract_sample(&e).expect("matching event must yield a sample");
    assert_eq!(sample.heart_rate, 72);
    assert_eq!(sample.name, "Band");
    assert_eq!(sample.rssi, -60);
}

#[test]
fn extraction_with_longer_payload_still_reads_offset_three() {
    let e = event(0x0157, vec![9, 9, 9, 123, 9, 9], None, None);
    let sample = extract_sample(&e).expect("matching event must yield a sample");
    assert_eq!(sample.heart_rate, 123);
}

#[test]
fn missing_name_and_rssi_fall_back_to_defaults() {
    let e = event(0x0157, vec![0, 0, 0, 88], None, None);
    let sample = extract_sample(&e).expect("matching event must yield a sample");
    assert_eq!(sample.name, "(unknown)");
    assert_eq!(sample.rssi, 0);
}

#[test]
fn non_matching_vendor_yields_no_sample() {
    let e = event(0x0000, vec![0x01, 0x02, 0x03, 72], Some("Band"), Some(-60));
    assert!(extract_sample(&e).is_none());
    let e2 = event(0x0158, vec![0x01, 0x02, 0x03, 72], None, None);
    assert!(extract_sample(&e2).is_none());
}

#[test]
fn missing_manufacturer_data_yields_no_sample() {
    let e = AdvertisementEvent { manufacturer_data: None, name: Some("Band".to_string()), rssi: Some(-40) };
    assert!(extract_sample(&e).is_none());
}

#[test]
fn short_payload_yields_no_sample() {
    for len in 0..4usize {
        let e = event(0x0157, vec![0xAA; len], Some("Band"), Some(-50));
        assert!(extract_sample(&e).is_none(), "payload of length {len} must not match");
    }
}

#[test]
fn end_to_end_matching_advertisement() {
    let mut store = HeartRateStore::new();
    let e = event(0x0157, vec![0x01, 0x02, 0x03, 72], Some("Band"), Some(-60));
    let sample = handle_advertisement(&mut store, &e).expect("matching event must yield a sample");
    assert_eq!(sample.heart_rate, 72);
    assert_eq!(sample.name, "Band");
    assert_eq!(sample.rssi, -60);
    assert_eq!(store.query_latest(), "72");
}

#[test]
fn end_to_end_non_matching_advertisement_leaves_store_unchanged() {
    let mut store = HeartRateStore::new();
    store.report_sample(72);
    let e = event(0x0000, vec![0x01, 0x02, 0x03, 99], None, None);
    assert!(handle_advertisement(&mut store, &e).is_none());
    assert_eq!(store.query_latest(), "72");
}

#[test]
fn short_payload_leaves_store_unchanged() {
    let mut store = HeartRateStore::new();
    store.report_sample(65);
    let e = event(0x0157, vec![0x01, 0x02, 0x03], Some("Band"), Some(-60));
    assert!(handle_advertisement(&mut store, &e).is_none());
    assert_eq!(store.query_latest(), "65");
}

#[test]
fn sequential_writes_last_one_wins() {
    let mut store = HeartRateStore::new();
    for v in [60u8, 61, 62, 63, 64] {
        store.report_sample(v);
        assert_eq!(store.query_latest(), v.to_string());
    }
    assert_eq!(store.query_latest(), "64");
}

#[test]
fn concurrent_reads_see_only_valid_values() {
    let rt = tokio::runtime::Builder::new_multi_thread()
        .worker_threads(4)
        .build()
        .unwrap();
    let store = std::sync::Arc::new(parking_lot::Mutex::new(HeartRateStore::new()));
    rt.block_on(async {
        let writer = {
            let store = store.clone();
            tokio::spawn(async move {
                for v in 0..=255u16 {
                    store.lock().report_sample(v as u8);
                    tokio::task::yield_now().await;
                }
            })
        };
        let mut readers = Vec::new();
        for _ in 0..4 {
            let store = store.clone();
            readers.push(tokio::spawn(async move {
                for _ in 0..200 {
                    let latest = store.lock().query_latest();
                    assert!(
                        latest.is_empty() || latest.parse::<u8>().is_ok(),
                        "observed a value that no write produced: {latest:?}"
                    );
                    tokio::task::yield_now().await;
                }
            }));
        }
        writer.await.unwrap();
        for reader in readers {
            reader.await.unwrap();
        }
    });
}

#[test]
fn greet_builds_the_greeting() {
    assert_eq!(greet("World"), "Hello, World! You've been greeted from Rust!");
    assert_eq!(greet(""), "Hello, ! You've been greeted from Rust!");
}
