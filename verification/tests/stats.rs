use pasty::content::ContentType;
use pasty::stats::Stats;
use pasty::stats::MAX_TIMESTAMP;
use pasty::stats::MIN_TIMESTAMP;
use pasty::stats::STATS_SIZE;

fn record_with(views: u32, created_at: i64, updated_at: i64, last_viewed_at: i64) -> [u8; 28] {
    let mut bytes = [0u8; 28];
    bytes[0..4].copy_from_slice(&views.to_be_bytes());
    bytes[4..12].copy_from_slice(&created_at.to_be_bytes());
    bytes[12..20].copy_from_slice(&updated_at.to_be_bytes());
    bytes[20..28].copy_from_slice(&last_viewed_at.to_be_bytes());
    bytes
}

#[test]
fn encoding_is_big_endian_in_field_order() {
    let stats = Stats { views: 1, created_at: 2, updated_at: 0x0102_0304_0506_0708, last_viewed_at: -1 };
    let expected: [u8; 28] = [
        0, 0, 0, 1, 0, 0, 0, 0, 0, 0, 0, 2, 1, 2, 3, 4, 5, 6, 7, 8, 0xff, 0xff, 0xff, 0xff, 0xff,
        0xff, 0xff, 0xff,
    ];
    assert_eq!(stats.as_bytes(), expected);
}

#[test]
fn encoding_matches_the_integers_own_big_endian_bytes() {
    let stats = Stats {
        views: 0xdead_beef,
        created_at: 1_700_000_000,
        updated_at: -62_135_596_800,
        last_viewed_at: 4_102_444_800,
    };
    assert_eq!(
        stats.as_bytes(),
        record_with(0xdead_beef, 1_700_000_000, -62_135_596_800, 4_102_444_800)
    );
}

#[test]
fn width_is_fixed_at_28() {
    assert_eq!(STATS_SIZE, 28);
    assert_eq!(Stats::fixed_width(), Some(28));
    assert_eq!(Stats::new_at(5).as_bytes().len(), 28);
}

#[test]
fn decode_of_encode_is_identity() {
    let samples = [
        Stats { views: 0, created_at: 0, updated_at: 0, last_viewed_at: 0 },
        Stats { views: 7, created_at: 1_600_000_000, updated_at: 1_600_000_100, last_viewed_at: 1_600_000_200 },
        Stats { views: u32::MAX, created_at: -1, updated_at: -86_400, last_viewed_at: 1 },
        Stats { views: 1 << 31, created_at: MIN_TIMESTAMP, updated_at: MAX_TIMESTAMP, last_viewed_at: 0 },
    ];
    for stats in samples {
        assert_eq!(Stats::from_bytes(&stats.as_bytes()), stats);
    }
}

#[test]
fn encode_of_decode_is_identity_on_representable_records() {
    let bytes = record_with(258, 1_000, 2_000, 3_000);
    assert_eq!(Stats::from_bytes(&bytes).as_bytes(), bytes);
}

#[test]
fn decode_reads_each_field_from_its_place() {
    let stats = Stats::from_bytes(&record_with(0x0a0b_0c0d, 11, 22, 33));
    assert_eq!(stats.views, 0x0a0b_0c0d);
    assert_eq!(stats.created_at, 11);
    assert_eq!(stats.updated_at, 22);
    assert_eq!(stats.last_viewed_at, 33);
}

#[test]
fn instant_out_of_range_reads_as_epoch() {
    let stats = Stats::from_bytes(&record_with(3, MAX_TIMESTAMP + 1, MIN_TIMESTAMP - 1, i64::MAX));
    assert_eq!(stats, Stats { views: 3, created_at: 0, updated_at: 0, last_viewed_at: 0 });
    let low = Stats::from_bytes(&record_with(3, i64::MIN, 5, 6));
    assert_eq!(low, Stats { views: 3, created_at: 0, updated_at: 5, last_viewed_at: 6 });
}

#[test]
fn instants_at_the_ends_of_the_range_are_kept() {
    let stats = Stats::from_bytes(&record_with(0, MAX_TIMESTAMP, MIN_TIMESTAMP, -1));
    assert_eq!(stats.created_at, MAX_TIMESTAMP);
    assert_eq!(stats.updated_at, MIN_TIMESTAMP);
    assert_eq!(stats.last_viewed_at, -1);
}

#[test]
fn range_is_the_calendars() {
    assert!(chrono::DateTime::from_timestamp(MAX_TIMESTAMP, 0).is_some());
    assert!(chrono::DateTime::from_timestamp(MAX_TIMESTAMP + 1, 0).is_none());
    assert!(chrono::DateTime::from_timestamp(MIN_TIMESTAMP, 0).is_some());
    assert!(chrono::DateTime::from_timestamp(MIN_TIMESTAMP - 1, 0).is_none());
}

#[test]
fn new_record_has_no_views_and_one_instant() {
    let before = chrono::Utc::now().timestamp();
    let stats = Stats::new();
    let after = chrono::Utc::now().timestamp();
    assert_eq!(stats.views, 0);
    assert_eq!(stats.created_at, stats.updated_at);
    assert_eq!(stats.created_at, stats.last_viewed_at);
    assert!(before <= stats.created_at && stats.created_at <= after);
}

#[test]
fn new_at_sets_all_instants() {
    assert_eq!(
        Stats::new_at(42),
        Stats { views: 0, created_at: 42, updated_at: 42, last_viewed_at: 42 }
    );
}

#[test]
fn view_at_counts_and_moves_last_viewed() {
    let mut stats = Stats::new_at(10);
    stats.view_at(20);
    stats.view_at(30);
    assert_eq!(stats, Stats { views: 2, created_at: 10, updated_at: 10, last_viewed_at: 30 });
}

#[test]
fn view_counter_stops_at_its_largest_value() {
    let mut stats = Stats { views: u32::MAX - 1, created_at: 1, updated_at: 2, last_viewed_at: 3 };
    stats.view_at(4);
    assert_eq!(stats.views, u32::MAX);
    stats.view_at(5);
    assert_eq!(stats.views, u32::MAX);
    assert_eq!(stats.last_viewed_at, 5);
}

#[test]
fn view_reads_the_clock() {
    let mut stats = Stats::new_at(10);
    let before = chrono::Utc::now().timestamp();
    stats.view();
    let after = chrono::Utc::now().timestamp();
    assert_eq!(stats.views, 1);
    assert_eq!(stats.created_at, 10);
    assert_eq!(stats.updated_at, 10);
    assert!(before <= stats.last_viewed_at && stats.last_viewed_at <= after);
}

#[test]
fn update_at_moves_only_updated() {
    let stats = Stats { views: 9, created_at: 1, updated_at: 2, last_viewed_at: 3 }.update_at(50);
    assert_eq!(stats, Stats { views: 9, created_at: 1, updated_at: 50, last_viewed_at: 3 });
}

#[test]
fn update_reads_the_clock() {
    let before = chrono::Utc::now().timestamp();
    let stats = Stats { views: 9, created_at: 1, updated_at: 2, last_viewed_at: 3 }.update();
    let after = chrono::Utc::now().timestamp();
    assert_eq!(stats.views, 9);
    assert_eq!(stats.created_at, 1);
    assert_eq!(stats.last_viewed_at, 3);
    assert!(before <= stats.updated_at && stats.updated_at <= after);
}

#[test]
fn kind_bytes() {
    assert_eq!(ContentType::Plaintext.to_byte(), 0);
    assert_eq!(ContentType::Redirect.to_byte(), 1);
    assert_eq!(ContentType::from_byte(0), Some(ContentType::Plaintext));
    assert_eq!(ContentType::from_byte(1), Some(ContentType::Redirect));
}

#[test]
fn byte_that_stands_for_no_kind() {
    assert_eq!(ContentType::from_byte(2), None);
    assert_eq!(ContentType::from_byte(255), None);
}
