use dj_uploader::cli::Platform;
use dj_uploader::clock::{Span, Timestamp};
use dj_uploader::config::{MixcloudCredentials, SoundcloudCredentials, TokenInfo, TokenStorage};
use dj_uploader::error::AuthError;
use dj_uploader::flow::store_token;

const T: i64 = 1_700_000_000;

fn token(expires_in: Option<i64>, refresh: Option<&str>, created_secs: i64) -> TokenInfo {
    TokenInfo {
        access_token: "access".to_string(),
        refresh_token: refresh.map(|r| r.to_string()),
        created_at: Timestamp { secs: created_secs, nanos: 0 },
        expires_in,
    }
}

fn at(secs: i64, nanos: u32) -> Timestamp {
    Timestamp::new(secs, nanos)
}

#[test]
fn five_minute_buffer_boundary() {
    let info = token(Some(3600), None, T);
    assert!(!info.is_expired_at(at(T + 3000, 0)));
    assert!(info.is_expired_at(at(T + 3300, 0)));
    assert!(!info.is_expired_at(at(T + 3299, 999_999_999)));
    assert!(info.is_expired_at(at(T + 3600, 0)));
    assert!(!info.is_expired_at(at(T, 0)));
}

#[test]
fn buffer_counts_nanoseconds_of_creation() {
    let info = TokenInfo {
        access_token: "a".to_string(),
        refresh_token: None,
        created_at: at(T, 500),
        expires_in: Some(3600),
    };
    assert!(!info.is_expired_at(at(T + 3300, 499)));
    assert!(info.is_expired_at(at(T + 3300, 500)));
}

#[test]
fn expiry_is_monotonic_on_samples() {
    let info = token(Some(1000), None, T);
    let mut seen_expired = false;
    for offset in 0..2000 {
        let expired = info.is_expired_at(at(T + offset, 0));
        if seen_expired {
            assert!(expired);
        }
        seen_expired = seen_expired || expired;
        assert_eq!(expired, offset >= 700);
    }
}

#[test]
fn token_without_lifetime_never_expires() {
    let info = token(None, None, T);
    assert!(!info.is_expired_at(at(T, 0)));
    assert!(!info.is_expired_at(at(i64::MAX, 999_999_999)));
    assert!(!info.is_expired());
    assert_eq!(info.time_until_expiry_at(at(T + 5, 0)), None);
    assert_eq!(info.time_until_expiry(), None);
}

#[test]
fn short_lifetime_is_expired_from_the_start() {
    let info = token(Some(300), None, T);
    assert!(info.is_expired_at(at(T, 0)));
    let negative = token(Some(-10), None, T);
    assert!(!negative.is_expired_at(at(T - 400, 0)));
    assert!(negative.is_expired_at(at(T - 310, 0)));
    assert!(!negative.is_expired_at(at(T - 311, 0)));
    assert!(negative.is_expired_at(at(T, 0)));
}

#[test]
fn extreme_values_do_not_overflow() {
    let info = token(Some(i64::MAX), None, i64::MAX);
    assert!(!info.is_expired_at(at(i64::MAX, 0)));
    let left = info.time_until_expiry_at(at(i64::MIN, 0)).unwrap();
    assert_eq!(left.nanos, ((i64::MAX as i128) * 2 - (i64::MIN as i128)) * 1_000_000_000);
    let early = token(Some(i64::MIN), None, i64::MIN);
    assert!(early.is_expired_at(at(i64::MIN, 0)));
    assert_eq!(early.time_until_expiry_at(at(i64::MAX, 0)), Some(Span { nanos: 0 }));
}

#[test]
fn time_until_expiry_exact_values() {
    let info = token(Some(3600), None, T);
    assert_eq!(info.time_until_expiry_at(at(T + 600, 0)), Some(Span { nanos: 3_000_000_000_000 }));
    assert_eq!(
        info.time_until_expiry_at(at(T + 600, 250)),
        Some(Span { nanos: 2_999_999_999_750 })
    );
    assert_eq!(info.time_until_expiry_at(at(T + 3599, 0)), Some(Span { nanos: 1_000_000_000 }));
    assert_eq!(info.time_until_expiry_at(at(T + 3599, 1)), Some(Span { nanos: 0 }));
    assert_eq!(info.time_until_expiry_at(at(T + 3600, 0)), Some(Span::zero()));
    assert_eq!(info.time_until_expiry_at(at(T + 9999, 0)), Some(Span::zero()));
}

#[test]
fn span_breaks_down_into_units() {
    let span = Span { nanos: (2 * 86400 + 3 * 3600 + 4 * 60 + 5) * 1_000_000_000 + 999 };
    assert_eq!(span.num_seconds(), 2 * 86400 + 3 * 3600 + 4 * 60 + 5);
    assert_eq!(span.num_minutes(), 2 * 1440 + 3 * 60 + 4);
    assert_eq!(span.num_hours(), 51);
    assert_eq!(span.num_days(), 2);
    let negative = Span { nanos: -1_500_000_000 };
    assert_eq!(negative.num_seconds(), -1);
    assert_eq!(negative.num_minutes(), 0);
}

#[test]
fn timestamps_compare_by_seconds_then_nanoseconds() {
    assert!(at(5, 0).is_at_or_after(&at(4, 999_999_999)));
    assert!(at(5, 1).is_at_or_after(&at(5, 1)));
    assert!(!at(5, 0).is_at_or_after(&at(5, 1)));
    assert_eq!(at(-1, 5).total_nanos(), -999_999_995);
}

#[test]
fn new_token_is_stamped_with_the_clock() {
    let before = std::time::SystemTime::now()
        .duration_since(std::time::UNIX_EPOCH)
        .unwrap()
        .as_secs() as i64;
    let info = TokenInfo::new("tok".to_string(), Some("ref".to_string()), Some(7200));
    let after = std::time::SystemTime::now()
        .duration_since(std::time::UNIX_EPOCH)
        .unwrap()
        .as_secs() as i64;
    assert_eq!(info.access_token, "tok");
    assert_eq!(info.refresh_token.as_deref(), Some("ref"));
    assert_eq!(info.expires_in, Some(7200));
    assert!(before <= info.created_at.secs && info.created_at.secs <= after);
    assert!(info.created_at.nanos < 1_000_000_000);
    assert!(!info.is_expired());
    let left = info.time_until_expiry().unwrap();
    assert!(left.num_seconds() > 7100 && left.num_seconds() <= 7200);
}

#[test]
fn clock_decides_for_a_fresh_short_token() {
    let info = TokenInfo::new("tok".to_string(), None, Some(100));
    assert!(info.is_expired());
    let stale = token(Some(3600), None, 0);
    assert!(stale.is_expired());
    assert_eq!(stale.time_until_expiry(), Some(Span::zero()));
}

#[test]
fn created_at_builds_the_record_as_given() {
    let info = TokenInfo::created_at("a".to_string(), None, Some(1), at(7, 8));
    assert_eq!(
        info,
        TokenInfo {
            access_token: "a".to_string(),
            refresh_token: None,
            created_at: Timestamp { secs: 7, nanos: 8 },
            expires_in: Some(1),
        }
    );
    assert_eq!(info.clone(), info);
}

#[test]
fn storage_holds_one_record_per_platform() {
    let mut storage = TokenStorage::empty();
    assert_eq!(
        storage.get_mixcloud_token(),
        Err(AuthError::NotAuthorized { platform: Platform::Mixcloud })
    );
    assert!(storage.get_token(Platform::Soundcloud).is_none());
    storage.set_mixcloud_tokens(token(Some(10), None, 1));
    assert_eq!(storage.get_mixcloud_token(), Ok(&token(Some(10), None, 1)));
    assert!(storage.get_token(Platform::Soundcloud).is_none());
    storage.set_tokens(Platform::Soundcloud, token(None, Some("r"), 2));
    storage.set_tokens(Platform::Mixcloud, token(Some(20), None, 3));
    assert_eq!(storage.mixcloud, Some(token(Some(20), None, 3)));
    assert_eq!(storage.soundcloud, Some(token(None, Some("r"), 2)));
    assert_eq!(storage.clone(), storage);
}

#[test]
fn store_token_merges_into_what_was_there() {
    let mut existing = TokenStorage::empty();
    existing.set_tokens(Platform::Mixcloud, token(Some(1), None, 1));
    let merged = store_token(Some(existing), Platform::Soundcloud, token(Some(2), None, 2));
    assert_eq!(merged.mixcloud, Some(token(Some(1), None, 1)));
    assert_eq!(merged.soundcloud, Some(token(Some(2), None, 2)));
    let fresh = store_token(None, Platform::Mixcloud, token(Some(3), None, 3));
    assert_eq!(fresh.mixcloud, Some(token(Some(3), None, 3)));
    assert_eq!(fresh.soundcloud, None);
}

#[test]
fn token_path_prefers_the_override() {
    assert_eq!(
        TokenStorage::token_path(Some("/cfg".to_string()), Some("/home/u".to_string())),
        Some(vec!["/cfg".to_string(), "dj-uploader".to_string(), "tokens.json".to_string()])
    );
    assert_eq!(
        TokenStorage::token_path(None, Some("/home/u".to_string())),
        Some(vec![
            "/home/u".to_string(),
            ".config".to_string(),
            "dj-uploader".to_string(),
            "tokens.json".to_string()
        ])
    );
    assert_eq!(TokenStorage::token_path(None, None), None);
}

#[test]
fn credentials_keep_what_they_are_given() {
    let mixcloud = MixcloudCredentials::new("id".to_string(), "secret".to_string());
    assert_eq!(mixcloud.client_id, "id");
    assert_eq!(mixcloud.client_secret, "secret");
    assert_eq!(mixcloud.clone(), mixcloud);
    let soundcloud = SoundcloudCredentials::new("sid".to_string(), "ssecret".to_string());
    assert_eq!(soundcloud.client_id, "sid");
    assert_eq!(soundcloud.client_secret, "ssecret");
    assert_eq!(soundcloud.clone(), soundcloud);
}
