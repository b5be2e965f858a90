use otp_auth::clock::{timestamp_from_text, timestamp_text};
use otp_auth::errors::AuthError;
use otp_auth::items::{
    new_user_item, read_otp, read_user, missing_attribute, otp_from_item,
    parse_user_from_item, rate_limit_from_item, rate_limit_item, request_times,
    status_update, otp_item, status_update_at, user_from_parts,
    user_item, Item,
};
use otp_auth::models::{OTPRecord, RateLimitRecord, Timestamp, UserProfile, UserStatus};
use otp_auth::strmap::StringMap;

fn record() -> OTPRecord {
    OTPRecord {
        email: "a@x.com".to_string(),
        otp_hash: "abc123".to_string(),
        created_at: 1000,
        expires_at: 1300,
        ttl: 4900,
        challenge_id: "token".to_string(),
        attempts: 0,
    }
}

fn stored_user() -> Item {
    let mut item = Item::new();
    item.set_text("user_id", "u-1".to_string());
    item.set_text("email", "a@x.com".to_string());
    item.set_text("status", "REGISTRATION_NEED_STRIPE".to_string());
    item.set_text("created_at", "2015-05-15T00:00:00+00:00".to_string());
    item.set_text("updated_at", "2015-05-15T00:00:01.5+00:00".to_string());
    item
}

fn internal(message: &str) -> AuthError {
    AuthError::InternalError(message.to_string())
}

#[test]
fn string_map_later_pairs_supersede() {
    let mut m = StringMap::new();
    assert_eq!(m.get("k"), None);
    assert!(!m.contains_key("k"));
    m.insert("k".to_string(), "one".to_string());
    m.insert("other".to_string(), "x".to_string());
    m.insert("k".to_string(), "two".to_string());
    assert_eq!(m.get("k"), Some(&"two".to_string()));
    assert_eq!(m.get_cloned("other"), Some("x".to_string()));
    assert_eq!(m.get("K"), None);
    assert!(m.contains_key("k"));
    let copy = m.clone();
    assert_eq!(copy.get("k"), Some(&"two".to_string()));
}

#[test]
fn the_pairs_of_a_map_are_made_distinct() {
    let mut m = StringMap::new();
    assert_eq!(m.distinct_pairs(), vec![]);
    m.insert("a".to_string(), "1".to_string());
    m.insert("b".to_string(), "2".to_string());
    m.insert("a".to_string(), "3".to_string());
    m.insert("c".to_string(), "4".to_string());
    m.insert("b".to_string(), "5".to_string());
    assert_eq!(
        m.distinct_pairs(),
        vec![
            ("b".to_string(), "5".to_string()),
            ("c".to_string(), "4".to_string()),
            ("a".to_string(), "3".to_string()),
        ]
    );
    // The pairs stand for the same map.
    let again = StringMap { entries: m.distinct_pairs() };
    for key in ["a", "b", "c", "d"] {
        assert_eq!(again.get(key), m.get(key));
    }
}

#[test]
fn a_challenge_is_stored_as_texts_and_numbers() {
    let item = otp_item(&record());
    assert_eq!(item.strings.get("email"), Some(&"a@x.com".to_string()));
    assert_eq!(item.strings.get("otp_hash"), Some(&"abc123".to_string()));
    assert_eq!(item.strings.get("challenge_id"), Some(&"token".to_string()));
    assert_eq!(item.numbers.get("created_at"), Some(&"1000".to_string()));
    assert_eq!(item.numbers.get("expires_at"), Some(&"1300".to_string()));
    assert_eq!(item.numbers.get("ttl"), Some(&"4900".to_string()));
    assert_eq!(item.numbers.get("attempts"), Some(&"0".to_string()));
    assert_eq!(item.strings.get("created_at"), None);
    assert_eq!(item.numbers.get("email"), None);
}

#[test]
fn what_is_stored_is_what_is_read() {
    let rec = record();
    assert_eq!(otp_from_item(&otp_item(&rec)), Ok(rec.clone()));
    let extreme = OTPRecord {
        email: "".to_string(),
        otp_hash: "".to_string(),
        created_at: i64::MIN,
        expires_at: i64::MAX,
        ttl: -1,
        challenge_id: "".to_string(),
        attempts: 255,
    };
    assert_eq!(otp_from_item(&otp_item(&extreme)), Ok(extreme.clone()));
    assert_eq!(read_otp(&Some(otp_item(&rec))), Ok(Some(rec)));
    assert_eq!(read_otp(&None), Ok(None));
}

#[test]
fn the_first_missing_attribute_of_a_challenge_is_reported() {
    let names = [
        ("email", true),
        ("otp_hash", true),
        ("created_at", false),
        ("expires_at", false),
        ("ttl", false),
        ("challenge_id", true),
        ("attempts", false),
    ];
    assert_eq!(otp_from_item(&Item::new()), Err(internal("Missing email")));
    for k in 0..names.len() {
        // An item with the first `k` attributes only.
        let mut item = Item::new();
        for (name, is_text) in &names[..k] {
            if *is_text {
                item.set_text(name, "v".to_string());
            } else {
                item.set_number(name, 1);
            }
        }
        let expected = format!("Missing {}", names[k].0);
        assert_eq!(otp_from_item(&item), Err(internal(&expected)));
        assert_eq!(read_otp(&Some(item)), Err(internal(&expected)));
    }
}

#[test]
fn an_attribute_of_the_wrong_type_is_missing() {
    let mut item = otp_item(&record());
    item.numbers = StringMap::new();
    item.set_text("created_at", "1000".to_string());
    assert_eq!(otp_from_item(&item), Err(internal("Missing created_at")));
    let mut item = otp_item(&record());
    item.numbers.insert("attempts".to_string(), "256".to_string());
    assert_eq!(otp_from_item(&item), Err(internal("Missing attempts")));
    let mut item = otp_item(&record());
    item.numbers.insert("ttl".to_string(), "soon".to_string());
    assert_eq!(otp_from_item(&item), Err(internal("Missing ttl")));
    assert_eq!(missing_attribute("ttl"), internal("Missing ttl"));
}

#[test]
fn requests_are_stored_and_read() {
    let rec = RateLimitRecord { email: "a@x.com".to_string(), request_timestamp: -5, ttl: 895 };
    let item = rate_limit_item(&rec);
    assert_eq!(item.numbers.get("request_timestamp"), Some(&"-5".to_string()));
    assert_eq!(rate_limit_from_item(&item), Ok(rec.clone()));
    let mut bad = Item::new();
    bad.set_text("email", "a@x.com".to_string());
    assert_eq!(rate_limit_from_item(&bad), Err(internal("Missing request_timestamp")));
    bad.set_number("request_timestamp", 1);
    assert_eq!(rate_limit_from_item(&bad), Err(internal("Missing ttl")));
    assert_eq!(rate_limit_from_item(&Item::new()), Err(internal("Missing email")));
}

#[test]
fn a_row_counts_by_its_time_alone() {
    let rec = RateLimitRecord { email: "a@x.com".to_string(), request_timestamp: -5, ttl: 895 };
    assert_eq!(request_times(&vec![]), Vec::<i64>::new());
    let two = vec![rate_limit_item(&rec), rate_limit_item(&rec)];
    assert_eq!(request_times(&two), vec![-5, -5]);
    // A row without an address or a purge time still counts.
    let mut bare = Item::new();
    bare.set_number("request_timestamp", 7);
    // A row whose time cannot be read does not.
    let mut unread = Item::new();
    unread.set_text("email", "a@x.com".to_string());
    unread.set_text("request_timestamp", "7".to_string());
    let mut huge = Item::new();
    huge.numbers.insert("request_timestamp".to_string(), "9223372036854775808".to_string());
    let rows = vec![bare, unread, rate_limit_item(&rec), huge, Item::new()];
    assert_eq!(request_times(&rows), vec![7, -5]);
}

#[test]
fn instants_are_written_in_utc() {
    assert_eq!(
        timestamp_text(Timestamp { secs: 1431648000, nanos: 0 }),
        Some("2015-05-15T00:00:00+00:00".to_string())
    );
    assert_eq!(
        timestamp_text(Timestamp { secs: 0, nanos: 500_000_000 }),
        Some("1970-01-01T00:00:00.500+00:00".to_string())
    );
    assert_eq!(
        timestamp_text(Timestamp { secs: -1, nanos: 0 }),
        Some("1969-12-31T23:59:59+00:00".to_string())
    );
    assert_eq!(timestamp_text(Timestamp { secs: i64::MAX, nanos: 0 }), None);
    assert_eq!(timestamp_text(Timestamp { secs: 0, nanos: 2_000_000_000 }), None);
}

#[test]
fn instants_are_read_with_their_offset() {
    assert_eq!(
        timestamp_from_text("1996-12-19T16:39:57-08:00"),
        Some(Timestamp { secs: 851042397, nanos: 0 })
    );
    assert_eq!(
        timestamp_from_text("2015-05-15T00:00:00Z"),
        Some(Timestamp { secs: 1431648000, nanos: 0 })
    );
    assert_eq!(
        timestamp_from_text("1970-01-01T00:00:00.25+00:00"),
        Some(Timestamp { secs: 0, nanos: 250_000_000 })
    );
    assert_eq!(timestamp_from_text(""), None);
    assert_eq!(timestamp_from_text("yesterday"), None);
    assert_eq!(timestamp_from_text("2015-05-15"), None);
    assert_eq!(timestamp_from_text("2015-13-15T00:00:00Z"), None);
}

#[test]
fn an_instant_written_is_read_back() {
    for now in [
        Timestamp { secs: 1_761_696_000, nanos: 123_456_789 },
        Timestamp { secs: 0, nanos: 0 },
        Timestamp { secs: -86_400, nanos: 1_000 },
        Timestamp { secs: 253_402_300_799, nanos: 999_000_000 },
    ] {
        let text = timestamp_text(now).unwrap();
        assert_eq!(timestamp_from_text(&text), Some(now));
    }
}

#[test]
fn a_new_user_is_stored_unverified() {
    let now = Timestamp { secs: 1431648000, nanos: 0 };
    let user = UserProfile::first_contact("a@x.com", "sub-1", now);
    assert_eq!(user.user_id, "sub-1");
    assert_eq!(user.email, "a@x.com");
    assert_eq!(user.status, UserStatus::RegistrationEmailNotVerified);
    assert_eq!(user.full_name, None);
    assert_eq!(user.created_at, now);
    assert_eq!(user.updated_at, now);
    let item = new_user_item(&user).unwrap();
    assert_eq!(item.strings.get("user_id"), Some(&"sub-1".to_string()));
    assert_eq!(item.strings.get("email"), Some(&"a@x.com".to_string()));
    assert_eq!(
        item.strings.get("status"),
        Some(&"REGISTRATION_EMAIL_NOT_VERIFIED".to_string())
    );
    assert_eq!(
        item.strings.get("created_at"),
        Some(&"2015-05-15T00:00:00+00:00".to_string())
    );
    assert_eq!(
        item.strings.get("updated_at"),
        Some(&"2015-05-15T00:00:00+00:00".to_string())
    );
    assert_eq!(item.strings.get("full_name"), None);
    assert_eq!(parse_user_from_item(&item), Ok(user));
}

#[test]
fn a_user_without_a_date_cannot_be_stored() {
    let never = Timestamp { secs: i64::MAX, nanos: 0 };
    let user = UserProfile::first_contact("a@x.com", "sub-1", never);
    assert_eq!(new_user_item(&user), Err(internal("Timestamp out of range")));
    assert_eq!(
        status_update_at("u", UserStatus::Active, never),
        Err(internal("Timestamp out of range"))
    );
}

#[test]
fn a_user_is_read_with_what_is_optional() {
    let mut item = stored_user();
    item.set_text("full_name", "Ada".to_string());
    item.set_text("reviewed_at", "2015-05-15T00:00:00Z".to_string());
    item.set_text("rejection_reason", "".to_string());
    item.set_number("content_link", 5);
    let user = parse_user_from_item(&item).unwrap();
    assert_eq!(user.user_id, "u-1");
    assert_eq!(user.email, "a@x.com");
    assert_eq!(user.status, UserStatus::RegistrationNeedStripe);
    assert_eq!(user.full_name, Some("Ada".to_string()));
    assert_eq!(user.content_description, None);
    assert_eq!(user.content_link, None);
    assert_eq!(user.stripe_account_id, None);
    assert_eq!(user.created_at, Timestamp { secs: 1431648000, nanos: 0 });
    assert_eq!(user.updated_at, Timestamp { secs: 1431648001, nanos: 500_000_000 });
    assert_eq!(user.reviewed_by, None);
    assert_eq!(user.reviewed_at, Some(Timestamp { secs: 1431648000, nanos: 0 }));
    assert_eq!(user.rejection_reason, Some("".to_string()));
    // An optional instant that cannot be read counts as absent.
    let mut item = stored_user();
    item.set_text("reviewed_at", "never".to_string());
    assert_eq!(parse_user_from_item(&item).unwrap().reviewed_at, None);
}

#[test]
fn the_first_fault_of_a_user_item_is_reported() {
    assert_eq!(parse_user_from_item(&Item::new()), Err(internal("Missing status")));
    let mut item = Item::new();
    item.set_text("status", "active".to_string());
    assert_eq!(parse_user_from_item(&item), Err(internal("Invalid status")));
    item.set_text("status", "ACTIVE".to_string());
    assert_eq!(parse_user_from_item(&item), Err(internal("Missing created_at")));
    item.set_text("created_at", "not a date".to_string());
    assert_eq!(parse_user_from_item(&item), Err(internal("Missing created_at")));
    item.set_text("created_at", "2015-05-15T00:00:00Z".to_string());
    assert_eq!(parse_user_from_item(&item), Err(internal("Missing updated_at")));
    item.set_text("updated_at", "2015-05-15T00:00:00Z".to_string());
    assert_eq!(parse_user_from_item(&item), Err(internal("Missing user_id")));
    item.set_text("user_id", "u".to_string());
    assert_eq!(parse_user_from_item(&item), Err(internal("Missing email")));
    item.set_text("email", "a@x.com".to_string());
    assert_eq!(parse_user_from_item(&item).unwrap().status, UserStatus::Active);
}

#[test]
fn the_directory_answer_is_its_first_item() {
    assert_eq!(read_user(&vec![]), Ok(None));
    let found = read_user(&vec![stored_user(), Item::new()]).unwrap().unwrap();
    assert_eq!(found.user_id, "u-1");
    assert_eq!(
        read_user(&vec![Item::new(), stored_user()]),
        Err(internal("Missing status"))
    );
}

#[test]
fn a_status_update_names_the_status_and_the_time() {
    let u = status_update_at(
        "u-1",
        UserStatus::RegistrationNeedUserInfo,
        Timestamp { secs: 1431648000, nanos: 0 },
    )
    .unwrap();
    assert_eq!(u.user_id, "u-1");
    assert_eq!(u.status, "REGISTRATION_NEED_USER_INFO");
    assert_eq!(u.updated_at, "2015-05-15T00:00:00+00:00");
}

#[test]
fn statuses_have_their_names() {
    let all = [
        (UserStatus::RegistrationEmailNotVerified, "REGISTRATION_EMAIL_NOT_VERIFIED", "RegistrationEmailNotVerified"),
        (UserStatus::RegistrationNeedUserInfo, "REGISTRATION_NEED_USER_INFO", "RegistrationNeedUserInfo"),
        (UserStatus::RegistrationNeedStripe, "REGISTRATION_NEED_STRIPE", "RegistrationNeedStripe"),
        (UserStatus::AwaitingReview, "AWAITING_REVIEW", "AwaitingReview"),
        (UserStatus::Active, "ACTIVE", "Active"),
        (UserStatus::Rejected, "REJECTED", "Rejected"),
    ];
    for (status, stored, debug) in all {
        assert_eq!(status.as_str(), stored);
        assert_eq!(status.debug_name(), debug);
        assert_eq!(format!("{:?}", status), debug);
        assert_eq!(UserStatus::parse(stored), Some(status));
    }
    assert_eq!(UserStatus::parse("active"), None);
    assert_eq!(UserStatus::parse(""), None);
    assert_eq!(UserStatus::default(), UserStatus::RegistrationEmailNotVerified);
}

#[test]
fn a_status_only_moves_forward() {
    let order = [
        UserStatus::RegistrationEmailNotVerified,
        UserStatus::RegistrationNeedUserInfo,
        UserStatus::RegistrationNeedStripe,
        UserStatus::AwaitingReview,
        UserStatus::Active,
    ];
    for (i, a) in order.iter().enumerate() {
        for (j, b) in order.iter().enumerate() {
            assert_eq!(a.can_become(*b), i < j);
        }
        assert!(a.can_become(UserStatus::Rejected));
        assert!(!UserStatus::Rejected.can_become(*a));
    }
    assert!(!UserStatus::Rejected.can_become(UserStatus::Rejected));
    assert_eq!(
        UserStatus::RegistrationEmailNotVerified.after_verification(),
        Some(UserStatus::RegistrationNeedUserInfo)
    );
    for s in &order[1..] {
        assert_eq!(s.after_verification(), None);
    }
    assert_eq!(UserStatus::Rejected.after_verification(), None);
}

#[test]
fn failures_render_their_messages() {
    let m = "why".to_string();
    assert_eq!(AuthError::RateLimitExceeded(m.clone()).to_string(), "Rate limit exceeded: why");
    assert_eq!(AuthError::InvalidOTP(m.clone()).to_string(), "Invalid OTP: why");
    assert_eq!(AuthError::OTPExpired.to_string(), "OTP expired");
    assert_eq!(AuthError::UserNotFound(m.clone()).to_string(), "User not found: why");
    assert_eq!(
        AuthError::EmailDeliveryFailed(m.clone()).to_string(),
        "Email delivery failed: why"
    );
    assert_eq!(AuthError::DynamoDBError(m.clone()).to_string(), "DynamoDB error: why");
    assert_eq!(AuthError::SESError(m.clone()).to_string(), "SES error: why");
    assert_eq!(AuthError::ValidationError(m.clone()).to_string(), "Validation error: why");
    assert_eq!(AuthError::InternalError(m.clone()).to_string(), "Internal error: why");
    assert_eq!(AuthError::InternalError(m.clone()).clone(), AuthError::InternalError(m));
}

#[test]
fn a_user_is_made_of_an_item_and_its_instants() {
    let t = Timestamp { secs: 5, nanos: 6 };
    let mut item = Item::new();
    item.set_text("status", "AWAITING_REVIEW".to_string());
    item.set_text("user_id", "u".to_string());
    item.set_text("email", "a@x.com".to_string());
    let user = user_from_parts(&item, Some(t), Some(t), None).unwrap();
    assert_eq!(user.status, UserStatus::AwaitingReview);
    assert_eq!(user.created_at, t);
    assert_eq!(user.reviewed_at, None);
    assert_eq!(
        user_from_parts(&item, None, Some(t), Some(t)),
        Err(internal("Missing created_at"))
    );
    assert_eq!(
        user_from_parts(&item, Some(t), None, Some(t)),
        Err(internal("Missing updated_at"))
    );
    // The status is looked at before the instants.
    assert_eq!(
        user_from_parts(&Item::new(), None, None, None),
        Err(internal("Missing status"))
    );
}

#[test]
fn a_user_item_needs_both_texts() {
    let user = UserProfile::first_contact("a@x.com", "u", Timestamp { secs: 0, nanos: 0 });
    let item = user_item(&user, Some("then".to_string()), Some("now".to_string())).unwrap();
    assert_eq!(item.strings.get("created_at"), Some(&"then".to_string()));
    assert_eq!(item.strings.get("updated_at"), Some(&"now".to_string()));
    assert_eq!(item.strings.entries.len(), 5);
    assert!(item.numbers.entries.is_empty());
    assert_eq!(
        user_item(&user, None, Some("now".to_string())),
        Err(internal("Timestamp out of range"))
    );
    assert_eq!(
        user_item(&user, Some("then".to_string()), None),
        Err(internal("Timestamp out of range"))
    );
    let update = status_update("u", UserStatus::Rejected, Some("now".to_string())).unwrap();
    assert_eq!(update.status, "REJECTED");
    assert_eq!(update.updated_at, "now");
    assert_eq!(
        status_update("u", UserStatus::Rejected, None),
        Err(internal("Timestamp out of range"))
    );
}
