use savings::amount::Amount;
use savings::config::{workers_for, worker_count, Config, DatabaseConfig, Environment, LogLevel};
use savings::errors::{AppError, StoreError};
use savings::models::{
    validate_positive_amount, validate_source_length, CreateTransaction, FieldError, Timestamp,
    UpdateTransaction,
};
use savings::routes::{
    add_new_saving_value, delete_saving, get_saving, list_savings, parse_path_id, update_saving,
    ReplyBody,
};
use savings::service::SavingsService;
use savings::store::TransactionStore;

fn at(micros: i64) -> Timestamp {
    Timestamp { micros }
}

fn payload(mantissa: i128, scale: u32, source: &str) -> CreateTransaction {
    CreateTransaction { amount: Amount::new(mantissa, scale), source: source.to_string() }
}

fn empty_store() -> TransactionStore {
    TransactionStore::new(at(1_000))
}

#[test]
fn create_assigns_id_and_equal_instants() {
    let mut db = empty_store();
    let t = SavingsService::create_new_saving(&mut db, &payload(1050, 2, "payroll"), at(2_000)).unwrap();
    assert!(t.id > 0);
    assert_eq!(t.id, 1);
    assert_eq!(t.created_at, t.updated_at);
    assert_eq!(t.created_at, at(2_000));
    assert_eq!(t.amount, Amount::new(1050, 2));
    assert_eq!(t.source, "payroll");
}

#[test]
fn create_when_clock_lags_moves_one_tick_forward() {
    let mut db = empty_store();
    let t = SavingsService::create_new_saving(&mut db, &payload(1, 0, "a"), at(10)).unwrap();
    assert_eq!(t.created_at, at(1_001));
    let u = SavingsService::create_new_saving(&mut db, &payload(1, 0, "b"), at(10)).unwrap();
    assert_eq!(u.id, 2);
    assert_eq!(u.created_at, at(1_002));
}

#[test]
fn create_with_zero_amount_is_validation_failure() {
    let mut db = empty_store();
    let e = SavingsService::create_new_saving(&mut db, &payload(0, 2, "payroll"), at(2_000)).unwrap_err();
    match &e {
        AppError::ValidationError(errs) => {
            assert_eq!(errs.len(), 1);
            assert_eq!(errs[0].field, "amount");
            assert_eq!(errs[0].message, "Amount must be greater than 0");
        }
        other => panic!("unexpected {:?}", other),
    }
    assert_eq!(e.status_code(), 400);
    let body = e.error_response();
    assert_eq!(body.error, "Validation failed");
    assert_eq!(body.details, Some(vec!["amount: Amount must be greater than 0".to_string()]));
    assert!(SavingsService::list(&db, 10, 0).is_empty());
}

#[test]
fn create_with_negative_amount_and_empty_source_lists_both() {
    let mut db = empty_store();
    let e = SavingsService::create_new_saving(&mut db, &payload(-5, 0, ""), at(2_000)).unwrap_err();
    let body = e.error_response();
    assert_eq!(
        body.details,
        Some(vec![
            "amount: Amount must be greater than 0".to_string(),
            "source: Source must be between 1 and 255 characters".to_string(),
        ])
    );
    assert!(SavingsService::list(&db, 10, 0).is_empty());
}

#[test]
fn update_with_negative_amount_leaves_row() {
    let mut db = empty_store();
    let t = SavingsService::create_new_saving(&mut db, &payload(5, 0, "a"), at(2_000)).unwrap();
    let patch = UpdateTransaction { amount: Some(Amount::new(-1, 0)), source: None };
    let e = SavingsService::update(&mut db, t.id, &patch, at(3_000)).unwrap_err();
    assert!(matches!(e, AppError::ValidationError(_)));
    let again = SavingsService::get_by_id(&db, t.id).unwrap().unwrap();
    assert_eq!(again.amount, Amount::new(5, 0));
    assert_eq!(again.updated_at, at(2_000));
}

#[test]
fn update_with_no_fields_is_bad_request() {
    let mut db = empty_store();
    let t = SavingsService::create_new_saving(&mut db, &payload(5, 0, "a"), at(2_000)).unwrap();
    let patch = UpdateTransaction { amount: None, source: None };
    let e = SavingsService::update(&mut db, t.id, &patch, at(3_000)).unwrap_err();
    assert!(matches!(e, AppError::BadRequest(_)));
    assert_eq!(e.status_code(), 400);
    let again = SavingsService::get_by_id(&db, t.id).unwrap().unwrap();
    assert_eq!(again.source, "a");
    assert_eq!(again.updated_at, at(2_000));
}

#[test]
fn missing_ids_are_not_found() {
    let mut db = empty_store();
    assert!(SavingsService::get_by_id(&db, 7).unwrap().is_none());
    let patch = UpdateTransaction { amount: Some(Amount::new(1, 0)), source: None };
    let e = SavingsService::update(&mut db, 7, &patch, at(3_000)).unwrap_err();
    assert!(matches!(e, AppError::NotFound(_)));
    assert_eq!(e.status_code(), 404);
    let d = SavingsService::delete(&mut db, 7).unwrap_err();
    assert!(matches!(d, AppError::NotFound(_)));
}

#[test]
fn second_delete_is_not_found() {
    let mut db = empty_store();
    let t = SavingsService::create_new_saving(&mut db, &payload(5, 0, "a"), at(2_000)).unwrap();
    assert!(SavingsService::delete(&mut db, t.id).is_ok());
    let e = SavingsService::delete(&mut db, t.id).unwrap_err();
    assert!(matches!(e, AppError::NotFound(_)));
    assert!(SavingsService::get_by_id(&db, t.id).unwrap().is_none());
}

#[test]
fn round_trip_payroll() {
    let mut db = empty_store();
    let t = SavingsService::create_new_saving(&mut db, &payload(1050, 2, "payroll"), at(2_000)).unwrap();
    let got = SavingsService::get_by_id(&db, t.id).unwrap().unwrap();
    assert_eq!(got.amount, Amount::new(1050, 2));
    assert_eq!(got.source, "payroll");
    assert_eq!(got.id, t.id);
}

#[test]
fn update_source_keeps_amount() {
    let mut db = empty_store();
    let t = SavingsService::create_new_saving(&mut db, &payload(5, 0, "a"), at(2_000)).unwrap();
    let patch = UpdateTransaction { amount: None, source: Some("b".to_string()) };
    let u = SavingsService::update(&mut db, t.id, &patch, at(3_000)).unwrap();
    assert_eq!(u.amount, Amount::new(5, 0));
    assert_eq!(u.source, "b");
    assert!(u.updated_at.micros > t.updated_at.micros);
    assert_eq!(u.created_at, t.created_at);
    let got = SavingsService::get_by_id(&db, t.id).unwrap().unwrap();
    assert_eq!(got.source, "b");
    assert_eq!(got.amount, Amount::new(5, 0));
}

#[test]
fn update_at_same_instant_still_moves_forward() {
    let mut db = empty_store();
    let t = SavingsService::create_new_saving(&mut db, &payload(5, 0, "a"), at(2_000)).unwrap();
    let patch = UpdateTransaction { amount: Some(Amount::new(7, 0)), source: None };
    let u = SavingsService::update(&mut db, t.id, &patch, at(2_000)).unwrap();
    assert_eq!(u.updated_at, at(2_001));
    assert_eq!(u.amount, Amount::new(7, 0));
    assert_eq!(u.source, "a");
}

#[test]
fn list_is_newest_first() {
    let mut db = empty_store();
    let a = SavingsService::create_new_saving(&mut db, &payload(1, 0, "A"), at(2_000)).unwrap();
    let b = SavingsService::create_new_saving(&mut db, &payload(2, 0, "B"), at(3_000)).unwrap();
    let c = SavingsService::create_new_saving(&mut db, &payload(3, 0, "C"), at(4_000)).unwrap();
    let ids: Vec<i64> = SavingsService::list(&db, 10, 0).iter().map(|t| t.id).collect();
    assert_eq!(ids, vec![c.id, b.id, a.id]);
}

#[test]
fn list_applies_limit_and_offset() {
    let mut db = empty_store();
    for (i, s) in ["A", "B", "C", "D"].iter().enumerate() {
        SavingsService::create_new_saving(&mut db, &payload(1, 0, s), at(2_000 + i as i64)).unwrap();
    }
    let page: Vec<String> = SavingsService::list(&db, 2, 1).iter().map(|t| t.source.clone()).collect();
    assert_eq!(page, vec!["C".to_string(), "B".to_string()]);
    assert!(SavingsService::list(&db, 5, 9).is_empty());
    assert_eq!(SavingsService::list(&db, usize::MAX, 3).len(), 1);
}

#[test]
fn list_after_delete_keeps_order() {
    let mut db = empty_store();
    for s in ["A", "B", "C"] {
        SavingsService::create_new_saving(&mut db, &payload(1, 0, s), at(2_000)).unwrap();
    }
    SavingsService::delete(&mut db, 2).unwrap();
    let ids: Vec<i64> = SavingsService::list(&db, 10, 0).iter().map(|t| t.id).collect();
    assert_eq!(ids, vec![3, 1]);
}

#[test]
fn path_id_zero_and_negative_are_bad_request() {
    let db = empty_store();
    for raw in ["0", "-5"] {
        let reply = get_saving(&db, raw);
        assert_eq!(reply.status, 400);
        match reply.body {
            ReplyBody::Failure(e) => assert_eq!(e.error, "Id must be a positive integer"),
            other => panic!("unexpected {:?}", other),
        }
    }
}

#[test]
fn parse_path_id_cases() {
    assert_eq!(parse_path_id("42").unwrap(), 42);
    assert_eq!(parse_path_id("+7").unwrap(), 7);
    assert_eq!(parse_path_id("007").unwrap(), 7);
    assert_eq!(parse_path_id("9223372036854775807").unwrap(), i64::MAX);
    for raw in ["", "0", "-5", "-0", "+", "-", "abc", "4x", " 4", "9223372036854775808", "99999999999999999999"] {
        assert!(matches!(parse_path_id(raw), Err(AppError::BadRequest(_))), "{}", raw);
    }
}

#[test]
fn handlers_give_statuses() {
    let mut db = empty_store();
    let created = add_new_saving_value(&mut db, &payload(1050, 2, "payroll"), at(2_000));
    assert_eq!(created.status, 201);
    let bad = add_new_saving_value(&mut db, &payload(0, 0, "payroll"), at(2_000));
    assert_eq!(bad.status, 400);
    assert_eq!(get_saving(&db, "1").status, 200);
    assert_eq!(get_saving(&db, "2").status, 404);
    assert_eq!(get_saving(&db, "x").status, 400);
    let patch = UpdateTransaction { amount: None, source: Some("bonus".to_string()) };
    let updated = update_saving(&mut db, "1", &patch, at(3_000));
    assert_eq!(updated.status, 200);
    match updated.body {
        ReplyBody::Entity(t) => assert_eq!(t.source, "bonus"),
        other => panic!("unexpected {:?}", other),
    }
    assert_eq!(update_saving(&mut db, "2", &patch, at(3_000)).status, 404);
    assert_eq!(update_saving(&mut db, "0", &patch, at(3_000)).status, 400);
    let listed = list_savings(&db, 10, 0);
    assert_eq!(listed.status, 200);
    match listed.body {
        ReplyBody::Entities(v) => assert_eq!(v.len(), 1),
        other => panic!("unexpected {:?}", other),
    }
    assert_eq!(delete_saving(&mut db, "1").status, 204);
    assert_eq!(delete_saving(&mut db, "1").status, 404);
    assert_eq!(delete_saving(&mut db, "-1").status, 400);
}

#[test]
fn store_errors_map_to_statuses_and_messages() {
    let cases = [
        (StoreError::RowNotFound, 404, "Resource not found"),
        (StoreError::UniqueViolation, 409, "A record with this information already exists"),
        (StoreError::ForeignKeyViolation, 400, "Referenced resource does not exist"),
        (StoreError::NotNullViolation, 400, "Required field is missing"),
        (StoreError::Other, 500, "Database operation failed"),
    ];
    for (kind, status, message) in cases {
        let e = AppError::DatabaseError(kind);
        assert_eq!(e.status_code(), status);
        let body = e.error_response();
        assert_eq!(body.error, message);
        assert!(body.details.is_none());
    }
}

#[test]
fn backend_codes_are_classified() {
    assert_eq!(StoreError::from_code(Some("23505")), StoreError::UniqueViolation);
    assert_eq!(StoreError::from_code(Some("23503")), StoreError::ForeignKeyViolation);
    assert_eq!(StoreError::from_code(Some("23502")), StoreError::NotNullViolation);
    assert_eq!(StoreError::from_code(Some("42P01")), StoreError::Other);
    assert_eq!(StoreError::from_code(Some("2350")), StoreError::Other);
    assert_eq!(StoreError::from_code(None), StoreError::Other);
}

#[test]
fn plain_errors_keep_or_hide_their_message() {
    let nf = AppError::NotFound("Transaction not found".to_string());
    assert_eq!(nf.status_code(), 404);
    assert_eq!(nf.error_response().error, "Transaction not found");
    let br = AppError::BadRequest("bad".to_string());
    assert_eq!(br.status_code(), 400);
    assert_eq!(br.error_response().error, "bad");
    let ie = AppError::InternalServerError("secret detail".to_string());
    assert_eq!(ie.status_code(), 500);
    assert_eq!(ie.error_response().error, "An internal error occurred");
    assert_eq!(ie.describe(), "Internal server error: secret detail");
    assert_eq!(nf.describe(), "Not found: Transaction not found");
    assert_eq!(AppError::DatabaseError(StoreError::Other).describe(), "Database error: backend failure");
    assert_eq!(AppError::ValidationError(vec![]).describe(), "Validation error");
}

#[test]
fn field_rules() {
    assert!(validate_positive_amount(&Amount::new(1, 28)).is_ok());
    assert!(validate_positive_amount(&Amount::new(0, 0)).is_err());
    assert!(validate_positive_amount(&Amount::new(-100, 2)).is_err());
    assert!(validate_source_length("").is_err());
    assert!(validate_source_length("x").is_ok());
    assert!(validate_source_length(&"x".repeat(255)).is_ok());
    assert!(validate_source_length(&"é".repeat(255)).is_ok());
    let e: FieldError = validate_source_length(&"x".repeat(256)).unwrap_err();
    assert_eq!(e.field, "source");
    assert_eq!(e.message, "Source must be between 1 and 255 characters");
}

#[test]
fn update_validation_checks_present_fields_only() {
    let patch = UpdateTransaction { amount: None, source: Some(String::new()) };
    let errs = patch.validate().unwrap_err();
    assert_eq!(errs.len(), 1);
    assert_eq!(errs[0].field, "source");
    assert!(!UpdateTransaction { amount: None, source: None }.has_changes());
    assert!(UpdateTransaction { amount: None, source: None }.validate().is_ok());
}

#[test]
fn require_helpers() {
    assert!(matches!(SavingsService::require_found(None), Err(AppError::NotFound(_))));
    assert!(SavingsService::require_affected(1).is_ok());
    assert!(matches!(SavingsService::require_affected(0), Err(AppError::NotFound(_))));
}

#[test]
fn config_defaults() {
    let c = Config::default();
    assert_eq!(c.name, "gsn_push_processing");
    assert_eq!(c.environment, Environment::Dev);
    assert_eq!(c.log_level, LogLevel::Info);
    assert_eq!(c.port, 8080);
    assert_eq!(c.url_prefix, "/api");
    assert_eq!(c.api_url, "http://localhost:8080");
    let d = DatabaseConfig::default();
    assert_eq!(d.url, "");
    assert_eq!((d.max_connections, d.min_connections), (10, 2));
    assert_eq!((d.connect_timeout, d.idle_timeout), (10, 600));
    assert_eq!(Environment::Stg.as_str(), "stg");
    assert_eq!(Environment::Prd.as_str(), "prd");
    assert_eq!(LogLevel::Warn.as_str(), "warn");
    assert_eq!(LogLevel::Trace.as_str(), "trace");
}

#[test]
fn workers_are_clamped() {
    assert_eq!(workers_for(0), 1);
    assert_eq!(workers_for(3), 3);
    assert_eq!(workers_for(64), 4);
    let w = worker_count();
    assert!((1..=4).contains(&w));
}
