use rust_axum::common::{default_page, default_size, Page, PaginationParams};
use rust_axum::config::DatabaseConfig;
use rust_axum::response::ApiResponse;
use rust_axum::validation::{build_validation_error, is_mobile_phone, mobile_phone_outcome};

fn empty_db() -> DatabaseConfig {
    DatabaseConfig { host: None, port: None, username: None, password: None, database: None, schema: None }
}

#[test]
fn database_defaults() {
    let c = empty_db();
    assert_eq!(c.host(), "127.0.0.1");
    assert_eq!(c.port(), 5432);
    assert_eq!(c.username(), "postgres");
    assert_eq!(c.password(), "postgres");
    assert_eq!(c.database(), "axum");
    assert_eq!(c.schema(), "public");
}

#[test]
fn database_given_values() {
    let c = DatabaseConfig {
        host: Some("db".to_string()),
        port: Some(6543),
        username: Some("u".to_string()),
        password: Some("p".to_string()),
        database: Some("d".to_string()),
        schema: Some("s".to_string()),
    };
    assert_eq!(c.host(), "db");
    assert_eq!(c.port(), 6543);
    assert_eq!(c.username(), "u");
    assert_eq!(c.password(), "p");
    assert_eq!(c.database(), "d");
    assert_eq!(c.schema(), "s");
}

#[test]
fn pagination_defaults_and_page() {
    assert_eq!(default_page(), 1);
    assert_eq!(default_size(), 15);
    let p = Page::from_pagination(PaginationParams { page: 2, size: 10 }, 35, vec![1, 2, 3]);
    assert_eq!(p.page, 2);
    assert_eq!(p.size, 10);
    assert_eq!(p.total, 35);
    assert_eq!(p.items, vec![1, 2, 3]);
    let q: Page<u8> = Page::new(1, 15, 0, vec![]);
    assert_eq!(q.page, 1);
    assert!(q.items.is_empty());
}

#[test]
fn api_responses() {
    let ok = ApiResponse::ok("ok", Some(5));
    assert_eq!(ok.code, 0);
    assert_eq!(ok.message, "ok");
    assert_eq!(ok.data, Some(5));
    let err: ApiResponse<()> = ApiResponse::err("Not Found");
    assert_eq!(err.code, 1);
    assert_eq!(err.message, "Not Found");
    assert!(err.data.is_none());
    let n = ApiResponse::new(7, "m".to_string(), Some("d"));
    assert_eq!(n.code, 7);
    assert_eq!(n.data, Some("d"));
}

#[test]
fn mobile_phone_numbers() {
    assert!(is_mobile_phone("13812345678").is_ok());
    assert!(is_mobile_phone("19900000000").is_ok());
    assert!(is_mobile_phone("12812345678").is_err());
    assert!(is_mobile_phone("1381234567").is_err());
    assert!(is_mobile_phone("138123456789").is_err());
    assert!(is_mobile_phone("").is_err());
    let e = is_mobile_phone("abc").unwrap_err();
    assert_eq!(e.code, "invalid");
    assert_eq!(e.message.as_deref(), Some("手机号码格式不正确"));
}

#[test]
fn phone_outcome_and_error() {
    assert!(mobile_phone_outcome(true).is_ok());
    let e = mobile_phone_outcome(false).unwrap_err();
    assert_eq!(e.code, "invalid");
    let b = build_validation_error("m");
    assert_eq!(b.message.as_deref(), Some("m"));
}
