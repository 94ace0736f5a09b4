//! The pieces around the handlers: identifier rendering, migration
//! planning, configuration.

use book_service::config::Config;
use book_service::migrate::pending_migrations;
use book_service::text::{i64_to_decimal, not_found_message, u64_to_decimal};

#[test]
fn decimal_rendering_exact_values() {
    assert_eq!(u64_to_decimal(0), "0");
    assert_eq!(u64_to_decimal(10), "10");
    assert_eq!(u64_to_decimal(18446744073709551615), "18446744073709551615");
    assert_eq!(i64_to_decimal(0), "0");
    assert_eq!(i64_to_decimal(42), "42");
    assert_eq!(i64_to_decimal(-5), "-5");
    assert_eq!(i64_to_decimal(9223372036854775807), "9223372036854775807");
    assert_eq!(i64_to_decimal(-9223372036854775808), "-9223372036854775808");
}

#[test]
fn not_found_message_exact_values() {
    assert_eq!(not_found_message(999), "Book 999 not found");
    assert_eq!(not_found_message(0), "Book 0 not found");
    assert_eq!(not_found_message(-1), "Book -1 not found");
}

#[test]
fn migration_plan_skips_applied_and_keeps_order() {
    assert_eq!(pending_migrations(&vec![1, 2, 3], &vec![1, 3]), vec![2]);
    assert_eq!(pending_migrations(&vec![1, 2, 3], &vec![]), vec![1, 2, 3]);
    assert_eq!(pending_migrations(&vec![1, 2, 3], &vec![1, 2, 3]), Vec::<i64>::new());
    // A ledger entry for a script that is no longer shipped changes nothing.
    assert_eq!(pending_migrations(&vec![2, 5, 9], &vec![5, 7]), vec![2, 9]);
    assert_eq!(pending_migrations(&vec![], &vec![1]), Vec::<i64>::new());
}

#[test]
fn config_carries_the_connection_string() {
    let c = Config::new("postgres://localhost/db".to_string());
    assert_eq!(c.database_url, "postgres://localhost/db");
}
