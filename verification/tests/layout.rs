use walnutbook::layout::backup_path;
use walnutbook::layout::decimal_text;
use walnutbook::config::SyncConfig;
use walnutbook::layout::get_onedrive_path;
use walnutbook::layout::shared_folder;
use walnutbook::layout::Platform;
use walnutbook::layout::CONFIG_FILE;
use walnutbook::layout::DATABASE_FILE;
use walnutbook::layout::MARKER_FILE;
use walnutbook::layout::SIDECAR_FILE;
use walnutbook::layout::SNAPSHOT_FILE;
use walnutbook::metadata::SyncMetadata;
use walnutbook::models::default_interval_unit;
use walnutbook::models::default_interval_value;
use walnutbook::models::default_repeat_type;
use walnutbook::models::Reminder;
use walnutbook::protocol::Table;
use walnutbook::protocol::Tier;

#[test]
fn numbers_in_decimal() {
    assert_eq!(decimal_text(0), "0");
    assert_eq!(decimal_text(7), "7");
    assert_eq!(decimal_text(9), "9");
    assert_eq!(decimal_text(10), "10");
    assert_eq!(decimal_text(1_234_567_890), "1234567890");
    assert_eq!(decimal_text(1_700_000_000), "1700000000");
    assert_eq!(decimal_text(u64::MAX), "18446744073709551615");
}

#[test]
fn decimal_agrees_with_the_standard_library() {
    let mut number: u64 = 1;
    for _ in 0..200 {
        assert_eq!(decimal_text(number), number.to_string());
        number = number.wrapping_mul(6_364_136_223_846_793_005).wrapping_add(1_442_695_040_888_963_407);
    }
}

#[test]
fn backup_path_carries_the_second() {
    assert_eq!(
        backup_path("/home/u/.local/share/WalnutBook/walnutbook.db", 1_700_000_123),
        "/home/u/.local/share/WalnutBook/walnutbook.db.backup_1700000123"
    );
    assert_eq!(backup_path("db", 0), "db.backup_0");
    assert_eq!(backup_path("", 42), ".backup_42");
}

#[test]
fn shared_folder_by_platform() {
    assert_eq!(get_onedrive_path("/home/u", Platform::Unix), "/home/u/OneDrive");
    assert_eq!(get_onedrive_path("C:\\Users\\u", Platform::Windows), "C:\\Users\\u\\OneDrive");
    assert_eq!(get_onedrive_path("", Platform::Unix), "/OneDrive");
}

#[test]
fn names_on_disk() {
    assert_eq!(DATABASE_FILE, "walnutbook.db");
    assert_eq!(SNAPSHOT_FILE, "walnutbook_sync.db");
    assert_eq!(SIDECAR_FILE, "sync_metadata.json");
    assert_eq!(CONFIG_FILE, "sync_config.json");
    assert_eq!(MARKER_FILE, ".walnutbook_test");
    assert_eq!(Tier::Shared.data_dir_name(), "WalnutBook_Data");
    assert_eq!(Tier::Fallback.data_dir_name(), "WalnutBook");
    assert_eq!(Tier::Shared.sync_dir_name(), "sync");
    assert_eq!(Tier::Fallback.sync_dir_name(), "sync_backup");
}

#[test]
fn required_tables_in_order() {
    assert_eq!(Table::Accounts.name(), "accounts");
    assert_eq!(Table::Transactions.name(), "transactions");
    assert_eq!(Table::Categories.name(), "categories");
    assert_eq!(Table::Budgets.name(), "budgets");
    assert_eq!(Table::Accounts.next(), Some(Table::Transactions));
    assert_eq!(Table::Transactions.next(), Some(Table::Categories));
    assert_eq!(Table::Categories.next(), Some(Table::Budgets));
    assert_eq!(Table::Budgets.next(), None);
}

#[test]
fn fresh_sidecar() {
    let metadata = SyncMetadata::new(1_700_000_000, 4_096);
    assert_eq!(metadata.last_modified, 1_700_000_000);
    assert_eq!(metadata.file_size, 4_096);
    assert_eq!(metadata.version, "1.0");
    assert_eq!(metadata.clone(), metadata);
}

#[test]
fn defaults_of_recurring_items() {
    assert_eq!(default_repeat_type(), "monthly_date");
    assert_eq!(default_interval_value(), 1);
    assert_eq!(default_interval_unit(), "month");
}

#[test]
fn payment_day_is_a_day_of_a_month() {
    let mut reminder = Reminder {
        id: 1,
        account_id: 2,
        account_name: "Card".to_string(),
        payment_day: 15,
        next_payment_date: "2024-05-15".to_string(),
        is_checked: false,
        notes: None,
        created_at: "2024-01-01".to_string(),
        statement_date: "2024-04-20".to_string(),
    };
    assert!(reminder.is_well_formed());
    reminder.payment_day = 1;
    assert!(reminder.is_well_formed());
    reminder.payment_day = 31;
    assert!(reminder.is_well_formed());
    reminder.payment_day = 0;
    assert!(!reminder.is_well_formed());
    reminder.payment_day = 32;
    assert!(!reminder.is_well_formed());
}

#[test]
fn settings_can_move_the_shared_folder() {
    let mut config = SyncConfig::default();
    assert_eq!(shared_folder(&config, "/home/u", Platform::Unix), "/home/u/OneDrive");
    config.onedrive_path = Some("/mnt/cloud".to_string());
    assert_eq!(shared_folder(&config, "/home/u", Platform::Unix), "/mnt/cloud");
    assert_eq!(shared_folder(&config, "C:\\Users\\u", Platform::Windows), "/mnt/cloud");
}
