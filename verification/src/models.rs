//! The records that the application keeps, as far as they hold no amounts.

use vstd::prelude::*;

verus! {

/// A category of income or expense.
#[derive(Debug, Clone, PartialEq, Eq)]
pub struct Category {
    pub id: i64,
    pub name: String,
    pub category_type: String,
    /// Whether transactions of this category pay back an expense.
    pub is_reimbursement: bool,
    /// The category whose expenses are paid back.
    pub reimbursement_target_category_id: Option<i64>,
}

/// How the amounts in an account's imported statements are signed.
#[derive(Debug, Clone, PartialEq, Eq)]
pub struct AccountImportSettings {
    pub id: i64,
    pub account_id: i64,
    pub csv_sign_logic: String,
    pub created_at: String,
}

/// A payment that comes due every month.
#[derive(Debug, Clone, PartialEq, Eq)]
pub struct Reminder {
    pub id: i64,
    pub account_id: i64,
    pub account_name: String,
    /// Day of the month, from 1 to 31.
    pub payment_day: u8,
    /// As `yyyy-MM-dd`.
    pub next_payment_date: String,
    pub is_checked: bool,
    pub notes: Option<Vec<String>>,
    pub created_at: String,
    /// As `yyyy-MM-dd`.
    pub statement_date: String,
}

/// One month's payment of a reminder.
#[derive(Debug, Clone, PartialEq, Eq)]
pub struct ReminderPaymentHistory {
    pub id: i64,
    pub reminder_id: i64,
    pub paid_date: String,
    pub is_paid: bool,
    pub created_at: String,
    pub statement_date: Option<String>,
    pub note: Option<String>,
}

/// What is known of a backup file.
#[derive(Debug, Clone, PartialEq, Eq)]
pub struct BackupInfo {
    pub timestamp: String,
    pub file_size: u64,
    pub version: String,
    pub is_compressed: bool,
}

impl Reminder {
    /// Whether the payment day is a day of a month.
    pub open spec fn well_formed(self) -> bool {
        1 <= self.payment_day <= 31
    }

    /// Computes `well_formed`.
    pub fn is_well_formed(&self) -> (valid: bool)
        ensures
            valid == self.well_formed(),
    {
        1 <= self.payment_day && self.payment_day <= 31
    }
}

/// How a recurring item repeats when nothing else is said: on a date of
/// each month.
pub fn default_repeat_type() -> (repeat_type: String)
    ensures
        repeat_type@ == "monthly_date"@,
{
    String::from_str("monthly_date")
}

/// The number of units between two occurrences when nothing else is said.
pub fn default_interval_value() -> (value: i32)
    ensures
        value == 1,
{
    1
}

/// The unit of the interval when nothing else is said: the month.
pub fn default_interval_unit() -> (unit: String)
    ensures
        unit@ == "month"@,
{
    String::from_str("month")
}

} // verus!
