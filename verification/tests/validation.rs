use expense_tracker::errors::auth_errors::ValidationError;
use expense_tracker::errors::category_errors::CategoryError;
use expense_tracker::errors::errors::UserError;
use expense_tracker::errors::expense_errors::ExpenseError;
use expense_tracker::models::amount::Amount;
use expense_tracker::models::auth_models::{Login, Register};
use expense_tracker::models::category_models::{default_page, Category};
use expense_tracker::models::expense_model::{
    normalize_page, page_offset, ExpenseRequest, PAGE_SIZE,
};
use expense_tracker::models::user_model::CreateUser;

const STRONG: &str = "Tr0ub4dor&3-Zebra-Quilt-92!x";

fn register(name: &str, email: &str, password: &str) -> Register {
    Register { email: email.to_string(), name: name.to_string(), password: password.to_string() }
}

fn login(email: &str, password: &str) -> Login {
    Login { email: email.to_string(), password: password.to_string() }
}

fn expense(mantissa: i128, description: &str, category_id: u128) -> ExpenseRequest {
    ExpenseRequest {
        amount: Amount { mantissa, scale: 2 },
        description: description.to_string(),
        category_id,
        date: 739000,
        payment_method: None,
        is_recurring: false,
        tags: None,
    }
}

#[test]
fn login_with_a_malformed_email_is_refused() {
    assert_eq!(login("not-an-email", "longenough").validate(), Err(ValidationError::InvalidEmail));
    assert_eq!(login("", "longenough").validate(), Err(ValidationError::InvalidEmail));
    assert_eq!(login("a@", "longenough").validate(), Err(ValidationError::InvalidEmail));
}

#[test]
fn login_without_a_password_is_refused() {
    assert_eq!(
        login("user@example.com", "").validate(),
        Err(ValidationError::PasswordRequired)
    );
}

#[test]
fn login_with_a_short_password_is_refused() {
    assert_eq!(
        login("user@example.com", "1234567").validate(),
        Err(ValidationError::WeakPassword)
    );
    assert_eq!(login("user@example.com", "12345678").validate(), Ok(()));
}

#[test]
fn login_checks_the_email_before_the_password() {
    assert_eq!(login("nope", "").validate(), Err(ValidationError::InvalidEmail));
    assert_eq!(login("nope", "").check(true), Err(ValidationError::PasswordRequired));
    assert_eq!(login("user@example.com", "12345678").check(false), Err(ValidationError::InvalidEmail));
}

#[test]
fn registration_checks_the_name_first() {
    assert_eq!(
        register("", "nope", "").validate(),
        Err(ValidationError::NameRequired)
    );
    assert_eq!(
        register("ab", "user@example.com", STRONG).validate(),
        Err(ValidationError::NameTooShort)
    );
    let long = "n".repeat(101);
    assert_eq!(
        register(&long, "user@example.com", STRONG).validate(),
        Err(ValidationError::NameTooShort)
    );
    let longest = "n".repeat(100);
    assert_eq!(register(&longest, "user@example.com", STRONG).validate(), Ok(()));
}

#[test]
fn registration_checks_the_email_second() {
    assert_eq!(
        register("Ada", "not-an-email", "").validate(),
        Err(ValidationError::InvalidEmail)
    );
    let local = "a".repeat(64);
    let domain = format!("{}.{}.{}.com", "b".repeat(63), "c".repeat(63), "d".repeat(63));
    let email = format!("{}@{}", local, domain);
    assert!(email.len() > 254);
    assert_eq!(register("Ada", &email, STRONG).validate(), Err(ValidationError::InvalidEmail));
}

#[test]
fn registration_bounds_the_password_length() {
    let long = "x9!Q".repeat(19);
    assert_eq!(long.len(), 76);
    assert_eq!(
        register("Ada", "ada@example.com", &long).validate(),
        Err(ValidationError::PasswordTooLong)
    );
}

#[test]
fn registration_with_a_weak_password_is_refused() {
    assert_eq!(
        register("Ada", "ada@example.com", "password").validate(),
        Err(ValidationError::WeakPassword)
    );
    assert_eq!(
        register("Ada", "ada@example.com", "").validate(),
        Err(ValidationError::WeakPassword)
    );
    assert_eq!(
        register("Ada Lovelace", "ada@example.com", "ada@example.com").validate(),
        Err(ValidationError::WeakPassword)
    );
}

#[test]
fn registration_with_a_strong_password_is_accepted() {
    assert_eq!(register("Ada", "ada@example.com", STRONG).validate(), Ok(()));
}

#[test]
fn registration_verdict_for_each_score() {
    let request = register("Ada", "ada@example.com", "whatever");
    assert_eq!(request.check(true, 0), Err(ValidationError::WeakPassword));
    assert_eq!(request.check(true, 2), Err(ValidationError::WeakPassword));
    assert_eq!(request.check(true, 3), Ok(()));
    assert_eq!(request.check(true, 4), Ok(()));
    assert_eq!(request.check(false, 4), Err(ValidationError::InvalidEmail));
}

#[test]
fn category_names_are_three_to_thirty_bytes() {
    let name = |text: &str| Category { name: text.to_string() };
    assert!(matches!(name("").validate(), Err(CategoryError::NameRequired)));
    assert!(matches!(name("ab").validate(), Err(CategoryError::NameTooShort)));
    assert!(matches!(name("abc").validate(), Ok(())));
    assert!(matches!(name(&"a".repeat(30)).validate(), Ok(())));
    assert!(matches!(name(&"a".repeat(31)).validate(), Err(CategoryError::NameTooLong)));
    assert!(matches!(name("éé").validate(), Ok(())));
}

#[test]
fn expense_amounts_must_be_positive() {
    assert!(matches!(expense(0, "lunch", 7).validate(), Err(ExpenseError::InvalidAmountValue)));
    assert!(matches!(expense(-1, "lunch", 7).validate(), Err(ExpenseError::InvalidAmountValue)));
    assert!(matches!(expense(1, "lunch", 7).validate(), Ok(())));
}

#[test]
fn expense_descriptions_are_one_to_255_bytes() {
    assert!(matches!(expense(1, "", 7).validate(), Err(ExpenseError::DescriptionRequired)));
    assert!(matches!(expense(1, &"d".repeat(255), 7).validate(), Ok(())));
    assert!(matches!(
        expense(1, &"d".repeat(256), 7).validate(),
        Err(ExpenseError::DescriptionTooLong)
    ));
}

#[test]
fn expense_needs_a_category() {
    assert!(matches!(expense(1, "lunch", 0).validate(), Err(ExpenseError::CategoryIDRequired)));
}

#[test]
fn expense_checks_run_in_order() {
    assert!(matches!(expense(0, "", 0).validate(), Err(ExpenseError::InvalidAmountValue)));
    assert!(matches!(expense(1, "", 0).validate(), Err(ExpenseError::DescriptionRequired)));
}

#[test]
fn amounts_are_positive_above_zero() {
    assert!(Amount { mantissa: 1, scale: 28 }.is_positive());
    assert!(!Amount { mantissa: 0, scale: 0 }.is_positive());
    assert!(!Amount { mantissa: -5, scale: 1 }.is_positive());
}

#[test]
fn plain_user_requests_are_judged_in_order() {
    let user = |name: &str, email: &str, password: &str| CreateUser {
        email: email.to_string(),
        name: name.to_string(),
        password: password.to_string(),
    };
    assert!(matches!(user("", "x", "").validate(), Err(UserError::NameRequired)));
    assert!(matches!(user("ab", "x", "").validate(), Err(UserError::InvalidNameLength)));
    assert!(matches!(user("Ada", "x", "").validate(), Err(UserError::InvalidEmail)));
    assert!(matches!(
        user("Ada", "ada@example.com", "password").validate(),
        Err(UserError::WeakPassword)
    ));
    assert!(matches!(user("Ada", "ada@example.com", STRONG).validate(), Ok(())));
    assert!(matches!(user("Ada", "ada@example.com", "x").check(true, 3), Ok(())));
}

#[test]
fn pages_start_at_one() {
    assert_eq!(default_page(), 1);
    assert_eq!(normalize_page(0), 1);
    assert_eq!(normalize_page(-9), 1);
    assert_eq!(normalize_page(1), 1);
    assert_eq!(normalize_page(17), 17);
}

#[test]
fn offsets_count_ten_rows_a_page() {
    assert_eq!(PAGE_SIZE, 10);
    assert_eq!(page_offset(1), 0);
    assert_eq!(page_offset(0), 0);
    assert_eq!(page_offset(2), 10);
    assert_eq!(page_offset(3), 20);
    assert_eq!(page_offset(101), 1000);
    assert_eq!(page_offset(922337203685477581), 9223372036854775800);
    assert_eq!(page_offset(922337203685477582), i64::MAX);
    assert_eq!(page_offset(i64::MAX), i64::MAX);
}
