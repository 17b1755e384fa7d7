use akahu_client::{BankAccountNumber, BankPrefix};

#[test]
fn test_component_extraction() {
    // Format: XX-XXXX-XXXXXXX-XXX
    //         01-2345-6789012-000
    let raw = "01-2345-6789012-000";
    let account = BankAccountNumber::new(raw).expect("Should be valid");

    assert_eq!(account.bank_code(), "01");
    assert_eq!(account.branch_code(), "2345");
    assert_eq!(account.account_number(), "6789012");
    assert_eq!(account.suffix(), "000");
}

#[test]
fn test_component_extraction_from_unformatted() {
    // Unformatted input should result in correctly formatted output and extraction
    let raw = "3890000000000123"; // Kiwibank
    let account = BankAccountNumber::new(raw).expect("Should be valid");

    // Internal format should be 38-9000-0000000-123
    assert_eq!(account.as_str(), "38-9000-0000000-123");

    assert_eq!(account.prefix(), BankPrefix::Kiwibank);
    assert_eq!(account.bank_code(), "38");
    assert_eq!(account.branch_code(), "9000");
    assert_eq!(account.account_number(), "0000000");
    assert_eq!(account.suffix(), "123");
}

#[test]
fn test_extraction_integrity() {
    // Reconstructing the string from its components matches the stored form
    let account = BankAccountNumber::new("12-3456-7890123-001").unwrap();

    let reconstructed = format!(
        "{}-{}-{}-{}",
        account.bank_code(),
        account.branch_code(),
        account.account_number(),
        account.suffix()
    );

    assert_eq!(account.as_str(), reconstructed);
}

#[test]
fn test_round_trip_canonical_input() {
    // A canonical hyphenated input is stored unchanged.
    let raw = "12-3456-7890123-001";
    let account = BankAccountNumber::new(raw).unwrap();
    assert_eq!(account.as_str(), raw);
}

#[test]
fn test_contiguous_and_hyphenated_agree() {
    // Both encodings of the same fields give the same canonical value.
    let from_digits = BankAccountNumber::new("0123456789012000").unwrap();
    let from_hyphens = BankAccountNumber::new("01-2345-6789012-000").unwrap();
    assert_eq!(from_digits, from_hyphens);
    assert_eq!(from_digits.as_str(), from_hyphens.as_str());
    assert_eq!(from_digits.bank_code(), from_hyphens.bank_code());
    assert_eq!(from_digits.branch_code(), from_hyphens.branch_code());
    assert_eq!(from_digits.account_number(), from_hyphens.account_number());
    assert_eq!(from_digits.suffix(), from_hyphens.suffix());
    assert_eq!(from_digits.prefix(), BankPrefix::Anz);
}

#[test]
fn test_rejects_wrong_segment_count() {
    let err = BankAccountNumber::new("01-2345-000").unwrap_err();
    assert_eq!(err.0, "01-2345-000");
}

#[test]
fn test_rejects_wrong_field_width() {
    let err = BankAccountNumber::new("1-2345-6789012-000").unwrap_err();
    assert_eq!(err.0, "1-2345-6789012-000");
}

#[test]
fn test_rejects_non_digit_characters() {
    let err = BankAccountNumber::new("AB-2345-6789012-000").unwrap_err();
    assert_eq!(err.0, "AB-2345-6789012-000");
}

#[test]
fn test_rejects_unknown_bank_code() {
    let err = BankAccountNumber::new("99-2345-6789012-000").unwrap_err();
    assert_eq!(err.0, "99-2345-6789012-000");
    // The same unknown bank code is also rejected in contiguous form.
    assert!(BankAccountNumber::new("9923456789012000").is_err());
}

#[test]
fn test_rejects_wrong_contiguous_length() {
    // Fifteen digits: one too few.
    assert!(BankAccountNumber::new("389000000000012").is_err());
    // Seventeen digits: one too many.
    assert!(BankAccountNumber::new("38900000000001234").is_err());
    // Empty input.
    assert!(BankAccountNumber::new("").is_err());
}

#[test]
fn test_resolve_strips_leading_zeros() {
    assert_eq!(BankPrefix::resolve("01"), Some(BankPrefix::Anz));
    assert_eq!(BankPrefix::resolve("1"), Some(BankPrefix::Anz));
    assert_eq!(BankPrefix::resolve("00"), None);
    assert_eq!(BankPrefix::resolve(""), None);
}

#[test]
fn test_resolve_rejects_unassigned_codes() {
    assert_eq!(BankPrefix::resolve("07"), None);
    assert_eq!(BankPrefix::resolve("09"), None);
    assert_eq!(BankPrefix::resolve("26"), None);
    assert_eq!(BankPrefix::resolve("99"), None);
    assert_eq!(BankPrefix::resolve("100"), None);
    assert_eq!(BankPrefix::resolve("3x"), None);
}

#[test]
fn test_registry_display_codes() {
    assert_eq!(BankPrefix::Anz.as_str(), "01");
    assert_eq!(BankPrefix::Kiwibank.as_str(), "38");
    assert_eq!(BankPrefix::BankOfChina.as_str(), "88");
    assert_eq!(BankPrefix::Anz.bank_name(), "ANZ");
    assert_eq!(BankPrefix::AnzPostBank.bank_name(), "ANZ");
    assert_eq!(BankPrefix::Kiwibank.bank_name(), "Kiwibank");
    assert_eq!(BankPrefix::WestpacOtago.bank_name(), "Westpac");
}

#[test]
fn test_from_code_round_trip() {
    assert_eq!(BankPrefix::from_code(38), Some(BankPrefix::Kiwibank));
    assert_eq!(BankPrefix::from_code(12), Some(BankPrefix::Asb));
    assert_eq!(BankPrefix::from_code(0), None);
    assert_eq!(BankPrefix::from_code(7), None);
    assert_eq!(BankPrefix::from_code(89), None);
}
