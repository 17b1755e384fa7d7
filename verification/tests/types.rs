use akahu_client::{AccountId, TransactionId, UserId, UserToken};

#[test]
fn test_account_id_validation() {
    // Valid account ID
    AccountId::new("acc_123456").unwrap();

    // Invalid prefix
    AccountId::new("trans_123456").unwrap_err();
    AccountId::new("123456").unwrap_err();
}

#[test]
fn test_transaction_id_validation() {
    // Valid transaction ID
    TransactionId::new("trans_abcdef123").unwrap();

    // Invalid prefix
    TransactionId::new("acc_123456").unwrap_err();
}

#[test]
fn test_newtype_conversions() {
    let token = UserToken::new("test_token");
    assert_eq!(token.as_str(), "test_token");
    assert_eq!(token.clone().into_inner(), "test_token");
    assert_eq!(token.to_string(), "test_token");

    let token2: UserToken = "another_token".into();
    assert_eq!(token2.as_str(), "another_token");
}

#[test]
fn test_id_rejects_empty_and_partial_prefix() {
    // The empty string and a partial prefix both lack the required prefix.
    AccountId::new("").unwrap_err();
    AccountId::new("acc").unwrap_err();
    AccountId::new("ac_123").unwrap_err();
    // The bare prefix alone is accepted: the rule is only that the prefix
    // is present.
    AccountId::new("acc_").unwrap();
}

#[test]
fn test_id_error_reports_kind_and_prefix() {
    let err = AccountId::new("123456").unwrap_err();
    assert_eq!(err.kind_name, "AccountId");
    assert_eq!(err.expected_prefix, "acc_");
    assert_eq!(err.actual_value, "123456");

    let err = TransactionId::new("acc_9").unwrap_err();
    assert_eq!(err.kind_name, "TransactionId");
    assert_eq!(err.expected_prefix, "trans_");
    assert_eq!(err.actual_value, "acc_9");
}

#[test]
fn test_id_accessors_and_trusted_construction() {
    let id = AccountId::new("acc_123456").unwrap();
    assert_eq!(id.as_str(), "acc_123456");
    assert_eq!(id.clone().into_inner(), "acc_123456");

    // The trusted constructor skips validation: it is reserved for values
    // the API server returned.
    let trusted = UserId::new_unchecked("user_42");
    assert_eq!(trusted.as_str(), "user_42");
}
