use akahu_client::{
    join_space_separated, split_space_separated, ItemResponse, TransactionKind,
};

#[test]
fn test_transaction_kind_labels() {
    assert_eq!(TransactionKind::Credit.as_str(), "CREDIT");
    assert_eq!(TransactionKind::StandingOrder.as_str(), "STANDING ORDER");
    assert_eq!(TransactionKind::DirectCredit.as_str(), "DIRECT CREDIT");
    assert_eq!(TransactionKind::Atm.as_str(), "ATM");
}

#[test]
fn test_transaction_kind_bytes() {
    assert_eq!(TransactionKind::Credit.as_bytes(), b"CREDIT");
    assert_eq!(TransactionKind::CreditCard.as_bytes(), b"CREDIT CARD");
}

#[test]
fn test_transaction_kind_from_label() {
    assert_eq!(
        TransactionKind::from_label("EFTPOS"),
        Some(TransactionKind::Eftpos)
    );
    assert_eq!(
        TransactionKind::from_label("STANDING ORDER"),
        Some(TransactionKind::StandingOrder)
    );
    assert_eq!(TransactionKind::from_label("credit"), None);
    assert_eq!(TransactionKind::from_label(""), None);
}

#[test]
fn test_transaction_kind_label_round_trip() {
    let kinds = vec![
        TransactionKind::Credit,
        TransactionKind::Debit,
        TransactionKind::Payment,
        TransactionKind::Transfer,
        TransactionKind::StandingOrder,
        TransactionKind::Eftpos,
        TransactionKind::Interest,
        TransactionKind::Fee,
        TransactionKind::Tax,
        TransactionKind::CreditCard,
        TransactionKind::DirectDebit,
        TransactionKind::DirectCredit,
        TransactionKind::Atm,
        TransactionKind::Loan,
    ];
    for kind in kinds {
        assert_eq!(TransactionKind::from_label(kind.as_str()), Some(kind));
    }
}

#[test]
fn test_join_space_separated() {
    let words = vec!["ACCOUNTS".to_string(), "TRANSACTIONS".to_string()];
    assert_eq!(join_space_separated(&words), "ACCOUNTS TRANSACTIONS");
    assert_eq!(join_space_separated(&vec!["ONEOFF".to_string()]), "ONEOFF");
    assert_eq!(join_space_separated(&Vec::new()), "");
}

#[test]
fn test_split_space_separated() {
    assert_eq!(
        split_space_separated("ACCOUNTS TRANSACTIONS"),
        vec!["ACCOUNTS".to_string(), "TRANSACTIONS".to_string()]
    );
    // Runs of spaces and spaces at either end are ignored.
    assert_eq!(
        split_space_separated("  a  b "),
        vec!["a".to_string(), "b".to_string()]
    );
    assert_eq!(split_space_separated(""), Vec::<String>::new());
    assert_eq!(split_space_separated("   "), Vec::<String>::new());
}

#[test]
fn test_split_inverts_join() {
    let words = vec!["ENDURING_CONSENT".to_string(), "AKAHU".to_string(), "ACCOUNTS".to_string()];
    let joined = join_space_separated(&words);
    assert_eq!(split_space_separated(&joined), words);
}

#[test]
fn test_response_wrappers_hold_payload() {
    let response = ItemResponse { success: true, item: 7_u64 };
    assert!(response.success);
    assert_eq!(response.item, 7);
}
