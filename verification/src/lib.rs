//! Validation and canonicalization of structured identifiers for the Akahu
//! financial data platform.
//!
//! The heart of the crate is a pair of pure components:
//!
//! - [`BankPrefix`] — the closed registry of New Zealand bank institution
//!   codes, resolving a two-digit numeric prefix to a bank identity.
//! - [`BankAccountNumber`] — a validating canonicalizer for NZ bank account
//!   numbers. It accepts either the hyphenated form `BB-CCCC-NNNNNNN-SSS` or a
//!   contiguous run of sixteen digits, and always stores the single canonical
//!   hyphenated form.
//!
//! Around these sit the prefix-tagged resource identifiers (`acc_…`,
//! `trans_…`, …) used by the Akahu API, simple token newtypes, and the plain
//! data models exchanged with the API.

mod bank_account_number;
mod bank_prefix;
mod digits;
mod identifiers;
mod models;
mod space_separated;
mod tokens;

pub use bank_account_number::{
    bank_code_value, hyphenate, is_canonical, is_contiguous, lemma_bank_code_resolves,
    lemma_component_extraction, lemma_encoding_equivalence, BankAccountNumber,
    InvalidBankAccountError,
};
pub use bank_prefix::{
    lemma_display_code_canonical, lemma_resolve_digit_pair, lemma_resolve_leading_zero, BankPrefix,
};
pub use digits::{all_digits, digit_val, digits_value, is_digit, strip_leading_zeros};
pub use identifiers::{
    has_prefix, AccountId, AccountKind, AuthorizationId, AuthorizationKind, CategoryId,
    CategoryKind, ConnectionId, ConnectionKind, IdKind, InvalidIdError, MerchantId, MerchantKind,
    PaymentId, PaymentKind, ResourceId, TransactionId, TransactionKindMarker, TransferId,
    TransferKind, UserId, UserKind,
};
pub use models::{
    Active, Address, AddressComponents, AddressType, Attribute, BankAccountKind, BranchInfo,
    CursorObject, ErrorResponse, IdentityAccount, IdentityProfile, IdentitySource, IdentityStatus,
    ItemResponse, ListPaymentsQuery, ListResponse, MatchResult, NameVerification,
    PaginatedResponse, PaymentDestination, PaymentMetadata, PaymentStatementDetails, PaymentStatus,
    Scope, TokenErrorResponse, TokenExchangeRequest, TokenExchangeResponse, TransactionKind,
    TransactionSupportRequest, TransactionSupportResponse, TransferStatus, VerificationSourceType,
    VerifyNameRequest,
};
pub use space_separated::{
    join_space_separated, join_spaces, split_space_separated, split_spaces,
};
pub use tokens::{
    AppSecret, AppToken, AuthCode, ClientSecret, Cursor, InvalidEmailError, RedirectUri, UserToken,
};
