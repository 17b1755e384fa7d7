//! Plain data models exchanged with the Akahu API.
//!
//! These are the response wrappers, enumerations and record types whose
//! fields are plain values. They carry no behaviour of their own except for
//! [`TransactionKind`], whose label conversions are specified below.

use vstd::prelude::*;

verus! {

broadcast use vstd::string::group_string_axioms;

/// Standard error response structure from the Akahu API.
///
/// All API errors follow this format with a success flag and message field.
#[derive(Debug)]
pub struct ErrorResponse {
    /// Always false for error responses
    pub success: bool,
    /// Error message from the API
    pub message: String,
}

/// Standard API response wrapper for a single item.
#[derive(Debug, Clone, PartialEq, Eq)]
pub struct ItemResponse<T> {
    /// Indicates if the request was successful.
    pub success: bool,
    /// The resource data.
    pub item: T,
}

/// Standard API response wrapper for a list of items.
#[derive(Debug, Clone, PartialEq, Eq)]
pub struct ListResponse<T> {
    /// Indicates if the request was successful.
    pub success: bool,
    /// The list of resources.
    pub items: Vec<T>,
}

/// Standard API response wrapper for paginated items. The cursor object
/// holds the value used to fetch the next page.
#[derive(Debug, Clone, PartialEq, Eq)]
pub struct PaginatedResponse<T> {
    /// Indicates if the request was successful.
    pub success: bool,
    /// The list of resources for this page.
    pub items: Vec<T>,
    /// Cursor information for pagination.
    pub cursor: CursorObject,
}

/// Cursor for paginating through transaction results.
#[derive(Debug, Clone, PartialEq, Eq)]
pub struct CursorObject {
    /// Cursor value to use for fetching the next page of results.
    pub next: Option<crate::tokens::Cursor>,
}

/// The status of Akahu's connection to an account.
#[derive(Debug, Clone, PartialEq, Eq, Structural)]
pub enum Active {
    /// Akahu can authenticate with the institution to retrieve data and/or
    /// initiate payments for this account.
    Active,
    /// Akahu no longer has access to this account; cached data stays
    /// readable but is no longer refreshed.
    Inactive,
}

/// What sort of account an account is. Akahu provides specific bank account
/// types, and falls back to more general types for other connections.
#[derive(Debug, Clone, PartialEq, Eq, Structural)]
pub enum BankAccountKind {
    /// An everyday spending account.
    Checking,
    /// A savings account.
    Savings,
    /// A credit card.
    CreditCard,
    /// A loan account.
    Loan,
    /// A KiwiSaver investment product.
    Kiwisaver,
    /// A general investment product.
    Investment,
    /// A term deposit.
    TermDeposit,
    /// An account holding a foreign currency.
    Foreign,
    /// An account with tax authorities.
    Tax,
    /// An account for rewards points.
    Rewards,
    /// Available cash for investment or withdrawal from an investment
    /// provider.
    Wallet,
}

/// An ability an account has.
#[derive(Debug, Clone, PartialEq, Eq, Structural)]
pub enum Attribute {
    /// Akahu can fetch available transactions from this account.
    Transactions,
    /// This account can receive transfers from accounts belonging to the
    /// same set of credentials.
    TransferTo,
    /// This account can initiate transfers to accounts belonging to the same
    /// set of credentials.
    TransferFrom,
    /// This account can receive payments from another bank account.
    PaymentTo,
    /// This account can initiate payments to another bank account.
    PaymentFrom,
}

/// Request body for exchanging an authorization code for an access token.
#[derive(Debug, Clone, PartialEq, Eq)]
pub struct TokenExchangeRequest {
    /// Must be set to "authorization_code"
    pub grant_type: String,
    /// The authorization code received from the OAuth flow
    pub code: String,
    /// The redirect URI used in the authorization request
    pub redirect_uri: String,
    /// Your application's App ID Token
    pub client_id: String,
    /// Your application's App Secret
    pub client_secret: String,
}

/// Response from a successful token exchange.
#[derive(Debug, Clone, PartialEq, Eq)]
pub struct TokenExchangeResponse {
    /// Indicates if the request was successful
    pub success: bool,
    /// The user access token that can be used to access the API
    pub access_token: String,
    /// The type of token, typically "bearer"
    pub token_type: String,
    /// Space-separated list of scopes granted
    pub scope: String,
}

/// Error response from the token endpoint. It uses an `error` field rather
/// than the `message` field used by other Akahu endpoints.
#[derive(Debug, Clone, PartialEq, Eq)]
pub struct TokenErrorResponse {
    /// Indicates the request failed
    pub success: bool,
    /// Error code following the OAuth2 specification
    pub error: String,
    /// Optional human-readable error description
    pub error_description: Option<String>,
}

/// Status of an identity verification.
#[derive(Debug, Clone, PartialEq, Eq, Structural)]
pub enum IdentityStatus {
    /// Identity verification is still being processed
    Processing,
    /// Identity verification is complete
    Complete,
    /// Identity verification encountered an error
    Error,
}

/// Address information from a financial institution.
#[derive(Debug, Clone, PartialEq, Eq)]
pub struct Address {
    /// Type of address
    pub address_type: AddressType,
    /// Raw address string as provided by the bank
    pub value: String,
    /// Parsed and formatted address string, when available
    pub formatted_address: Option<String>,
    /// Places identifier, when available
    pub place_id: Option<String>,
    /// Structured address components, when available
    pub components: Option<AddressComponents>,
}

/// Type of address.
#[derive(Debug, Clone, PartialEq, Eq, Structural)]
pub enum AddressType {
    /// Residential address
    Residential,
    /// Postal address
    Postal,
    /// Unknown address type
    Unknown,
}

/// Structured address components.
#[derive(Debug, Clone, PartialEq, Eq)]
pub struct AddressComponents {
    /// Street address
    pub street: Option<String>,
    /// Suburb
    pub suburb: Option<String>,
    /// City
    pub city: Option<String>,
    /// Region
    pub region: Option<String>,
    /// Postal code
    pub postal_code: Option<String>,
    /// Country
    pub country: Option<String>,
}

/// Account information from identity verification.
#[derive(Debug, Clone, PartialEq, Eq)]
pub struct IdentityAccount {
    /// Account nickname or product name (e.g., "Spending")
    pub name: String,
    /// Account number in NZ format or masked identifier
    pub account_number: String,
    /// Account holder name as displayed by the bank
    pub holder: String,
    /// Whether there are additional unlisted joint account holders
    pub has_unlisted_holders: bool,
    /// Optional address string
    pub address: Option<String>,
    /// Bank/institution name
    pub bank: String,
    /// Optional branch information
    pub branch: Option<BranchInfo>,
}

/// Bank branch information.
#[derive(Debug, Clone, PartialEq, Eq)]
pub struct BranchInfo {
    /// Unique Akahu ID beginning with `bank_branch_`
    pub id: String,
    /// Descriptive name of the branch
    pub description: String,
    /// Phone number in E.164 format
    pub phone: Option<String>,
    /// Branch address
    pub address: Option<String>,
}

/// Information about the institution connection an identity result came
/// from.
#[derive(Debug, Clone, PartialEq, Eq)]
pub struct IdentitySource {
    /// Akahu Connection ID beginning with `conn_`
    pub id: String,
}

/// OAuth profile information.
#[derive(Debug, Clone, PartialEq, Eq)]
pub struct IdentityProfile {
    /// Profile ID beginning with `profile_`
    pub id: String,
}

/// Request to verify a name.
#[derive(Debug, Clone, PartialEq, Eq)]
pub struct VerifyNameRequest {
    /// Family name (surname) - required
    pub family_name: String,
    /// Given name (first name) - optional
    pub given_name: Option<String>,
    /// Middle name(s) - optional; multiple middle names are separated with
    /// spaces
    pub middle_name: Option<String>,
}

/// Type of verification source.
#[derive(Debug, Clone, PartialEq, Eq, Structural)]
pub enum VerificationSourceType {
    /// Bank account holder name
    HolderName,
    /// Party name from a financial institution
    PartyName,
}

/// Match result from verification.
#[derive(Debug, Clone, PartialEq, Eq, Structural)]
pub enum MatchResult {
    /// All supplied parameters match the verification source
    Match,
    /// Family name matches but other supplied parameters don't
    PartialMatch,
}

/// Boolean flags for name component verification.
#[derive(Debug, Clone, PartialEq, Eq)]
pub struct NameVerification {
    /// Whether the family name matched
    pub family_name: Option<bool>,
    /// Whether the given name matched
    pub given_name: Option<bool>,
    /// Whether the middle name matched
    pub middle_name: Option<bool>,
    /// Whether the middle initial matched
    pub middle_initial: Option<bool>,
    /// Whether the given initial matched
    pub given_initial: Option<bool>,
}

/// Payment status values indicating the current state of a payment.
#[derive(Debug, Clone, PartialEq, Eq, Structural)]
pub enum PaymentStatus {
    /// Payment is ready to be processed.
    Ready,
    /// Payment is awaiting approval, either from the bank or from the user.
    PendingApproval,
    /// Payment processing is paused.
    Paused,
    /// Payment was successfully sent (final status).
    Sent,
    /// Payment was declined by the bank or Akahu (final status).
    Declined,
    /// Akahu encountered an error processing the payment (final status).
    Error,
    /// Payment was cancelled by user, app, or system (final status).
    Cancelled,
}

/// Destination account details for a payment.
#[derive(Debug, Clone, PartialEq, Eq)]
pub struct PaymentDestination {
    /// NZ bank account number in the canonical hyphenated format.
    pub account_number: String,
    /// Destination account holder name.
    pub name: String,
}

/// Additional metadata for payments: the statement details that appear on
/// bank statements for the source and destination accounts.
#[derive(Debug, Clone, PartialEq, Eq)]
pub struct PaymentMetadata {
    /// Statement details for the source account.
    pub source: Option<PaymentStatementDetails>,
    /// Statement details for the destination account.
    pub destination: Option<PaymentStatementDetails>,
}

/// Statement details (particulars, code, reference) for payment metadata.
#[derive(Debug, Clone, PartialEq, Eq)]
pub struct PaymentStatementDetails {
    /// Particulars field on the bank statement (max 12 characters).
    pub particulars: Option<String>,
    /// Code field on the bank statement (max 12 characters).
    pub code: Option<String>,
    /// Reference field on the bank statement (max 12 characters).
    pub reference: Option<String>,
}

/// Query parameters for listing payments.
#[derive(Debug, Clone, PartialEq, Eq, Default)]
pub struct ListPaymentsQuery {
    /// Start of the time range (exclusive) in ISO 8601 format.
    pub start: Option<String>,
    /// End of the time range (inclusive) in ISO 8601 format.
    pub end: Option<String>,
}

/// Scopes that can be requested for an OAuth flow. Scopes limit the data an
/// app can access to what it needs.
#[derive(Debug, Clone, PartialEq, Eq, Hash, Structural)]
pub enum Scope {
    /// Gives the app ongoing permission to access the user's accounts;
    /// required to begin an enduring consent flow.
    EnduringConsent,
    /// Gives access to the user's profile information held by Akahu.
    Akahu,
    /// Gives access to the user's connected accounts.
    Accounts,
    /// Gives access to the user's transactions.
    Transactions,
    /// Gives access to the transfer API, moving money between a user's own
    /// accounts.
    Transfers,
    /// Gives access to the payments API, sending money to any account
    /// number.
    Payments,
    /// Gives access to the user's official name from connected accounts.
    IdentityNames,
    /// Gives access to the user's date of birth from connected accounts.
    IdentityDobs,
    /// Gives access to the user's email addresses from connected accounts.
    IdentityEmails,
    /// Gives access to the user's phone numbers from connected accounts.
    IdentityPhones,
    /// Gives access to the user's tax numbers from connected accounts.
    IdentityTaxNumbers,
    /// Gives the app permission to access a user's data at the time of the
    /// request; required to begin a one-off connection flow.
    Oneoff,
    /// Gives access to the user's account holder information.
    Holder,
    /// Gives access to the user's residential and postal address.
    Address,
    /// Gives access to the user's account details, including holder name,
    /// account number, and branch details.
    Account,
    /// Gives the app permission to access a user's bank statements.
    Statements,
    /// Gives the app permission to access a user's bank transactions in PDF
    /// format.
    PdfExports,
}

/// Request body for reporting a transaction issue: duplicates, enrichment
/// errors, and enrichment suggestions.
#[derive(Debug, Clone, PartialEq, Eq)]
pub enum TransactionSupportRequest {
    /// Report a duplicate transaction
    Duplicate {
        /// The ID of the duplicate transaction
        other_id: String,
    },
    /// Report an enrichment error
    EnrichmentError {
        /// Dot-separated paths to incorrect values (e.g., "merchant.name")
        fields: Vec<String>,
        /// Explanation of the error
        comment: String,
    },
    /// Suggest an enrichment improvement
    EnrichmentSuggestion {
        /// Description of the suggested enrichment
        comment: String,
    },
}

/// Response from a transaction support request.
#[derive(Debug, Clone, PartialEq, Eq)]
pub struct TransactionSupportResponse {
    /// Indicates if the request was successful
    pub success: bool,
}

/// The current status of a transfer between a user's own accounts.
#[derive(Debug, Clone, PartialEq, Eq, Structural)]
pub enum TransferStatus {
    /// Transfer is prepared and ready for processing.
    Ready,
    /// Transfer is awaiting user authorization/approval.
    PendingApproval,
    /// Transfer has been processed and should be visible in source account
    /// transactions.
    Sent,
    /// Transfer was rejected by the source bank.
    Declined,
    /// An Akahu system error occurred during processing.
    Error,
    /// Transfer is paused awaiting review.
    Paused,
    /// Transfer was cancelled by the user or the system.
    Cancelled,
}

/// What sort of transaction a transaction is. Akahu tries to find a specific
/// transaction type, falling back to credit or debit if nothing else is
/// available.
#[derive(Debug, Clone, PartialEq, Eq, Structural)]
pub enum TransactionKind {
    /// Money has entered the account.
    Credit,
    /// Money has left the account.
    Debit,
    /// A payment to an external account.
    Payment,
    /// A transfer between accounts that are associated with the same
    /// credentials.
    Transfer,
    /// An automatic payment.
    StandingOrder,
    /// A payment made via the EFTPOS system.
    Eftpos,
    /// An interest payment from the account provider.
    Interest,
    /// A fee from the account provider.
    Fee,
    /// A tax payment.
    Tax,
    /// A credit card payment.
    CreditCard,
    /// A direct debit payment.
    DirectDebit,
    /// A direct credit (someone paying into the account).
    DirectCredit,
    /// An ATM deposit or withdrawal.
    Atm,
    /// A payment related to a loan.
    Loan,
}

impl TransactionKind {
    /// The wire label of this transaction kind.
    pub open spec fn label(self) -> Seq<char> {
        match self {
            Self::Credit => "CREDIT"@,
            Self::Debit => "DEBIT"@,
            Self::Payment => "PAYMENT"@,
            Self::Transfer => "TRANSFER"@,
            Self::StandingOrder => "STANDING ORDER"@,
            Self::Eftpos => "EFTPOS"@,
            Self::Interest => "INTEREST"@,
            Self::Fee => "FEE"@,
            Self::Tax => "TAX"@,
            Self::CreditCard => "CREDIT CARD"@,
            Self::DirectDebit => "DIRECT DEBIT"@,
            Self::DirectCredit => "DIRECT CREDIT"@,
            Self::Atm => "ATM"@,
            Self::Loan => "LOAN"@,
        }
    }

    /// The kind whose wire label is `s`, if any.
    pub open spec fn spec_from_label(s: Seq<char>) -> Option<TransactionKind> {
        if s == "CREDIT"@ {
            Some(Self::Credit)
        } else if s == "DEBIT"@ {
            Some(Self::Debit)
        } else if s == "PAYMENT"@ {
            Some(Self::Payment)
        } else if s == "TRANSFER"@ {
            Some(Self::Transfer)
        } else if s == "STANDING ORDER"@ {
            Some(Self::StandingOrder)
        } else if s == "EFTPOS"@ {
            Some(Self::Eftpos)
        } else if s == "INTEREST"@ {
            Some(Self::Interest)
        } else if s == "FEE"@ {
            Some(Self::Fee)
        } else if s == "TAX"@ {
            Some(Self::Tax)
        } else if s == "CREDIT CARD"@ {
            Some(Self::CreditCard)
        } else if s == "DIRECT DEBIT"@ {
            Some(Self::DirectDebit)
        } else if s == "DIRECT CREDIT"@ {
            Some(Self::DirectCredit)
        } else if s == "ATM"@ {
            Some(Self::Atm)
        } else if s == "LOAN"@ {
            Some(Self::Loan)
        } else {
            None
        }
    }

    /// Get the transaction kind as a string slice.
    pub fn as_str(&self) -> (r: &'static str)
        ensures
            r@ == self.label(),
    {
        match self {
            Self::Credit => "CREDIT",
            Self::Debit => "DEBIT",
            Self::Payment => "PAYMENT",
            Self::Transfer => "TRANSFER",
            Self::StandingOrder => "STANDING ORDER",
            Self::Eftpos => "EFTPOS",
            Self::Interest => "INTEREST",
            Self::Fee => "FEE",
            Self::Tax => "TAX",
            Self::CreditCard => "CREDIT CARD",
            Self::DirectDebit => "DIRECT DEBIT",
            Self::DirectCredit => "DIRECT CREDIT",
            Self::Atm => "ATM",
            Self::Loan => "LOAN",
        }
    }

    /// Get the transaction kind as bytes: the UTF-8 encoding of its label.
    pub fn as_bytes(&self) -> (r: &'static [u8])
        ensures
            r@ == vstd::utf8::encode_utf8(self.label()),
    {
        self.as_str().as_bytes()
    }

    /// Parse a wire label back into the transaction kind it names.
    pub fn from_label(s: &str) -> (r: Option<TransactionKind>)
        ensures
            r == Self::spec_from_label(s@),
    {
        if str_eq(s, "CREDIT") {
            Some(Self::Credit)
        } else if str_eq(s, "DEBIT") {
            Some(Self::Debit)
        } else if str_eq(s, "PAYMENT") {
            Some(Self::Payment)
        } else if str_eq(s, "TRANSFER") {
            Some(Self::Transfer)
        } else if str_eq(s, "STANDING ORDER") {
            Some(Self::StandingOrder)
        } else if str_eq(s, "EFTPOS") {
            Some(Self::Eftpos)
        } else if str_eq(s, "INTEREST") {
            Some(Self::Interest)
        } else if str_eq(s, "FEE") {
            Some(Self::Fee)
        } else if str_eq(s, "TAX") {
            Some(Self::Tax)
        } else if str_eq(s, "CREDIT CARD") {
            Some(Self::CreditCard)
        } else if str_eq(s, "DIRECT DEBIT") {
            Some(Self::DirectDebit)
        } else if str_eq(s, "DIRECT CREDIT") {
            Some(Self::DirectCredit)
        } else if str_eq(s, "ATM") {
            Some(Self::Atm)
        } else if str_eq(s, "LOAN") {
            Some(Self::Loan)
        } else {
            None
        }
    }
}

/// Decide whether two strings hold the same characters.
fn str_eq(a: &str, b: &str) -> (r: bool)
    ensures
        r == (a@ == b@),
{
    let an = a.unicode_len();
    let bn = b.unicode_len();
    if an != bn {
        return false;
    }
    let mut i: usize = 0;
    while i < an
        invariant
            0 <= i <= an,
            an == a@.len(),
            an == b@.len(),
            forall|j: int| 0 <= j < i ==> a@[j] == b@[j],
        decreases an - i,
    {
        if a.get_char(i) != b.get_char(i) {
            return false;
        }
        i = i + 1;
    }
    assert(a@ =~= b@);
    true
}

} // verus!
