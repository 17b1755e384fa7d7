//! Prefix-validated resource identifiers.
//!
//! Every resource the Akahu API names — accounts, transactions, users,
//! transfers, payments, connections, categories, merchants, authorizations —
//! is referred to by an opaque string carrying a kind-specific literal
//! prefix (`acc_`, `trans_`, …). One generic mechanism serves all kinds, so
//! the kinds cannot drift apart: a zero-sized marker type names each kind
//! and its prefix, and [`ResourceId`] wraps the string.
//!
//! There are two deliberately distinct construction modes:
//!
//! - [`ResourceId::new`] validates the prefix and is the entry point for
//!   user- or CLI-supplied text;
//! - [`ResourceId::new_unchecked`] skips the check and is reserved for
//!   identifiers the API server itself returned, where the server contract
//!   already guarantees the prefix.

use core::marker::PhantomData;
use vstd::prelude::*;

verus! {

broadcast use vstd::string::group_string_axioms;

/// True when `p` is a prefix of `s`.
pub open spec fn has_prefix(s: Seq<char>, p: Seq<char>) -> bool {
    p.len() <= s.len() && s.subrange(0, p.len() as int) == p
}

/// Error when an identifier doesn't have the expected prefix.
#[derive(Debug, Clone)]
pub struct InvalidIdError {
    /// The name of the identifier type (e.g., "AccountId", "TransactionId")
    pub kind_name: &'static str,
    /// The expected prefix for this identifier type (e.g., "acc_", "trans_")
    pub expected_prefix: &'static str,
    /// The actual value that was provided
    pub actual_value: String,
}

/// A kind of prefix-tagged resource identifier. Each kind fixes one literal
/// prefix and the type name reported in validation errors.
pub trait IdKind {
    /// The prefix every identifier of this kind carries.
    spec fn spec_prefix() -> Seq<char>;

    /// The kind's type name, as reported in errors.
    spec fn spec_kind_name() -> Seq<char>;

    /// The expected prefix for this identifier kind.
    fn prefix() -> (r: &'static str)
        ensures
            r@ == Self::spec_prefix(),
    ;

    /// The kind's type name, as reported in errors.
    fn kind_name() -> (r: &'static str)
        ensures
            r@ == Self::spec_kind_name(),
    ;
}

/// An identifier string statically tagged with its resource kind.
#[derive(Debug, PartialEq, Eq, Hash)]
pub struct ResourceId<K: IdKind> {
    text: String,
    kind: PhantomData<K>,
}

impl<K: IdKind> View for ResourceId<K> {
    type V = Seq<char>;

    closed spec fn view(&self) -> Seq<char> {
        self.text@
    }
}

impl<K: IdKind> Clone for ResourceId<K> {
    /// Cloning keeps the identifier string.
    fn clone(&self) -> (r: Self)
        ensures
            r@ == self@,
    {
        ResourceId { text: self.text.clone(), kind: PhantomData }
    }
}

impl<K: IdKind> ResourceId<K> {
    /// Create a new identifier from untrusted input, validating that it
    /// starts with the kind's prefix. Text lacking the prefix — including
    /// the empty string and a partial prefix — is rejected, and the error
    /// reports the kind, the expected prefix and the offending text.
    pub fn new(value: &str) -> (r: Result<Self, InvalidIdError>)
        ensures
            r is Ok <==> has_prefix(value@, K::spec_prefix()),
            r matches Ok(id) ==> id@ == value@,
            r matches Err(e) ==> e.actual_value@ == value@ && e.expected_prefix@
                == K::spec_prefix() && e.kind_name@ == K::spec_kind_name(),
    {
        let p = K::prefix();
        if str_has_prefix(value, p) {
            Ok(ResourceId { text: value.to_owned(), kind: PhantomData })
        } else {
            Err(
                InvalidIdError {
                    kind_name: K::kind_name(),
                    expected_prefix: p,
                    actual_value: value.to_owned(),
                },
            )
        }
    }

    /// Create an identifier without validation.
    ///
    /// This is the trusted construction mode, intended only for values
    /// deserialized from API responses, where the server contract already
    /// guarantees the prefix. Never use it for user-supplied input: nothing
    /// checks the prefix here.
    pub fn new_unchecked(value: &str) -> (r: Self)
        ensures
            r@ == value@,
    {
        ResourceId { text: value.to_owned(), kind: PhantomData }
    }

    /// Get the inner string value as a reference.
    pub fn as_str(&self) -> (r: &str)
        ensures
            r@ == self@,
    {
        self.text.as_str()
    }

    /// Consume and get the inner string value.
    pub fn into_inner(self) -> (r: String)
        ensures
            r@ == self@,
    {
        self.text
    }
}

/// Decide whether `s` starts with `p`.
fn str_has_prefix(s: &str, p: &str) -> (b: bool)
    ensures
        b == has_prefix(s@, p@),
{
    let pn = p.unicode_len();
    let sn = s.unicode_len();
    if pn > sn {
        return false;
    }
    let mut i: usize = 0;
    while i < pn
        invariant
            0 <= i <= pn,
            pn <= sn,
            pn == p@.len(),
            sn == s@.len(),
            forall|j: int| 0 <= j < i ==> s@[j] == p@[j],
        decreases pn - i,
    {
        if s.get_char(i) != p.get_char(i) {
            return false;
        }
        i = i + 1;
    }
    assert(s@.subrange(0, pn as int) =~= p@);
    true
}

/// Marker for account identifiers (prefix `acc_`).
#[derive(Debug)]
pub struct AccountKind;

/// Marker for transaction identifiers (prefix `trans_`).
#[derive(Debug)]
pub struct TransactionKindMarker;

/// Marker for user identifiers (prefix `user_`).
#[derive(Debug)]
pub struct UserKind;

/// Marker for transfer identifiers (prefix `transfer_`).
#[derive(Debug)]
pub struct TransferKind;

/// Marker for payment identifiers (prefix `payment_`).
#[derive(Debug)]
pub struct PaymentKind;

/// Marker for connection identifiers (prefix `conn_`).
#[derive(Debug)]
pub struct ConnectionKind;

/// Marker for category identifiers (prefix `cat_`).
#[derive(Debug)]
pub struct CategoryKind;

/// Marker for merchant identifiers (prefix `_merchant`).
#[derive(Debug)]
pub struct MerchantKind;

/// Marker for authorization identifiers (prefix `auth_`).
#[derive(Debug)]
pub struct AuthorizationKind;

impl IdKind for AccountKind {
    open spec fn spec_prefix() -> Seq<char> {
        "acc_"@
    }

    open spec fn spec_kind_name() -> Seq<char> {
        "AccountId"@
    }

    fn prefix() -> (r: &'static str) {
        "acc_"
    }

    fn kind_name() -> (r: &'static str) {
        "AccountId"
    }
}

impl IdKind for TransactionKindMarker {
    open spec fn spec_prefix() -> Seq<char> {
        "trans_"@
    }

    open spec fn spec_kind_name() -> Seq<char> {
        "TransactionId"@
    }

    fn prefix() -> (r: &'static str) {
        "trans_"
    }

    fn kind_name() -> (r: &'static str) {
        "TransactionId"
    }
}

impl IdKind for UserKind {
    open spec fn spec_prefix() -> Seq<char> {
        "user_"@
    }

    open spec fn spec_kind_name() -> Seq<char> {
        "UserId"@
    }

    fn prefix() -> (r: &'static str) {
        "user_"
    }

    fn kind_name() -> (r: &'static str) {
        "UserId"
    }
}

impl IdKind for TransferKind {
    open spec fn spec_prefix() -> Seq<char> {
        "transfer_"@
    }

    open spec fn spec_kind_name() -> Seq<char> {
        "TransferId"@
    }

    fn prefix() -> (r: &'static str) {
        "transfer_"
    }

    fn kind_name() -> (r: &'static str) {
        "TransferId"
    }
}

impl IdKind for PaymentKind {
    open spec fn spec_prefix() -> Seq<char> {
        "payment_"@
    }

    open spec fn spec_kind_name() -> Seq<char> {
        "PaymentId"@
    }

    fn prefix() -> (r: &'static str) {
        "payment_"
    }

    fn kind_name() -> (r: &'static str) {
        "PaymentId"
    }
}

impl IdKind for ConnectionKind {
    open spec fn spec_prefix() -> Seq<char> {
        "conn_"@
    }

    open spec fn spec_kind_name() -> Seq<char> {
        "ConnectionId"@
    }

    fn prefix() -> (r: &'static str) {
        "conn_"
    }

    fn kind_name() -> (r: &'static str) {
        "ConnectionId"
    }
}

impl IdKind for CategoryKind {
    open spec fn spec_prefix() -> Seq<char> {
        "cat_"@
    }

    open spec fn spec_kind_name() -> Seq<char> {
        "CategoryId"@
    }

    fn prefix() -> (r: &'static str) {
        "cat_"
    }

    fn kind_name() -> (r: &'static str) {
        "CategoryId"
    }
}

impl IdKind for MerchantKind {
    open spec fn spec_prefix() -> Seq<char> {
        "_merchant"@
    }

    open spec fn spec_kind_name() -> Seq<char> {
        "MerchantId"@
    }

    fn prefix() -> (r: &'static str) {
        "_merchant"
    }

    fn kind_name() -> (r: &'static str) {
        "MerchantId"
    }
}

impl IdKind for AuthorizationKind {
    open spec fn spec_prefix() -> Seq<char> {
        "auth_"@
    }

    open spec fn spec_kind_name() -> Seq<char> {
        "AuthorizationId"@
    }

    fn prefix() -> (r: &'static str) {
        "auth_"
    }

    fn kind_name() -> (r: &'static str) {
        "AuthorizationId"
    }
}

/// Account identifier (always prefixed with `acc_`).
pub type AccountId = ResourceId<AccountKind>;

/// Transaction identifier (always prefixed with `trans_`).
pub type TransactionId = ResourceId<TransactionKindMarker>;

/// User identifier (always prefixed with `user_`).
pub type UserId = ResourceId<UserKind>;

/// Transfer identifier (always prefixed with `transfer_`).
pub type TransferId = ResourceId<TransferKind>;

/// Payment identifier (always prefixed with `payment_`).
pub type PaymentId = ResourceId<PaymentKind>;

/// Connection identifier (always prefixed with `conn_`).
pub type ConnectionId = ResourceId<ConnectionKind>;

/// Category identifier (always prefixed with `cat_`).
pub type CategoryId = ResourceId<CategoryKind>;

/// Merchant identifier (always prefixed with `_merchant`).
pub type MerchantId = ResourceId<MerchantKind>;

/// Authorization identifier (always prefixed with `auth_`).
pub type AuthorizationId = ResourceId<AuthorizationKind>;

} // verus!
