//! Simple string newtypes for the credential and pagination values that the
//! Akahu API exchanges. Unlike the resource identifiers, these carry no
//! structural rule: wrapping them only keeps the different roles apart in
//! signatures.

use vstd::prelude::*;

verus! {

/// Error when an email address is invalid. It carries the offending input
/// verbatim.
#[derive(Debug, Clone)]
pub struct InvalidEmailError(pub String);

/// User access token obtained through OAuth.
///
/// This token is used to authenticate requests on behalf of a specific user.
#[derive(Debug, Clone, PartialEq, Eq, Hash)]
pub struct UserToken {
    text: String,
}

impl View for UserToken {
    type V = Seq<char>;

    closed spec fn view(&self) -> Seq<char> {
        self.text@
    }
}

impl UserToken {
    /// Create a new instance.
    pub fn new(value: &str) -> (r: Self)
        ensures
            r@ == value@,
    {
        UserToken { text: value.to_owned() }
    }

    /// Get the inner string value as a reference.
    pub fn as_str(&self) -> (r: &str)
        ensures
            r@ == self@,
    {
        self.text.as_str()
    }

    /// Consume and get the inner string value.
    pub fn into_inner(self) -> (r: String)
        ensures
            r@ == self@,
    {
        self.text
    }

    /// The token as an owned string.
    pub fn to_string(&self) -> (r: String)
        ensures
            r@ == self@,
    {
        self.text.clone()
    }
}

impl From<&str> for UserToken {
    fn from(s: &str) -> (r: Self) {
        UserToken::new(s)
    }
}

impl vstd::std_specs::convert::FromSpecImpl<&str> for UserToken {
    open spec fn obeys_from_spec() -> bool {
        false
    }

    open spec fn from_spec(s: &str) -> Self {
        choose|t: UserToken| t@ == s@
    }
}

/// Application ID token for authenticating your app with Akahu.
#[derive(Debug, Clone, PartialEq, Eq, Hash)]
pub struct AppToken {
    text: String,
}

impl View for AppToken {
    type V = Seq<char>;

    closed spec fn view(&self) -> Seq<char> {
        self.text@
    }
}

impl AppToken {
    /// Create a new instance.
    pub fn new(value: &str) -> (r: Self)
        ensures
            r@ == value@,
    {
        AppToken { text: value.to_owned() }
    }

    /// Get the inner string value as a reference.
    pub fn as_str(&self) -> (r: &str)
        ensures
            r@ == self@,
    {
        self.text.as_str()
    }

    /// Consume and get the inner string value.
    pub fn into_inner(self) -> (r: String)
        ensures
            r@ == self@,
    {
        self.text
    }
}

/// Application secret for app-scoped endpoints.
///
/// Used together with the app token when accessing app-scoped endpoints.
#[derive(Debug, Clone, PartialEq, Eq, Hash)]
pub struct AppSecret {
    text: String,
}

impl View for AppSecret {
    type V = Seq<char>;

    closed spec fn view(&self) -> Seq<char> {
        self.text@
    }
}

impl AppSecret {
    /// Create a new instance.
    pub fn new(value: &str) -> (r: Self)
        ensures
            r@ == value@,
    {
        AppSecret { text: value.to_owned() }
    }

    /// Get the inner string value as a reference.
    pub fn as_str(&self) -> (r: &str)
        ensures
            r@ == self@,
    {
        self.text.as_str()
    }

    /// Consume and get the inner string value.
    pub fn into_inner(self) -> (r: String)
        ensures
            r@ == self@,
    {
        self.text
    }
}

/// OAuth client secret used during the token exchange flow.
#[derive(Debug, Clone, PartialEq, Eq, Hash)]
pub struct ClientSecret {
    text: String,
}

impl View for ClientSecret {
    type V = Seq<char>;

    closed spec fn view(&self) -> Seq<char> {
        self.text@
    }
}

impl ClientSecret {
    /// Create a new instance.
    pub fn new(value: &str) -> (r: Self)
        ensures
            r@ == value@,
    {
        ClientSecret { text: value.to_owned() }
    }

    /// Get the inner string value as a reference.
    pub fn as_str(&self) -> (r: &str)
        ensures
            r@ == self@,
    {
        self.text.as_str()
    }

    /// Consume and get the inner string value.
    pub fn into_inner(self) -> (r: String)
        ensures
            r@ == self@,
    {
        self.text
    }
}

/// OAuth authorization code (short-lived), exchanged for a user access token.
#[derive(Debug, Clone, PartialEq, Eq, Hash)]
pub struct AuthCode {
    text: String,
}

impl View for AuthCode {
    type V = Seq<char>;

    closed spec fn view(&self) -> Seq<char> {
        self.text@
    }
}

impl AuthCode {
    /// Create a new instance.
    pub fn new(value: &str) -> (r: Self)
        ensures
            r@ == value@,
    {
        AuthCode { text: value.to_owned() }
    }

    /// Get the inner string value as a reference.
    pub fn as_str(&self) -> (r: &str)
        ensures
            r@ == self@,
    {
        self.text.as_str()
    }

    /// Consume and get the inner string value.
    pub fn into_inner(self) -> (r: String)
        ensures
            r@ == self@,
    {
        self.text
    }
}

/// OAuth redirect URI used during the authorization flow.
#[derive(Debug, Clone, PartialEq, Eq, Hash)]
pub struct RedirectUri {
    text: String,
}

impl View for RedirectUri {
    type V = Seq<char>;

    closed spec fn view(&self) -> Seq<char> {
        self.text@
    }
}

impl RedirectUri {
    /// Create a new instance.
    pub fn new(value: &str) -> (r: Self)
        ensures
            r@ == value@,
    {
        RedirectUri { text: value.to_owned() }
    }

    /// Get the inner string value as a reference.
    pub fn as_str(&self) -> (r: &str)
        ensures
            r@ == self@,
    {
        self.text.as_str()
    }

    /// Consume and get the inner string value.
    pub fn into_inner(self) -> (r: String)
        ensures
            r@ == self@,
    {
        self.text
    }
}

/// Pagination cursor token: an opaque value used to fetch the next page of
/// results.
#[derive(Debug, Clone, PartialEq, Eq, Hash)]
pub struct Cursor {
    text: String,
}

impl View for Cursor {
    type V = Seq<char>;

    closed spec fn view(&self) -> Seq<char> {
        self.text@
    }
}

impl Cursor {
    /// Create a new instance.
    pub fn new(value: &str) -> (r: Self)
        ensures
            r@ == value@,
    {
        Cursor { text: value.to_owned() }
    }

    /// Get the inner string value as a reference.
    pub fn as_str(&self) -> (r: &str)
        ensures
            r@ == self@,
    {
        self.text.as_str()
    }

    /// Consume and get the inner string value.
    pub fn into_inner(self) -> (r: String)
        ensures
            r@ == self@,
    {
        self.text
    }
}

} // verus!
