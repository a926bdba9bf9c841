//! The values that cross the service's boundary, each with the
//! mathematical value that contracts speak of.

use vstd::prelude::*;

verus! {

/// A username and a password as a client sends them.
#[derive(Debug, Clone, PartialEq, Eq)]
pub struct LoginData {
    pub username: String,
    pub password: String,
}

/// What a `LoginData` holds.
pub struct LoginDataView {
    pub username: Seq<char>,
    pub password: Seq<char>,
}

impl View for LoginData {
    type V = LoginDataView;

    open spec fn view(&self) -> LoginDataView {
        LoginDataView { username: self.username@, password: self.password@ }
    }
}

/// What a token asserts: who its bearer is, and the second, counted from
/// the Unix epoch, at which it stops being accepted.
#[derive(Debug, Clone, PartialEq, Eq)]
pub struct Claims {
    pub sub: String,
    pub exp: u64,
}

/// What a `Claims` holds.
pub struct ClaimsView {
    pub sub: Seq<char>,
    pub exp: u64,
}

impl View for Claims {
    type V = ClaimsView;

    open spec fn view(&self) -> ClaimsView {
        ClaimsView { sub: self.sub@, exp: self.exp }
    }
}

/// The payload of the greeting endpoint.
#[derive(Debug, Clone, PartialEq, Eq)]
pub struct Info {
    pub name: String,
    pub age: u8,
}

/// What an `Info` holds.
pub struct InfoView {
    pub name: Seq<char>,
    pub age: u8,
}

impl View for Info {
    type V = InfoView;

    open spec fn view(&self) -> InfoView {
        InfoView { name: self.name@, age: self.age }
    }
}

/// The body of a reply that reports success.
#[derive(Debug, Clone, PartialEq, Eq)]
pub struct SuccessResponse {
    pub success: bool,
    pub message: String,
}

/// The body of a reply that reports a failure.
#[derive(Debug, Clone, PartialEq, Eq)]
pub struct ErrorResponse {
    pub success: bool,
    pub message: String,
}

/// What a `SuccessResponse` or an `ErrorResponse` holds.
pub struct MessageView {
    pub success: bool,
    pub message: Seq<char>,
}

impl View for SuccessResponse {
    type V = MessageView;

    open spec fn view(&self) -> MessageView {
        MessageView { success: self.success, message: self.message@ }
    }
}

impl View for ErrorResponse {
    type V = MessageView;

    open spec fn view(&self) -> MessageView {
        MessageView { success: self.success, message: self.message@ }
    }
}

/// The mathematical value of a result whose success carries a viewable value.
pub open spec fn result_view<T: View, E>(r: Result<T, E>) -> Result<T::V, E> {
    match r {
        Ok(value) => Ok(value@),
        Err(e) => Err(e),
    }
}

/// The mathematical value of an optional viewable value.
pub open spec fn option_view<T: View>(o: Option<T>) -> Option<T::V> {
    match o {
        Some(value) => Some(value@),
        None => None,
    }
}

} // verus!
