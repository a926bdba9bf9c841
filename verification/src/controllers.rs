//! The replies of the service's three endpoints, as status and body.
//!
//! The functions here decide what is answered. Reading the request and
//! writing the reply onto the wire is left to the web framework around them.

use vstd::prelude::*;
use vstd::string::*;
use vstd::utf8::encode_utf8;
use crate::errors::{AuthError, PublicError};
use crate::models::{
    option_view,
    result_view,
    ErrorResponse,
    Info,
    InfoView,
    LoginData,
    MessageView,
    SuccessResponse,
};
use crate::service::{login_token, login_verdict};
use crate::store::{Lookup, LookupView};
use crate::token::{authenticate, authenticate_outcome, decoded_token};

verus! {

/// The body of a reply.
#[derive(Debug, Clone, PartialEq, Eq)]
pub enum Body {
    /// A JSON object that reports success.
    Success(SuccessResponse),
    /// A JSON object that reports a failure.
    Error(ErrorResponse),
    /// Plain text.
    Text(String),
}

/// What a `Body` holds.
pub enum BodyView {
    Success(MessageView),
    Error(MessageView),
    Text(Seq<char>),
}

impl View for Body {
    type V = BodyView;

    open spec fn view(&self) -> BodyView {
        match self {
            Body::Success(body) => BodyView::Success(body@),
            Body::Error(body) => BodyView::Error(body@),
            Body::Text(text) => BodyView::Text(text@),
        }
    }
}

/// A reply: an HTTP status and a body.
#[derive(Debug, Clone, PartialEq, Eq)]
pub struct Response {
    pub status: u16,
    pub body: Body,
}

/// What a `Response` holds.
pub struct ResponseView {
    pub status: u16,
    pub body: BodyView,
}

impl View for Response {
    type V = ResponseView;

    open spec fn view(&self) -> ResponseView {
        ResponseView { status: self.status, body: self.body@ }
    }
}

/// The reply 200 with a success body.
pub open spec fn success_reply(message: Seq<char>) -> ResponseView {
    ResponseView {
        status: 200,
        body: BodyView::Success(MessageView { success: true, message }),
    }
}

/// The reply with a failure body under `status`.
pub open spec fn error_reply(status: u16, message: Seq<char>) -> ResponseView {
    ResponseView { status, body: BodyView::Error(MessageView { success: false, message }) }
}

/// The reply with a plain text body under `status`.
pub open spec fn text_reply(status: u16, text: Seq<char>) -> ResponseView {
    ResponseView { status, body: BodyView::Text(text) }
}

fn success(message: String) -> (reply: Response)
    ensures
        reply@ == success_reply(message@),
{
    Response { status: 200, body: Body::Success(SuccessResponse { success: true, message }) }
}

fn failure(status: u16, message: &str) -> (reply: Response)
    ensures
        reply@ == error_reply(status, message@),
{
    Response {
        status,
        body: Body::Error(ErrorResponse { success: false, message: message.to_owned() }),
    }
}

/// The reply to a sign-in, given its verdict. A token goes out behind the
/// word `Bearer`. Every refusal for the credentials' sake is the same 401.
pub open spec fn login_reply(verdict: Result<Seq<char>, AuthError>) -> ResponseView {
    match verdict {
        Ok(token) => success_reply("Bearer "@ + token),
        Err(e) => if e.spec_public() == PublicError::InvalidCredentials {
            error_reply(401, "Invalid credentials"@)
        } else if e == AuthError::SigningFailure {
            text_reply(500, "Could not create token"@)
        } else {
            error_reply(500, "Internal server error"@)
        },
    }
}

/// Renders the verdict of a sign-in as a reply.
pub fn reply_to_login(verdict: Result<String, AuthError>) -> (reply: Response)
    ensures
        reply@ == login_reply(result_view(verdict)),
{
    match verdict {
        Ok(token) => success("Bearer ".to_owned().concat(token.as_str())),
        Err(e) => match e.public() {
            PublicError::InvalidCredentials => failure(401, "Invalid credentials"),
            _ => match e {
                AuthError::SigningFailure => Response {
                    status: 500,
                    body: Body::Text("Could not create token".to_owned()),
                },
                _ => failure(500, "Internal server error"),
            },
        },
    }
}

/// Answers a sign-in request, given what the persistence layer answered
/// when asked for the username.
pub fn login(lookup: &Lookup, info: &LoginData, secret: &[u8], now: u64) -> (reply: Response)
    ensures
        reply@ == login_reply(
            login_verdict(lookup@, info@.username, info@.password, secret@, now),
        ),
{
    reply_to_login(
        login_token(lookup, info.username.as_str(), info.password.as_str(), secret, now),
    )
}

/// The reply to a registration, given how it went.
pub open spec fn register_reply(outcome: Result<(), AuthError>) -> ResponseView {
    match outcome {
        Ok(_) => success_reply("User registered successfully"@),
        Err(_) => error_reply(500, "Failed to register user"@),
    }
}

/// Answers a registration request, given how hashing the password and
/// storing the credential went.
pub fn register(outcome: &Result<(), AuthError>) -> (reply: Response)
    ensures
        reply@ == register_reply(*outcome),
{
    match outcome {
        Ok(_) => success("User registered successfully".to_owned()),
        Err(_) => failure(500, "Failed to register user"),
    }
}

/// The token in the value of an `Authorization` header: what follows the
/// word `Bearer` and one space.
pub open spec fn bearer_of(header: Seq<char>) -> Option<Seq<char>> {
    if header.len() >= 7 && header.subrange(0, 7) == "Bearer "@ {
        Some(header.subrange(7, header.len() as int))
    } else {
        None
    }
}

/// Takes the token out of the value of an `Authorization` header.
pub fn bearer_token(header: &str) -> (token: Option<&str>)
    ensures
        option_view(token) == bearer_of(header@),
{
    let prefix = "Bearer ";
    proof {
        reveal_strlit("Bearer ");
    }
    let n = header.unicode_len();
    if n < 7 {
        return None;
    }
    let mut i: usize = 0;
    while i < 7
        invariant
            i <= 7 <= n == header@.len(),
            prefix@ == "Bearer "@,
            prefix@.len() == 7,
            forall|k: int| 0 <= k < i ==> header@[k] == prefix@[k],
        decreases 7 - i,
    {
        if header.get_char(i) != prefix.get_char(i) {
            return None;
        }
        i += 1;
    }
    assert(header@.subrange(0, 7) =~= prefix@);
    Some(header.substring_char(7, n))
}

/// The character for a digit.
pub open spec fn digit(d: nat) -> char {
    ((d + 48) as u8) as char
}

/// A number in decimal notation.
pub open spec fn decimal(n: nat) -> Seq<char>
    decreases n,
{
    if n < 10 {
        seq![digit(n)]
    } else {
        decimal(n / 10).push(digit(n % 10))
    }
}

fn digit_str(d: u8) -> (s: &'static str)
    requires
        d < 10,
    ensures
        s@ == seq![digit(d as nat)],
{
    proof {
        reveal_strlit("0");
        reveal_strlit("1");
        reveal_strlit("2");
        reveal_strlit("3");
        reveal_strlit("4");
        reveal_strlit("5");
        reveal_strlit("6");
        reveal_strlit("7");
        reveal_strlit("8");
        reveal_strlit("9");
    }
    let s = match d {
        0 => "0",
        1 => "1",
        2 => "2",
        3 => "3",
        4 => "4",
        5 => "5",
        6 => "6",
        7 => "7",
        8 => "8",
        _ => "9",
    };
    s
}

/// Writes a number in decimal notation.
pub fn decimal_string(n: u8) -> (s: String)
    ensures
        s@ == decimal(n as nat),
{
    reveal_with_fuel(decimal, 3);
    if n < 10 {
        digit_str(n).to_owned()
    } else if n < 100 {
        digit_str(n / 10).to_owned().concat(digit_str(n % 10))
    } else {
        digit_str(n / 100).to_owned().concat(digit_str((n / 10) % 10)).concat(digit_str(n % 10))
    }
}

/// The reply to a payload whose sender has been admitted: a greeting, or
/// what is wrong with the payload. The length of a name is that of its
/// UTF-8 encoding.
pub open spec fn greeting_reply(info: InfoView) -> ResponseView {
    if info.age == 0 {
        error_reply(400, "Age must be greater than 0"@)
    } else if encode_utf8(info.name).len() < 3 {
        error_reply(400, "Name must be at least 3 characters long"@)
    } else {
        success_reply(
            "Hello, "@ + info.name + "! You are "@ + decimal(info.age as nat) + " years old."@,
        )
    }
}

/// Validates a payload and greets its sender.
pub fn greet(info: &Info) -> (reply: Response)
    ensures
        reply@ == greeting_reply(info@),
{
    if info.age == 0 {
        return failure(400, "Age must be greater than 0");
    }
    if info.name.as_str().as_bytes().len() < 3 {
        return failure(400, "Name must be at least 3 characters long");
    }
    let age = decimal_string(info.age);
    let message = "Hello, ".to_owned().concat(info.name.as_str()).concat("! You are ").concat(
        age.as_str(),
    ).concat(" years old.");
    success(message)
}

/// The reply of the greeting endpoint: without a bearer token in the
/// header nothing is looked at; with one that is not accepted the payload
/// is not looked at.
pub open spec fn json_reply(
    authorization: Option<Seq<char>>,
    info: InfoView,
    secret: Seq<u8>,
    now: u64,
) -> ResponseView {
    match authorization {
        Some(header) => match bearer_of(header) {
            Some(token) => match authenticate_outcome(decoded_token(token, secret), now) {
                Ok(_) => greeting_reply(info),
                Err(_) => error_reply(401, "Invalid token"@),
            },
            None => error_reply(401, "No token provided"@),
        },
        None => error_reply(401, "No token provided"@),
    }
}

/// Answers a request to the greeting endpoint, given the value of its
/// `Authorization` header, if it has one that is text.
pub fn process_json(authorization: Option<&str>, info: &Info, secret: &[u8], now: u64) -> (reply:
    Response)
    ensures
        reply@ == json_reply(option_view(authorization), info@, secret@, now),
{
    if let Some(header) = authorization {
        if let Some(token) = bearer_token(header) {
            return match authenticate(token, secret, now) {
                Ok(_) => greet(info),
                Err(_) => failure(401, "Invalid token"),
            };
        }
    }
    failure(401, "No token provided")
}

/// A reply as the wire format has it: a success body goes out under 200 and
/// says `success: true`; a failure body goes out under 400, 401 or 500 and
/// says `success: false`; plain text goes out under 500 only.
pub open spec fn well_formed_reply(reply: ResponseView) -> bool {
    match reply.body {
        BodyView::Success(body) => reply.status == 200 && body.success,
        BodyView::Error(body) => (reply.status == 400 || reply.status == 401 || reply.status
            == 500) && !body.success,
        BodyView::Text(_) => reply.status == 500,
    }
}

/// Whatever the three endpoints are asked, what they answer is well formed;
/// and a sign-in is answered with 200 exactly where a token was issued.
pub proof fn law_replies_are_well_formed(
    verdict: Result<Seq<char>, AuthError>,
    outcome: Result<(), AuthError>,
    authorization: Option<Seq<char>>,
    info: InfoView,
    secret: Seq<u8>,
    now: u64,
)
    ensures
        well_formed_reply(login_reply(verdict)),
        login_reply(verdict).status == 200 <==> verdict is Ok,
        well_formed_reply(register_reply(outcome)),
        register_reply(outcome).status == 200 <==> outcome is Ok,
        well_formed_reply(greeting_reply(info)),
        well_formed_reply(json_reply(authorization, info, secret, now)),
{
}

/// Every sign-in that is refused for the credentials' sake gets the same
/// reply, whether the username is unknown or the password is wrong.
pub proof fn law_refused_sign_ins_look_alike(a: AuthError, b: AuthError)
    requires
        a.is_credential_failure(),
        b.is_credential_failure(),
    ensures
        login_reply(Err(a)) == login_reply(Err(b)),
        login_reply(Err(a)) == error_reply(401, "Invalid credentials"@),
{
}

} // verus!
