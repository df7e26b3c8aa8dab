//! Forward-auth: which headers of a request go to the authorization
//! endpoint, and what its answer means.
use vstd::prelude::*;
use vstd::string::*;
use hyper::header::HeaderValue;

verus! {

/// Whether a header value is made of visible ASCII characters, spaces and
/// tabs only.
pub open spec fn is_visible_text(value: Seq<u8>) -> bool {
    forall|i: int| 0 <= i < value.len() ==> (32 <= #[trigger] value[i] < 127 || value[i] == 9)
}

/// The characters that the bytes of a header value stand for.
pub open spec fn as_text(value: Seq<u8>) -> Seq<char> {
    value.map_values(|b: u8| b as char)
}

/// Calls `HeaderValue::from_bytes` and then `HeaderValue::to_str` of hyper.
/// Trusted: there is a text exactly if every byte is a visible ASCII
/// character, a space or a tab, and the text is then those characters.
#[verifier::external_body]
pub(crate) fn header_text(value: &Vec<u8>) -> (r: Option<String>)
    ensures
        r.is_some() == is_visible_text(value@),
        r.is_some() ==> r.unwrap()@ == as_text(value@),
{
    match HeaderValue::from_bytes(value.as_slice()) {
        Ok(header) => match header.to_str() {
            Ok(text) => Some(text.to_owned()),
            Err(_) => None,
        },
        Err(_) => None,
    }
}

/// The authorization endpoint.
#[derive(Debug)]
pub struct ForwardAuth {
    address: String,
}

/// A user as the authorization endpoint named them.
#[derive(Debug)]
pub struct User {
    username: String,
}

impl View for User {
    type V = Seq<char>;

    closed spec fn view(&self) -> Seq<char> {
        self.username@
    }
}

impl User {
    pub fn new(username: &str) -> (r: User)
        ensures
            r@ == username@,
    {
        User { username: String::from_str(username) }
    }

    pub fn is(&self, username: &str) -> (r: bool)
        ensures
            r == (self@ == username@),
    {
        self.username == String::from_str(username)
    }

    pub fn username(&self) -> (r: &str)
        ensures
            r@ == self@,
    {
        self.username.as_str()
    }
}

/// What the authorization endpoint said of a request.
#[derive(Debug)]
pub enum AuthStatus {
    /// Nobody is logged in; the value of the `location` header leads to the
    /// login page.
    Unauthenticated(Vec<u8>),
    /// This user is logged in.
    Authenticated(User),
    /// The user is logged in and may not pass.
    Unauthorized,
}

/// `AuthStatus` as a mathematical value.
pub ghost enum AuthStatusView {
    Unauthenticated(Seq<u8>),
    Authenticated(Seq<char>),
    Unauthorized,
}

impl View for AuthStatus {
    type V = AuthStatusView;

    open spec fn view(&self) -> AuthStatusView {
        match self {
            AuthStatus::Unauthenticated(location) => AuthStatusView::Unauthenticated(location@),
            AuthStatus::Authenticated(user) => AuthStatusView::Authenticated(user@),
            AuthStatus::Unauthorized => AuthStatusView::Unauthorized,
        }
    }
}

/// Why the authorization endpoint gave no usable answer.
#[derive(Debug)]
pub enum AuthError {
    /// The request could not be sent or its answer not be received.
    Reqwest(String),
    /// The request could not be built.
    Http(String),
    /// The answer lacks the header of this name.
    MissingHeader(String),
    /// The header of this name is no text.
    InvalidHeader(String),
    /// The answer has a status that means nothing here.
    UnexpectedResponse(u16),
}

/// `AuthError` as a mathematical value.
pub ghost enum AuthErrorView {
    Reqwest(Seq<char>),
    Http(Seq<char>),
    MissingHeader(Seq<char>),
    InvalidHeader(Seq<char>),
    UnexpectedResponse(u16),
}

impl View for AuthError {
    type V = AuthErrorView;

    open spec fn view(&self) -> AuthErrorView {
        match self {
            AuthError::Reqwest(text) => AuthErrorView::Reqwest(text@),
            AuthError::Http(text) => AuthErrorView::Http(text@),
            AuthError::MissingHeader(name) => AuthErrorView::MissingHeader(name@),
            AuthError::InvalidHeader(name) => AuthErrorView::InvalidHeader(name@),
            AuthError::UnexpectedResponse(status) => AuthErrorView::UnexpectedResponse(*status),
        }
    }
}

/// The view of what a check gave.
pub open spec fn outcome_view(outcome: Result<AuthStatus, AuthError>) -> Result<
    AuthStatusView,
    AuthErrorView,
> {
    match outcome {
        Ok(status) => Ok(status@),
        Err(error) => Err(error@),
    }
}

/// What the answer of the authorization endpoint means. `302` with a
/// `location` asks the user to log in; `403` forbids; any status from 200
/// to 299 names the user in `remote-user`; every other status is
/// unexpected.
pub open spec fn interpreted(
    status: u16,
    location: Option<Seq<u8>>,
    remote_user: Option<Seq<u8>>,
) -> Result<AuthStatusView, AuthErrorView> {
    if status == 302 {
        match location {
            Some(location) => Ok(AuthStatusView::Unauthenticated(location)),
            None => Err(AuthErrorView::MissingHeader("location"@)),
        }
    } else if status == 403 {
        Ok(AuthStatusView::Unauthorized)
    } else if !(200 <= status < 300) {
        Err(AuthErrorView::UnexpectedResponse(status))
    } else {
        match remote_user {
            None => Err(AuthErrorView::MissingHeader("remote-user"@)),
            Some(value) => if is_visible_text(value) {
                Ok(AuthStatusView::Authenticated(as_text(value)))
            } else {
                Err(AuthErrorView::InvalidHeader("remote-user"@))
            },
        }
    }
}

/// Whether a header of the inbound request is sent on to the authorization
/// endpoint: all are, but for `content-length` and `host`. Header names
/// are taken in lower case.
pub open spec fn is_forwarded(name: Seq<char>) -> bool {
    name != "content-length"@ && name != "host"@
}

/// The view of an optional byte string.
pub open spec fn optional_bytes(value: Option<Vec<u8>>) -> Option<Seq<u8>> {
    match value {
        Some(value) => Some(value@),
        None => None,
    }
}

impl ForwardAuth {
    /// The URL of the endpoint.
    pub closed spec fn endpoint(&self) -> Seq<char> {
        self.address@
    }

    pub fn new(endpoint: &str) -> (r: ForwardAuth)
        ensures
            r.endpoint() == endpoint@,
    {
        ForwardAuth { address: String::from_str(endpoint) }
    }

    pub fn address(&self) -> (r: &str)
        ensures
            r@ == self.endpoint(),
    {
        self.address.as_str()
    }

    /// Whether the header called `name` goes to the endpoint.
    pub fn forwards(&self, name: &str) -> (r: bool)
        ensures
            r == is_forwarded(name@),
    {
        let name = String::from_str(name);
        name != String::from_str("content-length") && name != String::from_str("host")
    }

    /// Interprets the endpoint's answer: its status and the values of its
    /// `location` and `remote-user` headers.
    pub fn check_auth(
        &self,
        status: u16,
        location: Option<Vec<u8>>,
        remote_user: Option<Vec<u8>>,
    ) -> (r: Result<AuthStatus, AuthError>)
        ensures
            outcome_view(r) == interpreted(
                status,
                optional_bytes(location),
                optional_bytes(remote_user),
            ),
    {
        if status == 302 {
            return match location {
                Some(location) => Ok(AuthStatus::Unauthenticated(location)),
                None => Err(AuthError::MissingHeader(String::from_str("location"))),
            };
        } else if status == 403 {
            return Ok(AuthStatus::Unauthorized);
        } else if !(200 <= status && status < 300) {
            return Err(AuthError::UnexpectedResponse(status));
        }
        match remote_user {
            None => Err(AuthError::MissingHeader(String::from_str("remote-user"))),
            Some(value) => match header_text(&value) {
                Some(username) => Ok(AuthStatus::Authenticated(User { username })),
                None => Err(AuthError::InvalidHeader(String::from_str("remote-user"))),
            },
        }
    }
}

} // verus!
