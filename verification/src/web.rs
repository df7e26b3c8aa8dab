//! The HTTP path: what the gateway does with an inbound request, step by
//! step. Each step takes what the step before it brought and says what
//! comes next: an answer to the client, or work on the network whose result
//! the next step takes.
use vstd::prelude::*;
use vstd::string::*;
use crate::auth::{
    as_text, header_text, is_visible_text, optional_bytes, AuthError, AuthErrorView, AuthStatus,
    AuthStatusView, ForwardAuth,
};
use crate::registry::{set_access_is_read_back, Registry, RegistryView};
use crate::session::same_bytes;
use crate::tunnel::{optional_text, Access, TunnelAccess, TunnelInner, TunnelInnerView};

verus! {

/// An answer that the gateway itself gives to the client.
#[derive(Debug)]
pub struct Reply {
    pub status: u16,
    /// The value of the `Location` header, on a redirect.
    pub location: Option<Vec<u8>>,
    /// The body, plain text.
    pub body: String,
}

/// `Reply` as a mathematical value.
pub ghost struct ReplyView {
    pub status: u16,
    pub location: Option<Seq<u8>>,
    pub body: Seq<char>,
}

impl View for Reply {
    type V = ReplyView;

    open spec fn view(&self) -> ReplyView {
        ReplyView {
            status: self.status,
            location: optional_bytes(self.location),
            body: self.body@,
        }
    }
}

/// What comes next for a request.
#[derive(Debug)]
pub enum Progress {
    /// Send this answer; the request is done.
    Respond(Reply),
    /// Ask the authorization endpoint about the request, then `authorize`.
    Authenticate(TunnelInner),
    /// Open a channel through this tunnel, then `opened`.
    Open(TunnelInner),
    /// Send the request through the channel and relay what comes back.
    Forward,
}

/// `Progress` as a mathematical value.
pub ghost enum ProgressView {
    Respond(ReplyView),
    Authenticate(TunnelInnerView),
    Open(TunnelInnerView),
    Forward,
}

impl View for Progress {
    type V = ProgressView;

    open spec fn view(&self) -> ProgressView {
        match self {
            Progress::Respond(reply) => ProgressView::Respond(reply@),
            Progress::Authenticate(inner) => ProgressView::Authenticate(inner@),
            Progress::Open(inner) => ProgressView::Open(inner@),
            Progress::Forward => ProgressView::Forward,
        }
    }
}

/// An answer with a plain-text body.
pub open spec fn plain(status: u16, body: Seq<char>) -> ReplyView {
    ReplyView { status, location: None, body }
}

/// The name of the tunnel that a request is for: the authority of its URI,
/// or else the text of its `Host` header.
pub open spec fn resolved_authority(uri: Option<Seq<char>>, host: Option<Seq<u8>>) -> Option<
    Seq<char>,
> {
    match uri {
        Some(authority) => Some(authority),
        None => match host {
            Some(value) => if is_visible_text(value) {
                Some(as_text(value))
            } else {
                None
            },
            None => None,
        },
    }
}

/// What comes first for a request: `400` without a usable authority, `404`
/// for a name at which no tunnel is attached, the channel at once for a
/// public tunnel, the authorization endpoint for every other.
pub open spec fn routed(v: RegistryView, uri: Option<Seq<char>>, host: Option<Seq<u8>>) -> ProgressView {
    match resolved_authority(uri, host) {
        None => ProgressView::Respond(
            plain(400, "Missing or invalid authority or host header"@),
        ),
        Some(authority) => match v.lookup(authority) {
            None => ProgressView::Respond(plain(404, "Unknown tunnel"@)),
            Some(inner) => if inner.access == Access::Public {
                ProgressView::Open(inner)
            } else {
                ProgressView::Authenticate(inner)
            },
        },
    }
}

/// What comes after the authorization endpoint was asked: a redirect to the
/// login page, `403` where the endpoint forbids or failed or where the
/// tunnel is private to somebody else, the channel otherwise.
pub open spec fn authorized(
    inner: TunnelInnerView,
    outcome: Result<AuthStatusView, AuthErrorView>,
) -> ProgressView {
    match outcome {
        Ok(AuthStatusView::Authenticated(user)) => match inner.access {
            Access::Private(owner) => if user == owner {
                ProgressView::Open(inner)
            } else {
                ProgressView::Respond(
                    plain(403, "You do not have permission to access this tunnel"@),
                )
            },
            _ => ProgressView::Open(inner),
        },
        Ok(AuthStatusView::Unauthenticated(location)) => ProgressView::Respond(
            ReplyView { status: 302, location: Some(location), body: Seq::empty() },
        ),
        Ok(AuthStatusView::Unauthorized) => ProgressView::Respond(
            plain(403, "You do not have permission to access this tunnel"@),
        ),
        Err(_) => ProgressView::Respond(plain(403, "Unexpected error during authentication"@)),
    }
}

/// Whether request and answer agree on a protocol upgrade: the request has
/// an `Upgrade` header and the answer has the same.
pub open spec fn upgrade_agreed(request: Option<Seq<u8>>, response: Option<Seq<u8>>) -> bool {
    request.is_some() && request == response
}

/// The answer with a plain-text body.
pub fn response(status: u16, body: &str) -> (r: Reply)
    ensures
        r@ == plain(status, body@),
{
    Reply { status, location: None, body: String::from_str(body) }
}

/// The name of the tunnel that a request is for.
pub fn authority(uri: Option<&str>, host: Option<&Vec<u8>>) -> (r: Option<String>)
    ensures
        optional_text(r) == resolved_authority(
            match uri {
                Some(a) => Some(a@),
                None => None,
            },
            match host {
                Some(h) => Some(h@),
                None => None,
            },
        ),
{
    match uri {
        Some(authority) => Some(String::from_str(authority)),
        None => match host {
            Some(value) => header_text(value),
            None => None,
        },
    }
}

/// The part of the gateway that serves HTTP.
#[derive(Debug)]
pub struct Service {
    auth: ForwardAuth,
}

impl Service {
    /// The URL of the authorization endpoint.
    pub closed spec fn endpoint(&self) -> Seq<char> {
        self.auth.endpoint()
    }

    pub fn new(auth: ForwardAuth) -> (r: Service)
        ensures
            r.endpoint() == auth.endpoint(),
    {
        Service { auth }
    }

    pub fn auth(&self) -> (r: &ForwardAuth)
        ensures
            r.endpoint() == self.endpoint(),
    {
        &self.auth
    }

    /// The first step: finds the tunnel that the request is for.
    pub fn call(&self, registry: &Registry, uri: Option<&str>, host: Option<&Vec<u8>>) -> (r:
        Progress)
        requires
            registry.wf(),
        ensures
            r@ == routed(
                registry@,
                match uri {
                    Some(a) => Some(a@),
                    None => None,
                },
                match host {
                    Some(h) => Some(h@),
                    None => None,
                },
            ),
    {
        let Some(authority) = authority(uri, host) else {
            return Progress::Respond(
                response(400, "Missing or invalid authority or host header"),
            );
        };
        let Some(inner) = registry.get(authority.as_str()) else {
            return Progress::Respond(response(404, "Unknown tunnel"));
        };
        if inner.access.is_public() {
            Progress::Open(inner)
        } else {
            Progress::Authenticate(inner)
        }
    }

    /// The step after the authorization endpoint was asked. `inner` is the
    /// tunnel as it is now.
    pub fn authorize(&self, inner: TunnelInner, outcome: Result<AuthStatus, AuthError>) -> (r:
        Progress)
        ensures
            r@ == authorized(inner@, crate::auth::outcome_view(outcome)),
    {
        match outcome {
            Ok(AuthStatus::Authenticated(user)) => {
                let allowed = match &inner.access {
                    TunnelAccess::Private(owner) => user.is(owner.as_str()),
                    _ => true,
                };
                if allowed {
                    Progress::Open(inner)
                } else {
                    Progress::Respond(
                        response(403, "You do not have permission to access this tunnel"),
                    )
                }
            },
            Ok(AuthStatus::Unauthenticated(location)) => Progress::Respond(
                Reply { status: 302, location: Some(location), body: String::new() },
            ),
            Ok(AuthStatus::Unauthorized) => Progress::Respond(
                response(403, "You do not have permission to access this tunnel"),
            ),
            Err(_) => Progress::Respond(response(403, "Unexpected error during authentication")),
        }
    }

    /// The step after the channel was asked for: with a channel the request
    /// is sent on, without one the answer is `500`.
    pub fn opened(&self, channel: bool) -> (r: Progress)
        ensures
            r@ == (if channel {
                ProgressView::Forward
            } else {
                ProgressView::Respond(plain(500, "Failed to open tunnel"@))
            }),
    {
        if channel {
            Progress::Forward
        } else {
            Progress::Respond(response(500, "Failed to open tunnel"))
        }
    }

    /// Whether the connection is handed over to another protocol once the
    /// answer came back: `request` and `response` are the values of the
    /// `Upgrade` headers.
    pub fn upgrades(&self, request: Option<&Vec<u8>>, response: Option<&Vec<u8>>) -> (r: bool)
        ensures
            r == upgrade_agreed(
                match request {
                    Some(v) => Some(v@),
                    None => None,
                },
                match response {
                    Some(v) => Some(v@),
                    None => None,
                },
            ),
    {
        match request {
            Some(asked) => match response {
                Some(given) => same_bytes(asked, given),
                None => false,
            },
            None => false,
        }
    }

    /// The answer where an agreed upgrade could not be carried out.
    pub fn upgrade_failed(&self) -> (r: Reply)
        ensures
            r@ == plain(400, "Failed to upgrade"@),
    {
        response(400, "Failed to upgrade")
    }
}

/// The statuses of the answers that the gateway itself gives.
pub open spec fn is_gateway_status(status: u16) -> bool {
    status == 302 || status == 400 || status == 403 || status == 404 || status == 500
}

/// Every answer that the gateway itself gives to a request has one of five
/// statuses, whatever the request and whatever the network brought.
pub proof fn answers_have_known_status(
    v: RegistryView,
    uri: Option<Seq<char>>,
    host: Option<Seq<u8>>,
    inner: TunnelInnerView,
    outcome: Result<AuthStatusView, AuthErrorView>,
)
    ensures
        routed(v, uri, host) is Respond ==> is_gateway_status(routed(v, uri, host)->Respond_0.status),
        authorized(inner, outcome) is Respond ==> is_gateway_status(
            authorized(inner, outcome)->Respond_0.status,
        ),
        is_gateway_status(plain(500, "Failed to open tunnel"@).status),
        is_gateway_status(plain(400, "Failed to upgrade"@).status),
{
}

/// A request for a public tunnel goes to the channel without a question to
/// the authorization endpoint.
pub proof fn public_tunnel_skips_auth(v: RegistryView, uri: Option<Seq<char>>, host: Option<Seq<u8>>)
    requires
        resolved_authority(uri, host).is_some(),
        v.lookup(resolved_authority(uri, host).unwrap()).is_some(),
        v.lookup(resolved_authority(uri, host).unwrap()).unwrap().access == Access::Public,
    ensures
        routed(v, uri, host) == ProgressView::Open(
            v.lookup(resolved_authority(uri, host).unwrap()).unwrap(),
        ),
{
}

/// A request for a private tunnel reaches the channel only if the
/// authorization endpoint named the tunnel's owner.
pub proof fn private_tunnel_admits_owner_only(
    inner: TunnelInnerView,
    owner: Seq<char>,
    outcome: Result<AuthStatusView, AuthErrorView>,
)
    requires
        inner.access == Access::Private(owner),
    ensures
        authorized(inner, outcome) is Open <==> outcome == Ok::<AuthStatusView, AuthErrorView>(
            AuthStatusView::Authenticated(owner),
        ),
{
}

/// A request with neither an authority in its URI nor a `Host` header is
/// answered with `400`; one for a name at which nothing is attached with
/// `404`.
pub proof fn unroutable_requests(v: RegistryView, uri: Option<Seq<char>>, host: Option<Seq<u8>>)
    ensures
        uri.is_none() && host.is_none() ==> routed(v, uri, host) == ProgressView::Respond(
            plain(400, "Missing or invalid authority or host header"@),
        ),
        resolved_authority(uri, host).is_some() && !v.routed(
            resolved_authority(uri, host).unwrap(),
        ) ==> routed(v, uri, host) == ProgressView::Respond(plain(404, "Unknown tunnel"@)),
{
}

/// Without the same `Upgrade` header on both sides there is no upgrade.
pub proof fn upgrade_needs_agreement(request: Option<Seq<u8>>, response: Option<Seq<u8>>)
    requires
        request != response || request.is_none(),
    ensures
        !upgrade_agreed(request, response),
{
}

/// A change of a tunnel's access reaches the next request for it, without
/// the tunnel being registered again: once an attached tunnel is public,
/// a request for its name goes to the channel at once.
pub proof fn access_change_reaches_requests(v: RegistryView, id: u64, host: Option<Seq<u8>>)
    requires
        v.wf(),
        v.holds(id),
        v.tunnel(id).entry.address.is_some(),
    ensures
        routed(v.with_access(id, Access::Public), v.tunnel(id).entry.address, host)
            == ProgressView::Open(TunnelInnerView { access: Access::Public, ..v.tunnel(id).inner }),
        routed(v.with_access(id, Access::Protected), v.tunnel(id).entry.address, host)
            == ProgressView::Authenticate(
            TunnelInnerView { access: Access::Protected, ..v.tunnel(id).inner },
        ),
{
    set_access_is_read_back(v, id, Access::Public);
    set_access_is_read_back(v, id, Access::Protected);
}

} // verus!
