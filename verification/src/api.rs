//! The session client's decision core: token state, response classification
//! with the single-retry refresh protocol, and interpretation of the auth
//! endpoints' responses.
//!
//! The surrounding I/O layer performs the physical HTTP and WebSocket calls
//! and hands back plain values (a status code and a body summary); every
//! decision about them is made here. A logical request may refresh the token
//! pair at most once: the request's `can_reauthenticate` budget is spent
//! before the refresh is sent, so a second 401 is surfaced as
//! `Unauthenticated`, never a second refresh.

use vstd::prelude::*;
use vstd::string::StringExecFns;
use crate::auth::AuthTokens;

verus! {

/// The errors a logical request can surface. `Unauthenticated` means the
/// session is gone and the caller must force a re-login; `RequestError`
/// carries the server's human-readable reason; `DataError` means the response
/// could not be understood.
#[derive(Debug)]
pub enum ApiError {
    Unauthenticated,
    RequestError(String),
    DataError(String),
}

impl ApiError {
    /// The error as display text.
    pub fn as_string(&self) -> (r: String)
        ensures
            match self {
                ApiError::Unauthenticated => r@ == "Unauthenticated"@,
                ApiError::RequestError(m) => r@ == "Request error: "@ + m@,
                ApiError::DataError(m) => r@ == "Data error: "@ + m@,
            },
    {
        match self {
            ApiError::Unauthenticated => "Unauthenticated".to_owned(),
            ApiError::RequestError(m) => {
                let mut s = "Request error: ".to_owned();
                s.append(m.as_str());
                s
            },
            ApiError::DataError(m) => {
                let mut s = "Data error: ".to_owned();
                s.append(m.as_str());
                s
            },
        }
    }

    /// An equal copy.
    pub fn duplicate(&self) -> (r: Self)
        ensures
            match (self, &r) {
                (ApiError::Unauthenticated, ApiError::Unauthenticated) => true,
                (ApiError::RequestError(a), ApiError::RequestError(b)) => a@ == b@,
                (ApiError::DataError(a), ApiError::DataError(b)) => a@ == b@,
                _ => false,
            },
    {
        match self {
            ApiError::Unauthenticated => ApiError::Unauthenticated,
            ApiError::RequestError(m) => ApiError::RequestError(m.clone()),
            ApiError::DataError(m) => ApiError::DataError(m.clone()),
        }
    }
}

/// One logical request: target, query, body, and the reauthentication budget.
/// The budget starts `true` and is spent by the one permitted refresh.
pub struct RequestParams {
    pub uri: String,
    pub query_params: Vec<(String, String)>,
    pub body: Option<String>,
    pub can_reauthenticate: bool,
}

impl RequestParams {
    /// A request for this target with no query, no body, and a fresh
    /// reauthentication budget.
    pub fn new(uri: String) -> (r: Self)
        ensures
            r.uri == uri,
            r.query_params@ =~= Seq::<(String, String)>::empty(),
            r.body is None,
            r.can_reauthenticate,
    {
        RequestParams { uri, query_params: Vec::new(), body: None, can_reauthenticate: true }
    }

    /// Spends the reauthentication budget: after this, a 401 can no longer
    /// trigger a refresh.
    pub fn set_cant_reauthenticate(&mut self)
        ensures
            final(self).uri == old(self).uri,
            final(self).query_params == old(self).query_params,
            final(self).body == old(self).body,
            !final(self).can_reauthenticate,
    {
        self.can_reauthenticate = false;
    }
}

impl Default for RequestParams {
    /// An empty request with a fresh reauthentication budget.
    fn default() -> (r: Self)
        ensures
            r.uri@ == Seq::<char>::empty(),
            r.query_params@ =~= Seq::<(String, String)>::empty(),
            r.body is None,
            r.can_reauthenticate,
    {
        RequestParams {
            uri: String::new(),
            query_params: Vec::new(),
            body: None,
            can_reauthenticate: true,
        }
    }
}

/// What the I/O layer read out of a response body, as plain values: whether
/// the body parsed as JSON, the conventional error field, the token fields of
/// the auth endpoints, and a register response's per-field messages.
pub struct BodySummary {
    pub parse_ok: bool,
    pub detail: Option<String>,
    pub access_token: Option<String>,
    pub refresh_token: Option<String>,
    pub user_id: Option<String>,
    pub error_messages: Vec<String>,
}

impl BodySummary {
    /// A summary of a body that did not parse.
    pub fn unparsed() -> (r: Self)
        ensures
            !r.parse_ok,
            r.detail is None,
            r.access_token is None,
            r.refresh_token is None,
            r.user_id is None,
            r.error_messages@ =~= Seq::<String>::empty(),
    {
        BodySummary {
            parse_ok: false,
            detail: None,
            access_token: None,
            refresh_token: None,
            user_id: None,
            error_messages: Vec::new(),
        }
    }
}

/// Whether a status code reports success.
pub open spec fn spec_is_success(status: u16) -> bool {
    200 <= status < 300
}

/// Whether a status code reports success (2xx).
pub fn is_success_status(status: u16) -> (r: bool)
    ensures
        r == spec_is_success(status),
{
    200 <= status && status < 300
}

/// How a response to a logical request is handled.
pub enum VerdictKind {
    /// 2xx: the caller reads the payload.
    Success,
    /// 401 with a held token pair and an unspent budget: refresh, then resend
    /// the original request once.
    NeedsRefresh,
    /// 401 after the budget is spent: the session is over.
    FailedUnauthenticated,
    /// Any other non-2xx with a readable error field.
    FailedRequest,
    /// Any other non-2xx whose body gave no readable reason.
    FailedData,
}

/// The verdict on one response, from the session state, the request's budget
/// and the response alone.
pub open spec fn spec_verdict(
    authenticated: bool,
    can_reauthenticate: bool,
    status: u16,
    parse_ok: bool,
    has_detail: bool,
) -> VerdictKind {
    if spec_is_success(status) {
        VerdictKind::Success
    } else if status == 401 && authenticated && can_reauthenticate {
        VerdictKind::NeedsRefresh
    } else if status == 401 && authenticated {
        VerdictKind::FailedUnauthenticated
    } else if parse_ok && has_detail {
        VerdictKind::FailedRequest
    } else {
        VerdictKind::FailedData
    }
}

/// The exec form of a verdict, carrying the error to surface.
pub enum ResponseVerdict {
    Success,
    NeedsRefresh,
    FailedUnauthenticated,
    Failed(ApiError),
}

/// A logical request refreshes at most once and resends at most once. A
/// refresh is triggered only while the budget is unspent, and handling it
/// spends the budget, so on the retried request no status can trigger a
/// second refresh; a second 401 there is surfaced as `Unauthenticated`.
pub proof fn lemma_single_refresh(
    authenticated2: bool,
    status2: u16,
    parse_ok2: bool,
    has_detail2: bool,
)
    ensures
        !(spec_verdict(authenticated2, false, status2, parse_ok2, has_detail2)
            is NeedsRefresh),
        status2 == 401 && authenticated2 ==> spec_verdict(
            authenticated2,
            false,
            status2,
            parse_ok2,
            has_detail2,
        ) is FailedUnauthenticated,
{
}

/// The session client's verified core: the held token pair and every decision
/// about requests, refreshes and the auth endpoints' responses.
pub struct Client {
    pub auth_tokens: Option<AuthTokens>,
}

impl Client {
    /// A client holding this token pair, if any.
    pub fn new(auth_tokens: Option<AuthTokens>) -> (r: Self)
        ensures
            r.auth_tokens == auth_tokens,
    {
        Client { auth_tokens }
    }

    /// Whether a token pair is held.
    pub fn is_authenticated(&self) -> (r: bool)
        ensures
            r == (self.auth_tokens is Some),
    {
        self.auth_tokens.is_some()
    }

    /// Replaces the token pair wholesale.
    pub fn set_auth_tokens(&mut self, tokens: AuthTokens)
        ensures
            final(self).auth_tokens == Some(tokens),
    {
        self.auth_tokens = Some(tokens);
    }

    /// Drops the token pair: the session is over.
    pub fn unauthenticate(&mut self)
        ensures
            final(self).auth_tokens is None,
    {
        self.auth_tokens = None;
    }

    /// The `Authorization` header for the held access token.
    pub fn get_authorization_header(&self) -> (r: String)
        requires
            self.auth_tokens is Some,
        ensures
            r@ == "Bearer "@ + self.auth_tokens.unwrap().token@,
    {
        let mut s = "Bearer ".to_owned();
        s.append(self.auth_tokens.as_ref().unwrap().token.as_str());
        s
    }

    /// Classifies one response of a logical request: 2xx succeeds; a 401 with
    /// a held token pair refreshes once while the request's budget lasts and
    /// is `Unauthenticated` after; any other failure surfaces the server's
    /// reason, or a data error when the body gave none.
    pub fn classify_response(&self, rp: &RequestParams, status: u16, body: &BodySummary) -> (r:
        ResponseVerdict)
        ensures
            ({
                let k = spec_verdict(
                    self.auth_tokens is Some,
                    rp.can_reauthenticate,
                    status,
                    body.parse_ok,
                    body.detail is Some,
                );
                match r {
                    ResponseVerdict::Success => k is Success,
                    ResponseVerdict::NeedsRefresh => k is NeedsRefresh,
                    ResponseVerdict::FailedUnauthenticated => k is FailedUnauthenticated,
                    ResponseVerdict::Failed(e) => match e {
                        ApiError::RequestError(m) => k is FailedRequest && m@
                            == body.detail.unwrap()@,
                        ApiError::DataError(_) => k is FailedData,
                        ApiError::Unauthenticated => false,
                    },
                }
            }),
    {
        if is_success_status(status) {
            ResponseVerdict::Success
        } else if status == 401 && self.auth_tokens.is_some() {
            if rp.can_reauthenticate {
                ResponseVerdict::NeedsRefresh
            } else {
                ResponseVerdict::FailedUnauthenticated
            }
        } else {
            match &body.detail {
                Some(d) if body.parse_ok => ResponseVerdict::Failed(
                    ApiError::RequestError(d.clone()),
                ),
                _ => ResponseVerdict::Failed(
                    ApiError::DataError("response body gave no reason".to_owned()),
                ),
            }
        }
    }

    /// Starts the one permitted refresh: spends the request's budget and hands
    /// back the held refresh token to post. The budget is spent before the
    /// refresh is sent, so no outcome of the refresh can lead to another.
    pub fn begin_refresh(&self, rp: &mut RequestParams) -> (r: String)
        requires
            self.auth_tokens is Some,
            old(rp).can_reauthenticate,
        ensures
            !final(rp).can_reauthenticate,
            final(rp).uri == old(rp).uri,
            final(rp).query_params == old(rp).query_params,
            final(rp).body == old(rp).body,
            r@ == self.auth_tokens.unwrap().refresh_token@,
    {
        rp.set_cant_reauthenticate();
        self.auth_tokens.as_ref().unwrap().refresh_token.clone()
    }

    /// Applies the refresh response: on success the token pair is replaced
    /// wholesale (the caller persists it before any dependent request); a 401
    /// means the refresh token itself expired, surfaced as `Unauthenticated`,
    /// which the caller must treat as fatal to the session; any other failure
    /// is surfaced verbatim. The tokens are left untouched on every failure.
    pub fn handle_refresh_response(&mut self, status: u16, body: &BodySummary) -> (r: Result<
        (),
        ApiError,
    >)
        ensures
            spec_is_success(status) && refresh_body_ok(body) ==> r is Ok && tokens_are(
                *final(self),
                body.access_token.unwrap()@,
                body.refresh_token.unwrap()@,
            ),
            spec_is_success(status) && !refresh_body_ok(body) ==> (r matches Err(e) && e
                is DataError) && final(self).auth_tokens == old(self).auth_tokens,
            !spec_is_success(status) && status == 401 ==> (r matches Err(e) && e
                is Unauthenticated) && final(self).auth_tokens == old(self).auth_tokens,
            !spec_is_success(status) && status != 401 ==> (r matches Err(e) && match e {
                ApiError::RequestError(m) => body.parse_ok && body.detail is Some && m@
                    == body.detail.unwrap()@,
                ApiError::DataError(_) => !(body.parse_ok && body.detail is Some),
                ApiError::Unauthenticated => false,
            }) && final(self).auth_tokens == old(self).auth_tokens,
    {
        if !is_success_status(status) {
            if status == 401 {
                return Err(ApiError::Unauthenticated);
            }
            return match &body.detail {
                Some(d) if body.parse_ok => Err(ApiError::RequestError(d.clone())),
                _ => Err(ApiError::DataError("response body gave no reason".to_owned())),
            };
        }
        match (&body.access_token, &body.refresh_token) {
            (Some(token), Some(refresh_token)) => {
                if token.as_str().is_empty() || refresh_token.as_str().is_empty() {
                    return Err(ApiError::DataError("token pair is incomplete".to_owned()));
                }
                self.set_auth_tokens(AuthTokens::new(token.as_str(), refresh_token.as_str()));
                Ok(())
            },
            _ => Err(ApiError::DataError("token pair is incomplete".to_owned())),
        }
    }

    /// Applies a login response: on success the new token pair is stored and
    /// the user id handed back; on failure the server's reason is surfaced and
    /// no existing token state is touched. A success whose body lacks a token
    /// or the user id is a data error.
    pub fn complete_login(&mut self, status: u16, body: &BodySummary) -> (r: Result<
        String,
        ApiError,
    >)
        ensures
            spec_is_success(status) && auth_body_ok(body) ==> (r matches Ok(uid) && uid@
                == body.user_id.unwrap()@) && tokens_are(
                *final(self),
                body.access_token.unwrap()@,
                body.refresh_token.unwrap()@,
            ),
            spec_is_success(status) && !auth_body_ok(body) ==> (r matches Err(e) && e
                is DataError) && final(self).auth_tokens == old(self).auth_tokens,
            !spec_is_success(status) ==> (r matches Err(e) && match e {
                ApiError::RequestError(m) => body.parse_ok && body.detail is Some && m@
                    == body.detail.unwrap()@,
                ApiError::DataError(_) => !(body.parse_ok && body.detail is Some),
                ApiError::Unauthenticated => false,
            }) && final(self).auth_tokens == old(self).auth_tokens,
    {
        if !is_success_status(status) {
            return match &body.detail {
                Some(d) if body.parse_ok => Err(ApiError::RequestError(d.clone())),
                _ => Err(ApiError::DataError("response body gave no reason".to_owned())),
            };
        }
        match (&body.access_token, &body.refresh_token, &body.user_id) {
            (Some(token), Some(refresh_token), Some(user_id)) => {
                if token.as_str().is_empty() || refresh_token.as_str().is_empty() {
                    return Err(ApiError::DataError("token pair is incomplete".to_owned()));
                }
                self.set_auth_tokens(AuthTokens::new(token.as_str(), refresh_token.as_str()));
                Ok(user_id.clone())
            },
            _ => Err(ApiError::DataError("token pair is incomplete".to_owned())),
        }
    }

    /// Applies a register response: like a login on success; a validation
    /// failure concatenates the server's per-field messages, one per line.
    pub fn complete_register(&mut self, status: u16, body: &BodySummary) -> (r: Result<
        String,
        ApiError,
    >)
        ensures
            spec_is_success(status) && auth_body_ok(body) ==> (r matches Ok(uid) && uid@
                == body.user_id.unwrap()@) && tokens_are(
                *final(self),
                body.access_token.unwrap()@,
                body.refresh_token.unwrap()@,
            ),
            spec_is_success(status) && !auth_body_ok(body) ==> (r matches Err(e) && e
                is DataError) && final(self).auth_tokens == old(self).auth_tokens,
            !spec_is_success(status) && body.parse_ok ==> (r matches Err(e) && e matches
                ApiError::RequestError(m) && m@ == spec_join_lines(
                body.error_messages@.map_values(|s: String| s@),
            )) && final(self).auth_tokens == old(self).auth_tokens,
            !spec_is_success(status) && !body.parse_ok ==> (r matches Err(e) && e is DataError)
                && final(self).auth_tokens == old(self).auth_tokens,
    {
        if !is_success_status(status) {
            if !body.parse_ok {
                return Err(ApiError::DataError("response body gave no reason".to_owned()));
            }
            return Err(ApiError::RequestError(join_lines(&body.error_messages)));
        }
        match (&body.access_token, &body.refresh_token, &body.user_id) {
            (Some(token), Some(refresh_token), Some(user_id)) => {
                if token.as_str().is_empty() || refresh_token.as_str().is_empty() {
                    return Err(ApiError::DataError("token pair is incomplete".to_owned()));
                }
                self.set_auth_tokens(AuthTokens::new(token.as_str(), refresh_token.as_str()));
                Ok(user_id.clone())
            },
            _ => Err(ApiError::DataError("token pair is incomplete".to_owned())),
        }
    }

    /// Builds the physical request for a logical one: the full URL with the
    /// query encoded, the bearer header, and the body. `None` when the target
    /// is not a valid URL.
    pub fn prepare_request(&self, rp: &RequestParams) -> (r: Option<PreparedRequest>)
        requires
            self.auth_tokens is Some,
        ensures
            match r {
                Some(p) => url_with_params_of(rp.uri@, params_view(rp.query_params@)) == Some(
                    p.url@,
                ) && p.authorization@ == "Bearer "@ + self.auth_tokens.unwrap().token@ && (match (
                    &p.body,
                    &rp.body,
                ) {
                    (Some(a), Some(b)) => a@ == b@,
                    (None, None) => true,
                    _ => false,
                }),
                None => url_with_params_of(rp.uri@, params_view(rp.query_params@)) is None,
            },
    {
        match parse_url_with_params(rp.uri.as_str(), &rp.query_params) {
            Some(url) => {
                let body = match &rp.body {
                    Some(b) => Some(b.clone()),
                    None => None,
                };
                Some(PreparedRequest { url, authorization: self.get_authorization_header(), body })
            },
            None => None,
        }
    }

    /// Decides one step of connecting the real-time channel: an unauthorized
    /// handshake refreshes once while the budget lasts; every other rejection
    /// or transport failure is fatal to startup.
    pub fn ws_connect_step(&self, rp: &RequestParams, handshake: &WsHandshake) -> (r:
        WsConnectStep)
        ensures
            match handshake {
                WsHandshake::Established => r is Connected,
                WsHandshake::Rejected(status) => if *status == 401 && rp.can_reauthenticate
                    && self.auth_tokens is Some {
                    r is RefreshAndRetry
                } else {
                    r is Fatal
                },
                WsHandshake::Failed(_) => r is Fatal,
            },
    {
        match handshake {
            WsHandshake::Established => WsConnectStep::Connected,
            WsHandshake::Rejected(status) => {
                if *status == 401 && rp.can_reauthenticate && self.auth_tokens.is_some() {
                    WsConnectStep::RefreshAndRetry
                } else {
                    WsConnectStep::Fatal
                }
            },
            WsHandshake::Failed(_) => WsConnectStep::Fatal,
        }
    }
}

/// A physical request ready to send: URL, bearer header, body.
pub struct PreparedRequest {
    pub url: String,
    pub authorization: String,
    pub body: Option<String>,
}

/// How the real-time handshake went, as the I/O layer reports it.
pub enum WsHandshake {
    Established,
    Rejected(u16),
    Failed(String),
}

/// What to do after one handshake attempt.
pub enum WsConnectStep {
    Connected,
    RefreshAndRetry,
    Fatal,
}

/// An inbound frame of the real-time channel, as the I/O layer reports it.
pub enum WsFrame {
    Text(String),
    Binary,
    Ping,
    Pong,
    Close,
}

/// What to do with one inbound frame.
pub enum FrameStep {
    /// A text frame: decode it as a message.
    Deliver(String),
    /// Protocol keepalives are swallowed.
    Ignore,
    /// A binary frame breaks the channel's contract.
    ProtocolError,
    /// The peer closed the channel; the session surfaces the disconnect
    /// rather than reconnecting silently.
    ConnectionClosed,
}

/// Sorts one inbound frame: text is delivered, ping and pong are swallowed,
/// a binary frame is a protocol error, and a close frame ends the channel.
pub fn classify_frame(frame: WsFrame) -> (r: FrameStep)
    ensures
        match frame {
            WsFrame::Text(t) => r matches FrameStep::Deliver(u) && u == t,
            WsFrame::Binary => r is ProtocolError,
            WsFrame::Ping => r is Ignore,
            WsFrame::Pong => r is Ignore,
            WsFrame::Close => r is ConnectionClosed,
        },
{
    match frame {
        WsFrame::Text(t) => FrameStep::Deliver(t),
        WsFrame::Binary => FrameStep::ProtocolError,
        WsFrame::Ping => FrameStep::Ignore,
        WsFrame::Pong => FrameStep::Ignore,
        WsFrame::Close => FrameStep::ConnectionClosed,
    }
}

/// Whether the client holds exactly this token pair.
pub open spec fn tokens_are(c: Client, access: Seq<char>, refresh: Seq<char>) -> bool {
    c.auth_tokens matches Some(t) && t.token@ == access && t.refresh_token@ == refresh
}

/// A refresh body that can replace the token pair: both tokens present and
/// non-empty.
pub open spec fn refresh_body_ok(body: &BodySummary) -> bool {
    &&& body.access_token matches Some(t) && t@.len() > 0
    &&& body.refresh_token matches Some(t) && t@.len() > 0
}

/// An auth body that can open a session: both tokens non-empty and the user
/// id present.
pub open spec fn auth_body_ok(body: &BodySummary) -> bool {
    refresh_body_ok(body) && body.user_id is Some
}

/// The given lines joined with a newline between each pair.
pub open spec fn spec_join_lines(lines: Seq<Seq<char>>) -> Seq<char>
    decreases lines.len(),
{
    if lines.len() == 0 {
        Seq::empty()
    } else if lines.len() == 1 {
        lines[0]
    } else {
        spec_join_lines(lines.drop_last()) + seq!['\n'] + lines.last()
    }
}

/// Joins messages, one per line.
pub fn join_lines(lines: &Vec<String>) -> (r: String)
    ensures
        r@ == spec_join_lines(lines@.map_values(|s: String| s@)),
{
    let ghost views = lines@.map_values(|s: String| s@);
    let mut out = String::new();
    proof {
        reveal_strlit("\n");
        assert(out@ =~= spec_join_lines(views.take(0)));
    }
    for i in 0..lines.len()
        invariant
            views == lines@.map_values(|s: String| s@),
            out@ == spec_join_lines(views.take(i as int)),
    {
        if i > 0 {
            out.append("\n");
        }
        out.append(lines[i].as_str());
        proof {
            reveal_strlit("\n");
            assert("\n"@ =~= seq!['\n']);
            assert(views.take(i + 1).drop_last() =~= views.take(i as int));
            assert(views.take(i + 1).last() == views[i as int]);
            if i == 0 {
                assert(out@ =~= views[0]);
            }
            assert(out@ =~= spec_join_lines(views.take(i + 1)));
        }
    }
    proof {
        assert(views.take(views.len() as int) =~= views);
    }
    out
}

/// What `url::Url::parse_with_params` makes of a target and query pairs: the
/// absolute URL with the pairs appended to its query, or nothing when the
/// target is not a valid URL. A function of the texts alone.
pub uninterp spec fn url_with_params_of(
    uri: Seq<char>,
    params: Seq<(Seq<char>, Seq<char>)>,
) -> Option<Seq<char>>;

/// The query pairs seen mathematically.
pub open spec fn params_view(params: Seq<(String, String)>) -> Seq<(Seq<char>, Seq<char>)> {
    params.map_values(|p: (String, String)| (p.0@, p.1@))
}

/// Relies on `url::Url::parse_with_params` and `From<Url> for String`: parses
/// the target as an absolute URL, appends the query pairs, and renders the
/// result; the outcome is a function of the texts alone.
#[verifier::external_body]
fn parse_url_with_params(uri: &str, params: &Vec<(String, String)>) -> (r: Option<String>)
    ensures
        match r {
            Some(u) => url_with_params_of(uri@, params_view(params@)) == Some(u@),
            None => url_with_params_of(uri@, params_view(params@)) is None,
        },
{
    match url::Url::parse_with_params(uri, params) {
        Ok(u) => Some(String::from(u)),
        Err(_) => None,
    }
}

} // verus!
