//! The token introspection client: URL assembly, response classification,
//! and the retry-with-fallback flow.
//!
//! The flow is a step machine. It hands out the next action — call an
//! endpoint, wait and call again, or finish — and is fed the classified
//! outcome of each attempt. Whoever owns the HTTP transport drives it;
//! everything it decides is stated here.
use vstd::prelude::*;

use crate::error::{TokenInfoError, TokenInfoErrorKind, TokenInfoResult};
use crate::parsers::TokenInfoParser;
use crate::token_manager::internals::{plus_millis, spec_plus_millis};
use crate::{AccessToken, InitializationError, InitializationResult, TokenInfo};

verus! {

/// The URLs that the `url` crate accepts as absolute URLs.
pub uninterp spec fn url_accepted(s: Seq<char>) -> bool;

/// Relies on `url::Url::parse`: it accepts exactly the well-formed absolute
/// URLs.
#[verifier::external_body]
fn parse_url_ok(s: &str) -> (r: bool)
    ensures
        r == url_accepted(s@),
{
    url::Url::parse(s).is_ok()
}

/// The introspection URL prefix for an endpoint: with a query parameter
/// configured the prefix ends in `?<parameter>=`, shedding a trailing slash;
/// without one the endpoint is given a trailing slash. The token is appended
/// to the prefix as it is.
pub open spec fn spec_url_prefix(endpoint: Seq<char>, query_parameter: Option<Seq<char>>) -> Seq<
    char,
> {
    match query_parameter {
        Some(p) => (if endpoint.len() > 0 && endpoint.last() == '/' {
            endpoint.drop_last()
        } else {
            endpoint
        }) + "?"@ + p + "="@,
        None => if endpoint.len() > 0 && endpoint.last() == '/' {
            endpoint
        } else {
            endpoint + "/"@
        },
    }
}

/// Builds the URL prefix for an endpoint and probes it: a prefix that does
/// not parse as a URL with a token appended is rejected at construction,
/// not at the first introspection.
pub fn assemble_url_prefix(endpoint: &str, query_parameter: Option<&str>) -> (r: Result<
    String,
    String,
>)
    ensures
        r is Ok <==> url_accepted(
            spec_url_prefix(endpoint@, crate::parsers::opt_str_view(query_parameter))
                + "test_token"@,
        ),
        r matches Ok(p) ==> p@ == spec_url_prefix(
            endpoint@,
            crate::parsers::opt_str_view(query_parameter),
        ),
{
    let len = endpoint.unicode_len();
    let ends_with_slash = len > 0 && endpoint.get_char(len - 1) == '/';
    let mut prefix: String = String::new();
    match query_parameter {
        Some(parameter) => {
            if ends_with_slash {
                let trimmed = endpoint.substring_char(0, len - 1);
                proof {
                    assert(endpoint@.subrange(0, len - 1) =~= endpoint@.drop_last());
                }
                prefix.append(trimmed);
            } else {
                prefix.append(endpoint);
            }
            prefix.append("?");
            prefix.append(parameter);
            prefix.append("=");
        },
        None => {
            prefix.append(endpoint);
            if !ends_with_slash {
                prefix.append("/");
            }
        },
    }
    let mut probe = prefix.clone();
    probe.append("test_token");
    if parse_url_ok(probe.as_str()) {
        Ok(prefix)
    } else {
        Err("invalid URL".to_owned())
    }
}

/// Appends the token to the URL prefix; rejects the result when it is no
/// valid URL.
pub fn complete_url(url_prefix: &str, token: &AccessToken) -> (r: TokenInfoResult<String>)
    ensures
        r is Ok <==> url_accepted(url_prefix@ + token.0@),
        r matches Ok(u) ==> u@ == url_prefix@ + token.0@,
        r matches Err(e) ==> e.kind matches TokenInfoErrorKind::UrlError(_),
{
    let mut url: String = url_prefix.to_owned();
    url.append(token.0.as_str());
    if parse_url_ok(url.as_str()) {
        Ok(url)
    } else {
        Err(TokenInfoError::new(TokenInfoErrorKind::UrlError("invalid URL".to_owned())))
    }
}

/// Classifies one introspection response: a 200 body goes to the parser,
/// 401 refuses the token, other client-side statuses are terminal faults,
/// server-side statuses are worth a retry, and anything else is unexpected.
pub fn process_response<P: TokenInfoParser>(parser: &P, status: u16, body: &[u8]) -> (r:
    TokenInfoResult<TokenInfo>)
    ensures
        status == 200 ==> (r is Ok <==> parser.spec_parse(body@) is Some),
        status == 200 ==> (r matches Ok(t) ==> Some(t@) == parser.spec_parse(body@)),
        status == 200 ==> (r matches Err(e) ==> e.kind matches TokenInfoErrorKind::InvalidResponseContent(_)),
        status == 401 ==> (r matches Err(e) && e.kind matches TokenInfoErrorKind::NotAuthenticated(_)),
        status != 200 && status != 401 && 400 <= status < 500 ==> (r matches Err(e) && e.kind
            matches TokenInfoErrorKind::Client(_)),
        500 <= status < 600 ==> (r matches Err(e) && e.kind matches TokenInfoErrorKind::Server(_)),
        !(status == 200 || 400 <= status < 600) ==> (r matches Err(e) && e.kind
            matches TokenInfoErrorKind::Other(_)),
{
    if status == 200 {
        match parser.parse(body) {
            Ok(info) => Ok(info),
            Err(msg) => Err(
                TokenInfoError::new(TokenInfoErrorKind::InvalidResponseContent(msg)),
            ),
        }
    } else if status == 401 {
        Err(
            TokenInfoError::new(
                TokenInfoErrorKind::NotAuthenticated("the server refused the token".to_owned()),
            ),
        )
    } else if 400 <= status && status < 500 {
        Err(TokenInfoError::new(TokenInfoErrorKind::Client("client-side fault".to_owned())))
    } else if 500 <= status && status < 600 {
        Err(
            TokenInfoError::new(
                TokenInfoErrorKind::Server("the introspection endpoint failed".to_owned()),
            ),
        )
    } else {
        Err(TokenInfoError::new(TokenInfoErrorKind::Other("unexpected status code".to_owned())))
    }
}

/// Which endpoint an attempt goes against.
#[derive(PartialEq, Eq, Structural, Debug, Clone, Copy)]
pub enum CallTarget {
    /// The configured introspection endpoint.
    Primary,
    /// The configured fallback endpoint.
    Fallback,
}

/// The next action of an introspection call.
pub enum IntrospectStep {
    /// Perform one HTTP GET against the given target now.
    Call(CallTarget),
    /// Wait the given number of milliseconds, then call the target again.
    RetryAfter(u64, CallTarget),
    /// The call is decided.
    Done(TokenInfoResult<TokenInfo>),
}

/// The wait before the first retry of an introspection attempt, in
/// milliseconds.
pub const INTROSPECTION_RETRY_INITIAL_INTERVAL_MS: u64 = 10;

/// The state of one introspection call: its deadline, the endpoint it is
/// currently against, whether a fallback exists and whether it was already
/// taken, and the growing retry interval.
pub struct IntrospectionFlow {
    /// The instant past which no retry is started.
    pub deadline: u64,
    /// The endpoint the next attempt goes against.
    pub target: CallTarget,
    /// Whether a fallback endpoint is configured.
    pub fallback_configured: bool,
    /// Whether the fallback endpoint was already switched to.
    pub fallback_used: bool,
    /// The wait before the next retry; grows by half after each one.
    pub current_interval_ms: u64,
}

/// What starting an introspection call yields: with a zero budget the call
/// is decided at once — `BudgetExceeded`, before any HTTP call — and
/// otherwise one call against the primary endpoint, with the deadline set a
/// budget away.
pub open spec fn spec_flow_start(fallback_configured: bool, budget_ms: u64, now: u64) -> (
    IntrospectionFlow,
    IntrospectStep,
) {
    let flow = IntrospectionFlow {
        deadline: spec_plus_millis(now, budget_ms),
        target: CallTarget::Primary,
        fallback_configured,
        fallback_used: false,
        current_interval_ms: INTROSPECTION_RETRY_INITIAL_INTERVAL_MS,
    };
    if budget_ms == 0 {
        (
            flow,
            IntrospectStep::Done(
                Err(TokenInfoError { kind: TokenInfoErrorKind::BudgetExceeded }),
            ),
        )
    } else {
        (flow, IntrospectStep::Call(CallTarget::Primary))
    }
}

/// What feeding an attempt's outcome to the flow yields. A success decides
/// the call. A retriable failure within the deadline is retried against the
/// same target after the current interval. A failure that is not retried
/// switches to the fallback — once, and never on a client error or a
/// refused token. Past the deadline a retriable failure becomes
/// `BudgetExceeded`; everything else is final.
pub open spec fn spec_flow_on_result(
    flow: IntrospectionFlow,
    result: TokenInfoResult<TokenInfo>,
    now: u64,
) -> (IntrospectionFlow, IntrospectStep) {
    match result {
        Ok(info) => (flow, IntrospectStep::Done(Ok(info))),
        Err(e) => if e.spec_is_retry_suggested() && now <= flow.deadline {
            (
                IntrospectionFlow {
                    current_interval_ms: spec_plus_millis(
                        flow.current_interval_ms,
                        flow.current_interval_ms / 2,
                    ),
                    ..flow
                },
                IntrospectStep::RetryAfter(flow.current_interval_ms, flow.target),
            )
        } else if flow.target == CallTarget::Primary && flow.fallback_configured
            && !flow.fallback_used && !(e.kind matches TokenInfoErrorKind::Client(_)) && !(
        e.kind matches TokenInfoErrorKind::NotAuthenticated(_)) {
            (
                IntrospectionFlow {
                    target: CallTarget::Fallback,
                    fallback_used: true,
                    current_interval_ms: INTROSPECTION_RETRY_INITIAL_INTERVAL_MS,
                    ..flow
                },
                IntrospectStep::Call(CallTarget::Fallback),
            )
        } else if e.spec_is_retry_suggested() {
            (
                flow,
                IntrospectStep::Done(
                    Err(TokenInfoError { kind: TokenInfoErrorKind::BudgetExceeded }),
                ),
            )
        } else {
            (flow, IntrospectStep::Done(Err(e)))
        },
    }
}

impl IntrospectionFlow {
    /// Starts one introspection call with the given time budget. With a
    /// budget of zero the call is decided at once — `BudgetExceeded` — and
    /// no call step is ever handed out.
    pub fn start(fallback_configured: bool, budget_ms: u64, now: u64) -> (r: (
        IntrospectionFlow,
        IntrospectStep,
    ))
        ensures
            r == spec_flow_start(fallback_configured, budget_ms, now),
            budget_ms == 0 ==> (r.1 matches IntrospectStep::Done(res) && res matches Err(e)
                && e.kind == TokenInfoErrorKind::BudgetExceeded),
    {
        let flow = IntrospectionFlow {
            deadline: plus_millis(now, budget_ms),
            target: CallTarget::Primary,
            fallback_configured,
            fallback_used: false,
            current_interval_ms: INTROSPECTION_RETRY_INITIAL_INTERVAL_MS,
        };
        if budget_ms == 0 {
            (
                flow,
                IntrospectStep::Done(
                    Err(TokenInfoError::new(TokenInfoErrorKind::BudgetExceeded)),
                ),
            )
        } else {
            (flow, IntrospectStep::Call(CallTarget::Primary))
        }
    }

    /// Feeds the classified outcome of the last attempt to the flow and
    /// takes the next step.
    pub fn on_result(&mut self, result: TokenInfoResult<TokenInfo>, now: u64) -> (step:
        IntrospectStep)
        ensures
            (*final(self), step) == spec_flow_on_result(*old(self), result, now),
    {
        match result {
            Ok(info) => IntrospectStep::Done(Ok(info)),
            Err(e) => {
                if e.is_retry_suggested() && now <= self.deadline {
                    let delay = self.current_interval_ms;
                    self.current_interval_ms = plus_millis(delay, delay / 2);
                    IntrospectStep::RetryAfter(delay, self.target)
                } else {
                    let client_side = match &e.kind {
                        TokenInfoErrorKind::Client(_) => true,
                        TokenInfoErrorKind::NotAuthenticated(_) => true,
                        _ => false,
                    };
                    if matches!(self.target, CallTarget::Primary) && self.fallback_configured
                        && !self.fallback_used && !client_side {
                        self.target = CallTarget::Fallback;
                        self.fallback_used = true;
                        self.current_interval_ms = INTROSPECTION_RETRY_INITIAL_INTERVAL_MS;
                        IntrospectStep::Call(CallTarget::Fallback)
                    } else if e.is_retry_suggested() {
                        IntrospectStep::Done(
                            Err(TokenInfoError::new(TokenInfoErrorKind::BudgetExceeded)),
                        )
                    } else {
                        IntrospectStep::Done(Err(e))
                    }
                }
            },
        }
    }
}

/// Law: a primary-side client error, and a refused token, never trigger the
/// fallback endpoint.
pub proof fn lemma_client_error_no_fallback(
    flow: IntrospectionFlow,
    e: TokenInfoError,
    now: u64,
)
    requires
        e.kind matches TokenInfoErrorKind::Client(_) || e.kind
            matches TokenInfoErrorKind::NotAuthenticated(_),
    ensures
        !(spec_flow_on_result(flow, Err(e), now).1 matches IntrospectStep::Call(_)),
{
}

/// Law: a retriable primary failure that the deadline bars from retrying is
/// routed to the configured, not yet taken fallback — so any retriable error
/// does trigger the fallback when the primary is out of retries.
pub proof fn lemma_retriable_failure_past_deadline_goes_to_fallback(
    flow: IntrospectionFlow,
    e: TokenInfoError,
    now: u64,
)
    requires
        flow.target == CallTarget::Primary,
        flow.fallback_configured,
        !flow.fallback_used,
        e.spec_is_retry_suggested(),
        now > flow.deadline,
    ensures
        spec_flow_on_result(flow, Err(e), now).1 == IntrospectStep::Call(CallTarget::Fallback),
        spec_flow_on_result(flow, Err(e), now).0.fallback_used,
{
}

/// Law: one introspection call switches to the fallback endpoint at most
/// once: no two steps of the same flow are fallback calls, however many
/// outcomes are fed in between.
pub proof fn lemma_fallback_at_most_once(
    flow0: IntrospectionFlow,
    results: Seq<(TokenInfoResult<TokenInfo>, u64)>,
    a: int,
    b: int,
)
    requires
        0 <= a < b < results.len(),
        spec_flow_chain(flow0, results, a).1 matches IntrospectStep::Call(_),
    ensures
        !(spec_flow_chain(flow0, results, b).1 matches IntrospectStep::Call(_)),
    decreases b,
{
    lemma_fallback_used_monotone(flow0, results, a, b);
}

/// The flow state and step after feeding outcomes `0..=k` in order.
pub open spec fn spec_flow_chain(
    flow0: IntrospectionFlow,
    results: Seq<(TokenInfoResult<TokenInfo>, u64)>,
    k: int,
) -> (IntrospectionFlow, IntrospectStep)
    recommends
        0 <= k < results.len(),
    decreases k + 1,
{
    if k <= 0 {
        spec_flow_on_result(flow0, results[0].0, results[0].1)
    } else {
        spec_flow_on_result(
            spec_flow_chain(flow0, results, k - 1).0,
            results[k].0,
            results[k].1,
        )
    }
}

/// Once a step was a call, the fallback is marked used from then on, so no
/// later step is a call.
proof fn lemma_fallback_used_monotone(
    flow0: IntrospectionFlow,
    results: Seq<(TokenInfoResult<TokenInfo>, u64)>,
    a: int,
    b: int,
)
    requires
        0 <= a < b < results.len(),
        spec_flow_chain(flow0, results, a).1 matches IntrospectStep::Call(_),
    ensures
        spec_flow_chain(flow0, results, b).0.fallback_used,
        !(spec_flow_chain(flow0, results, b).1 matches IntrospectStep::Call(_)),
    decreases b - a,
{
    if b == a + 1 {
        assert(spec_flow_chain(flow0, results, a).0.fallback_used);
    } else {
        lemma_fallback_used_monotone(flow0, results, a, b - 1);
    }
}

/// A builder for a `TokenInfoServiceClient`.
pub struct TokenInfoServiceClientBuilder<P: TokenInfoParser> {
    pub parser: Option<P>,
    pub endpoint: Option<String>,
    pub query_parameter: Option<String>,
    pub fallback_endpoint: Option<String>,
}

impl<P: TokenInfoParser> TokenInfoServiceClientBuilder<P> {
    /// Creates a builder with the given parser already set.
    pub fn new(parser: P) -> (b: Self)
        ensures
            b.parser == Some(parser),
            b.endpoint is None,
            b.query_parameter is None,
            b.fallback_endpoint is None,
    {
        TokenInfoServiceClientBuilder {
            parser: Some(parser),
            endpoint: None,
            query_parameter: None,
            fallback_endpoint: None,
        }
    }

    /// Sets the parser. Mandatory.
    pub fn with_parser(&mut self, parser: P)
        ensures
            *final(self) == (TokenInfoServiceClientBuilder { parser: Some(parser), ..*old(self) }),
    {
        self.parser = Some(parser);
    }

    /// Sets the introspection endpoint. Mandatory.
    pub fn with_endpoint(&mut self, endpoint: String)
        ensures
            *final(self) == (TokenInfoServiceClientBuilder {
                endpoint: Some(endpoint),
                ..*old(self)
            }),
    {
        self.endpoint = Some(endpoint);
    }

    /// Sets a fallback for the introspection endpoint. Optional.
    pub fn with_fallback_endpoint(&mut self, fallback_endpoint: String)
        ensures
            *final(self) == (TokenInfoServiceClientBuilder {
                fallback_endpoint: Some(fallback_endpoint),
                ..*old(self)
            }),
    {
        self.fallback_endpoint = Some(fallback_endpoint);
    }

    /// Sets the query parameter that carries the access token. When omitted
    /// the token becomes part of the URL path.
    pub fn with_query_parameter(&mut self, parameter: String)
        ensures
            *final(self) == (TokenInfoServiceClientBuilder {
                query_parameter: Some(parameter),
                ..*old(self)
            }),
    {
        self.query_parameter = Some(parameter);
    }

    /// Builds the client. Fails exactly when the parser or the endpoint is
    /// missing, or an assembled URL prefix is rejected.
    pub fn build(self) -> (r: InitializationResult<TokenInfoServiceClient<P>>)
        ensures
            (self.parser is None || self.endpoint is None) ==> r is Err,
            (self.parser is Some && match self.endpoint {
                Some(e) => url_accepted(
                    spec_url_prefix(e@, crate::parsers::opt_string_view(self.query_parameter))
                        + "test_token"@,
                ) && match self.fallback_endpoint {
                    Some(f) => url_accepted(
                        spec_url_prefix(
                            f@,
                            crate::parsers::opt_string_view(self.query_parameter),
                        ) + "test_token"@,
                    ),
                    None => true,
                },
                None => false,
            }) ==> r is Ok,
    {
        let parser = match self.parser {
            Some(p) => p,
            None => {
                return Err(InitializationError::new("no token info parser"));
            },
        };
        let endpoint = match self.endpoint {
            Some(e) => e,
            None => {
                return Err(InitializationError::new("no endpoint"));
            },
        };
        let query_parameter_ref: Option<&str> = match &self.query_parameter {
            Some(q) => Some(q.as_str()),
            None => None,
        };
        let fallback_ref: Option<&str> = match &self.fallback_endpoint {
            Some(f) => Some(f.as_str()),
            None => None,
        };
        proof {
            assert(crate::parsers::opt_str_view(query_parameter_ref)
                == crate::parsers::opt_string_view(self.query_parameter));
        }
        TokenInfoServiceClient::new(endpoint.as_str(), query_parameter_ref, fallback_ref, parser)
    }
}

impl TokenInfoServiceClientBuilder<crate::parsers::PlanBTokenInfoParser> {
    /// A builder preset for a Plan B authorization server: its parser and
    /// the `access_token` query parameter.
    pub fn plan_b(endpoint: String) -> (b: Self)
        ensures
            b.parser is Some,
            b.endpoint == Some(endpoint),
            b.query_parameter is Some,
            b.fallback_endpoint is None,
    {
        TokenInfoServiceClientBuilder {
            parser: Some(crate::parsers::PlanBTokenInfoParser),
            endpoint: Some(endpoint),
            query_parameter: Some("access_token".to_owned()),
            fallback_endpoint: None,
        }
    }
}

impl TokenInfoServiceClientBuilder<crate::parsers::GoogleV3TokenInfoParser> {
    /// A builder preset for Google's `tokeninfo` endpoint (v3).
    pub fn google_v3() -> (b: Self)
        ensures
            b.parser is Some,
            b.endpoint is Some,
            b.query_parameter is Some,
            b.fallback_endpoint is None,
    {
        TokenInfoServiceClientBuilder {
            parser: Some(crate::parsers::GoogleV3TokenInfoParser),
            endpoint: Some("https://www.googleapis.com/oauth2/v3/tokeninfo".to_owned()),
            query_parameter: Some("access_token".to_owned()),
            fallback_endpoint: None,
        }
    }
}

impl TokenInfoServiceClientBuilder<crate::parsers::AmazonTokenInfoParser> {
    /// A builder preset for Amazon's `tokeninfo` endpoint.
    pub fn amazon() -> (b: Self)
        ensures
            b.parser is Some,
            b.endpoint is Some,
            b.query_parameter is Some,
            b.fallback_endpoint is None,
    {
        TokenInfoServiceClientBuilder {
            parser: Some(crate::parsers::AmazonTokenInfoParser),
            endpoint: Some("https://api.amazon.com/auth/O2/tokeninfo".to_owned()),
            query_parameter: Some("access_token".to_owned()),
            fallback_endpoint: None,
        }
    }
}

/// Introspects access tokens remotely: the assembled URL prefixes, the
/// parser, and the retry-with-fallback policy. The HTTP transport is the
/// caller's; this type decides every step and classifies every response.
pub struct TokenInfoServiceClient<P: TokenInfoParser> {
    /// The URL prefix of the primary endpoint; the token is appended.
    pub url_prefix: String,
    /// The URL prefix of the fallback endpoint, when one is configured.
    pub fallback_url_prefix: Option<String>,
    /// The parser for the introspection dialect.
    pub parser: P,
}

impl<P: TokenInfoParser> TokenInfoServiceClient<P> {
    /// Creates a client; fails exactly when an assembled URL prefix does not
    /// survive the probe.
    pub fn new(
        endpoint: &str,
        query_parameter: Option<&str>,
        fallback_endpoint: Option<&str>,
        parser: P,
    ) -> (r: InitializationResult<Self>)
        ensures
            r matches Ok(c) ==> {
                &&& c.url_prefix@ == spec_url_prefix(
                    endpoint@,
                    crate::parsers::opt_str_view(query_parameter),
                )
                &&& (c.fallback_url_prefix is Some <==> fallback_endpoint is Some)
                &&& (fallback_endpoint matches Some(f) ==> (c.fallback_url_prefix matches Some(p)
                    && p@ == spec_url_prefix(f@, crate::parsers::opt_str_view(query_parameter))))
                &&& c.parser == parser
            },
            r is Ok <==> (url_accepted(
                spec_url_prefix(endpoint@, crate::parsers::opt_str_view(query_parameter))
                    + "test_token"@,
            ) && match fallback_endpoint {
                Some(f) => url_accepted(
                    spec_url_prefix(f@, crate::parsers::opt_str_view(query_parameter))
                        + "test_token"@,
                ),
                None => true,
            }),
    {
        let url_prefix = match assemble_url_prefix(endpoint, query_parameter) {
            Ok(p) => p,
            Err(msg) => {
                return Err(InitializationError(msg));
            },
        };
        let fallback_url_prefix = match fallback_endpoint {
            Some(f) => match assemble_url_prefix(f, query_parameter) {
                Ok(p) => Some(p),
                Err(msg) => {
                    return Err(InitializationError(msg));
                },
            },
            None => None,
        };
        Ok(TokenInfoServiceClient { url_prefix, fallback_url_prefix, parser })
    }

    /// The URLs one introspection of the given token uses: the primary URL
    /// and, when configured, the fallback URL.
    pub fn introspection_urls(&self, token: &AccessToken) -> (r: TokenInfoResult<
        (String, Option<String>),
    >)
        ensures
            r is Ok <==> (url_accepted(self.url_prefix@ + token.0@) && match self.fallback_url_prefix {
                Some(p) => url_accepted(p@ + token.0@),
                None => true,
            }),
            r matches Ok(urls) ==> {
                &&& urls.0@ == self.url_prefix@ + token.0@
                &&& (urls.1 is Some <==> self.fallback_url_prefix is Some)
                &&& (self.fallback_url_prefix matches Some(p) ==> (urls.1 matches Some(u) && u@
                    == p@ + token.0@))
            },
            r matches Err(e) ==> e.kind matches TokenInfoErrorKind::UrlError(_),
    {
        let url = match complete_url(self.url_prefix.as_str(), token) {
            Ok(u) => u,
            Err(e) => {
                return Err(e);
            },
        };
        let fallback_url = match &self.fallback_url_prefix {
            Some(p) => match complete_url(p.as_str(), token) {
                Ok(u) => Some(u),
                Err(e) => {
                    return Err(e);
                },
            },
            None => None,
        };
        Ok((url, fallback_url))
    }

    /// Starts the retry-with-fallback flow for one introspection call.
    pub fn start_introspection(&self, budget_ms: u64, now: u64) -> (r: (
        IntrospectionFlow,
        IntrospectStep,
    ))
        ensures
            r == spec_flow_start(self.fallback_url_prefix is Some, budget_ms, now),
    {
        let fallback_configured = match &self.fallback_url_prefix {
            Some(_) => true,
            None => false,
        };
        IntrospectionFlow::start(fallback_configured, budget_ms, now)
    }

    /// Classifies one response of either endpoint, parsing a 200 body with
    /// this client's parser.
    pub fn process_response(&self, status: u16, body: &[u8]) -> (r: TokenInfoResult<TokenInfo>)
        ensures
            status == 200 ==> (r is Ok <==> self.parser.spec_parse(body@) is Some),
            status == 200 ==> (r matches Ok(t) ==> Some(t@) == self.parser.spec_parse(body@)),
            status == 200 ==> (r matches Err(e) ==> e.kind
                matches TokenInfoErrorKind::InvalidResponseContent(_)),
            status == 401 ==> (r matches Err(e) && e.kind
                matches TokenInfoErrorKind::NotAuthenticated(_)),
            status != 200 && status != 401 && 400 <= status < 500 ==> (r matches Err(e) && e.kind
                matches TokenInfoErrorKind::Client(_)),
            500 <= status < 600 ==> (r matches Err(e) && e.kind
                matches TokenInfoErrorKind::Server(_)),
            !(status == 200 || 400 <= status < 600) ==> (r matches Err(e) && e.kind
                matches TokenInfoErrorKind::Other(_)),
    {
        process_response(&self.parser, status, body)
    }
}

} // verus!
