//! The request pipeline: what the proxy decides at each stage of a request.
//!
//! The server hands in what it read and observed as plain values and gets
//! back what to do next. A request is ingested, answered locally if it is a
//! metrics scrape, judged by the predicates in their fixed order against one
//! snapshot, sent to an upstream, and finally logged and measured.

use crate::configuration::sni_of;
use crate::configuration::ConfigError;
use crate::configuration::GatewayConfig;
use crate::headers::lines;
use crate::headers::set_header;
use crate::headers::with_header;
use crate::headers::with_security_headers;
use crate::headers::Header;
use crate::metrics::exposition_of;
use crate::metrics::Metrics;
use crate::metrics::MetricsError;
use crate::rate_limit::store_admits;
use crate::rate_limit::store_after;
use crate::rate_limit::RateLimitStore;
use crate::rate_limit::TOO_MANY_REQUESTS;
use crate::security::any_contained_in;
use crate::security::any_prefix_of;
use crate::security::bearer_token_of;
use crate::security::lowered;
use crate::security::path_traversal_marker;
use crate::security::raw_path_forbidden;
use crate::security::raw_user_agent_forbidden;
use crate::security::seeded_snapshot;
use crate::security::SecurityLayer;
use crate::security::SnapshotView;
use crate::security::FORBIDDEN;
use crate::security::UNAUTHORIZED;
use crate::snapshot::SnapshotCell;
use crate::text::decimal_digits;
use crate::text::decode_or_empty;
use crate::text::contains_text;
use crate::text::decoded_text;
use crate::text::lowercase_of;
use crate::text::same_text;
use std::sync::Arc;
use vstd::prelude::*;
use vstd::string::StringExecFns;
use vstd::utf8::decode_utf8;
use vstd::utf8::decode_utf8_encode_utf8;
use vstd::utf8::encode_utf8;
use vstd::utf8::valid_utf8;

verus! {

/// Status of a served metrics scrape.
pub const OK: u16 = 200;

/// Status answered when the proxy itself fails: no healthy upstream, or
/// metrics that cannot be encoded.
pub const INTERNAL_ERROR: u16 = 500;

/// Status recorded for a request to which nothing was written.
pub const NOTHING_WRITTEN: u16 = 0;

/// Ring size handed to the load balancer with the empty selection key.
pub const UPSTREAM_SELECTION_LIMIT: usize = 256;

/// What the server read from the head of a request and its connection.
pub struct RequestHead {
    pub method: String,
    pub raw_path: Vec<u8>,
    pub user_agent: Option<Vec<u8>>,
    pub authorization: Option<Vec<u8>>,
    /// The remote socket address in its string form, when there is one.
    pub client_addr: Option<String>,
}

/// What lives for one request.
pub struct RequestCtx {
    /// Instant at which the request arrived, in nanoseconds.
    pub start: u64,
    pub method: String,
    pub path: String,
    /// Status written to the client; zero while none was.
    pub status_code: u16,
    /// The snapshot this request is judged and answered under.
    pub snapshot: Option<Arc<SecurityLayer>>,
}

/// Which predicate refused a request.
#[derive(Clone, Copy, Debug, PartialEq, Eq, Structural)]
pub enum DenialReason {
    RateLimitExceeded,
    BlockedPath,
    BlockedUserAgent,
    TokenRejected,
}

/// A response the proxy writes itself.
pub struct LocalResponse {
    pub status: u16,
    pub content_type: String,
    /// Length of the body in bytes.
    pub content_length: usize,
    pub body: String,
}

/// A local response as plain values.
pub struct LocalResponseView {
    pub status: u16,
    pub content_type: Seq<char>,
    pub content_length: usize,
    pub body: Seq<char>,
}

impl View for LocalResponse {
    type V = LocalResponseView;

    open spec fn view(&self) -> LocalResponseView {
        LocalResponseView {
            status: self.status,
            content_type: self.content_type@,
            content_length: self.content_length,
            body: self.body@,
        }
    }
}

/// What the request filter tells the server to do.
pub enum FilterDecision {
    /// Write this response; the request ends here.
    Respond(LocalResponse),
    /// Answer with the status and end the request.
    Deny(u16, DenialReason),
    /// Every other predicate passed: verify this token against the key of
    /// the request's snapshot and report the outcome.
    VerifyToken(String),
    /// Send the request to an upstream.
    Forward,
}

/// A filter decision as plain values.
pub enum Verdict {
    Respond(LocalResponseView),
    Deny(u16, DenialReason),
    VerifyToken(Seq<char>),
    Forward,
}

impl View for FilterDecision {
    type V = Verdict;

    open spec fn view(&self) -> Verdict {
        match self {
            FilterDecision::Respond(response) => Verdict::Respond(response@),
            FilterDecision::Deny(status, reason) => Verdict::Deny(*status, *reason),
            FilterDecision::VerifyToken(token) => Verdict::VerifyToken(token@),
            FilterDecision::Forward => Verdict::Forward,
        }
    }
}

/// Where and how to reach the chosen upstream.
pub struct UpstreamPlan {
    pub address: String,
    pub tls: bool,
    pub sni: String,
}

/// The record written to the log when a request ends.
pub struct LogRecord {
    pub client_ip: String,
    pub method: String,
    pub path: String,
    pub latency_nanos: u64,
    pub status_code: u16,
}

/// The bytes behind an optional header.
pub open spec fn raw_of(header: Option<Vec<u8>>) -> Option<Seq<u8>> {
    match header {
        Some(raw) => Some(raw@),
        None => None,
    }
}

/// The identity a client is rate limited under: its address, or `unknown`.
pub open spec fn identity_of(client_addr: Option<Seq<char>>) -> Seq<char> {
    match client_addr {
        Some(addr) => addr,
        None => "unknown"@,
    }
}

/// The address held by an optional string.
pub open spec fn addr_of(client_addr: Option<String>) -> Option<Seq<char>> {
    match client_addr {
        Some(addr) => Some(addr@),
        None => None,
    }
}

/// A request is a metrics scrape when it is a `GET` of `/metrics`.
pub open spec fn is_scrape(method: Seq<char>, raw_path: Seq<u8>) -> bool {
    method == "GET"@ && decoded_text(raw_path) == "/metrics"@
}

/// The response to a scrape, given the outcome of encoding the metrics.
pub open spec fn scrape_response_of(encoded: Result<String, MetricsError>) -> LocalResponseView {
    match encoded {
        Ok(text) => LocalResponseView {
            status: OK,
            content_type: "text/plain"@,
            content_length: encode_utf8(text@).len() as usize,
            body: text@,
        },
        Err(_) => LocalResponseView {
            status: INTERNAL_ERROR,
            content_type: "text/plain"@,
            content_length: 0,
            body: Seq::empty(),
        },
    }
}

/// The response to a scrape, given what gathering and encoding yields: the
/// bytes as text with status 200 when they are UTF-8, an empty 500 when
/// they are not or when the encoder failed.
pub open spec fn scrape_of(outcome: Result<Seq<u8>, Seq<char>>) -> LocalResponseView {
    match outcome {
        Ok(bytes) if valid_utf8(bytes) => LocalResponseView {
            status: OK,
            content_type: "text/plain"@,
            content_length: bytes.len() as usize,
            body: decode_utf8(bytes),
        },
        _ => LocalResponseView {
            status: INTERNAL_ERROR,
            content_type: "text/plain"@,
            content_length: 0,
            body: Seq::empty(),
        },
    }
}

/// The response built from the outcome of a scrape is the response to what
/// gathering and encoding yielded.
pub proof fn lemma_scrape_of_exposition(
    outcome: Result<Seq<u8>, Seq<char>>,
    encoded: Result<String, MetricsError>,
)
    requires
        exposition_of(outcome, encoded),
    ensures
        scrape_response_of(encoded) == scrape_of(outcome),
{
    if let Ok(bytes) = outcome {
        if valid_utf8(bytes) {
            decode_utf8_encode_utf8(bytes);
        }
    }
}

/// The verdict of the predicates in their order: rate limit, path, user
/// agent, token. The first one that refuses decides.
pub open spec fn predicate_verdict(
    snapshot: SnapshotView,
    windows: Map<Seq<char>, Seq<u64>>,
    client: Seq<char>,
    raw_path: Seq<u8>,
    user_agent: Option<Seq<u8>>,
    authorization: Option<Seq<u8>>,
    now: u64,
) -> Verdict {
    if !store_admits(windows, client, now, snapshot.rate_limit_per_second as nat) {
        Verdict::Deny(TOO_MANY_REQUESTS, DenialReason::RateLimitExceeded)
    } else if raw_path_forbidden(raw_path, snapshot.blocked_path_prefixes) {
        Verdict::Deny(FORBIDDEN, DenialReason::BlockedPath)
    } else if raw_user_agent_forbidden(user_agent, snapshot.blocked_user_agents) {
        Verdict::Deny(FORBIDDEN, DenialReason::BlockedUserAgent)
    } else {
        match bearer_token_of(authorization) {
            None => Verdict::Deny(UNAUTHORIZED, DenialReason::TokenRejected),
            Some(token) => Verdict::VerifyToken(token),
        }
    }
}

/// The verdict once the token of a request was verified.
pub open spec fn token_verdict(accepted: bool) -> Verdict {
    if accepted {
        Verdict::Forward
    } else {
        Verdict::Deny(UNAUTHORIZED, DenialReason::TokenRejected)
    }
}

impl DenialReason {
    /// The tag a denial is logged under.
    pub open spec fn tag_of(self) -> Seq<char> {
        match self {
            DenialReason::RateLimitExceeded => "rate limit exceeded"@,
            DenialReason::BlockedPath => "blocked path"@,
            DenialReason::BlockedUserAgent => "blocked user agent"@,
            DenialReason::TokenRejected => "jwt auth failed"@,
        }
    }

    /// The tag a denial is logged under.
    pub fn tag(&self) -> (text: &'static str)
        ensures
            text@ == self.tag_of(),
    {
        match self {
            DenialReason::RateLimitExceeded => "rate limit exceeded",
            DenialReason::BlockedPath => "blocked path",
            DenialReason::BlockedUserAgent => "blocked user agent",
            DenialReason::TokenRejected => "jwt auth failed",
        }
    }
}

/// The identity a client is rate limited and logged under.
pub fn client_identity(client_addr: Option<&str>) -> (identity: String)
    ensures
        identity@ == identity_of(
            match client_addr {
                Some(addr) => Some(addr@),
                None => None,
            },
        ),
{
    match client_addr {
        Some(addr) => String::from_str(addr),
        None => String::from_str("unknown"),
    }
}

/// Builds the response to a metrics scrape from the outcome of encoding:
/// the text with status 200, or an empty 500.
pub fn scrape_response(encoded: Result<String, MetricsError>) -> (response: LocalResponse)
    ensures
        response@ == scrape_response_of(encoded),
{
    match encoded {
        Ok(text) => {
            let content_length: usize = text.as_str().len();
            LocalResponse {
                status: OK,
                content_type: String::from_str("text/plain"),
                content_length,
                body: text,
            }
        },
        Err(_) => {
            let body = String::from_str("");
            proof {
                reveal_strlit("");
                assert(body@ =~= Seq::<char>::empty());
            }
            LocalResponse {
                status: INTERNAL_ERROR,
                content_type: String::from_str("text/plain"),
                content_length: 0,
                body,
            }
        },
    }
}

/// Concludes the filter once the token was verified: forward when it was
/// accepted, refuse with 401 when not.
pub fn conclude_token(accepted: bool) -> (decision: FilterDecision)
    ensures
        decision@ == token_verdict(accepted),
{
    if accepted {
        FilterDecision::Forward
    } else {
        FilterDecision::Deny(UNAUTHORIZED, DenialReason::TokenRejected)
    }
}

/// Judges a request under one snapshot: the predicates in their order, the
/// first refusal ending the evaluation. Only the rate limiter changes state.
/// When all that is left to judge is the token, it is handed back.
pub fn judge_request(
    snapshot: &SecurityLayer,
    limiter: &mut RateLimitStore,
    head: &RequestHead,
    now: u64,
) -> (decision: FilterDecision)
    ensures
        final(limiter)@ == store_after(
            old(limiter)@,
            identity_of(addr_of(head.client_addr)),
            now,
            snapshot.rate_limit_per_second as nat,
        ),
        decision@ == predicate_verdict(
            snapshot@,
            old(limiter)@,
            identity_of(addr_of(head.client_addr)),
            head.raw_path@,
            raw_of(head.user_agent),
            raw_of(head.authorization),
            now,
        ),
{
    let client_ip = match &head.client_addr {
        Some(addr) => client_identity(Some(addr.as_str())),
        None => client_identity(None),
    };
    if let Err(status) = snapshot.check_rate_limit(limiter, client_ip.as_str(), now) {
        return FilterDecision::Deny(status, DenialReason::RateLimitExceeded);
    }
    if let Err(status) = snapshot.check_path(head.raw_path.as_slice()) {
        return FilterDecision::Deny(status, DenialReason::BlockedPath);
    }
    let agent_verdict = match &head.user_agent {
        Some(raw) => snapshot.check_user_agent(Some(raw.as_slice())),
        None => snapshot.check_user_agent(None),
    };
    if let Err(status) = agent_verdict {
        return FilterDecision::Deny(status, DenialReason::BlockedUserAgent);
    }
    let token = match &head.authorization {
        Some(raw) => SecurityLayer::bearer_token(Some(raw.as_slice())),
        None => SecurityLayer::bearer_token(None),
    };
    match token {
        Err(status) => FilterDecision::Deny(status, DenialReason::TokenRejected),
        Ok(token) => FilterDecision::VerifyToken(String::from_str(token)),
    }
}

/// The state of one proxy: the published snapshot, the rate-limit store,
/// the metrics and the name the upstreams are addressed by.
pub struct SecureProxy {
    pub security: SnapshotCell,
    pub limiter: RateLimitStore,
    pub metrics: Metrics,
    pub upstream_sni: String,
}

/// Why the proxy could not be started.
pub enum StartupError {
    /// The configuration breaks a rule.
    Config(ConfigError),
    /// The metrics registry could not be built.
    Metrics(MetricsError),
}

impl SecureProxy {
    /// Builds the state of a proxy from its configuration: the first
    /// snapshot, an empty rate-limit store, a fresh registry and the name of
    /// the upstreams. A configuration that breaks a rule is refused with the
    /// diagnostic of the first rule it breaks. A valid one gives a proxy
    /// exactly when the registry takes both families.
    pub fn bootstrap(config: &GatewayConfig) -> (r: Result<SecureProxy, StartupError>)
        ensures
            match config.first_fault() {
                Some(fault) => r matches Err(StartupError::Config(ConfigError::Validation(text)))
                    && text@ == fault.diagnostic(),
                None => match r {
                    Ok(proxy) => {
                        &&& Metrics::families_told_apart()
                        &&& proxy.security.current()@ == seeded_snapshot(
                            config.rate_limit_per_second,
                            config.jwt_secret@,
                        )
                        &&& proxy.limiter@.dom() == Set::<Seq<char>>::empty()
                        &&& proxy.metrics.is_fresh()
                        &&& proxy.metrics.has_proxy_families()
                        &&& proxy.metrics.gathers_own()
                        &&& proxy.upstream_sni@ == sni_of(config.upstream_ips@)
                    },
                    Err(error) => !Metrics::families_told_apart() && error is Metrics,
                },
            },
    {
        match config.validate() {
            Err(error) => Err(StartupError::Config(error)),
            Ok(()) => match Metrics::new() {
                Err(error) => Err(StartupError::Metrics(error)),
                Ok(metrics) => Ok(
                    SecureProxy {
                        security: SnapshotCell::new(
                            SecurityLayer::new(
                                config.rate_limit_per_second,
                                config.jwt_secret.as_str(),
                            ),
                        ),
                        limiter: RateLimitStore::new(),
                        metrics,
                        upstream_sni: config.upstream_sni(),
                    },
                ),
            },
        }
    }

    /// Handles a reload signal, given the outcome of reading the
    /// configuration again. Only the published snapshot can change; the
    /// rate-limit store and the metrics stay as they are.
    pub fn reload(&mut self, loaded: Result<GatewayConfig, ConfigError>) -> (outcome: Result<
        (),
        ConfigError,
    >)
        ensures
            final(self).security.current()@ == crate::snapshot::reloaded(
                old(self).security.current()@,
                loaded,
            ),
            outcome is Ok <==> (loaded matches Ok(config) && config.is_valid()),
            !(outcome is Ok) ==> final(self).security.current() == old(self).security.current(),
            final(self).limiter == old(self).limiter,
            final(self).metrics == old(self).metrics,
            final(self).upstream_sni == old(self).upstream_sni,
    {
        self.security.reload(loaded)
    }

    /// Starts the context of a request that arrived at `now`.
    pub fn new_ctx(&self, now: u64) -> (ctx: RequestCtx)
        ensures
            ctx.start == now,
            ctx.method@ == Seq::<char>::empty(),
            ctx.path@ == Seq::<char>::empty(),
            ctx.status_code == NOTHING_WRITTEN,
            ctx.snapshot is None,
    {
        RequestCtx {
            start: now,
            method: String::new(),
            path: String::new(),
            status_code: NOTHING_WRITTEN,
            snapshot: None,
        }
    }

    /// Decides what happens to a request once its head was read.
    ///
    /// The method and path are noted in the context. A `GET` of `/metrics`
    /// is answered from the registry, with the text that gathering and
    /// encoding yields or with an empty 500 when they yield none, and
    /// touches neither the snapshot nor the rate-limit store. Every other
    /// request takes the current snapshot
    /// into its context and is judged by the predicates in their order; the
    /// rate limiter alone changes state. When only the token is left to
    /// judge, it is handed back for verification.
    pub fn request_filter(&mut self, ctx: &mut RequestCtx, head: &RequestHead, now: u64) -> (decision:
        FilterDecision)
        ensures
            final(ctx).start == old(ctx).start,
            final(ctx).status_code == old(ctx).status_code,
            final(ctx).method@ == head.method@,
            final(ctx).path@ == decoded_text(head.raw_path@),
            final(self).security == old(self).security,
            final(self).metrics == old(self).metrics,
            final(self).upstream_sni == old(self).upstream_sni,
            is_scrape(head.method@, head.raw_path@) ==> {
                &&& decision@ == Verdict::Respond(scrape_of(old(self).metrics.scrape_outcome()))
                &&& final(self).limiter@ == old(self).limiter@
                &&& final(ctx).snapshot == old(ctx).snapshot
            },
            !is_scrape(head.method@, head.raw_path@) ==> {
                &&& final(ctx).snapshot matches Some(snapshot)
                &&& *snapshot == old(self).security.current()
                &&& final(self).limiter@ == store_after(
                    old(self).limiter@,
                    identity_of(addr_of(head.client_addr)),
                    now,
                    old(self).security.current().rate_limit_per_second as nat,
                )
                &&& decision@ == predicate_verdict(
                    old(self).security.current()@,
                    old(self).limiter@,
                    identity_of(addr_of(head.client_addr)),
                    head.raw_path@,
                    raw_of(head.user_agent),
                    raw_of(head.authorization),
                    now,
                )
            },
    {
        let path = decode_or_empty(head.raw_path.as_slice());
        ctx.path = String::from_str(path);
        ctx.method = String::from_str(head.method.as_str());

        if same_text(path, "/metrics") && same_text(head.method.as_str(), "GET") {
            let encoded = self.metrics.encode();
            proof {
                lemma_scrape_of_exposition(self.metrics.scrape_outcome(), encoded);
            }
            return FilterDecision::Respond(scrape_response(encoded));
        }
        let snapshot = self.security.load();
        let decision = judge_request(&snapshot, &mut self.limiter, head, now);
        ctx.snapshot = Some(snapshot);
        decision
    }

    /// Turns the load balancer's choice into a plan for reaching the
    /// upstream over TLS under the configured name; no choice means no
    /// healthy upstream, which is answered with 500.
    pub fn upstream_peer(&self, selected: Option<String>) -> (r: Result<UpstreamPlan, u16>)
        ensures
            match selected {
                None => r matches Err(status) && status == INTERNAL_ERROR,
                Some(address) => r matches Ok(plan) && plan.address == address && plan.tls
                    && plan.sni@ == self.upstream_sni@,
            },
    {
        match selected {
            None => Err(INTERNAL_ERROR),
            Some(address) => Ok(
                UpstreamPlan {
                    address,
                    tls: true,
                    sni: String::from_str(self.upstream_sni.as_str()),
                },
            ),
        }
    }

    /// Rewrites the request that goes upstream: `Host` becomes the
    /// configured name, every other header passes through.
    pub fn upstream_request_filter(&self, upstream_request: &mut Vec<Header>)
        ensures
            lines(final(upstream_request)@) == with_header(
                lines(old(upstream_request)@),
                "Host"@,
                self.upstream_sni@,
            ),
    {
        set_header(upstream_request, "Host", self.upstream_sni.as_str());
    }

    /// Sets the security headers on the response of an upstream, under the
    /// snapshot the request was judged by. The cell is only consulted for a
    /// request that never took a snapshot.
    pub fn response_filter(&self, ctx: &RequestCtx, upstream_response: &mut Vec<Header>)
        ensures
            lines(final(upstream_response)@) == with_security_headers(
                lines(old(upstream_response)@),
            ),
    {
        match &ctx.snapshot {
            Some(snapshot) => snapshot.inject_security_headers(upstream_response),
            None => self.security.load().inject_security_headers(upstream_response),
        }
    }

    /// Ends a request at `now`: notes the status that was written, zero if
    /// none, records the request once in the counter and once in the
    /// histogram, in the series of the same labels and with the latency of
    /// the log record, and hands back that record. No other series changes.
    pub fn logging(
        &mut self,
        ctx: &mut RequestCtx,
        client_addr: Option<&str>,
        written_status: Option<u16>,
        now: u64,
    ) -> (record: LogRecord)
        ensures
            record.status_code == match written_status {
                Some(status) => status,
                None => NOTHING_WRITTEN,
            },
            record.latency_nanos == if now >= old(ctx).start {
                (now - old(ctx).start) as u64
            } else {
                0
            },
            record.method@ == old(ctx).method@,
            record.path@ == old(ctx).path@,
            record.client_ip@ == identity_of(
                match client_addr {
                    Some(addr) => Some(addr@),
                    None => None,
                },
            ),
            final(ctx).status_code == record.status_code,
            final(ctx).start == old(ctx).start,
            final(ctx).method == old(ctx).method,
            final(ctx).path == old(ctx).path,
            final(ctx).snapshot == old(ctx).snapshot,
            final(self).security == old(self).security,
            final(self).limiter == old(self).limiter,
            final(self).upstream_sni == old(self).upstream_sni,
            final(self).metrics.recorded_once_since(
                old(self).metrics,
                decimal_digits(record.status_code as nat),
                old(ctx).method@,
                old(ctx).path@,
                record.latency_nanos,
            ),
            final(self).metrics.counter_family() == old(self).metrics.counter_family(),
            final(self).metrics.histogram_family() == old(self).metrics.histogram_family(),
            final(self).metrics.bucket_bounds() == old(self).metrics.bucket_bounds(),
            final(self).metrics.has_proxy_families(),
            final(self).metrics.gathers_own(),
    {
        let latency_nanos: u64 = if now >= ctx.start {
            now - ctx.start
        } else {
            0
        };
        let status_code: u16 = match written_status {
            Some(status) => status,
            None => NOTHING_WRITTEN,
        };
        ctx.status_code = status_code;
        self.metrics.record_request(
            status_code,
            ctx.method.as_str(),
            ctx.path.as_str(),
            latency_nanos,
        );
        LogRecord {
            client_ip: client_identity(client_addr),
            method: String::from_str(ctx.method.as_str()),
            path: String::from_str(ctx.path.as_str()),
            latency_nanos,
            status_code,
        }
    }
}

/// The predicates are tried in the order rate limit, path, user agent,
/// token, and the first that refuses gives the status: a request that fails
/// several of them is answered by the earliest.
pub proof fn lemma_first_refusal_decides(
    snapshot: SnapshotView,
    windows: Map<Seq<char>, Seq<u64>>,
    client: Seq<char>,
    raw_path: Seq<u8>,
    user_agent: Option<Seq<u8>>,
    authorization: Option<Seq<u8>>,
    now: u64,
)
    ensures
        ({
            let verdict = predicate_verdict(
                snapshot,
                windows,
                client,
                raw_path,
                user_agent,
                authorization,
                now,
            );
            let limited = !store_admits(
                windows,
                client,
                now,
                snapshot.rate_limit_per_second as nat,
            );
            let bad_path = raw_path_forbidden(raw_path, snapshot.blocked_path_prefixes);
            let bad_agent = raw_user_agent_forbidden(user_agent, snapshot.blocked_user_agents);
            let token = bearer_token_of(authorization);
            &&& limited ==> verdict == Verdict::Deny(
                TOO_MANY_REQUESTS,
                DenialReason::RateLimitExceeded,
            )
            &&& !limited && bad_path ==> verdict == Verdict::Deny(
                FORBIDDEN,
                DenialReason::BlockedPath,
            )
            &&& !limited && !bad_path && bad_agent ==> verdict == Verdict::Deny(
                FORBIDDEN,
                DenialReason::BlockedUserAgent,
            )
            &&& !limited && !bad_path && !bad_agent && token is None ==> verdict == Verdict::Deny(
                UNAUTHORIZED,
                DenialReason::TokenRejected,
            )
            &&& !limited && !bad_path && !bad_agent && token is Some ==> verdict
                == Verdict::VerifyToken(token->0)
        }),
{
}

/// A request within its rate limit whose path holds `..`, or whose
/// lowercased path begins with a blocked prefix, is answered with 403,
/// whatever its headers hold.
pub proof fn lemma_blocked_path_is_forbidden(
    snapshot: SnapshotView,
    windows: Map<Seq<char>, Seq<u64>>,
    client: Seq<char>,
    raw_path: Seq<u8>,
    user_agent: Option<Seq<u8>>,
    authorization: Option<Seq<u8>>,
    now: u64,
)
    requires
        store_admits(windows, client, now, snapshot.rate_limit_per_second as nat),
        contains_text(decoded_text(raw_path), path_traversal_marker()) || any_prefix_of(
            snapshot.blocked_path_prefixes,
            lowercase_of(decoded_text(raw_path)),
        ),
    ensures
        predicate_verdict(snapshot, windows, client, raw_path, user_agent, authorization, now)
            == Verdict::Deny(FORBIDDEN, DenialReason::BlockedPath),
{
}

/// A request within its rate limit that comes without a user agent, with
/// an empty one, or with one whose lowercase form holds a blocked entry, is
/// answered with 403.
pub proof fn lemma_blocked_agent_is_forbidden(
    snapshot: SnapshotView,
    windows: Map<Seq<char>, Seq<u64>>,
    client: Seq<char>,
    raw_path: Seq<u8>,
    user_agent: Option<Seq<u8>>,
    authorization: Option<Seq<u8>>,
    now: u64,
)
    requires
        store_admits(windows, client, now, snapshot.rate_limit_per_second as nat),
        match user_agent {
            None => true,
            Some(raw) => raw.len() == 0 || any_contained_in(
                lowered(snapshot.blocked_user_agents),
                lowercase_of(decoded_text(raw)),
            ),
        },
    ensures
        predicate_verdict(snapshot, windows, client, raw_path, user_agent, authorization, now)
            matches Verdict::Deny(status, _) && status == FORBIDDEN,
{
}

/// A request that passed the rate limit, the path check and the user-agent
/// check is answered with 401 when it carries no bearer token, and also
/// when the token it carries fails verification.
pub proof fn lemma_missing_token_is_unauthorized(
    snapshot: SnapshotView,
    windows: Map<Seq<char>, Seq<u64>>,
    client: Seq<char>,
    raw_path: Seq<u8>,
    user_agent: Option<Seq<u8>>,
    authorization: Option<Seq<u8>>,
    now: u64,
)
    requires
        store_admits(windows, client, now, snapshot.rate_limit_per_second as nat),
        !raw_path_forbidden(raw_path, snapshot.blocked_path_prefixes),
        !raw_user_agent_forbidden(user_agent, snapshot.blocked_user_agents),
    ensures
        bearer_token_of(authorization) is None ==> predicate_verdict(
            snapshot,
            windows,
            client,
            raw_path,
            user_agent,
            authorization,
            now,
        ) == Verdict::Deny(UNAUTHORIZED, DenialReason::TokenRejected),
        token_verdict(false) == Verdict::Deny(UNAUTHORIZED, DenialReason::TokenRejected),
        token_verdict(true) == Verdict::Forward,
{
}

} // verus!
