//! Vendors that expose usage or balance information, and what the refresh
//! logic shares between them.
use crate::errors::AppError;
use crate::json::{JsonNumber, JsonValue};
use crate::models::{opt_str, Metric, ProviderMeta, ProviderState, ProviderStatus};
use crate::text::{owned, str_eq, take_chars, take_spec};
use vstd::prelude::*;

pub mod anthropic;
pub mod codex;
pub mod cursor;
pub mod github_copilot;
pub mod minimax;
pub mod ollama;
pub mod openai;
pub mod opencode;
pub mod registry;
pub mod zai;

use anthropic::AnthropicProvider;
use codex::CodexProvider;
use cursor::CursorProvider;
use github_copilot::GithubCopilotProvider;
use minimax::MinimaxProvider;
use ollama::OllamaProvider;
use openai::OpenaiProvider;
use opencode::OpencodeProvider;
use zai::ZaiProvider;

verus! {

pub open spec fn opt_static(o: Option<&str>) -> Option<Seq<char>> {
    match o {
        Some(s) => Some(s@),
        None => None,
    }
}

pub fn opt_owned(o: Option<&str>) -> (r: Option<String>)
    ensures
        opt_str(r) == opt_static(o),
{
    match o {
        Some(s) => Some(owned(s)),
        None => None,
    }
}

/// A vendor that exposes usage or balance information.
pub trait Provider {
    spec fn spec_id(&self) -> Seq<char>;

    spec fn spec_label(&self) -> Seq<char>;

    spec fn spec_kind(&self) -> Seq<char>;

    spec fn spec_docs_url(&self) -> Option<Seq<char>>;

    spec fn spec_description(&self) -> Seq<char>;

    spec fn spec_env_var(&self) -> Option<Seq<char>>;

    /// Stable id used in the configuration.
    fn id(&self) -> (r: &'static str)
        ensures
            r@ == self.spec_id(),
    ;

    /// Human label.
    fn label(&self) -> (r: &'static str)
        ensures
            r@ == self.spec_label(),
    ;

    /// Category: "llm_api", "subscription" or "cli_local".
    fn kind(&self) -> (r: &'static str)
        ensures
            r@ == self.spec_kind(),
    ;

    /// Page where the user can learn more or get a key.
    fn docs_url(&self) -> (r: Option<&'static str>)
        ensures
            opt_static(r) == self.spec_docs_url(),
    ;

    /// Short description shown in Settings.
    fn description(&self) -> (r: &'static str)
        ensures
            r@ == self.spec_description(),
    ;

    /// Environment variable an API key is read from (`None`: key entered by hand).
    fn env_var(&self) -> (r: Option<&'static str>)
        ensures
            opt_static(r) == self.spec_env_var(),
    ;

    /// Metadata for the Settings panel.
    fn meta(&self, enabled: bool, has_key: bool, env_present: bool) -> (m: ProviderMeta)
        ensures
            m.id@ == self.spec_id(),
            m.label@ == self.spec_label(),
            m.kind@ == self.spec_kind(),
            m.enabled == enabled,
            m.has_key == has_key,
            opt_str(m.env_var) == self.spec_env_var(),
            m.env_present == env_present,
            opt_str(m.docs_url) == self.spec_docs_url(),
            m.description@ == self.spec_description(),
    {
        ProviderMeta {
            id: owned(self.id()),
            label: owned(self.label()),
            kind: owned(self.kind()),
            enabled,
            has_key,
            env_var: opt_owned(self.env_var()),
            env_present,
            docs_url: opt_owned(self.docs_url()),
            description: owned(self.description()),
        }
    }
}

// ---------------------------------------------------------------------------
// States
// ---------------------------------------------------------------------------

/// Severity order: Ok < Warn < Danger < Unknown.
pub open spec fn severity(s: ProviderState) -> nat {
    match s {
        ProviderState::Good => 0,
        ProviderState::Warn => 1,
        ProviderState::Danger => 2,
        ProviderState::Unknown => 3,
    }
}

/// The worst state of a list; an empty list has no known state.
pub open spec fn worst_spec(s: Seq<ProviderState>) -> ProviderState
    decreases s.len(),
{
    if s.len() == 0 {
        ProviderState::Unknown
    } else if s.len() == 1 {
        s[0]
    } else {
        let w = worst_spec(s.drop_last());
        if severity(s.last()) > severity(w) {
            s.last()
        } else {
            w
        }
    }
}

/// The worst state across a list (Ok < Warn < Danger < Unknown); Unknown when empty.
pub fn worst(states: &[ProviderState]) -> (r: ProviderState)
    ensures
        r == worst_spec(states@),
{
    let n = states.len();
    if n == 0 {
        return ProviderState::Unknown;
    }
    let mut w = states[0];
    let mut i: usize = 1;
    while i < n
        invariant
            n == states@.len(),
            1 <= i <= n,
            w == worst_spec(states@.take(i as int)),
        decreases n - i,
    {
        assert(states@.take(i + 1).drop_last() =~= states@.take(i as int));
        let s = states[i];
        if rank(s) > rank(w) {
            w = s;
        }
        i = i + 1;
    }
    assert(states@.take(n as int) =~= states@);
    w
}

fn rank(s: ProviderState) -> (r: u8)
    ensures
        r == severity(s),
{
    match s {
        ProviderState::Good => 0,
        ProviderState::Warn => 1,
        ProviderState::Danger => 2,
        ProviderState::Unknown => 3,
    }
}

/// The worst state is one of the states, and none is worse than it.
pub proof fn lemma_worst_is_maximum(s: Seq<ProviderState>)
    requires
        s.len() > 0,
    ensures
        s.contains(worst_spec(s)),
        forall|i: int| 0 <= i < s.len() ==> severity(#[trigger] s[i]) <= severity(worst_spec(s)),
    decreases s.len(),
{
    if s.len() > 1 {
        let d = s.drop_last();
        lemma_worst_is_maximum(d);
        let w = worst_spec(d);
        let k = choose|k: int| 0 <= k < d.len() && d[k] == w;
        assert(s[k] == w);
        assert(s[s.len() - 1] == s.last());
        assert forall|i: int| 0 <= i < s.len() implies severity(#[trigger] s[i]) <= severity(
            worst_spec(s),
        ) by {
            if i < s.len() - 1 {
                assert(s[i] == d[i]);
            }
        }
    } else {
        assert(s[0] == worst_spec(s));
    }
}

/// Two states of equal severity are the same state.
proof fn lemma_severity_injective(x: ProviderState, y: ProviderState)
    requires
        severity(x) == severity(y),
    ensures
        x == y,
{
}

/// Lists with the same states have the same worst state.
proof fn lemma_worst_by_elements(a: Seq<ProviderState>, b: Seq<ProviderState>)
    requires
        a.len() > 0,
        b.len() > 0,
        forall|x: ProviderState| a.contains(x) <==> b.contains(x),
    ensures
        worst_spec(a) == worst_spec(b),
{
    lemma_worst_is_maximum(a);
    lemma_worst_is_maximum(b);
    let wa = worst_spec(a);
    let wb = worst_spec(b);
    assert(b.contains(wa));
    let i = choose|i: int| 0 <= i < b.len() && b[i] == wa;
    assert(severity(b[i]) <= severity(wb));
    assert(a.contains(wb));
    let j = choose|j: int| 0 <= j < a.len() && a[j] == wb;
    assert(severity(a[j]) <= severity(wa));
    lemma_severity_injective(wa, wb);
}

/// The worst state does not depend on the order of the states: a permutation
/// of a list has the same worst state.
pub proof fn lemma_worst_permutation(a: Seq<ProviderState>, p: Seq<ProviderState>)
    requires
        p.to_multiset() == a.to_multiset(),
    ensures
        worst_spec(p) == worst_spec(a),
{
    a.to_multiset_ensures();
    p.to_multiset_ensures();
    assert(p.len() == a.len()) by {
        assert(p.to_multiset().len() == a.to_multiset().len());
    }
    if a.len() > 0 {
        assert forall|x: ProviderState| a.contains(x) <==> p.contains(x) by {
            assert(a.to_multiset().count(x) == p.to_multiset().count(x));
            assert(a.contains(x) <==> a.to_multiset().count(x) > 0);
            assert(p.contains(x) <==> p.to_multiset().count(x) > 0);
        }
        lemma_worst_by_elements(a, p);
    }
}

/// The worst state of two non-empty lists together is the worse of their two
/// worst states.
pub proof fn lemma_worst_concat(a: Seq<ProviderState>, b: Seq<ProviderState>)
    requires
        a.len() > 0,
        b.len() > 0,
    ensures
        worst_spec(a + b) == worst_spec(seq![worst_spec(a), worst_spec(b)]),
{
    let c = a + b;
    let d = seq![worst_spec(a), worst_spec(b)];
    lemma_worst_is_maximum(a);
    lemma_worst_is_maximum(b);
    lemma_worst_is_maximum(c);
    lemma_worst_is_maximum(d);
    let wa = worst_spec(a);
    let wb = worst_spec(b);
    let wc = worst_spec(c);
    let wd = worst_spec(d);
    let k = choose|k: int| 0 <= k < c.len() && c[k] == wc;
    if k < a.len() {
        assert(a[k] == c[k]);
    } else {
        assert(b[k - a.len()] == c[k]);
    }
    assert(severity(d[0]) <= severity(wd) && severity(d[1]) <= severity(wd));
    let ia = choose|i: int| 0 <= i < a.len() && a[i] == wa;
    let ib = choose|i: int| 0 <= i < b.len() && b[i] == wb;
    assert(c[ia] == wa);
    assert(c[a.len() + ib] == wb);
    assert(severity(c[ia]) <= severity(wc));
    assert(severity(c[a.len() + ib]) <= severity(wc));
    assert(d.contains(wd));
    lemma_severity_injective(wc, wd);
}

/// State of a card from the states of its two metrics, each present or not.
pub open spec fn combined_state(a: Option<ProviderState>, b: Option<ProviderState>) -> ProviderState {
    match (a, b) {
        (Some(x), Some(y)) => worst_spec(seq![x, y]),
        (Some(x), None) => x,
        (None, Some(y)) => y,
        (None, None) => ProviderState::Unknown,
    }
}

pub fn combine_states(a: Option<ProviderState>, b: Option<ProviderState>) -> (r: ProviderState)
    ensures
        r == combined_state(a, b),
{
    match (a, b) {
        (Some(x), Some(y)) => {
            let v = [x, y];
            let r = worst(&v);
            assert(v@ =~= seq![x, y]);
            r
        },
        (Some(x), None) => x,
        (None, Some(y)) => y,
        (None, None) => ProviderState::Unknown,
    }
}

/// State of a card from where its remaining share stands against the user's
/// thresholds: below the danger line, below the warn line, or neither.
pub open spec fn threshold_state(below_danger: bool, below_warn: bool) -> ProviderState {
    if below_danger {
        ProviderState::Danger
    } else if below_warn {
        ProviderState::Warn
    } else {
        ProviderState::Good
    }
}

pub fn state_for_thresholds(below_danger: bool, below_warn: bool) -> (r: ProviderState)
    ensures
        r == threshold_state(below_danger, below_warn),
{
    if below_danger {
        ProviderState::Danger
    } else if below_warn {
        ProviderState::Warn
    } else {
        ProviderState::Good
    }
}

// ---------------------------------------------------------------------------
// Environment
// ---------------------------------------------------------------------------

/// Environment variables as the application read them (name, value).
pub struct EnvSnapshot {
    pub vars: Vec<(String, String)>,
}

/// Value of `key` in the snapshot (the first entry with that name).
pub open spec fn env_lookup(vars: Seq<(String, String)>, key: Seq<char>) -> Option<Seq<char>>
    decreases vars.len(),
{
    if vars.len() == 0 {
        None
    } else if vars[0].0@ == key {
        Some(vars[0].1@)
    } else {
        env_lookup(vars.drop_first(), key)
    }
}

/// A variable counts as set when it holds a non-empty value.
pub open spec fn env_value(e: EnvSnapshot, key: Seq<char>) -> Option<Seq<char>> {
    match env_lookup(e.vars@, key) {
        Some(v) => if v.len() > 0 {
            Some(v)
        } else {
            None
        },
        None => None,
    }
}

/// Read an environment variable (None when unset or empty).
pub fn env(e: &EnvSnapshot, key: &str) -> (r: Option<String>)
    ensures
        opt_str(r) == env_value(*e, key@),
{
    let n = e.vars.len();
    let mut i: usize = 0;
    assert(e.vars@.skip(0) =~= e.vars@);
    while i < n
        invariant
            n == e.vars@.len(),
            i <= n,
            env_lookup(e.vars@, key@) == env_lookup(e.vars@.skip(i as int), key@),
        decreases n - i,
    {
        assert(e.vars@.skip(i as int).drop_first() =~= e.vars@.skip(i + 1));
        if str_eq(e.vars[i].0.as_str(), key) {
            assert(e.vars@.skip(i as int)[0] == e.vars@[i as int]);
            let v = e.vars[i].1.as_str();
            if v.unicode_len() > 0 {
                return Some(owned(v));
            } else {
                return None;
            }
        }
        i = i + 1;
    }
    None
}

/// Whether the provider's key variable is set.
pub open spec fn env_present_for(e: EnvSnapshot, var: Option<Seq<char>>) -> bool {
    match var {
        Some(v) => env_value(e, v) is Some,
        None => false,
    }
}

pub fn env_present<P: Provider>(e: &EnvSnapshot, p: &P) -> (r: bool)
    ensures
        r == env_present_for(*e, p.spec_env_var()),
{
    match p.env_var() {
        Some(v) => env(e, v).is_some(),
        None => false,
    }
}

// ---------------------------------------------------------------------------
// Requests and responses
// ---------------------------------------------------------------------------

#[derive(Debug, Clone, Copy, PartialEq, Eq, Structural)]
pub enum HttpMethod {
    Get,
    Post,
}

/// An HTTP request the application sends on a provider's behalf.
#[derive(Debug)]
pub struct HttpRequest {
    pub method: HttpMethod,
    pub url: String,
    /// Bearer token for the `Authorization` header.
    pub bearer: Option<String>,
    pub headers: Vec<(String, String)>,
    /// Send an explicit empty body.
    pub empty_body: bool,
}

pub struct HeaderView {
    pub name: Seq<char>,
    pub value: Seq<char>,
}

pub open spec fn headers_view(h: Seq<(String, String)>) -> Seq<(Seq<char>, Seq<char>)> {
    h.map_values(|p: (String, String)| (p.0@, p.1@))
}

pub fn header(name: &str, value: &str) -> (r: (String, String))
    ensures
        r.0@ == name@,
        r.1@ == value@,
{
    (owned(name), owned(value))
}

/// Per-fetch context: the API key and the user's overrides for one provider.
#[derive(Debug)]
pub struct ProviderContext {
    pub api_key: Option<String>,
    pub warn_pct: u32,
    pub danger_pct: u32,
    pub custom_label: Option<String>,
    pub custom_endpoint: Option<String>,
}

/// The error for a missing API key.
pub fn missing_key(id: &str, source: &str) -> (r: AppError)
    ensures
        r matches AppError::MissingKey(p, v) && p@ == id@ && v@ == source@,
{
    AppError::MissingKey(owned(id), owned(source))
}

/// The error for a non-success answer: its status and the start of its body.
pub fn upstream_error(status: u16, body: &str, max: usize) -> (r: AppError)
    ensures
        r matches AppError::Upstream { status: s, body: b } && s == status && b@ == take_spec(
            body@,
            max as nat,
        ),
{
    AppError::Upstream { status, body: take_chars(body, max) }
}

/// The label a card shows: the user's own label, else the provider's.
pub fn display_label(custom: &Option<String>, default: &str) -> (r: String)
    ensures
        r@ == match custom {
            Some(c) => c@,
            None => default@,
        },
{
    match custom {
        Some(c) => c.clone(),
        None => owned(default),
    }
}

/// The label a card shows for a context.
pub open spec fn shown_label(custom: Option<String>, default: Seq<char>) -> Seq<char> {
    match custom {
        Some(c) => c@,
        None => default,
    }
}

/// `r` is the request described.
pub open spec fn request_is(
    r: HttpRequest,
    method: HttpMethod,
    url: Seq<char>,
    bearer: Option<Seq<char>>,
    headers: Seq<(Seq<char>, Seq<char>)>,
    empty_body: bool,
) -> bool {
    &&& r.method == method
    &&& r.url@ == url
    &&& opt_str(r.bearer) == bearer
    &&& headers_view(r.headers@) == headers
    &&& r.empty_body == empty_body
}

/// `s` is an informational status: a message in place of usage data.
pub open spec fn is_notice<N>(
    s: ProviderStatus<N>,
    id: Seq<char>,
    label: Seq<char>,
    kind: Seq<char>,
    message: Seq<char>,
    fetched_at: i64,
    latency_ms: u64,
) -> bool {
    &&& s.id@ == id
    &&& s.label@ == label
    &&& s.kind@ == kind
    &&& s.state == ProviderState::Unknown
    &&& s.primary is None
    &&& s.secondary is None
    &&& opt_str(s.error) == Some(message)
    &&& s.fetched_at == fetched_at
    &&& s.latency_ms == latency_ms
    &&& s.account_label is None
    &&& s.tags@.len() == 0
    &&& s.cost_estimate is None
}

/// An informational status for a provider whose usage cannot be read.
pub fn notice<N>(
    id: &str,
    custom_label: &Option<String>,
    default_label: &str,
    kind: &str,
    message: &str,
    fetched_at: i64,
    latency_ms: u64,
) -> (r: ProviderStatus<N>)
    ensures
        is_notice(r, id@, shown_label(*custom_label, default_label@), kind@, message@, fetched_at, latency_ms),
{
    status_without_metrics(
        id,
        display_label(custom_label, default_label),
        kind,
        ProviderState::Unknown,
        Some(owned(message)),
        None,
        fetched_at,
        latency_ms,
    )
}

/// `s` carries usage data as given.
pub open spec fn is_usage_status<N>(
    s: ProviderStatus<N>,
    id: Seq<char>,
    label: Seq<char>,
    kind: Seq<char>,
    state: ProviderState,
    fetched_at: i64,
    latency_ms: u64,
) -> bool {
    &&& s.id@ == id
    &&& s.label@ == label
    &&& s.kind@ == kind
    &&& s.state == state
    &&& s.error is None
    &&& s.fetched_at == fetched_at
    &&& s.latency_ms == latency_ms
    &&& s.tags@.len() == 0
}

/// A status with usage data.
pub fn usage_status<N>(
    id: &str,
    label: String,
    kind: &str,
    state: ProviderState,
    primary: Option<Metric<N>>,
    secondary: Option<Metric<N>>,
    account_label: Option<String>,
    cost_estimate: Option<N>,
    fetched_at: i64,
    latency_ms: u64,
) -> (r: ProviderStatus<N>)
    ensures
        is_usage_status(r, id@, label@, kind@, state, fetched_at, latency_ms),
        r.primary == primary,
        r.secondary == secondary,
        r.account_label == account_label,
        r.cost_estimate == cost_estimate,
{
    ProviderStatus {
        id: owned(id),
        label,
        kind: owned(kind),
        state,
        primary,
        secondary,
        error: None,
        fetched_at,
        latency_ms,
        account_label,
        tags: Vec::new(),
        cost_estimate,
    }
}

/// `m` is a metric with the given label and unit.
pub open spec fn is_metric<N>(m: Metric<N>, label: Seq<char>, used: N, limit: N, unit: Seq<char>, reset_at: Option<i64>) -> bool {
    &&& m.label@ == label
    &&& m.used == used
    &&& m.limit == limit
    &&& opt_str(m.unit) == Some(unit)
    &&& m.reset_at == reset_at
}

pub fn metric<N>(label: &str, used: N, limit: N, unit: &str, reset_at: Option<i64>) -> (r: Metric<N>)
    ensures
        is_metric(r, label@, used, limit, unit@, reset_at),
{
    Metric { label: owned(label), used, limit, unit: Some(owned(unit)), reset_at }
}

/// A status without metrics: an informational message in place of usage data.
pub fn status_without_metrics<N>(
    id: &str,
    label: String,
    kind: &str,
    state: ProviderState,
    error: Option<String>,
    account_label: Option<String>,
    fetched_at: i64,
    latency_ms: u64,
) -> (r: ProviderStatus<N>)
    ensures
        r.id@ == id@,
        r.label == label,
        r.kind@ == kind@,
        r.state == state,
        r.primary is None,
        r.secondary is None,
        r.error == error,
        r.fetched_at == fetched_at,
        r.latency_ms == latency_ms,
        r.account_label == account_label,
        r.tags@.len() == 0,
        r.cost_estimate is None,
{
    ProviderStatus {
        id: owned(id),
        label,
        kind: owned(kind),
        state,
        primary: None,
        secondary: None,
        error,
        fetched_at,
        latency_ms,
        account_label,
        tags: Vec::new(),
        cost_estimate: None,
    }
}

/// `StatusCode::is_success`: a 2xx status.
pub open spec fn success(code: u16) -> bool {
    200 <= code && code <= 299
}

pub fn is_success(code: u16) -> (r: bool)
    ensures
        r == success(code),
{
    200 <= code && code <= 299
}

/// Usage of a time-boxed subscription: the period length (at least one unit)
/// and how much of it has elapsed (never negative, never past the end).
pub open spec fn period_usage_spec(total: i64, elapsed: i64) -> (i64, i64) {
    let limit = if total < 1 { 1 } else { total };
    let e = if elapsed < 0 { 0 } else { elapsed };
    (if e < limit { e } else { limit }, limit)
}

/// `(used, limit)` of a subscription period from its length and elapsed part.
pub fn period_usage(total: i64, elapsed: i64) -> (r: (i64, i64))
    ensures
        r == period_usage_spec(total, elapsed),
        0 <= r.0 <= r.1,
        r.1 >= 1,
{
    let limit = if total < 1 { 1 } else { total };
    let e = if elapsed < 0 { 0 } else { elapsed };
    (if e < limit { e } else { limit }, limit)
}

/// What a provider that probes candidate usage paths does next.
#[derive(Debug)]
pub enum ProbeStep {
    /// Send probe number `attempt`.
    Send { attempt: usize, request: HttpRequest },
    /// The last answer holds usage data: read it.
    ReadUsage,
    /// The key was refused with this status: fail with the answer's body.
    Refused(u16),
    /// No path gave usage data: show the informational card.
    Exhausted,
}

/// What a probe of a candidate usage endpoint says.
#[derive(Debug, Clone, Copy, PartialEq, Eq, Structural)]
pub enum ProbeOutcome {
    /// HTTP 200: the body holds usage data.
    ReadUsage,
    /// 401 or 403: the key was refused.
    Refused,
    /// Anything else: the path does not exist, try the next one.
    TryNext,
}

pub open spec fn probe_outcome_spec(code: u16) -> ProbeOutcome {
    if code == 200 {
        ProbeOutcome::ReadUsage
    } else if code == 401 || code == 403 {
        ProbeOutcome::Refused
    } else {
        ProbeOutcome::TryNext
    }
}

pub fn probe_outcome(code: u16) -> (r: ProbeOutcome)
    ensures
        r == probe_outcome_spec(code),
{
    if code == 200 {
        ProbeOutcome::ReadUsage
    } else if code == 401 || code == 403 {
        ProbeOutcome::Refused
    } else {
        ProbeOutcome::TryNext
    }
}

/// The number a JSON object holds under `key`.
pub open spec fn number_field(v: JsonValue, key: Seq<char>) -> Option<JsonNumber> {
    match v.spec_get(key) {
        Some(JsonValue::Number(n)) => Some(n),
        _ => None,
    }
}

pub fn number_at<'a>(v: &'a JsonValue, key: &str) -> (r: Option<&'a JsonNumber>)
    ensures
        match r {
            Some(n) => number_field(*v, key@) == Some(*n),
            None => number_field(*v, key@) is None,
        },
{
    match v.get(key) {
        Some(x) => x.as_number(),
        None => None,
    }
}

/// The first of two fields that holds a number.
pub open spec fn either_number(v: JsonValue, a: Seq<char>, b: Seq<char>) -> Option<JsonNumber> {
    match number_field(v, a) {
        Some(n) => Some(n),
        None => number_field(v, b),
    }
}

pub fn number_at_either<'a>(v: &'a JsonValue, a: &str, b: &str) -> (r: Option<&'a JsonNumber>)
    ensures
        match r {
            Some(n) => either_number(*v, a@, b@) == Some(*n),
            None => either_number(*v, a@, b@) is None,
        },
{
    match number_at(v, a) {
        Some(n) => Some(n),
        None => number_at(v, b),
    }
}

/// The request for a usage endpoint with a bearer key and a JSON `Accept`.
pub fn bearer_get(url: String, key: &str, accept: &str) -> (r: HttpRequest)
    ensures
        request_is(r, HttpMethod::Get, url@, Some(key@), seq![("Accept"@, accept@)], false),
{
    let headers = vec![header("Accept", accept)];
    assert(headers_view(headers@) =~= seq![("Accept"@, accept@)]);
    HttpRequest { method: HttpMethod::Get, url, bearer: Some(owned(key)), headers, empty_body: false }
}

// ---------------------------------------------------------------------------
// The registry
// ---------------------------------------------------------------------------

/// One of the providers this application knows.
#[derive(Debug)]
pub enum RegisteredProvider {
    Ollama(OllamaProvider),
    Opencode(OpencodeProvider),
    Minimax(MinimaxProvider),
    Codex(CodexProvider),
    Anthropic(AnthropicProvider),
    Cursor(CursorProvider),
    GithubCopilot(GithubCopilotProvider),
    Openai(OpenaiProvider),
    Zai(ZaiProvider),
}

impl Provider for RegisteredProvider {
    open spec fn spec_id(&self) -> Seq<char> {
        match self {
            RegisteredProvider::Ollama(p) => p.spec_id(),
            RegisteredProvider::Opencode(p) => p.spec_id(),
            RegisteredProvider::Minimax(p) => p.spec_id(),
            RegisteredProvider::Codex(p) => p.spec_id(),
            RegisteredProvider::Anthropic(p) => p.spec_id(),
            RegisteredProvider::Cursor(p) => p.spec_id(),
            RegisteredProvider::GithubCopilot(p) => p.spec_id(),
            RegisteredProvider::Openai(p) => p.spec_id(),
            RegisteredProvider::Zai(p) => p.spec_id(),
        }
    }

    open spec fn spec_label(&self) -> Seq<char> {
        match self {
            RegisteredProvider::Ollama(p) => p.spec_label(),
            RegisteredProvider::Opencode(p) => p.spec_label(),
            RegisteredProvider::Minimax(p) => p.spec_label(),
            RegisteredProvider::Codex(p) => p.spec_label(),
            RegisteredProvider::Anthropic(p) => p.spec_label(),
            RegisteredProvider::Cursor(p) => p.spec_label(),
            RegisteredProvider::GithubCopilot(p) => p.spec_label(),
            RegisteredProvider::Openai(p) => p.spec_label(),
            RegisteredProvider::Zai(p) => p.spec_label(),
        }
    }

    open spec fn spec_kind(&self) -> Seq<char> {
        match self {
            RegisteredProvider::Ollama(p) => p.spec_kind(),
            RegisteredProvider::Opencode(p) => p.spec_kind(),
            RegisteredProvider::Minimax(p) => p.spec_kind(),
            RegisteredProvider::Codex(p) => p.spec_kind(),
            RegisteredProvider::Anthropic(p) => p.spec_kind(),
            RegisteredProvider::Cursor(p) => p.spec_kind(),
            RegisteredProvider::GithubCopilot(p) => p.spec_kind(),
            RegisteredProvider::Openai(p) => p.spec_kind(),
            RegisteredProvider::Zai(p) => p.spec_kind(),
        }
    }

    open spec fn spec_docs_url(&self) -> Option<Seq<char>> {
        match self {
            RegisteredProvider::Ollama(p) => p.spec_docs_url(),
            RegisteredProvider::Opencode(p) => p.spec_docs_url(),
            RegisteredProvider::Minimax(p) => p.spec_docs_url(),
            RegisteredProvider::Codex(p) => p.spec_docs_url(),
            RegisteredProvider::Anthropic(p) => p.spec_docs_url(),
            RegisteredProvider::Cursor(p) => p.spec_docs_url(),
            RegisteredProvider::GithubCopilot(p) => p.spec_docs_url(),
            RegisteredProvider::Openai(p) => p.spec_docs_url(),
            RegisteredProvider::Zai(p) => p.spec_docs_url(),
        }
    }

    open spec fn spec_description(&self) -> Seq<char> {
        match self {
            RegisteredProvider::Ollama(p) => p.spec_description(),
            RegisteredProvider::Opencode(p) => p.spec_description(),
            RegisteredProvider::Minimax(p) => p.spec_description(),
            RegisteredProvider::Codex(p) => p.spec_description(),
            RegisteredProvider::Anthropic(p) => p.spec_description(),
            RegisteredProvider::Cursor(p) => p.spec_description(),
            RegisteredProvider::GithubCopilot(p) => p.spec_description(),
            RegisteredProvider::Openai(p) => p.spec_description(),
            RegisteredProvider::Zai(p) => p.spec_description(),
        }
    }

    open spec fn spec_env_var(&self) -> Option<Seq<char>> {
        match self {
            RegisteredProvider::Ollama(p) => p.spec_env_var(),
            RegisteredProvider::Opencode(p) => p.spec_env_var(),
            RegisteredProvider::Minimax(p) => p.spec_env_var(),
            RegisteredProvider::Codex(p) => p.spec_env_var(),
            RegisteredProvider::Anthropic(p) => p.spec_env_var(),
            RegisteredProvider::Cursor(p) => p.spec_env_var(),
            RegisteredProvider::GithubCopilot(p) => p.spec_env_var(),
            RegisteredProvider::Openai(p) => p.spec_env_var(),
            RegisteredProvider::Zai(p) => p.spec_env_var(),
        }
    }

    fn id(&self) -> &'static str {
        match self {
            RegisteredProvider::Ollama(p) => p.id(),
            RegisteredProvider::Opencode(p) => p.id(),
            RegisteredProvider::Minimax(p) => p.id(),
            RegisteredProvider::Codex(p) => p.id(),
            RegisteredProvider::Anthropic(p) => p.id(),
            RegisteredProvider::Cursor(p) => p.id(),
            RegisteredProvider::GithubCopilot(p) => p.id(),
            RegisteredProvider::Openai(p) => p.id(),
            RegisteredProvider::Zai(p) => p.id(),
        }
    }

    fn label(&self) -> &'static str {
        match self {
            RegisteredProvider::Ollama(p) => p.label(),
            RegisteredProvider::Opencode(p) => p.label(),
            RegisteredProvider::Minimax(p) => p.label(),
            RegisteredProvider::Codex(p) => p.label(),
            RegisteredProvider::Anthropic(p) => p.label(),
            RegisteredProvider::Cursor(p) => p.label(),
            RegisteredProvider::GithubCopilot(p) => p.label(),
            RegisteredProvider::Openai(p) => p.label(),
            RegisteredProvider::Zai(p) => p.label(),
        }
    }

    fn kind(&self) -> &'static str {
        match self {
            RegisteredProvider::Ollama(p) => p.kind(),
            RegisteredProvider::Opencode(p) => p.kind(),
            RegisteredProvider::Minimax(p) => p.kind(),
            RegisteredProvider::Codex(p) => p.kind(),
            RegisteredProvider::Anthropic(p) => p.kind(),
            RegisteredProvider::Cursor(p) => p.kind(),
            RegisteredProvider::GithubCopilot(p) => p.kind(),
            RegisteredProvider::Openai(p) => p.kind(),
            RegisteredProvider::Zai(p) => p.kind(),
        }
    }

    fn docs_url(&self) -> Option<&'static str> {
        match self {
            RegisteredProvider::Ollama(p) => p.docs_url(),
            RegisteredProvider::Opencode(p) => p.docs_url(),
            RegisteredProvider::Minimax(p) => p.docs_url(),
            RegisteredProvider::Codex(p) => p.docs_url(),
            RegisteredProvider::Anthropic(p) => p.docs_url(),
            RegisteredProvider::Cursor(p) => p.docs_url(),
            RegisteredProvider::GithubCopilot(p) => p.docs_url(),
            RegisteredProvider::Openai(p) => p.docs_url(),
            RegisteredProvider::Zai(p) => p.docs_url(),
        }
    }

    fn description(&self) -> &'static str {
        match self {
            RegisteredProvider::Ollama(p) => p.description(),
            RegisteredProvider::Opencode(p) => p.description(),
            RegisteredProvider::Minimax(p) => p.description(),
            RegisteredProvider::Codex(p) => p.description(),
            RegisteredProvider::Anthropic(p) => p.description(),
            RegisteredProvider::Cursor(p) => p.description(),
            RegisteredProvider::GithubCopilot(p) => p.description(),
            RegisteredProvider::Openai(p) => p.description(),
            RegisteredProvider::Zai(p) => p.description(),
        }
    }

    fn env_var(&self) -> Option<&'static str> {
        match self {
            RegisteredProvider::Ollama(p) => p.env_var(),
            RegisteredProvider::Opencode(p) => p.env_var(),
            RegisteredProvider::Minimax(p) => p.env_var(),
            RegisteredProvider::Codex(p) => p.env_var(),
            RegisteredProvider::Anthropic(p) => p.env_var(),
            RegisteredProvider::Cursor(p) => p.env_var(),
            RegisteredProvider::GithubCopilot(p) => p.env_var(),
            RegisteredProvider::Openai(p) => p.env_var(),
            RegisteredProvider::Zai(p) => p.env_var(),
        }
    }
}

/// The providers shown, in order (the first is shown first).
pub open spec fn registry_ids() -> Seq<Seq<char>> {
    seq!["ollama"@, "opencode"@, "minimax"@, "codex"@]
}

/// Build the provider registry.
pub fn build_registry() -> (r: Vec<RegisteredProvider>)
    ensures
        r@.len() == 4,
        r@[0] is Ollama,
        r@[1] is Opencode,
        r@[2] is Minimax,
        r@[3] is Codex,
        r@.map_values(|p: RegisteredProvider| p.spec_id()) == registry_ids(),
{
    let r = vec![
        RegisteredProvider::Ollama(OllamaProvider),
        RegisteredProvider::Opencode(OpencodeProvider),
        RegisteredProvider::Minimax(MinimaxProvider),
        RegisteredProvider::Codex(CodexProvider),
    ];
    assert(r@.map_values(|p: RegisteredProvider| p.spec_id()) =~= registry_ids());
    r
}

/// Metadata of every provider as the environment alone determines it: each is
/// listed enabled, with a key exactly when its variable is set.
pub fn env_summary(registry: &[RegisteredProvider], e: &EnvSnapshot) -> (r: Vec<ProviderMeta>)
    ensures
        r@.len() == registry@.len(),
        forall|i: int|
            0 <= i < registry@.len() ==> {
                let p = #[trigger] registry@[i];
                let m = r@[i];
                let present = env_present_for(*e, p.spec_env_var());
                &&& m.id@ == p.spec_id()
                &&& m.label@ == p.spec_label()
                &&& m.kind@ == p.spec_kind()
                &&& m.enabled
                &&& m.has_key == present
                &&& m.env_present == present
                &&& opt_str(m.env_var) == p.spec_env_var()
                &&& opt_str(m.docs_url) == p.spec_docs_url()
                &&& m.description@ == p.spec_description()
            },
{
    let mut r: Vec<ProviderMeta> = Vec::new();
    let n = registry.len();
    let mut i: usize = 0;
    while i < n
        invariant
            n == registry@.len(),
            i <= n,
            r@.len() == i,
            forall|j: int|
                0 <= j < i ==> {
                    let p = #[trigger] registry@[j];
                    let m = r@[j];
                    let present = env_present_for(*e, p.spec_env_var());
                    &&& m.id@ == p.spec_id()
                    &&& m.label@ == p.spec_label()
                    &&& m.kind@ == p.spec_kind()
                    &&& m.enabled
                    &&& m.has_key == present
                    &&& m.env_present == present
                    &&& opt_str(m.env_var) == p.spec_env_var()
                    &&& opt_str(m.docs_url) == p.spec_docs_url()
                    &&& m.description@ == p.spec_description()
                },
        decreases n - i,
    {
        let p = &registry[i];
        let present = env_present(e, p);
        r.push(p.meta(true, present, present));
        i = i + 1;
    }
    r
}

} // verus!
