//! The registry of providers and what a refresh asks of each of them.
use crate::errors::AppError;
use crate::models::{
    find_entry, lemma_provider_map_lookup, opt_str, AppConfig, AppConfigView, ProviderMeta,
    ProviderState, ProviderStatus, ProviderUserConfigView,
};
use crate::provider::{
    env, env_present, env_present_for, env_value, opt_static, status_without_metrics, EnvSnapshot,
    Provider, ProviderContext, RegisteredProvider,
};
use crate::text::{owned, str_eq};
use vstd::prelude::*;

verus! {

/// Whether a key variable is set, per provider (Settings uses this to show hints).
#[derive(Debug)]
pub struct EnvKeyStatus {
    pub id: String,
    pub env_var: String,
    pub present: bool,
}

/// All known providers, in display order.
pub struct ProviderRegistry {
    inner: Vec<RegisteredProvider>,
}

/// The user's settings for a provider, if any.
pub open spec fn user_settings(c: AppConfigView, id: Seq<char>) -> Option<ProviderUserConfigView> {
    if c.providers.dom().contains(id) {
        Some(c.providers[id])
    } else {
        None
    }
}

/// A provider is polled only when the user enabled it.
pub open spec fn is_enabled(c: AppConfigView, id: Seq<char>) -> bool {
    match user_settings(c, id) {
        Some(u) => u.enabled == Some(true),
        None => false,
    }
}

/// Whether the user pasted a key for the provider.
pub open spec fn has_custom_key(c: AppConfigView, id: Seq<char>) -> bool {
    match user_settings(c, id) {
        Some(u) => u.custom_api_key is Some,
        None => false,
    }
}

/// The key a fetch uses: the pasted key, else the environment variable.
pub open spec fn api_key_for(c: AppConfigView, e: EnvSnapshot, id: Seq<char>, var: Option<Seq<char>>) -> Option<Seq<char>> {
    match user_settings(c, id) {
        Some(u) if u.custom_api_key is Some => u.custom_api_key,
        _ => match var {
            Some(v) => env_value(e, v),
            None => None,
        },
    }
}

pub open spec fn custom_label_for(c: AppConfigView, id: Seq<char>) -> Option<Seq<char>> {
    match user_settings(c, id) {
        Some(u) => u.custom_label,
        None => None,
    }
}

pub open spec fn custom_endpoint_for(c: AppConfigView, id: Seq<char>) -> Option<Seq<char>> {
    match user_settings(c, id) {
        Some(u) => u.custom_endpoint,
        None => None,
    }
}

/// The context a provider is fetched with.
pub open spec fn context_matches(x: ProviderContext, c: AppConfigView, e: EnvSnapshot, p: RegisteredProvider) -> bool {
    &&& opt_str(x.api_key) == api_key_for(c, e, p.spec_id(), p.spec_env_var())
    &&& x.warn_pct == c.warn_threshold_pct
    &&& x.danger_pct == c.danger_threshold_pct
    &&& opt_str(x.custom_label) == custom_label_for(c, p.spec_id())
    &&& opt_str(x.custom_endpoint) == custom_endpoint_for(c, p.spec_id())
}

/// The Settings metadata of a provider under a configuration.
pub open spec fn meta_matches(m: ProviderMeta, c: AppConfigView, e: EnvSnapshot, p: RegisteredProvider) -> bool {
    let present = env_present_for(e, p.spec_env_var());
    &&& m.id@ == p.spec_id()
    &&& m.label@ == p.spec_label()
    &&& m.kind@ == p.spec_kind()
    &&& m.enabled == is_enabled(c, p.spec_id())
    &&& m.has_key == (present || has_custom_key(c, p.spec_id()))
    &&& m.env_present == present
    &&& opt_str(m.env_var) == p.spec_env_var()
    &&& opt_str(m.docs_url) == p.spec_docs_url()
    &&& m.description@ == p.spec_description()
}

/// The context a provider is fetched with carries the user's settings for it:
/// the label and endpoint the user set (none without settings), the key pasted
/// in Settings or else the value of the provider's environment variable, and
/// the configured warn and danger thresholds.
pub proof fn lemma_context_carries_settings(x: ProviderContext, c: AppConfigView, e: EnvSnapshot, p: RegisteredProvider)
    requires
        context_matches(x, c, e, p),
    ensures
        c.providers.dom().contains(p.spec_id()) ==> opt_str(x.custom_label) == c.providers[p.spec_id()].custom_label,
        c.providers.dom().contains(p.spec_id()) ==> opt_str(x.custom_endpoint)
            == c.providers[p.spec_id()].custom_endpoint,
        !c.providers.dom().contains(p.spec_id()) ==> x.custom_label is None && x.custom_endpoint is None,
        c.providers.dom().contains(p.spec_id()) && c.providers[p.spec_id()].custom_api_key is Some ==> opt_str(
            x.api_key,
        ) == c.providers[p.spec_id()].custom_api_key,
        !(c.providers.dom().contains(p.spec_id()) && c.providers[p.spec_id()].custom_api_key is Some) ==> opt_str(
            x.api_key,
        ) == match p.spec_env_var() {
            Some(v) => env_value(e, v),
            None => None,
        },
        x.warn_pct == c.warn_threshold_pct,
        x.danger_pct == c.danger_threshold_pct,
{
}

/// A provider's Settings entry reports a key exactly when its environment
/// variable holds a non-empty value or the user pasted a key for it, and
/// reports it enabled exactly when the user's settings enable it.
pub proof fn lemma_meta_reports_keys(m: ProviderMeta, c: AppConfigView, e: EnvSnapshot, p: RegisteredProvider)
    requires
        meta_matches(m, c, e, p),
    ensures
        m.has_key == ((match p.spec_env_var() {
            Some(v) => env_value(e, v) is Some,
            None => false,
        }) || (c.providers.dom().contains(p.spec_id()) && c.providers[p.spec_id()].custom_api_key is Some)),
        m.env_present == (match p.spec_env_var() {
            Some(v) => env_value(e, v) is Some,
            None => false,
        }),
        m.enabled == (c.providers.dom().contains(p.spec_id()) && c.providers[p.spec_id()].enabled == Some(true)),
{
}

fn clone_opt(o: &Option<String>) -> (r: Option<String>)
    ensures
        opt_str(r) == opt_str(*o),
{
    match o {
        Some(s) => Some(s.clone()),
        None => None,
    }
}

/// The user's settings for `id`, read from the configuration.
fn lookup<'a>(cfg: &'a AppConfig, id: &str) -> (r: Option<&'a crate::models::ProviderUserConfig>)
    ensures
        match r {
            Some(u) => user_settings(cfg@, id@) == Some(u@),
            None => user_settings(cfg@, id@) is None,
        },
{
    match find_entry(&cfg.providers, id) {
        Some(i) => {
            proof {
                lemma_provider_map_lookup(cfg.providers@, id@, i as int);
            }
            Some(&cfg.providers[i].1)
        },
        None => {
            proof {
                lemma_provider_map_lookup(cfg.providers@, id@, cfg.providers@.len() as int);
            }
            None
        },
    }
}

/// The context for fetching provider `p` under `cfg`.
pub fn context_for(p: &RegisteredProvider, cfg: &AppConfig, e: &EnvSnapshot) -> (r: ProviderContext)
    ensures
        context_matches(r, cfg@, *e, *p),
{
    let user = lookup(cfg, p.id());
    let env_key = match p.env_var() {
        Some(v) => env(e, v),
        None => None,
    };
    let (api_key, custom_label, custom_endpoint) = match user {
        Some(u) => {
            let k = match &u.custom_api_key {
                Some(k) => Some(k.clone()),
                None => env_key,
            };
            (k, clone_opt(&u.custom_label), clone_opt(&u.custom_endpoint))
        },
        None => (env_key, None, None),
    };
    ProviderContext {
        api_key,
        warn_pct: cfg.warn_threshold_pct,
        danger_pct: cfg.danger_threshold_pct,
        custom_label,
        custom_endpoint,
    }
}

impl ProviderRegistry {
    /// The providers, in order.
    pub closed spec fn providers(&self) -> Seq<RegisteredProvider> {
        self.inner@
    }

    pub fn new(providers: Vec<RegisteredProvider>) -> (r: ProviderRegistry)
        ensures
            r.providers() == providers@,
    {
        ProviderRegistry { inner: providers }
    }

    /// The first provider with the given id.
    pub fn get(&self, id: &str) -> (r: Option<&RegisteredProvider>)
        ensures
            match r {
                Some(p) => exists|i: int|
                    0 <= i < self.providers().len() && self.providers()[i] == *p && p.spec_id()
                        == id@ && forall|j: int|
                        0 <= j < i ==> (#[trigger] self.providers()[j]).spec_id() != id@,
                None => forall|j: int|
                    0 <= j < self.providers().len() ==> (#[trigger] self.providers()[j]).spec_id()
                        != id@,
            },
    {
        let n = self.inner.len();
        let mut i: usize = 0;
        while i < n
            invariant
                n == self.inner@.len(),
                i <= n,
                forall|j: int| 0 <= j < i ==> (#[trigger] self.inner@[j]).spec_id() != id@,
            decreases n - i,
        {
            if str_eq(self.inner[i].id(), id) {
                let r = &self.inner[i];
                assert(0 <= i < self.providers().len() && self.providers()[i as int] == *r);
                return Some(r);
            }
            i = i + 1;
        }
        None
    }

    pub fn all(&self) -> (r: &[RegisteredProvider])
        ensures
            r@ == self.providers(),
    {
        self.inner.as_slice()
    }

    /// Settings metadata of every provider, from the environment and the configuration.
    pub fn metas(&self, cfg: &AppConfig, e: &EnvSnapshot) -> (r: Vec<ProviderMeta>)
        ensures
            r@.len() == self.providers().len(),
            forall|i: int|
                0 <= i < r@.len() ==> meta_matches(#[trigger] r@[i], cfg@, *e, self.providers()[i]),
    {
        let mut r: Vec<ProviderMeta> = Vec::new();
        let n = self.inner.len();
        let mut i: usize = 0;
        while i < n
            invariant
                n == self.inner@.len(),
                i <= n,
                r@.len() == i,
                forall|j: int|
                    0 <= j < i ==> meta_matches(#[trigger] r@[j], cfg@, *e, self.inner@[j]),
            decreases n - i,
        {
            let p = &self.inner[i];
            let present = env_present(e, p);
            let user = lookup(cfg, p.id());
            let (enabled, custom_key) = match user {
                Some(u) => (
                    match u.enabled {
                        Some(b) => b,
                        None => false,
                    },
                    u.custom_api_key.is_some(),
                ),
                None => (false, false),
            };
            r.push(p.meta(enabled, present || custom_key, present));
            i = i + 1;
        }
        r
    }

    /// The providers a refresh fetches (the enabled ones, in order), each with its context.
    pub fn refresh_plan(&self, cfg: &AppConfig, e: &EnvSnapshot) -> (r: Vec<(usize, ProviderContext)>)
        ensures
            forall|k: int|
                0 <= k < r@.len() ==> {
                    let (i, x) = #[trigger] r@[k];
                    &&& i < self.providers().len()
                    &&& is_enabled(cfg@, self.providers()[i as int].spec_id())
                    &&& context_matches(x, cfg@, *e, self.providers()[i as int])
                },
            forall|k1: int, k2: int| 0 <= k1 < k2 < r@.len() ==> #[trigger] r@[k1].0 < #[trigger] r@[k2].0,
            forall|i: int|
                0 <= i < self.providers().len() && is_enabled(cfg@, #[trigger] self.providers()[i].spec_id())
                    ==> exists|k: int| 0 <= k < r@.len() && r@[k].0 == i,
    {
        let mut r: Vec<(usize, ProviderContext)> = Vec::new();
        let n = self.inner.len();
        let mut i: usize = 0;
        while i < n
            invariant
                n == self.inner@.len(),
                i <= n,
                forall|k: int|
                    0 <= k < r@.len() ==> {
                        let (j, x) = #[trigger] r@[k];
                        &&& j < i
                        &&& is_enabled(cfg@, self.inner@[j as int].spec_id())
                        &&& context_matches(x, cfg@, *e, self.inner@[j as int])
                    },
                forall|k1: int, k2: int| 0 <= k1 < k2 < r@.len() ==> #[trigger] r@[k1].0 < #[trigger] r@[k2].0,
                forall|j: int|
                    0 <= j < i && is_enabled(cfg@, #[trigger] self.inner@[j].spec_id()) ==> exists|k: int|
                        0 <= k < r@.len() && r@[k].0 == j,
            decreases n - i,
        {
            let p = &self.inner[i];
            let enabled = match lookup(cfg, p.id()) {
                Some(u) => match u.enabled {
                    Some(b) => b,
                    None => false,
                },
                None => false,
            };
            if enabled {
                let ghost before = r@;
                r.push((i, context_for(p, cfg, e)));
                assert forall|j: int|
                    0 <= j < i + 1 && is_enabled(cfg@, #[trigger] self.inner@[j].spec_id()) implies exists|k: int|
                    0 <= k < r@.len() && r@[k].0 == j by {
                    if j < i {
                        let k = choose|k: int| 0 <= k < before.len() && before[k].0 == j;
                        assert(r@[k] == before[k]);
                    } else {
                        assert(r@[r@.len() - 1].0 == j);
                    }
                }
            }
            i = i + 1;
        }
        r
    }

    /// The provider a single refresh fetches, with its context.
    pub fn refresh_one_plan(&self, id: &str, cfg: &AppConfig, e: &EnvSnapshot) -> (r: Result<
        (&RegisteredProvider, ProviderContext),
        AppError,
    >)
        ensures
            match r {
                Ok((p, x)) => p.spec_id() == id@ && self.providers().contains(*p) && context_matches(
                    x,
                    cfg@,
                    *e,
                    *p,
                ),
                Err(err) => (err matches AppError::ProviderNotFound(m) && m@ == id@) && forall|j: int|
                    0 <= j < self.providers().len() ==> (#[trigger] self.providers()[j]).spec_id()
                        != id@,
            },
    {
        match self.get(id) {
            Some(p) => {
                let x = context_for(p, cfg, e);
                Ok((p, x))
            },
            None => Err(AppError::ProviderNotFound(owned(id))),
        }
    }
}

/// The status a failed fetch is shown as: the error message, no metrics, state Unknown.
pub fn failed_status<N>(id: &str, message: String, fetched_at: i64, latency_ms: u64) -> (r: ProviderStatus<N>)
    ensures
        r.id@ == id@,
        r.label@ == id@,
        r.kind@ == "unknown"@,
        r.state == ProviderState::Unknown,
        r.primary is None,
        r.secondary is None,
        r.error == Some(message),
        r.fetched_at == fetched_at,
        r.latency_ms == latency_ms,
        r.account_label is None,
        r.tags@.len() == 0,
        r.cost_estimate is None,
{
    status_without_metrics(id, owned(id), "unknown", ProviderState::Unknown, Some(message), None, fetched_at, latency_ms)
}

/// Record when a status was fetched and how long the fetch took.
pub fn stamp<N>(s: &mut ProviderStatus<N>, fetched_at: i64, latency_ms: u64)
    ensures
        final(s).fetched_at == fetched_at,
        final(s).latency_ms == latency_ms,
        final(s).id == old(s).id,
        final(s).label == old(s).label,
        final(s).kind == old(s).kind,
        final(s).state == old(s).state,
        final(s).primary == old(s).primary,
        final(s).secondary == old(s).secondary,
        final(s).error == old(s).error,
        final(s).account_label == old(s).account_label,
        final(s).tags == old(s).tags,
        final(s).cost_estimate == old(s).cost_estimate,
{
    s.fetched_at = fetched_at;
    s.latency_ms = latency_ms;
}

/// Key-variable presence for each provider that reads one, in registry order.
pub open spec fn env_key_statuses(ps: Seq<RegisteredProvider>, e: EnvSnapshot) -> Seq<(Seq<char>, Seq<char>, bool)>
    decreases ps.len(),
{
    if ps.len() == 0 {
        Seq::empty()
    } else {
        let r = env_key_statuses(ps.drop_last(), e);
        match ps.last().spec_env_var() {
            Some(v) => r.push((ps.last().spec_id(), v, env_value(e, v) is Some)),
            None => r,
        }
    }
}

pub open spec fn key_status_view(s: EnvKeyStatus) -> (Seq<char>, Seq<char>, bool) {
    (s.id@, s.env_var@, s.present)
}

/// Which providers' key variables are set.
pub fn check_env_keys(registry: &ProviderRegistry, e: &EnvSnapshot) -> (r: Vec<EnvKeyStatus>)
    ensures
        r@.map_values(|s: EnvKeyStatus| key_status_view(s)) == env_key_statuses(registry.providers(), *e),
{
    let ps = registry.all();
    let mut r: Vec<EnvKeyStatus> = Vec::new();
    let n = ps.len();
    let mut i: usize = 0;
    while i < n
        invariant
            n == ps@.len(),
            ps@ == registry.providers(),
            i <= n,
            r@.map_values(|s: EnvKeyStatus| key_status_view(s)) == env_key_statuses(ps@.take(i as int), *e),
        decreases n - i,
    {
        assert(ps@.take(i + 1).drop_last() =~= ps@.take(i as int));
        let p = &ps[i];
        match p.env_var() {
            Some(v) => {
                let ghost before = r@;
                let present = env(e, v).is_some();
                r.push(EnvKeyStatus { id: owned(p.id()), env_var: owned(v), present });
                assert(r@.map_values(|s: EnvKeyStatus| key_status_view(s)) =~= before.map_values(
                    |s: EnvKeyStatus| key_status_view(s),
                ).push((p.spec_id(), v@, env_value(*e, v@) is Some)));
            },
            None => {},
        }
        i = i + 1;
    }
    assert(ps@.take(n as int) =~= ps@);
    r
}

} // verus!
