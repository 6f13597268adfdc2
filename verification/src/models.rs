//! Data model shared by the providers, the configuration and the notifier.
use crate::json::JsonNumber;
use crate::text::{owned, str_eq};
use vstd::prelude::*;

verus! {

/// One row of usage data shown on a provider card. `N` is the numeric type of
/// the amounts (the application uses 64-bit floats).
#[derive(Debug)]
pub struct Metric<N> {
    pub label: String,
    pub used: N,
    pub limit: N,
    pub unit: Option<String>,
    /// Epoch milliseconds at which the bucket resets (`None`: no reset window).
    pub reset_at: Option<i64>,
}

/// State derived from metrics, used for color coding.
#[derive(Debug, Clone, Copy, PartialEq, Eq, Structural)]
pub enum ProviderState {
    /// Enough remaining (serialised as `"ok"`).
    Good,
    Warn,
    Danger,
    Unknown,
}

/// Live status of one provider.
#[derive(Debug)]
pub struct ProviderStatus<N> {
    pub id: String,
    pub label: String,
    pub kind: String,
    pub state: ProviderState,
    pub primary: Option<Metric<N>>,
    pub secondary: Option<Metric<N>>,
    /// Last fetch error, if any.
    pub error: Option<String>,
    pub fetched_at: i64,
    pub latency_ms: u64,
    pub account_label: Option<String>,
    pub tags: Vec<String>,
    pub cost_estimate: Option<N>,
}

/// Provider metadata shown in Settings.
#[derive(Debug)]
pub struct ProviderMeta {
    pub id: String,
    pub label: String,
    /// "llm_api", "subscription" or "cli_local".
    pub kind: String,
    pub enabled: bool,
    pub has_key: bool,
    /// Environment variable that this provider reads an API key from.
    pub env_var: Option<String>,
    /// Whether that variable is set to a non-empty value.
    pub env_present: bool,
    pub docs_url: Option<String>,
    pub description: String,
}

/// One of several API keys configured for a provider.
#[derive(Debug)]
pub struct AccountConfig {
    pub label: Option<String>,
    pub api_key: Option<String>,
    pub enabled: Option<bool>,
}

/// Per-provider user settings.
#[derive(Debug)]
pub struct ProviderUserConfig {
    pub enabled: Option<bool>,
    pub custom_label: Option<String>,
    pub custom_api_key: Option<String>,
    pub custom_endpoint: Option<String>,
    pub accounts: Vec<AccountConfig>,
    /// Cost per unit, as the JSON number the user entered.
    pub cost_per_unit: Option<JsonNumber>,
    pub tags: Vec<String>,
    /// Hidden from the dashboard (still polled when enabled).
    pub hidden: bool,
}

/// Persisted application configuration.
///
/// `providers` maps a provider id to its settings; the first entry with a
/// given id is the one in force.
#[derive(Debug)]
pub struct AppConfig {
    pub poll_interval_sec: u64,
    pub warn_threshold_pct: u32,
    pub danger_threshold_pct: u32,
    /// Remaining percentage below which a toast fires.
    pub toast_threshold_pct: u32,
    pub notify_enabled: bool,
    pub autostart_enabled: bool,
    pub auto_update: bool,
    /// Hide to tray instead of quitting when the main window is closed.
    pub minimize_to_tray: bool,
    pub startup_delay_sec: u64,
    /// "en-US" or "zh-CN".
    pub language: String,
    /// "dark" or "light".
    pub theme: String,
    /// Do Not Disturb start, "HH:MM".
    pub dnd_start: Option<String>,
    /// Do Not Disturb end, "HH:MM".
    pub dnd_end: Option<String>,
    /// Global hotkey that toggles the window; empty disables it.
    pub hotkey: String,
    pub sync_gist_token: Option<String>,
    pub sync_gist_id: Option<String>,
    pub providers: Vec<(String, ProviderUserConfig)>,
}

// ---------------------------------------------------------------------------
// Views
// ---------------------------------------------------------------------------

pub open spec fn opt_str(o: Option<String>) -> Option<Seq<char>> {
    match o {
        Some(s) => Some(s@),
        None => None,
    }
}

pub open spec fn strs(v: Seq<String>) -> Seq<Seq<char>> {
    v.map_values(|s: String| s@)
}

pub struct NumberView {
    pub unsigned: Option<u64>,
    pub text: Seq<char>,
}

pub open spec fn number_view(n: JsonNumber) -> NumberView {
    NumberView { unsigned: n.unsigned, text: n.text@ }
}

pub struct AccountConfigView {
    pub label: Option<Seq<char>>,
    pub api_key: Option<Seq<char>>,
    pub enabled: Option<bool>,
}

impl View for AccountConfig {
    type V = AccountConfigView;

    open spec fn view(&self) -> AccountConfigView {
        AccountConfigView {
            label: opt_str(self.label),
            api_key: opt_str(self.api_key),
            enabled: self.enabled,
        }
    }
}

pub struct ProviderUserConfigView {
    pub enabled: Option<bool>,
    pub custom_label: Option<Seq<char>>,
    pub custom_api_key: Option<Seq<char>>,
    pub custom_endpoint: Option<Seq<char>>,
    pub accounts: Seq<AccountConfigView>,
    pub cost_per_unit: Option<NumberView>,
    pub tags: Seq<Seq<char>>,
    pub hidden: bool,
}

impl View for ProviderUserConfig {
    type V = ProviderUserConfigView;

    open spec fn view(&self) -> ProviderUserConfigView {
        ProviderUserConfigView {
            enabled: self.enabled,
            custom_label: opt_str(self.custom_label),
            custom_api_key: opt_str(self.custom_api_key),
            custom_endpoint: opt_str(self.custom_endpoint),
            accounts: self.accounts@.map_values(|a: AccountConfig| a@),
            cost_per_unit: match self.cost_per_unit {
                Some(n) => Some(number_view(n)),
                None => None,
            },
            tags: strs(self.tags@),
            hidden: self.hidden,
        }
    }
}

/// Settings of a provider the user never configured.
pub open spec fn default_user_config() -> ProviderUserConfigView {
    ProviderUserConfigView {
        enabled: None,
        custom_label: None,
        custom_api_key: None,
        custom_endpoint: None,
        accounts: Seq::empty(),
        cost_per_unit: None,
        tags: Seq::empty(),
        hidden: false,
    }
}

/// The provider map: each id with the settings of its first entry.
pub open spec fn provider_map(s: Seq<(String, ProviderUserConfig)>) -> Map<
    Seq<char>,
    ProviderUserConfigView,
>
    decreases s.len(),
{
    if s.len() == 0 {
        Map::empty()
    } else {
        let m = provider_map(s.drop_last());
        if m.dom().contains(s.last().0@) {
            m
        } else {
            m.insert(s.last().0@, s.last().1@)
        }
    }
}

pub struct AppConfigView {
    pub poll_interval_sec: u64,
    pub warn_threshold_pct: u32,
    pub danger_threshold_pct: u32,
    pub toast_threshold_pct: u32,
    pub notify_enabled: bool,
    pub autostart_enabled: bool,
    pub auto_update: bool,
    pub minimize_to_tray: bool,
    pub startup_delay_sec: u64,
    pub language: Seq<char>,
    pub theme: Seq<char>,
    pub dnd_start: Option<Seq<char>>,
    pub dnd_end: Option<Seq<char>>,
    pub hotkey: Seq<char>,
    pub sync_gist_token: Option<Seq<char>>,
    pub sync_gist_id: Option<Seq<char>>,
    pub providers: Map<Seq<char>, ProviderUserConfigView>,
}

impl View for AppConfig {
    type V = AppConfigView;

    open spec fn view(&self) -> AppConfigView {
        AppConfigView {
            poll_interval_sec: self.poll_interval_sec,
            warn_threshold_pct: self.warn_threshold_pct,
            danger_threshold_pct: self.danger_threshold_pct,
            toast_threshold_pct: self.toast_threshold_pct,
            notify_enabled: self.notify_enabled,
            autostart_enabled: self.autostart_enabled,
            auto_update: self.auto_update,
            minimize_to_tray: self.minimize_to_tray,
            startup_delay_sec: self.startup_delay_sec,
            language: self.language@,
            theme: self.theme@,
            dnd_start: opt_str(self.dnd_start),
            dnd_end: opt_str(self.dnd_end),
            hotkey: self.hotkey@,
            sync_gist_token: opt_str(self.sync_gist_token),
            sync_gist_id: opt_str(self.sync_gist_id),
            providers: provider_map(self.providers@),
        }
    }
}

/// The configuration a fresh installation starts with.
pub open spec fn default_config() -> AppConfigView {
    AppConfigView {
        poll_interval_sec: 60,
        warn_threshold_pct: 30,
        danger_threshold_pct: 10,
        toast_threshold_pct: 20,
        notify_enabled: true,
        autostart_enabled: false,
        auto_update: false,
        minimize_to_tray: true,
        startup_delay_sec: 0,
        language: "en-US"@,
        theme: "dark"@,
        dnd_start: None,
        dnd_end: None,
        hotkey: "CmdOrCtrl+Shift+D"@,
        sync_gist_token: None,
        sync_gist_id: None,
        providers: Map::empty(),
    }
}

impl Default for ProviderUserConfig {
    fn default() -> (r: ProviderUserConfig)
        ensures
            r@ == default_user_config(),
    {
        let r = ProviderUserConfig {
            enabled: None,
            custom_label: None,
            custom_api_key: None,
            custom_endpoint: None,
            accounts: Vec::new(),
            cost_per_unit: None,
            tags: Vec::new(),
            hidden: false,
        };
        assert(r@.accounts =~= Seq::empty());
        assert(r@.tags =~= Seq::empty());
        r
    }
}

impl Default for AppConfig {
    fn default() -> (r: AppConfig)
        ensures
            r@ == default_config(),
    {
        AppConfig {
            poll_interval_sec: 60,
            warn_threshold_pct: 30,
            danger_threshold_pct: 10,
            toast_threshold_pct: 20,
            notify_enabled: true,
            autostart_enabled: false,
            auto_update: false,
            minimize_to_tray: true,
            startup_delay_sec: 0,
            language: owned("en-US"),
            theme: owned("dark"),
            dnd_start: None,
            dnd_end: None,
            hotkey: owned("CmdOrCtrl+Shift+D"),
            sync_gist_token: None,
            sync_gist_id: None,
            providers: Vec::new(),
        }
    }
}

// ---------------------------------------------------------------------------
// The provider map
// ---------------------------------------------------------------------------

/// `i` is the position of the first entry for `id` (the length when there is none).
pub open spec fn first_entry(s: Seq<(String, ProviderUserConfig)>, id: Seq<char>, i: int) -> bool {
    &&& 0 <= i <= s.len()
    &&& forall|j: int| 0 <= j < i ==> (#[trigger] s[j]).0@ != id
    &&& (i == s.len() || s[i].0@ == id)
}

/// The map holds exactly the ids that occur, with the first entry's settings.
pub proof fn lemma_provider_map_lookup(s: Seq<(String, ProviderUserConfig)>, id: Seq<char>, i: int)
    requires
        first_entry(s, id, i),
    ensures
        i < s.len() ==> provider_map(s).dom().contains(id) && provider_map(s)[id] == s[i].1@,
        i == s.len() ==> !provider_map(s).dom().contains(id),
    decreases s.len(),
{
    if s.len() > 0 {
        let d = s.drop_last();
        if i < s.len() - 1 {
            assert forall|j: int| 0 <= j < i implies (#[trigger] d[j]).0@ != id by {
                assert(d[j] == s[j]);
            }
            assert(d[i] == s[i]);
            lemma_provider_map_lookup(d, id, i);
        } else {
            assert forall|j: int| 0 <= j < d.len() implies (#[trigger] d[j]).0@ != id by {
                assert(d[j] == s[j]);
            }
            lemma_provider_map_lookup(d, id, d.len() as int);
        }
    }
}

/// Replacing the first entry for an id replaces its settings in the map.
pub proof fn lemma_provider_map_update(
    s: Seq<(String, ProviderUserConfig)>,
    i: int,
    v: ProviderUserConfig,
)
    requires
        0 <= i < s.len(),
        first_entry(s, s[i].0@, i),
    ensures
        provider_map(s.update(i, (s[i].0, v))) == provider_map(s).insert(s[i].0@, v@),
    decreases s.len(),
{
    let k = s[i].0;
    let t = s.update(i, (k, v));
    let d = s.drop_last();
    if i < s.len() - 1 {
        assert forall|j: int| 0 <= j < i implies (#[trigger] d[j]).0@ != k@ by {
            assert(d[j] == s[j]);
        }
        assert(d[i] == s[i]);
        lemma_provider_map_update(d, i, v);
        assert(t.drop_last() =~= d.update(i, (k, v)));
        lemma_provider_map_lookup(d, k@, i);
        assert(provider_map(t) =~= provider_map(s).insert(k@, v@));
    } else {
        assert forall|j: int| 0 <= j < d.len() implies (#[trigger] d[j]).0@ != k@ by {
            assert(d[j] == s[j]);
        }
        lemma_provider_map_lookup(d, k@, d.len() as int);
        assert(t.drop_last() =~= d);
        assert(provider_map(t) =~= provider_map(s).insert(k@, v@));
    }
}

/// Appending an entry for an id that has none adds it to the map.
pub proof fn lemma_provider_map_push(s: Seq<(String, ProviderUserConfig)>, k: String, v: ProviderUserConfig)
    requires
        !provider_map(s).dom().contains(k@),
    ensures
        provider_map(s.push((k, v))) == provider_map(s).insert(k@, v@),
{
    assert(s.push((k, v)).drop_last() =~= s);
}

/// The entries whose id differs from `id`, in order.
pub open spec fn without_entry(s: Seq<(String, ProviderUserConfig)>, id: Seq<char>) -> Seq<
    (String, ProviderUserConfig),
>
    decreases s.len(),
{
    if s.len() == 0 {
        s
    } else {
        let r = without_entry(s.drop_last(), id);
        if s.last().0@ == id {
            r
        } else {
            r.push(s.last())
        }
    }
}

/// Dropping every entry for an id removes it from the map.
pub proof fn lemma_provider_map_without(s: Seq<(String, ProviderUserConfig)>, id: Seq<char>)
    ensures
        provider_map(without_entry(s, id)) == provider_map(s).remove(id),
    decreases s.len(),
{
    if s.len() == 0 {
        assert(provider_map(s).remove(id) =~= Map::empty());
    } else {
        let d = s.drop_last();
        lemma_provider_map_without(d, id);
        let r = without_entry(d, id);
        if s.last().0@ != id {
            assert(r.push(s.last()).drop_last() =~= r);
        }
        assert(provider_map(without_entry(s, id)) =~= provider_map(s).remove(id));
    }
}

/// Position of the entry for `id`, as `HashMap::get` finds it.
pub fn find_entry(providers: &Vec<(String, ProviderUserConfig)>, id: &str) -> (r: Option<usize>)
    ensures
        match r {
            Some(i) => i < providers@.len() && first_entry(providers@, id@, i as int),
            None => first_entry(providers@, id@, providers@.len() as int),
        },
{
    let n = providers.len();
    let mut i: usize = 0;
    while i < n
        invariant
            n == providers@.len(),
            i <= n,
            forall|j: int| 0 <= j < i ==> (#[trigger] providers@[j]).0@ != id@,
        decreases n - i,
    {
        if str_eq(providers[i].0.as_str(), id) {
            return Some(i);
        }
        i = i + 1;
    }
    None
}

} // verus!
