//! Changes to the configuration: the JSON patch the Settings panel sends, and
//! the per-provider switches.
use crate::json::{JsonNumber, JsonValue};
use crate::models::{
    default_user_config, first_entry, find_entry, lemma_provider_map_lookup,
    lemma_provider_map_push, lemma_provider_map_update, lemma_provider_map_without, number_view,
    opt_str, provider_map, strs, without_entry, AccountConfig, AccountConfigView, AppConfig,
    AppConfigView, NumberView, ProviderUserConfig, ProviderUserConfigView,
};
use crate::text::owned;
use vstd::prelude::*;

verus! {

// ---------------------------------------------------------------------------
// What a patch says
// ---------------------------------------------------------------------------

/// The unsigned number a patch gives for `key`, if it gives one.
pub open spec fn patch_u64(p: JsonValue, key: Seq<char>) -> Option<u64> {
    match p.spec_get(key) {
        Some(v) => v.spec_as_u64(),
        None => None,
    }
}

/// The boolean a patch gives for `key`, if it gives one.
pub open spec fn patch_bool(p: JsonValue, key: Seq<char>) -> Option<bool> {
    match p.spec_get(key) {
        Some(v) => v.spec_as_bool(),
        None => None,
    }
}

/// The string a patch gives for `key`, if it gives one.
pub open spec fn patch_str(p: JsonValue, key: Seq<char>) -> Option<Seq<char>> {
    match p.spec_get(key) {
        Some(v) => v.spec_as_str(),
        None => None,
    }
}

/// The number a patch gives for `key`, if it gives one.
pub open spec fn patch_number(p: JsonValue, key: Seq<char>) -> Option<NumberView> {
    match p.spec_get(key) {
        Some(JsonValue::Number(n)) => Some(number_view(n)),
        _ => None,
    }
}

/// The array a patch gives for `key`, if it gives one.
pub open spec fn patch_array(p: JsonValue, key: Seq<char>) -> Option<Seq<JsonValue>> {
    match p.spec_get(key) {
        Some(JsonValue::Array(a)) => Some(a@),
        _ => None,
    }
}

pub open spec fn or_old<T>(new: Option<T>, old: T) -> T {
    match new {
        Some(v) => v,
        None => old,
    }
}

/// An empty string clears an optional setting.
pub open spec fn nonempty(s: Seq<char>) -> Option<Seq<char>> {
    if s.len() == 0 {
        None
    } else {
        Some(s)
    }
}

pub open spec fn clear_or_set(new: Option<Seq<char>>, old: Option<Seq<char>>) -> Option<
    Seq<char>,
> {
    match new {
        Some(s) => nonempty(s),
        None => old,
    }
}

/// The string items of an array, in order (other items are skipped).
pub open spec fn string_items(items: Seq<JsonValue>) -> Seq<Seq<char>>
    decreases items.len(),
{
    if items.len() == 0 {
        Seq::empty()
    } else {
        let r = string_items(items.drop_last());
        match items.last().spec_as_str() {
            Some(s) => r.push(s),
            None => r,
        }
    }
}

/// The account an array item describes.
pub open spec fn account_of(a: JsonValue) -> AccountConfigView {
    AccountConfigView {
        label: patch_str(a, "label"@),
        api_key: patch_str(a, "apiKey"@),
        enabled: patch_bool(a, "enabled"@),
    }
}

/// A provider's settings after its part of a patch.
pub open spec fn merged_user_config(u: ProviderUserConfigView, v: JsonValue) -> ProviderUserConfigView {
    ProviderUserConfigView {
        enabled: match patch_bool(v, "enabled"@) {
            Some(b) => Some(b),
            None => u.enabled,
        },
        custom_label: match patch_str(v, "customLabel"@) {
            Some(s) => Some(s),
            None => u.custom_label,
        },
        custom_api_key: match patch_str(v, "customApiKey"@) {
            Some(s) => Some(s),
            None => u.custom_api_key,
        },
        custom_endpoint: clear_or_set(patch_str(v, "customEndpoint"@), u.custom_endpoint),
        cost_per_unit: match patch_number(v, "costPerUnit"@) {
            Some(n) => Some(n),
            None => u.cost_per_unit,
        },
        tags: match patch_array(v, "tags"@) {
            Some(a) => string_items(a),
            None => u.tags,
        },
        hidden: or_old(patch_bool(v, "hidden"@), u.hidden),
        accounts: match patch_array(v, "accounts"@) {
            Some(a) => a.map_values(|x: JsonValue| account_of(x)),
            None => u.accounts,
        },
    }
}

/// The provider map after the first `members.len()` members of a patch's
/// `providers` object, taken in order: `null` drops a provider's settings,
/// anything else is merged into them (starting from the defaults).
pub open spec fn merged_providers(
    m: Map<Seq<char>, ProviderUserConfigView>,
    members: Seq<(String, JsonValue)>,
) -> Map<Seq<char>, ProviderUserConfigView>
    decreases members.len(),
{
    if members.len() == 0 {
        m
    } else {
        let m1 = merged_providers(m, members.drop_last());
        let id = members.last().0@;
        let v = members.last().1;
        if v.spec_is_null() {
            m1.remove(id)
        } else {
            let base = if m1.dom().contains(id) {
                m1[id]
            } else {
                default_user_config()
            };
            m1.insert(id, merged_user_config(base, v))
        }
    }
}

/// The configuration after a patch from the Settings panel. Only known fields
/// are touched; unknown keys and values of the wrong type are ignored.
pub open spec fn merged_config(c: AppConfigView, p: JsonValue) -> AppConfigView {
    AppConfigView {
        poll_interval_sec: or_old(patch_u64(p, "pollIntervalSec"@), c.poll_interval_sec),
        warn_threshold_pct: match patch_u64(p, "warnThresholdPct"@) {
            Some(v) => v as u32,
            None => c.warn_threshold_pct,
        },
        danger_threshold_pct: match patch_u64(p, "dangerThresholdPct"@) {
            Some(v) => v as u32,
            None => c.danger_threshold_pct,
        },
        toast_threshold_pct: match patch_u64(p, "toastThresholdPct"@) {
            Some(v) => v as u32,
            None => c.toast_threshold_pct,
        },
        notify_enabled: or_old(patch_bool(p, "notifyEnabled"@), c.notify_enabled),
        autostart_enabled: or_old(patch_bool(p, "autostartEnabled"@), c.autostart_enabled),
        auto_update: or_old(patch_bool(p, "autoUpdate"@), c.auto_update),
        minimize_to_tray: or_old(patch_bool(p, "minimizeToTray"@), c.minimize_to_tray),
        startup_delay_sec: or_old(patch_u64(p, "startupDelaySec"@), c.startup_delay_sec),
        language: or_old(patch_str(p, "language"@), c.language),
        theme: or_old(patch_str(p, "theme"@), c.theme),
        dnd_start: clear_or_set(patch_str(p, "dndStart"@), c.dnd_start),
        dnd_end: clear_or_set(patch_str(p, "dndEnd"@), c.dnd_end),
        hotkey: or_old(patch_str(p, "hotkey"@), c.hotkey),
        sync_gist_token: clear_or_set(patch_str(p, "syncGistToken"@), c.sync_gist_token),
        sync_gist_id: clear_or_set(patch_str(p, "syncGistId"@), c.sync_gist_id),
        providers: match p.spec_get("providers"@) {
            Some(JsonValue::Object(members)) => merged_providers(c.providers, members@),
            _ => c.providers,
        },
    }
}

/// The top-level names a patch may set.
pub open spec fn known_key(k: Seq<char>) -> bool {
    ||| k == "pollIntervalSec"@
    ||| k == "warnThresholdPct"@
    ||| k == "dangerThresholdPct"@
    ||| k == "toastThresholdPct"@
    ||| k == "notifyEnabled"@
    ||| k == "autostartEnabled"@
    ||| k == "autoUpdate"@
    ||| k == "minimizeToTray"@
    ||| k == "startupDelaySec"@
    ||| k == "language"@
    ||| k == "theme"@
    ||| k == "dndStart"@
    ||| k == "dndEnd"@
    ||| k == "hotkey"@
    ||| k == "syncGistToken"@
    ||| k == "syncGistId"@
    ||| k == "providers"@
}

/// Unknown keys are ignored: a patch that sets none of the known names leaves
/// the configuration as it was.
pub proof fn lemma_unknown_keys_ignored(c: AppConfigView, p: JsonValue)
    requires
        forall|k: Seq<char>| #[trigger] known_key(k) ==> p.spec_get(k) is None,
    ensures
        merged_config(c, p) == c,
{
    assert(known_key("pollIntervalSec"@));
    assert(known_key("warnThresholdPct"@));
    assert(known_key("dangerThresholdPct"@));
    assert(known_key("toastThresholdPct"@));
    assert(known_key("notifyEnabled"@));
    assert(known_key("autostartEnabled"@));
    assert(known_key("autoUpdate"@));
    assert(known_key("minimizeToTray"@));
    assert(known_key("startupDelaySec"@));
    assert(known_key("language"@));
    assert(known_key("theme"@));
    assert(known_key("dndStart"@));
    assert(known_key("dndEnd"@));
    assert(known_key("hotkey"@));
    assert(known_key("syncGistToken"@));
    assert(known_key("syncGistId"@));
    assert(known_key("providers"@));
}

/// A provider whose `providers` member is `null` has no settings afterwards,
/// when the patch names it once.
pub proof fn lemma_null_drops_provider(m: Map<Seq<char>, ProviderUserConfigView>, members: Seq<(String, JsonValue)>, i: int)
    requires
        0 <= i < members.len(),
        members[i].1.spec_is_null(),
        forall|j: int| 0 <= j < members.len() && j != i ==> (#[trigger] members[j]).0@ != members[i].0@,
    ensures
        !merged_providers(m, members).dom().contains(members[i].0@),
    decreases members.len(),
{
    let k = members[i].0@;
    let d = members.drop_last();
    if i < members.len() - 1 {
        assert forall|j: int| 0 <= j < d.len() && j != i implies (#[trigger] d[j]).0@ != d[i].0@ by {
            assert(d[j] == members[j]);
        }
        assert(d[i] == members[i]);
        lemma_null_drops_provider(m, d, i);
        assert(members.last() == members[members.len() - 1]);
    }
}

/// Each numeric or boolean key of a patch writes exactly its own field: an
/// unsigned number (or a boolean) under the key sets the field to it (the
/// percentages as `u32`), and anything else under the key, or no member with
/// that name, leaves the field as it was.
pub proof fn lemma_patch_writes_own_fields(c: AppConfigView, p: JsonValue)
    ensures
        match p.spec_get("pollIntervalSec"@) {
            Some(JsonValue::Number(x)) => match x.unsigned {
                Some(n) => merged_config(c, p).poll_interval_sec == n,
                None => merged_config(c, p).poll_interval_sec == c.poll_interval_sec,
            },
            _ => merged_config(c, p).poll_interval_sec == c.poll_interval_sec,
        },
        match p.spec_get("warnThresholdPct"@) {
            Some(JsonValue::Number(x)) => match x.unsigned {
                Some(n) => merged_config(c, p).warn_threshold_pct == n as u32,
                None => merged_config(c, p).warn_threshold_pct == c.warn_threshold_pct,
            },
            _ => merged_config(c, p).warn_threshold_pct == c.warn_threshold_pct,
        },
        match p.spec_get("dangerThresholdPct"@) {
            Some(JsonValue::Number(x)) => match x.unsigned {
                Some(n) => merged_config(c, p).danger_threshold_pct == n as u32,
                None => merged_config(c, p).danger_threshold_pct == c.danger_threshold_pct,
            },
            _ => merged_config(c, p).danger_threshold_pct == c.danger_threshold_pct,
        },
        match p.spec_get("toastThresholdPct"@) {
            Some(JsonValue::Number(x)) => match x.unsigned {
                Some(n) => merged_config(c, p).toast_threshold_pct == n as u32,
                None => merged_config(c, p).toast_threshold_pct == c.toast_threshold_pct,
            },
            _ => merged_config(c, p).toast_threshold_pct == c.toast_threshold_pct,
        },
        match p.spec_get("startupDelaySec"@) {
            Some(JsonValue::Number(x)) => match x.unsigned {
                Some(n) => merged_config(c, p).startup_delay_sec == n,
                None => merged_config(c, p).startup_delay_sec == c.startup_delay_sec,
            },
            _ => merged_config(c, p).startup_delay_sec == c.startup_delay_sec,
        },
        match p.spec_get("notifyEnabled"@) {
            Some(JsonValue::Bool(b)) => merged_config(c, p).notify_enabled == b,
            _ => merged_config(c, p).notify_enabled == c.notify_enabled,
        },
        match p.spec_get("autostartEnabled"@) {
            Some(JsonValue::Bool(b)) => merged_config(c, p).autostart_enabled == b,
            _ => merged_config(c, p).autostart_enabled == c.autostart_enabled,
        },
        match p.spec_get("autoUpdate"@) {
            Some(JsonValue::Bool(b)) => merged_config(c, p).auto_update == b,
            _ => merged_config(c, p).auto_update == c.auto_update,
        },
        match p.spec_get("minimizeToTray"@) {
            Some(JsonValue::Bool(b)) => merged_config(c, p).minimize_to_tray == b,
            _ => merged_config(c, p).minimize_to_tray == c.minimize_to_tray,
        },
{
}

// ---------------------------------------------------------------------------
// Applying a patch twice
// ---------------------------------------------------------------------------

/// The settings of provider `k` after the members of a `providers` object, from
/// `base` (`None`: no settings). A `null` member for `k` drops them; any other
/// member for `k` is merged into them, starting from the defaults.
spec fn key_settings(
    base: Option<ProviderUserConfigView>,
    ms: Seq<(String, JsonValue)>,
    k: Seq<char>,
) -> Option<ProviderUserConfigView>
    decreases ms.len(),
{
    if ms.len() == 0 {
        base
    } else {
        let b = key_settings(base, ms.drop_last(), k);
        if ms.last().0@ != k {
            b
        } else if ms.last().1.spec_is_null() {
            None
        } else {
            Some(
                merged_user_config(
                    match b {
                        Some(u) => u,
                        None => default_user_config(),
                    },
                    ms.last().1,
                ),
            )
        }
    }
}

spec fn entry_of(m: Map<Seq<char>, ProviderUserConfigView>, k: Seq<char>) -> Option<ProviderUserConfigView> {
    if m.dom().contains(k) {
        Some(m[k])
    } else {
        None
    }
}

/// Each provider's settings after a `providers` object depend only on its own members.
proof fn lemma_merged_providers_pointwise(
    m: Map<Seq<char>, ProviderUserConfigView>,
    ms: Seq<(String, JsonValue)>,
    k: Seq<char>,
)
    ensures
        entry_of(merged_providers(m, ms), k) == key_settings(entry_of(m, k), ms, k),
    decreases ms.len(),
{
    if ms.len() > 0 {
        lemma_merged_providers_pointwise(m, ms.drop_last(), k);
    }
}

/// The last value that members of `ms` give through `sel`, else `old`.
spec fn overrides<T>(sel: spec_fn((String, JsonValue)) -> Option<T>, old: T, ms: Seq<(String, JsonValue)>) -> T
    decreases ms.len(),
{
    if ms.len() == 0 {
        old
    } else {
        match sel(ms.last()) {
            Some(x) => x,
            None => overrides(sel, old, ms.drop_last()),
        }
    }
}

proof fn lemma_overrides_base<T>(sel: spec_fn((String, JsonValue)) -> Option<T>, a: T, b: T, ms: Seq<(String, JsonValue)>)
    ensures
        (exists|i: int| 0 <= i < ms.len() && (#[trigger] sel(ms[i])) is Some) ==> overrides(sel, a, ms) == overrides(sel, b, ms),
        (forall|i: int| 0 <= i < ms.len() ==> (#[trigger] sel(ms[i])) is None) ==> overrides(sel, a, ms) == a,
    decreases ms.len(),
{
    if ms.len() > 0 {
        let d = ms.drop_last();
        lemma_overrides_base(sel, a, b, d);
        assert(ms[ms.len() - 1] == ms.last());
        if exists|i: int| 0 <= i < ms.len() && (#[trigger] sel(ms[i])) is Some {
            if sel(ms.last()) is None {
                let i = choose|i: int| 0 <= i < ms.len() && (#[trigger] sel(ms[i])) is Some;
                assert(d[i] == ms[i]);
            }
        }
        if forall|i: int| 0 <= i < ms.len() ==> (#[trigger] sel(ms[i])) is None {
            assert forall|i: int| 0 <= i < d.len() implies (#[trigger] sel(d[i])) is None by {
                assert(d[i] == ms[i]);
            }
        }
    }
}

proof fn lemma_overrides_twice<T>(sel: spec_fn((String, JsonValue)) -> Option<T>, a: T, ms: Seq<(String, JsonValue)>)
    ensures
        overrides(sel, overrides(sel, a, ms), ms) == overrides(sel, a, ms),
{
    lemma_overrides_base(sel, overrides(sel, a, ms), a, ms);
    lemma_overrides_base(sel, a, a, ms);
}

/// The settings of provider `k` merged with every member for `k`, in order.
spec fn merge_members(u: ProviderUserConfigView, ms: Seq<(String, JsonValue)>, k: Seq<char>) -> ProviderUserConfigView
    decreases ms.len(),
{
    if ms.len() == 0 {
        u
    } else {
        let b = merge_members(u, ms.drop_last(), k);
        if ms.last().0@ == k {
            merged_user_config(b, ms.last().1)
        } else {
            b
        }
    }
}

spec fn sel_enabled(k: Seq<char>) -> spec_fn((String, JsonValue)) -> Option<Option<bool>> {
    |m: (String, JsonValue)| if m.0@ == k { match patch_bool(m.1, "enabled"@) { Some(b) => Some(Some(b)), None => None } } else { None }
}

spec fn sel_label(k: Seq<char>) -> spec_fn((String, JsonValue)) -> Option<Option<Seq<char>>> {
    |m: (String, JsonValue)| if m.0@ == k { match patch_str(m.1, "customLabel"@) { Some(x) => Some(Some(x)), None => None } } else { None }
}

spec fn sel_key(k: Seq<char>) -> spec_fn((String, JsonValue)) -> Option<Option<Seq<char>>> {
    |m: (String, JsonValue)| if m.0@ == k { match patch_str(m.1, "customApiKey"@) { Some(x) => Some(Some(x)), None => None } } else { None }
}

spec fn sel_endpoint(k: Seq<char>) -> spec_fn((String, JsonValue)) -> Option<Option<Seq<char>>> {
    |m: (String, JsonValue)| if m.0@ == k { match patch_str(m.1, "customEndpoint"@) { Some(x) => Some(nonempty(x)), None => None } } else { None }
}

spec fn sel_cost(k: Seq<char>) -> spec_fn((String, JsonValue)) -> Option<Option<NumberView>> {
    |m: (String, JsonValue)| if m.0@ == k { match patch_number(m.1, "costPerUnit"@) { Some(n) => Some(Some(n)), None => None } } else { None }
}

spec fn sel_tags(k: Seq<char>) -> spec_fn((String, JsonValue)) -> Option<Seq<Seq<char>>> {
    |m: (String, JsonValue)| if m.0@ == k { match patch_array(m.1, "tags"@) { Some(a) => Some(string_items(a)), None => None } } else { None }
}

spec fn sel_hidden(k: Seq<char>) -> spec_fn((String, JsonValue)) -> Option<bool> {
    |m: (String, JsonValue)| if m.0@ == k { patch_bool(m.1, "hidden"@) } else { None }
}

spec fn sel_accounts(k: Seq<char>) -> spec_fn((String, JsonValue)) -> Option<Seq<AccountConfigView>> {
    |m: (String, JsonValue)| if m.0@ == k {
        match patch_array(m.1, "accounts"@) {
            Some(a) => Some(a.map_values(|x: JsonValue| account_of(x))),
            None => None,
        }
    } else {
        None
    }
}

/// Field by field, merging the members for `k` keeps the last value each sets.
proof fn lemma_merge_members_fields(u: ProviderUserConfigView, ms: Seq<(String, JsonValue)>, k: Seq<char>)
    ensures
        merge_members(u, ms, k) == (ProviderUserConfigView {
            enabled: overrides(sel_enabled(k), u.enabled, ms),
            custom_label: overrides(sel_label(k), u.custom_label, ms),
            custom_api_key: overrides(sel_key(k), u.custom_api_key, ms),
            custom_endpoint: overrides(sel_endpoint(k), u.custom_endpoint, ms),
            accounts: overrides(sel_accounts(k), u.accounts, ms),
            cost_per_unit: overrides(sel_cost(k), u.cost_per_unit, ms),
            tags: overrides(sel_tags(k), u.tags, ms),
            hidden: overrides(sel_hidden(k), u.hidden, ms),
        }),
    decreases ms.len(),
{
    if ms.len() > 0 {
        lemma_merge_members_fields(u, ms.drop_last(), k);
    }
}

proof fn lemma_merge_members_twice(u: ProviderUserConfigView, ms: Seq<(String, JsonValue)>, k: Seq<char>)
    ensures
        merge_members(merge_members(u, ms, k), ms, k) == merge_members(u, ms, k),
{
    let w = merge_members(u, ms, k);
    lemma_merge_members_fields(u, ms, k);
    lemma_merge_members_fields(w, ms, k);
    lemma_overrides_twice(sel_enabled(k), u.enabled, ms);
    lemma_overrides_twice(sel_label(k), u.custom_label, ms);
    lemma_overrides_twice(sel_key(k), u.custom_api_key, ms);
    lemma_overrides_twice(sel_endpoint(k), u.custom_endpoint, ms);
    lemma_overrides_twice(sel_accounts(k), u.accounts, ms);
    lemma_overrides_twice(sel_cost(k), u.cost_per_unit, ms);
    lemma_overrides_twice(sel_tags(k), u.tags, ms);
    lemma_overrides_twice(sel_hidden(k), u.hidden, ms);
}

spec fn names(ms: Seq<(String, JsonValue)>, k: Seq<char>) -> bool {
    exists|i: int| 0 <= i < ms.len() && (#[trigger] ms[i]).0@ == k
}

spec fn drops(ms: Seq<(String, JsonValue)>, k: Seq<char>) -> bool {
    exists|i: int| 0 <= i < ms.len() && (#[trigger] ms[i]).0@ == k && ms[i].1.spec_is_null()
}

/// After a `null` member for `k`, what came before no longer matters.
proof fn lemma_key_settings_reset(b1: Option<ProviderUserConfigView>, b2: Option<ProviderUserConfigView>, ms: Seq<(String, JsonValue)>, k: Seq<char>)
    requires
        drops(ms, k),
    ensures
        key_settings(b1, ms, k) == key_settings(b2, ms, k),
    decreases ms.len(),
{
    let d = ms.drop_last();
    let i = choose|i: int| 0 <= i < ms.len() && (#[trigger] ms[i]).0@ == k && ms[i].1.spec_is_null();
    if i < ms.len() - 1 {
        assert(d[i] == ms[i]);
        lemma_key_settings_reset(b1, b2, d, k);
    } else {
        assert(ms.last() == ms[i]);
    }
}

/// Without a `null` member for `k`, the members for `k` are merged into the
/// settings (into the defaults when there were none).
proof fn lemma_key_settings_merge(b: Option<ProviderUserConfigView>, ms: Seq<(String, JsonValue)>, k: Seq<char>)
    requires
        !drops(ms, k),
    ensures
        key_settings(b, ms, k) == (if names(ms, k) {
            Some(
                merge_members(
                    match b {
                        Some(u) => u,
                        None => default_user_config(),
                    },
                    ms,
                    k,
                ),
            )
        } else {
            b
        }),
    decreases ms.len(),
{
    if ms.len() > 0 {
        let d = ms.drop_last();
        assert(!drops(d, k)) by {
            if drops(d, k) {
                let i = choose|i: int| 0 <= i < d.len() && (#[trigger] d[i]).0@ == k && d[i].1.spec_is_null();
                assert(ms[i] == d[i]);
            }
        }
        lemma_key_settings_merge(b, d, k);
        assert(ms[ms.len() - 1] == ms.last());
        if names(d, k) {
            let i = choose|i: int| 0 <= i < d.len() && (#[trigger] d[i]).0@ == k;
            assert(ms[i] == d[i]);
        }
        if names(ms, k) && !names(d, k) {
            let i = choose|i: int| 0 <= i < ms.len() && (#[trigger] ms[i]).0@ == k;
            if i < d.len() {
                assert(d[i] == ms[i]);
            }
            let base = match b {
                Some(u) => u,
                None => default_user_config(),
            };
            lemma_merge_members_unnamed(base, d, k);
        }
        if !names(ms, k) {
            assert(ms.last().0@ != k);
        }
    }
}

proof fn lemma_merge_members_unnamed(u: ProviderUserConfigView, ms: Seq<(String, JsonValue)>, k: Seq<char>)
    requires
        !names(ms, k),
    ensures
        merge_members(u, ms, k) == u,
    decreases ms.len(),
{
    if ms.len() > 0 {
        let d = ms.drop_last();
        assert(!names(d, k)) by {
            if names(d, k) {
                let i = choose|i: int| 0 <= i < d.len() && (#[trigger] d[i]).0@ == k;
                assert(ms[i] == d[i]);
            }
        }
        assert(ms[ms.len() - 1] == ms.last());
        lemma_merge_members_unnamed(u, d, k);
    }
}

proof fn lemma_key_settings_twice(b: Option<ProviderUserConfigView>, ms: Seq<(String, JsonValue)>, k: Seq<char>)
    ensures
        key_settings(key_settings(b, ms, k), ms, k) == key_settings(b, ms, k),
{
    if drops(ms, k) {
        lemma_key_settings_reset(key_settings(b, ms, k), b, ms, k);
    } else {
        let once = key_settings(b, ms, k);
        lemma_key_settings_merge(b, ms, k);
        lemma_key_settings_merge(once, ms, k);
        if names(ms, k) {
            let base = match b {
                Some(u) => u,
                None => default_user_config(),
            };
            lemma_merge_members_twice(base, ms, k);
        }
    }
}

/// Applying the same Settings patch twice gives the configuration that
/// applying it once gives.
pub proof fn lemma_patch_idempotent(c: AppConfigView, p: JsonValue)
    ensures
        merged_config(merged_config(c, p), p) == merged_config(c, p),
{
    let once = merged_config(c, p);
    let twice = merged_config(once, p);
    match p.spec_get("providers"@) {
        Some(JsonValue::Object(members)) => {
            let ms = members@;
            let m1 = merged_providers(c.providers, ms);
            let m2 = merged_providers(m1, ms);
            assert forall|k: Seq<char>| #![auto] entry_of(m2, k) == entry_of(m1, k) by {
                lemma_merged_providers_pointwise(c.providers, ms, k);
                lemma_merged_providers_pointwise(m1, ms, k);
                lemma_key_settings_twice(entry_of(c.providers, k), ms, k);
            }
            assert(m2 =~= m1) by {
                assert forall|k: Seq<char>| m2.dom().contains(k) <==> m1.dom().contains(k) by {
                    assert(entry_of(m2, k) == entry_of(m1, k));
                }
                assert forall|k: Seq<char>| m2.dom().contains(k) implies m2[k] == m1[k] by {
                    assert(entry_of(m2, k) == entry_of(m1, k));
                }
            }
        },
        _ => {},
    }
}

// ---------------------------------------------------------------------------
// Reading a patch
// ---------------------------------------------------------------------------

fn get_u64(p: &JsonValue, key: &str) -> (r: Option<u64>)
    ensures
        r == patch_u64(*p, key@),
{
    match p.get(key) {
        Some(v) => v.as_u64(),
        None => None,
    }
}

fn get_bool(p: &JsonValue, key: &str) -> (r: Option<bool>)
    ensures
        r == patch_bool(*p, key@),
{
    match p.get(key) {
        Some(v) => v.as_bool(),
        None => None,
    }
}

fn get_string(p: &JsonValue, key: &str) -> (r: Option<String>)
    ensures
        opt_str(r) == patch_str(*p, key@),
{
    match p.get(key) {
        Some(v) => match v.as_str() {
            Some(s) => Some(owned(s)),
            None => None,
        },
        None => None,
    }
}

fn copy_number(n: &JsonNumber) -> (r: JsonNumber)
    ensures
        number_view(r) == number_view(*n),
{
    JsonNumber { unsigned: n.unsigned, text: n.text.clone() }
}

fn nonempty_string(s: String) -> (r: Option<String>)
    ensures
        opt_str(r) == nonempty(s@),
{
    if s.as_str().unicode_len() == 0 {
        None
    } else {
        Some(s)
    }
}

fn string_items_exec(items: &Vec<JsonValue>) -> (r: Vec<String>)
    ensures
        strs(r@) == string_items(items@),
{
    let mut r: Vec<String> = Vec::new();
    let n = items.len();
    let mut i: usize = 0;
    while i < n
        invariant
            n == items@.len(),
            i <= n,
            strs(r@) == string_items(items@.take(i as int)),
        decreases n - i,
    {
        assert(items@.take(i + 1).drop_last() =~= items@.take(i as int));
        match items[i].as_str() {
            Some(s) => {
                let ghost before = r@;
                r.push(owned(s));
                assert(strs(r@) =~= strs(before).push(s@));
            },
            None => {},
        }
        i = i + 1;
    }
    assert(items@.take(n as int) =~= items@);
    r
}

fn accounts_exec(items: &Vec<JsonValue>) -> (r: Vec<AccountConfig>)
    ensures
        r@.map_values(|a: AccountConfig| a@) == items@.map_values(|x: JsonValue| account_of(x)),
{
    let mut r: Vec<AccountConfig> = Vec::new();
    let n = items.len();
    let mut i: usize = 0;
    while i < n
        invariant
            n == items@.len(),
            i <= n,
            r@.len() == i,
            forall|j: int| 0 <= j < i ==> (#[trigger] r@[j])@ == account_of(items@[j]),
        decreases n - i,
    {
        let a = &items[i];
        r.push(
            AccountConfig {
                label: get_string(a, "label"),
                api_key: get_string(a, "apiKey"),
                enabled: get_bool(a, "enabled"),
            },
        );
        i = i + 1;
    }
    assert(r@.map_values(|a: AccountConfig| a@) =~= items@.map_values(|x: JsonValue| account_of(x)));
    r
}

/// Apply one provider's part of a patch to its settings.
pub fn merge_user_config(u: &mut ProviderUserConfig, v: &JsonValue)
    ensures
        final(u)@ == merged_user_config(old(u)@, *v),
{
    if let Some(b) = get_bool(v, "enabled") {
        u.enabled = Some(b);
    }
    if let Some(s) = get_string(v, "customLabel") {
        u.custom_label = Some(s);
    }
    if let Some(s) = get_string(v, "customApiKey") {
        u.custom_api_key = Some(s);
    }
    if let Some(s) = get_string(v, "customEndpoint") {
        u.custom_endpoint = nonempty_string(s);
    }
    match v.get("costPerUnit") {
        Some(x) => match x.as_number() {
            Some(n) => {
                u.cost_per_unit = Some(copy_number(n));
            },
            None => {},
        },
        None => {},
    }
    match v.get("tags") {
        Some(JsonValue::Array(a)) => {
            u.tags = string_items_exec(a);
        },
        _ => {},
    }
    if let Some(b) = get_bool(v, "hidden") {
        u.hidden = b;
    }
    match v.get("accounts") {
        Some(JsonValue::Array(a)) => {
            u.accounts = accounts_exec(a);
        },
        _ => {},
    }
}

// ---------------------------------------------------------------------------
// The provider map
// ---------------------------------------------------------------------------

/// Find the entry for `id`, adding one with default settings when there is none.
pub fn entry_or_default(providers: &mut Vec<(String, ProviderUserConfig)>, id: &str) -> (i: usize)
    ensures
        i < final(providers)@.len(),
        first_entry(final(providers)@, id@, i as int),
        provider_map(final(providers)@) == provider_map(old(providers)@).insert(
            id@,
            final(providers)@[i as int].1@,
        ),
        final(providers)@[i as int].1@ == (if provider_map(old(providers)@).dom().contains(id@) {
            provider_map(old(providers)@)[id@]
        } else {
            default_user_config()
        }),
{
    match find_entry(providers, id) {
        Some(i) => {
            proof {
                lemma_provider_map_lookup(providers@, id@, i as int);
                assert(provider_map(providers@).insert(id@, providers@[i as int].1@)
                    =~= provider_map(providers@));
            }
            i
        },
        None => {
            proof {
                lemma_provider_map_lookup(providers@, id@, providers@.len() as int);
            }
            let ghost before = providers@;
            let k = owned(id);
            let d = ProviderUserConfig::default();
            providers.push((k, d));
            proof {
                lemma_provider_map_push(before, k, d);
                assert forall|j: int| 0 <= j < before.len() implies (#[trigger] providers@[j]).0@
                    != id@ by {
                    assert(providers@[j] == before[j]);
                }
            }
            providers.len() - 1
        },
    }
}

/// Drop every entry for `id`.
pub fn remove_entry(providers: &mut Vec<(String, ProviderUserConfig)>, id: &str)
    ensures
        provider_map(final(providers)@) == provider_map(old(providers)@).remove(id@),
{
    let ghost orig = providers@;
    let mut rest: Vec<(String, ProviderUserConfig)> = Vec::new();
    std::mem::swap(&mut rest, providers);
    let mut kept: Vec<(String, ProviderUserConfig)> = Vec::new();
    let n = rest.len();
    let mut i: usize = 0;
    while i < n
        invariant
            n == orig.len(),
            i <= n,
            rest@ == orig.skip(i as int),
            kept@ == without_entry(orig.take(i as int), id@),
        decreases n - i,
    {
        let e = rest.remove(0);
        assert(e == orig[i as int]);
        assert(rest@ =~= orig.skip(i + 1));
        assert(orig.take(i + 1).drop_last() =~= orig.take(i as int));
        if !crate::text::str_eq(e.0.as_str(), id) {
            kept.push(e);
        }
        i = i + 1;
    }
    assert(orig.take(n as int) =~= orig);
    proof {
        lemma_provider_map_without(orig, id@);
    }
    *providers = kept;
}

impl AppConfig {
    /// Apply a partial JSON patch (camelCase keys, as the frontend sends them).
    pub fn merge_patch(&mut self, partial: &JsonValue)
        ensures
            final(self)@ == merged_config(old(self)@, *partial),
    {
        self.merge_numbers_and_flags(partial);
        self.merge_texts(partial);
        match partial.get("providers") {
            Some(JsonValue::Object(members)) => {
                merge_providers(&mut self.providers, members);
            },
            _ => {},
        }
    }


    fn merge_numbers_and_flags(&mut self, partial: &JsonValue)
        ensures
            final(self)@ == (AppConfigView {
                language: old(self)@.language,
                theme: old(self)@.theme,
                dnd_start: old(self)@.dnd_start,
                dnd_end: old(self)@.dnd_end,
                hotkey: old(self)@.hotkey,
                sync_gist_token: old(self)@.sync_gist_token,
                sync_gist_id: old(self)@.sync_gist_id,
                providers: old(self)@.providers,
                ..merged_config(old(self)@, *partial)
            }),
    {
        if let Some(v) = get_u64(partial, "pollIntervalSec") {
            self.poll_interval_sec = v;
        }
        if let Some(v) = get_u64(partial, "warnThresholdPct") {
            self.warn_threshold_pct = v as u32;
        }
        if let Some(v) = get_u64(partial, "dangerThresholdPct") {
            self.danger_threshold_pct = v as u32;
        }
        if let Some(v) = get_u64(partial, "toastThresholdPct") {
            self.toast_threshold_pct = v as u32;
        }
        if let Some(v) = get_bool(partial, "notifyEnabled") {
            self.notify_enabled = v;
        }
        if let Some(v) = get_bool(partial, "autostartEnabled") {
            self.autostart_enabled = v;
        }
        if let Some(v) = get_bool(partial, "autoUpdate") {
            self.auto_update = v;
        }
        if let Some(v) = get_bool(partial, "minimizeToTray") {
            self.minimize_to_tray = v;
        }
        if let Some(v) = get_u64(partial, "startupDelaySec") {
            self.startup_delay_sec = v;
        }
    }

    fn merge_texts(&mut self, partial: &JsonValue)
        ensures
            final(self)@ == (AppConfigView {
                language: or_old(patch_str(*partial, "language"@), old(self)@.language),
                theme: or_old(patch_str(*partial, "theme"@), old(self)@.theme),
                dnd_start: clear_or_set(patch_str(*partial, "dndStart"@), old(self)@.dnd_start),
                dnd_end: clear_or_set(patch_str(*partial, "dndEnd"@), old(self)@.dnd_end),
                hotkey: or_old(patch_str(*partial, "hotkey"@), old(self)@.hotkey),
                sync_gist_token: clear_or_set(
                    patch_str(*partial, "syncGistToken"@),
                    old(self)@.sync_gist_token,
                ),
                sync_gist_id: clear_or_set(patch_str(*partial, "syncGistId"@), old(self)@.sync_gist_id),
                ..old(self)@
            }),
    {
        if let Some(v) = get_string(partial, "language") {
            self.language = v;
        }
        if let Some(v) = get_string(partial, "theme") {
            self.theme = v;
        }
        if let Some(v) = get_string(partial, "dndStart") {
            self.dnd_start = nonempty_string(v);
        }
        if let Some(v) = get_string(partial, "dndEnd") {
            self.dnd_end = nonempty_string(v);
        }
        if let Some(v) = get_string(partial, "hotkey") {
            self.hotkey = v;
        }
        if let Some(v) = get_string(partial, "syncGistToken") {
            self.sync_gist_token = nonempty_string(v);
        }
        if let Some(v) = get_string(partial, "syncGistId") {
            self.sync_gist_id = nonempty_string(v);
        }
    }

    /// Set the enabled flag of one provider.
    pub fn set_provider_enabled(&mut self, id: &str, enabled: bool)
        ensures
            final(self)@ == (AppConfigView {
                providers: old(self)@.providers.insert(
                    id@,
                    ProviderUserConfigView {
                        enabled: Some(enabled),
                        ..provider_settings(old(self)@, id@)
                    },
                ),
                ..old(self)@
            }),
    {
        let i = entry_or_default(&mut self.providers, id);
        let ghost before = self.providers@;
        self.providers[i].1.enabled = Some(enabled);
        proof {
            lemma_provider_map_update(before, i as int, self.providers@[i as int].1);
            assert(self.providers@ =~= before.update(i as int, (before[i as int].0, self.providers@[i as int].1)));
            let want = ProviderUserConfigView { enabled: Some(enabled), ..provider_settings(old(self)@, id@) };
            assert(self.providers@[i as int].1@ == want);
            assert(provider_map(self.providers@) =~= old(self)@.providers.insert(id@, want));
        }
    }

    /// Set the custom API key of one provider; an empty key clears it.
    pub fn set_provider_api_key(&mut self, id: &str, key: &str)
        ensures
            final(self)@ == (AppConfigView {
                providers: old(self)@.providers.insert(
                    id@,
                    ProviderUserConfigView {
                        custom_api_key: nonempty(key@),
                        ..provider_settings(old(self)@, id@)
                    },
                ),
                ..old(self)@
            }),
    {
        let i = entry_or_default(&mut self.providers, id);
        let ghost before = self.providers@;
        self.providers[i].1.custom_api_key = nonempty_string(owned(key));
        proof {
            lemma_provider_map_update(before, i as int, self.providers@[i as int].1);
            assert(self.providers@ =~= before.update(i as int, (before[i as int].0, self.providers@[i as int].1)));
            let want = ProviderUserConfigView { custom_api_key: nonempty(key@), ..provider_settings(old(self)@, id@) };
            assert(self.providers@[i as int].1@ == want);
            assert(provider_map(self.providers@) =~= old(self)@.providers.insert(id@, want));
        }
    }

    /// Set the custom endpoint URL of one provider; an empty URL clears it.
    pub fn set_provider_endpoint(&mut self, id: &str, endpoint: &str)
        ensures
            final(self)@ == (AppConfigView {
                providers: old(self)@.providers.insert(
                    id@,
                    ProviderUserConfigView {
                        custom_endpoint: nonempty(endpoint@),
                        ..provider_settings(old(self)@, id@)
                    },
                ),
                ..old(self)@
            }),
    {
        let i = entry_or_default(&mut self.providers, id);
        let ghost before = self.providers@;
        self.providers[i].1.custom_endpoint = nonempty_string(owned(endpoint));
        proof {
            lemma_provider_map_update(before, i as int, self.providers@[i as int].1);
            assert(self.providers@ =~= before.update(i as int, (before[i as int].0, self.providers@[i as int].1)));
            let want = ProviderUserConfigView { custom_endpoint: nonempty(endpoint@), ..provider_settings(old(self)@, id@) };
            assert(self.providers@[i as int].1@ == want);
            assert(provider_map(self.providers@) =~= old(self)@.providers.insert(id@, want));
        }
    }
}

/// Enabling or disabling a provider is what decides whether a refresh polls it.
pub proof fn lemma_set_enabled_decides_polling(c: AppConfigView, id: Seq<char>, enabled: bool)
    ensures
        crate::provider::registry::is_enabled(
            AppConfigView {
                providers: c.providers.insert(
                    id,
                    ProviderUserConfigView { enabled: Some(enabled), ..provider_settings(c, id) },
                ),
                ..c
            },
            id,
        ) == enabled,
{
}

/// A key pasted in Settings is the key the provider is fetched with, whatever
/// the environment holds; clearing it (an empty key) falls back to the
/// provider's environment variable.
pub proof fn lemma_pasted_key_overrides_env(
    c: AppConfigView,
    e: crate::provider::EnvSnapshot,
    id: Seq<char>,
    key: Seq<char>,
    var: Option<Seq<char>>,
)
    ensures
        ({
            let after = AppConfigView {
                providers: c.providers.insert(
                    id,
                    ProviderUserConfigView { custom_api_key: nonempty(key), ..provider_settings(c, id) },
                ),
                ..c
            };
            &&& key.len() > 0 ==> crate::provider::registry::api_key_for(after, e, id, var) == Some(key)
            &&& key.len() == 0 ==> crate::provider::registry::api_key_for(after, e, id, var) == match var {
                Some(v) => crate::provider::env_value(e, v),
                None => None,
            }
        }),
{
}

/// A provider's settings, or the defaults when it has none.
pub open spec fn provider_settings(c: AppConfigView, id: Seq<char>) -> ProviderUserConfigView {
    if c.providers.dom().contains(id) {
        c.providers[id]
    } else {
        default_user_config()
    }
}

fn merge_providers(providers: &mut Vec<(String, ProviderUserConfig)>, members: &Vec<(String, JsonValue)>)
    ensures
        provider_map(final(providers)@) == merged_providers(provider_map(old(providers)@), members@),
{
    let ghost m0 = provider_map(providers@);
    let n = members.len();
    let mut i: usize = 0;
    while i < n
        invariant
            n == members@.len(),
            i <= n,
            provider_map(providers@) == merged_providers(m0, members@.take(i as int)),
        decreases n - i,
    {
        assert(members@.take(i + 1).drop_last() =~= members@.take(i as int));
        let id = members[i].0.as_str();
        let v = &members[i].1;
        if v.is_null() {
            remove_entry(providers, id);
        } else {
            let k = entry_or_default(providers, id);
            let ghost before = providers@;
            merge_user_config(&mut providers[k].1, v);
            proof {
                lemma_provider_map_update(before, k as int, providers@[k as int].1);
                assert(providers@ =~= before.update(k as int, (before[k as int].0, providers@[k as int].1)));
            }
        }
        i = i + 1;
    }
    assert(members@.take(n as int) =~= members@);
}

} // verus!
