//! Cursor IDE: no usage API, so the card points to the web dashboard.
use crate::errors::AppResult;
use crate::models::ProviderStatus;
use crate::provider::{is_notice, notice, opt_static, shown_label, Provider, ProviderContext};
use vstd::prelude::*;

verus! {

#[derive(Debug)]
pub struct CursorProvider;

impl Provider for CursorProvider {
    open spec fn spec_id(&self) -> Seq<char> {
        "cursor"@
    }

    open spec fn spec_label(&self) -> Seq<char> {
        "Cursor"@
    }

    open spec fn spec_kind(&self) -> Seq<char> {
        "subscription"@
    }

    open spec fn spec_docs_url(&self) -> Option<Seq<char>> {
        Some("https://cursor.com/settings"@)
    }

    open spec fn spec_description(&self) -> Seq<char> {
        "Cursor IDE usage. No public Bearer API — check web dashboard."@
    }

    open spec fn spec_env_var(&self) -> Option<Seq<char>> {
        None
    }

    fn id(&self) -> &'static str {
        "cursor"
    }

    fn label(&self) -> &'static str {
        "Cursor"
    }

    fn kind(&self) -> &'static str {
        "subscription"
    }

    fn docs_url(&self) -> Option<&'static str> {
        Some("https://cursor.com/settings")
    }

    fn description(&self) -> &'static str {
        "Cursor IDE usage. No public Bearer API — check web dashboard."
    }

    fn env_var(&self) -> Option<&'static str> {
        None
    }
}


/// The note a Cursor card shows.
pub open spec fn cursor_note() -> Seq<char> {
    "Cursor does not expose a public usage API. Check cursor.com/settings for usage info."@
}

impl CursorProvider {
    /// Cursor has no usage API: the status is always a note that points to the web dashboard.
    pub fn fetch<N>(&self, ctx: &ProviderContext, fetched_at: i64, latency_ms: u64) -> (r: AppResult<ProviderStatus<N>>)
        ensures
            r matches Ok(s) && is_notice(
                s,
                "cursor"@,
                shown_label(ctx.custom_label, "Cursor"@),
                "subscription"@,
                cursor_note(),
                fetched_at,
                latency_ms,
            ),
    {
        Ok(notice(
            "cursor",
            &ctx.custom_label,
            "Cursor",
            "subscription",
            "Cursor does not expose a public usage API. Check cursor.com/settings for usage info.",
            fetched_at,
            latency_ms,
        ))
    }
}

} // verus!
