//! Verified core of a desktop tray application that shows the usage and
//! balance of several LLM vendors: the configuration and its patches, the
//! provider registry and the requests and answers of each vendor, threshold
//! notifications, the tray's state, usage history and Gist sync.
pub mod clock;
pub mod config;
pub mod errors;
pub mod history;
pub mod i18n;
pub mod json;
pub mod models;
pub mod notify;
pub mod poll;
pub mod provider;
pub mod sync;
pub mod text;
pub mod tray;

use vstd::prelude::*;

verus! {

/// How to run the application.
#[derive(Debug, Clone, Copy)]
pub struct RunOptions {
    /// No main window (service mode): only the tray, the poll loop and notifications.
    pub headless: bool,
}

impl Default for RunOptions {
    fn default() -> (r: RunOptions)
        ensures
            !r.headless,
    {
        RunOptions { headless: false }
    }
}

/// Options for a command line: `--service` runs headless.
pub fn options_for_args(args: &Vec<String>) -> (r: RunOptions)
    ensures
        r.headless == exists|i: int| 0 <= i < args@.len() && (#[trigger] args@[i])@ == "--service"@,
{
    let n = args.len();
    let mut i: usize = 0;
    while i < n
        invariant
            n == args@.len(),
            i <= n,
            forall|j: int| 0 <= j < i ==> (#[trigger] args@[j])@ != "--service"@,
        decreases n - i,
    {
        if text::str_eq(args[i].as_str(), "--service") {
            return RunOptions { headless: true };
        }
        i = i + 1;
    }
    RunOptions { headless: false }
}

/// Health check for the frontend bridge.
pub fn ping() -> (r: String)
    ensures
        r@ == "pong"@,
{
    text::owned("pong")
}

/// Hours of history a chart shows when the frontend does not say: one day.
pub fn history_hours(requested: Option<u32>) -> (r: u32)
    ensures
        r == match requested {
            Some(h) => h,
            None => 24,
        },
{
    match requested {
        Some(h) => h,
        None => 24,
    }
}

} // verus!
