//! Cross-device sync through a private GitHub Gist: what is sent, where, and
//! what an answer must hold.
use crate::errors::AppError;
use crate::models::{opt_str, AppConfig, AppConfigView};
use crate::text::{concat, owned, str_eq};
use vstd::prelude::*;
use vstd::string::*;

verus! {

pub open spec fn gist_api() -> Seq<char> {
    "https://api.github.com/gists"@
}

/// Where an export goes: the existing gist, or the collection when creating one.
pub open spec fn gist_url_spec(gist_id: Option<Seq<char>>) -> Seq<char> {
    match gist_id {
        Some(id) => gist_api() + "/"@ + id,
        None => gist_api(),
    }
}

pub fn gist_url(gist_id: Option<&str>) -> (r: String)
    ensures
        r@ == gist_url_spec(crate::provider::opt_static(gist_id)),
{
    match gist_id {
        Some(id) => {
            let mut u = owned("https://api.github.com/gists");
            u.append("/");
            u.append(id);
            u
        },
        None => owned("https://api.github.com/gists"),
    }
}

/// The files of an export: the configuration and the history, both as JSON text.
pub fn export_files(config_json: String, history_json: String) -> (r: Vec<(String, String)>)
    ensures
        r@.len() == 2,
        r@[0].0@ == "config.json"@,
        r@[0].1 == config_json,
        r@[1].0@ == "history.json"@,
        r@[1].1 == history_json,
{
    vec![(owned("config.json"), config_json), (owned("history.json"), history_json)]
}

/// The token an export or import needs.
pub fn sync_token(cfg: &AppConfig) -> (r: Result<String, AppError>)
    ensures
        match cfg@.sync_gist_token {
            Some(t) => r matches Ok(x) && x@ == t,
            None => r matches Err(AppError::Config(m)) && m@ == "no GitHub token set"@,
        },
{
    match &cfg.sync_gist_token {
        Some(t) => Ok(t.clone()),
        None => Err(AppError::Config(owned("no GitHub token set"))),
    }
}

/// The gist an import reads.
pub fn sync_gist_id(cfg: &AppConfig) -> (r: Result<String, AppError>)
    ensures
        match cfg@.sync_gist_id {
            Some(t) => r matches Ok(x) && x@ == t,
            None => r matches Err(AppError::Config(m)) && m@ == "no Gist ID set"@,
        },
{
    match &cfg.sync_gist_id {
        Some(t) => Ok(t.clone()),
        None => Err(AppError::Config(owned("no Gist ID set"))),
    }
}

/// The gist id an export ends with: the one it updated, else the one GitHub
/// created (read from the answer).
pub fn exported_gist_id(gist_id: Option<&str>, created: Option<String>) -> (r: Option<String>)
    ensures
        match gist_id {
            Some(id) => r matches Some(x) && x@ == id@,
            None => opt_str(r) == opt_str(created),
        },
{
    match gist_id {
        Some(id) => Some(owned(id)),
        None => created,
    }
}

/// Remember the gist a first export created.
pub fn record_gist_id(cfg: &mut AppConfig, id: &str)
    ensures
        final(cfg)@ == (AppConfigView { sync_gist_id: Some(id@), ..old(cfg)@ }),
{
    cfg.sync_gist_id = Some(owned(id));
}

/// The error for a non-success GitHub answer: its status and whole body.
pub fn gist_rejected(code: u16, body: String) -> (r: AppError)
    ensures
        r matches AppError::Upstream { status, body: b } && status == code && b == body,
{
    AppError::Upstream { status: code, body }
}

/// Content of the file `name` in a fetched gist (the first with that name).
pub open spec fn gist_file_spec(files: Seq<(String, String)>, name: Seq<char>) -> Option<Seq<char>>
    decreases files.len(),
{
    if files.len() == 0 {
        None
    } else if files[0].0@ == name {
        Some(files[0].1@)
    } else {
        gist_file_spec(files.drop_first(), name)
    }
}

pub fn gist_file<'a>(files: &'a Vec<(String, String)>, name: &str) -> (r: Option<&'a String>)
    ensures
        match r {
            Some(c) => gist_file_spec(files@, name@) == Some(c@),
            None => gist_file_spec(files@, name@) is None,
        },
{
    let n = files.len();
    let mut i: usize = 0;
    assert(files@.skip(0) =~= files@);
    while i < n
        invariant
            n == files@.len(),
            i <= n,
            gist_file_spec(files@, name@) == gist_file_spec(files@.skip(i as int), name@),
        decreases n - i,
    {
        assert(files@.skip(i as int).drop_first() =~= files@.skip(i + 1));
        assert(files@.skip(i as int)[0] == files@[i as int]);
        if str_eq(files[i].0.as_str(), name) {
            return Some(&files[i].1);
        }
        i = i + 1;
    }
    None
}

/// The configuration text of a fetched gist; a gist without `config.json` is refused.
pub fn gist_config(files: &Vec<(String, String)>) -> (r: Result<&String, AppError>)
    ensures
        match gist_file_spec(files@, "config.json"@) {
            Some(c) => r matches Ok(x) && x@ == c,
            None => r matches Err(AppError::Parse(m)) && m@ == "gist missing config.json"@,
        },
{
    match gist_file(files, "config.json") {
        Some(c) => Ok(c),
        None => Err(AppError::Parse(owned("gist missing config.json"))),
    }
}

/// What an export writes an import reads back: in the files of an export, the
/// configuration is found under `config.json` and the history under `history.json`.
pub proof fn lemma_export_then_import(files: Seq<(String, String)>, config_json: Seq<char>, history_json: Seq<char>)
    requires
        files.len() == 2,
        files[0].0@ == "config.json"@,
        files[0].1@ == config_json,
        files[1].0@ == "history.json"@,
        files[1].1@ == history_json,
    ensures
        gist_file_spec(files, "config.json"@) == Some(config_json),
        gist_file_spec(files, "history.json"@) == Some(history_json),
{
    reveal_strlit("config.json");
    reveal_strlit("history.json");
    assert("config.json"@ != "history.json"@) by {
        assert("config.json"@[0] != "history.json"@[0]);
    }
    let rest = files.drop_first();
    assert(rest[0] == files[1]);
    assert(gist_file_spec(rest, "history.json"@) == Some(history_json));
}

/// The error for a configuration in a gist that does not parse.
pub fn config_parse_error(reason: &str) -> (r: AppError)
    ensures
        r matches AppError::Parse(m) && m@ == "config parse: "@ + reason@,
{
    AppError::Parse(concat("config parse: ", reason))
}

} // verus!
