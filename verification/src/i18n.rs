//! UI language preference and the few strings the backend itself shows
//! (tray menu labels and notification text).
use crate::text::str_eq;
use vstd::prelude::*;

verus! {

/// Supported UI languages.
#[derive(Debug, Clone, Copy, PartialEq, Eq, Structural)]
pub enum Language {
    EnUS,
    ZhCN,
}

/// Language for a configuration value: `"zh-CN"` selects Chinese, anything else English.
pub open spec fn language_of(s: Seq<char>) -> Language {
    if s == "zh-CN"@ {
        Language::ZhCN
    } else {
        Language::EnUS
    }
}

/// Tag stored in the configuration for a language.
pub open spec fn language_tag(l: Language) -> Seq<char> {
    match l {
        Language::EnUS => "en-US"@,
        Language::ZhCN => "zh-CN"@,
    }
}

/// Translation table; unknown keys translate to the empty string.
pub open spec fn translate(l: Language, key: Seq<char>) -> Seq<char> {
    match l {
        Language::EnUS => if key == "tray.show"@ {
            "Show dashboard"@
        } else if key == "tray.refresh"@ {
            "Refresh now"@
        } else if key == "tray.settings"@ {
            "Open settings"@
        } else if key == "tray.quit"@ {
            "Quit"@
        } else if key == "notify.below"@ {
            "below"@
        } else if key == "notify.check"@ {
            "check provider"@
        } else {
            ""@
        },
        Language::ZhCN => if key == "tray.show"@ {
            "显示面板"@
        } else if key == "tray.refresh"@ {
            "立即刷新"@
        } else if key == "tray.settings"@ {
            "打开设置"@
        } else if key == "tray.quit"@ {
            "退出"@
        } else if key == "notify.below"@ {
            "低于"@
        } else if key == "notify.check"@ {
            "请检查供应商"@
        } else {
            ""@
        },
    }
}

impl Language {
    /// Parse the configured language; unknown values fall back to English.
    pub fn from_str(s: &str) -> (r: Language)
        ensures
            r == language_of(s@),
    {
        if str_eq(s, "zh-CN") {
            Language::ZhCN
        } else {
            Language::EnUS
        }
    }

    /// The configuration tag of this language.
    pub fn as_str(&self) -> (r: &'static str)
        ensures
            r@ == language_tag(*self),
    {
        match self {
            Language::EnUS => "en-US",
            Language::ZhCN => "zh-CN",
        }
    }

    /// Translated text for a tray-menu or notification key.
    pub fn t(&self, key: &str) -> (r: &'static str)
        ensures
            r@ == translate(*self, key@),
    {
        match self {
            Language::EnUS => {
                if str_eq(key, "tray.show") {
                    "Show dashboard"
                } else if str_eq(key, "tray.refresh") {
                    "Refresh now"
                } else if str_eq(key, "tray.settings") {
                    "Open settings"
                } else if str_eq(key, "tray.quit") {
                    "Quit"
                } else if str_eq(key, "notify.below") {
                    "below"
                } else if str_eq(key, "notify.check") {
                    "check provider"
                } else {
                    ""
                }
            },
            Language::ZhCN => {
                if str_eq(key, "tray.show") {
                    "显示面板"
                } else if str_eq(key, "tray.refresh") {
                    "立即刷新"
                } else if str_eq(key, "tray.settings") {
                    "打开设置"
                } else if str_eq(key, "tray.quit") {
                    "退出"
                } else if str_eq(key, "notify.below") {
                    "低于"
                } else if str_eq(key, "notify.check") {
                    "请检查供应商"
                } else {
                    ""
                }
            },
        }
    }
}

/// Reading a language back from its own tag gives the same language.
pub proof fn lemma_language_tag_roundtrip(l: Language)
    ensures
        language_of(language_tag(l)) == l,
{
    reveal_strlit("en-US");
    reveal_strlit("zh-CN");
    if l == Language::EnUS {
        assert("en-US"@[0] != "zh-CN"@[0]);
    }
}

} // verus!
