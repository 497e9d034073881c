//! The texts of the user interface in Traditional Chinese and English.
use vstd::prelude::*;
use crate::text::str_eq;

verus! {

/// A language of the user interface.
#[derive(Debug, Clone, Copy, PartialEq, Eq, Structural)]
pub enum Language {
    ZhTW,
    En,
}

/// The language that a configured language code selects: English for "en",
/// Traditional Chinese for anything else.
pub open spec fn language_of(code: Seq<char>) -> Language {
    if code == "en"@ {
        Language::En
    } else {
        Language::ZhTW
    }
}

/// The first text in Traditional Chinese, the second in English.
pub open spec fn pick(lang: Language, zh_tw: Seq<char>, en: Seq<char>) -> Seq<char> {
    match lang {
        Language::ZhTW => zh_tw,
        Language::En => en,
    }
}

/// The text of `key` in `lang`, if `key` is one of the known keys.
pub open spec fn localized_text(lang: Language, key: Seq<char>) -> Option<Seq<char>> {
    if key == "dashboard"@ {
        Some(pick(lang, "儀表板"@, "Dashboard"@))
    } else if key == "network"@ {
        Some(pick(lang, "網路流量"@, "Network"@))
    } else if key == "processes"@ {
        Some(pick(lang, "進程"@, "Processes"@))
    } else if key == "settings"@ {
        Some(pick(lang, "設定"@, "Settings"@))
    } else if key == "cpu"@ {
        Some(pick(lang, "CPU"@, "CPU"@))
    } else if key == "memory"@ {
        Some(pick(lang, "記憶體"@, "Memory"@))
    } else if key == "gpu"@ {
        Some(pick(lang, "GPU"@, "GPU"@))
    } else if key == "download"@ {
        Some(pick(lang, "下載"@, "Download"@))
    } else if key == "upload"@ {
        Some(pick(lang, "上傳"@, "Upload"@))
    } else if key == "today"@ {
        Some(pick(lang, "今日"@, "Today"@))
    } else if key == "daily_limit"@ {
        Some(pick(lang, "每日上限"@, "Daily Limit"@))
    } else if key == "monthly_limit"@ {
        Some(pick(lang, "每月上限"@, "Monthly Limit"@))
    } else if key == "traffic_history"@ {
        Some(pick(lang, "流量歷史"@, "Traffic History"@))
    } else if key == "cpu_cores"@ {
        Some(pick(lang, "CPU 核心"@, "CPU Cores"@))
    } else if key == "save"@ {
        Some(pick(lang, "儲存"@, "Save"@))
    } else if key == "reset"@ {
        Some(pick(lang, "還原預設"@, "Reset"@))
    } else if key == "traffic_limits"@ {
        Some(pick(lang, "流量限制"@, "Traffic Limits"@))
    } else if key == "alerts"@ {
        Some(pick(lang, "告警"@, "Alerts"@))
    } else if key == "enable_alerts"@ {
        Some(pick(lang, "啟用告警"@, "Enable Alerts"@))
    } else if key == "notification_sound"@ {
        Some(pick(lang, "通知音效"@, "Notification Sound"@))
    } else if key == "auto_disconnect"@ {
        Some(pick(lang, "達上限自動斷網"@, "Auto-disconnect on Limit"@))
    } else if key == "general"@ {
        Some(pick(lang, "一般"@, "General"@))
    } else if key == "start_with_windows"@ {
        Some(pick(lang, "開機自動啟動"@, "Start with Windows"@))
    } else if key == "minimize_to_tray"@ {
        Some(pick(lang, "最小化到系統匣"@, "Minimize to Tray"@))
    } else if key == "show_gpu"@ {
        Some(pick(lang, "顯示 GPU"@, "Show GPU"@))
    } else if key == "interface"@ {
        Some(pick(lang, "介面"@, "Interface"@))
    } else if key == "theme"@ {
        Some(pick(lang, "主題"@, "Theme"@))
    } else if key == "dark"@ {
        Some(pick(lang, "深色"@, "Dark"@))
    } else if key == "light"@ {
        Some(pick(lang, "淺色"@, "Light"@))
    } else if key == "language"@ {
        Some(pick(lang, "語言"@, "Language"@))
    } else if key == "no_data"@ {
        Some(pick(lang, "尚無資料"@, "No data yet"@))
    } else if key == "speed"@ {
        Some(pick(lang, "速度"@, "Speed"@))
    } else if key == "total"@ {
        Some(pick(lang, "總計"@, "Total"@))
    } else {
        None
    }
}

/// The text shown for `key`: its text in the language, or the key itself when it is
/// not a known key.
pub open spec fn text_for(lang: Language, key: Seq<char>) -> Seq<char> {
    match localized_text(lang, key) {
        Some(t) => t,
        None => key,
    }
}

/// Looks up the texts of the user interface.
pub struct I18n {
    pub lang: Language,
}

impl I18n {
    /// A text table for a language code: "en" gives English, every other
    /// code Traditional Chinese.
    pub fn new(lang: &str) -> (r: Self)
        ensures
            r.lang == language_of(lang@),
    {
        let lang = if str_eq(lang, "en") {
            Language::En
        } else {
            Language::ZhTW
        };
        I18n { lang }
    }

    /// The text for `key` in this table's language; unknown keys are
    /// shown as they are.
    pub fn t<'a>(&'a self, key: &'a str) -> (r: &'a str)
        ensures
            r@ == text_for(self.lang, key@),
    {
        if str_eq(key, "dashboard") {
            return match self.lang {
                Language::ZhTW => "儀表板",
                Language::En => "Dashboard",
            };
        }
        if str_eq(key, "network") {
            return match self.lang {
                Language::ZhTW => "網路流量",
                Language::En => "Network",
            };
        }
        if str_eq(key, "processes") {
            return match self.lang {
                Language::ZhTW => "進程",
                Language::En => "Processes",
            };
        }
        if str_eq(key, "settings") {
            return match self.lang {
                Language::ZhTW => "設定",
                Language::En => "Settings",
            };
        }
        if str_eq(key, "cpu") {
            return match self.lang {
                Language::ZhTW => "CPU",
                Language::En => "CPU",
            };
        }
        if str_eq(key, "memory") {
            return match self.lang {
                Language::ZhTW => "記憶體",
                Language::En => "Memory",
            };
        }
        if str_eq(key, "gpu") {
            return match self.lang {
                Language::ZhTW => "GPU",
                Language::En => "GPU",
            };
        }
        if str_eq(key, "download") {
            return match self.lang {
                Language::ZhTW => "下載",
                Language::En => "Download",
            };
        }
        if str_eq(key, "upload") {
            return match self.lang {
                Language::ZhTW => "上傳",
                Language::En => "Upload",
            };
        }
        if str_eq(key, "today") {
            return match self.lang {
                Language::ZhTW => "今日",
                Language::En => "Today",
            };
        }
        if str_eq(key, "daily_limit") {
            return match self.lang {
                Language::ZhTW => "每日上限",
                Language::En => "Daily Limit",
            };
        }
        if str_eq(key, "monthly_limit") {
            return match self.lang {
                Language::ZhTW => "每月上限",
                Language::En => "Monthly Limit",
            };
        }
        if str_eq(key, "traffic_history") {
            return match self.lang {
                Language::ZhTW => "流量歷史",
                Language::En => "Traffic History",
            };
        }
        if str_eq(key, "cpu_cores") {
            return match self.lang {
                Language::ZhTW => "CPU 核心",
                Language::En => "CPU Cores",
            };
        }
        if str_eq(key, "save") {
            return match self.lang {
                Language::ZhTW => "儲存",
                Language::En => "Save",
            };
        }
        if str_eq(key, "reset") {
            return match self.lang {
                Language::ZhTW => "還原預設",
                Language::En => "Reset",
            };
        }
        if str_eq(key, "traffic_limits") {
            return match self.lang {
                Language::ZhTW => "流量限制",
                Language::En => "Traffic Limits",
            };
        }
        if str_eq(key, "alerts") {
            return match self.lang {
                Language::ZhTW => "告警",
                Language::En => "Alerts",
            };
        }
        if str_eq(key, "enable_alerts") {
            return match self.lang {
                Language::ZhTW => "啟用告警",
                Language::En => "Enable Alerts",
            };
        }
        if str_eq(key, "notification_sound") {
            return match self.lang {
                Language::ZhTW => "通知音效",
                Language::En => "Notification Sound",
            };
        }
        if str_eq(key, "auto_disconnect") {
            return match self.lang {
                Language::ZhTW => "達上限自動斷網",
                Language::En => "Auto-disconnect on Limit",
            };
        }
        if str_eq(key, "general") {
            return match self.lang {
                Language::ZhTW => "一般",
                Language::En => "General",
            };
        }
        if str_eq(key, "start_with_windows") {
            return match self.lang {
                Language::ZhTW => "開機自動啟動",
                Language::En => "Start with Windows",
            };
        }
        if str_eq(key, "minimize_to_tray") {
            return match self.lang {
                Language::ZhTW => "最小化到系統匣",
                Language::En => "Minimize to Tray",
            };
        }
        if str_eq(key, "show_gpu") {
            return match self.lang {
                Language::ZhTW => "顯示 GPU",
                Language::En => "Show GPU",
            };
        }
        if str_eq(key, "interface") {
            return match self.lang {
                Language::ZhTW => "介面",
                Language::En => "Interface",
            };
        }
        if str_eq(key, "theme") {
            return match self.lang {
                Language::ZhTW => "主題",
                Language::En => "Theme",
            };
        }
        if str_eq(key, "dark") {
            return match self.lang {
                Language::ZhTW => "深色",
                Language::En => "Dark",
            };
        }
        if str_eq(key, "light") {
            return match self.lang {
                Language::ZhTW => "淺色",
                Language::En => "Light",
            };
        }
        if str_eq(key, "language") {
            return match self.lang {
                Language::ZhTW => "語言",
                Language::En => "Language",
            };
        }
        if str_eq(key, "no_data") {
            return match self.lang {
                Language::ZhTW => "尚無資料",
                Language::En => "No data yet",
            };
        }
        if str_eq(key, "speed") {
            return match self.lang {
                Language::ZhTW => "速度",
                Language::En => "Speed",
            };
        }
        if str_eq(key, "total") {
            return match self.lang {
                Language::ZhTW => "總計",
                Language::En => "Total",
            };
        }
        key
    }
}

/// Both languages have texts for exactly the same keys.
pub proof fn law_languages_cover_same_keys(key: Seq<char>)
    ensures
        localized_text(Language::ZhTW, key) is Some <==> localized_text(Language::En, key) is Some,
{
}

/// A key that is not known is shown as it is, in every language.
pub proof fn law_unknown_keys_shown_verbatim(lang: Language, key: Seq<char>)
    requires
        localized_text(Language::En, key) is None,
    ensures
        text_for(lang, key) == key,
{
}

} // verus!
