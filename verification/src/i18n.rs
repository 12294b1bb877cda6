//! The interface language: the saved choice, the system language, and the
//! choice of a text in either language.
use vstd::prelude::*;

use crate::text::str_equal;

verus! {

/// A language the interface is shown in.
#[derive(Debug, Clone, Copy, PartialEq, Eq, Structural)]
pub enum Language {
    Chinese,
    English,
}

/// The saved language setting.
#[derive(Debug, Clone, Copy, PartialEq, Eq, Structural)]
pub enum LanguageChoice {
    /// Follow the Windows display language.
    System,
    Chinese,
    English,
}

/// Whether a Windows LANGID names Chinese: its primary language (the low ten
/// bits) is `LANG_CHINESE`, whatever the sublanguage.
pub open spec fn is_chinese_language_id(language_id: u16) -> bool {
    language_id % 1024 == 4
}

/// The interface language for a Windows display language.
pub fn language_from_id(language_id: u16) -> (language: Language)
    ensures
        language == if is_chinese_language_id(language_id) {
            Language::Chinese
        } else {
            Language::English
        },
{
    if language_id % 1024 == 4 {
        Language::Chinese
    } else {
        Language::English
    }
}

/// The language a choice comes to, given the Windows display language.
pub fn resolve(choice: LanguageChoice, system_language_id: u16) -> (language: Language)
    ensures
        language == match choice {
            LanguageChoice::System => if is_chinese_language_id(system_language_id) {
                Language::Chinese
            } else {
                Language::English
            },
            LanguageChoice::Chinese => Language::Chinese,
            LanguageChoice::English => Language::English,
        },
{
    match choice {
        LanguageChoice::System => language_from_id(system_language_id),
        LanguageChoice::Chinese => Language::Chinese,
        LanguageChoice::English => Language::English,
    }
}

/// The numeric code the current language is kept under; zero means unset.
pub fn language_code(language: Language) -> (code: u8)
    ensures
        code == match language {
            Language::Chinese => 1u8,
            Language::English => 2u8,
        },
{
    match language {
        Language::Chinese => 1,
        Language::English => 2,
    }
}

/// The language a stored code stands for.
pub fn language_of_code(code: u8) -> (language: Option<Language>)
    ensures
        language == if code == 1 {
            Some(Language::Chinese)
        } else if code == 2 {
            Some(Language::English)
        } else {
            None
        },
{
    if code == 1 {
        Some(Language::Chinese)
    } else if code == 2 {
        Some(Language::English)
    } else {
        None
    }
}

/// The text a choice is saved as.
pub open spec fn choice_text(choice: LanguageChoice) -> Seq<char> {
    match choice {
        LanguageChoice::System => "system"@,
        LanguageChoice::Chinese => "zh-CN"@,
        LanguageChoice::English => "en"@,
    }
}

pub fn choice_value(choice: LanguageChoice) -> (value: &'static str)
    ensures
        value@ == choice_text(choice),
{
    match choice {
        LanguageChoice::System => "system",
        LanguageChoice::Chinese => "zh-CN",
        LanguageChoice::English => "en",
    }
}

/// Reads a saved choice; anything unknown follows the system.
pub fn parse_choice(value: &str) -> (choice: LanguageChoice)
    ensures
        choice == if value@ == "zh-CN"@ {
            LanguageChoice::Chinese
        } else if value@ == "en"@ {
            LanguageChoice::English
        } else {
            LanguageChoice::System
        },
{
    if str_equal(value, "zh-CN") {
        LanguageChoice::Chinese
    } else if str_equal(value, "en") {
        LanguageChoice::English
    } else {
        LanguageChoice::System
    }
}

/// The text for the language: the Chinese one or the English one.
pub fn tr(language: Language, chinese: &'static str, english: &'static str) -> (text: &'static str)
    ensures
        text == match language {
            Language::Chinese => chinese,
            Language::English => english,
        },
{
    match language {
        Language::Chinese => chinese,
        Language::English => english,
    }
}

pub fn is_chinese(language: Language) -> (chinese: bool)
    ensures
        chinese == (language == Language::Chinese),
{
    language == Language::Chinese
}

/// The product's name in the language.
pub fn product_name(language: Language) -> (name: &'static str)
    ensures
        name@ == match language {
            Language::Chinese => "说写"@,
            Language::English => "FlowType"@,
        },
{
    tr(language, "说写", "FlowType")
}

/// Saving a choice and reading it back gives the same choice.
pub proof fn law_saved_choice_reads_back(choice: LanguageChoice)
    ensures
        (if choice_text(choice) == "zh-CN"@ {
            LanguageChoice::Chinese
        } else if choice_text(choice) == "en"@ {
            LanguageChoice::English
        } else {
            LanguageChoice::System
        }) == choice,
{
    reveal_strlit("zh-CN");
    reveal_strlit("en");
    reveal_strlit("system");
    assert("zh-CN"@.len() == 5);
    assert("en"@.len() == 2);
    assert("system"@.len() == 6);
}

} // verus!
