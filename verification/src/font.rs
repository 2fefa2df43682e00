//! Languages, the font families tried for each, and what can go wrong while
//! loading a font.

use vstd::prelude::*;
use vstd::string::{StrSliceExecFns, StringExecFns};

verus! {

/// The languages for which a font can be chosen.
#[derive(Debug, Clone, Copy, PartialEq, Eq, Hash, Structural)]
pub enum Language {
    /// Chinese, simplified and traditional.
    Chinese,
    English,
    Japanese,
    Korean,
}

impl Language {
    /// The English name of a language.
    pub open spec fn spec_name(self) -> Seq<char> {
        match self {
            Language::Chinese => "Chinese"@,
            Language::English => "English"@,
            Language::Japanese => "Japanese"@,
            Language::Korean => "Korean"@,
        }
    }

    /// The English name of the language.
    pub fn name(&self) -> (r: &'static str)
        ensures
            r@ == self.spec_name(),
    {
        match self {
            Language::Chinese => "Chinese",
            Language::English => "English",
            Language::Japanese => "Japanese",
            Language::Korean => "Korean",
        }
    }
}

/// A font as loaded from the system.
#[derive(Clone)]
pub struct LoadedFont {
    /// Name of the font family.
    pub family_name: String,
    /// The bytes of the TTF or OTF file.
    pub data: Vec<u8>,
}

/// What can go wrong while loading a font.
#[derive(Debug)]
pub enum FontError {
    /// The system's fonts could not be listed; holds the reason.
    ScanFailed(String),
    /// No family of the given name exists.
    FontNotFound(String),
    /// The family of the given name holds no font.
    NoFontInFamily(String),
    /// The font file could not be read; holds the reason.
    LoadFailed(String),
    /// None of the families tried for the language could be loaded.
    NoSuitableFont(Language),
}

impl FontError {
    /// The wording of an error.
    pub open spec fn spec_message(self) -> Seq<char> {
        match self {
            FontError::ScanFailed(reason) => "Failed to scan system fonts: "@ + reason@,
            FontError::FontNotFound(name) => "Font not found: "@ + name@,
            FontError::NoFontInFamily(name) => "No fonts in family: "@ + name@,
            FontError::LoadFailed(reason) => "Failed to load font: "@ + reason@,
            FontError::NoSuitableFont(language) => "No suitable font found for language: "@
                + language.spec_name(),
        }
    }

    /// The wording of the error.
    pub fn message(&self) -> (r: String)
        ensures
            r@ == self.spec_message(),
    {
        match self {
            FontError::ScanFailed(reason) => String::from_str(
                "Failed to scan system fonts: ",
            ).concat(reason.as_str()),
            FontError::FontNotFound(name) => String::from_str("Font not found: ").concat(
                name.as_str(),
            ),
            FontError::NoFontInFamily(name) => String::from_str("No fonts in family: ").concat(
                name.as_str(),
            ),
            FontError::LoadFailed(reason) => String::from_str("Failed to load font: ").concat(
                reason.as_str(),
            ),
            FontError::NoSuitableFont(language) => String::from_str(
                "No suitable font found for language: ",
            ).concat(language.name()),
        }
    }
}

/// The font families tried for each language.
pub struct FontPresets;

impl FontPresets {
    /// The families tried for a language, the preferred one first.
    pub open spec fn spec_for_language(language: Language) -> Seq<Seq<char>> {
        match language {
            Language::Chinese => seq![
                "SimHei"@,
                "Microsoft YaHei"@,
                "Microsoft YaHei UI"@,
                "SimSun"@,
                "NSimSun"@,
                "KaiTi"@,
            ],
            Language::English => seq![
                "Segoe UI"@,
                "Arial"@,
                "Calibri"@,
                "Tahoma"@,
                "Verdana"@,
                "Consolas"@,
            ],
            Language::Japanese => seq![
                "Yu Gothic UI"@,
                "Yu Gothic"@,
                "Meiryo UI"@,
                "Meiryo"@,
                "MS Gothic"@,
                "MS UI Gothic"@,
            ],
            Language::Korean => seq!["Malgun Gothic"@, "Gulim"@, "Dotum"@, "Batang"@],
        }
    }

    /// The families to try for `language`, the preferred one first.
    pub fn for_language(language: Language) -> (r: &'static [&'static str])
        ensures
            r@.len() == Self::spec_for_language(language).len(),
            forall|i: int|
                0 <= i < r@.len() ==> (#[trigger] r@[i])@ == Self::spec_for_language(language)[i],
    {
        match language {
            Language::Chinese => {
                let r: &'static [&'static str] = &[
                    "SimHei",
                    "Microsoft YaHei",
                    "Microsoft YaHei UI",
                    "SimSun",
                    "NSimSun",
                    "KaiTi",
                ];
                r
            },
            Language::English => {
                let r: &'static [&'static str] = &[
                    "Segoe UI",
                    "Arial",
                    "Calibri",
                    "Tahoma",
                    "Verdana",
                    "Consolas",
                ];
                r
            },
            Language::Japanese => {
                let r: &'static [&'static str] = &[
                    "Yu Gothic UI",
                    "Yu Gothic",
                    "Meiryo UI",
                    "Meiryo",
                    "MS Gothic",
                    "MS UI Gothic",
                ];
                r
            },
            Language::Korean => {
                let r: &'static [&'static str] = &["Malgun Gothic", "Gulim", "Dotum", "Batang"];
                r
            },
        }
    }
}

/// Whether `locale` starts with the two letters `first` and `second`.
pub open spec fn starts_with_pair(locale: Seq<char>, first: char, second: char) -> bool {
    locale.len() >= 2 && locale[0] == first && locale[1] == second
}

/// The language of a locale name such as `zh-CN`, `ja-JP` or `en-US`: Chinese
/// for `zh`, Japanese for `ja`, Korean for `ko`, else English.
pub open spec fn language_of_locale(locale: Seq<char>) -> Language {
    if starts_with_pair(locale, 'z', 'h') {
        Language::Chinese
    } else if starts_with_pair(locale, 'j', 'a') {
        Language::Japanese
    } else if starts_with_pair(locale, 'k', 'o') {
        Language::Korean
    } else {
        Language::English
    }
}

/// The language to start with, from the locale name that the system
/// reports: English where it reports none.
pub fn detect_system_language(locale: Option<&str>) -> (r: Language)
    ensures
        r == match locale {
            Some(name) => language_of_locale(name@),
            None => Language::English,
        },
{
    match locale {
        None => Language::English,
        Some(name) => {
            if name.unicode_len() < 2 {
                return Language::English;
            }
            let first = name.get_char(0);
            let second = name.get_char(1);
            if first == 'z' && second == 'h' {
                Language::Chinese
            } else if first == 'j' && second == 'a' {
                Language::Japanese
            } else if first == 'k' && second == 'o' {
                Language::Korean
            } else {
                Language::English
            }
        },
    }
}

} // verus!
