//! Language and country hints, and normalization levels.

use vstd::prelude::*;
use vstd::string::*;
use crate::text::same_text;

verus! {

/// ISO 639-1 codes understood as hints.
#[derive(Debug, Clone, PartialEq, Eq, Hash)]
pub enum Language {
    /// English
    English,
    /// Spanish
    Spanish,
    /// French
    French,
    /// German
    German,
    /// Italian
    Italian,
    /// Portuguese
    Portuguese,
    /// Russian
    Russian,
    /// Chinese (Simplified)
    ChineseSimplified,
    /// Chinese (Traditional)
    ChineseTraditional,
    /// Japanese
    Japanese,
    /// Korean
    Korean,
    /// Arabic
    Arabic,
    /// Hindi
    Hindi,
    /// Dutch
    Dutch,
    /// Polish
    Polish,
    /// Swedish
    Swedish,
    /// Norwegian
    Norwegian,
    /// Danish
    Danish,
    /// Finnish
    Finnish,
    /// Czech
    Czech,
    /// Hungarian
    Hungarian,
    /// Romanian
    Romanian,
    /// Turkish
    Turkish,
    /// Greek
    Greek,
    /// Hebrew
    Hebrew,
    /// Thai
    Thai,
    /// Vietnamese
    Vietnamese,
    /// Indonesian
    Indonesian,
    /// Malay
    Malay,
    /// Any other code, kept as given.
    Custom(String),
}

/// The code of a language.
pub open spec fn language_code(x: Language) -> Seq<char> {
    match x {
        Language::English => "en"@,
        Language::Spanish => "es"@,
        Language::French => "fr"@,
        Language::German => "de"@,
        Language::Italian => "it"@,
        Language::Portuguese => "pt"@,
        Language::Russian => "ru"@,
        Language::ChineseSimplified => "zh"@,
        Language::ChineseTraditional => "zh-TW"@,
        Language::Japanese => "ja"@,
        Language::Korean => "ko"@,
        Language::Arabic => "ar"@,
        Language::Hindi => "hi"@,
        Language::Dutch => "nl"@,
        Language::Polish => "pl"@,
        Language::Swedish => "sv"@,
        Language::Norwegian => "no"@,
        Language::Danish => "da"@,
        Language::Finnish => "fi"@,
        Language::Czech => "cs"@,
        Language::Hungarian => "hu"@,
        Language::Romanian => "ro"@,
        Language::Turkish => "tr"@,
        Language::Greek => "el"@,
        Language::Hebrew => "he"@,
        Language::Thai => "th"@,
        Language::Vietnamese => "vi"@,
        Language::Indonesian => "id"@,
        Language::Malay => "ms"@,
        Language::Custom(code) => code@,
    }
}

/// The named language whose code is exactly `code`, if any.
pub open spec fn known_language(code: Seq<char>) -> Option<Language> {
    if code == "en"@ {
        Some(Language::English)
    } else if code == "es"@ {
        Some(Language::Spanish)
    } else if code == "fr"@ {
        Some(Language::French)
    } else if code == "de"@ {
        Some(Language::German)
    } else if code == "it"@ {
        Some(Language::Italian)
    } else if code == "pt"@ {
        Some(Language::Portuguese)
    } else if code == "ru"@ {
        Some(Language::Russian)
    } else if code == "zh"@ {
        Some(Language::ChineseSimplified)
    } else if code == "zh-TW"@ {
        Some(Language::ChineseTraditional)
    } else if code == "ja"@ {
        Some(Language::Japanese)
    } else if code == "ko"@ {
        Some(Language::Korean)
    } else if code == "ar"@ {
        Some(Language::Arabic)
    } else if code == "hi"@ {
        Some(Language::Hindi)
    } else if code == "nl"@ {
        Some(Language::Dutch)
    } else if code == "pl"@ {
        Some(Language::Polish)
    } else if code == "sv"@ {
        Some(Language::Swedish)
    } else if code == "no"@ {
        Some(Language::Norwegian)
    } else if code == "da"@ {
        Some(Language::Danish)
    } else if code == "fi"@ {
        Some(Language::Finnish)
    } else if code == "cs"@ {
        Some(Language::Czech)
    } else if code == "hu"@ {
        Some(Language::Hungarian)
    } else if code == "ro"@ {
        Some(Language::Romanian)
    } else if code == "tr"@ {
        Some(Language::Turkish)
    } else if code == "el"@ {
        Some(Language::Greek)
    } else if code == "he"@ {
        Some(Language::Hebrew)
    } else if code == "th"@ {
        Some(Language::Thai)
    } else if code == "vi"@ {
        Some(Language::Vietnamese)
    } else if code == "id"@ {
        Some(Language::Indonesian)
    } else if code == "ms"@ {
        Some(Language::Malay)
    } else {
        None
    }
}

/// What reading `code` yields, where `known` is the text that is looked up.
pub open spec fn language_read_as(r: Language, known: Seq<char>, code: Seq<char>) -> bool {
    match known_language(known) {
        Some(k) => r == k,
        None => r matches Language::Custom(s) && s@ == code,
    }
}

impl Language {
    /// The ISO 639-1 code of this language.
    pub fn to_string(&self) -> (r: String)
        ensures
            r@ == language_code(*self),
    {
        match self {
            Language::English => String::from_str("en"),
            Language::Spanish => String::from_str("es"),
            Language::French => String::from_str("fr"),
            Language::German => String::from_str("de"),
            Language::Italian => String::from_str("it"),
            Language::Portuguese => String::from_str("pt"),
            Language::Russian => String::from_str("ru"),
            Language::ChineseSimplified => String::from_str("zh"),
            Language::ChineseTraditional => String::from_str("zh-TW"),
            Language::Japanese => String::from_str("ja"),
            Language::Korean => String::from_str("ko"),
            Language::Arabic => String::from_str("ar"),
            Language::Hindi => String::from_str("hi"),
            Language::Dutch => String::from_str("nl"),
            Language::Polish => String::from_str("pl"),
            Language::Swedish => String::from_str("sv"),
            Language::Norwegian => String::from_str("no"),
            Language::Danish => String::from_str("da"),
            Language::Finnish => String::from_str("fi"),
            Language::Czech => String::from_str("cs"),
            Language::Hungarian => String::from_str("hu"),
            Language::Romanian => String::from_str("ro"),
            Language::Turkish => String::from_str("tr"),
            Language::Greek => String::from_str("el"),
            Language::Hebrew => String::from_str("he"),
            Language::Thai => String::from_str("th"),
            Language::Vietnamese => String::from_str("vi"),
            Language::Indonesian => String::from_str("id"),
            Language::Malay => String::from_str("ms"),
            Language::Custom(code) => code.clone(),
        }
    }

    /// Reads a language from its ISO 639-1 code; an unknown code becomes `Custom`.
    pub fn from_str(code: &str) -> (r: Language)
        ensures
            language_read_as(r, code@, code@),
    {
        if same_text(code, "en") {
            Language::English
        } else if same_text(code, "es") {
            Language::Spanish
        } else if same_text(code, "fr") {
            Language::French
        } else if same_text(code, "de") {
            Language::German
        } else if same_text(code, "it") {
            Language::Italian
        } else if same_text(code, "pt") {
            Language::Portuguese
        } else if same_text(code, "ru") {
            Language::Russian
        } else if same_text(code, "zh") {
            Language::ChineseSimplified
        } else if same_text(code, "zh-TW") {
            Language::ChineseTraditional
        } else if same_text(code, "ja") {
            Language::Japanese
        } else if same_text(code, "ko") {
            Language::Korean
        } else if same_text(code, "ar") {
            Language::Arabic
        } else if same_text(code, "hi") {
            Language::Hindi
        } else if same_text(code, "nl") {
            Language::Dutch
        } else if same_text(code, "pl") {
            Language::Polish
        } else if same_text(code, "sv") {
            Language::Swedish
        } else if same_text(code, "no") {
            Language::Norwegian
        } else if same_text(code, "da") {
            Language::Danish
        } else if same_text(code, "fi") {
            Language::Finnish
        } else if same_text(code, "cs") {
            Language::Czech
        } else if same_text(code, "hu") {
            Language::Hungarian
        } else if same_text(code, "ro") {
            Language::Romanian
        } else if same_text(code, "tr") {
            Language::Turkish
        } else if same_text(code, "el") {
            Language::Greek
        } else if same_text(code, "he") {
            Language::Hebrew
        } else if same_text(code, "th") {
            Language::Thai
        } else if same_text(code, "vi") {
            Language::Vietnamese
        } else if same_text(code, "id") {
            Language::Indonesian
        } else if same_text(code, "ms") {
            Language::Malay
        } else {
            Language::Custom(code.to_owned())
        }
    }
}

/// What `str::to_uppercase` makes of a text: the Unicode upper-case mapping,
/// a function of the characters alone.
pub uninterp spec fn upper_of(s: Seq<char>) -> Seq<char>;

/// Relies on `str::to_uppercase`: its result depends on the characters alone.
#[verifier::external_body]
fn to_upper(s: &str) -> (r: String)
    ensures
        r@ == upper_of(s@),
{
    s.to_uppercase()
}

/// ISO 3166-1 alpha-2 codes understood as hints.
#[derive(Debug, Clone, PartialEq, Eq, Hash)]
pub enum Country {
    /// United States
    UnitedStates,
    /// Canada
    Canada,
    /// United Kingdom
    UnitedKingdom,
    /// Germany
    Germany,
    /// France
    France,
    /// Italy
    Italy,
    /// Spain
    Spain,
    /// Portugal
    Portugal,
    /// Netherlands
    Netherlands,
    /// Belgium
    Belgium,
    /// Switzerland
    Switzerland,
    /// Austria
    Austria,
    /// Sweden
    Sweden,
    /// Norway
    Norway,
    /// Denmark
    Denmark,
    /// Finland
    Finland,
    /// Poland
    Poland,
    /// Czech Republic
    CzechRepublic,
    /// Hungary
    Hungary,
    /// Romania
    Romania,
    /// Greece
    Greece,
    /// Turkey
    Turkey,
    /// Russia
    Russia,
    /// China
    China,
    /// Japan
    Japan,
    /// South Korea
    SouthKorea,
    /// India
    India,
    /// Australia
    Australia,
    /// New Zealand
    NewZealand,
    /// Brazil
    Brazil,
    /// Mexico
    Mexico,
    /// Argentina
    Argentina,
    /// Chile
    Chile,
    /// South Africa
    SouthAfrica,
    /// Israel
    Israel,
    /// Saudi Arabia
    SaudiArabia,
    /// United Arab Emirates
    UnitedArabEmirates,
    /// Thailand
    Thailand,
    /// Vietnam
    Vietnam,
    /// Indonesia
    Indonesia,
    /// Malaysia
    Malaysia,
    /// Singapore
    Singapore,
    /// Philippines
    Philippines,
    /// Any other code, kept as given.
    Custom(String),
}

/// The code of a country.
pub open spec fn country_code(x: Country) -> Seq<char> {
    match x {
        Country::UnitedStates => "US"@,
        Country::Canada => "CA"@,
        Country::UnitedKingdom => "GB"@,
        Country::Germany => "DE"@,
        Country::France => "FR"@,
        Country::Italy => "IT"@,
        Country::Spain => "ES"@,
        Country::Portugal => "PT"@,
        Country::Netherlands => "NL"@,
        Country::Belgium => "BE"@,
        Country::Switzerland => "CH"@,
        Country::Austria => "AT"@,
        Country::Sweden => "SE"@,
        Country::Norway => "NO"@,
        Country::Denmark => "DK"@,
        Country::Finland => "FI"@,
        Country::Poland => "PL"@,
        Country::CzechRepublic => "CZ"@,
        Country::Hungary => "HU"@,
        Country::Romania => "RO"@,
        Country::Greece => "GR"@,
        Country::Turkey => "TR"@,
        Country::Russia => "RU"@,
        Country::China => "CN"@,
        Country::Japan => "JP"@,
        Country::SouthKorea => "KR"@,
        Country::India => "IN"@,
        Country::Australia => "AU"@,
        Country::NewZealand => "NZ"@,
        Country::Brazil => "BR"@,
        Country::Mexico => "MX"@,
        Country::Argentina => "AR"@,
        Country::Chile => "CL"@,
        Country::SouthAfrica => "ZA"@,
        Country::Israel => "IL"@,
        Country::SaudiArabia => "SA"@,
        Country::UnitedArabEmirates => "AE"@,
        Country::Thailand => "TH"@,
        Country::Vietnam => "VN"@,
        Country::Indonesia => "ID"@,
        Country::Malaysia => "MY"@,
        Country::Singapore => "SG"@,
        Country::Philippines => "PH"@,
        Country::Custom(code) => code@,
    }
}

/// The named country whose code is exactly `code`, if any.
pub open spec fn known_country(code: Seq<char>) -> Option<Country> {
    if code == "US"@ {
        Some(Country::UnitedStates)
    } else if code == "CA"@ {
        Some(Country::Canada)
    } else if code == "GB"@ {
        Some(Country::UnitedKingdom)
    } else if code == "DE"@ {
        Some(Country::Germany)
    } else if code == "FR"@ {
        Some(Country::France)
    } else if code == "IT"@ {
        Some(Country::Italy)
    } else if code == "ES"@ {
        Some(Country::Spain)
    } else if code == "PT"@ {
        Some(Country::Portugal)
    } else if code == "NL"@ {
        Some(Country::Netherlands)
    } else if code == "BE"@ {
        Some(Country::Belgium)
    } else if code == "CH"@ {
        Some(Country::Switzerland)
    } else if code == "AT"@ {
        Some(Country::Austria)
    } else if code == "SE"@ {
        Some(Country::Sweden)
    } else if code == "NO"@ {
        Some(Country::Norway)
    } else if code == "DK"@ {
        Some(Country::Denmark)
    } else if code == "FI"@ {
        Some(Country::Finland)
    } else if code == "PL"@ {
        Some(Country::Poland)
    } else if code == "CZ"@ {
        Some(Country::CzechRepublic)
    } else if code == "HU"@ {
        Some(Country::Hungary)
    } else if code == "RO"@ {
        Some(Country::Romania)
    } else if code == "GR"@ {
        Some(Country::Greece)
    } else if code == "TR"@ {
        Some(Country::Turkey)
    } else if code == "RU"@ {
        Some(Country::Russia)
    } else if code == "CN"@ {
        Some(Country::China)
    } else if code == "JP"@ {
        Some(Country::Japan)
    } else if code == "KR"@ {
        Some(Country::SouthKorea)
    } else if code == "IN"@ {
        Some(Country::India)
    } else if code == "AU"@ {
        Some(Country::Australia)
    } else if code == "NZ"@ {
        Some(Country::NewZealand)
    } else if code == "BR"@ {
        Some(Country::Brazil)
    } else if code == "MX"@ {
        Some(Country::Mexico)
    } else if code == "AR"@ {
        Some(Country::Argentina)
    } else if code == "CL"@ {
        Some(Country::Chile)
    } else if code == "ZA"@ {
        Some(Country::SouthAfrica)
    } else if code == "IL"@ {
        Some(Country::Israel)
    } else if code == "SA"@ {
        Some(Country::SaudiArabia)
    } else if code == "AE"@ {
        Some(Country::UnitedArabEmirates)
    } else if code == "TH"@ {
        Some(Country::Thailand)
    } else if code == "VN"@ {
        Some(Country::Vietnam)
    } else if code == "ID"@ {
        Some(Country::Indonesia)
    } else if code == "MY"@ {
        Some(Country::Malaysia)
    } else if code == "SG"@ {
        Some(Country::Singapore)
    } else if code == "PH"@ {
        Some(Country::Philippines)
    } else {
        None
    }
}

/// What reading `code` yields, where `known` is the text that is looked up.
pub open spec fn country_read_as(r: Country, known: Seq<char>, code: Seq<char>) -> bool {
    match known_country(known) {
        Some(k) => r == k,
        None => r matches Country::Custom(s) && s@ == code,
    }
}

impl Country {
    /// The ISO 3166-1 alpha-2 code of this country.
    pub fn to_string(&self) -> (r: String)
        ensures
            r@ == country_code(*self),
    {
        match self {
            Country::UnitedStates => String::from_str("US"),
            Country::Canada => String::from_str("CA"),
            Country::UnitedKingdom => String::from_str("GB"),
            Country::Germany => String::from_str("DE"),
            Country::France => String::from_str("FR"),
            Country::Italy => String::from_str("IT"),
            Country::Spain => String::from_str("ES"),
            Country::Portugal => String::from_str("PT"),
            Country::Netherlands => String::from_str("NL"),
            Country::Belgium => String::from_str("BE"),
            Country::Switzerland => String::from_str("CH"),
            Country::Austria => String::from_str("AT"),
            Country::Sweden => String::from_str("SE"),
            Country::Norway => String::from_str("NO"),
            Country::Denmark => String::from_str("DK"),
            Country::Finland => String::from_str("FI"),
            Country::Poland => String::from_str("PL"),
            Country::CzechRepublic => String::from_str("CZ"),
            Country::Hungary => String::from_str("HU"),
            Country::Romania => String::from_str("RO"),
            Country::Greece => String::from_str("GR"),
            Country::Turkey => String::from_str("TR"),
            Country::Russia => String::from_str("RU"),
            Country::China => String::from_str("CN"),
            Country::Japan => String::from_str("JP"),
            Country::SouthKorea => String::from_str("KR"),
            Country::India => String::from_str("IN"),
            Country::Australia => String::from_str("AU"),
            Country::NewZealand => String::from_str("NZ"),
            Country::Brazil => String::from_str("BR"),
            Country::Mexico => String::from_str("MX"),
            Country::Argentina => String::from_str("AR"),
            Country::Chile => String::from_str("CL"),
            Country::SouthAfrica => String::from_str("ZA"),
            Country::Israel => String::from_str("IL"),
            Country::SaudiArabia => String::from_str("SA"),
            Country::UnitedArabEmirates => String::from_str("AE"),
            Country::Thailand => String::from_str("TH"),
            Country::Vietnam => String::from_str("VN"),
            Country::Indonesia => String::from_str("ID"),
            Country::Malaysia => String::from_str("MY"),
            Country::Singapore => String::from_str("SG"),
            Country::Philippines => String::from_str("PH"),
            Country::Custom(code) => code.clone(),
        }
    }

    /// Reads a country from `upper`, the upper-cased form of `code`;
    /// an unknown code is kept as given in `code`.
    pub fn from_uppercase_code(upper: &str, code: &str) -> (r: Country)
        ensures
            country_read_as(r, upper@, code@),
    {
        if same_text(upper, "US") {
            Country::UnitedStates
        } else if same_text(upper, "CA") {
            Country::Canada
        } else if same_text(upper, "GB") {
            Country::UnitedKingdom
        } else if same_text(upper, "DE") {
            Country::Germany
        } else if same_text(upper, "FR") {
            Country::France
        } else if same_text(upper, "IT") {
            Country::Italy
        } else if same_text(upper, "ES") {
            Country::Spain
        } else if same_text(upper, "PT") {
            Country::Portugal
        } else if same_text(upper, "NL") {
            Country::Netherlands
        } else if same_text(upper, "BE") {
            Country::Belgium
        } else if same_text(upper, "CH") {
            Country::Switzerland
        } else if same_text(upper, "AT") {
            Country::Austria
        } else if same_text(upper, "SE") {
            Country::Sweden
        } else if same_text(upper, "NO") {
            Country::Norway
        } else if same_text(upper, "DK") {
            Country::Denmark
        } else if same_text(upper, "FI") {
            Country::Finland
        } else if same_text(upper, "PL") {
            Country::Poland
        } else if same_text(upper, "CZ") {
            Country::CzechRepublic
        } else if same_text(upper, "HU") {
            Country::Hungary
        } else if same_text(upper, "RO") {
            Country::Romania
        } else if same_text(upper, "GR") {
            Country::Greece
        } else if same_text(upper, "TR") {
            Country::Turkey
        } else if same_text(upper, "RU") {
            Country::Russia
        } else if same_text(upper, "CN") {
            Country::China
        } else if same_text(upper, "JP") {
            Country::Japan
        } else if same_text(upper, "KR") {
            Country::SouthKorea
        } else if same_text(upper, "IN") {
            Country::India
        } else if same_text(upper, "AU") {
            Country::Australia
        } else if same_text(upper, "NZ") {
            Country::NewZealand
        } else if same_text(upper, "BR") {
            Country::Brazil
        } else if same_text(upper, "MX") {
            Country::Mexico
        } else if same_text(upper, "AR") {
            Country::Argentina
        } else if same_text(upper, "CL") {
            Country::Chile
        } else if same_text(upper, "ZA") {
            Country::SouthAfrica
        } else if same_text(upper, "IL") {
            Country::Israel
        } else if same_text(upper, "SA") {
            Country::SaudiArabia
        } else if same_text(upper, "AE") {
            Country::UnitedArabEmirates
        } else if same_text(upper, "TH") {
            Country::Thailand
        } else if same_text(upper, "VN") {
            Country::Vietnam
        } else if same_text(upper, "ID") {
            Country::Indonesia
        } else if same_text(upper, "MY") {
            Country::Malaysia
        } else if same_text(upper, "SG") {
            Country::Singapore
        } else if same_text(upper, "PH") {
            Country::Philippines
        } else {
            Country::Custom(code.to_owned())
        }
    }

    /// Reads a country from its ISO 3166-1 alpha-2 code, in any letter case;
    /// an unknown code is kept as given.
    pub fn from_str(code: &str) -> (r: Country)
        ensures
            country_read_as(r, upper_of(code@), code@),
    {
        let upper = to_upper(code);
        Country::from_uppercase_code(upper.as_str(), code)
    }
}

/// Hints passed to the parser.
#[derive(Debug, Clone, Default)]
pub struct AddressHint {
    /// Language hint.
    pub language: Option<Language>,
    /// Country hint.
    pub country: Option<Country>,
}

impl AddressHint {
    /// A hint with neither language nor country.
    pub fn new() -> (r: AddressHint)
        ensures
            r.language is None,
            r.country is None,
    {
        AddressHint { language: None, country: None }
    }

    /// Sets the language hint, keeping the country hint.
    pub fn with_language(self, language: Language) -> (r: AddressHint)
        ensures
            r.language == Some(language),
            r.country == self.country,
    {
        AddressHint { language: Some(language), country: self.country }
    }

    /// Sets the country hint, keeping the language hint.
    pub fn with_country(self, country: Country) -> (r: AddressHint)
        ensures
            r.language == self.language,
            r.country == Some(country),
    {
        AddressHint { language: self.language, country: Some(country) }
    }
}

/// How much rewriting a normalization applies.
#[derive(Debug, Clone, Copy, PartialEq, Eq, Structural)]
pub enum NormalizationLevel {
    /// Basic cleanup.
    Light,
    /// Standard processing.
    Medium,
    /// Every available rewrite.
    Aggressive,
}

impl Default for NormalizationLevel {
    /// Medium is the level used when none is chosen.
    fn default() -> (r: NormalizationLevel)
        ensures
            r == NormalizationLevel::Medium,
    {
        NormalizationLevel::Medium
    }
}

} // verus!
