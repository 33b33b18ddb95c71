//! The entry point: configuration, and parsing and normalization with default
//! facades.

use vstd::prelude::*;
use crate::data::DataConfig;
use crate::error::Error;
use crate::native::{opt_view, parse_request_for, NormalizeRequest, ParseRequest, RawEntry};
use crate::normalizer::{default_options_hold, normalize_yields, AddressNormalizer, NormalizedAddress};
use crate::parser::{parse_yields, AddressParser, ParsedAddress};
use crate::types::{
    country_code, known_country, known_language, language_code, upper_of, Country, Language,
};

verus! {

/// Configuration of initialization and data management.
#[derive(Debug, Clone)]
pub struct LibPostalConfig {
    /// Download missing data before initialization.
    pub auto_download_data: bool,
    /// Check the data files on startup.
    pub verify_data_integrity: bool,
    /// Data management settings.
    pub data_config: DataConfig,
}

impl LibPostalConfig {
    /// A builder that starts from `data_config`, with downloads and checks on.
    pub fn builder(data_config: DataConfig) -> (r: LibPostalConfigBuilder)
        ensures
            r.spec_auto_download(),
            r.spec_verify(),
            r.spec_data_config() == data_config,
    {
        LibPostalConfigBuilder::new(data_config)
    }
}

/// Builder of a configuration.
#[derive(Debug, Clone)]
pub struct LibPostalConfigBuilder {
    auto_download_data: bool,
    verify_data_integrity: bool,
    data_config: DataConfig,
}

impl LibPostalConfigBuilder {
    /// Whether downloads are on.
    pub closed spec fn spec_auto_download(&self) -> bool {
        self.auto_download_data
    }

    /// Whether checks are on.
    pub closed spec fn spec_verify(&self) -> bool {
        self.verify_data_integrity
    }

    /// The data management settings.
    pub closed spec fn spec_data_config(&self) -> DataConfig {
        self.data_config
    }

    /// A builder that starts from `data_config`, with downloads and checks on.
    pub fn new(data_config: DataConfig) -> (r: LibPostalConfigBuilder)
        ensures
            r.spec_auto_download(),
            r.spec_verify(),
            r.spec_data_config() == data_config,
    {
        LibPostalConfigBuilder { auto_download_data: true, verify_data_integrity: true, data_config }
    }

    /// Turns downloads on or off.
    pub fn auto_download_data(self, enabled: bool) -> (r: LibPostalConfigBuilder)
        ensures
            r.spec_auto_download() == enabled,
            r.spec_verify() == self.spec_verify(),
            r.spec_data_config() == self.spec_data_config(),
    {
        LibPostalConfigBuilder { auto_download_data: enabled, ..self }
    }

    /// Turns checks on or off.
    pub fn verify_data_integrity(self, enabled: bool) -> (r: LibPostalConfigBuilder)
        ensures
            r.spec_auto_download() == self.spec_auto_download(),
            r.spec_verify() == enabled,
            r.spec_data_config() == self.spec_data_config(),
    {
        LibPostalConfigBuilder { verify_data_integrity: enabled, ..self }
    }

    /// Replaces the data management settings.
    pub fn data_config(self, config: DataConfig) -> (r: LibPostalConfigBuilder)
        ensures
            r.spec_auto_download() == self.spec_auto_download(),
            r.spec_verify() == self.spec_verify(),
            r.spec_data_config() == config,
    {
        LibPostalConfigBuilder { data_config: config, ..self }
    }

    /// Sets the data directory, keeping the other data settings.
    pub fn data_dir(self, dir: &str) -> (r: LibPostalConfigBuilder)
        ensures
            r.spec_auto_download() == self.spec_auto_download(),
            r.spec_verify() == self.spec_verify(),
            r.spec_data_config() == (DataConfig {
                data_dir: r.spec_data_config().data_dir,
                ..self.spec_data_config()
            }),
            r.spec_data_config().data_dir@ == dir@,
    {
        let data_config = DataConfig { data_dir: dir.to_owned(), ..self.data_config };
        LibPostalConfigBuilder { data_config, ..self }
    }

    /// The configuration built.
    pub fn build(self) -> (r: LibPostalConfig)
        ensures
            r.auto_download_data == self.spec_auto_download(),
            r.verify_data_integrity == self.spec_verify(),
            r.data_config == self.spec_data_config(),
    {
        LibPostalConfig {
            auto_download_data: self.auto_download_data,
            verify_data_integrity: self.verify_data_integrity,
            data_config: self.data_config,
        }
    }
}

/// The language hint that a code given as text becomes: the code of the
/// language it names, or the text itself.
pub open spec fn language_hint_text(code: Seq<char>) -> Seq<char> {
    match known_language(code) {
        Some(l) => language_code(l),
        None => code,
    }
}

/// The country hint that a code given as text becomes: the code of the
/// country it names in any letter case, or the text itself.
pub open spec fn country_hint_text(code: Seq<char>) -> Seq<char> {
    match known_country(upper_of(code)) {
        Some(c) => country_code(c),
        None => code,
    }
}

/// A ready library: data in place and the native library initialized.
#[derive(Debug)]
pub struct LibPostal {
    config: LibPostalConfig,
}

impl LibPostal {
    /// The configuration it was made with.
    pub closed spec fn spec_config(&self) -> LibPostalConfig {
        self.config
    }

    /// Makes the library ready from the outcomes of the startup steps: making
    /// sure of the data (`data`, only consulted when downloads are on) and
    /// initializing the native library (`init`). The first failure is returned.
    pub fn from_outcomes(
        config: LibPostalConfig,
        data: Result<(), Error>,
        init: Result<(), Error>,
    ) -> (r: Result<LibPostal, Error>)
        ensures
            config.auto_download_data && data is Err ==> r == Err::<LibPostal, Error>(data->Err_0),
            (!config.auto_download_data || data is Ok) && init is Err ==> r == Err::<
                LibPostal,
                Error,
            >(init->Err_0),
            (!config.auto_download_data || data is Ok) && init is Ok ==> (r matches Ok(p)
                && p.spec_config() == config),
    {
        if config.auto_download_data {
            if let Err(e) = data {
                return Err(e);
            }
        }
        match init {
            Err(e) => Err(e),
            Ok(()) => Ok(LibPostal { config }),
        }
    }

    /// A parser without hints.
    pub fn parser(&self) -> (r: AddressParser)
        ensures
            r.hints().language is None,
            r.hints().country is None,
    {
        AddressParser::new()
    }

    /// A normalizer with the default options.
    pub fn normalizer(&self) -> (r: AddressNormalizer)
        ensures
            default_options_hold(r.opts()),
    {
        AddressNormalizer::new()
    }

    /// Parses `address` without hints through `native`.
    pub fn parse_address<F>(&self, address: &str, native: F) -> (r: Result<ParsedAddress, Error>) where
        F: FnOnce(ParseRequest) -> Result<Option<Vec<RawEntry>>, Error>,

        requires
            forall|req: ParseRequest|
                parse_request_for(req, address@, None, None) ==> #[trigger] native.requires((req,)),
        ensures
            exists|p: AddressParser|
                {
                    &&& p.hints().language is None
                    &&& p.hints().country is None
                    &&& #[trigger] parse_yields(native, p.hints(), address@, r)
                },
    {
        let p = self.parser();
        let r = p.parse(address, native);
        assert(parse_yields(native, p.hints(), address@, r));
        r
    }

    /// Parses `address` through `native`, with the language and country hints
    /// that the given codes name.
    pub fn parse_address_with_hints<F>(
        &self,
        address: &str,
        language: Option<&str>,
        country: Option<&str>,
        native: F,
    ) -> (r: Result<ParsedAddress, Error>) where
        F: FnOnce(ParseRequest) -> Result<Option<Vec<RawEntry>>, Error>,

        requires
            forall|req: ParseRequest|
                parse_request_for(
                    req,
                    address@,
                    match language {
                        Some(l) => Some(language_hint_text(l@)),
                        None => None,
                    },
                    match country {
                        Some(c) => Some(country_hint_text(c@)),
                        None => None,
                    },
                ) ==> #[trigger] native.requires((req,)),
        ensures
            exists|p: AddressParser|
                {
                    &&& opt_view(p.hints().language) == match language {
                        Some(l) => Some(language_hint_text(l@)),
                        None => None,
                    }
                    &&& opt_view(p.hints().country) == match country {
                        Some(c) => Some(country_hint_text(c@)),
                        None => None,
                    }
                    &&& #[trigger] parse_yields(native, p.hints(), address@, r)
                },
    {
        let mut p = self.parser();
        if let Some(code) = language {
            p = p.with_language(Language::from_str(code));
        }
        if let Some(code) = country {
            p = p.with_country(Country::from_str(code));
        }
        let r = p.parse(address, native);
        assert(parse_yields(native, p.hints(), address@, r));
        r
    }

    /// Normalizes `address` with the default options through `native`.
    pub fn normalize_address<F>(&self, address: &str, native: F) -> (r: Result<
        NormalizedAddress,
        Error,
    >) where F: FnOnce(NormalizeRequest) -> Result<Option<Vec<Option<Vec<u8>>>>, Error>
        requires
            forall|req: NormalizeRequest|
                req.wf() && req.input@ == address@ && default_options_hold(req.options)
                    ==> #[trigger] native.requires((req,)),
        ensures
            exists|n: AddressNormalizer|
                {
                    &&& default_options_hold(n.opts())
                    &&& #[trigger] normalize_yields(native, n.opts(), address@, r)
                },
    {
        let n = self.normalizer();
        let r = n.normalize(address, native);
        assert(normalize_yields(native, n.opts(), address@, r));
        r
    }

    /// The configuration it was made with.
    pub fn config(&self) -> (r: &LibPostalConfig)
        ensures
            *r == self.spec_config(),
    {
        &self.config
    }
}

} // verus!
