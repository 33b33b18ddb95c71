//! Address normalization facade and its result.

use vstd::prelude::*;
use vstd::string::*;
use crate::error::Error;
use crate::native::{
    decoded_texts, finish_normalize, normalize_request_for, prepare_normalize, same_options,
    strings_view, NormalizeOptions, NormalizeRequest,
};
use crate::text::has_nul;
use crate::types::{language_code, Language, NormalizationLevel};

verus! {

/// The options a new normalizer starts with.
pub open spec fn default_options_hold(o: NormalizeOptions) -> bool {
    &&& strings_view(o.languages@) == seq!["en"@]
    &&& o.address_components == 0xFFFFu16
    &&& !o.latin_ascii
    &&& o.transliterate
    &&& !o.strip_accents
    &&& o.decompose
    &&& o.lowercase
    &&& o.trim_string
    &&& !o.replace_word_hyphens
    &&& !o.delete_word_hyphens
    &&& !o.replace_numeric_hyphens
    &&& !o.delete_numeric_hyphens
    &&& !o.split_alpha_from_numeric
    &&& o.delete_final_periods
    &&& o.delete_acronym_periods
    &&& o.drop_english_possessives
    &&& o.delete_apostrophes
    &&& o.expand_numex
    &&& o.roman_numerals
}

/// The options after switching to `level`: each level turns a fixed set of
/// rewrites on (Light also turns transliteration and decomposition off) and
/// leaves every other option as it was.
pub open spec fn leveled(o: NormalizeOptions, level: NormalizationLevel) -> NormalizeOptions {
    match level {
        NormalizationLevel::Light => NormalizeOptions {
            lowercase: true,
            trim_string: true,
            delete_final_periods: true,
            transliterate: false,
            decompose: false,
            ..o
        },
        NormalizationLevel::Medium => NormalizeOptions {
            lowercase: true,
            trim_string: true,
            delete_final_periods: true,
            delete_acronym_periods: true,
            transliterate: true,
            decompose: true,
            ..o
        },
        NormalizationLevel::Aggressive => NormalizeOptions {
            lowercase: true,
            trim_string: true,
            delete_final_periods: true,
            delete_acronym_periods: true,
            drop_english_possessives: true,
            delete_apostrophes: true,
            transliterate: true,
            decompose: true,
            expand_numex: true,
            ..o
        },
    }
}

/// The result of a normalization: the input and its expansions, in the order
/// the native normalizer gave them (the first is the primary one).
#[derive(Debug, Clone, PartialEq)]
pub struct NormalizedAddress {
    /// The input text.
    pub original: String,
    /// Every expansion, most likely first.
    pub expansions: Vec<String>,
}

impl NormalizedAddress {
    /// The first expansion, if any.
    pub fn primary(&self) -> (r: Option<&str>)
        ensures
            self.expansions@.len() == 0 ==> r is None,
            self.expansions@.len() > 0 ==> (r matches Some(s) && s@ == self.expansions@[0]@),
    {
        if self.expansions.len() == 0 {
            None
        } else {
            Some(self.expansions[0].as_str())
        }
    }

    /// Every expansion but the first.
    pub fn alternatives(&self) -> (r: &[String])
        ensures
            self.expansions@.len() <= 1 ==> r@.len() == 0,
            self.expansions@.len() > 1 ==> r@ == self.expansions@.drop_first(),
    {
        let n = self.expansions.len();
        if n > 1 {
            vstd::slice::slice_subrange(self.expansions.as_slice(), 1, n)
        } else {
            vstd::slice::slice_subrange(self.expansions.as_slice(), 0, 0)
        }
    }

    /// True when there is no expansion.
    pub fn is_empty(&self) -> (r: bool)
        ensures
            r == (self.expansions@.len() == 0),
    {
        self.expansions.len() == 0
    }

    /// The number of expansions.
    pub fn len(&self) -> (r: usize)
        ensures
            r == self.expansions@.len(),
    {
        self.expansions.len()
    }
}

/// What a normalization returns once the native call has answered: the error
/// it raised, or the input with its expansions (none for a null result).
pub open spec fn normalized_outcome(
    input: Seq<char>,
    answer: Result<Option<Vec<Option<Vec<u8>>>>, Error>,
    r: Result<NormalizedAddress, Error>,
) -> bool {
    match answer {
        Err(e) => r == Err::<NormalizedAddress, Error>(e),
        Ok(None) => r matches Ok(n) && n.original@ == input && n.expansions@.len() == 0,
        Ok(Some(entries)) => r matches Ok(n) && n.original@ == input && strings_view(
            n.expansions@,
        ) == decoded_texts(entries@),
    }
}

/// What normalizing `input` with `options` through `native` may return: a
/// boundary error where the input holds a NUL byte; otherwise the outcome of
/// one native call on exactly this input and options. That no native call is
/// made on a NUL input follows from the callers' `requires`, which ask
/// `native` to be callable on the well-formed request for this input only.
pub open spec fn normalize_yields<F: FnOnce(NormalizeRequest) -> Result<Option<Vec<Option<Vec<u8>>>>, Error>>(
    native: F,
    options: NormalizeOptions,
    input: Seq<char>,
    r: Result<NormalizedAddress, Error>,
) -> bool {
    if has_nul(input) {
        r matches Err(Error::FfiError { .. })
    } else {
        exists|req: NormalizeRequest, answer: Result<Option<Vec<Option<Vec<u8>>>>, Error>|
            {
                &&& req.input@ == input
                &&& same_options(req.options, options)
                &&& #[trigger] native.ensures((req,), answer)
                &&& normalized_outcome(input, answer, r)
            }
    }
}

/// Normalizing `input` with `options` through `native` may succeed.
pub open spec fn normalize_may_succeed<F: FnOnce(NormalizeRequest) -> Result<Option<Vec<Option<Vec<u8>>>>, Error>>(
    native: F,
    options: NormalizeOptions,
    input: Seq<char>,
) -> bool {
    exists|n: NormalizedAddress| normalize_yields(native, options, input, Ok(n))
}

/// `req` is the request for one of `inputs` with these options: the only
/// requests a batch normalization may hand to the native normalizer.
pub open spec fn batch_normalize_request_for(
    req: NormalizeRequest,
    options: NormalizeOptions,
    inputs: Seq<&str>,
) -> bool {
    exists|i: int|
        0 <= i < inputs.len() && normalize_request_for(req, (#[trigger] inputs[i])@, options)
}

/// Address normalizer facade: holds the rewrites its normalizations apply.
#[derive(Debug)]
pub struct AddressNormalizer {
    options: NormalizeOptions,
}

impl AddressNormalizer {
    /// The options handed to the native normalizer.
    pub closed spec fn opts(&self) -> NormalizeOptions {
        self.options
    }

    /// A normalizer with the default options.
    pub fn new() -> (r: AddressNormalizer)
        ensures
            default_options_hold(r.opts()),
    {
        let mut languages: Vec<String> = Vec::new();
        languages.push(String::from_str("en"));
        assert(strings_view(languages@) =~= seq!["en"@]);
        AddressNormalizer {
            options: NormalizeOptions {
                languages,
                address_components: 0xFFFF,
                latin_ascii: false,
                transliterate: true,
                strip_accents: false,
                decompose: true,
                lowercase: true,
                trim_string: true,
                replace_word_hyphens: false,
                delete_word_hyphens: false,
                replace_numeric_hyphens: false,
                delete_numeric_hyphens: false,
                split_alpha_from_numeric: false,
                delete_final_periods: true,
                delete_acronym_periods: true,
                drop_english_possessives: true,
                delete_apostrophes: true,
                expand_numex: true,
                roman_numerals: true,
            },
        }
    }

    /// Sets the languages to the codes of `languages`, in order.
    pub fn with_languages(self, languages: &[Language]) -> (r: AddressNormalizer)
        ensures
            strings_view(r.opts().languages@) == languages@.map_values(
                |l: Language| language_code(l),
            ),
            r.opts() == (NormalizeOptions { languages: r.opts().languages, ..self.opts() }),
    {
        let mut codes: Vec<String> = Vec::new();
        let mut i: usize = 0;
        while i < languages.len()
            invariant
                0 <= i <= languages@.len(),
                strings_view(codes@) == languages@.subrange(0, i as int).map_values(
                    |l: Language| language_code(l),
                ),
            decreases languages@.len() - i,
        {
            let ghost before = codes@;
            let code = languages[i].to_string();
            codes.push(code);
            assert(strings_view(codes@) =~= strings_view(before).push(code@));
            assert(languages@.subrange(0, i + 1).map_values(|l: Language| language_code(l))
                =~= languages@.subrange(0, i as int).map_values(|l: Language| language_code(l)).push(
                language_code(languages@[i as int])));
            i = i + 1;
        }
        assert(languages@.subrange(0, languages@.len() as int) =~= languages@);
        AddressNormalizer { options: NormalizeOptions { languages: codes, ..self.options } }
    }

    /// Switches to the rewrites of `level`.
    pub fn with_level(self, level: NormalizationLevel) -> (r: AddressNormalizer)
        ensures
            r.opts() == leveled(self.opts(), level),
    {
        let options = self.options;
        let options = match level {
            NormalizationLevel::Light => NormalizeOptions {
                lowercase: true,
                trim_string: true,
                delete_final_periods: true,
                transliterate: false,
                decompose: false,
                ..options
            },
            NormalizationLevel::Medium => NormalizeOptions {
                lowercase: true,
                trim_string: true,
                delete_final_periods: true,
                delete_acronym_periods: true,
                transliterate: true,
                decompose: true,
                ..options
            },
            NormalizationLevel::Aggressive => NormalizeOptions {
                lowercase: true,
                trim_string: true,
                delete_final_periods: true,
                delete_acronym_periods: true,
                drop_english_possessives: true,
                delete_apostrophes: true,
                transliterate: true,
                decompose: true,
                expand_numex: true,
                ..options
            },
        };
        AddressNormalizer { options }
    }

    /// Turns Latin ASCII transliteration on or off.
    pub fn with_latin_ascii(self, enabled: bool) -> (r: AddressNormalizer)
        ensures
            r.opts() == (NormalizeOptions { latin_ascii: enabled, ..self.opts() }),
    {
        AddressNormalizer { options: NormalizeOptions { latin_ascii: enabled, ..self.options } }
    }

    /// Turns lowercasing on or off.
    pub fn with_lowercase(self, enabled: bool) -> (r: AddressNormalizer)
        ensures
            r.opts() == (NormalizeOptions { lowercase: enabled, ..self.opts() }),
    {
        AddressNormalizer { options: NormalizeOptions { lowercase: enabled, ..self.options } }
    }

    /// The options handed to the native normalizer.
    pub fn options(&self) -> (r: &NormalizeOptions)
        ensures
            *r == self.opts(),
    {
        &self.options
    }

    /// Normalizes `input` through `native`, which stands for the native
    /// normalizer (see `native::normalize_string`).
    pub fn normalize<F>(&self, input: &str, native: F) -> (r: Result<NormalizedAddress, Error>) where
        F: FnOnce(NormalizeRequest) -> Result<Option<Vec<Option<Vec<u8>>>>, Error>,

        requires
            forall|req: NormalizeRequest|
                normalize_request_for(req, input@, self.opts()) ==> #[trigger] native.requires(
                    (req,),
                ),
        ensures
            normalize_yields(native, self.opts(), input@, r),
    {
        let text = match prepare_normalize(input) {
            Err(e) => return Err(e),
            Ok(s) => s,
        };
        let req = NormalizeRequest { input: text, options: self.options.duplicate() };
        let ghost g = req;
        let answer = native(req);
        let ghost a = answer;
        let r = match finish_normalize(answer) {
            Err(e) => Err(e),
            Ok(expansions) => Ok(NormalizedAddress { original: input.to_owned(), expansions }),
        };
        assert(native.ensures((g,), a) && normalized_outcome(input@, a, r));
        r
    }

    /// Normalizes one input through a reusable `native`.
    fn normalize_with<F>(&self, input: &str, native: &F) -> (r: Result<NormalizedAddress, Error>) where
        F: Fn(NormalizeRequest) -> Result<Option<Vec<Option<Vec<u8>>>>, Error>,

        requires
            forall|req: NormalizeRequest|
                normalize_request_for(req, input@, self.opts()) ==> #[trigger] native.requires(
                    (req,),
                ),
        ensures
            normalize_yields(*native, self.opts(), input@, r),
    {
        let text = match prepare_normalize(input) {
            Err(e) => return Err(e),
            Ok(s) => s,
        };
        let req = NormalizeRequest { input: text, options: self.options.duplicate() };
        let ghost g = req;
        let answer = native(req);
        let ghost a = answer;
        let r = match finish_normalize(answer) {
            Err(e) => Err(e),
            Ok(expansions) => Ok(NormalizedAddress { original: input.to_owned(), expansions }),
        };
        assert(native.ensures((g,), a) && normalized_outcome(input@, a, r));
        r
    }

    /// Normalizes each input in order and stops at the first failure, which
    /// is returned; on success the results are in input order.
    pub fn normalize_batch<F>(&self, inputs: &[&str], native: F) -> (r: Result<
        Vec<NormalizedAddress>,
        Error,
    >) where F: Fn(NormalizeRequest) -> Result<Option<Vec<Option<Vec<u8>>>>, Error>
        requires
            forall|req: NormalizeRequest|
                batch_normalize_request_for(req, self.opts(), inputs@) ==> #[trigger] native.requires(
                    (req,),
                ),
        ensures
            r matches Ok(ns) ==> {
                &&& ns@.len() == inputs@.len()
                &&& forall|i: int|
                    0 <= i < inputs@.len() ==> normalize_yields(
                        native,
                        self.opts(),
                        #[trigger] inputs@[i]@,
                        Ok(ns@[i]),
                    )
            },
            r matches Err(e) ==> exists|i: int|
                {
                    &&& 0 <= i < inputs@.len()
                    &&& normalize_yields(native, self.opts(), #[trigger] inputs@[i]@, Err(e))
                    &&& forall|j: int|
                        0 <= j < i ==> normalize_may_succeed(
                            native,
                            self.opts(),
                            #[trigger] inputs@[j]@,
                        )
                },
    {
        let mut out: Vec<NormalizedAddress> = Vec::new();
        let mut i: usize = 0;
        while i < inputs.len()
            invariant
                forall|req: NormalizeRequest|
                batch_normalize_request_for(req, self.opts(), inputs@) ==> #[trigger] native.requires(
                    (req,),
                ),
                0 <= i <= inputs@.len(),
                out@.len() == i,
                forall|j: int|
                    0 <= j < i ==> normalize_yields(
                        native,
                        self.opts(),
                        #[trigger] inputs@[j]@,
                        Ok(out@[j]),
                    ),
            decreases inputs@.len() - i,
        {
            proof {
                assert forall|req: NormalizeRequest|
                    normalize_request_for(req, inputs@[i as int]@, self.opts())
                        implies #[trigger] native.requires((req,)) by {
                    assert(batch_normalize_request_for(req, self.opts(), inputs@));
                }
            }
            match self.normalize_with(inputs[i], &native) {
                Ok(n) => {
                    out.push(n);
                },
                Err(e) => {
                    assert(normalize_yields(native, self.opts(), inputs@[i as int]@, Err(e)));
                    assert forall|j: int| 0 <= j < i implies normalize_may_succeed(
                        native,
                        self.opts(),
                        #[trigger] inputs@[j]@,
                    ) by {
                        assert(normalize_yields(native, self.opts(), inputs@[j]@, Ok(out@[j])));
                    }
                    return Err(e);
                },
            }
            i = i + 1;
        }
        Ok(out)
    }
}

impl Default for AddressNormalizer {
    /// A normalizer with the default options.
    fn default() -> (r: AddressNormalizer)
        ensures
            default_options_hold(r.opts()),
    {
        AddressNormalizer::new()
    }
}

} // verus!
