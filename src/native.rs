//! What crosses the boundary to the native parser, in both directions.
//!
//! Outgoing text must fit a null-terminated buffer, so it is checked for
//! NUL bytes before any native call is made. Incoming results are read by the
//! caller into plain byte buffers (`None` where the native pointer was null)
//! and converted here into owned strings with lossy UTF-8 decoding.

use vstd::prelude::*;
use crate::error::Error;
use crate::text::{contains_nul, has_nul};

verus! {

/// What `String::from_utf8_lossy` makes of a byte sequence: invalid sequences
/// are replaced by U+FFFD, so the result is a function of the bytes alone.
pub uninterp spec fn lossy_utf8(b: Seq<u8>) -> Seq<char>;

/// Relies on `String::from_utf8_lossy`: it never fails, its result depends on
/// the bytes alone, and valid UTF-8 is decoded unchanged.
#[verifier::external_body]
fn decode_lossy(bytes: &Vec<u8>) -> (r: String)
    ensures
        r@ == lossy_utf8(bytes@),
        vstd::utf8::valid_utf8(bytes@) ==> r@ == vstd::utf8::decode_utf8(bytes@),
{
    String::from_utf8_lossy(bytes.as_slice()).into_owned()
}

/// One labelled piece of a parsed address, owned by the caller.
#[derive(Debug, Clone)]
pub struct AddressComponent {
    /// What the piece is, such as `road` or `city`.
    pub label: String,
    /// The text of the piece.
    pub value: String,
}

impl View for AddressComponent {
    type V = (Seq<char>, Seq<char>);

    open spec fn view(&self) -> (Seq<char>, Seq<char>) {
        (self.label@, self.value@)
    }
}

/// The views of a list of components, in order.
pub open spec fn components_view(cs: Seq<AddressComponent>) -> Seq<(Seq<char>, Seq<char>)> {
    cs.map_values(|c: AddressComponent| c@)
}

/// Language and country hints for one parse.
#[derive(Debug, Clone)]
pub struct ParseOptions {
    /// Language hint, such as `en`.
    pub language: Option<String>,
    /// Country hint, such as `US`.
    pub country: Option<String>,
}

/// Rewrites the native normalizer applies.
#[derive(Debug, Clone)]
pub struct NormalizeOptions {
    /// Languages to use for normalization.
    pub languages: Vec<String>,
    /// Bit set of the address components to normalize.
    pub address_components: u16,
    /// Latin ASCII transliteration.
    pub latin_ascii: bool,
    /// Transliterate.
    pub transliterate: bool,
    /// Strip accents.
    pub strip_accents: bool,
    /// Decompose.
    pub decompose: bool,
    /// Lowercase.
    pub lowercase: bool,
    /// Trim string.
    pub trim_string: bool,
    /// Replace word hyphens.
    pub replace_word_hyphens: bool,
    /// Delete word hyphens.
    pub delete_word_hyphens: bool,
    /// Replace numeric hyphens.
    pub replace_numeric_hyphens: bool,
    /// Delete numeric hyphens.
    pub delete_numeric_hyphens: bool,
    /// Split alpha from numeric.
    pub split_alpha_from_numeric: bool,
    /// Delete final periods.
    pub delete_final_periods: bool,
    /// Delete acronym periods.
    pub delete_acronym_periods: bool,
    /// Drop English possessives.
    pub drop_english_possessives: bool,
    /// Delete apostrophes.
    pub delete_apostrophes: bool,
    /// Expand numeric expressions.
    pub expand_numex: bool,
    /// Roman numerals.
    pub roman_numerals: bool,
}

/// Two option sets that ask for the same normalization.
pub open spec fn same_options(a: NormalizeOptions, b: NormalizeOptions) -> bool {
    &&& a.languages@ == b.languages@
        &&& a.address_components == b.address_components
        &&& a.latin_ascii == b.latin_ascii
        &&& a.transliterate == b.transliterate
        &&& a.strip_accents == b.strip_accents
        &&& a.decompose == b.decompose
        &&& a.lowercase == b.lowercase
        &&& a.trim_string == b.trim_string
        &&& a.replace_word_hyphens == b.replace_word_hyphens
        &&& a.delete_word_hyphens == b.delete_word_hyphens
        &&& a.replace_numeric_hyphens == b.replace_numeric_hyphens
        &&& a.delete_numeric_hyphens == b.delete_numeric_hyphens
        &&& a.split_alpha_from_numeric == b.split_alpha_from_numeric
        &&& a.delete_final_periods == b.delete_final_periods
        &&& a.delete_acronym_periods == b.delete_acronym_periods
        &&& a.drop_english_possessives == b.drop_english_possessives
        &&& a.delete_apostrophes == b.delete_apostrophes
        &&& a.expand_numex == b.expand_numex
        &&& a.roman_numerals == b.roman_numerals
}

impl NormalizeOptions {
    /// A copy of these options.
    pub fn duplicate(&self) -> (r: NormalizeOptions)
        ensures
            same_options(r, *self),
    {
        let mut languages: Vec<String> = Vec::new();
        let mut i: usize = 0;
        while i < self.languages.len()
            invariant
                0 <= i <= self.languages@.len(),
                languages@ == self.languages@.subrange(0, i as int),
            decreases self.languages@.len() - i,
        {
            languages.push(self.languages[i].clone());
            i = i + 1;
        }
        assert(languages@ =~= self.languages@);
        NormalizeOptions {
            languages,
            address_components: self.address_components,
            latin_ascii: self.latin_ascii,
            transliterate: self.transliterate,
            strip_accents: self.strip_accents,
            decompose: self.decompose,
            lowercase: self.lowercase,
            trim_string: self.trim_string,
            replace_word_hyphens: self.replace_word_hyphens,
            delete_word_hyphens: self.delete_word_hyphens,
            replace_numeric_hyphens: self.replace_numeric_hyphens,
            delete_numeric_hyphens: self.delete_numeric_hyphens,
            split_alpha_from_numeric: self.split_alpha_from_numeric,
            delete_final_periods: self.delete_final_periods,
            delete_acronym_periods: self.delete_acronym_periods,
            drop_english_possessives: self.drop_english_possessives,
            delete_apostrophes: self.delete_apostrophes,
            expand_numex: self.expand_numex,
            roman_numerals: self.roman_numerals,
        }
    }
}

/// A normalization call whose input fits a null-terminated buffer.
pub struct NormalizeRequest {
    /// The text to normalize.
    pub input: String,
    /// The rewrites to apply.
    pub options: NormalizeOptions,
}

/// `req` is the well-formed request for `input` with these options: the only
/// request a normalization of `input` may hand to the native normalizer.
pub open spec fn normalize_request_for(
    req: NormalizeRequest,
    input: Seq<char>,
    options: NormalizeOptions,
) -> bool {
    &&& req.wf()
    &&& req.input@ == input
    &&& same_options(req.options, options)
}

impl NormalizeRequest {
    /// The input holds no NUL byte.
    pub open spec fn wf(&self) -> bool {
        !has_nul(self.input@)
    }
}

/// True when an optional hint would not fit a null-terminated buffer.
pub open spec fn hint_has_nul(h: Option<String>) -> bool {
    match h {
        Some(s) => has_nul(s@),
        None => false,
    }
}

/// The text of an optional string.
pub open spec fn opt_view(o: Option<String>) -> Option<Seq<char>> {
    match o {
        Some(s) => Some(s@),
        None => None,
    }
}

/// A parse call whose every text fits a null-terminated buffer.
pub struct ParseRequest {
    /// The address to parse.
    pub address: String,
    /// The language hint, if any.
    pub language: Option<String>,
    /// The country hint, if any.
    pub country: Option<String>,
}

impl ParseRequest {
    /// No text of the request holds a NUL byte.
    pub open spec fn wf(&self) -> bool {
        &&& !has_nul(self.address@)
        &&& !hint_has_nul(self.language)
        &&& !hint_has_nul(self.country)
    }
}

/// `req` is the well-formed request for `address` with these hints: the only
/// request a parse of `address` may hand to the native parser.
pub open spec fn parse_request_for(
    req: ParseRequest,
    address: Seq<char>,
    language: Option<Seq<char>>,
    country: Option<Seq<char>>,
) -> bool {
    &&& req.wf()
    &&& req.address@ == address
    &&& opt_view(req.language) == language
    &&& opt_view(req.country) == country
}

/// Copies an optional hint.
fn copy_hint(h: &Option<String>) -> (r: Option<String>)
    ensures
        r == *h,
{
    match h {
        Some(s) => Some(s.clone()),
        None => None,
    }
}

/// Checks the address and the hints of `options` for NUL bytes, in that order,
/// and gathers them into a request for the native parser.
pub fn prepare_parse(address: &str, options: &ParseOptions) -> (r: Result<ParseRequest, Error>)
    ensures
        has_nul(address@) ==> (r matches Err(Error::FfiError { message }) && message@
            == "Invalid address string"@),
        !has_nul(address@) && hint_has_nul(options.language) ==> (r matches Err(
            Error::FfiError { message },
        ) && message@ == "Invalid language string"@),
        !has_nul(address@) && !hint_has_nul(options.language) && hint_has_nul(options.country)
            ==> (r matches Err(Error::FfiError { message }) && message@
            == "Invalid country string"@),
        !has_nul(address@) && !hint_has_nul(options.language) && !hint_has_nul(options.country)
            ==> (r matches Ok(req) && req.wf() && req.address@ == address@ && req.language
            == options.language && req.country == options.country),
{
    if contains_nul(address) {
        return Err(Error::ffi_error("Invalid address string"));
    }
    if let Some(language) = &options.language {
        if contains_nul(language.as_str()) {
            return Err(Error::ffi_error("Invalid language string"));
        }
    }
    if let Some(country) = &options.country {
        if contains_nul(country.as_str()) {
            return Err(Error::ffi_error("Invalid country string"));
        }
    }
    Ok(ParseRequest {
        address: address.to_owned(),
        language: copy_hint(&options.language),
        country: copy_hint(&options.country),
    })
}

/// Checks a text for NUL bytes before it is handed to the native normalizer.
pub fn prepare_normalize(input: &str) -> (r: Result<String, Error>)
    ensures
        has_nul(input@) ==> (r matches Err(Error::FfiError { message }) && message@
            == "Invalid input string"@),
        !has_nul(input@) ==> (r matches Ok(s) && s@ == input@ && !has_nul(s@)),
{
    if contains_nul(input) {
        return Err(Error::ffi_error("Invalid input string"));
    }
    Ok(input.to_owned())
}

/// One entry of a native parse result: the label and value buffers, each
/// `None` where the native pointer was null.
pub struct RawEntry {
    /// Bytes of the label, without the terminator.
    pub label: Option<Vec<u8>>,
    /// Bytes of the value, without the terminator.
    pub value: Option<Vec<u8>>,
}

/// The components that a native parse result yields: entries with a null
/// label or value are skipped, the others decoded in order.
pub open spec fn decoded_components(entries: Seq<RawEntry>) -> Seq<(Seq<char>, Seq<char>)>
    decreases entries.len(),
{
    if entries.len() == 0 {
        Seq::empty()
    } else {
        let prev = decoded_components(entries.drop_last());
        let e = entries.last();
        match (e.label, e.value) {
            (Some(l), Some(v)) => prev.push((lossy_utf8(l@), lossy_utf8(v@))),
            _ => prev,
        }
    }
}

/// The expansions that a native expansion array yields: null entries are
/// skipped, the others decoded in order.
pub open spec fn decoded_texts(entries: Seq<Option<Vec<u8>>>) -> Seq<Seq<char>>
    decreases entries.len(),
{
    if entries.len() == 0 {
        Seq::empty()
    } else {
        let prev = decoded_texts(entries.drop_last());
        match entries.last() {
            Some(b) => prev.push(lossy_utf8(b@)),
            None => prev,
        }
    }
}

/// The views of a list of strings, in order.
pub open spec fn strings_view(v: Seq<String>) -> Seq<Seq<char>> {
    v.map_values(|s: String| s@)
}

/// Converts the entries of a native parse result into owned components.
pub fn convert_components(entries: &Vec<RawEntry>) -> (r: Vec<AddressComponent>)
    ensures
        components_view(r@) == decoded_components(entries@),
{
    let mut out: Vec<AddressComponent> = Vec::new();
    let mut i: usize = 0;
    while i < entries.len()
        invariant
            0 <= i <= entries@.len(),
            components_view(out@) == decoded_components(entries@.subrange(0, i as int)),
        decreases entries@.len() - i,
    {
        let ghost before = out@;
        let e = &entries[i];
        match (&e.label, &e.value) {
            (Some(l), Some(v)) => {
                let c = AddressComponent { label: decode_lossy(l), value: decode_lossy(v) };
                out.push(c);
                assert(components_view(out@) =~= components_view(before).push(c@));
            },
            _ => {},
        }
        assert(entries@.subrange(0, i + 1).drop_last() =~= entries@.subrange(0, i as int));
        i = i + 1;
    }
    assert(entries@.subrange(0, entries@.len() as int) =~= entries@);
    out
}

/// Converts a native expansion array into owned strings.
pub fn convert_texts(entries: &Vec<Option<Vec<u8>>>) -> (r: Vec<String>)
    ensures
        strings_view(r@) == decoded_texts(entries@),
{
    let mut out: Vec<String> = Vec::new();
    let mut i: usize = 0;
    while i < entries.len()
        invariant
            0 <= i <= entries@.len(),
            strings_view(out@) == decoded_texts(entries@.subrange(0, i as int)),
        decreases entries@.len() - i,
    {
        let ghost before = out@;
        match &entries[i] {
            Some(b) => {
                let s = decode_lossy(b);
                out.push(s);
                assert(strings_view(out@) =~= strings_view(before).push(s@));
            },
            None => {},
        }
        assert(entries@.subrange(0, i + 1).drop_last() =~= entries@.subrange(0, i as int));
        i = i + 1;
    }
    assert(entries@.subrange(0, entries@.len() as int) =~= entries@);
    out
}

/// What a parse returns once the native call has answered: a null result is
/// a parse error, anything else is converted.
pub open spec fn parse_outcome(
    answer: Result<Option<Vec<RawEntry>>, Error>,
    r: Result<Vec<AddressComponent>, Error>,
) -> bool {
    match answer {
        Err(e) => r == Err::<Vec<AddressComponent>, Error>(e),
        Ok(None) => r matches Err(Error::ParseError { message }) && message@
            == "native parser returned no result"@,
        Ok(Some(entries)) => r matches Ok(cs) && components_view(cs@) == decoded_components(
            entries@,
        ),
    }
}

/// What a normalization returns once the native call has answered: a null
/// result is no error but an empty list.
pub open spec fn normalize_outcome(
    answer: Result<Option<Vec<Option<Vec<u8>>>>, Error>,
    r: Result<Vec<String>, Error>,
) -> bool {
    match answer {
        Err(e) => r == Err::<Vec<String>, Error>(e),
        Ok(None) => r matches Ok(v) && v@.len() == 0,
        Ok(Some(entries)) => r matches Ok(v) && strings_view(v@) == decoded_texts(entries@),
    }
}

/// Turns the answer of the native parser into owned components.
pub fn finish_parse(answer: Result<Option<Vec<RawEntry>>, Error>) -> (r: Result<
    Vec<AddressComponent>,
    Error,
>)
    ensures
        parse_outcome(answer, r),
{
    match answer {
        Err(e) => Err(e),
        Ok(None) => Err(Error::parse_error("native parser returned no result")),
        Ok(Some(entries)) => Ok(convert_components(&entries)),
    }
}

/// Turns the answer of the native normalizer into owned strings.
pub fn finish_normalize(answer: Result<Option<Vec<Option<Vec<u8>>>>, Error>) -> (r: Result<
    Vec<String>,
    Error,
>)
    ensures
        normalize_outcome(answer, r),
{
    match answer {
        Err(e) => Err(e),
        Ok(None) => Ok(Vec::new()),
        Ok(Some(entries)) => Ok(convert_texts(&entries)),
    }
}

/// Parses `address` through `native`, which is handed the checked request and
/// answers with the native result (`None` for a null result) or with an error
/// such as a failed initialization. Text with a NUL byte never reaches it.
pub fn parse_address<F>(address: &str, options: &ParseOptions, native: F) -> (r: Result<
    Vec<AddressComponent>,
    Error,
>) where F: FnOnce(ParseRequest) -> Result<Option<Vec<RawEntry>>, Error>
    requires
        forall|req: ParseRequest|
            parse_request_for(req, address@, opt_view(options.language), opt_view(options.country))
                ==> #[trigger] native.requires((req,)),
    ensures
        has_nul(address@) || hint_has_nul(options.language) || hint_has_nul(options.country)
            ==> (r matches Err(Error::FfiError { .. })),
        !has_nul(address@) && !hint_has_nul(options.language) && !hint_has_nul(options.country)
            ==> exists|req: ParseRequest, answer: Result<Option<Vec<RawEntry>>, Error>|
            {
                &&& req.address@ == address@
                &&& req.language == options.language
                &&& req.country == options.country
                &&& #[trigger] native.ensures((req,), answer)
                &&& parse_outcome(answer, r)
            },
{
    let req = match prepare_parse(address, options) {
        Err(e) => return Err(e),
        Ok(req) => req,
    };
    let ghost g = req;
    let answer = native(req);
    let r = finish_parse(answer);
    assert(native.ensures((g,), answer) && parse_outcome(answer, r));
    r
}

/// Normalizes `input` with `options` through `native`, which is handed the
/// checked request and answers with the native expansions (`None` for a null
/// result) or with an error such as a failed initialization. Text with a NUL
/// byte never reaches it.
pub fn normalize_string<F>(input: &str, options: &NormalizeOptions, native: F) -> (r: Result<
    Vec<String>,
    Error,
>) where F: FnOnce(NormalizeRequest) -> Result<Option<Vec<Option<Vec<u8>>>>, Error>
    requires
        forall|req: NormalizeRequest|
            normalize_request_for(req, input@, *options) ==> #[trigger] native.requires((req,)),
    ensures
        has_nul(input@) ==> (r matches Err(Error::FfiError { .. })),
        !has_nul(input@) ==> exists|
            req: NormalizeRequest,
            answer: Result<Option<Vec<Option<Vec<u8>>>>, Error>,
        |
            {
                &&& req.input@ == input@
                &&& same_options(req.options, *options)
                &&& #[trigger] native.ensures((req,), answer)
                &&& normalize_outcome(answer, r)
            },
{
    let input = match prepare_normalize(input) {
        Err(e) => return Err(e),
        Ok(s) => s,
    };
    let req = NormalizeRequest { input, options: options.duplicate() };
    let ghost g = req;
    let answer = native(req);
    let r = finish_normalize(answer);
    assert(native.ensures((g,), answer) && normalize_outcome(answer, r));
    r
}

} // verus!
