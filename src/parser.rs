//! Folding labelled components into a structured address, and the parser facade.

use rayon::iter::{IntoParallelRefIterator, ParallelIterator};
use vstd::prelude::*;
use vstd::string::*;
use crate::error::Error;
use crate::native::{
    components_view, decoded_components, hint_has_nul, opt_view, parse_request_for, prepare_parse,
    finish_parse,
    AddressComponent, ParseOptions, ParseRequest, RawEntry,
};
use crate::text::{decimal, decimal_text, has_nul, same_text};
use crate::types::{country_code, language_code, AddressHint, Country, Language};

verus! {

/// Number of named slots of a parsed address.
pub const SLOT_COUNT: usize = 20;

/// The label that fills named slot `k`.
pub open spec fn slot_label(k: int) -> Seq<char> {
    if k == 0 {
        "house_number"@
    } else if k == 1 {
        "road"@
    } else if k == 2 {
        "unit"@
    } else if k == 3 {
        "level"@
    } else if k == 4 {
        "staircase"@
    } else if k == 5 {
        "entrance"@
    } else if k == 6 {
        "po_box"@
    } else if k == 7 {
        "postcode"@
    } else if k == 8 {
        "suburb"@
    } else if k == 9 {
        "city"@
    } else if k == 10 {
        "city_district"@
    } else if k == 11 {
        "island"@
    } else if k == 12 {
        "state"@
    } else if k == 13 {
        "state_district"@
    } else if k == 14 {
        "country_region"@
    } else if k == 15 {
        "country"@
    } else if k == 16 {
        "world_region"@
    } else if k == 17 {
        "category"@
    } else if k == 18 {
        "near"@
    } else {
        "toponym"@
    }
}

/// The first slot at or after `k` whose label is `label`, if any.
pub open spec fn slot_index_from(label: Seq<char>, k: int) -> Option<int>
    decreases SLOT_COUNT - k,
{
    if k < 0 || k >= SLOT_COUNT {
        None
    } else if slot_label(k) == label {
        Some(k)
    } else {
        slot_index_from(label, k + 1)
    }
}

/// The named slot that a label fills, if any.
pub open spec fn slot_index(label: Seq<char>) -> Option<int> {
    slot_index_from(label, 0)
}

/// A slot found from `k` on lies between `k` and the last slot.
proof fn lemma_slot_index_from_range(label: Seq<char>, k: int)
    ensures
        slot_index_from(label, k) matches Some(j) ==> k <= j < SLOT_COUNT,
    decreases SLOT_COUNT - k,
{
    if 0 <= k < SLOT_COUNT && slot_label(k) != label {
        lemma_slot_index_from_range(label, k + 1);
    }
}

/// The label of named slot `k`.
fn slot_label_text(k: usize) -> (r: &'static str)
    requires
        k < SLOT_COUNT,
    ensures
        r@ == slot_label(k as int),
{
    if k == 0 {
        "house_number"
    } else if k == 1 {
        "road"
    } else if k == 2 {
        "unit"
    } else if k == 3 {
        "level"
    } else if k == 4 {
        "staircase"
    } else if k == 5 {
        "entrance"
    } else if k == 6 {
        "po_box"
    } else if k == 7 {
        "postcode"
    } else if k == 8 {
        "suburb"
    } else if k == 9 {
        "city"
    } else if k == 10 {
        "city_district"
    } else if k == 11 {
        "island"
    } else if k == 12 {
        "state"
    } else if k == 13 {
        "state_district"
    } else if k == 14 {
        "country_region"
    } else if k == 15 {
        "country"
    } else if k == 16 {
        "world_region"
    } else if k == 17 {
        "category"
    } else if k == 18 {
        "near"
    } else {
        "toponym"
    }
}

/// Finds the named slot that `label` fills.
pub fn find_slot(label: &str) -> (r: Option<usize>)
    ensures
        match slot_index(label@) {
            Some(k) => r == Some(k as usize),
            None => r is None,
        },
        r matches Some(k) ==> k < SLOT_COUNT,
{
    let mut k: usize = 0;
    while k < SLOT_COUNT
        invariant
            0 <= k <= SLOT_COUNT,
            slot_index(label@) == slot_index_from(label@, k as int),
        decreases SLOT_COUNT - k,
    {
        if same_text(label, slot_label_text(k)) {
            return Some(k);
        }
        k = k + 1;
    }
    None
}

/// A parsed address: named slots, and the values of unrecognized labels.
#[derive(Debug, Clone, PartialEq, Default)]
pub struct ParsedAddress {
    /// House number, such as "123" or "123A".
    pub house_number: Option<String>,
    /// Road or street name.
    pub road: Option<String>,
    /// Unit or apartment.
    pub unit: Option<String>,
    /// Floor or level.
    pub level: Option<String>,
    /// Staircase.
    pub staircase: Option<String>,
    /// Entrance.
    pub entrance: Option<String>,
    /// Post office box.
    pub po_box: Option<String>,
    /// Postal code.
    pub postcode: Option<String>,
    /// Suburb or neighbourhood.
    pub suburb: Option<String>,
    /// City or locality.
    pub city: Option<String>,
    /// City district.
    pub city_district: Option<String>,
    /// Island.
    pub island: Option<String>,
    /// State or province.
    pub state: Option<String>,
    /// State district.
    pub state_district: Option<String>,
    /// Country region.
    pub country_region: Option<String>,
    /// Country.
    pub country: Option<String>,
    /// World region.
    pub world_region: Option<String>,
    /// Category, such as a building type.
    pub category: Option<String>,
    /// Nearby place of reference.
    pub near: Option<String>,
    /// Place name.
    pub toponym: Option<String>,
    /// Values whose label fills no named slot, in order.
    pub other: Vec<String>,
}

/// The abstract content of a parsed address: one optional text per named
/// slot, and the overflow list.
pub struct AddressView {
    /// Slot `k` holds the value given to label `slot_label(k)`.
    pub slots: Seq<Option<Seq<char>>>,
    /// Values of unrecognized labels, in order.
    pub other: Seq<Seq<char>>,
}

/// The content of an address with no component.
pub open spec fn empty_view() -> AddressView {
    AddressView { slots: Seq::new(SLOT_COUNT as nat, |k: int| None), other: Seq::empty() }
}

/// Folds components into an address, in order: a component whose label names
/// a slot sets that slot, so the last one wins; any other appends its value
/// to the overflow list.
pub open spec fn fold_components(cs: Seq<(Seq<char>, Seq<char>)>) -> AddressView
    decreases cs.len(),
{
    if cs.len() == 0 {
        empty_view()
    } else {
        let prev = fold_components(cs.drop_last());
        let (label, value) = cs.last();
        match slot_index(label) {
            Some(k) => AddressView { slots: prev.slots.update(k, Some(value)), other: prev.other },
            None => AddressView { slots: prev.slots, other: prev.other.push(value) },
        }
    }
}

/// The listing of an address: each filled slot in slot order as
/// `(label, value)`, then each overflow value `i` as `("other_i", value)`.
pub open spec fn listed_slots(slots: Seq<Option<Seq<char>>>, k: int) -> Seq<(Seq<char>, Seq<char>)>
    decreases k,
{
    if k <= 0 {
        Seq::empty()
    } else {
        let prev = listed_slots(slots, k - 1);
        match slots[k - 1] {
            Some(v) => prev.push((slot_label(k - 1), v)),
            None => prev,
        }
    }
}

/// The key under which overflow value `i` is listed.
pub open spec fn other_key(i: nat) -> Seq<char> {
    "other_"@ + decimal(i)
}

/// The listing of overflow values.
pub open spec fn listed_other(other: Seq<Seq<char>>) -> Seq<(Seq<char>, Seq<char>)> {
    Seq::new(other.len(), |i: int| (other_key(i as nat), other[i]))
}

/// Every component of an address, as `components` lists them.
pub open spec fn listed(a: AddressView) -> Seq<(Seq<char>, Seq<char>)> {
    listed_slots(a.slots, SLOT_COUNT as int) + listed_other(a.other)
}

impl ParsedAddress {
    /// The content of this address.
    pub open spec fn view(&self) -> AddressView {
        AddressView {
            slots: seq![
                opt_view(self.house_number),
                opt_view(self.road),
                opt_view(self.unit),
                opt_view(self.level),
                opt_view(self.staircase),
                opt_view(self.entrance),
                opt_view(self.po_box),
                opt_view(self.postcode),
                opt_view(self.suburb),
                opt_view(self.city),
                opt_view(self.city_district),
                opt_view(self.island),
                opt_view(self.state),
                opt_view(self.state_district),
                opt_view(self.country_region),
                opt_view(self.country),
                opt_view(self.world_region),
                opt_view(self.category),
                opt_view(self.near),
                opt_view(self.toponym),
            ],
            other: self.other@.map_values(|s: String| s@),
        }
    }

    /// An address with every slot empty and no overflow value.
    pub fn new() -> (r: ParsedAddress)
        ensures
            r.view() == empty_view(),
    {
        let r = ParsedAddress {
            house_number: None,
            road: None,
            unit: None,
            level: None,
            staircase: None,
            entrance: None,
            po_box: None,
            postcode: None,
            suburb: None,
            city: None,
            city_district: None,
            island: None,
            state: None,
            state_district: None,
            country_region: None,
            country: None,
            world_region: None,
            category: None,
            near: None,
            toponym: None,
            other: Vec::new(),
        };
        assert(r.view().slots =~= empty_view().slots);
        assert(r.view().other =~= empty_view().other);
        r
    }

    /// Sets named slot `k` to `value`.
    fn set_slot(&mut self, k: usize, value: String)
        requires
            k < SLOT_COUNT,
        ensures
            final(self).view().slots == old(self).view().slots.update(k as int, Some(value@)),
            final(self).view().other == old(self).view().other,
    {
        if k == 0 {
            self.house_number = Some(value);
        } else if k == 1 {
            self.road = Some(value);
        } else if k == 2 {
            self.unit = Some(value);
        } else if k == 3 {
            self.level = Some(value);
        } else if k == 4 {
            self.staircase = Some(value);
        } else if k == 5 {
            self.entrance = Some(value);
        } else if k == 6 {
            self.po_box = Some(value);
        } else if k == 7 {
            self.postcode = Some(value);
        } else if k == 8 {
            self.suburb = Some(value);
        } else if k == 9 {
            self.city = Some(value);
        } else if k == 10 {
            self.city_district = Some(value);
        } else if k == 11 {
            self.island = Some(value);
        } else if k == 12 {
            self.state = Some(value);
        } else if k == 13 {
            self.state_district = Some(value);
        } else if k == 14 {
            self.country_region = Some(value);
        } else if k == 15 {
            self.country = Some(value);
        } else if k == 16 {
            self.world_region = Some(value);
        } else if k == 17 {
            self.category = Some(value);
        } else if k == 18 {
            self.near = Some(value);
        } else {
            self.toponym = Some(value);
        }
        assert(self.view().slots =~= old(self).view().slots.update(k as int, Some(value@)));
    }

    /// The value held in named slot `k`.
    fn slot(&self, k: usize) -> (r: &Option<String>)
        requires
            k < SLOT_COUNT,
        ensures
            opt_view(*r) == self.view().slots[k as int],
    {
        if k == 0 {
            &self.house_number
        } else if k == 1 {
            &self.road
        } else if k == 2 {
            &self.unit
        } else if k == 3 {
            &self.level
        } else if k == 4 {
            &self.staircase
        } else if k == 5 {
            &self.entrance
        } else if k == 6 {
            &self.po_box
        } else if k == 7 {
            &self.postcode
        } else if k == 8 {
            &self.suburb
        } else if k == 9 {
            &self.city
        } else if k == 10 {
            &self.city_district
        } else if k == 11 {
            &self.island
        } else if k == 12 {
            &self.state
        } else if k == 13 {
            &self.state_district
        } else if k == 14 {
            &self.country_region
        } else if k == 15 {
            &self.country
        } else if k == 16 {
            &self.world_region
        } else if k == 17 {
            &self.category
        } else if k == 18 {
            &self.near
        } else {
            &self.toponym
        }
    }

    /// Builds an address by folding `components` into it in order: a label
    /// that names a slot sets that slot (the last such component wins), and
    /// the value of any other label is appended to `other`.
    pub fn from_components(components: Vec<AddressComponent>) -> (r: ParsedAddress)
        ensures
            r.view() == fold_components(components_view(components@)),
    {
        let mut parsed = ParsedAddress::new();
        let ghost cs = components_view(components@);
        let mut i: usize = 0;
        while i < components.len()
            invariant
                cs == components_view(components@),
                0 <= i <= components@.len(),
                parsed.view() == fold_components(cs.subrange(0, i as int)),
            decreases components@.len() - i,
        {
            let c = &components[i];
            let value = c.value.clone();
            let ghost before = parsed.view();
            proof {
                lemma_slot_index_from_range(c.label@, 0);
            }
            match find_slot(c.label.as_str()) {
                Some(k) => {
                    parsed.set_slot(k, value);
                },
                None => {
                    parsed.other.push(value);
                    assert(parsed.view().slots =~= before.slots);
                    assert(parsed.view().other =~= before.other.push(value@));
                },
            }
            assert(cs.subrange(0, i + 1).drop_last() =~= cs.subrange(0, i as int));
            i = i + 1;
        }
        assert(cs.subrange(0, components@.len() as int) =~= cs);
        parsed
    }

    /// Lists every component: filled slots in slot order as `(label, value)`,
    /// then each overflow value `i` under the key `other_i`.
    pub fn components(&self) -> (r: Vec<AddressComponent>)
        ensures
            components_view(r@) == listed(self.view()),
    {
        let ghost v = self.view();
        let mut out: Vec<AddressComponent> = Vec::new();
        let mut k: usize = 0;
        while k < SLOT_COUNT
            invariant
                v == self.view(),
                0 <= k <= SLOT_COUNT,
                components_view(out@) == listed_slots(v.slots, k as int),
            decreases SLOT_COUNT - k,
        {
            let ghost before = out@;
            if let Some(value) = self.slot(k) {
                let c = AddressComponent {
                    label: String::from_str(slot_label_text(k)),
                    value: value.clone(),
                };
                out.push(c);
                assert(components_view(out@) =~= components_view(before).push(c@));
            }
            k = k + 1;
        }
        let mut i: usize = 0;
        while i < self.other.len()
            invariant
                v == self.view(),
                0 <= i <= self.other@.len(),
                components_view(out@) == listed_slots(v.slots, SLOT_COUNT as int) + listed_other(
                    v.other.subrange(0, i as int),
                ),
            decreases self.other@.len() - i,
        {
            let ghost before = out@;
            let mut key = String::from_str("other_");
            let digits = decimal_text(i as u64);
            key.append(digits.as_str());
            let c = AddressComponent { label: key, value: self.other[i].clone() };
            out.push(c);
            assert(listed_other(v.other.subrange(0, i + 1)) =~= listed_other(
                v.other.subrange(0, i as int),
            ).push(c@));
            assert(components_view(out@) =~= components_view(before).push(c@));
            i = i + 1;
        }
        assert(v.other.subrange(0, v.other.len() as int) =~= v.other);
        out
    }

    /// True exactly when every named slot is empty and there is no overflow value.
    pub fn is_empty(&self) -> (r: bool)
        ensures
            r == ((forall|k: int| 0 <= k < SLOT_COUNT ==> #[trigger] self.view().slots[k] is None)
                && self.other@.len() == 0),
    {
        let mut k: usize = 0;
        while k < SLOT_COUNT
            invariant
                0 <= k <= SLOT_COUNT,
                forall|j: int| 0 <= j < k ==> #[trigger] self.view().slots[j] is None,
            decreases SLOT_COUNT - k,
        {
            if self.slot(k).is_some() {
                return false;
            }
            k = k + 1;
        }
        self.other.len() == 0
    }
}

/// What a parse returns once the native call has answered: the error it
/// raised, a parse error for a null result, or the folded components.
pub open spec fn parsed_outcome(
    answer: Result<Option<Vec<RawEntry>>, Error>,
    r: Result<ParsedAddress, Error>,
) -> bool {
    match answer {
        Err(e) => r == Err::<ParsedAddress, Error>(e),
        Ok(None) => r matches Err(Error::ParseError { .. }),
        Ok(Some(entries)) => r matches Ok(p) && p.view() == fold_components(
            decoded_components(entries@),
        ),
    }
}

/// What parsing `address` with `hints` through `native` may return: a
/// boundary error where some text holds a NUL byte; otherwise the outcome of
/// one native call on exactly these texts. That no native call is made on a
/// NUL text follows from the callers' `requires`, which ask `native` to be
/// callable on the well-formed request for these texts only.
pub open spec fn parse_yields<F: FnOnce(ParseRequest) -> Result<Option<Vec<RawEntry>>, Error>>(
    native: F,
    hints: ParseOptions,
    address: Seq<char>,
    r: Result<ParsedAddress, Error>,
) -> bool {
    if has_nul(address) || hint_has_nul(hints.language) || hint_has_nul(hints.country) {
        r matches Err(Error::FfiError { .. })
    } else {
        exists|req: ParseRequest, answer: Result<Option<Vec<RawEntry>>, Error>|
            {
                &&& req.address@ == address
                &&& req.language == hints.language
                &&& req.country == hints.country
                &&& #[trigger] native.ensures((req,), answer)
                &&& parsed_outcome(answer, r)
            }
    }
}

/// `req` is the request for one of `addresses` with these hints: the only
/// requests a batch parse may hand to the native parser.
pub open spec fn batch_request_for(req: ParseRequest, hints: ParseOptions, addresses: Seq<&str>) -> bool {
    exists|i: int|
        0 <= i < addresses.len() && parse_request_for(
            req,
            (#[trigger] addresses[i])@,
            opt_view(hints.language),
            opt_view(hints.country),
        )
}

/// Parsing `address` with `hints` through `native` may succeed: some parsed
/// address is a possible outcome.
pub open spec fn parse_may_succeed<F: FnOnce(ParseRequest) -> Result<Option<Vec<RawEntry>>, Error>>(
    native: F,
    hints: ParseOptions,
    address: Seq<char>,
) -> bool {
    exists|p: ParsedAddress| parse_yields(native, hints, address, Ok(p))
}

/// Address parser facade: holds the language and country hints of its parses.
#[derive(Debug)]
pub struct AddressParser {
    options: ParseOptions,
}

impl AddressParser {
    /// The hints handed to the native parser.
    pub closed spec fn hints(&self) -> ParseOptions {
        self.options
    }

    /// A parser without hints.
    pub fn new() -> (r: AddressParser)
        ensures
            r.hints().language is None,
            r.hints().country is None,
    {
        AddressParser { options: ParseOptions { language: None, country: None } }
    }

    /// Sets the language hint to the code of `language`.
    pub fn with_language(self, language: Language) -> (r: AddressParser)
        ensures
            opt_view(r.hints().language) == Some(language_code(language)),
            r.hints().country == self.hints().country,
    {
        AddressParser {
            options: ParseOptions {
                language: Some(language.to_string()),
                country: self.options.country,
            },
        }
    }

    /// Sets the country hint to the code of `country`.
    pub fn with_country(self, country: Country) -> (r: AddressParser)
        ensures
            r.hints().language == self.hints().language,
            opt_view(r.hints().country) == Some(country_code(country)),
    {
        AddressParser {
            options: ParseOptions {
                language: self.options.language,
                country: Some(country.to_string()),
            },
        }
    }

    /// Sets each hint that `hints` carries, keeping the others.
    pub fn with_hints(self, hints: &AddressHint) -> (r: AddressParser)
        ensures
            match hints.language {
                Some(l) => opt_view(r.hints().language) == Some(language_code(l)),
                None => r.hints().language == self.hints().language,
            },
            match hints.country {
                Some(c) => opt_view(r.hints().country) == Some(country_code(c)),
                None => r.hints().country == self.hints().country,
            },
    {
        let language = match &hints.language {
            Some(l) => Some(l.to_string()),
            None => self.options.language,
        };
        let country = match &hints.country {
            Some(c) => Some(c.to_string()),
            None => self.options.country,
        };
        AddressParser { options: ParseOptions { language, country } }
    }

    /// Parses `address` through `native`, which stands for the native parser
    /// (see `native::parse_address`).
    pub fn parse<F>(&self, address: &str, native: F) -> (r: Result<ParsedAddress, Error>) where
        F: FnOnce(ParseRequest) -> Result<Option<Vec<RawEntry>>, Error>,

        requires
            forall|req: ParseRequest|
                parse_request_for(
                    req,
                    address@,
                    opt_view(self.hints().language),
                    opt_view(self.hints().country),
                ) ==> #[trigger] native.requires((req,)),
        ensures
            parse_yields(native, self.hints(), address@, r),
    {
        let req = match prepare_parse(address, &self.options) {
            Err(e) => return Err(e),
            Ok(req) => req,
        };
        let ghost g = req;
        let answer = native(req);
        let ghost a = answer;
        let r = match finish_parse(answer) {
            Err(e) => Err(e),
            Ok(components) => Ok(ParsedAddress::from_components(components)),
        };
        assert(native.ensures((g,), a) && parsed_outcome(a, r));
        r
    }

    /// Parses one address through a reusable `native`.
    fn parse_with<F>(&self, address: &str, native: &F) -> (r: Result<ParsedAddress, Error>) where
        F: Fn(ParseRequest) -> Result<Option<Vec<RawEntry>>, Error>,

        requires
            forall|req: ParseRequest|
                parse_request_for(
                    req,
                    address@,
                    opt_view(self.hints().language),
                    opt_view(self.hints().country),
                ) ==> #[trigger] native.requires((req,)),
        ensures
            parse_yields(*native, self.hints(), address@, r),
    {
        let req = match prepare_parse(address, &self.options) {
            Err(e) => return Err(e),
            Ok(req) => req,
        };
        let ghost g = req;
        let answer = native(req);
        let ghost a = answer;
        let r = match finish_parse(answer) {
            Err(e) => Err(e),
            Ok(components) => Ok(ParsedAddress::from_components(components)),
        };
        assert(native.ensures((g,), a) && parsed_outcome(a, r));
        r
    }

    /// Parses each address in order and stops at the first failure, which
    /// is returned; on success the results are in input order.
    pub fn parse_batch<F>(&self, addresses: &[&str], native: F) -> (r: Result<
        Vec<ParsedAddress>,
        Error,
    >) where F: Fn(ParseRequest) -> Result<Option<Vec<RawEntry>>, Error>
        requires
            forall|req: ParseRequest|
                batch_request_for(req, self.hints(), addresses@) ==> #[trigger] native.requires(
                    (req,),
                ),
        ensures
            r matches Ok(ps) ==> {
                &&& ps@.len() == addresses@.len()
                &&& forall|i: int|
                    0 <= i < addresses@.len() ==> parse_yields(
                        native,
                        self.hints(),
                        #[trigger] addresses@[i]@,
                        Ok(ps@[i]),
                    )
            },
            r matches Err(e) ==> exists|i: int|
                {
                    &&& 0 <= i < addresses@.len()
                    &&& parse_yields(native, self.hints(), #[trigger] addresses@[i]@, Err(e))
                    &&& forall|j: int|
                        0 <= j < i ==> parse_may_succeed(
                            native,
                            self.hints(),
                            #[trigger] addresses@[j]@,
                        )
                },
    {
        let mut out: Vec<ParsedAddress> = Vec::new();
        let mut i: usize = 0;
        while i < addresses.len()
            invariant
                forall|req: ParseRequest|
                batch_request_for(req, self.hints(), addresses@) ==> #[trigger] native.requires(
                    (req,),
                ),
                0 <= i <= addresses@.len(),
                out@.len() == i,
                forall|j: int|
                    0 <= j < i ==> parse_yields(
                        native,
                        self.hints(),
                        #[trigger] addresses@[j]@,
                        Ok(out@[j]),
                    ),
            decreases addresses@.len() - i,
        {
            proof {
                self.lemma_batch_item_callable(addresses@, i as int, native);
            }
            match self.parse_with(addresses[i], &native) {
                Ok(p) => {
                    out.push(p);
                },
                Err(e) => {
                    assert(parse_yields(native, self.hints(), addresses@[i as int]@, Err(e)));
                    assert forall|j: int| 0 <= j < i implies parse_may_succeed(
                        native,
                        self.hints(),
                        #[trigger] addresses@[j]@,
                    ) by {
                        assert(parse_yields(native, self.hints(), addresses@[j]@, Ok(out@[j])));
                    }
                    return Err(e);
                },
            }
            i = i + 1;
        }
        Ok(out)
    }

    /// Parses every address on worker threads; the results are in input
    /// order, one for each address, and a failure of one does not stop the
    /// others.
    pub fn parse_batch_parallel<F>(&self, addresses: &[&str], native: F) -> (r: Vec<
        Result<ParsedAddress, Error>,
    >) where F: Fn(ParseRequest) -> Result<Option<Vec<RawEntry>>, Error> + Sync
        requires
            forall|req: ParseRequest|
                batch_request_for(req, self.hints(), addresses@) ==> #[trigger] native.requires(
                    (req,),
                ),
        ensures
            r@.len() == addresses@.len(),
            forall|i: int|
                0 <= i < addresses@.len() ==> parse_yields(
                    native,
                    self.hints(),
                    #[trigger] addresses@[i]@,
                    r@[i],
                ),
    {
        let shared = &native;
        let one = |address: &str| -> (r: Result<ParsedAddress, Error>)
            requires
                forall|req: ParseRequest|
                    parse_request_for(
                        req,
                        address@,
                        opt_view(self.hints().language),
                        opt_view(self.hints().country),
                    ) ==> #[trigger] shared.requires((req,)),
            ensures
                parse_yields(*shared, self.hints(), address@, r),
            { self.parse_with(address, shared) };
        assert forall|i: int| 0 <= i < addresses@.len() implies #[trigger] one.requires(
            (addresses@[i],),
        ) by {
            self.lemma_batch_item_callable(addresses@, i, native);
        }
        let r = par_map(addresses, one);
        assert forall|i: int| 0 <= i < addresses@.len() implies parse_yields(
            native,
            self.hints(),
            #[trigger] addresses@[i]@,
            r@[i],
        ) by {
            assert(one.ensures((addresses@[i],), r@[i]));
        }
        r
    }

    /// Parses every address on worker threads and keeps those that parsed,
    /// in input order.
    pub fn parse_batch_parallel_ok<F>(&self, addresses: &[&str], native: F) -> (r: Vec<
        ParsedAddress,
    >) where F: Fn(ParseRequest) -> Result<Option<Vec<RawEntry>>, Error> + Sync
        requires
            forall|req: ParseRequest|
                batch_request_for(req, self.hints(), addresses@) ==> #[trigger] native.requires(
                    (req,),
                ),
        ensures
            exists|all: Seq<Result<ParsedAddress, Error>>|
                {
                    &&& all.len() == addresses@.len()
                    &&& forall|i: int|
                        0 <= i < addresses@.len() ==> parse_yields(
                            native,
                            self.hints(),
                            #[trigger] addresses@[i]@,
                            all[i],
                        )
                    &&& r@ == kept_ok(all)
                },
    {
        let all = self.parse_batch_parallel(addresses, native);
        let ghost g = all@;
        let r = AddressParser::parse_batch_ok(all);
        assert(r@ == kept_ok(g));
        r
    }

    /// A closure callable on every request of a batch is callable on the
    /// requests of each of its addresses.
    proof fn lemma_batch_item_callable<F>(&self, addresses: Seq<&str>, i: int, native: F) where
        F: Fn(ParseRequest) -> Result<Option<Vec<RawEntry>>, Error>,

        requires
            0 <= i < addresses.len(),
            forall|req: ParseRequest|
                batch_request_for(req, self.hints(), addresses) ==> #[trigger] native.requires(
                    (req,),
                ),
        ensures
            forall|req: ParseRequest|
                parse_request_for(
                    req,
                    addresses[i]@,
                    opt_view(self.hints().language),
                    opt_view(self.hints().country),
                ) ==> #[trigger] native.requires((req,)),
    {
        assert forall|req: ParseRequest|
            parse_request_for(
                req,
                addresses[i]@,
                opt_view(self.hints().language),
                opt_view(self.hints().country),
            ) implies #[trigger] native.requires((req,)) by {
            assert(batch_request_for(req, self.hints(), addresses));
        }
    }

    /// Keeps the addresses that parsed, in input order, and drops the failures.
    pub fn parse_batch_ok(results: Vec<Result<ParsedAddress, Error>>) -> (r: Vec<ParsedAddress>)
        ensures
            r@ == kept_ok(results@),
    {
        let mut out: Vec<ParsedAddress> = Vec::new();
        let mut rest = results;
        let ghost all = rest@;
        let ghost mut i: int = 0;
        while rest.len() > 0
            invariant
                0 <= i <= all.len(),
                rest@ == all.subrange(i, all.len() as int),
                out@ == kept_ok(all.subrange(0, i)),
            decreases rest@.len(),
        {
            let item = rest.remove(0);
            assert(all.subrange(0, i + 1).drop_last() =~= all.subrange(0, i));
            if let Ok(p) = item {
                out.push(p);
            }
            proof {
                i = i + 1;
            }
            assert(rest@ =~= all.subrange(i, all.len() as int));
        }
        assert(all.subrange(0, all.len() as int) =~= all);
        out
    }
}

/// Relies on rayon's indexed parallel iterators: mapping a slice with
/// `par_iter().map(f)` and collecting into a `Vec` gives one result per item,
/// in item order.
#[verifier::external_body]
fn par_map<'a, T: Send, F: Fn(&'a str) -> T + Sync + Send>(items: &'a [&'a str], f: F) -> (r: Vec<T>)
    requires
        forall|i: int| 0 <= i < items@.len() ==> #[trigger] f.requires((items@[i],)),
    ensures
        r@.len() == items@.len(),
        forall|i: int| 0 <= i < items@.len() ==> #[trigger] f.ensures((items@[i],), r@[i]),
{
    items.par_iter().map(|a| f(a)).collect()
}

impl Default for AddressParser {
    /// A parser without hints.
    fn default() -> (r: AddressParser)
        ensures
            r.hints().language is None,
            r.hints().country is None,
    {
        AddressParser::new()
    }
}

/// The successful results, in order.
pub open spec fn kept_ok(rs: Seq<Result<ParsedAddress, Error>>) -> Seq<ParsedAddress>
    decreases rs.len(),
{
    if rs.len() == 0 {
        Seq::empty()
    } else {
        match rs.last() {
            Ok(p) => kept_ok(rs.drop_last()).push(p),
            Err(_) => kept_ok(rs.drop_last()),
        }
    }
}

} // verus!
