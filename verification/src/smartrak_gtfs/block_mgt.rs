//! Vehicle identifiers for Fleet API lookups and block allocations.

use vstd::prelude::*;
use vstd::utf8::encode_utf8;
use crate::decimal::{i64_to_string, int_decimal};
use crate::text::{pad_left, pad_left_spec, seq_starts_with, strip_prefix, strip_prefix_spec, trim_end_char,
    trim_end_char_spec};
use crate::urlencode::{encode, percent_encode};

verus! {

/// How a vehicle is looked up in the Fleet API.
#[derive(Clone, Debug, PartialEq, Eq)]
pub enum VehicleIdentifier {
    /// By label (train labels, padded to 14 characters).
    Label(String),
    /// By ID.
    Id(String),
}

/// A [`VehicleIdentifier`] with its text taken as characters.
pub enum VehicleIdentifierView {
    Label(Seq<char>),
    Id(Seq<char>),
}

impl View for VehicleIdentifier {
    type V = VehicleIdentifierView;

    open spec fn view(&self) -> VehicleIdentifierView {
        match self {
            VehicleIdentifier::Label(s) => VehicleIdentifierView::Label(s@),
            VehicleIdentifier::Id(s) => VehicleIdentifierView::Id(s@),
        }
    }
}

/// The train label for `s`: when `s` begins with `AMP` (or else `AM`), that
/// prefix followed by the rest right-aligned with spaces to 14 characters
/// in all; `None` for other identifiers.
pub open spec fn train_label_spec(s: Seq<char>) -> Option<Seq<char>> {
    match strip_prefix_spec(s, "AMP"@) {
        Some(rest) => Some("AMP"@ + pad_left_spec(rest, 11)),
        None => match strip_prefix_spec(s, "AM"@) {
            Some(rest) => Some("AM"@ + pad_left_spec(rest, 12)),
            None => None,
        },
    }
}

/// The identifier for `s`: a train label when `s` is one, the ID otherwise.
pub open spec fn identifier_spec(s: Seq<char>) -> VehicleIdentifierView {
    match train_label_spec(s) {
        Some(label) => VehicleIdentifierView::Label(label),
        None => VehicleIdentifierView::Id(s),
    }
}

/// The Fleet API query for an identifier: `label=` or `id=` followed by
/// the percent-encoded text.
pub open spec fn query_spec(id: VehicleIdentifierView) -> Seq<char> {
    match id {
        VehicleIdentifierView::Label(l) => "label="@ + percent_encode(encode_utf8(l)),
        VehicleIdentifierView::Id(i) => "id="@ + percent_encode(encode_utf8(i)),
    }
}

/// The train label for `s`, if `s` is a train label.
pub fn train_label(s: &str) -> (r: Option<String>)
    ensures
        opt_string_view(r) == train_label_spec(s@),
{
    if let Some(rest) = strip_prefix(s, "AMP") {
        let padded = pad_left(rest.as_str(), 11);
        return Some(String::from_str("AMP").concat(padded.as_str()));
    }
    if let Some(rest) = strip_prefix(s, "AM") {
        let padded = pad_left(rest.as_str(), 12);
        return Some(String::from_str("AM").concat(padded.as_str()));
    }
    None
}

/// The view of an optional string.
pub open spec fn opt_string_view(o: Option<String>) -> Option<Seq<char>> {
    match o {
        Some(s) => Some(s@),
        None => None,
    }
}

impl Default for VehicleIdentifier {
    /// The empty ID.
    fn default() -> (r: VehicleIdentifier)
        ensures
            r@ == VehicleIdentifierView::Id(Seq::empty()),
    {
        VehicleIdentifier::Id(String::new())
    }
}

impl VehicleIdentifier {
    /// The identifier for `s`: train labels (`AMP…`, `AM…`) are padded to
    /// 14 characters; anything else is used as an ID.
    pub fn parse(s: &str) -> (r: VehicleIdentifier)
        ensures
            r@ == identifier_spec(s@),
    {
        match train_label(s) {
            Some(label) => VehicleIdentifier::Label(label),
            None => VehicleIdentifier::Id(String::from_str(s)),
        }
    }

    /// The Fleet API query for the identifier.
    pub fn to_query(&self) -> (r: String)
        ensures
            r@ == query_spec(self@),
    {
        match self {
            VehicleIdentifier::Label(label) => String::from_str("label=").concat(encode(label.as_str()).as_str()),
            VehicleIdentifier::Id(id) => String::from_str("id=").concat(encode(id.as_str()).as_str()),
        }
    }
}

impl core::str::FromStr for VehicleIdentifier {
    type Err = core::convert::Infallible;

    /// Same as [`VehicleIdentifier::parse`]; never fails.
    fn from_str(s: &str) -> (r: Result<VehicleIdentifier, core::convert::Infallible>)
        ensures
            r matches Ok(id) && id@ == identifier_spec(s@),
    {
        Ok(VehicleIdentifier::parse(s))
    }
}

/// The Fleet API request URI for an identifier: the base URL without
/// trailing slashes, `/vehicles?`, and the identifier's query.
pub open spec fn vehicles_uri_spec(url: Seq<char>, id: VehicleIdentifierView) -> Seq<char> {
    trim_end_char_spec(url, '/') + "/vehicles?"@ + query_spec(id)
}

/// The Fleet API request URI for an identifier.
pub fn vehicles_uri(url: &str, identifier: &VehicleIdentifier) -> (r: String)
    ensures
        r@ == vehicles_uri_spec(url@, identifier@),
{
    let base = trim_end_char(url, '/');
    let query = identifier.to_query();
    base.concat("/vehicles?").concat(query.as_str())
}

/// The Block Management API request URI for the allocation of a vehicle at
/// a time.
pub open spec fn allocation_uri_spec(url: Seq<char>, vehicle_id: Seq<char>, timestamp: i64) -> Seq<char> {
    url + "/allocations/vehicles/"@ + vehicle_id
        + "?currentTrip=true&siblings=true&nowUnixTimeSeconds="@ + int_decimal(timestamp as int)
}

/// The Block Management API request URI for the allocation of a vehicle.
pub fn allocation_uri(url: &str, vehicle_id: &str, timestamp: i64) -> (r: String)
    ensures
        r@ == allocation_uri_spec(url@, vehicle_id@, timestamp),
{
    let ts = i64_to_string(timestamp);
    String::from_str(url).concat("/allocations/vehicles/").concat(vehicle_id)
        .concat("?currentTrip=true&siblings=true&nowUnixTimeSeconds=").concat(ts.as_str())
}

/// Block allocation from the Block Management API.
#[derive(Clone, Debug)]
pub struct BlockInstance {
    pub trip_id: String,
    pub start_time: String,
    pub service_date: String,
    pub vehicle_ids: Vec<String>,
    pub error: bool,
}

impl Default for BlockInstance {
    /// The empty allocation, which marks no failure.
    fn default() -> (r: BlockInstance)
        ensures
            !r.error,
            r.trip_id@.len() == 0,
            r.start_time@.len() == 0,
            r.service_date@.len() == 0,
            r.vehicle_ids@.len() == 0,
    {
        BlockInstance {
            trip_id: String::new(),
            start_time: String::new(),
            service_date: String::new(),
            vehicle_ids: Vec::new(),
            error: false,
        }
    }
}

impl BlockInstance {
    /// Whether the allocation marks a failed lookup.
    pub fn has_error(&self) -> (r: bool)
        ensures
            r == self.error,
    {
        self.error
    }
}


/// A train label is 14 characters long, or as long as the identifier when
/// that is longer.
pub proof fn train_label_width(s: Seq<char>)
    requires
        train_label_spec(s) is Some,
    ensures
        train_label_spec(s).unwrap().len() == if s.len() >= 14 { s.len() } else { 14 },
{
    reveal_strlit("AMP");
    reveal_strlit("AM");
}

/// Padding a train label again gives the same label.
pub proof fn train_label_idempotent(s: Seq<char>)
    requires
        train_label_spec(s) is Some,
    ensures
        train_label_spec(train_label_spec(s).unwrap()) == train_label_spec(s),
{
    reveal_strlit("AMP");
    reveal_strlit("AM");
    let amp = seq!['A', 'M', 'P'];
    let am = seq!['A', 'M'];
    assert("AMP"@ =~= amp);
    assert("AM"@ =~= am);
    let l = train_label_spec(s).unwrap();
    if seq_starts_with(s, amp) {
        let rest = s.skip(3);
        let padded = pad_left_spec(rest, 11);
        assert(l == amp + padded);
        assert(l.subrange(0, 3) =~= amp);
        assert(l.skip(3) =~= padded);
        assert(pad_left_spec(padded, 11) == padded);
    } else {
        let rest = s.skip(2);
        let padded = pad_left_spec(rest, 12);
        assert(l == am + padded);
        assert(l.subrange(0, 2) =~= am);
        assert(l.skip(2) =~= padded);
        assert(pad_left_spec(padded, 12) == padded);
        if rest.len() >= 12 {
            assert(s.subrange(0, 2) =~= am);
            assert(l[2] == s[2]);
            assert(!(s.subrange(0, 3) =~= amp));
            assert(!(l.subrange(0, 3) =~= amp));
        } else {
            assert(l[2] == ' ');
            assert(!(l.subrange(0, 3) =~= amp));
        }
    }
}


/// Reading a vehicle identifier: a text that begins with `AM` is a train
/// label, anything else is an ID holding the text unchanged; a label is 14
/// characters long, or as long as the text when that is longer, and reading
/// the label again gives the same label.
pub proof fn identifier_laws(s: Seq<char>)
    ensures
        (identifier_spec(s) is Label) <==> seq_starts_with(s, "AM"@),
        identifier_spec(s) is Id ==> identifier_spec(s) == VehicleIdentifierView::Id(s),
        identifier_spec(s) matches VehicleIdentifierView::Label(l) ==> {
            &&& identifier_spec(l) == VehicleIdentifierView::Label(l)
            &&& l.len() == if s.len() >= 14 { s.len() } else { 14 }
        },
{
    reveal_strlit("AMP");
    reveal_strlit("AM");
    if seq_starts_with(s, "AMP"@) {
        assert(s.subrange(0, 2) =~= "AM"@) by {
            assert(s.subrange(0, 2) =~= s.subrange(0, 3).subrange(0, 2));
        }
    }
    if train_label_spec(s) is Some {
        train_label_width(s);
        train_label_idempotent(s);
    }
}

} // verus!
