//! The typed model of a search response, and the verified mapping that
//! fills it from a parsed JSON document.
//!
//! The mapping is structural and permissive: unknown keys are ignored,
//! every section is optional, and a section that is absent or null stays
//! `None`.  A required field that is missing or of the wrong shape makes
//! the whole mapping fail.  For each structure, a `..._ok` spec function
//! says on which documents the mapping succeeds and a `..._rel` spec
//! function says what the filled value holds; the `from_json` functions
//! are proved against both.
//!
//! Two shapes deserve a note.  The inner results list of the videos
//! section keeps the three-way distinction of the wire: an absent or
//! null list stays `None`, a present one (empty or not) becomes `Some`.
//! Location entries carry only their text fields here; the coordinates
//! and ratings of the wire are floating-point values, which this
//! library does not model.

use vstd::prelude::*;
use vstd::string::StringExecFns;
use crate::errors::BraveClientError;
use crate::json::{Json, JsonV, jfield, arr_view, lemma_arr_view, parse_json, json_of};

verus! {

broadcast use vstd::seq::group_seq_axioms;

/// Whether the document has a string at `k`.
pub open spec fn req_str_ok(j: JsonV, k: Seq<char>) -> bool {
    jfield(j, k) matches Some(JsonV::Str(_))
}

/// The string at `k`.
pub open spec fn req_str(j: JsonV, k: Seq<char>) -> Seq<char> {
    match jfield(j, k) {
        Some(JsonV::Str(s)) => s,
        _ => Seq::empty(),
    }
}

/// Whether `k` is absent, null, or a string: the shapes an optional
/// string field accepts.
pub open spec fn opt_str_ok(j: JsonV, k: Seq<char>) -> bool {
    match jfield(j, k) {
        None => true,
        Some(JsonV::Null) => true,
        Some(JsonV::Str(_)) => true,
        Some(_) => false,
    }
}

/// The value of an optional string field: `None` when absent or null.
pub open spec fn opt_str(j: JsonV, k: Seq<char>) -> Option<Seq<char>> {
    match jfield(j, k) {
        Some(JsonV::Str(s)) => Some(s),
        _ => None,
    }
}

/// Whether the document has a boolean at `k`.
pub open spec fn req_bool_ok(j: JsonV, k: Seq<char>) -> bool {
    jfield(j, k) matches Some(JsonV::Bool(_))
}

/// The boolean at `k`.
pub open spec fn req_bool(j: JsonV, k: Seq<char>) -> bool {
    match jfield(j, k) {
        Some(JsonV::Bool(b)) => b,
        _ => false,
    }
}

/// Whether `k` is absent, null, or a boolean.
pub open spec fn opt_bool_ok(j: JsonV, k: Seq<char>) -> bool {
    match jfield(j, k) {
        None => true,
        Some(JsonV::Null) => true,
        Some(JsonV::Bool(_)) => true,
        Some(_) => false,
    }
}

/// The value of an optional boolean field: `None` when absent or null.
pub open spec fn opt_bool(j: JsonV, k: Seq<char>) -> Option<bool> {
    match jfield(j, k) {
        Some(JsonV::Bool(b)) => Some(b),
        _ => None,
    }
}

/// Whether `k` is absent, null, or a number.
pub open spec fn opt_u64_ok(j: JsonV, k: Seq<char>) -> bool {
    match jfield(j, k) {
        None => true,
        Some(JsonV::Null) => true,
        Some(JsonV::Num(_)) => true,
        Some(_) => false,
    }
}

/// The value of an optional numeric field: `None` when absent or null.
pub open spec fn opt_u64(j: JsonV, k: Seq<char>) -> Option<u64> {
    match jfield(j, k) {
        Some(JsonV::Num(n)) => Some(n),
        _ => None,
    }
}

/// Whether `k` is absent, null, or a number that fits the platform's
/// word size.
pub open spec fn opt_usize_ok(j: JsonV, k: Seq<char>) -> bool {
    match jfield(j, k) {
        None => true,
        Some(JsonV::Null) => true,
        Some(JsonV::Num(n)) => n <= usize::MAX,
        Some(_) => false,
    }
}

/// Whether the document has a number at `k` and it fits a u32.
pub open spec fn req_u32_ok(j: JsonV, k: Seq<char>) -> bool {
    match jfield(j, k) {
        Some(JsonV::Num(n)) => n <= u32::MAX,
        _ => false,
    }
}

/// The number at `k`.
pub open spec fn req_u64(j: JsonV, k: Seq<char>) -> u64 {
    match jfield(j, k) {
        Some(JsonV::Num(n)) => n,
        _ => 0,
    }
}

/// Whether the document has a number at `k`.
pub open spec fn req_u64_ok(j: JsonV, k: Seq<char>) -> bool {
    jfield(j, k) matches Some(JsonV::Num(_))
}

/// Reads a required string field.
fn get_req_str(j: &Json, k: &str) -> (r: Option<String>)
    ensures
        match r {
            Some(s) => req_str_ok(j@, k@) && s@ == req_str(j@, k@),
            None => !req_str_ok(j@, k@),
        },
{
    match j.get(k) {
        Some(v) => match v.as_str() {
            Some(s) => Some(s.clone()),
            None => None,
        },
        None => None,
    }
}

/// Reads an optional string field; the outer `None` is a shape
/// mismatch, the inner one an absent or null field.
fn get_opt_str(j: &Json, k: &str) -> (r: Option<Option<String>>)
    ensures
        match r {
            Some(o) => opt_str_ok(j@, k@) && match o {
                Some(s) => opt_str(j@, k@) == Some(s@),
                None => opt_str(j@, k@) is None,
            },
            None => !opt_str_ok(j@, k@),
        },
{
    match j.get(k) {
        None => Some(None),
        Some(v) => {
            if v.is_null() {
                Some(None)
            } else {
                match v.as_str() {
                    Some(s) => Some(Some(s.clone())),
                    None => None,
                }
            }
        },
    }
}

/// Reads a required boolean field.
fn get_req_bool(j: &Json, k: &str) -> (r: Option<bool>)
    ensures
        match r {
            Some(b) => req_bool_ok(j@, k@) && b == req_bool(j@, k@),
            None => !req_bool_ok(j@, k@),
        },
{
    match j.get(k) {
        Some(v) => v.as_bool(),
        None => None,
    }
}

/// Reads an optional boolean field; the outer `None` is a shape
/// mismatch, the inner one an absent or null field.
fn get_opt_bool(j: &Json, k: &str) -> (r: Option<Option<bool>>)
    ensures
        match r {
            Some(o) => opt_bool_ok(j@, k@) && o == opt_bool(j@, k@),
            None => !opt_bool_ok(j@, k@),
        },
{
    match j.get(k) {
        None => Some(None),
        Some(v) => {
            if v.is_null() {
                Some(None)
            } else {
                match v.as_bool() {
                    Some(b) => Some(Some(b)),
                    None => None,
                }
            }
        },
    }
}

/// Reads an optional numeric field; the outer `None` is a shape
/// mismatch, the inner one an absent or null field.
fn get_opt_u64(j: &Json, k: &str) -> (r: Option<Option<u64>>)
    ensures
        match r {
            Some(o) => opt_u64_ok(j@, k@) && o == opt_u64(j@, k@),
            None => !opt_u64_ok(j@, k@),
        },
{
    match j.get(k) {
        None => Some(None),
        Some(v) => {
            if v.is_null() {
                Some(None)
            } else {
                match v.as_u64() {
                    Some(n) => Some(Some(n)),
                    None => None,
                }
            }
        },
    }
}

/// Reads a required numeric field that must fit a u32.
fn get_req_u32(j: &Json, k: &str) -> (r: Option<u32>)
    ensures
        match r {
            Some(n) => req_u32_ok(j@, k@) && n == req_u64(j@, k@),
            None => !req_u32_ok(j@, k@),
        },
{
    match j.get(k) {
        Some(v) => match v.as_u64() {
            Some(n) => {
                if n <= u32::MAX as u64 {
                    Some(n as u32)
                } else {
                    None
                }
            },
            None => None,
        },
        None => None,
    }
}

/// Reads a required numeric field.
fn get_req_u64(j: &Json, k: &str) -> (r: Option<u64>)
    ensures
        match r {
            Some(n) => req_u64_ok(j@, k@) && n == req_u64(j@, k@),
            None => !req_u64_ok(j@, k@),
        },
{
    match j.get(k) {
        Some(v) => v.as_u64(),
        None => None,
    }
}

/// Whether an array element is a string.
pub open spec fn string_elem_ok(x: JsonV) -> bool {
    x is Str
}

/// What a filled string element holds.
pub open spec fn string_elem_rel(s: String, x: JsonV) -> bool {
    x == JsonV::Str(s@)
}

/// Whether every element of an array is a string.
pub open spec fn string_seq_ok(a: Seq<JsonV>) -> bool {
    forall|i: int| 0 <= i < a.len() ==> string_elem_ok(#[trigger] a[i])
}

/// What a filled string list holds: one entry per element, in order.
pub open spec fn string_seq_rel(v: Seq<String>, a: Seq<JsonV>) -> bool {
    &&& v.len() == a.len()
    &&& forall|i: int| 0 <= i < a.len() ==> string_elem_rel(#[trigger] v[i], a[i])
}

/// Fills a string list from an array.
fn string_list_from_json(items: &Vec<Json>) -> (r: Option<Vec<String>>)
    ensures
        match r {
            Some(v) => string_seq_ok(arr_view(items@)) && string_seq_rel(v@, arr_view(items@)),
            None => !string_seq_ok(arr_view(items@)),
        },
{
    proof {
        lemma_arr_view(items@);
    }
    let mut v: Vec<String> = Vec::new();
    let n = items.len();
    let mut i: usize = 0;
    while i < n
        invariant
            n == items.len(),
            i <= n,
            v@.len() == i,
            arr_view(items@).len() == items@.len(),
            forall|k: int| 0 <= k < items@.len() ==> arr_view(items@)[k] == items@[k]@,
            forall|k: int| 0 <= k < i ==> string_elem_ok(#[trigger] arr_view(items@)[k]),
            forall|k: int| 0 <= k < i ==> string_elem_rel(#[trigger] v@[k], arr_view(items@)[k]),
        decreases n - i,
    {
        match items[i].as_str() {
            Some(s) => {
                v.push(s.clone());
            },
            None => {
                proof {
                    assert(!string_elem_ok(arr_view(items@)[i as int]));
                }
                return None;
            },
        }
        i += 1;
    }
    Some(v)
}


/// Whether `k` is absent, null, or an array of strings.
pub open spec fn opt_string_list_ok(j: JsonV, k: Seq<char>) -> bool {
    match jfield(j, k) {
        None => true,
        Some(JsonV::Null) => true,
        Some(JsonV::Arr(a)) => string_seq_ok(a),
        Some(_) => false,
    }
}

/// What an optional string list field holds: `None` when absent or null.
pub open spec fn opt_string_list_rel(o: Option<Vec<String>>, j: JsonV, k: Seq<char>) -> bool {
    match jfield(j, k) {
        Some(JsonV::Arr(a)) => o matches Some(v) && string_seq_rel(v@, a),
        _ => o is None,
    }
}

/// The profile of a result's source.
#[derive(Debug)]
pub struct Profile {
    /// The source's name.
    pub name: String,
    /// The source's address.
    pub url: String,
    /// The source's long name.
    pub long_name: Option<String>,
    /// The source's image.
    pub img: Option<String>,
}

/// On which documents a profile fills.
pub open spec fn profile_ok(j: JsonV) -> bool {
    &&& req_str_ok(j, "name"@)
    &&& req_str_ok(j, "url"@)
    &&& opt_str_ok(j, "long_name"@)
    &&& opt_str_ok(j, "img"@)
}

/// What a filled profile holds.
pub open spec fn profile_rel(x: Profile, j: JsonV) -> bool {
    &&& x.name@ == req_str(j, "name"@)
    &&& x.url@ == req_str(j, "url"@)
    &&& match x.long_name {
            Some(v) => opt_str(j, "long_name"@) == Some(v@),
            None => opt_str(j, "long_name"@) is None,
        }
    &&& match x.img {
            Some(v) => opt_str(j, "img"@) == Some(v@),
            None => opt_str(j, "img"@) is None,
        }
}

impl Profile {
    /// Fills a profile from a document.
    pub fn from_json(j: &Json) -> (r: Option<Self>)
        ensures
            match r {
                Some(x) => profile_ok(j@) && profile_rel(x, j@),
                None => !profile_ok(j@),
            },
    {
        let name = match get_req_str(j, "name") {
            Some(v) => v,
            None => {
                return None;
            },
        };
        let url = match get_req_str(j, "url") {
            Some(v) => v,
            None => {
                return None;
            },
        };
        let long_name = match get_opt_str(j, "long_name") {
            Some(v) => v,
            None => {
                return None;
            },
        };
        let img = match get_opt_str(j, "img") {
            Some(v) => v,
            None => {
                return None;
            },
        };
        Some(Profile { name, url, long_name, img })
    }
}

/// Whether `k` is absent, null, or a document that fills a profile.
pub open spec fn opt_profile_ok(j: JsonV, k: Seq<char>) -> bool {
    match jfield(j, k) {
        None => true,
        Some(x) => x is Null || profile_ok(x),
    }
}

/// What an optional profile field holds: `None` when absent or null.
pub open spec fn opt_profile_rel(o: Option<Profile>, j: JsonV, k: Seq<char>) -> bool {
    match jfield(j, k) {
        None => o is None,
        Some(x) => if x is Null {
            o is None
        } else {
            o matches Some(v) && profile_rel(v, x)
        },
    }
}

/// A thumbnail image of a result.
#[derive(Debug)]
pub struct Thumbnail {
    /// The served image address.
    pub src: String,
    /// The original image address.
    pub original: Option<String>,
    /// Whether the image is a logo.
    pub logo: Option<bool>,
}

/// On which documents a thumbnail fills.
pub open spec fn thumbnail_ok(j: JsonV) -> bool {
    &&& req_str_ok(j, "src"@)
    &&& opt_str_ok(j, "original"@)
    &&& opt_bool_ok(j, "logo"@)
}

/// What a filled thumbnail holds.
pub open spec fn thumbnail_rel(x: Thumbnail, j: JsonV) -> bool {
    &&& x.src@ == req_str(j, "src"@)
    &&& match x.original {
            Some(v) => opt_str(j, "original"@) == Some(v@),
            None => opt_str(j, "original"@) is None,
        }
    &&& x.logo == opt_bool(j, "logo"@)
}

impl Thumbnail {
    /// Fills a thumbnail from a document.
    pub fn from_json(j: &Json) -> (r: Option<Self>)
        ensures
            match r {
                Some(x) => thumbnail_ok(j@) && thumbnail_rel(x, j@),
                None => !thumbnail_ok(j@),
            },
    {
        let src = match get_req_str(j, "src") {
            Some(v) => v,
            None => {
                return None;
            },
        };
        let original = match get_opt_str(j, "original") {
            Some(v) => v,
            None => {
                return None;
            },
        };
        let logo = match get_opt_bool(j, "logo") {
            Some(v) => v,
            None => {
                return None;
            },
        };
        Some(Thumbnail { src, original, logo })
    }
}

/// Whether `k` is absent, null, or a document that fills a thumbnail.
pub open spec fn opt_thumbnail_ok(j: JsonV, k: Seq<char>) -> bool {
    match jfield(j, k) {
        None => true,
        Some(x) => x is Null || thumbnail_ok(x),
    }
}

/// What an optional thumbnail field holds: `None` when absent or null.
pub open spec fn opt_thumbnail_rel(o: Option<Thumbnail>, j: JsonV, k: Seq<char>) -> bool {
    match jfield(j, k) {
        None => o is None,
        Some(x) => if x is Null {
            o is None
        } else {
            o matches Some(v) && thumbnail_rel(v, x)
        },
    }
}

/// One labelled value of an infobox.
#[derive(Debug)]
pub struct Attribute {
    /// The attribute's label.
    pub label: String,
    /// The attribute's value.
    pub value: String,
}

/// On which documents an attribute fills.
pub open spec fn attribute_ok(j: JsonV) -> bool {
    &&& req_str_ok(j, "label"@)
    &&& req_str_ok(j, "value"@)
}

/// What a filled attribute holds.
pub open spec fn attribute_rel(x: Attribute, j: JsonV) -> bool {
    &&& x.label@ == req_str(j, "label"@)
    &&& x.value@ == req_str(j, "value"@)
}

impl Attribute {
    /// Fills an attribute from a document.
    pub fn from_json(j: &Json) -> (r: Option<Self>)
        ensures
            match r {
                Some(x) => attribute_ok(j@) && attribute_rel(x, j@),
                None => !attribute_ok(j@),
            },
    {
        let label = match get_req_str(j, "label") {
            Some(v) => v,
            None => {
                return None;
            },
        };
        let value = match get_req_str(j, "value") {
            Some(v) => v,
            None => {
                return None;
            },
        };
        Some(Attribute { label, value })
    }
}

/// Whether every element of an array fills an attribute.
pub open spec fn attribute_seq_ok(a: Seq<JsonV>) -> bool {
    forall|i: int| 0 <= i < a.len() ==> attribute_ok(#[trigger] a[i])
}

/// What a filled attribute list holds: one entry per element, in order.
pub open spec fn attribute_seq_rel(v: Seq<Attribute>, a: Seq<JsonV>) -> bool {
    &&& v.len() == a.len()
    &&& forall|i: int| 0 <= i < a.len() ==> attribute_rel(#[trigger] v[i], a[i])
}

/// Fills an attribute list from an array.
fn attribute_list_from_json(items: &Vec<Json>) -> (r: Option<Vec<Attribute>>)
    ensures
        match r {
            Some(v) => attribute_seq_ok(arr_view(items@)) && attribute_seq_rel(v@, arr_view(items@)),
            None => !attribute_seq_ok(arr_view(items@)),
        },
{
    proof {
        lemma_arr_view(items@);
    }
    let mut v: Vec<Attribute> = Vec::new();
    let n = items.len();
    let mut i: usize = 0;
    while i < n
        invariant
            n == items.len(),
            i <= n,
            v@.len() == i,
            arr_view(items@).len() == items@.len(),
            forall|k: int| 0 <= k < items@.len() ==> arr_view(items@)[k] == items@[k]@,
            forall|k: int| 0 <= k < i ==> attribute_ok(#[trigger] arr_view(items@)[k]),
            forall|k: int| 0 <= k < i ==> attribute_rel(#[trigger] v@[k], arr_view(items@)[k]),
        decreases n - i,
    {
        match Attribute::from_json(&items[i]) {
            Some(x) => {
                v.push(x);
            },
            None => {
                proof {
                    assert(!attribute_ok(arr_view(items@)[i as int]));
                }
                return None;
            },
        }
        i += 1;
    }
    Some(v)
}

/// Whether `k` is absent, null, or an array of documents that fill a
/// attribute each.
pub open spec fn opt_attribute_list_ok(j: JsonV, k: Seq<char>) -> bool {
    match jfield(j, k) {
        None => true,
        Some(JsonV::Null) => true,
        Some(JsonV::Arr(a)) => attribute_seq_ok(a),
        Some(_) => false,
    }
}

/// What an optional attribute list field holds: `None` when absent or null.
pub open spec fn opt_attribute_list_rel(o: Option<Vec<Attribute>>, j: JsonV, k: Seq<char>) -> bool {
    match jfield(j, k) {
        Some(JsonV::Arr(a)) => o matches Some(v) && attribute_seq_rel(v@, a),
        _ => o is None,
    }
}

/// The postal address of a location entry.
#[derive(Debug)]
pub struct PostalAddress {
    /// The country.
    pub country: String,
    /// The region.
    pub region: String,
    /// The locality.
    pub locality: String,
    /// The street address.
    pub street_address: String,
    /// The postal code.
    pub postal_code: String,
}

/// On which documents a postal address fills.
pub open spec fn postal_address_ok(j: JsonV) -> bool {
    &&& req_str_ok(j, "country"@)
    &&& req_str_ok(j, "region"@)
    &&& req_str_ok(j, "locality"@)
    &&& req_str_ok(j, "street_address"@)
    &&& req_str_ok(j, "postal_code"@)
}

/// What a filled postal address holds.
pub open spec fn postal_address_rel(x: PostalAddress, j: JsonV) -> bool {
    &&& x.country@ == req_str(j, "country"@)
    &&& x.region@ == req_str(j, "region"@)
    &&& x.locality@ == req_str(j, "locality"@)
    &&& x.street_address@ == req_str(j, "street_address"@)
    &&& x.postal_code@ == req_str(j, "postal_code"@)
}

impl PostalAddress {
    /// Fills a postal address from a document.
    pub fn from_json(j: &Json) -> (r: Option<Self>)
        ensures
            match r {
                Some(x) => postal_address_ok(j@) && postal_address_rel(x, j@),
                None => !postal_address_ok(j@),
            },
    {
        let country = match get_req_str(j, "country") {
            Some(v) => v,
            None => {
                return None;
            },
        };
        let region = match get_req_str(j, "region") {
            Some(v) => v,
            None => {
                return None;
            },
        };
        let locality = match get_req_str(j, "locality") {
            Some(v) => v,
            None => {
                return None;
            },
        };
        let street_address = match get_req_str(j, "street_address") {
            Some(v) => v,
            None => {
                return None;
            },
        };
        let postal_code = match get_req_str(j, "postal_code") {
            Some(v) => v,
            None => {
                return None;
            },
        };
        Some(PostalAddress { country, region, locality, street_address, postal_code })
    }
}

/// Whether `k` is absent, null, or a document that fills a postal address.
pub open spec fn opt_postal_address_ok(j: JsonV, k: Seq<char>) -> bool {
    match jfield(j, k) {
        None => true,
        Some(x) => x is Null || postal_address_ok(x),
    }
}

/// What an optional postal address field holds: `None` when absent or null.
pub open spec fn opt_postal_address_rel(o: Option<PostalAddress>, j: JsonV, k: Seq<char>) -> bool {
    match jfield(j, k) {
        None => o is None,
        Some(x) => if x is Null {
            o is None
        } else {
            o matches Some(v) && postal_address_rel(v, x)
        },
    }
}

/// The contact data of a location entry.
#[derive(Debug)]
pub struct Contact {
    /// The contact's email address.
    pub email: Option<String>,
    /// The contact's telephone number.
    pub telephone: Option<String>,
}

/// On which documents a contact fills.
pub open spec fn contact_ok(j: JsonV) -> bool {
    &&& opt_str_ok(j, "email"@)
    &&& opt_str_ok(j, "telephone"@)
}

/// What a filled contact holds.
pub open spec fn contact_rel(x: Contact, j: JsonV) -> bool {
    &&& match x.email {
            Some(v) => opt_str(j, "email"@) == Some(v@),
            None => opt_str(j, "email"@) is None,
        }
    &&& match x.telephone {
            Some(v) => opt_str(j, "telephone"@) == Some(v@),
            None => opt_str(j, "telephone"@) is None,
        }
}

impl Contact {
    /// Fills a contact from a document.
    pub fn from_json(j: &Json) -> (r: Option<Self>)
        ensures
            match r {
                Some(x) => contact_ok(j@) && contact_rel(x, j@),
                None => !contact_ok(j@),
            },
    {
        let email = match get_opt_str(j, "email") {
            Some(v) => v,
            None => {
                return None;
            },
        };
        let telephone = match get_opt_str(j, "telephone") {
            Some(v) => v,
            None => {
                return None;
            },
        };
        Some(Contact { email, telephone })
    }
}

/// Whether `k` is absent, null, or a document that fills a contact.
pub open spec fn opt_contact_ok(j: JsonV, k: Seq<char>) -> bool {
    match jfield(j, k) {
        None => true,
        Some(x) => x is Null || contact_ok(x),
    }
}

/// What an optional contact field holds: `None` when absent or null.
pub open spec fn opt_contact_rel(o: Option<Contact>, j: JsonV, k: Seq<char>) -> bool {
    match jfield(j, k) {
        None => o is None,
        Some(x) => if x is Null {
            o is None
        } else {
            o matches Some(v) && contact_rel(v, x)
        },
    }
}

/// The decomposed address of a result.
#[derive(Debug)]
pub struct MetaUrl {
    /// The scheme.
    pub scheme: String,
    /// The network location.
    pub netloc: String,
    /// The host name.
    pub hostname: String,
    /// The favicon address.
    pub favicon: String,
    /// The displayed path.
    pub path: String,
}

/// On which documents a decomposed address fills.
pub open spec fn meta_url_ok(j: JsonV) -> bool {
    &&& req_str_ok(j, "scheme"@)
    &&& req_str_ok(j, "netloc"@)
    &&& req_str_ok(j, "hostname"@)
    &&& req_str_ok(j, "favicon"@)
    &&& req_str_ok(j, "path"@)
}

/// What a filled decomposed address holds.
pub open spec fn meta_url_rel(x: MetaUrl, j: JsonV) -> bool {
    &&& x.scheme@ == req_str(j, "scheme"@)
    &&& x.netloc@ == req_str(j, "netloc"@)
    &&& x.hostname@ == req_str(j, "hostname"@)
    &&& x.favicon@ == req_str(j, "favicon"@)
    &&& x.path@ == req_str(j, "path"@)
}

impl MetaUrl {
    /// Fills a decomposed address from a document.
    pub fn from_json(j: &Json) -> (r: Option<Self>)
        ensures
            match r {
                Some(x) => meta_url_ok(j@) && meta_url_rel(x, j@),
                None => !meta_url_ok(j@),
            },
    {
        let scheme = match get_req_str(j, "scheme") {
            Some(v) => v,
            None => {
                return None;
            },
        };
        let netloc = match get_req_str(j, "netloc") {
            Some(v) => v,
            None => {
                return None;
            },
        };
        let hostname = match get_req_str(j, "hostname") {
            Some(v) => v,
            None => {
                return None;
            },
        };
        let favicon = match get_req_str(j, "favicon") {
            Some(v) => v,
            None => {
                return None;
            },
        };
        let path = match get_req_str(j, "path") {
            Some(v) => v,
            None => {
                return None;
            },
        };
        Some(MetaUrl { scheme, netloc, hostname, favicon, path })
    }
}

/// Whether `k` is absent, null, or a document that fills a decomposed address.
pub open spec fn opt_meta_url_ok(j: JsonV, k: Seq<char>) -> bool {
    match jfield(j, k) {
        None => true,
        Some(x) => x is Null || meta_url_ok(x),
    }
}

/// What an optional decomposed address field holds: `None` when absent or null.
pub open spec fn opt_meta_url_rel(o: Option<MetaUrl>, j: JsonV, k: Seq<char>) -> bool {
    match jfield(j, k) {
        None => o is None,
        Some(x) => if x is Null {
            o is None
        } else {
            o matches Some(v) && meta_url_rel(v, x)
        },
    }
}

/// A link into a site: one of the subpages of a web result.
#[derive(Debug)]
pub struct Subpage {
    /// The subpage's address.
    pub url: String,
    /// The subpage's title.
    pub title: String,
}

/// On which documents a subpage fills.
pub open spec fn subpage_ok(j: JsonV) -> bool {
    &&& req_str_ok(j, "url"@)
    &&& req_str_ok(j, "title"@)
}

/// What a filled subpage holds.
pub open spec fn subpage_rel(x: Subpage, j: JsonV) -> bool {
    &&& x.url@ == req_str(j, "url"@)
    &&& x.title@ == req_str(j, "title"@)
}

impl Subpage {
    /// Fills a subpage from a document.
    pub fn from_json(j: &Json) -> (r: Option<Self>)
        ensures
            match r {
                Some(x) => subpage_ok(j@) && subpage_rel(x, j@),
                None => !subpage_ok(j@),
            },
    {
        let url = match get_req_str(j, "url") {
            Some(v) => v,
            None => {
                return None;
            },
        };
        let title = match get_req_str(j, "title") {
            Some(v) => v,
            None => {
                return None;
            },
        };
        Some(Subpage { url, title })
    }
}

/// Whether every element of an array fills a subpage.
pub open spec fn subpage_seq_ok(a: Seq<JsonV>) -> bool {
    forall|i: int| 0 <= i < a.len() ==> subpage_ok(#[trigger] a[i])
}

/// What a filled subpage list holds: one entry per element, in order.
pub open spec fn subpage_seq_rel(v: Seq<Subpage>, a: Seq<JsonV>) -> bool {
    &&& v.len() == a.len()
    &&& forall|i: int| 0 <= i < a.len() ==> subpage_rel(#[trigger] v[i], a[i])
}

/// Fills a subpage list from an array.
fn subpage_list_from_json(items: &Vec<Json>) -> (r: Option<Vec<Subpage>>)
    ensures
        match r {
            Some(v) => subpage_seq_ok(arr_view(items@)) && subpage_seq_rel(v@, arr_view(items@)),
            None => !subpage_seq_ok(arr_view(items@)),
        },
{
    proof {
        lemma_arr_view(items@);
    }
    let mut v: Vec<Subpage> = Vec::new();
    let n = items.len();
    let mut i: usize = 0;
    while i < n
        invariant
            n == items.len(),
            i <= n,
            v@.len() == i,
            arr_view(items@).len() == items@.len(),
            forall|k: int| 0 <= k < items@.len() ==> arr_view(items@)[k] == items@[k]@,
            forall|k: int| 0 <= k < i ==> subpage_ok(#[trigger] arr_view(items@)[k]),
            forall|k: int| 0 <= k < i ==> subpage_rel(#[trigger] v@[k], arr_view(items@)[k]),
        decreases n - i,
    {
        match Subpage::from_json(&items[i]) {
            Some(x) => {
                v.push(x);
            },
            None => {
                proof {
                    assert(!subpage_ok(arr_view(items@)[i as int]));
                }
                return None;
            },
        }
        i += 1;
    }
    Some(v)
}

/// Whether `k` is absent, null, or an array of documents that fill a
/// subpage each.
pub open spec fn opt_subpage_list_ok(j: JsonV, k: Seq<char>) -> bool {
    match jfield(j, k) {
        None => true,
        Some(JsonV::Null) => true,
        Some(JsonV::Arr(a)) => subpage_seq_ok(a),
        Some(_) => false,
    }
}

/// What an optional subpage list field holds: `None` when absent or null.
pub open spec fn opt_subpage_list_rel(o: Option<Vec<Subpage>>, j: JsonV, k: Seq<char>) -> bool {
    match jfield(j, k) {
        Some(JsonV::Arr(a)) => o matches Some(v) && subpage_seq_rel(v@, a),
        _ => o is None,
    }
}

/// One index/flag pair of a reference block: `index` points into the
/// correspondingly-typed section's result list by position, and `all`
/// says whether everything from that index is meant rather than a
/// single item.  The position is a logical reference; nothing enforces
/// that the pointed-to list is long enough.
#[derive(Debug)]
pub struct MixedMain {
    /// The entry's discriminator.
    pub result_type: String,
    /// The zero-based position in the referenced section's results.
    pub index: u64,
    /// Whether all sub-results from the position are meant.
    pub all: bool,
}

/// On which documents an index/flag pair fills.
pub open spec fn mixed_main_ok(j: JsonV) -> bool {
    &&& req_str_ok(j, "type"@)
    &&& req_u64_ok(j, "index"@)
    &&& req_bool_ok(j, "all"@)
}

/// What a filled index/flag pair holds.
pub open spec fn mixed_main_rel(x: MixedMain, j: JsonV) -> bool {
    &&& x.result_type@ == req_str(j, "type"@)
    &&& x.index == req_u64(j, "index"@)
    &&& x.all == req_bool(j, "all"@)
}

impl MixedMain {
    /// Fills an index/flag pair from a document.
    pub fn from_json(j: &Json) -> (r: Option<Self>)
        ensures
            match r {
                Some(x) => mixed_main_ok(j@) && mixed_main_rel(x, j@),
                None => !mixed_main_ok(j@),
            },
    {
        let result_type = match get_req_str(j, "type") {
            Some(v) => v,
            None => {
                return None;
            },
        };
        let index = match get_req_u64(j, "index") {
            Some(v) => v,
            None => {
                return None;
            },
        };
        let all = match get_req_bool(j, "all") {
            Some(v) => v,
            None => {
                return None;
            },
        };
        Some(MixedMain { result_type, index, all })
    }
}

impl MixedMain {
    /// Writes the entry back out as a document.  The discriminator keeps
    /// its wire name `type`, so an entry that is written and read again
    /// carries the same values: the renamed field round-trips.
    pub fn to_json(&self) -> (r: Json)
        ensures
            mixed_main_ok(r@),
            mixed_main_rel(*self, r@),
    {
        let mut entries: Vec<(String, Json)> = Vec::new();
        entries.push(("type".to_owned(), Json::Str(self.result_type.clone())));
        entries.push(("index".to_owned(), Json::Num(self.index)));
        entries.push(("all".to_owned(), Json::Bool(self.all)));
        let ghost es = entries@;
        let r = Json::Obj(entries);
        proof {
            reveal_strlit("type");
            reveal_strlit("index");
            reveal_strlit("all");
            crate::json::lemma_obj_view(es);
            assert(r@ == JsonV::Obj(crate::json::obj_view(es)));
            assert(crate::json::obj_view(es)[0].0 == "type"@);
            assert(crate::json::obj_view(es)[1].0 == "index"@);
            assert(crate::json::obj_view(es)[2].0 == "all"@);
            assert("type"@ != "index"@);
            assert("type"@ != "all"@);
            assert("index"@ != "all"@);
            crate::json::lemma_lookup_found(crate::json::obj_view(es), "type"@, 0);
            crate::json::lemma_lookup_found(crate::json::obj_view(es), "index"@, 1);
            crate::json::lemma_lookup_found(crate::json::obj_view(es), "all"@, 2);
        }
        r
    }
}

/// Whether every element of an array fills an index/flag pair.
pub open spec fn mixed_main_seq_ok(a: Seq<JsonV>) -> bool {
    forall|i: int| 0 <= i < a.len() ==> mixed_main_ok(#[trigger] a[i])
}

/// What a filled index/flag pair list holds: one entry per element, in order.
pub open spec fn mixed_main_seq_rel(v: Seq<MixedMain>, a: Seq<JsonV>) -> bool {
    &&& v.len() == a.len()
    &&& forall|i: int| 0 <= i < a.len() ==> mixed_main_rel(#[trigger] v[i], a[i])
}

/// Fills an index/flag pair list from an array.
fn mixed_main_list_from_json(items: &Vec<Json>) -> (r: Option<Vec<MixedMain>>)
    ensures
        match r {
            Some(v) => mixed_main_seq_ok(arr_view(items@)) && mixed_main_seq_rel(v@, arr_view(items@)),
            None => !mixed_main_seq_ok(arr_view(items@)),
        },
{
    proof {
        lemma_arr_view(items@);
    }
    let mut v: Vec<MixedMain> = Vec::new();
    let n = items.len();
    let mut i: usize = 0;
    while i < n
        invariant
            n == items.len(),
            i <= n,
            v@.len() == i,
            arr_view(items@).len() == items@.len(),
            forall|k: int| 0 <= k < items@.len() ==> arr_view(items@)[k] == items@[k]@,
            forall|k: int| 0 <= k < i ==> mixed_main_ok(#[trigger] arr_view(items@)[k]),
            forall|k: int| 0 <= k < i ==> mixed_main_rel(#[trigger] v@[k], arr_view(items@)[k]),
        decreases n - i,
    {
        match MixedMain::from_json(&items[i]) {
            Some(x) => {
                v.push(x);
            },
            None => {
                proof {
                    assert(!mixed_main_ok(arr_view(items@)[i as int]));
                }
                return None;
            },
        }
        i += 1;
    }
    Some(v)
}

/// Whether `k` is absent, null, or an array of documents that fill a
/// index/flag pair each.
pub open spec fn opt_mixed_main_list_ok(j: JsonV, k: Seq<char>) -> bool {
    match jfield(j, k) {
        None => true,
        Some(JsonV::Null) => true,
        Some(JsonV::Arr(a)) => mixed_main_seq_ok(a),
        Some(_) => false,
    }
}

/// What an optional index/flag pair list field holds: `None` when absent or null.
pub open spec fn opt_mixed_main_list_rel(o: Option<Vec<MixedMain>>, j: JsonV, k: Seq<char>) -> bool {
    match jfield(j, k) {
        Some(JsonV::Arr(a)) => o matches Some(v) && mixed_main_seq_rel(v@, a),
        _ => o is None,
    }
}

/// One question-and-answer entry.
#[derive(Debug)]
pub struct FaqResult {
    /// The entry's discriminator.
    pub result_type: String,
    /// The question.
    pub question: String,
    /// The answer.
    pub answer: String,
    /// The source's title.
    pub title: String,
    /// The source's address.
    pub url: String,
}

/// On which documents a question-and-answer entry fills.
pub open spec fn faq_result_ok(j: JsonV) -> bool {
    &&& req_str_ok(j, "type"@)
    &&& req_str_ok(j, "question"@)
    &&& req_str_ok(j, "answer"@)
    &&& req_str_ok(j, "title"@)
    &&& req_str_ok(j, "url"@)
}

/// What a filled question-and-answer entry holds.
pub open spec fn faq_result_rel(x: FaqResult, j: JsonV) -> bool {
    &&& x.result_type@ == req_str(j, "type"@)
    &&& x.question@ == req_str(j, "question"@)
    &&& x.answer@ == req_str(j, "answer"@)
    &&& x.title@ == req_str(j, "title"@)
    &&& x.url@ == req_str(j, "url"@)
}

impl FaqResult {
    /// Fills a question-and-answer entry from a document.
    pub fn from_json(j: &Json) -> (r: Option<Self>)
        ensures
            match r {
                Some(x) => faq_result_ok(j@) && faq_result_rel(x, j@),
                None => !faq_result_ok(j@),
            },
    {
        let result_type = match get_req_str(j, "type") {
            Some(v) => v,
            None => {
                return None;
            },
        };
        let question = match get_req_str(j, "question") {
            Some(v) => v,
            None => {
                return None;
            },
        };
        let answer = match get_req_str(j, "answer") {
            Some(v) => v,
            None => {
                return None;
            },
        };
        let title = match get_req_str(j, "title") {
            Some(v) => v,
            None => {
                return None;
            },
        };
        let url = match get_req_str(j, "url") {
            Some(v) => v,
            None => {
                return None;
            },
        };
        Some(FaqResult { result_type, question, answer, title, url })
    }
}

/// Whether every element of an array fills a question-and-answer entry.
pub open spec fn faq_result_seq_ok(a: Seq<JsonV>) -> bool {
    forall|i: int| 0 <= i < a.len() ==> faq_result_ok(#[trigger] a[i])
}

/// What a filled question-and-answer entry list holds: one entry per element, in order.
pub open spec fn faq_result_seq_rel(v: Seq<FaqResult>, a: Seq<JsonV>) -> bool {
    &&& v.len() == a.len()
    &&& forall|i: int| 0 <= i < a.len() ==> faq_result_rel(#[trigger] v[i], a[i])
}

/// Fills a question-and-answer entry list from an array.
fn faq_result_list_from_json(items: &Vec<Json>) -> (r: Option<Vec<FaqResult>>)
    ensures
        match r {
            Some(v) => faq_result_seq_ok(arr_view(items@)) && faq_result_seq_rel(v@, arr_view(items@)),
            None => !faq_result_seq_ok(arr_view(items@)),
        },
{
    proof {
        lemma_arr_view(items@);
    }
    let mut v: Vec<FaqResult> = Vec::new();
    let n = items.len();
    let mut i: usize = 0;
    while i < n
        invariant
            n == items.len(),
            i <= n,
            v@.len() == i,
            arr_view(items@).len() == items@.len(),
            forall|k: int| 0 <= k < items@.len() ==> arr_view(items@)[k] == items@[k]@,
            forall|k: int| 0 <= k < i ==> faq_result_ok(#[trigger] arr_view(items@)[k]),
            forall|k: int| 0 <= k < i ==> faq_result_rel(#[trigger] v@[k], arr_view(items@)[k]),
        decreases n - i,
    {
        match FaqResult::from_json(&items[i]) {
            Some(x) => {
                v.push(x);
            },
            None => {
                proof {
                    assert(!faq_result_ok(arr_view(items@)[i as int]));
                }
                return None;
            },
        }
        i += 1;
    }
    Some(v)
}

/// Whether `k` is an array of documents that fill a question-and-answer entry each.
pub open spec fn req_faq_result_list_ok(j: JsonV, k: Seq<char>) -> bool {
    match jfield(j, k) {
        Some(JsonV::Arr(a)) => faq_result_seq_ok(a),
        _ => false,
    }
}

/// What a required question-and-answer entry list field holds.
pub open spec fn req_faq_result_list_rel(v: Vec<FaqResult>, j: JsonV, k: Seq<char>) -> bool {
    match jfield(j, k) {
        Some(JsonV::Arr(a)) => faq_result_seq_rel(v@, a),
        _ => false,
    }
}

/// One news entry.
#[derive(Debug)]
pub struct NewsResult {
    /// The article's address.
    pub url: String,
    /// The article's title.
    pub title: String,
    /// The article's description.
    pub description: String,
    /// The article's age.
    pub age: String,
    /// The page's age.
    pub page_age: Option<String>,
    /// Whether the article is breaking news.
    pub breaking: Option<bool>,
    /// The source's profile.
    pub profile: Option<Profile>,
}

/// On which documents a news entry fills.
pub open spec fn news_result_ok(j: JsonV) -> bool {
    &&& req_str_ok(j, "url"@)
    &&& req_str_ok(j, "title"@)
    &&& req_str_ok(j, "description"@)
    &&& req_str_ok(j, "age"@)
    &&& opt_str_ok(j, "page_age"@)
    &&& opt_bool_ok(j, "breaking"@)
    &&& opt_profile_ok(j, "profile"@)
}

/// What a filled news entry holds.
pub open spec fn news_result_rel(x: NewsResult, j: JsonV) -> bool {
    &&& x.url@ == req_str(j, "url"@)
    &&& x.title@ == req_str(j, "title"@)
    &&& x.description@ == req_str(j, "description"@)
    &&& x.age@ == req_str(j, "age"@)
    &&& match x.page_age {
            Some(v) => opt_str(j, "page_age"@) == Some(v@),
            None => opt_str(j, "page_age"@) is None,
        }
    &&& x.breaking == opt_bool(j, "breaking"@)
    &&& opt_profile_rel(x.profile, j, "profile"@)
}

impl NewsResult {
    /// Fills a news entry from a document.
    pub fn from_json(j: &Json) -> (r: Option<Self>)
        ensures
            match r {
                Some(x) => news_result_ok(j@) && news_result_rel(x, j@),
                None => !news_result_ok(j@),
            },
    {
        let url = match get_req_str(j, "url") {
            Some(v) => v,
            None => {
                return None;
            },
        };
        let title = match get_req_str(j, "title") {
            Some(v) => v,
            None => {
                return None;
            },
        };
        let description = match get_req_str(j, "description") {
            Some(v) => v,
            None => {
                return None;
            },
        };
        let age = match get_req_str(j, "age") {
            Some(v) => v,
            None => {
                return None;
            },
        };
        let page_age = match get_opt_str(j, "page_age") {
            Some(v) => v,
            None => {
                return None;
            },
        };
        let breaking = match get_opt_bool(j, "breaking") {
            Some(v) => v,
            None => {
                return None;
            },
        };
        let profile = match j.get("profile") {
            None => None,
            Some(v) => {
                if v.is_null() {
                    None
                } else {
                    match Profile::from_json(v) {
                        Some(x) => Some(x),
                        None => {
                            return None;
                        },
                    }
                }
            },
        };
        Some(NewsResult { url, title, description, age, page_age, breaking, profile })
    }
}

/// Whether every element of an array fills a news entry.
pub open spec fn news_result_seq_ok(a: Seq<JsonV>) -> bool {
    forall|i: int| 0 <= i < a.len() ==> news_result_ok(#[trigger] a[i])
}

/// What a filled news entry list holds: one entry per element, in order.
pub open spec fn news_result_seq_rel(v: Seq<NewsResult>, a: Seq<JsonV>) -> bool {
    &&& v.len() == a.len()
    &&& forall|i: int| 0 <= i < a.len() ==> news_result_rel(#[trigger] v[i], a[i])
}

/// Fills a news entry list from an array.
fn news_result_list_from_json(items: &Vec<Json>) -> (r: Option<Vec<NewsResult>>)
    ensures
        match r {
            Some(v) => news_result_seq_ok(arr_view(items@)) && news_result_seq_rel(v@, arr_view(items@)),
            None => !news_result_seq_ok(arr_view(items@)),
        },
{
    proof {
        lemma_arr_view(items@);
    }
    let mut v: Vec<NewsResult> = Vec::new();
    let n = items.len();
    let mut i: usize = 0;
    while i < n
        invariant
            n == items.len(),
            i <= n,
            v@.len() == i,
            arr_view(items@).len() == items@.len(),
            forall|k: int| 0 <= k < items@.len() ==> arr_view(items@)[k] == items@[k]@,
            forall|k: int| 0 <= k < i ==> news_result_ok(#[trigger] arr_view(items@)[k]),
            forall|k: int| 0 <= k < i ==> news_result_rel(#[trigger] v@[k], arr_view(items@)[k]),
        decreases n - i,
    {
        match NewsResult::from_json(&items[i]) {
            Some(x) => {
                v.push(x);
            },
            None => {
                proof {
                    assert(!news_result_ok(arr_view(items@)[i as int]));
                }
                return None;
            },
        }
        i += 1;
    }
    Some(v)
}

/// Whether `k` is an array of documents that fill a news entry each.
pub open spec fn req_news_result_list_ok(j: JsonV, k: Seq<char>) -> bool {
    match jfield(j, k) {
        Some(JsonV::Arr(a)) => news_result_seq_ok(a),
        _ => false,
    }
}

/// What a required news entry list field holds.
pub open spec fn req_news_result_list_rel(v: Vec<NewsResult>, j: JsonV, k: Seq<char>) -> bool {
    match jfield(j, k) {
        Some(JsonV::Arr(a)) => news_result_seq_rel(v@, a),
        _ => false,
    }
}

/// One web result.
#[derive(Debug)]
pub struct SearchResult {
    /// The entry's discriminator.
    pub result_type: String,
    /// The page's address.
    pub url: String,
    /// The page's title.
    pub title: String,
    /// The page's description.
    pub description: String,
    /// The result's age.
    pub age: Option<String>,
    /// The page's age.
    pub page_age: Option<String>,
    /// The page's language.
    pub language: Option<String>,
    /// Location names tied to the result.
    pub locations: Option<Vec<String>>,
    /// Whether the page is family friendly.
    pub family_friendly: Option<bool>,
    /// The source's profile.
    pub profile: Option<Profile>,
    /// Deep links into the site.
    pub subpages: Option<Vec<Subpage>>,
}

/// On which documents a web result fills.
pub open spec fn search_result_ok(j: JsonV) -> bool {
    &&& req_str_ok(j, "type"@)
    &&& req_str_ok(j, "url"@)
    &&& req_str_ok(j, "title"@)
    &&& req_str_ok(j, "description"@)
    &&& opt_str_ok(j, "age"@)
    &&& opt_str_ok(j, "page_age"@)
    &&& opt_str_ok(j, "language"@)
    &&& opt_string_list_ok(j, "locations"@)
    &&& opt_bool_ok(j, "family_friendly"@)
    &&& opt_profile_ok(j, "profile"@)
    &&& opt_subpage_list_ok(j, "subpages"@)
}

/// What a filled web result holds.
pub open spec fn search_result_rel(x: SearchResult, j: JsonV) -> bool {
    &&& x.result_type@ == req_str(j, "type"@)
    &&& x.url@ == req_str(j, "url"@)
    &&& x.title@ == req_str(j, "title"@)
    &&& x.description@ == req_str(j, "description"@)
    &&& match x.age {
            Some(v) => opt_str(j, "age"@) == Some(v@),
            None => opt_str(j, "age"@) is None,
        }
    &&& match x.page_age {
            Some(v) => opt_str(j, "page_age"@) == Some(v@),
            None => opt_str(j, "page_age"@) is None,
        }
    &&& match x.language {
            Some(v) => opt_str(j, "language"@) == Some(v@),
            None => opt_str(j, "language"@) is None,
        }
    &&& opt_string_list_rel(x.locations, j, "locations"@)
    &&& x.family_friendly == opt_bool(j, "family_friendly"@)
    &&& opt_profile_rel(x.profile, j, "profile"@)
    &&& opt_subpage_list_rel(x.subpages, j, "subpages"@)
}

impl SearchResult {
    /// Fills a web result from a document.
    pub fn from_json(j: &Json) -> (r: Option<Self>)
        ensures
            match r {
                Some(x) => search_result_ok(j@) && search_result_rel(x, j@),
                None => !search_result_ok(j@),
            },
    {
        let result_type = match get_req_str(j, "type") {
            Some(v) => v,
            None => {
                return None;
            },
        };
        let url = match get_req_str(j, "url") {
            Some(v) => v,
            None => {
                return None;
            },
        };
        let title = match get_req_str(j, "title") {
            Some(v) => v,
            None => {
                return None;
            },
        };
        let description = match get_req_str(j, "description") {
            Some(v) => v,
            None => {
                return None;
            },
        };
        let age = match get_opt_str(j, "age") {
            Some(v) => v,
            None => {
                return None;
            },
        };
        let page_age = match get_opt_str(j, "page_age") {
            Some(v) => v,
            None => {
                return None;
            },
        };
        let language = match get_opt_str(j, "language") {
            Some(v) => v,
            None => {
                return None;
            },
        };
        let locations = match j.get("locations") {
            None => None,
            Some(v) => {
                if v.is_null() {
                    None
                } else {
                    match v.as_arr() {
                        Some(items) => match string_list_from_json(items) {
                            Some(xs) => Some(xs),
                            None => {
                                return None;
                            },
                        },
                        None => {
                            return None;
                        },
                    }
                }
            },
        };
        let family_friendly = match get_opt_bool(j, "family_friendly") {
            Some(v) => v,
            None => {
                return None;
            },
        };
        let profile = match j.get("profile") {
            None => None,
            Some(v) => {
                if v.is_null() {
                    None
                } else {
                    match Profile::from_json(v) {
                        Some(x) => Some(x),
                        None => {
                            return None;
                        },
                    }
                }
            },
        };
        let subpages = match j.get("subpages") {
            None => None,
            Some(v) => {
                if v.is_null() {
                    None
                } else {
                    match v.as_arr() {
                        Some(items) => match subpage_list_from_json(items) {
                            Some(xs) => Some(xs),
                            None => {
                                return None;
                            },
                        },
                        None => {
                            return None;
                        },
                    }
                }
            },
        };
        Some(SearchResult { result_type, url, title, description, age, page_age, language, locations, family_friendly, profile, subpages })
    }
}

/// Whether every element of an array fills a web result.
pub open spec fn search_result_seq_ok(a: Seq<JsonV>) -> bool {
    forall|i: int| 0 <= i < a.len() ==> search_result_ok(#[trigger] a[i])
}

/// What a filled web result list holds: one entry per element, in order.
pub open spec fn search_result_seq_rel(v: Seq<SearchResult>, a: Seq<JsonV>) -> bool {
    &&& v.len() == a.len()
    &&& forall|i: int| 0 <= i < a.len() ==> search_result_rel(#[trigger] v[i], a[i])
}

/// Fills a web result list from an array.
fn search_result_list_from_json(items: &Vec<Json>) -> (r: Option<Vec<SearchResult>>)
    ensures
        match r {
            Some(v) => search_result_seq_ok(arr_view(items@)) && search_result_seq_rel(v@, arr_view(items@)),
            None => !search_result_seq_ok(arr_view(items@)),
        },
{
    proof {
        lemma_arr_view(items@);
    }
    let mut v: Vec<SearchResult> = Vec::new();
    let n = items.len();
    let mut i: usize = 0;
    while i < n
        invariant
            n == items.len(),
            i <= n,
            v@.len() == i,
            arr_view(items@).len() == items@.len(),
            forall|k: int| 0 <= k < items@.len() ==> arr_view(items@)[k] == items@[k]@,
            forall|k: int| 0 <= k < i ==> search_result_ok(#[trigger] arr_view(items@)[k]),
            forall|k: int| 0 <= k < i ==> search_result_rel(#[trigger] v@[k], arr_view(items@)[k]),
        decreases n - i,
    {
        match SearchResult::from_json(&items[i]) {
            Some(x) => {
                v.push(x);
            },
            None => {
                proof {
                    assert(!search_result_ok(arr_view(items@)[i as int]));
                }
                return None;
            },
        }
        i += 1;
    }
    Some(v)
}

/// Whether `k` is an array of documents that fill a web result each.
pub open spec fn req_search_result_list_ok(j: JsonV, k: Seq<char>) -> bool {
    match jfield(j, k) {
        Some(JsonV::Arr(a)) => search_result_seq_ok(a),
        _ => false,
    }
}

/// What a required web result list field holds.
pub open spec fn req_search_result_list_rel(v: Vec<SearchResult>, j: JsonV, k: Seq<char>) -> bool {
    match jfield(j, k) {
        Some(JsonV::Arr(a)) => search_result_seq_rel(v@, a),
        _ => false,
    }
}

/// One location entry.  The wire also carries coordinates and a rating,
/// which are floating-point values; this model keeps the text fields
/// and the structured address and contact data.
#[derive(Debug)]
pub struct LocationResult {
    /// The entry's discriminator.
    pub result_type: String,
    /// The place's address.
    pub url: String,
    /// The place's title.
    pub title: String,
    /// The place's description.
    pub description: String,
    /// The place's postal address.
    pub postal_address: Option<PostalAddress>,
    /// The place's contact data.
    pub contact: Option<Contact>,
}

/// On which documents a location entry fills.
pub open spec fn location_result_ok(j: JsonV) -> bool {
    &&& req_str_ok(j, "type"@)
    &&& req_str_ok(j, "url"@)
    &&& req_str_ok(j, "title"@)
    &&& req_str_ok(j, "description"@)
    &&& opt_postal_address_ok(j, "postal_address"@)
    &&& opt_contact_ok(j, "contact"@)
}

/// What a filled location entry holds.
pub open spec fn location_result_rel(x: LocationResult, j: JsonV) -> bool {
    &&& x.result_type@ == req_str(j, "type"@)
    &&& x.url@ == req_str(j, "url"@)
    &&& x.title@ == req_str(j, "title"@)
    &&& x.description@ == req_str(j, "description"@)
    &&& opt_postal_address_rel(x.postal_address, j, "postal_address"@)
    &&& opt_contact_rel(x.contact, j, "contact"@)
}

impl LocationResult {
    /// Fills a location entry from a document.
    pub fn from_json(j: &Json) -> (r: Option<Self>)
        ensures
            match r {
                Some(x) => location_result_ok(j@) && location_result_rel(x, j@),
                None => !location_result_ok(j@),
            },
    {
        let result_type = match get_req_str(j, "type") {
            Some(v) => v,
            None => {
                return None;
            },
        };
        let url = match get_req_str(j, "url") {
            Some(v) => v,
            None => {
                return None;
            },
        };
        let title = match get_req_str(j, "title") {
            Some(v) => v,
            None => {
                return None;
            },
        };
        let description = match get_req_str(j, "description") {
            Some(v) => v,
            None => {
                return None;
            },
        };
        let postal_address = match j.get("postal_address") {
            None => None,
            Some(v) => {
                if v.is_null() {
                    None
                } else {
                    match PostalAddress::from_json(v) {
                        Some(x) => Some(x),
                        None => {
                            return None;
                        },
                    }
                }
            },
        };
        let contact = match j.get("contact") {
            None => None,
            Some(v) => {
                if v.is_null() {
                    None
                } else {
                    match Contact::from_json(v) {
                        Some(x) => Some(x),
                        None => {
                            return None;
                        },
                    }
                }
            },
        };
        Some(LocationResult { result_type, url, title, description, postal_address, contact })
    }
}

/// Whether every element of an array fills a location entry.
pub open spec fn location_result_seq_ok(a: Seq<JsonV>) -> bool {
    forall|i: int| 0 <= i < a.len() ==> location_result_ok(#[trigger] a[i])
}

/// What a filled location entry list holds: one entry per element, in order.
pub open spec fn location_result_seq_rel(v: Seq<LocationResult>, a: Seq<JsonV>) -> bool {
    &&& v.len() == a.len()
    &&& forall|i: int| 0 <= i < a.len() ==> location_result_rel(#[trigger] v[i], a[i])
}

/// Fills a location entry list from an array.
fn location_result_list_from_json(items: &Vec<Json>) -> (r: Option<Vec<LocationResult>>)
    ensures
        match r {
            Some(v) => location_result_seq_ok(arr_view(items@)) && location_result_seq_rel(v@, arr_view(items@)),
            None => !location_result_seq_ok(arr_view(items@)),
        },
{
    proof {
        lemma_arr_view(items@);
    }
    let mut v: Vec<LocationResult> = Vec::new();
    let n = items.len();
    let mut i: usize = 0;
    while i < n
        invariant
            n == items.len(),
            i <= n,
            v@.len() == i,
            arr_view(items@).len() == items@.len(),
            forall|k: int| 0 <= k < items@.len() ==> arr_view(items@)[k] == items@[k]@,
            forall|k: int| 0 <= k < i ==> location_result_ok(#[trigger] arr_view(items@)[k]),
            forall|k: int| 0 <= k < i ==> location_result_rel(#[trigger] v@[k], arr_view(items@)[k]),
        decreases n - i,
    {
        match LocationResult::from_json(&items[i]) {
            Some(x) => {
                v.push(x);
            },
            None => {
                proof {
                    assert(!location_result_ok(arr_view(items@)[i as int]));
                }
                return None;
            },
        }
        i += 1;
    }
    Some(v)
}

/// Whether `k` is an array of documents that fill a location entry each.
pub open spec fn req_location_result_list_ok(j: JsonV, k: Seq<char>) -> bool {
    match jfield(j, k) {
        Some(JsonV::Arr(a)) => location_result_seq_ok(a),
        _ => false,
    }
}

/// What a required location entry list field holds.
pub open spec fn req_location_result_list_rel(v: Vec<LocationResult>, j: JsonV, k: Seq<char>) -> bool {
    match jfield(j, k) {
        Some(JsonV::Arr(a)) => location_result_seq_rel(v@, a),
        _ => false,
    }
}

/// The enrichment data of a video entry.
#[derive(Debug)]
pub struct VideoData {
    /// The video's duration.
    pub duration: Option<String>,
    /// The view count; absent is not zero.
    pub views: Option<usize>,
    /// The video's creator.
    pub creator: Option<String>,
    /// The video's publisher.
    pub publisher: Option<String>,
    /// The video's thumbnail.
    pub thumbnail: Option<Thumbnail>,
    /// The video's tags.
    pub tags: Option<Vec<String>>,
    /// The author's profile.
    pub author: Option<Profile>,
    /// Whether watching needs a subscription.
    pub requires_subscription: Option<bool>,
}

/// On which documents a video enrichment block fills.
pub open spec fn video_data_ok(j: JsonV) -> bool {
    &&& opt_str_ok(j, "duration"@)
    &&& opt_usize_ok(j, "views"@)
    &&& opt_str_ok(j, "creator"@)
    &&& opt_str_ok(j, "publisher"@)
    &&& opt_thumbnail_ok(j, "thumbnail"@)
    &&& opt_string_list_ok(j, "tags"@)
    &&& opt_profile_ok(j, "author"@)
    &&& opt_bool_ok(j, "requires_subscription"@)
}

/// What a filled video enrichment block holds.
pub open spec fn video_data_rel(x: VideoData, j: JsonV) -> bool {
    &&& match x.duration {
            Some(v) => opt_str(j, "duration"@) == Some(v@),
            None => opt_str(j, "duration"@) is None,
        }
    &&& match x.views {
            Some(n) => opt_u64(j, "views"@) == Some(n as u64),
            None => opt_u64(j, "views"@) is None,
        }
    &&& match x.creator {
            Some(v) => opt_str(j, "creator"@) == Some(v@),
            None => opt_str(j, "creator"@) is None,
        }
    &&& match x.publisher {
            Some(v) => opt_str(j, "publisher"@) == Some(v@),
            None => opt_str(j, "publisher"@) is None,
        }
    &&& opt_thumbnail_rel(x.thumbnail, j, "thumbnail"@)
    &&& opt_string_list_rel(x.tags, j, "tags"@)
    &&& opt_profile_rel(x.author, j, "author"@)
    &&& x.requires_subscription == opt_bool(j, "requires_subscription"@)
}

impl VideoData {
    /// Fills a video enrichment block from a document.
    pub fn from_json(j: &Json) -> (r: Option<Self>)
        ensures
            match r {
                Some(x) => video_data_ok(j@) && video_data_rel(x, j@),
                None => !video_data_ok(j@),
            },
    {
        let duration = match get_opt_str(j, "duration") {
            Some(v) => v,
            None => {
                return None;
            },
        };
        let views = match get_opt_u64(j, "views") {
            Some(o) => match o {
                Some(n) => {
                    if n <= usize::MAX as u64 {
                        Some(n as usize)
                    } else {
                        return None;
                    }
                },
                None => None,
            },
            None => {
                return None;
            },
        };
        let creator = match get_opt_str(j, "creator") {
            Some(v) => v,
            None => {
                return None;
            },
        };
        let publisher = match get_opt_str(j, "publisher") {
            Some(v) => v,
            None => {
                return None;
            },
        };
        let thumbnail = match j.get("thumbnail") {
            None => None,
            Some(v) => {
                if v.is_null() {
                    None
                } else {
                    match Thumbnail::from_json(v) {
                        Some(x) => Some(x),
                        None => {
                            return None;
                        },
                    }
                }
            },
        };
        let tags = match j.get("tags") {
            None => None,
            Some(v) => {
                if v.is_null() {
                    None
                } else {
                    match v.as_arr() {
                        Some(items) => match string_list_from_json(items) {
                            Some(xs) => Some(xs),
                            None => {
                                return None;
                            },
                        },
                        None => {
                            return None;
                        },
                    }
                }
            },
        };
        let author = match j.get("author") {
            None => None,
            Some(v) => {
                if v.is_null() {
                    None
                } else {
                    match Profile::from_json(v) {
                        Some(x) => Some(x),
                        None => {
                            return None;
                        },
                    }
                }
            },
        };
        let requires_subscription = match get_opt_bool(j, "requires_subscription") {
            Some(v) => v,
            None => {
                return None;
            },
        };
        Some(VideoData { duration, views, creator, publisher, thumbnail, tags, author, requires_subscription })
    }
}

/// Whether `k` is absent, null, or a document that fills a video enrichment block.
pub open spec fn opt_video_data_ok(j: JsonV, k: Seq<char>) -> bool {
    match jfield(j, k) {
        None => true,
        Some(x) => x is Null || video_data_ok(x),
    }
}

/// What an optional video enrichment field holds: `None` when absent or null.
pub open spec fn opt_video_data_rel(o: Option<VideoData>, j: JsonV, k: Seq<char>) -> bool {
    match jfield(j, k) {
        None => o is None,
        Some(x) => if x is Null {
            o is None
        } else {
            o matches Some(v) && video_data_rel(v, x)
        },
    }
}

/// One video entry.
#[derive(Debug)]
pub struct VideoResult {
    /// The entry's discriminator.
    pub result_type: String,
    /// The video's address.
    pub url: String,
    /// The video's title.
    pub title: String,
    /// The video's description.
    pub description: String,
    /// When the content was fetched; absent is not zero.
    pub fetched_content_timestamp: Option<u64>,
    /// The result's age.
    pub age: Option<String>,
    /// The page's age.
    pub page_age: Option<String>,
    /// The video's enrichment data.
    pub video: Option<VideoData>,
    /// The decomposed address.
    pub meta_url: Option<MetaUrl>,
    /// The video's thumbnail.
    pub thumbnail: Option<Thumbnail>,
}

/// On which documents a video entry fills.
pub open spec fn video_result_ok(j: JsonV) -> bool {
    &&& req_str_ok(j, "type"@)
    &&& req_str_ok(j, "url"@)
    &&& req_str_ok(j, "title"@)
    &&& req_str_ok(j, "description"@)
    &&& opt_u64_ok(j, "fetched_content_timestamp"@)
    &&& opt_str_ok(j, "age"@)
    &&& opt_str_ok(j, "page_age"@)
    &&& opt_video_data_ok(j, "video"@)
    &&& opt_meta_url_ok(j, "meta_url"@)
    &&& opt_thumbnail_ok(j, "thumbnail"@)
}

/// What a filled video entry holds.
pub open spec fn video_result_rel(x: VideoResult, j: JsonV) -> bool {
    &&& x.result_type@ == req_str(j, "type"@)
    &&& x.url@ == req_str(j, "url"@)
    &&& x.title@ == req_str(j, "title"@)
    &&& x.description@ == req_str(j, "description"@)
    &&& x.fetched_content_timestamp == opt_u64(j, "fetched_content_timestamp"@)
    &&& match x.age {
            Some(v) => opt_str(j, "age"@) == Some(v@),
            None => opt_str(j, "age"@) is None,
        }
    &&& match x.page_age {
            Some(v) => opt_str(j, "page_age"@) == Some(v@),
            None => opt_str(j, "page_age"@) is None,
        }
    &&& opt_video_data_rel(x.video, j, "video"@)
    &&& opt_meta_url_rel(x.meta_url, j, "meta_url"@)
    &&& opt_thumbnail_rel(x.thumbnail, j, "thumbnail"@)
}

impl VideoResult {
    /// Fills a video entry from a document.
    pub fn from_json(j: &Json) -> (r: Option<Self>)
        ensures
            match r {
                Some(x) => video_result_ok(j@) && video_result_rel(x, j@),
                None => !video_result_ok(j@),
            },
    {
        let result_type = match get_req_str(j, "type") {
            Some(v) => v,
            None => {
                return None;
            },
        };
        let url = match get_req_str(j, "url") {
            Some(v) => v,
            None => {
                return None;
            },
        };
        let title = match get_req_str(j, "title") {
            Some(v) => v,
            None => {
                return None;
            },
        };
        let description = match get_req_str(j, "description") {
            Some(v) => v,
            None => {
                return None;
            },
        };
        let fetched_content_timestamp = match get_opt_u64(j, "fetched_content_timestamp") {
            Some(v) => v,
            None => {
                return None;
            },
        };
        let age = match get_opt_str(j, "age") {
            Some(v) => v,
            None => {
                return None;
            },
        };
        let page_age = match get_opt_str(j, "page_age") {
            Some(v) => v,
            None => {
                return None;
            },
        };
        let video = match j.get("video") {
            None => None,
            Some(v) => {
                if v.is_null() {
                    None
                } else {
                    match VideoData::from_json(v) {
                        Some(x) => Some(x),
                        None => {
                            return None;
                        },
                    }
                }
            },
        };
        let meta_url = match j.get("meta_url") {
            None => None,
            Some(v) => {
                if v.is_null() {
                    None
                } else {
                    match MetaUrl::from_json(v) {
                        Some(x) => Some(x),
                        None => {
                            return None;
                        },
                    }
                }
            },
        };
        let thumbnail = match j.get("thumbnail") {
            None => None,
            Some(v) => {
                if v.is_null() {
                    None
                } else {
                    match Thumbnail::from_json(v) {
                        Some(x) => Some(x),
                        None => {
                            return None;
                        },
                    }
                }
            },
        };
        Some(VideoResult { result_type, url, title, description, fetched_content_timestamp, age, page_age, video, meta_url, thumbnail })
    }
}

/// Whether every element of an array fills a video entry.
pub open spec fn video_result_seq_ok(a: Seq<JsonV>) -> bool {
    forall|i: int| 0 <= i < a.len() ==> video_result_ok(#[trigger] a[i])
}

/// What a filled video entry list holds: one entry per element, in order.
pub open spec fn video_result_seq_rel(v: Seq<VideoResult>, a: Seq<JsonV>) -> bool {
    &&& v.len() == a.len()
    &&& forall|i: int| 0 <= i < a.len() ==> video_result_rel(#[trigger] v[i], a[i])
}

/// Fills a video entry list from an array.
fn video_result_list_from_json(items: &Vec<Json>) -> (r: Option<Vec<VideoResult>>)
    ensures
        match r {
            Some(v) => video_result_seq_ok(arr_view(items@)) && video_result_seq_rel(v@, arr_view(items@)),
            None => !video_result_seq_ok(arr_view(items@)),
        },
{
    proof {
        lemma_arr_view(items@);
    }
    let mut v: Vec<VideoResult> = Vec::new();
    let n = items.len();
    let mut i: usize = 0;
    while i < n
        invariant
            n == items.len(),
            i <= n,
            v@.len() == i,
            arr_view(items@).len() == items@.len(),
            forall|k: int| 0 <= k < items@.len() ==> arr_view(items@)[k] == items@[k]@,
            forall|k: int| 0 <= k < i ==> video_result_ok(#[trigger] arr_view(items@)[k]),
            forall|k: int| 0 <= k < i ==> video_result_rel(#[trigger] v@[k], arr_view(items@)[k]),
        decreases n - i,
    {
        match VideoResult::from_json(&items[i]) {
            Some(x) => {
                v.push(x);
            },
            None => {
                proof {
                    assert(!video_result_ok(arr_view(items@)[i as int]));
                }
                return None;
            },
        }
        i += 1;
    }
    Some(v)
}

/// Whether `k` is absent, null, or an array of documents that fill a
/// video entry each.
pub open spec fn opt_video_result_list_ok(j: JsonV, k: Seq<char>) -> bool {
    match jfield(j, k) {
        None => true,
        Some(JsonV::Null) => true,
        Some(JsonV::Arr(a)) => video_result_seq_ok(a),
        Some(_) => false,
    }
}

/// What an optional video entry list field holds: `None` when absent or null.
pub open spec fn opt_video_result_list_rel(o: Option<Vec<VideoResult>>, j: JsonV, k: Seq<char>) -> bool {
    match jfield(j, k) {
        Some(JsonV::Arr(a)) => o matches Some(v) && video_result_seq_rel(v@, a),
        _ => o is None,
    }
}

/// One reference block of the mixed layout: an ordered list of
/// index/flag pairs pointing into another section's results.
#[derive(Debug)]
pub struct ResultReferenceResult {
    /// The block's discriminator.
    pub result_type: String,
    /// The block's index/flag pairs.
    pub main: Option<Vec<MixedMain>>,
}

/// On which documents a reference block result fills.
pub open spec fn result_reference_ok(j: JsonV) -> bool {
    &&& req_str_ok(j, "type"@)
    &&& opt_mixed_main_list_ok(j, "main"@)
}

/// What a filled reference block result holds.
pub open spec fn result_reference_rel(x: ResultReferenceResult, j: JsonV) -> bool {
    &&& x.result_type@ == req_str(j, "type"@)
    &&& opt_mixed_main_list_rel(x.main, j, "main"@)
}

impl ResultReferenceResult {
    /// Fills a reference block result from a document.
    pub fn from_json(j: &Json) -> (r: Option<Self>)
        ensures
            match r {
                Some(x) => result_reference_ok(j@) && result_reference_rel(x, j@),
                None => !result_reference_ok(j@),
            },
    {
        let result_type = match get_req_str(j, "type") {
            Some(v) => v,
            None => {
                return None;
            },
        };
        let main = match j.get("main") {
            None => None,
            Some(v) => {
                if v.is_null() {
                    None
                } else {
                    match v.as_arr() {
                        Some(items) => match mixed_main_list_from_json(items) {
                            Some(xs) => Some(xs),
                            None => {
                                return None;
                            },
                        },
                        None => {
                            return None;
                        },
                    }
                }
            },
        };
        Some(ResultReferenceResult { result_type, main })
    }
}

/// Whether every element of an array fills a reference block result.
pub open spec fn result_reference_seq_ok(a: Seq<JsonV>) -> bool {
    forall|i: int| 0 <= i < a.len() ==> result_reference_ok(#[trigger] a[i])
}

/// What a filled reference block result list holds: one entry per element, in order.
pub open spec fn result_reference_seq_rel(v: Seq<ResultReferenceResult>, a: Seq<JsonV>) -> bool {
    &&& v.len() == a.len()
    &&& forall|i: int| 0 <= i < a.len() ==> result_reference_rel(#[trigger] v[i], a[i])
}

/// Fills a reference block result list from an array.
fn result_reference_list_from_json(items: &Vec<Json>) -> (r: Option<Vec<ResultReferenceResult>>)
    ensures
        match r {
            Some(v) => result_reference_seq_ok(arr_view(items@)) && result_reference_seq_rel(v@, arr_view(items@)),
            None => !result_reference_seq_ok(arr_view(items@)),
        },
{
    proof {
        lemma_arr_view(items@);
    }
    let mut v: Vec<ResultReferenceResult> = Vec::new();
    let n = items.len();
    let mut i: usize = 0;
    while i < n
        invariant
            n == items.len(),
            i <= n,
            v@.len() == i,
            arr_view(items@).len() == items@.len(),
            forall|k: int| 0 <= k < items@.len() ==> arr_view(items@)[k] == items@[k]@,
            forall|k: int| 0 <= k < i ==> result_reference_ok(#[trigger] arr_view(items@)[k]),
            forall|k: int| 0 <= k < i ==> result_reference_rel(#[trigger] v@[k], arr_view(items@)[k]),
        decreases n - i,
    {
        match ResultReferenceResult::from_json(&items[i]) {
            Some(x) => {
                v.push(x);
            },
            None => {
                proof {
                    assert(!result_reference_ok(arr_view(items@)[i as int]));
                }
                return None;
            },
        }
        i += 1;
    }
    Some(v)
}

/// Whether `k` is absent, null, or an array of documents that fill a
/// reference block each.
pub open spec fn opt_result_reference_list_ok(j: JsonV, k: Seq<char>) -> bool {
    match jfield(j, k) {
        None => true,
        Some(JsonV::Null) => true,
        Some(JsonV::Arr(a)) => result_reference_seq_ok(a),
        Some(_) => false,
    }
}

/// What an optional reference block list field holds: `None` when absent or null.
pub open spec fn opt_result_reference_list_rel(o: Option<Vec<ResultReferenceResult>>, j: JsonV, k: Seq<char>) -> bool {
    match jfield(j, k) {
        Some(JsonV::Arr(a)) => o matches Some(v) && result_reference_seq_rel(v@, a),
        _ => o is None,
    }
}

/// A list of web results with its discriminator.
#[derive(Debug)]
pub struct SearchResults {
    /// The section's discriminator.
    pub result_type: String,
    /// The entries, in order.
    pub results: Vec<SearchResult>,
}

/// On which documents a web results section fills.
pub open spec fn search_results_ok(j: JsonV) -> bool {
    &&& req_str_ok(j, "type"@)
    &&& req_search_result_list_ok(j, "results"@)
}

/// What a filled web results section holds.
pub open spec fn search_results_rel(x: SearchResults, j: JsonV) -> bool {
    &&& x.result_type@ == req_str(j, "type"@)
    &&& req_search_result_list_rel(x.results, j, "results"@)
}

impl SearchResults {
    /// Fills a web results section from a document.
    pub fn from_json(j: &Json) -> (r: Option<Self>)
        ensures
            match r {
                Some(x) => search_results_ok(j@) && search_results_rel(x, j@),
                None => !search_results_ok(j@),
            },
    {
        let result_type = match get_req_str(j, "type") {
            Some(v) => v,
            None => {
                return None;
            },
        };
        let results = match j.get("results") {
            Some(v) => match v.as_arr() {
                Some(items) => match search_result_list_from_json(items) {
                    Some(xs) => xs,
                    None => {
                        return None;
                    },
                },
                None => {
                    return None;
                },
            },
            None => {
                return None;
            },
        };
        Some(SearchResults { result_type, results })
    }
}

/// Whether `k` is absent, null, or a document that fills a web results section.
pub open spec fn opt_search_results_ok(j: JsonV, k: Seq<char>) -> bool {
    match jfield(j, k) {
        None => true,
        Some(x) => x is Null || search_results_ok(x),
    }
}

/// What an optional web results section field holds: `None` when absent or null.
pub open spec fn opt_search_results_rel(o: Option<SearchResults>, j: JsonV, k: Seq<char>) -> bool {
    match jfield(j, k) {
        None => o is None,
        Some(x) => if x is Null {
            o is None
        } else {
            o matches Some(v) && search_results_rel(v, x)
        },
    }
}

/// A list of question-and-answer entries with its discriminator.
#[derive(Debug)]
pub struct FaqResults {
    /// The section's discriminator.
    pub result_type: String,
    /// The entries, in order.
    pub results: Vec<FaqResult>,
}

/// On which documents a question-and-answer section fills.
pub open spec fn faq_results_ok(j: JsonV) -> bool {
    &&& req_str_ok(j, "type"@)
    &&& req_faq_result_list_ok(j, "results"@)
}

/// What a filled question-and-answer section holds.
pub open spec fn faq_results_rel(x: FaqResults, j: JsonV) -> bool {
    &&& x.result_type@ == req_str(j, "type"@)
    &&& req_faq_result_list_rel(x.results, j, "results"@)
}

impl FaqResults {
    /// Fills a question-and-answer section from a document.
    pub fn from_json(j: &Json) -> (r: Option<Self>)
        ensures
            match r {
                Some(x) => faq_results_ok(j@) && faq_results_rel(x, j@),
                None => !faq_results_ok(j@),
            },
    {
        let result_type = match get_req_str(j, "type") {
            Some(v) => v,
            None => {
                return None;
            },
        };
        let results = match j.get("results") {
            Some(v) => match v.as_arr() {
                Some(items) => match faq_result_list_from_json(items) {
                    Some(xs) => xs,
                    None => {
                        return None;
                    },
                },
                None => {
                    return None;
                },
            },
            None => {
                return None;
            },
        };
        Some(FaqResults { result_type, results })
    }
}

/// Whether `k` is absent, null, or a document that fills a question-and-answer section.
pub open spec fn opt_faq_results_ok(j: JsonV, k: Seq<char>) -> bool {
    match jfield(j, k) {
        None => true,
        Some(x) => x is Null || faq_results_ok(x),
    }
}

/// What an optional question-and-answer section field holds: `None` when absent or null.
pub open spec fn opt_faq_results_rel(o: Option<FaqResults>, j: JsonV, k: Seq<char>) -> bool {
    match jfield(j, k) {
        None => o is None,
        Some(x) => if x is Null {
            o is None
        } else {
            o matches Some(v) && faq_results_rel(v, x)
        },
    }
}

/// A list of news entries with its discriminator.
#[derive(Debug)]
pub struct NewsResults {
    /// The section's discriminator.
    pub result_type: String,
    /// The entries, in order.
    pub results: Vec<NewsResult>,
}

/// On which documents a news section fills.
pub open spec fn news_results_ok(j: JsonV) -> bool {
    &&& req_str_ok(j, "type"@)
    &&& req_news_result_list_ok(j, "results"@)
}

/// What a filled news section holds.
pub open spec fn news_results_rel(x: NewsResults, j: JsonV) -> bool {
    &&& x.result_type@ == req_str(j, "type"@)
    &&& req_news_result_list_rel(x.results, j, "results"@)
}

impl NewsResults {
    /// Fills a news section from a document.
    pub fn from_json(j: &Json) -> (r: Option<Self>)
        ensures
            match r {
                Some(x) => news_results_ok(j@) && news_results_rel(x, j@),
                None => !news_results_ok(j@),
            },
    {
        let result_type = match get_req_str(j, "type") {
            Some(v) => v,
            None => {
                return None;
            },
        };
        let results = match j.get("results") {
            Some(v) => match v.as_arr() {
                Some(items) => match news_result_list_from_json(items) {
                    Some(xs) => xs,
                    None => {
                        return None;
                    },
                },
                None => {
                    return None;
                },
            },
            None => {
                return None;
            },
        };
        Some(NewsResults { result_type, results })
    }
}

/// Whether `k` is absent, null, or a document that fills a news section.
pub open spec fn opt_news_results_ok(j: JsonV, k: Seq<char>) -> bool {
    match jfield(j, k) {
        None => true,
        Some(x) => x is Null || news_results_ok(x),
    }
}

/// What an optional news section field holds: `None` when absent or null.
pub open spec fn opt_news_results_rel(o: Option<NewsResults>, j: JsonV, k: Seq<char>) -> bool {
    match jfield(j, k) {
        None => o is None,
        Some(x) => if x is Null {
            o is None
        } else {
            o matches Some(v) && news_results_rel(v, x)
        },
    }
}

/// A list of location entries with its discriminator.
#[derive(Debug)]
pub struct LocationResults {
    /// The section's discriminator.
    pub result_type: String,
    /// The entries, in order.
    pub results: Vec<LocationResult>,
}

/// On which documents a locations section fills.
pub open spec fn location_results_ok(j: JsonV) -> bool {
    &&& req_str_ok(j, "type"@)
    &&& req_location_result_list_ok(j, "results"@)
}

/// What a filled locations section holds.
pub open spec fn location_results_rel(x: LocationResults, j: JsonV) -> bool {
    &&& x.result_type@ == req_str(j, "type"@)
    &&& req_location_result_list_rel(x.results, j, "results"@)
}

impl LocationResults {
    /// Fills a locations section from a document.
    pub fn from_json(j: &Json) -> (r: Option<Self>)
        ensures
            match r {
                Some(x) => location_results_ok(j@) && location_results_rel(x, j@),
                None => !location_results_ok(j@),
            },
    {
        let result_type = match get_req_str(j, "type") {
            Some(v) => v,
            None => {
                return None;
            },
        };
        let results = match j.get("results") {
            Some(v) => match v.as_arr() {
                Some(items) => match location_result_list_from_json(items) {
                    Some(xs) => xs,
                    None => {
                        return None;
                    },
                },
                None => {
                    return None;
                },
            },
            None => {
                return None;
            },
        };
        Some(LocationResults { result_type, results })
    }
}

/// Whether `k` is absent, null, or a document that fills a locations section.
pub open spec fn opt_location_results_ok(j: JsonV, k: Seq<char>) -> bool {
    match jfield(j, k) {
        None => true,
        Some(x) => x is Null || location_results_ok(x),
    }
}

/// What an optional locations section field holds: `None` when absent or null.
pub open spec fn opt_location_results_rel(o: Option<LocationResults>, j: JsonV, k: Seq<char>) -> bool {
    match jfield(j, k) {
        None => o is None,
        Some(x) => if x is Null {
            o is None
        } else {
            o matches Some(v) && location_results_rel(v, x)
        },
    }
}

/// The videos section.  Its results list is the one place where the
/// wire distinguishes a null list from a present one: absent or null
/// stays `None`, a present list (empty or not) becomes `Some`.
#[derive(Debug)]
pub struct VideoResults {
    /// The section's discriminator.
    pub result_type: String,
    /// The entries; `None` when the wire had no list.
    pub results: Option<Vec<VideoResult>>,
    /// Whether a goggle changed the list.
    pub mutated_by_goggles: bool,
}

/// On which documents a videos section fills.
pub open spec fn video_results_ok(j: JsonV) -> bool {
    &&& req_str_ok(j, "type"@)
    &&& opt_video_result_list_ok(j, "results"@)
    &&& req_bool_ok(j, "mutated_by_goggles"@)
}

/// What a filled videos section holds.
pub open spec fn video_results_rel(x: VideoResults, j: JsonV) -> bool {
    &&& x.result_type@ == req_str(j, "type"@)
    &&& opt_video_result_list_rel(x.results, j, "results"@)
    &&& x.mutated_by_goggles == req_bool(j, "mutated_by_goggles"@)
}

impl VideoResults {
    /// Fills a videos section from a document.
    pub fn from_json(j: &Json) -> (r: Option<Self>)
        ensures
            match r {
                Some(x) => video_results_ok(j@) && video_results_rel(x, j@),
                None => !video_results_ok(j@),
            },
    {
        let result_type = match get_req_str(j, "type") {
            Some(v) => v,
            None => {
                return None;
            },
        };
        let results = match j.get("results") {
            None => None,
            Some(v) => {
                if v.is_null() {
                    None
                } else {
                    match v.as_arr() {
                        Some(items) => match video_result_list_from_json(items) {
                            Some(xs) => Some(xs),
                            None => {
                                return None;
                            },
                        },
                        None => {
                            return None;
                        },
                    }
                }
            },
        };
        let mutated_by_goggles = match get_req_bool(j, "mutated_by_goggles") {
            Some(v) => v,
            None => {
                return None;
            },
        };
        Some(VideoResults { result_type, results, mutated_by_goggles })
    }
}

/// Whether `k` is absent, null, or a document that fills a videos section.
pub open spec fn opt_video_results_ok(j: JsonV, k: Seq<char>) -> bool {
    match jfield(j, k) {
        None => true,
        Some(x) => x is Null || video_results_ok(x),
    }
}

/// What an optional videos section field holds: `None` when absent or null.
pub open spec fn opt_video_results_rel(o: Option<VideoResults>, j: JsonV, k: Seq<char>) -> bool {
    match jfield(j, k) {
        None => o is None,
        Some(x) => if x is Null {
            o is None
        } else {
            o matches Some(v) && video_results_rel(v, x)
        },
    }
}

/// The mixed layout: three slots of reference blocks that say how the
/// other sections' results are to be arranged.
#[derive(Debug)]
pub struct MixedResponse {
    /// The layout's discriminator.
    pub result_type: String,
    /// The main slot.
    pub main: Option<Vec<ResultReferenceResult>>,
    /// The top slot.
    pub top: Option<Vec<ResultReferenceResult>>,
    /// The side slot.
    pub side: Option<Vec<ResultReferenceResult>>,
}

/// On which documents a mixed layout fills.
pub open spec fn mixed_response_ok(j: JsonV) -> bool {
    &&& req_str_ok(j, "type"@)
    &&& opt_result_reference_list_ok(j, "main"@)
    &&& opt_result_reference_list_ok(j, "top"@)
    &&& opt_result_reference_list_ok(j, "side"@)
}

/// What a filled mixed layout holds.
pub open spec fn mixed_response_rel(x: MixedResponse, j: JsonV) -> bool {
    &&& x.result_type@ == req_str(j, "type"@)
    &&& opt_result_reference_list_rel(x.main, j, "main"@)
    &&& opt_result_reference_list_rel(x.top, j, "top"@)
    &&& opt_result_reference_list_rel(x.side, j, "side"@)
}

impl MixedResponse {
    /// Fills a mixed layout from a document.
    pub fn from_json(j: &Json) -> (r: Option<Self>)
        ensures
            match r {
                Some(x) => mixed_response_ok(j@) && mixed_response_rel(x, j@),
                None => !mixed_response_ok(j@),
            },
    {
        let result_type = match get_req_str(j, "type") {
            Some(v) => v,
            None => {
                return None;
            },
        };
        let main = match j.get("main") {
            None => None,
            Some(v) => {
                if v.is_null() {
                    None
                } else {
                    match v.as_arr() {
                        Some(items) => match result_reference_list_from_json(items) {
                            Some(xs) => Some(xs),
                            None => {
                                return None;
                            },
                        },
                        None => {
                            return None;
                        },
                    }
                }
            },
        };
        let top = match j.get("top") {
            None => None,
            Some(v) => {
                if v.is_null() {
                    None
                } else {
                    match v.as_arr() {
                        Some(items) => match result_reference_list_from_json(items) {
                            Some(xs) => Some(xs),
                            None => {
                                return None;
                            },
                        },
                        None => {
                            return None;
                        },
                    }
                }
            },
        };
        let side = match j.get("side") {
            None => None,
            Some(v) => {
                if v.is_null() {
                    None
                } else {
                    match v.as_arr() {
                        Some(items) => match result_reference_list_from_json(items) {
                            Some(xs) => Some(xs),
                            None => {
                                return None;
                            },
                        },
                        None => {
                            return None;
                        },
                    }
                }
            },
        };
        Some(MixedResponse { result_type, main, top, side })
    }
}

/// Whether `k` is absent, null, or a document that fills a mixed layout.
pub open spec fn opt_mixed_response_ok(j: JsonV, k: Seq<char>) -> bool {
    match jfield(j, k) {
        None => true,
        Some(x) => x is Null || mixed_response_ok(x),
    }
}

/// What an optional mixed layout field holds: `None` when absent or null.
pub open spec fn opt_mixed_response_rel(o: Option<MixedResponse>, j: JsonV, k: Seq<char>) -> bool {
    match jfield(j, k) {
        None => o is None,
        Some(x) => if x is Null {
            o is None
        } else {
            o matches Some(v) && mixed_response_rel(v, x)
        },
    }
}

/// The infobox section.
#[derive(Debug)]
pub struct Infobox {
    /// The section's discriminator.
    pub result_type: String,
    /// The box's position.
    pub position: u32,
    /// The box's label.
    pub label: String,
    /// The box's category.
    pub category: String,
    /// The box's long description.
    pub long_desc: String,
    /// The box's thumbnail.
    pub thumbnail: Option<Thumbnail>,
    /// The box's labelled values.
    pub attributes: Option<Vec<Attribute>>,
}

/// On which documents a infobox fills.
pub open spec fn infobox_ok(j: JsonV) -> bool {
    &&& req_str_ok(j, "type"@)
    &&& req_u32_ok(j, "position"@)
    &&& req_str_ok(j, "label"@)
    &&& req_str_ok(j, "category"@)
    &&& req_str_ok(j, "long_desc"@)
    &&& opt_thumbnail_ok(j, "thumbnail"@)
    &&& opt_attribute_list_ok(j, "attributes"@)
}

/// What a filled infobox holds.
pub open spec fn infobox_rel(x: Infobox, j: JsonV) -> bool {
    &&& x.result_type@ == req_str(j, "type"@)
    &&& x.position == req_u64(j, "position"@)
    &&& x.label@ == req_str(j, "label"@)
    &&& x.category@ == req_str(j, "category"@)
    &&& x.long_desc@ == req_str(j, "long_desc"@)
    &&& opt_thumbnail_rel(x.thumbnail, j, "thumbnail"@)
    &&& opt_attribute_list_rel(x.attributes, j, "attributes"@)
}

impl Infobox {
    /// Fills a infobox from a document.
    pub fn from_json(j: &Json) -> (r: Option<Self>)
        ensures
            match r {
                Some(x) => infobox_ok(j@) && infobox_rel(x, j@),
                None => !infobox_ok(j@),
            },
    {
        let result_type = match get_req_str(j, "type") {
            Some(v) => v,
            None => {
                return None;
            },
        };
        let position = match get_req_u32(j, "position") {
            Some(v) => v,
            None => {
                return None;
            },
        };
        let label = match get_req_str(j, "label") {
            Some(v) => v,
            None => {
                return None;
            },
        };
        let category = match get_req_str(j, "category") {
            Some(v) => v,
            None => {
                return None;
            },
        };
        let long_desc = match get_req_str(j, "long_desc") {
            Some(v) => v,
            None => {
                return None;
            },
        };
        let thumbnail = match j.get("thumbnail") {
            None => None,
            Some(v) => {
                if v.is_null() {
                    None
                } else {
                    match Thumbnail::from_json(v) {
                        Some(x) => Some(x),
                        None => {
                            return None;
                        },
                    }
                }
            },
        };
        let attributes = match j.get("attributes") {
            None => None,
            Some(v) => {
                if v.is_null() {
                    None
                } else {
                    match v.as_arr() {
                        Some(items) => match attribute_list_from_json(items) {
                            Some(xs) => Some(xs),
                            None => {
                                return None;
                            },
                        },
                        None => {
                            return None;
                        },
                    }
                }
            },
        };
        Some(Infobox { result_type, position, label, category, long_desc, thumbnail, attributes })
    }
}

/// Whether `k` is absent, null, or a document that fills a infobox.
pub open spec fn opt_infobox_ok(j: JsonV, k: Seq<char>) -> bool {
    match jfield(j, k) {
        None => true,
        Some(x) => x is Null || infobox_ok(x),
    }
}

/// What an optional infobox field holds: `None` when absent or null.
pub open spec fn opt_infobox_rel(o: Option<Infobox>, j: JsonV, k: Seq<char>) -> bool {
    match jfield(j, k) {
        None => o is None,
        Some(x) => if x is Null {
            o is None
        } else {
            o matches Some(v) && infobox_rel(v, x)
        },
    }
}

/// The server's normalization and diagnostic view of the submitted
/// query: a pure passthrough of what the server reports.
#[derive(Debug)]
pub struct Query {
    /// The query as submitted.
    pub original: String,
    /// Whether a strict-content warning applies.
    pub show_strict_warning: bool,
    /// Whether the query looks navigational.
    pub is_navigational: bool,
    /// Whether the query matches breaking news.
    pub is_news_breaking: bool,
    /// Whether spellcheck was off.
    pub spellcheck_off: bool,
    /// The country the server assumed.
    pub country: String,
    /// Whether the server judged the results poor.
    pub bad_results: bool,
    /// Whether a fallback is advised.
    pub should_fallback: bool,
    /// The postal code the server assumed.
    pub postal_code: String,
    /// The city the server assumed.
    pub city: String,
    /// The country from the request header.
    pub header_country: String,
    /// Whether more results exist.
    pub more_results_available: bool,
    /// The state or region the server assumed.
    pub state: String,
}

/// On which documents a query fills.
pub open spec fn query_ok(j: JsonV) -> bool {
    &&& req_str_ok(j, "original"@)
    &&& req_bool_ok(j, "show_strict_warning"@)
    &&& req_bool_ok(j, "is_navigational"@)
    &&& req_bool_ok(j, "is_news_breaking"@)
    &&& req_bool_ok(j, "spellcheck_off"@)
    &&& req_str_ok(j, "country"@)
    &&& req_bool_ok(j, "bad_results"@)
    &&& req_bool_ok(j, "should_fallback"@)
    &&& req_str_ok(j, "postal_code"@)
    &&& req_str_ok(j, "city"@)
    &&& req_str_ok(j, "header_country"@)
    &&& req_bool_ok(j, "more_results_available"@)
    &&& req_str_ok(j, "state"@)
}

/// What a filled query holds.
pub open spec fn query_rel(x: Query, j: JsonV) -> bool {
    &&& x.original@ == req_str(j, "original"@)
    &&& x.show_strict_warning == req_bool(j, "show_strict_warning"@)
    &&& x.is_navigational == req_bool(j, "is_navigational"@)
    &&& x.is_news_breaking == req_bool(j, "is_news_breaking"@)
    &&& x.spellcheck_off == req_bool(j, "spellcheck_off"@)
    &&& x.country@ == req_str(j, "country"@)
    &&& x.bad_results == req_bool(j, "bad_results"@)
    &&& x.should_fallback == req_bool(j, "should_fallback"@)
    &&& x.postal_code@ == req_str(j, "postal_code"@)
    &&& x.city@ == req_str(j, "city"@)
    &&& x.header_country@ == req_str(j, "header_country"@)
    &&& x.more_results_available == req_bool(j, "more_results_available"@)
    &&& x.state@ == req_str(j, "state"@)
}

impl Query {
    /// Fills a query from a document.
    pub fn from_json(j: &Json) -> (r: Option<Self>)
        ensures
            match r {
                Some(x) => query_ok(j@) && query_rel(x, j@),
                None => !query_ok(j@),
            },
    {
        let original = match get_req_str(j, "original") {
            Some(v) => v,
            None => {
                return None;
            },
        };
        let show_strict_warning = match get_req_bool(j, "show_strict_warning") {
            Some(v) => v,
            None => {
                return None;
            },
        };
        let is_navigational = match get_req_bool(j, "is_navigational") {
            Some(v) => v,
            None => {
                return None;
            },
        };
        let is_news_breaking = match get_req_bool(j, "is_news_breaking") {
            Some(v) => v,
            None => {
                return None;
            },
        };
        let spellcheck_off = match get_req_bool(j, "spellcheck_off") {
            Some(v) => v,
            None => {
                return None;
            },
        };
        let country = match get_req_str(j, "country") {
            Some(v) => v,
            None => {
                return None;
            },
        };
        let bad_results = match get_req_bool(j, "bad_results") {
            Some(v) => v,
            None => {
                return None;
            },
        };
        let should_fallback = match get_req_bool(j, "should_fallback") {
            Some(v) => v,
            None => {
                return None;
            },
        };
        let postal_code = match get_req_str(j, "postal_code") {
            Some(v) => v,
            None => {
                return None;
            },
        };
        let city = match get_req_str(j, "city") {
            Some(v) => v,
            None => {
                return None;
            },
        };
        let header_country = match get_req_str(j, "header_country") {
            Some(v) => v,
            None => {
                return None;
            },
        };
        let more_results_available = match get_req_bool(j, "more_results_available") {
            Some(v) => v,
            None => {
                return None;
            },
        };
        let state = match get_req_str(j, "state") {
            Some(v) => v,
            None => {
                return None;
            },
        };
        Some(Query { original, show_strict_warning, is_navigational, is_news_breaking, spellcheck_off, country, bad_results, should_fallback, postal_code, city, header_country, more_results_available, state })
    }
}

/// Whether `k` is a document that fills a query.
pub open spec fn req_query_field_ok(j: JsonV, k: Seq<char>) -> bool {
    match jfield(j, k) {
        Some(x) => query_ok(x),
        None => false,
    }
}

/// What a required query field holds.
pub open spec fn req_query_field_rel(x: Query, j: JsonV, k: Seq<char>) -> bool {
    jfield(j, k) matches Some(d) && query_rel(x, d)
}

/// The top of a search response: the discriminator, the query echo,
/// and one optional slot per result category.  A slot that is `None`
/// means the server did not return that category; nothing guarantees
/// that any particular section is present.
#[derive(Debug)]
pub struct WebSearchApiResponse {
    /// Which category the server judged primary.
    pub result_type: String,
    /// The discussions section.
    pub discussions: Option<SearchResults>,
    /// The question-and-answer section.
    pub faq: Option<FaqResults>,
    /// The infobox section.
    pub infobox: Option<Infobox>,
    /// The locations section.
    pub locations: Option<LocationResults>,
    /// The news section.
    pub news: Option<NewsResults>,
    /// The server's view of the query.
    pub query: Query,
    /// The web results section.
    pub web: Option<SearchResults>,
    /// The videos section.
    pub videos: Option<VideoResults>,
    /// The mixed layout section.
    pub mixed: Option<MixedResponse>,
}

/// On which documents a response fills.
pub open spec fn response_ok(j: JsonV) -> bool {
    &&& req_str_ok(j, "type"@)
    &&& opt_search_results_ok(j, "discussions"@)
    &&& opt_faq_results_ok(j, "faq"@)
    &&& opt_infobox_ok(j, "infobox"@)
    &&& opt_location_results_ok(j, "locations"@)
    &&& opt_news_results_ok(j, "news"@)
    &&& req_query_field_ok(j, "query"@)
    &&& opt_search_results_ok(j, "web"@)
    &&& opt_video_results_ok(j, "videos"@)
    &&& opt_mixed_response_ok(j, "mixed"@)
}

/// What a filled response holds.
pub open spec fn response_rel(x: WebSearchApiResponse, j: JsonV) -> bool {
    &&& x.result_type@ == req_str(j, "type"@)
    &&& opt_search_results_rel(x.discussions, j, "discussions"@)
    &&& opt_faq_results_rel(x.faq, j, "faq"@)
    &&& opt_infobox_rel(x.infobox, j, "infobox"@)
    &&& opt_location_results_rel(x.locations, j, "locations"@)
    &&& opt_news_results_rel(x.news, j, "news"@)
    &&& req_query_field_rel(x.query, j, "query"@)
    &&& opt_search_results_rel(x.web, j, "web"@)
    &&& opt_video_results_rel(x.videos, j, "videos"@)
    &&& opt_mixed_response_rel(x.mixed, j, "mixed"@)
}

impl WebSearchApiResponse {
    /// Fills a response from a document.
    pub fn from_json(j: &Json) -> (r: Option<Self>)
        ensures
            match r {
                Some(x) => response_ok(j@) && response_rel(x, j@),
                None => !response_ok(j@),
            },
    {
        let result_type = match get_req_str(j, "type") {
            Some(v) => v,
            None => {
                return None;
            },
        };
        let discussions = match j.get("discussions") {
            None => None,
            Some(v) => {
                if v.is_null() {
                    None
                } else {
                    match SearchResults::from_json(v) {
                        Some(x) => Some(x),
                        None => {
                            return None;
                        },
                    }
                }
            },
        };
        let faq = match j.get("faq") {
            None => None,
            Some(v) => {
                if v.is_null() {
                    None
                } else {
                    match FaqResults::from_json(v) {
                        Some(x) => Some(x),
                        None => {
                            return None;
                        },
                    }
                }
            },
        };
        let infobox = match j.get("infobox") {
            None => None,
            Some(v) => {
                if v.is_null() {
                    None
                } else {
                    match Infobox::from_json(v) {
                        Some(x) => Some(x),
                        None => {
                            return None;
                        },
                    }
                }
            },
        };
        let locations = match j.get("locations") {
            None => None,
            Some(v) => {
                if v.is_null() {
                    None
                } else {
                    match LocationResults::from_json(v) {
                        Some(x) => Some(x),
                        None => {
                            return None;
                        },
                    }
                }
            },
        };
        let news = match j.get("news") {
            None => None,
            Some(v) => {
                if v.is_null() {
                    None
                } else {
                    match NewsResults::from_json(v) {
                        Some(x) => Some(x),
                        None => {
                            return None;
                        },
                    }
                }
            },
        };
        let query = match j.get("query") {
            Some(v) => match Query::from_json(v) {
                Some(x) => x,
                None => {
                    return None;
                },
            },
            None => {
                return None;
            },
        };
        let web = match j.get("web") {
            None => None,
            Some(v) => {
                if v.is_null() {
                    None
                } else {
                    match SearchResults::from_json(v) {
                        Some(x) => Some(x),
                        None => {
                            return None;
                        },
                    }
                }
            },
        };
        let videos = match j.get("videos") {
            None => None,
            Some(v) => {
                if v.is_null() {
                    None
                } else {
                    match VideoResults::from_json(v) {
                        Some(x) => Some(x),
                        None => {
                            return None;
                        },
                    }
                }
            },
        };
        let mixed = match j.get("mixed") {
            None => None,
            Some(v) => {
                if v.is_null() {
                    None
                } else {
                    match MixedResponse::from_json(v) {
                        Some(x) => Some(x),
                        None => {
                            return None;
                        },
                    }
                }
            },
        };
        Some(WebSearchApiResponse { result_type, discussions, faq, infobox, locations, news, query, web, videos, mixed })
    }
}

/// Parses a response body: the JSON text is read into a document and
/// the document fills the response model.  Every failure is a
/// deserialization error carrying the parser's diagnostic or a note
/// that the document does not match the schema.
pub fn parse_response(body: &str) -> (r: Result<WebSearchApiResponse, BraveClientError>)
    ensures
        r is Ok <==> (json_of(body@) matches Some(j) && response_ok(j)),
        r matches Ok(resp) ==> (json_of(body@) matches Some(j) && response_rel(resp, j)),
        r matches Err(e) ==> e is ResponseDeserializationError,
{
    match parse_json(body) {
        Ok(j) => match WebSearchApiResponse::from_json(&j) {
            Some(resp) => Ok(resp),
            None => Err(
                BraveClientError::ResponseDeserializationError(
                    "response body does not match the expected schema".to_owned(),
                ),
            ),
        },
        Err(e) => Err(BraveClientError::ResponseDeserializationError(e)),
    }
}

} // verus!
