//! A small JSON tree: the form in which a response body reaches the
//! verified schema mapping.
//!
//! The text of a body is turned into this tree by `parse_json`, and the
//! schema mapping in the response module reads the tree through the
//! accessors below, whose contracts are stated over the node's
//! mathematical shape `JsonV`.

use vstd::prelude::*;

verus! {

broadcast use vstd::seq::group_seq_axioms;

/// One node of a parsed JSON document.
///
/// Numbers are kept as unsigned 64-bit integers: every numeric field of
/// the search response schema is unsigned.  A number outside that range
/// is represented as `Null`, so a caller treats such a field as it would
/// any other unexpected shape.
#[derive(Debug)]
pub enum Json {
    Null,
    Bool(bool),
    Num(u64),
    Str(String),
    Arr(Vec<Json>),
    Obj(Vec<(String, Json)>),
}

/// The mathematical shape of a JSON node.
pub enum JsonV {
    Null,
    Bool(bool),
    Num(u64),
    Str(Seq<char>),
    Arr(Seq<JsonV>),
    Obj(Seq<(Seq<char>, JsonV)>),
}

/// The shape of a JSON node.
pub open spec fn jview(j: Json) -> JsonV
    decreases j, 2int,
{
    match j {
        Json::Null => JsonV::Null,
        Json::Bool(b) => JsonV::Bool(b),
        Json::Num(n) => JsonV::Num(n),
        Json::Str(s) => JsonV::Str(s@),
        Json::Arr(items) => JsonV::Arr(
            {
                proof {
                    assert(decreases_to!(j => items));
                    assert(decreases_to!(items => items@));
                }
                arr_view(items@)
            },
        ),
        Json::Obj(entries) => JsonV::Obj(
            {
                proof {
                    assert(decreases_to!(j => entries));
                    assert(decreases_to!(entries => entries@));
                }
                obj_view(entries@)
            },
        ),
    }
}

impl View for Json {
    type V = JsonV;

    open spec fn view(&self) -> JsonV {
        jview(*self)
    }
}

/// The shapes of the elements of an array node.
pub open spec fn arr_view(items: Seq<Json>) -> Seq<JsonV>
    decreases items, 1int,
{
    if items.len() == 0 {
        Seq::empty()
    } else {
        arr_view(items.drop_last()).push(jview(items.last()))
    }
}

/// The shapes of the entries of an object node.
pub open spec fn obj_view(entries: Seq<(String, Json)>) -> Seq<(Seq<char>, JsonV)>
    decreases entries, 1int,
{
    if entries.len() == 0 {
        Seq::empty()
    } else {
        obj_view(entries.drop_last()).push((entries.last().0@, jview(entries.last().1)))
    }
}

/// An array node's shape has one element shape per element, in order.
pub proof fn lemma_arr_view(items: Seq<Json>)
    ensures
        arr_view(items).len() == items.len(),
        forall|i: int| 0 <= i < items.len() ==> #[trigger] arr_view(items)[i] == items[i]@,
    decreases items.len(),
{
    if items.len() > 0 {
        lemma_arr_view(items.drop_last());
        assert(arr_view(items) == arr_view(items.drop_last()).push(jview(items.last())));
    } else {
        assert(arr_view(items) == Seq::<JsonV>::empty());
    }
}

/// An object node's shape has one entry shape per entry, in order.
pub proof fn lemma_obj_view(entries: Seq<(String, Json)>)
    ensures
        obj_view(entries).len() == entries.len(),
        forall|i: int| 0 <= i < entries.len() ==> #[trigger] obj_view(entries)[i] == (
            entries[i].0@,
            entries[i].1@,
        ),
    decreases entries.len(),
{
    if entries.len() > 0 {
        lemma_obj_view(entries.drop_last());
        assert(obj_view(entries) == obj_view(entries.drop_last()).push(
            (entries.last().0@, jview(entries.last().1)),
        ));
    } else {
        assert(obj_view(entries) == Seq::<(Seq<char>, JsonV)>::empty());
    }
}

/// The value at the first entry with the given key.
pub open spec fn lookup_entries(entries: Seq<(Seq<char>, JsonV)>, key: Seq<char>) -> Option<
    JsonV,
>
    decreases entries.len(),
{
    if entries.len() == 0 {
        None
    } else if entries[0].0 == key {
        Some(entries[0].1)
    } else {
        lookup_entries(entries.drop_first(), key)
    }
}

/// The value of a field of a JSON object; `None` when the node is not an
/// object or the object has no such key.
pub open spec fn jfield(j: JsonV, key: Seq<char>) -> Option<JsonV> {
    match j {
        JsonV::Obj(entries) => lookup_entries(entries, key),
        _ => None,
    }
}

/// Looking a key up finds the first entry that carries it.
pub proof fn lemma_lookup_found(entries: Seq<(Seq<char>, JsonV)>, key: Seq<char>, i: int)
    requires
        0 <= i < entries.len(),
        forall|k: int| 0 <= k < i ==> (#[trigger] entries[k]).0 != key,
        entries[i].0 == key,
    ensures
        lookup_entries(entries, key) == Some(entries[i].1),
    decreases i,
{
    if i > 0 {
        lemma_lookup_found(entries.drop_first(), key, i - 1);
    }
}

/// Looking a key up that no entry carries finds nothing.
pub proof fn lemma_lookup_none(entries: Seq<(Seq<char>, JsonV)>, key: Seq<char>)
    requires
        forall|k: int| 0 <= k < entries.len() ==> (#[trigger] entries[k]).0 != key,
    ensures
        lookup_entries(entries, key) is None,
    decreases entries.len(),
{
    if entries.len() > 0 {
        lemma_lookup_none(entries.drop_first(), key);
    }
}

/// Compares two string slices by their contents.
pub fn str_eq(a: &str, b: &str) -> (r: bool)
    ensures
        r == (a@ == b@),
{
    let sa = a.to_owned();
    let sb = b.to_owned();
    sa == sb
}

impl Json {
    /// The value of `key` when this node is an object that has it; the
    /// first entry wins when a key repeats.
    pub fn get<'a>(&'a self, key: &str) -> (r: Option<&'a Json>)
        ensures
            match r {
                Some(v) => jfield(self@, key@) == Some(v@),
                None => jfield(self@, key@) is None,
            },
    {
        match self {
            Json::Obj(entries) => {
                proof {
                    assert(self@ == JsonV::Obj(obj_view(entries@)));
                }
                let n = entries.len();
                let mut i: usize = 0;
                while i < n
                    invariant
                        self@ == JsonV::Obj(obj_view(entries@)),
                        n == entries.len(),
                        i <= n,
                        forall|k: int| 0 <= k < i ==> (#[trigger] obj_view(entries@)[k]).0
                            != key@,
                    decreases n - i,
                {
                    proof {
                        lemma_obj_view(entries@);
                    }
                    if str_eq(entries[i].0.as_str(), key) {
                        proof {
                            lemma_lookup_found(obj_view(entries@), key@, i as int);
                        }
                        return Some(&entries[i].1);
                    }
                    i += 1;
                }
                proof {
                    lemma_obj_view(entries@);
                    lemma_lookup_none(obj_view(entries@), key@);
                }
                None
            },
            _ => None,
        }
    }

    /// The contents when this node is a string.
    pub fn as_str<'a>(&'a self) -> (r: Option<&'a String>)
        ensures
            match r {
                Some(s) => self@ == JsonV::Str(s@),
                None => !(self@ is Str),
            },
    {
        match self {
            Json::Str(s) => Some(s),
            _ => None,
        }
    }

    /// The value when this node is a number.
    pub fn as_u64(&self) -> (r: Option<u64>)
        ensures
            match r {
                Some(n) => self@ == JsonV::Num(n),
                None => !(self@ is Num),
            },
    {
        match self {
            Json::Num(n) => Some(*n),
            _ => None,
        }
    }

    /// The value when this node is a boolean.
    pub fn as_bool(&self) -> (r: Option<bool>)
        ensures
            match r {
                Some(b) => self@ == JsonV::Bool(b),
                None => !(self@ is Bool),
            },
    {
        match self {
            Json::Bool(b) => Some(*b),
            _ => None,
        }
    }

    /// The elements when this node is an array.
    pub fn as_arr<'a>(&'a self) -> (r: Option<&'a Vec<Json>>)
        ensures
            match r {
                Some(items) => self@ == JsonV::Arr(arr_view(items@)),
                None => !(self@ is Arr),
            },
    {
        match self {
            Json::Arr(items) => Some(items),
            _ => None,
        }
    }

    /// Whether this node is the null value.
    pub fn is_null(&self) -> (r: bool)
        ensures
            r == (self@ is Null),
    {
        match self {
            Json::Null => true,
            _ => false,
        }
    }
}

#[verifier::external_type_specification]
#[verifier::external_body]
pub struct ExValue(serde_json::Value);

/// What parsing a JSON text yields; `None` stands for a text that is not
/// valid JSON.  The parse of a text depends on the text alone.
pub uninterp spec fn json_of(text: Seq<char>) -> Option<JsonV>;

/// Relies on serde_json::Value's tree shape: rebuilds the parsed document
/// one node for one node (a number outside the unsigned 64-bit range
/// becomes `Null`).
#[verifier::external_body]
fn value_to_json(v: serde_json::Value) -> Json {
    match v {
        serde_json::Value::Null => Json::Null,
        serde_json::Value::Bool(b) => Json::Bool(b),
        serde_json::Value::Number(n) => match n.as_u64() {
            Some(u) => Json::Num(u),
            None => Json::Null,
        },
        serde_json::Value::String(s) => Json::Str(s),
        serde_json::Value::Array(items) => Json::Arr(
            items.into_iter().map(value_to_json).collect(),
        ),
        serde_json::Value::Object(entries) => Json::Obj(
            entries.into_iter().map(|(k, v)| (k, value_to_json(v))).collect(),
        ),
    }
}

/// Relies on serde_json::from_str: whether a text parses, and to what
/// document, depends on the text alone; a failure carries serde_json's
/// own diagnostic.
#[verifier::external_body]
pub(crate) fn parse_json(text: &str) -> (r: Result<Json, String>)
    ensures
        match r {
            Ok(j) => json_of(text@) == Some(j@),
            Err(_) => json_of(text@) is None,
        },
{
    match serde_json::from_str::<serde_json::Value>(text) {
        Ok(v) => Ok(value_to_json(v)),
        Err(e) => Err(e.to_string()),
    }
}

} // verus!
