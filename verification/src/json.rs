//! A plain model of decoded JSON documents.
//!
//! Response bodies arrive as JSON text. After parsing, the library works on
//! this model: a tree of nulls, booleans, integers, text, arrays and objects.
//! Numbers that do not fit a signed 64-bit integer (in particular floating
//! point values) are carried as [`Json::Other`]; the envelope and the record
//! schemas never read such values, they only pass them through. The view of a
//! tree is the same tree over sequences, and every extraction function is
//! specified against it.

use vstd::prelude::*;

verus! {

broadcast use vstd::std_specs::vec::group_vec_axioms;

/// A decoded JSON value.
#[derive(Debug, PartialEq)]
pub enum Json {
    /// A JSON `null`.
    Null,
    /// A JSON boolean.
    Bool(bool),
    /// A JSON number that fits a signed 64-bit integer.
    Int(i64),
    /// A JSON string.
    Text(String),
    /// A JSON array.
    Array(Vec<Json>),
    /// A JSON object. A tree from the parse path carries its fields sorted by
    /// key with duplicate keys collapsed to the last (`serde_json`'s default
    /// map); a tree built directly may hold any order and duplicates, and
    /// lookup takes the first match.
    Object(Vec<(String, Json)>),
    /// A JSON number that fits no signed 64-bit integer.
    Other,
}

/// The abstract value of a [`Json`] tree: the same tree over sequences.
#[verifier::ext_equal]
pub enum JsonView {
    Null,
    Bool(bool),
    Int(i64),
    Text(Seq<char>),
    Array(Seq<JsonView>),
    Object(Seq<(Seq<char>, JsonView)>),
    Other,
}

/// The view of a tree: the same tree over sequences.
pub open spec fn json_view(j: Json) -> JsonView
    decreases j,
{
    match j {
        Json::Null => JsonView::Null,
        Json::Bool(b) => JsonView::Bool(b),
        Json::Int(i) => JsonView::Int(i),
        Json::Text(s) => JsonView::Text(s@),
        Json::Array(a) => JsonView::Array(
            Seq::new(
                a@.len(),
                |i: int|
                    if 0 <= i < a@.len() {
                        json_view(a@[i])
                    } else {
                        JsonView::Null
                    },
            ),
        ),
        Json::Object(fields) => JsonView::Object(
            Seq::new(
                fields@.len(),
                |i: int|
                    if 0 <= i < fields@.len() {
                        (fields@[i].0@, json_view(fields@[i].1))
                    } else {
                        (Seq::empty(), JsonView::Null)
                    },
            ),
        ),
        Json::Other => JsonView::Other,
    }
}

impl View for Json {
    type V = JsonView;

    open spec fn view(&self) -> JsonView {
        json_view(*self)
    }
}

/// The value under `key` in an object's field list, first match, or `None` if
/// the key does not occur.
pub open spec fn lookup_field(fields: Seq<(Seq<char>, JsonView)>, key: Seq<char>) -> Option<
    JsonView,
>
    decreases fields.len(),
{
    if fields.len() == 0 {
        None
    } else if fields[0].0 == key {
        Some(fields[0].1)
    } else {
        lookup_field(fields.drop_first(), key)
    }
}

/// The value under `key` when `j` is an object holding that key.
pub open spec fn sj_field(j: JsonView, key: Seq<char>) -> Option<JsonView> {
    match j {
        JsonView::Object(fields) => lookup_field(fields, key),
        _ => None,
    }
}

/// The value under `key`, with `null` for an absent field or a non-object.
pub open spec fn sj_json(j: JsonView, key: Seq<char>) -> JsonView {
    match sj_field(j, key) {
        Some(v) => v,
        None => JsonView::Null,
    }
}

/// The integer under `key`, if the field holds one.
pub open spec fn sj_int(j: JsonView, key: Seq<char>) -> Option<i64> {
    match sj_field(j, key) {
        Some(JsonView::Int(i)) => Some(i),
        _ => None,
    }
}

/// The text under `key`, with the empty sequence as the not-present value.
pub open spec fn sj_str(j: JsonView, key: Seq<char>) -> Seq<char> {
    match sj_field(j, key) {
        Some(JsonView::Text(s)) => s,
        _ => Seq::empty(),
    }
}

/// The text under `key`, if the field holds text.
pub open spec fn sj_opt_str(j: JsonView, key: Seq<char>) -> Option<Seq<char>> {
    match sj_field(j, key) {
        Some(JsonView::Text(s)) => Some(s),
        _ => None,
    }
}

/// The boolean under `key`, with `false` as the not-present value.
pub open spec fn sj_bool(j: JsonView, key: Seq<char>) -> bool {
    match sj_field(j, key) {
        Some(JsonView::Bool(b)) => b,
        _ => false,
    }
}

/// The array under `key`, with the empty sequence as the not-present value.
pub open spec fn sj_arr(j: JsonView, key: Seq<char>) -> Seq<JsonView> {
    match sj_field(j, key) {
        Some(JsonView::Array(a)) => a,
        _ => Seq::empty(),
    }
}

/// Skipping fields that do not match the key leaves the lookup unchanged.
proof fn lemma_lookup_skip(fields: Seq<(Seq<char>, JsonView)>, key: Seq<char>, i: int)
    requires
        0 <= i <= fields.len(),
        forall|k: int| 0 <= k < i ==> fields[k].0 != key,
    ensures
        lookup_field(fields, key) == lookup_field(fields.skip(i), key),
    decreases i,
{
    if i > 0 {
        assert(fields.skip(1) =~= fields.drop_first());
        lemma_lookup_skip(fields.drop_first(), key, i - 1);
        assert(fields.drop_first().skip(i - 1) =~= fields.skip(i));
    } else {
        assert(fields.skip(0) =~= fields);
    }
}

impl Json {
    /// The value under `key`, or `None` when this is not an object or the key
    /// does not occur.
    #[verifier::loop_isolation(false)]
    pub fn get<'a>(&'a self, key: &str) -> (r: Option<&'a Json>)
        ensures
            match r {
                Some(v) => sj_field(self@, key@) == Some(v@),
                None => sj_field(self@, key@) is None,
            },
    {
        let key_string = key.to_owned();
        match self {
            Json::Object(fields) => {
                let ghost fview = Seq::new(
                    fields@.len(),
                    |i: int| (fields@[i].0@, json_view(fields@[i].1)),
                );
                proof {
                    assert(*self == Json::Object(*fields));
                    assert(self@ is Object);
                    let s1 = self@->Object_0;
                    assert(forall|k: int|
                        0 <= k < s1.len() ==> s1[k] == (fields@[k].0@, json_view(fields@[k].1)));
                    assert(s1 =~= fview);
                    assert(self@ == JsonView::Object(fview));
                }
                let n = fields.len();
                let mut i: usize = 0;
                while i < n
                    invariant
                        n == fields.len(),
                        fview.len() == n,
                        self@ == JsonView::Object(fview),
                        forall|k: int|
                            0 <= k < n ==> fview[k] == (fields@[k].0@, json_view(fields@[k].1)),
                        key_string@ == key@,
                        i <= n,
                        forall|k: int| 0 <= k < i ==> fview[k].0 != key@,
                    decreases n - i,
                {
                    if fields[i].0 == key_string {
                        proof {
                            lemma_lookup_skip(fview, key@, i as int);
                            assert(fview.skip(i as int).len() > 0);
                            assert(fview.skip(i as int)[0] == fview[i as int]);
                            assert(fview[i as int].0 == key@);
                            assert(lookup_field(fview.skip(i as int), key@) == Some(
                                fview[i as int].1,
                            ));
                        }
                        return Some(&fields[i].1);
                    }
                    i += 1;
                }
                proof {
                    lemma_lookup_skip(fview, key@, n as int);
                    assert(fview.skip(n as int) =~= Seq::<(Seq<char>, JsonView)>::empty());
                }
                None
            },
            _ => None,
        }
    }

    /// A structurally equal copy of the tree.
    #[verifier::loop_isolation(false)]
    pub fn deep_clone(&self) -> (r: Json)
        ensures
            r@ == self@,
        decreases self,
    {
        match self {
            Json::Null => Json::Null,
            Json::Bool(b) => Json::Bool(*b),
            Json::Int(i) => Json::Int(*i),
            Json::Text(s) => Json::Text(s.clone()),
            Json::Array(a) => {
                let mut out: Vec<Json> = Vec::new();
                let n = a.len();
                let mut i: usize = 0;
                while i < n
                    invariant
                        n == a.len(),
                        i <= n,
                        out@.len() == i,
                        forall|k: int| 0 <= k < i ==> json_view(out@[k]) == json_view(a@[k]),
                    decreases n - i,
                {
                    proof {
                        assert(*self == Json::Array(*a));
                        assert(decreases_to!(*self => (*self)->Array_0));
                        assert(decreases_to!(*a => a@));
                        assert(decreases_to!(a@ => a@[i as int]));
                        assert(decreases_to!(*self => a@[i as int]));
                    }
                    let e = a[i].deep_clone();
                    out.push(e);
                    i += 1;
                }
                let r = Json::Array(out);
                proof {
                    let s1 = json_view(r)->Array_0;
                    let s2 = json_view(*self)->Array_0;
                    assert(s1 =~= s2);
                    assert(json_view(r) == json_view(*self));
                }
                r
            },
            Json::Object(fields) => {
                let mut out: Vec<(String, Json)> = Vec::new();
                let n = fields.len();
                let mut i: usize = 0;
                while i < n
                    invariant
                        n == fields.len(),
                        i <= n,
                        out@.len() == i,
                        forall|k: int|
                            0 <= k < i ==> out@[k].0@ == fields@[k].0@ && json_view(out@[k].1)
                                == json_view(fields@[k].1),
                    decreases n - i,
                {
                    proof {
                        assert(*self == Json::Object(*fields));
                        assert(decreases_to!(*self => (*self)->Object_0));
                        assert(decreases_to!(*fields => fields@));
                        assert(decreases_to!(fields@ => fields@[i as int]));
                        assert(decreases_to!(fields@[i as int] => fields@[i as int].1));
                        assert(decreases_to!(*self => fields@[i as int].1));
                    }
                    let k = fields[i].0.clone();
                    let v = fields[i].1.deep_clone();
                    out.push((k, v));
                    i += 1;
                }
                let r = Json::Object(out);
                proof {
                    let s1 = json_view(r)->Object_0;
                    let s2 = json_view(*self)->Object_0;
                    assert(s1 =~= s2);
                    assert(json_view(r) == json_view(*self));
                }
                r
            },
            Json::Other => Json::Other,
        }
    }
}


impl DeepView for Json {
    type V = JsonView;

    open spec fn deep_view(&self) -> JsonView {
        json_view(*self)
    }
}

/// The view keeps each variant: a tree is text exactly when its view is, and
/// so on, with the payload carried over.
pub proof fn lemma_view_variant(v: Json)
    ensures
        v is Null <==> json_view(v) is Null,
        v is Bool <==> json_view(v) is Bool,
        v is Int <==> json_view(v) is Int,
        v is Text <==> json_view(v) is Text,
        v is Array <==> json_view(v) is Array,
        v is Object <==> json_view(v) is Object,
        v is Other <==> json_view(v) is Other,
        v matches Json::Bool(b) ==> json_view(v)->Bool_0 == b,
        v matches Json::Int(i) ==> json_view(v)->Int_0 == i,
        v matches Json::Text(s) ==> json_view(v)->Text_0 == s@,
{
    match v {
        Json::Null => {},
        Json::Bool(b) => {},
        Json::Int(i) => {},
        Json::Text(s) => {},
        Json::Array(a) => {},
        Json::Object(fields) => {},
        Json::Other => {},
    }
}

/// A structurally equal copy of a sequence of trees.
#[verifier::loop_isolation(false)]
pub fn clone_json_vec(a: &Vec<Json>) -> (r: Vec<Json>)
    ensures
        r.deep_view() == a.deep_view(),
{
    let mut out: Vec<Json> = Vec::new();
    let n = a.len();
    let mut i: usize = 0;
    while i < n
        invariant
            i <= n,
            out@.len() == i,
            forall|k: int| 0 <= k < i ==> json_view(out@[k]) == json_view(a@[k]),
        decreases n - i,
    {
        let e = a[i].deep_clone();
        out.push(e);
        i += 1;
    }
    proof {
        assert(out.deep_view() =~= a.deep_view());
    }
    out
}

/// The integer under `key`, if that field holds one.
pub fn field_int(j: &Json, key: &str) -> (r: Option<i64>)
    ensures
        r == sj_int(j@, key@),
{
    match j.get(key) {
        Some(v) => match v {
            Json::Int(i) => Some(*i),
            _ => {
                proof {
                    lemma_view_variant(*v);
                }
                None
            },
        },
        None => None,
    }
}

/// The text under `key`, with the empty string for an absent or non-text
/// field.
pub fn field_str(j: &Json, key: &str) -> (r: String)
    ensures
        r@ == sj_str(j@, key@),
{
    match j.get(key) {
        Some(v) => match v {
            Json::Text(s) => s.clone(),
            _ => {
                proof {
                    lemma_view_variant(*v);
                }
                String::new()
            },
        },
        None => String::new(),
    }
}

/// The text under `key`, if that field holds text.
pub fn field_opt_str(j: &Json, key: &str) -> (r: Option<String>)
    ensures
        r.deep_view() == sj_opt_str(j@, key@),
{
    match j.get(key) {
        Some(v) => match v {
            Json::Text(s) => Some(s.clone()),
            _ => {
                proof {
                    lemma_view_variant(*v);
                }
                None
            },
        },
        None => None,
    }
}

/// The boolean under `key`, with `false` for an absent or non-boolean field.
pub fn field_bool(j: &Json, key: &str) -> (r: bool)
    ensures
        r == sj_bool(j@, key@),
{
    match j.get(key) {
        Some(v) => match v {
            Json::Bool(b) => *b,
            _ => {
                proof {
                    lemma_view_variant(*v);
                }
                false
            },
        },
        None => false,
    }
}

/// The value under `key`, with `null` for an absent field.
pub fn field_json(j: &Json, key: &str) -> (r: Json)
    ensures
        r@ == sj_json(j@, key@),
{
    match j.get(key) {
        Some(v) => v.deep_clone(),
        None => Json::Null,
    }
}

/// The array under `key`, with the empty array for an absent or non-array
/// field.
pub fn field_arr(j: &Json, key: &str) -> (r: Vec<Json>)
    ensures
        r.deep_view() == sj_arr(j@, key@),
{
    match j.get(key) {
        Some(v) => match v {
            Json::Array(a) => {
                let r = clone_json_vec(a);
                proof {
                    assert(json_view(*v)->Array_0 =~= a.deep_view());
                }
                r
            },
            _ => {
                let r: Vec<Json> = Vec::new();
                proof {
                    lemma_view_variant(*v);
                    assert(r.deep_view() =~= Seq::<JsonView>::empty());
                }
                r
            },
        },
        None => {
            let r: Vec<Json> = Vec::new();
            proof {
                assert(r.deep_view() =~= Seq::<JsonView>::empty());
            }
            r
        },
    }
}

} // verus!
