use vstd::prelude::*;

verus! {

/// The mathematical value of a JSON payload.
pub enum JsonView {
    Null,
    Bool(bool),
    Number(Seq<char>),
    Str(Seq<char>),
    Array(Seq<JsonView>),
    Object(Seq<(Seq<char>, JsonView)>),
}

/// A structured payload: the inputs and outputs of a run.
///
/// A number is held as its JSON text, so that no precision is lost. The
/// entries of an object are meant to have distinct keys (`unique_keys`),
/// which `insert` keeps.
#[derive(Debug, PartialEq)]
pub enum Json {
    Null,
    Bool(bool),
    Number(String),
    Str(String),
    Array(Vec<Json>),
    Object(Vec<(String, Json)>),
}

pub open spec fn json_view(j: Json) -> JsonView
    decreases j,
{
    match j {
        Json::Null => JsonView::Null,
        Json::Bool(b) => JsonView::Bool(b),
        Json::Number(n) => JsonView::Number(n@),
        Json::Str(s) => JsonView::Str(s@),
        Json::Array(items) => JsonView::Array(items_view(items)),
        Json::Object(entries) => JsonView::Object(entries_view(entries)),
    }
}

pub open spec fn items_view(items: Vec<Json>) -> Seq<JsonView>
    decreases items,
{
    Seq::new(
        items@.len(),
        |i: int|
            if 0 <= i < items@.len() {
                json_view(items@[i])
            } else {
                JsonView::Null
            },
    )
}

pub open spec fn entries_view(entries: Vec<(String, Json)>) -> Seq<(Seq<char>, JsonView)>
    decreases entries,
{
    Seq::new(
        entries@.len(),
        |i: int|
            if 0 <= i < entries@.len() {
                (entries@[i].0@, json_view(entries@[i].1))
            } else {
                (Seq::empty(), JsonView::Null)
            },
    )
}

impl View for Json {
    type V = JsonView;

    open spec fn view(&self) -> JsonView {
        json_view(*self)
    }
}

fn copy_json(j: &Json) -> (r: Json)
    ensures
        r@ == j@,
    decreases *j,
{
    match j {
        Json::Null => Json::Null,
        Json::Bool(b) => Json::Bool(*b),
        Json::Number(n) => Json::Number(n.clone()),
        Json::Str(s) => Json::Str(s.clone()),
        Json::Array(items) => {
            let mut out: Vec<Json> = Vec::new();
            let mut i: usize = 0;
            while i < items.len()
                invariant
                    *j == Json::Array(*items),
                    i <= items@.len(),
                    out@.len() == i,
                    forall|k: int| 0 <= k < i ==> json_view(#[trigger] out@[k]) == json_view(items@[k]),
                decreases items@.len() - i,
            {
                proof {
                    broadcast use {vstd::std_specs::vec::axiom_vec_decreases_to_view, vstd::seq::axiom_seq_index_decreases};

                    let ghost v = (*j)->Array_0;
                    assert(decreases_to!(*j => v));
                    assert(decreases_to!(v => v@));
                    assert(decreases_to!(v@ => v@[i as int]));
                }
                let c = copy_json(&items[i]);
                out.push(c);
                i = i + 1;
            }
            assert(items_view(out) =~= items_view(*items));
            Json::Array(out)
        },
        Json::Object(entries) => {
            let mut out: Vec<(String, Json)> = Vec::new();
            let mut i: usize = 0;
            while i < entries.len()
                invariant
                    *j == Json::Object(*entries),
                    i <= entries@.len(),
                    out@.len() == i,
                    forall|k: int|
                        0 <= k < i ==> (#[trigger] out@[k]).0@ == entries@[k].0@ && json_view(out@[k].1)
                            == json_view(entries@[k].1),
                decreases entries@.len() - i,
            {
                proof {
                    broadcast use {vstd::std_specs::vec::axiom_vec_decreases_to_view, vstd::seq::axiom_seq_index_decreases};

                    let ghost v = (*j)->Object_0;
                    assert(decreases_to!(*j => v));
                    assert(decreases_to!(v => v@));
                    assert(decreases_to!(v@ => v@[i as int]));
                    assert(decreases_to!(v@[i as int] => v@[i as int].1));
                }
                let k = entries[i].0.clone();
                let v = copy_json(&entries[i].1);
                out.push((k, v));
                i = i + 1;
            }
            assert(entries_view(out) =~= entries_view(*entries));
            Json::Object(out)
        },
    }
}

impl Clone for Json {
    fn clone(&self) -> (r: Self)
        ensures
            r@ == self@,
    {
        copy_json(self)
    }
}

/// The object that stands for `v` once it is known to be an object:
/// `v` itself when it already is one, otherwise `{key: v}`.
pub open spec fn as_object_under(v: JsonView, key: Seq<char>) -> JsonView {
    if v is Object {
        v
    } else {
        JsonView::Object(seq![(key, v)])
    }
}

/// No two entries of an object share a key.
pub open spec fn unique_keys(entries: Seq<(Seq<char>, JsonView)>) -> bool {
    forall|i: int, j: int| 0 <= i < j < entries.len() ==> entries[i].0 != entries[j].0
}

/// The value that `entries` holds under `key`: the first entry with that key.
pub open spec fn lookup(entries: Seq<(Seq<char>, JsonView)>, key: Seq<char>) -> Option<JsonView>
    decreases entries.len(),
{
    if entries.len() == 0 {
        None
    } else if entries[0].0 == key {
        Some(entries[0].1)
    } else {
        lookup(entries.drop_first(), key)
    }
}

/// `entries` with `key` bound to `value`: the first entry with that key is
/// replaced in place, and a new entry is added at the end when there is none.
pub open spec fn upsert(entries: Seq<(Seq<char>, JsonView)>, key: Seq<char>, value: JsonView) -> Seq<
    (Seq<char>, JsonView),
>
    decreases entries.len(),
{
    if entries.len() == 0 {
        seq![(key, value)]
    } else if entries[0].0 == key {
        entries.update(0, (key, value))
    } else {
        seq![entries[0]] + upsert(entries.drop_first(), key, value)
    }
}

impl Json {
    /// A string value.
    pub fn text(s: &str) -> (r: Json)
        ensures
            r@ == JsonView::Str(s@),
    {
        Json::Str(s.to_string())
    }

    /// An object with no entries.
    pub fn empty_object() -> (r: Json)
        ensures
            r@ == JsonView::Object(Seq::empty()),
    {
        let entries: Vec<(String, Json)> = Vec::new();
        assert(entries_view(entries) =~= Seq::<(Seq<char>, JsonView)>::empty());
        Json::Object(entries)
    }

    pub fn is_object(&self) -> (r: bool)
        ensures
            r == (self@ is Object),
    {
        match self {
            Json::Object(_) => true,
            _ => false,
        }
    }

    /// The value under `key`, when this is an object that has one.
    pub fn get(&self, key: &str) -> (r: Option<&Json>)
        ensures
            self@ is Object ==> match r {
                Some(v) => lookup(self@->Object_0, key@) == Some(v@),
                None => lookup(self@->Object_0, key@) is None,
            },
            !(self@ is Object) ==> r is None,
    {
        match self {
            Json::Object(entries) => {
                let ghost es = entries_view(*entries);
                let k = key.to_string();
                let mut i: usize = 0;
                assert(es.subrange(0, es.len() as int) =~= es);
                while i < entries.len()
                    invariant
                        *self == Json::Object(*entries),
                        es == entries_view(*entries),
                        k@ == key@,
                        i <= entries@.len(),
                        lookup(es, key@) == lookup(es.subrange(i as int, es.len() as int), key@),
                    decreases entries@.len() - i,
                {
                    let ghost rest = es.subrange(i as int, es.len() as int);
                    assert(rest.drop_first() =~= es.subrange(i + 1, es.len() as int));
                    assert(rest[0] == es[i as int]);
                    if entries[i].0 == k {
                        return Some(&entries[i].1);
                    }
                    i = i + 1;
                }
                None
            },
            _ => None,
        }
    }

    /// Binds `key` to `value` when this is an object (see `upsert`); any
    /// other value is left as it is.
    pub fn insert(&mut self, key: String, value: Json)
        ensures
            old(self)@ is Object ==> final(self)@ == JsonView::Object(
                upsert(old(self)@->Object_0, key@, value@),
            ),
            !(old(self)@ is Object) ==> final(self)@ == old(self)@,
            old(self)@ is Object && unique_keys(old(self)@->Object_0) ==> unique_keys(
                final(self)@->Object_0,
            ),
    {
        if let Json::Object(entries) = self {
            upsert_entry(entries, key, value);
        }
    }
}

/// Binds `key` to `value` among `entries` (see `upsert`), keeping keys
/// distinct when they were.
pub fn upsert_entry(entries: &mut Vec<(String, Json)>, key: String, value: Json)
    ensures
        entries_view(*final(entries)) == upsert(entries_view(*old(entries)), key@, value@),
        unique_keys(entries_view(*old(entries))) ==> unique_keys(entries_view(*final(entries))),
{
    let ghost es = entries_view(*entries);
    let ghost kk = key@;
    let ghost vv = value@;
    match find_entry(entries, &key) {
        Some(i) => {
            proof {
                lemma_upsert_at(es, kk, vv, i as int);
            }
            entries.set(i, (key, value));
            assert(entries_view(*entries) =~= es.update(i as int, (kk, vv)));
            assert(forall|k: int| 0 <= k < es.len() ==> (#[trigger] es.update(i as int, (kk, vv))[k]).0 == es[k].0);
        },
        None => {
            proof {
                lemma_upsert_absent(es, kk, vv);
            }
            entries.push((key, value));
            assert(entries_view(*entries) =~= es.push((kk, vv)));
        },
    }
}

/// The position of the first entry whose key is `key`.
fn find_entry(entries: &Vec<(String, Json)>, key: &String) -> (r: Option<usize>)
    ensures
        match r {
            Some(i) => i < entries@.len() && entries@[i as int].0@ == key@ && forall|k: int|
                0 <= k < i ==> (#[trigger] entries@[k]).0@ != key@,
            None => forall|k: int| 0 <= k < entries@.len() ==> (#[trigger] entries@[k]).0@ != key@,
        },
{
    let mut i: usize = 0;
    while i < entries.len()
        invariant
            i <= entries@.len(),
            forall|k: int| 0 <= k < i ==> (#[trigger] entries@[k]).0@ != key@,
        decreases entries@.len() - i,
    {
        if entries[i].0 == *key {
            return Some(i);
        }
        i = i + 1;
    }
    None
}

proof fn lemma_upsert_at(es: Seq<(Seq<char>, JsonView)>, key: Seq<char>, value: JsonView, i: int)
    requires
        0 <= i < es.len(),
        es[i].0 == key,
        forall|k: int| 0 <= k < i ==> es[k].0 != key,
    ensures
        upsert(es, key, value) == es.update(i, (key, value)),
    decreases i,
{
    if i > 0 {
        lemma_upsert_at(es.drop_first(), key, value, i - 1);
        assert(es.update(i, (key, value)) =~= seq![es[0]] + es.drop_first().update(i - 1, (key, value)));
    }
}

proof fn lemma_upsert_absent(es: Seq<(Seq<char>, JsonView)>, key: Seq<char>, value: JsonView)
    requires
        forall|k: int| 0 <= k < es.len() ==> es[k].0 != key,
    ensures
        upsert(es, key, value) == es.push((key, value)),
    decreases es.len(),
{
    if es.len() > 0 {
        lemma_upsert_absent(es.drop_first(), key, value);
        assert(es.push((key, value)) =~= seq![es[0]] + es.drop_first().push((key, value)));
    }
}

/// Making a payload an object: the result is an object; a bare value is
/// found in it under the key; an object comes back as it was; and doing it
/// twice is doing it once.
pub proof fn lemma_object_wrapping(v: JsonView, key: Seq<char>)
    ensures
        as_object_under(v, key) is Object,
        !(v is Object) ==> lookup(as_object_under(v, key)->Object_0, key) == Some(v),
        v is Object ==> as_object_under(v, key) == v,
        as_object_under(as_object_under(v, key), key) == as_object_under(v, key),
        !(v is Object) ==> unique_keys(as_object_under(v, key)->Object_0),
{
    if !(v is Object) {
        let es = seq![(key, v)];
        assert(es[0].0 == key);
    }
}

/// Makes sure that a payload is an object: one that already is one comes
/// back unchanged, any other value comes back as `{key: value}`.
pub fn ensure_object(value: Json, key: &str) -> (r: Json)
    ensures
        r@ == as_object_under(value@, key@),
{
    if value.is_object() {
        value
    } else {
        let ghost v = value@;
        let mut entries: Vec<(String, Json)> = Vec::new();
        entries.push((key.to_string(), value));
        let r = Json::Object(entries);
        assert(entries_view(entries) =~= seq![(key@, v)]);
        r
    }
}

/// Inputs as an object: a bare value goes under `"input"`.
pub fn ensure_inputs_object(value: Json) -> (r: Json)
    ensures
        r@ == as_object_under(value@, "input"@),
{
    ensure_object(value, "input")
}

/// Outputs as an object: a bare value goes under `"output"`.
pub fn ensure_outputs_object(value: Json) -> (r: Json)
    ensures
        r@ == as_object_under(value@, "output"@),
{
    ensure_object(value, "output")
}

} // verus!
