//! The dynamic JSON value type that the protocol works on.
//!
//! Requests, responses and backend payloads are untyped JSON throughout, so
//! the engine keeps them in a tagged sum type.  Numbers carry their literal
//! token text, which preserves them exactly (including non-integers) without
//! the library ever computing on them.

use vstd::prelude::*;

verus! {

/// A JSON value.  `Num` holds the number's literal token (e.g. `"42"`,
/// `"-1.5e3"`) rather than a parsed numeric type.
#[derive(Debug, PartialEq)]
pub enum Json {
    Null,
    Bool(bool),
    Num(String),
    Str(String),
    Arr(Vec<Json>),
    Obj(Vec<(String, Json)>),
}

/// The mathematical model of a JSON value: strings become `Seq<char>`,
/// vectors become `Seq`.  All contracts in the crate speak of `Val`.
#[verifier::ext_equal]
pub enum Val {
    Null,
    Bool(bool),
    Num(Seq<char>),
    Str(Seq<char>),
    Arr(Seq<Val>),
    Obj(Seq<(Seq<char>, Val)>),
}

pub open spec fn val_of(j: Json) -> Val
    decreases j,
{
    match j {
        Json::Null => Val::Null,
        Json::Bool(b) => Val::Bool(b),
        Json::Num(s) => Val::Num(s@),
        Json::Str(s) => Val::Str(s@),
        Json::Arr(items) => Val::Arr(vals_of(items@)),
        Json::Obj(fields) => Val::Obj(field_vals_of(fields@)),
    }
}

pub open spec fn vals_of(items: Seq<Json>) -> Seq<Val>
    decreases items,
{
    if items.len() == 0 {
        Seq::empty()
    } else {
        vals_of(items.drop_last()).push(val_of(items.last()))
    }
}

pub open spec fn field_vals_of(fields: Seq<(String, Json)>) -> Seq<(Seq<char>, Val)>
    decreases fields,
{
    if fields.len() == 0 {
        Seq::empty()
    } else {
        field_vals_of(fields.drop_last()).push((fields.last().0@, val_of(fields.last().1)))
    }
}

impl View for Json {
    type V = Val;

    open spec fn view(&self) -> Val {
        val_of(*self)
    }
}

pub proof fn lemma_vals_of_index(items: Seq<Json>)
    ensures
        vals_of(items).len() == items.len(),
        forall|k: int| 0 <= k < items.len() ==> vals_of(items)[k] == val_of(items[k]),
    decreases items,
{
    if items.len() > 0 {
        lemma_vals_of_index(items.drop_last());
    }
}

pub proof fn lemma_field_vals_of_index(fields: Seq<(String, Json)>)
    ensures
        field_vals_of(fields).len() == fields.len(),
        forall|k: int| 0 <= k < fields.len() ==> field_vals_of(fields)[k] == (
        fields[k].0@,
        val_of(fields[k].1),
        ),
    decreases fields,
{
    if fields.len() > 0 {
        lemma_field_vals_of_index(fields.drop_last());
    }
}

/// Looks a key up among object fields; the first binding from the left wins.
pub open spec fn lookup_fields(fields: Seq<(Seq<char>, Val)>, key: Seq<char>) -> Option<Val>
    decreases fields,
{
    if fields.len() == 0 {
        None
    } else if fields.first().0 == key {
        Some(fields.first().1)
    } else {
        lookup_fields(fields.drop_first(), key)
    }
}

/// What indexing a JSON value by a key yields: a field of an object,
/// nothing on every other shape of value.
pub open spec fn val_get(v: Val, key: Seq<char>) -> Option<Val> {
    match v {
        Val::Obj(fields) => lookup_fields(fields, key),
        _ => None,
    }
}

/// The key's value if it is present and a string.
pub open spec fn val_get_str(v: Val, key: Seq<char>) -> Option<Seq<char>> {
    match val_get(v, key) {
        Some(Val::Str(s)) => Some(s),
        _ => None,
    }
}

/// The key's value if it is present and a boolean.
pub open spec fn val_get_bool(v: Val, key: Seq<char>) -> Option<bool> {
    match val_get(v, key) {
        Some(Val::Bool(b)) => Some(b),
        _ => None,
    }
}

/// Character-by-character string equality, specified over the views.
pub fn str_eq(a: &str, b: &str) -> (r: bool)
    ensures
        r == (a@ == b@),
{
    let la = a.unicode_len();
    let lb = b.unicode_len();
    if la != lb {
        return false;
    }
    let mut i: usize = 0;
    while i < la
        invariant
            i <= la,
            la == a@.len(),
            lb == b@.len(),
            la == lb,
            forall|k: int| 0 <= k < i ==> a@[k] == b@[k],
        decreases la - i,
    {
        if a.get_char(i) != b.get_char(i) {
            return false;
        }
        i += 1;
    }
    proof {
        assert(a@ =~= b@);
    }
    true
}

/// Whether a string equals a literal.
pub fn str_is(s: &String, lit: &str) -> (r: bool)
    ensures
        r == (s@ == lit@),
{
    str_eq(s.as_str(), lit)
}

impl Json {
    /// Field access as JSON-RPC handling reads requests: `request["key"]`
    /// yields the field of an object and nothing on any other value.
    #[verifier::loop_isolation(false)]
    pub fn get<'a>(&'a self, key: &str) -> (r: Option<&'a Json>)
        ensures
            match r {
                Some(j) => val_get(self@, key@) == Some(j@),
                None => val_get(self@, key@) is None,
            },
    {
        match self {
            Json::Obj(fields) => {
                proof {
                    lemma_field_vals_of_index(fields@);
                }
                let ghost fv = field_vals_of(fields@);
                let mut i: usize = 0;
                proof {
                    assert(fv.skip(0) =~= fv);
                }
                while i < fields.len()
                    invariant
                        i <= fields.len(),
                        fv == field_vals_of(fields@),
                        fv.len() == fields@.len(),
                        forall|k: int| 0 <= k < fields@.len() ==> fv[k] == (
                        fields@[k].0@,
                        val_of(fields@[k].1),
                        ),
                        lookup_fields(fv, key@) == lookup_fields(fv.skip(i as int), key@),
                    decreases fields.len() - i,
                {
                    if str_is(&fields[i].0, key) {
                        proof {
                            assert(fv.skip(i as int).len() > 0);
                            assert(fv.skip(i as int).first() == fv[i as int]);
                            assert(lookup_fields(fv, key@) == Some(fv[i as int].1));
                            assert(*self == Json::Obj(*fields));
                            assert(self@ == Val::Obj(fv));
                            assert(fv[i as int].1 == val_of(fields@[i as int].1));
                        }
                        return Some(&fields[i].1);
                    }
                    proof {
                        assert(fv.skip(i as int).drop_first() =~= fv.skip(i as int + 1));
                    }
                    i += 1;
                }
                proof {
                    assert(fv.skip(fields@.len() as int).len() == 0);
                    assert(*self == Json::Obj(*fields));
                    assert(self@ == Val::Obj(fv));
                }
                None
            },
            _ => None,
        }
    }

    /// The field's value if present and a string.
    pub fn get_str<'a>(&'a self, key: &str) -> (r: Option<&'a String>)
        ensures
            match r {
                Some(s) => val_get_str(self@, key@) == Some(s@),
                None => val_get_str(self@, key@) is None,
            },
    {
        match self.get(key) {
            Some(Json::Str(s)) => Some(s),
            _ => None,
        }
    }

    /// The field's value if present and a boolean.
    pub fn get_bool(&self, key: &str) -> (r: Option<bool>)
        ensures
            r == val_get_bool(self@, key@),
    {
        match self.get(key) {
            Some(Json::Bool(b)) => Some(*b),
            _ => None,
        }
    }

    /// A structural copy; unlike a derived `Clone`, its contract says the
    /// model is preserved.
    #[verifier::loop_isolation(false)]
    pub fn duplicate(&self) -> (r: Json)
        ensures
            r@ == self@,
        decreases *self,
    {
        match self {
            Json::Null => Json::Null,
            Json::Bool(b) => Json::Bool(*b),
            Json::Num(s) => Json::Num(s.clone()),
            Json::Str(s) => Json::Str(s.clone()),
            Json::Arr(items) => {
                let mut out: Vec<Json> = Vec::new();
                let mut i: usize = 0;
                while i < items.len()
                    invariant
                        i <= items.len(),
                        out@.len() == i,
                        forall|k: int| 0 <= k < i ==> val_of(#[trigger] out@[k]) == val_of(
                            items@[k],
                        ),
                    decreases items.len() - i,
                {
                    proof {
                        assert(self->Arr_0 == *items);
                        assert(decreases_to!(*self => self->Arr_0));
                        assert(decreases_to!(*items => items@));
                        assert(decreases_to!(items@ => items@[i as int]));
                    }
                    let d = items[i].duplicate();
                    out.push(d);
                    i += 1;
                }
                proof {
                    lemma_vals_of_index(out@);
                    lemma_vals_of_index(items@);
                    assert(vals_of(out@) =~= vals_of(items@));
                }
                Json::Arr(out)
            },
            Json::Obj(fields) => {
                let mut out: Vec<(String, Json)> = Vec::new();
                let mut i: usize = 0;
                while i < fields.len()
                    invariant
                        i <= fields.len(),
                        out@.len() == i,
                        forall|k: int|
                            0 <= k < i ==> (#[trigger] out@[k]).0@ == fields@[k].0@ && val_of(
                                out@[k].1,
                            ) == val_of(fields@[k].1),
                    decreases fields.len() - i,
                {
                    let k = fields[i].0.clone();
                    proof {
                        assert(self->Obj_0 == *fields);
                        assert(decreases_to!(*self => self->Obj_0));
                        assert(decreases_to!(*fields => fields@));
                        assert(decreases_to!(fields@ => fields@[i as int]));
                        assert(decreases_to!(fields@[i as int] => fields@[i as int].1));
                    }
                    let v = fields[i].1.duplicate();
                    out.push((k, v));
                    i += 1;
                }
                proof {
                    lemma_field_vals_of_index(out@);
                    lemma_field_vals_of_index(fields@);
                    assert(field_vals_of(out@) =~= field_vals_of(fields@));
                }
                Json::Obj(out)
            },
        }
    }

    /// A structural copy of an object's field list.
    pub fn dup_fields(fields: &Vec<(String, Json)>) -> (r: Vec<(String, Json)>)
        ensures
            field_vals_of(r@) == field_vals_of(fields@),
    {
        let mut out: Vec<(String, Json)> = Vec::new();
        let mut i: usize = 0;
        while i < fields.len()
            invariant
                i <= fields@.len(),
                out@.len() == i,
                forall|k: int|
                    0 <= k < i ==> (#[trigger] out@[k]).0@ == fields@[k].0@ && val_of(out@[k].1)
                        == val_of(fields@[k].1),
            decreases fields@.len() - i,
        {
            let k = fields[i].0.clone();
            let v = fields[i].1.duplicate();
            out.push((k, v));
            i += 1;
        }
        proof {
            lemma_field_vals_of_index(out@);
            lemma_field_vals_of_index(fields@);
            assert(field_vals_of(out@) =~= field_vals_of(fields@));
        }
        out
    }

    /// An owned string value.
    pub fn string(s: &str) -> (r: Json)
        ensures
            r@ == Val::Str(s@),
    {
        Json::Str(String::from_str(s))
    }

    /// The empty JSON object.
    pub fn empty_obj() -> (r: Json)
        ensures
            r@ == Val::Obj(Seq::empty()),
    {
        Json::Obj(Vec::new())
    }
}

} // verus!
