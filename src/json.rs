use vstd::prelude::*;

verus! {

broadcast use vstd::std_specs::vec::group_vec_axioms;

/// A JSON number as the JSON reader hands it over: a non-negative integer, a
/// negative integer, or any other number, carried as its IEEE-754 bit pattern.
#[derive(PartialEq, Eq, Structural, Clone, Copy, Debug)]
pub enum Number {
    PosInt(u64),
    NegInt(i64),
    Float(u64),
}

/// A JSON document.
#[derive(Debug)]
pub enum Json {
    Null,
    Bool(bool),
    Number(Number),
    String(String),
    Array(Vec<Json>),
    Object(Vec<(String, Json)>),
}

/// The mathematical value of a JSON document.
pub enum JsonV {
    Null,
    Bool(bool),
    Number(Number),
    String(Seq<char>),
    Array(Seq<JsonV>),
    Object(Seq<(Seq<char>, JsonV)>),
}

impl View for Json {
    type V = JsonV;

    open spec fn view(&self) -> JsonV {
        json_view(*self)
    }
}

/// The mathematical value of a JSON document.
pub open spec fn json_view(j: Json) -> JsonV
    decreases j,
{
        match j {
            Json::Null => JsonV::Null,
            Json::Bool(b) => JsonV::Bool(b),
            Json::Number(n) => JsonV::Number(n),
            Json::String(s) => JsonV::String(s@),
            Json::Array(v) => JsonV::Array(
                Seq::new(v@.len(), |i: int| if 0 <= i < v@.len() { json_view(v@[i]) } else { JsonV::Null }),
            ),
            Json::Object(m) => JsonV::Object(
                Seq::new(m@.len(), |i: int| if 0 <= i < m@.len() { (m@[i].0@, json_view(m@[i].1)) } else { (Seq::empty(), JsonV::Null) }),
            ),
        }
}

/// The value of an array is the sequence of the values of its items.
pub proof fn lemma_array_view(v: Vec<Json>)
    ensures
        Json::Array(v)@ is Array,
        Json::Array(v)@->Array_0.len() == v@.len(),
        forall|i: int| 0 <= i < v@.len() ==> #[trigger] Json::Array(v)@->Array_0[i] == v@[i]@,
{
}

/// The value of an object is the sequence of its keys' views paired with its members' values.
pub proof fn lemma_object_view(m: Vec<(String, Json)>)
    ensures
        Json::Object(m)@ is Object,
        Json::Object(m)@->Object_0.len() == m@.len(),
        forall|i: int| 0 <= i < m@.len() ==> #[trigger] Json::Object(m)@->Object_0[i] == (m@[i].0@, m@[i].1@),
{
}

pub fn clone_json(j: &Json) -> (r: Json)
    ensures
        r@ == j@,
    decreases j,
{
    match j {
        Json::Null => Json::Null,
        Json::Bool(b) => Json::Bool(*b),
        Json::Number(n) => Json::Number(*n),
        Json::String(s) => Json::String(s.clone()),
        Json::Array(v) => {
            let mut out: Vec<Json> = Vec::new();
            let mut i: usize = 0;
            while i < v.len()
                invariant
                    i <= v@.len(),
                    *j == Json::Array(*v),
                    out@.len() == i,
                    forall|k: int| 0 <= k < i ==> (#[trigger] out@[k])@ == v@[k]@,
                decreases v@.len() - i,
            {
                proof {
                    assert(decreases_to!(*j => (*j)->Array_0));
                    assert(decreases_to!(*v => v[i as int]));
                    assert(decreases_to!(*j => v[i as int]));
                }
                let c = clone_json(&v[i]);
                out.push(c);
                i += 1;
            }
            let r = Json::Array(out);
            proof {
                lemma_array_view(out);
                lemma_array_view(*v);
                assert(r@->Array_0 =~= j@->Array_0);
            }
            r
        },
        Json::Object(m) => {
            let mut out: Vec<(String, Json)> = Vec::new();
            let mut i: usize = 0;
            while i < m.len()
                invariant
                    i <= m@.len(),
                    *j == Json::Object(*m),
                    out@.len() == i,
                    forall|k: int| 0 <= k < i ==> (#[trigger] out@[k]).0@ == m@[k].0@ && out@[k].1@ == m@[k].1@,
                decreases m@.len() - i,
            {
                proof {
                    assert(decreases_to!(*j => (*j)->Object_0));
                    assert(decreases_to!(*m => m[i as int]));
                    assert(decreases_to!(m[i as int] => m[i as int].1));
                    assert(decreases_to!(*j => m[i as int].1));
                }
                let c = clone_json(&m[i].1);
                out.push((m[i].0.clone(), c));
                i += 1;
            }
            let r = Json::Object(out);
            proof {
                lemma_object_view(out);
                lemma_object_view(*m);
                assert(r@->Object_0 =~= j@->Object_0);
            }
            r
        },
    }
}

/// The key/value view of the members of an object.
pub open spec fn members_view(m: Seq<(String, Json)>) -> Seq<(Seq<char>, JsonV)> {
    Seq::new(m.len(), |i: int| (m[i].0@, m[i].1@))
}

/// Position of the first member named `k` at or after `i`, or -1 if none.
pub open spec fn key_pos_from(o: Seq<(Seq<char>, JsonV)>, k: Seq<char>, i: int) -> int
    decreases o.len() - i,
{
    if i < 0 || i >= o.len() {
        -1
    } else if o[i].0 == k {
        i
    } else {
        key_pos_from(o, k, i + 1)
    }
}

/// Position of the first member named `k`, or -1 if none.
pub open spec fn key_pos(o: Seq<(Seq<char>, JsonV)>, k: Seq<char>) -> int {
    key_pos_from(o, k, 0)
}

/// The value of the first member named `k`.
pub open spec fn lookup(o: Seq<(Seq<char>, JsonV)>, k: Seq<char>) -> Option<JsonV> {
    if key_pos(o, k) >= 0 {
        Some(o[key_pos(o, k)].1)
    } else {
        None
    }
}

/// What a member lookup on any JSON value gives: nothing unless it is an object.
pub open spec fn get_member(j: JsonV, k: Seq<char>) -> Option<JsonV> {
    match j {
        JsonV::Object(o) => lookup(o, k),
        _ => None,
    }
}

/// `o` with member `k` set to `v`: replaced in place where present, appended otherwise.
pub open spec fn insert_member(o: Seq<(Seq<char>, JsonV)>, k: Seq<char>, v: JsonV) -> Seq<(Seq<char>, JsonV)> {
    if key_pos(o, k) >= 0 {
        o.update(key_pos(o, k), (k, v))
    } else {
        o.push((k, v))
    }
}

pub proof fn lemma_key_pos_from(o: Seq<(Seq<char>, JsonV)>, k: Seq<char>, i: int)
    requires
        0 <= i <= o.len(),
    ensures
        -1 <= key_pos_from(o, k, i) < o.len(),
        key_pos_from(o, k, i) >= 0 ==> i <= key_pos_from(o, k, i) && o[key_pos_from(o, k, i)].0 == k,
        key_pos_from(o, k, i) == -1 ==> forall|j: int| i <= j < o.len() ==> o[j].0 != k,
        key_pos_from(o, k, i) >= 0 ==> forall|j: int| i <= j < key_pos_from(o, k, i) ==> o[j].0 != k,
    decreases o.len() - i,
{
    if i < o.len() && o[i].0 != k {
        lemma_key_pos_from(o, k, i + 1);
    }
}

/// Whether no two members of `o` share a key, as in a JSON object read from text.
pub open spec fn keys_unique(o: Seq<(Seq<char>, JsonV)>) -> bool {
    forall|i: int, j: int| 0 <= i < j < o.len() ==> o[i].0 != o[j].0
}

/// Setting a member keeps the keys unique.
pub proof fn lemma_insert_keeps_keys_unique(o: Seq<(Seq<char>, JsonV)>, k: Seq<char>, v: JsonV)
    requires
        keys_unique(o),
    ensures
        keys_unique(insert_member(o, k, v)),
{
    lemma_key_pos_from(o, k, 0);
    let r = insert_member(o, k, v);
    if key_pos(o, k) >= 0 {
        assert forall|i: int, j: int| 0 <= i < j < r.len() implies r[i].0 != r[j].0 by {
            assert(r[i].0 == o[i].0 && r[j].0 == o[j].0);
        }
    } else {
        assert forall|i: int, j: int| 0 <= i < j < r.len() implies r[i].0 != r[j].0 by {
            if j == o.len() {
                assert(o[i].0 != k);
            }
        }
    }
}

/// Whether the two strings hold the same characters.
pub fn str_eq(a: &str, b: &str) -> (r: bool)
    ensures
        r == (a@ == b@),
{
    let x = a.to_string();
    let y = b.to_string();
    x == y
}

/// The first member of `m` named `key`.
pub fn object_get<'a>(m: &'a Vec<(String, Json)>, key: &str) -> (r: Option<&'a Json>)
    ensures
        r is None <==> lookup(members_view(m@), key@) is None,
        r matches Some(j) ==> lookup(members_view(m@), key@) == Some(j@),
{
    let ghost o = members_view(m@);
    proof {
        lemma_key_pos_from(o, key@, 0);
    }
    let mut i: usize = 0;
    while i < m.len()
        invariant
            i <= m@.len(),
            o == members_view(m@),
            key_pos(o, key@) == key_pos_from(o, key@, i as int),
        decreases m@.len() - i,
    {
        if str_eq(m[i].0.as_str(), key) {
            assert(o[i as int].0 == key@);
            return Some(&m[i].1);
        }
        assert(o[i as int].0 != key@);
        i += 1;
    }
    None
}

/// The member `key` of `j`, when `j` is an object that has one.
pub fn json_get<'a>(j: &'a Json, key: &str) -> (r: Option<&'a Json>)
    ensures
        r is None <==> get_member(j@, key@) is None,
        r matches Some(v) ==> get_member(j@, key@) == Some(v@),
{
    match j {
        Json::Object(m) => {
            proof {
                lemma_object_view(*m);
                assert(j@->Object_0 =~= members_view(m@));
            }
            object_get(m, key)
        },
        _ => None,
    }
}

/// Sets member `key` of `m` to `value`, in place where it is present and
/// appended otherwise.
pub fn object_insert(m: &mut Vec<(String, Json)>, key: String, value: Json)
    ensures
        members_view(final(m)@) == insert_member(members_view(old(m)@), key@, value@),
        keys_unique(members_view(old(m)@)) ==> keys_unique(members_view(final(m)@)),
{
    proof {
        if keys_unique(members_view(m@)) {
            lemma_insert_keeps_keys_unique(members_view(m@), key@, value@);
        }
    }
    let ghost o = members_view(m@);
    proof {
        lemma_key_pos_from(o, key@, 0);
    }
    let mut i: usize = 0;
    while i < m.len()
        invariant
            i <= m@.len(),
            o == members_view(m@),
            m@ == old(m)@,
            key_pos(o, key@) == key_pos_from(o, key@, i as int),
        decreases m@.len() - i,
    {
        if str_eq(m[i].0.as_str(), key.as_str()) {
            assert(o[i as int].0 == key@);
            m.set(i, (key, value));
            proof {
                assert(members_view(m@) =~= insert_member(o, key@, value@));
            }
            return;
        }
        assert(o[i as int].0 != key@);
        i += 1;
    }
    let ghost old_m = m@;
    m.push((key, value));
    proof {
        assert(members_view(m@) =~= insert_member(o, key@, value@));
    }
}

} // verus!
