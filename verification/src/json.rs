//! A JSON value owned by the library, with its mathematical model.

use vstd::prelude::*;

verus! {

/// A JSON value. Numbers keep the text in which JSON writes them.
#[derive(Debug, PartialEq)]
pub enum Json {
    Null,
    Bool(bool),
    Number(String),
    Str(String),
    Array(Vec<Json>),
    Object(Vec<(String, Json)>),
}

/// The model of a JSON value: strings as character sequences.
#[verifier::ext_equal]
pub enum JsonV {
    Null,
    Bool(bool),
    Number(Seq<char>),
    Str(Seq<char>),
    Array(Seq<JsonV>),
    Object(Seq<(Seq<char>, JsonV)>),
}

/// The model of a JSON value.
pub open spec fn view_json(j: Json) -> JsonV
    decreases j,
{
    match j {
        Json::Null => JsonV::Null,
        Json::Bool(b) => JsonV::Bool(b),
        Json::Number(n) => JsonV::Number(n@),
        Json::Str(s) => JsonV::Str(s@),
        Json::Array(v) => JsonV::Array(view_items(v@)),
        Json::Object(m) => JsonV::Object(view_members(m@)),
    }
}

/// The models of the elements of an array.
pub open spec fn view_items(s: Seq<Json>) -> Seq<JsonV>
    decreases s,
{
    Seq::new(s.len(), |i: int| if 0 <= i < s.len() { view_json(s[i]) } else { JsonV::Null })
}

/// The models of the members of an object.
pub open spec fn view_members(s: Seq<(String, Json)>) -> Seq<(Seq<char>, JsonV)>
    decreases s,
{
    Seq::new(
        s.len(),
        |i: int| if 0 <= i < s.len() { (s[i].0@, view_json(s[i].1)) } else { (Seq::empty(), JsonV::Null) },
    )
}

impl View for Json {
    type V = JsonV;

    open spec fn view(&self) -> JsonV {
        view_json(*self)
    }
}

/// The first member of `m` at or after index `i` whose key is `key`.
pub open spec fn lookup_from(m: Seq<(Seq<char>, JsonV)>, key: Seq<char>, i: int) -> Option<JsonV>
    decreases m.len() - i,
{
    if i < 0 || i >= m.len() {
        None
    } else if m[i].0 == key {
        Some(m[i].1)
    } else {
        lookup_from(m, key, i + 1)
    }
}

/// The model of an optional borrowed value.
pub open spec fn view_ref(o: Option<&Json>) -> Option<JsonV> {
    match o {
        Some(j) => Some(j@),
        None => None,
    }
}

impl JsonV {
    /// What an object holds under `key` (its first member with that key);
    /// nothing for any other kind of value.
    pub open spec fn field(self, key: Seq<char>) -> Option<JsonV> {
        match self {
            JsonV::Object(m) => lookup_from(m, key, 0),
            _ => None,
        }
    }

    /// The elements of an array; nothing for any other kind of value.
    pub open spec fn items(self) -> Option<Seq<JsonV>> {
        match self {
            JsonV::Array(s) => Some(s),
            _ => None,
        }
    }

    /// The text of a string value; nothing for any other kind of value.
    pub open spec fn text(self) -> Option<Seq<char>> {
        match self {
            JsonV::Str(s) => Some(s),
            _ => None,
        }
    }
}

impl Json {
    /// Looks `key` up in an object. Any other kind of value holds no keys.
    #[verifier::loop_isolation(false)]
    pub fn get(&self, key: &str) -> (r: Option<&Json>)
        ensures
            view_ref(r) == self@.field(key@),
    {
        match self {
            Json::Object(m) => {
                let k = String::from_str(key);
                let ghost mv = view_members(m@);
                let mut i: usize = 0;
                while i < m.len()
                    invariant
                        i <= m@.len(),
                        k@ == key@,
                        mv == view_members(m@),
                        lookup_from(mv, key@, 0) == lookup_from(mv, key@, i as int),
                    decreases m@.len() - i,
                {
                    if m[i].0 == k {
                        assert(mv[i as int] == (m@[i as int].0@, view_json(m@[i as int].1)));
                        return Some(&m[i].1);
                    }
                    i += 1;
                }
                None
            },
            _ => None,
        }
    }

    /// A copy of the value, equal to it in every part.
    #[verifier::loop_isolation(false)]
    pub fn deep_clone(&self) -> (r: Json)
        ensures
            r@ == self@,
        decreases self,
    {
        match self {
            Json::Null => Json::Null,
            Json::Bool(b) => Json::Bool(*b),
            Json::Number(n) => Json::Number(n.clone()),
            Json::Str(s) => Json::Str(s.clone()),
            Json::Array(v) => {
                let mut out: Vec<Json> = Vec::new();
                let mut i: usize = 0;
                while i < v.len()
                    invariant
                        i <= v@.len(),
                        out@.len() == i,
                        forall|j: int|
                            0 <= j < i ==> #[trigger] view_json(out@[j]) == view_json(v@[j]),
                    decreases v@.len() - i,
                {
                    proof {
                        assert(decreases_to!(*self => *v));
                        assert(decreases_to!(*v => v[i as int]));
                    }
                    out.push(v[i].deep_clone());
                    i += 1;
                }
                assert forall|j: int| 0 <= j < v@.len() implies view_items(out@)[j] == view_items(
                    v@,
                )[j] by {
                    assert(view_json(out@[j]) == view_json(v@[j]));
                }
                assert(view_items(out@) =~= view_items(v@));
                Json::Array(out)
            },
            Json::Object(m) => {
                let mut out: Vec<(String, Json)> = Vec::new();
                let mut i: usize = 0;
                while i < m.len()
                    invariant
                        i <= m@.len(),
                        out@.len() == i,
                        forall|j: int|
                            0 <= j < i ==> #[trigger] out@[j].0@ == m@[j].0@ && view_json(
                                out@[j].1,
                            ) == view_json(m@[j].1),
                    decreases m@.len() - i,
                {
                    proof {
                        assert(decreases_to!(*self => *m));
                        assert(decreases_to!(*m => m[i as int]));
                        assert(decreases_to!(m[i as int] => m[i as int].1));
                    }
                    let v = m[i].1.deep_clone();
                    out.push((m[i].0.clone(), v));
                    i += 1;
                }
                assert(view_members(out@) =~= view_members(m@));
                Json::Object(out)
            },
        }
    }
}

/// What an optional value holds under `key`.
pub open spec fn opt_field(o: Option<JsonV>, key: Seq<char>) -> Option<JsonV> {
    match o {
        Some(v) => v.field(key),
        None => None,
    }
}

/// The elements of an optional value that is an array.
pub open spec fn opt_items(o: Option<JsonV>) -> Option<Seq<JsonV>> {
    match o {
        Some(v) => v.items(),
        None => None,
    }
}

/// The last element of an optional, non-empty sequence.
pub open spec fn opt_last(o: Option<Seq<JsonV>>) -> Option<JsonV> {
    match o {
        Some(s) => if s.len() > 0 {
            Some(s.last())
        } else {
            None
        },
        None => None,
    }
}

/// The first element of an optional, non-empty sequence.
pub open spec fn opt_first(o: Option<Seq<JsonV>>) -> Option<JsonV> {
    match o {
        Some(s) => if s.len() > 0 {
            Some(s[0])
        } else {
            None
        },
        None => None,
    }
}

/// The value held, or `default` when there is none.
pub open spec fn or_default(o: Option<JsonV>, default: JsonV) -> JsonV {
    match o {
        Some(v) => v,
        None => default,
    }
}

/// The model of an optional borrowed array.
pub open spec fn view_vec_ref(o: Option<&Vec<Json>>) -> Option<Seq<JsonV>> {
    match o {
        Some(v) => Some(view_items(v@)),
        None => None,
    }
}

/// `key` is the key of member `i` of `m`, and of no member before it.
pub open spec fn is_first_key(m: Seq<(Seq<char>, JsonV)>, key: Seq<char>, i: int) -> bool {
    0 <= i < m.len() && m[i].0 == key && forall|k: int| 0 <= k < i ==> m[k].0 != key
}

/// `value[key] = v` on the model: in an object the first member with `key`
/// takes `v`, and without one the member is appended; `null` becomes an
/// object of that one member.
pub open spec fn with_member(j: JsonV, key: Seq<char>, value: JsonV) -> JsonV {
    match j {
        JsonV::Object(m) => {
            if exists|i: int| is_first_key(m, key, i) {
                let i = choose|i: int| is_first_key(m, key, i);
                JsonV::Object(m.update(i, (key, value)))
            } else {
                JsonV::Object(m.push((key, value)))
            }
        },
        _ => JsonV::Object(seq![(key, value)]),
    }
}

/// The members of an object; none for any other kind of value.
pub open spec fn members(j: JsonV) -> Seq<(Seq<char>, JsonV)> {
    match j {
        JsonV::Object(m) => m,
        _ => Seq::empty(),
    }
}

/// A string value.
pub open spec fn jstr(s: Seq<char>) -> JsonV {
    JsonV::Str(s)
}

/// The string "N/A", which stands in for a missing field.
pub open spec fn na() -> JsonV {
    jstr("N/A"@)
}

/// The service's error object.
pub open spec fn error_object(message: Seq<char>, error_message: Seq<char>) -> JsonV {
    JsonV::Object(
        seq![
            ("error"@, JsonV::Bool(true)),
            ("message"@, jstr(message)),
            ("error_message"@, jstr(error_message)),
        ],
    )
}

/// The number zero.
pub open spec fn jzero() -> JsonV {
    JsonV::Number(seq!['0'])
}

/// Appending an element appends its model.
pub proof fn lemma_view_items_push(s: Seq<Json>, x: Json)
    ensures
        view_items(s.push(x)) == view_items(s).push(view_json(x)),
{
    assert(view_items(s.push(x)) =~= view_items(s).push(view_json(x)));
}

/// The lookup finds member `i` when it is the first with the key.
pub proof fn lemma_lookup_first(m: Seq<(Seq<char>, JsonV)>, key: Seq<char>, i: int, start: int)
    requires
        0 <= start <= i < m.len(),
        m[i].0 == key,
        forall|k: int| start <= k < i ==> m[k].0 != key,
    ensures
        lookup_from(m, key, start) == Some(m[i].1),
    decreases i - start,
{
    if start < i {
        lemma_lookup_first(m, key, i, start + 1);
    }
}

/// The lookup finds nothing when no member from `start` on has the key.
pub proof fn lemma_lookup_absent(m: Seq<(Seq<char>, JsonV)>, key: Seq<char>, start: int)
    requires
        0 <= start,
        forall|k: int| start <= k < m.len() ==> m[k].0 != key,
    ensures
        lookup_from(m, key, start) is None,
    decreases m.len() - start,
{
    if start < m.len() {
        lemma_lookup_absent(m, key, start + 1);
    }
}

proof fn lemma_lookup_agree(
    m1: Seq<(Seq<char>, JsonV)>,
    m2: Seq<(Seq<char>, JsonV)>,
    key: Seq<char>,
    start: int,
)
    requires
        0 <= start,
        m1.len() <= m2.len(),
        forall|j: int|
            0 <= j < m1.len() ==> ((m1[j].0 == key) == (m2[j].0 == key)) && (m1[j].0 == key
                ==> m1[j].1 == m2[j].1),
        forall|j: int| m1.len() <= j < m2.len() ==> m2[j].0 != key,
    ensures
        lookup_from(m1, key, start) == lookup_from(m2, key, start),
    decreases m2.len() - start,
{
    if start < m2.len() {
        lemma_lookup_agree(m1, m2, key, start + 1);
    }
}

/// Reading a member after writing it gives what was written.
pub proof fn law_read_after_write(j: JsonV, key: Seq<char>, value: JsonV)
    requires
        j is Object || j is Null,
    ensures
        with_member(j, key, value).field(key) == Some(value),
{
    match j {
        JsonV::Object(m) => {
            if exists|i: int| is_first_key(m, key, i) {
                let i = choose|i: int| is_first_key(m, key, i);
                lemma_lookup_first(m.update(i, (key, value)), key, i, 0);
            } else {
                assert forall|k: int| 0 <= k < m.len() implies m[k].0 != key by {
                    if m[k].0 == key {
                        lemma_first_key_exists(m, key, k);
                    }
                }
                lemma_lookup_first(m.push((key, value)), key, m.len() as int, 0);
            }
        },
        _ => {
            lemma_lookup_first(seq![(key, value)], key, 0, 0);
        },
    }
}

proof fn lemma_first_key_exists(m: Seq<(Seq<char>, JsonV)>, key: Seq<char>, k: int)
    requires
        0 <= k < m.len(),
        m[k].0 == key,
    ensures
        exists|i: int| is_first_key(m, key, i),
    decreases k,
{
    if exists|g: int| 0 <= g < k && m[g].0 == key {
        let g = choose|g: int| 0 <= g < k && m[g].0 == key;
        lemma_first_key_exists(m, key, g);
    } else {
        assert(is_first_key(m, key, k));
    }
}

/// Writing a member leaves what every other key reads unchanged.
pub proof fn law_write_keeps_other_members(
    j: JsonV,
    key: Seq<char>,
    value: JsonV,
    other: Seq<char>,
)
    requires
        j is Object || j is Null,
        other != key,
    ensures
        with_member(j, key, value).field(other) == j.field(other),
{
    match j {
        JsonV::Object(m) => {
            if exists|i: int| is_first_key(m, key, i) {
                let i = choose|i: int| is_first_key(m, key, i);
                lemma_lookup_agree(m, m.update(i, (key, value)), other, 0);
            } else {
                lemma_lookup_agree(m, m.push((key, value)), other, 0);
            }
        },
        _ => {
            lemma_lookup_absent(seq![(key, value)], other, 0);
        },
    }
}

/// The service's error object reads back its parts.
pub proof fn law_error_object_fields(message: Seq<char>, error_message: Seq<char>)
    ensures
        error_object(message, error_message).field("error"@) == Some(JsonV::Bool(true)),
        error_object(message, error_message).field("message"@) == Some(jstr(message)),
        error_object(message, error_message).field("error_message"@) == Some(jstr(error_message)),
{
    reveal_strlit("error");
    reveal_strlit("message");
    reveal_strlit("error_message");
    let m = members(error_object(message, error_message));
    assert("error"@.len() == 5);
    assert("message"@.len() == 7);
    assert("error_message"@.len() == 13);
    assert(m[0].0 == "error"@);
    assert(m[1].0 == "message"@);
    assert(m[0].0 != "message"@);
    assert(m[0].0 != "error_message"@);
    assert(m[1].0 != "error_message"@);
    lemma_lookup_first(m, "message"@, 1, 0);
    lemma_lookup_first(m, "error_message"@, 2, 0);
}

impl Json {
    /// Looks `key` up in an optional value (`Option::and_then` over `get`).
    pub fn get_in<'a>(o: Option<&'a Json>, key: &str) -> (r: Option<&'a Json>)
        ensures
            view_ref(r) == opt_field(view_ref(o), key@),
    {
        match o {
            Some(j) => j.get(key),
            None => None,
        }
    }

    /// The elements of an array; nothing for any other kind of value.
    pub fn as_array(&self) -> (r: Option<&Vec<Json>>)
        ensures
            view_vec_ref(r) == self@.items(),
    {
        match self {
            Json::Array(v) => Some(v),
            _ => None,
        }
    }

    /// The elements of an optional value that is an array.
    pub fn array_in<'a>(o: Option<&'a Json>) -> (r: Option<&'a Vec<Json>>)
        ensures
            view_vec_ref(r) == opt_items(view_ref(o)),
    {
        match o {
            Some(j) => j.as_array(),
            None => None,
        }
    }

    /// The last element of an optional array (`slice::last`).
    pub fn last_in<'a>(o: Option<&'a Vec<Json>>) -> (r: Option<&'a Json>)
        ensures
            view_ref(r) == opt_last(view_vec_ref(o)),
    {
        match o {
            Some(v) => {
                if v.len() > 0 {
                    Some(&v[v.len() - 1])
                } else {
                    None
                }
            },
            None => None,
        }
    }

    /// The first element of an optional array (`slice::get(0)`).
    pub fn first_in<'a>(o: Option<&'a Vec<Json>>) -> (r: Option<&'a Json>)
        ensures
            view_ref(r) == opt_first(view_vec_ref(o)),
    {
        match o {
            Some(v) => {
                if v.len() > 0 {
                    Some(&v[0])
                } else {
                    None
                }
            },
            None => None,
        }
    }

    /// The text of a string value; nothing for any other kind of value.
    pub fn as_str(&self) -> (r: Option<&String>)
        ensures
            match r {
                Some(t) => self@.text() == Some(t@),
                None => self@.text() is None,
            },
    {
        match self {
            Json::Str(t) => Some(t),
            _ => None,
        }
    }

    /// A copy of the value held, or `default` when there is none
    /// (`cloned().unwrap_or(default)`).
    pub fn value_or(o: Option<&Json>, default: Json) -> (r: Json)
        ensures
            r@ == or_default(view_ref(o), default@),
    {
        match o {
            Some(j) => j.deep_clone(),
            None => default,
        }
    }

    /// A string value with the text of `s`.
    pub fn text(s: &str) -> (r: Json)
        ensures
            r@ == jstr(s@),
    {
        Json::Str(String::from_str(s))
    }

    /// An object without members.
    pub fn object() -> (r: Json)
        ensures
            r@ == JsonV::Object(Seq::empty()),
    {
        let m: Vec<(String, Json)> = Vec::new();
        assert(view_members(m@) =~= Seq::empty());
        Json::Object(m)
    }

    /// The object with one more member, `key: value`, after the others.
    pub fn with(self, key: &str, value: Json) -> (r: Json)
        requires
            self is Object,
        ensures
            r@ == JsonV::Object(members(self@).push((key@, value@))),
    {
        match self {
            Json::Object(mut m) => {
                let ghost mv = view_members(m@);
                let ghost vv = value@;
                m.push((String::from_str(key), value));
                assert(view_members(m@) =~= mv.push((key@, vv)));
                Json::Object(m)
            },
            other => other,
        }
    }

    /// The string "N/A".
    pub fn na() -> (r: Json)
        ensures
            r@ == na(),
    {
        Json::text("N/A")
    }

    /// The service's error object: `error` is true, with the two messages.
    pub fn error_object(message: &str, error_message: &str) -> (r: Json)
        ensures
            r@ == error_object(message@, error_message@),
    {
        let r = Json::object().with("error", Json::Bool(true)).with(
            "message",
            Json::text(message),
        ).with("error_message", Json::text(error_message));
        assert(members(r@) =~= members(error_object(message@, error_message@)));
        r
    }

    /// The number zero.
    pub fn zero() -> (r: Json)
        ensures
            r@ == jzero(),
    {
        let mut t = String::new();
        crate::text::push_char(&mut t, '0');
        assert(t@ =~= seq!['0']);
        Json::Number(t)
    }

    /// The index of the first member of `m` whose key is `key`.
    fn member_index(m: &Vec<(String, Json)>, key: &String) -> (r: Option<usize>)
        ensures
            match r {
                Some(i) => i < m@.len() && m@[i as int].0@ == key@ && forall|k: int|
                    0 <= k < i ==> m@[k].0@ != key@,
                None => forall|k: int| 0 <= k < m@.len() ==> m@[k].0@ != key@,
            },
    {
        let mut i: usize = 0;
        while i < m.len()
            invariant
                i <= m@.len(),
                forall|k: int| 0 <= k < i ==> m@[k].0@ != key@,
            decreases m@.len() - i,
        {
            if m[i].0 == *key {
                return Some(i);
            }
            i += 1;
        }
        None
    }

    /// Sets the member `key` of an object to `value` (`value[key] = ..`).
    /// `null` turns into an object; any other kind of value cannot hold
    /// members.
    pub fn insert(&mut self, key: &str, value: Json)
        requires
            *old(self) is Object || *old(self) is Null,
        ensures
            final(self)@ == with_member(old(self)@, key@, value@),
    {
        let k = String::from_str(key);
        let ghost vv = value@;
        let mut current = Json::Null;
        std::mem::swap(&mut current, self);
        let next = match current {
            Json::Object(mut m) => {
                let ghost mv = view_members(m@);
                let idx = Self::member_index(&m, &k);
                match idx {
                    Some(i) => {
                        assert(mv[i as int].0 == key@);
                        assert forall|j: int| 0 <= j < i implies mv[j].0 != key@ by {
                            assert(mv[j].0 == m@[j].0@);
                        }
                        assert(is_first_key(mv, key@, i as int));
                        let ghost pick = choose|j: int| is_first_key(mv, key@, j);
                        assert(pick == i) by {
                            if pick < i {
                            } else if pick > i {
                            }
                        }
                        m.set(i, (k, value));
                        assert(view_members(m@) =~= mv.update(i as int, (key@, vv)));
                        Json::Object(m)
                    },
                    None => {
                        assert(!(exists|j: int| is_first_key(mv, key@, j))) by {
                            assert forall|j: int| 0 <= j < mv.len() implies mv[j].0 != key@ by {
                                assert(mv[j].0 == m@[j].0@);
                            }
                        }
                        m.push((k, value));
                        assert(view_members(m@) =~= mv.push((key@, vv)));
                        Json::Object(m)
                    },
                }
            },
            _ => {
                let mut m: Vec<(String, Json)> = Vec::new();
                m.push((k, value));
                assert(view_members(m@) =~= seq![(key@, vv)]);
                Json::Object(m)
            },
        };
        *self = next;
    }
}

} // verus!
