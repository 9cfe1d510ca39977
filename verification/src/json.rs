//! A JSON-like value model for the open field bag of an alert and for the
//! payloads handed to delivery backends.
//!
//! An object keeps its members in insertion order; looking a key up finds the
//! first member with that key, and setting a key replaces the first member
//! with that key in place.

use vstd::prelude::*;

verus! {

/// The mathematical value of a [`JsonValue`]: the same shape, over `Seq` and
/// `int`.
pub enum JsonView {
    Null,
    Bool(bool),
    Int(int),
    Str(Seq<char>),
    Arr(Seq<JsonView>),
    Obj(Seq<(Seq<char>, JsonView)>),
}

/// The first member of `entries` whose key is `key`, if any.
pub open spec fn spec_lookup(entries: Seq<(Seq<char>, JsonView)>, key: Seq<char>) -> Option<
    JsonView,
>
    decreases entries.len(),
{
    if entries.len() == 0 {
        None
    } else if entries[0].0 == key {
        Some(entries[0].1)
    } else {
        spec_lookup(entries.drop_first(), key)
    }
}

/// `entries` with `key` bound to `value`: the first member with that key is
/// replaced in place, or a new member is appended at the end.
pub open spec fn spec_set(
    entries: Seq<(Seq<char>, JsonView)>,
    key: Seq<char>,
    value: JsonView,
) -> Seq<(Seq<char>, JsonView)>
    decreases entries.len(),
{
    if entries.len() == 0 {
        seq![(key, value)]
    } else if entries[0].0 == key {
        seq![(key, value)] + entries.drop_first()
    } else {
        seq![entries[0]] + spec_set(entries.drop_first(), key, value)
    }
}

/// After a set, the key reads back as the value just written.
pub proof fn lemma_lookup_after_set_same(
    entries: Seq<(Seq<char>, JsonView)>,
    key: Seq<char>,
    value: JsonView,
)
    ensures
        spec_lookup(spec_set(entries, key, value), key) == Some(value),
    decreases entries.len(),
{
    if entries.len() == 0 {
    } else if entries[0].0 == key {
    } else {
        lemma_lookup_after_set_same(entries.drop_first(), key, value);
        assert((seq![entries[0]] + spec_set(entries.drop_first(), key, value)).drop_first()
            =~= spec_set(entries.drop_first(), key, value));
    }
}

/// A set leaves every other key as it was.
pub proof fn lemma_lookup_after_set_other(
    entries: Seq<(Seq<char>, JsonView)>,
    key: Seq<char>,
    value: JsonView,
    other: Seq<char>,
)
    requires
        other != key,
    ensures
        spec_lookup(spec_set(entries, key, value), other) == spec_lookup(entries, other),
    decreases entries.len(),
{
    let s = spec_set(entries, key, value);
    if entries.len() == 0 {
        assert(s == seq![(key, value)]);
        assert(s.drop_first() =~= Seq::<(Seq<char>, JsonView)>::empty());
        assert(spec_lookup(s.drop_first(), other) is None);
        assert(spec_lookup(s, other) is None);
    } else if entries[0].0 == key {
        assert(s == seq![(key, value)] + entries.drop_first());
        assert(s.drop_first() =~= entries.drop_first());
        assert(s[0] == (key, value));
        assert(spec_lookup(s, other) == spec_lookup(entries.drop_first(), other));
        assert(spec_lookup(entries, other) == spec_lookup(entries.drop_first(), other));
    } else {
        lemma_lookup_after_set_other(entries.drop_first(), key, value, other);
        assert(s == seq![entries[0]] + spec_set(entries.drop_first(), key, value));
        assert(s.drop_first() =~= spec_set(entries.drop_first(), key, value));
        assert(s[0] == entries[0]);
        if entries[0].0 == other {
            assert(spec_lookup(s, other) == Some(entries[0].1));
            assert(spec_lookup(entries, other) == Some(entries[0].1));
        } else {
            assert(spec_lookup(s, other) == spec_lookup(spec_set(entries.drop_first(), key, value), other));
            assert(spec_lookup(entries, other) == spec_lookup(entries.drop_first(), other));
        }
    }
}

/// A JSON object: a list of members in insertion order.
pub struct JsonObject {
    entries: Vec<(String, JsonValue)>,
}

/// A JSON-like value. Numbers are held as signed integers: the alert
/// pipeline itself never computes with them, it only carries them.
pub enum JsonValue {
    Null,
    Bool(bool),
    Int(i64),
    Str(String),
    Arr(Vec<JsonValue>),
    Obj(JsonObject),
}

/// The view of one value.
pub open spec fn jv_view(v: JsonValue) -> JsonView
    decreases v,
{
    match v {
        JsonValue::Null => JsonView::Null,
        JsonValue::Bool(b) => JsonView::Bool(b),
        JsonValue::Int(i) => JsonView::Int(i as int),
        JsonValue::Str(s) => JsonView::Str(s@),
        JsonValue::Arr(items) => JsonView::Arr(
            Seq::new(
                items@.len(),
                |i: int|
                    if 0 <= i < items@.len() {
                        jv_view(items@[i])
                    } else {
                        JsonView::Null
                    },
            ),
        ),
        JsonValue::Obj(o) => JsonView::Obj(jo_view(o)),
    }
}

/// The view of one object: its members, in order.
pub closed spec fn jo_view(o: JsonObject) -> Seq<(Seq<char>, JsonView)>
    decreases o,
{
    Seq::new(
        o.entries@.len(),
        |i: int|
            if 0 <= i < o.entries@.len() {
                (o.entries@[i].0@, jv_view(o.entries@[i].1))
            } else {
                (Seq::empty(), JsonView::Null)
            },
    )
}

impl View for JsonValue {
    type V = JsonView;

    open spec fn view(&self) -> JsonView {
        jv_view(*self)
    }
}

impl View for JsonObject {
    type V = Seq<(Seq<char>, JsonView)>;

    open spec fn view(&self) -> Seq<(Seq<char>, JsonView)> {
        jo_view(*self)
    }
}

impl JsonObject {
    /// An object with no members.
    pub fn new() -> (r: JsonObject)
        ensures
            r@ == Seq::<(Seq<char>, JsonView)>::empty(),
    {
        let r = JsonObject { entries: Vec::new() };
        proof {
            assert(r@ =~= Seq::<(Seq<char>, JsonView)>::empty());
        }
        r
    }

    /// How many members the object has.
    pub fn len(&self) -> (n: usize)
        ensures
            n == self@.len(),
    {
        self.entries.len()
    }

    /// The position of the first member with this key, if any.
    fn index_of(&self, key: &str) -> (r: Option<usize>)
        ensures
            match r {
                Some(i) => {
                    &&& i < self@.len()
                    &&& self@[i as int].0 == key@
                    &&& forall|j: int| 0 <= j < i ==> self@[j].0 != key@
                },
                None => forall|j: int| 0 <= j < self@.len() ==> self@[j].0 != key@,
            },
    {
        let key_string: String = key.to_owned();
        let n = self.entries.len();
        let mut i: usize = 0;
        while i < n
            invariant
                n == self@.len(),
                i <= n,
                key_string@ == key@,
                forall|j: int| 0 <= j < i ==> self@[j].0 != key@,
            decreases n - i,
        {
            if self.entries[i].0 == key_string {
                return Some(i);
            }
            i = i + 1;
        }
        None
    }

    /// Whether the first member with key `key` exists; `spec_lookup` names it.
    pub fn contains_key(&self, key: &str) -> (r: bool)
        ensures
            r == (spec_lookup(self@, key@) is Some),
    {
        let r = self.index_of(key);
        proof {
            match r {
                Some(i) => lemma_lookup_at_first_match(self@, key@, i as int),
                None => lemma_lookup_absent(self@, key@),
            }
        }
        r.is_some()
    }

    /// The value of the first member with key `key`, if any.
    pub fn get(&self, key: &str) -> (r: Option<&JsonValue>)
        ensures
            match r {
                Some(v) => spec_lookup(self@, key@) == Some(v@),
                None => spec_lookup(self@, key@) is None,
            },
    {
        match self.index_of(key) {
            Some(i) => {
                proof {
                    lemma_lookup_at_first_match(self@, key@, i as int);
                }
                Some(&self.entries[i].1)
            },
            None => {
                proof {
                    lemma_lookup_absent(self@, key@);
                }
                None
            },
        }
    }

    /// Bind `key` to `value`, replacing the first member with that key in
    /// place or appending a new member.
    pub fn set(&mut self, key: &str, value: JsonValue)
        ensures
            final(self)@ == spec_set(old(self)@, key@, value@),
    {
        match self.index_of(key) {
            Some(i) => {
                proof {
                    lemma_set_at_first_match(self@, key@, value@, i as int);
                }
                let _ = self.entries.remove(i);
                self.entries.insert(i, (key.to_owned(), value));
                proof {
                    assert(final(self)@ =~= spec_set(old(self)@, key@, value@));
                }
            },
            None => {
                proof {
                    lemma_set_absent(self@, key@, value@);
                }
                self.entries.push((key.to_owned(), value));
                proof {
                    assert(final(self)@ =~= spec_set(old(self)@, key@, value@));
                }
            },
        }
    }

    /// Bind `key` to `value` only if no member with that key exists yet; a
    /// present member is never overwritten, not even one holding null.
    pub fn set_if_missing(&mut self, key: &str, value: JsonValue)
        ensures
            spec_lookup(old(self)@, key@) is Some ==> *final(self) == *old(self),
            spec_lookup(old(self)@, key@) is None ==> final(self)@ == spec_set(
                old(self)@,
                key@,
                value@,
            ),
    {
        if !self.contains_key(key) {
            self.set(key, value);
        }
    }
}

/// Where the first match sits, the lookup finds exactly that member.
proof fn lemma_lookup_at_first_match(entries: Seq<(Seq<char>, JsonView)>, key: Seq<char>, i: int)
    requires
        0 <= i < entries.len(),
        entries[i].0 == key,
        forall|j: int| 0 <= j < i ==> entries[j].0 != key,
    ensures
        spec_lookup(entries, key) == Some(entries[i].1),
    decreases i,
{
    if i == 0 {
    } else {
        lemma_lookup_at_first_match(entries.drop_first(), key, i - 1);
    }
}

/// Where no member matches, the lookup finds nothing.
proof fn lemma_lookup_absent(entries: Seq<(Seq<char>, JsonView)>, key: Seq<char>)
    requires
        forall|j: int| 0 <= j < entries.len() ==> entries[j].0 != key,
    ensures
        spec_lookup(entries, key) is None,
    decreases entries.len(),
{
    if entries.len() > 0 {
        lemma_lookup_absent(entries.drop_first(), key);
    }
}

/// Replacing the first match in place is what `spec_set` does.
proof fn lemma_set_at_first_match(
    entries: Seq<(Seq<char>, JsonView)>,
    key: Seq<char>,
    value: JsonView,
    i: int,
)
    requires
        0 <= i < entries.len(),
        entries[i].0 == key,
        forall|j: int| 0 <= j < i ==> entries[j].0 != key,
    ensures
        spec_set(entries, key, value) =~= entries.update(i, (key, value)),
    decreases i,
{
    if i == 0 {
        assert(seq![(key, value)] + entries.drop_first() =~= entries.update(0, (key, value)));
    } else {
        lemma_set_at_first_match(entries.drop_first(), key, value, i - 1);
        assert(seq![entries[0]] + entries.drop_first().update(i - 1, (key, value)) =~= entries
            .update(i, (key, value)));
    }
}

/// Where no member matches, a set appends.
proof fn lemma_set_absent(entries: Seq<(Seq<char>, JsonView)>, key: Seq<char>, value: JsonView)
    requires
        forall|j: int| 0 <= j < entries.len() ==> entries[j].0 != key,
    ensures
        spec_set(entries, key, value) =~= entries.push((key, value)),
    decreases entries.len(),
{
    if entries.len() == 0 {
        assert(seq![(key, value)] =~= entries.push((key, value)));
    } else {
        lemma_set_absent(entries.drop_first(), key, value);
        assert(seq![entries[0]] + entries.drop_first().push((key, value)) =~= entries.push(
            (key, value),
        ));
    }
}


/// The views of the components of a path.
pub open spec fn spec_path_view(path: Seq<&str>) -> Seq<Seq<char>> {
    path.map_values(|s: &str| s@)
}

/// What setting a default along `path[i..]` does to the members of an
/// object: walking down, a missing or null member becomes a fresh object, a
/// member of any other non-object shape stops the walk; at the last
/// component the value is written only over a missing or null member.
pub open spec fn spec_set_path_entries(
    entries: Seq<(Seq<char>, JsonView)>,
    path: Seq<Seq<char>>,
    i: int,
    value: Seq<char>,
) -> Seq<(Seq<char>, JsonView)>
    decreases path.len() - i,
{
    if i < 0 || i >= path.len() {
        entries
    } else {
        let k = path[i];
        if i == path.len() - 1 {
            match spec_lookup(entries, k) {
                Option::None => spec_set(entries, k, JsonView::Str(value)),
                Option::Some(JsonView::Null) => spec_set(entries, k, JsonView::Str(value)),
                Option::Some(_) => entries,
            }
        } else {
            match spec_lookup(entries, k) {
                Option::None => spec_set(
                    entries,
                    k,
                    JsonView::Obj(spec_set_path_entries(Seq::empty(), path, i + 1, value)),
                ),
                Option::Some(JsonView::Null) => spec_set(
                    entries,
                    k,
                    JsonView::Obj(spec_set_path_entries(Seq::empty(), path, i + 1, value)),
                ),
                Option::Some(JsonView::Obj(inner)) => spec_set(
                    entries,
                    k,
                    JsonView::Obj(spec_set_path_entries(inner, path, i + 1, value)),
                ),
                Option::Some(_) => entries,
            }
        }
    }
}

/// What setting a default along `path` does to a value: a null root becomes
/// an object first, a non-object root is left alone, and an empty path does
/// nothing.
pub open spec fn spec_set_path(v: JsonView, path: Seq<Seq<char>>, value: Seq<char>) -> JsonView {
    if path.len() == 0 {
        v
    } else {
        match v {
            JsonView::Obj(entries) => JsonView::Obj(spec_set_path_entries(entries, path, 0, value)),
            JsonView::Null => JsonView::Obj(
                spec_set_path_entries(Seq::empty(), path, 0, value),
            ),
            _ => v,
        }
    }
}

impl JsonObject {
    /// Set a default along `path[i..]`, as `spec_set_path_entries` says.
    pub(crate) fn set_path_from(&mut self, path: &[&str], i: usize, value: &str)
        requires
            i < path@.len(),
        ensures
            final(self)@ == spec_set_path_entries(
                old(self)@,
                spec_path_view(path@),
                i as int,
                value@,
            ),
        decreases path@.len() - i,
    {
        let ghost path_v = spec_path_view(path@);
        let k: &str = path[i];
        assert(path_v[i as int] == k@);
        if i == path.len() - 1 {
            match self.get(k) {
                Option::None => {
                    self.set(k, JsonValue::Str(value.to_owned()));
                },
                Option::Some(v) => {
                    if matches!(v, JsonValue::Null) {
                        self.set(k, JsonValue::Str(value.to_owned()));
                    }
                },
            }
        } else {
            match self.index_of(k) {
                Option::None => {
                    proof {
                        lemma_lookup_absent(self@, k@);
                    }
                    let mut child = JsonObject::new();
                    child.set_path_from(path, i + 1, value);
                    self.set(k, JsonValue::Obj(child));
                },
                Option::Some(idx) => {
                    proof {
                        lemma_lookup_at_first_match(self@, k@, idx as int);
                    }
                    let descend: bool = matches!(&self.entries[idx].1, JsonValue::Obj(_));
                    let null_child: bool = matches!(&self.entries[idx].1, JsonValue::Null);
                    if descend {
                        let ghost before = self@;
                        let (member_key, member_value) = self.entries.remove(idx);
                        match member_value {
                            JsonValue::Obj(mut child) => {
                                child.set_path_from(path, i + 1, value);
                                self.entries.insert(idx, (member_key, JsonValue::Obj(child)));
                                proof {
                                    lemma_set_at_first_match(
                                        before,
                                        k@,
                                        jv_view(JsonValue::Obj(child)),
                                        idx as int,
                                    );
                                    assert(self@ =~= before.update(
                                        idx as int,
                                        (k@, jv_view(JsonValue::Obj(child))),
                                    ));
                                }
                            },
                            _ => {
                                proof {
                                    assert(false);
                                }
                            },
                        }
                    } else if null_child {
                        let mut child = JsonObject::new();
                        child.set_path_from(path, i + 1, value);
                        self.set(k, JsonValue::Obj(child));
                    }
                },
            }
        }
    }
}

/// Set a string default at the end of `path`, creating intermediate objects
/// for missing or null members, leaving any present non-null leaf and any
/// non-object intermediate member untouched.
pub fn json_set_if_not_present(json: &mut JsonValue, path: &[&str], value: &str)
    ensures
        final(json)@ == spec_set_path(old(json)@, spec_path_view(path@), value@),
{
    if path.len() == 0 {
        return ;
    }
    if matches!(json, JsonValue::Null) {
        *json = JsonValue::Obj(JsonObject::new());
    }
    match json {
        JsonValue::Obj(o) => {
            o.set_path_from(path, 0, value);
        },
        _ => {},
    }
}

impl JsonValue {
    /// The string under this value, if it is a string.
    pub fn as_str(&self) -> (r: Option<&str>)
        ensures
            match r {
                Some(s) => self@ == JsonView::Str(s@),
                None => !(self@ is Str),
            },
    {
        match self {
            JsonValue::Str(s) => Some(s.as_str()),
            _ => None,
        }
    }

    /// A value equal to this one, member for member.
    pub fn deep_clone(&self) -> (r: JsonValue)
        ensures
            r@ == self@,
        decreases *self,
    {
        match self {
            JsonValue::Null => JsonValue::Null,
            JsonValue::Bool(b) => JsonValue::Bool(*b),
            JsonValue::Int(i) => JsonValue::Int(*i),
            JsonValue::Str(s) => JsonValue::Str(s.clone()),
            JsonValue::Arr(items) => {
                let mut out: Vec<JsonValue> = Vec::new();
                let n = items.len();
                let mut i: usize = 0;
                while i < n
                    invariant
                        *self == JsonValue::Arr(*items),
                        n == items@.len(),
                        i <= n,
                        out@.len() == i,
                        forall|j: int| 0 <= j < i ==> jv_view(out@[j]) == jv_view(items@[j]),
                    decreases n - i,
                {
                    proof {
                        assert((*self)->Arr_0 == *items);
                        assert(decreases_to!(*self => (*self)->Arr_0@[i as int]));
                    }
                    out.push(items[i].deep_clone());
                    i = i + 1;
                }
                let r = JsonValue::Arr(out);
                proof {
                    assert(r@->Arr_0 =~= self@->Arr_0);
                }
                r
            },
            JsonValue::Obj(o) => JsonValue::Obj(o.deep_clone()),
        }
    }
}

impl JsonObject {
    /// An object equal to this one, member for member.
    pub fn deep_clone(&self) -> (r: JsonObject)
        ensures
            r@ == self@,
        decreases *self,
    {
        let mut out: Vec<(String, JsonValue)> = Vec::new();
        let n = self.entries.len();
        let mut i: usize = 0;
        while i < n
            invariant
                n == self.entries@.len(),
                i <= n,
                out@.len() == i,
                forall|j: int| 0 <= j < i ==> out@[j].0@ == self.entries@[j].0@
                    && jv_view(out@[j].1) == jv_view(self.entries@[j].1),
            decreases n - i,
        {
            let member = &self.entries[i];
            out.push((member.0.clone(), member.1.deep_clone()));
            i = i + 1;
        }
        let r = JsonObject { entries: out };
        proof {
            assert(r@ =~= self@);
        }
        r
    }

    /// The key of the member at position `i`.
    pub fn key_at(&self, i: usize) -> (k: &String)
        requires
            i < self@.len(),
        ensures
            k@ == self@[i as int].0,
    {
        &self.entries[i].0
    }

    /// The value of the member at position `i`.
    pub fn value_at(&self, i: usize) -> (v: &JsonValue)
        requires
            i < self@.len(),
        ensures
            v@ == self@[i as int].1,
    {
        &self.entries[i].1
    }

    /// Whether this object and `other` hold the same members in the same
    /// order.
    pub fn equals(&self, other: &JsonObject) -> (r: bool)
        ensures
            r == (self@ == other@),
        decreases *self,
    {
        let n = self.entries.len();
        if n != other.entries.len() {
            proof {
                assert(self@.len() != other@.len());
            }
            return false;
        }
        let mut i: usize = 0;
        while i < n
            invariant
                n == self.entries@.len(),
                n == other.entries@.len(),
                i <= n,
                forall|j: int| 0 <= j < i ==> self@[j] == other@[j],
            decreases n - i,
        {
            let a = &self.entries[i];
            let b = &other.entries[i];
            if !(a.0 == b.0) {
                proof {
                    assert(self@[i as int].0 != other@[i as int].0);
                }
                return false;
            }
            if !a.1.equals(&b.1) {
                proof {
                    assert(self@[i as int].1 != other@[i as int].1);
                }
                return false;
            }
            i = i + 1;
        }
        proof {
            assert(self@ =~= other@);
        }
        true
    }
}

impl JsonValue {
    /// Whether this value and `other` are the same, member for member.
    pub fn equals(&self, other: &JsonValue) -> (r: bool)
        ensures
            r == (self@ == other@),
        decreases *self,
    {
        match (self, other) {
            (JsonValue::Null, JsonValue::Null) => true,
            (JsonValue::Bool(a), JsonValue::Bool(b)) => *a == *b,
            (JsonValue::Int(a), JsonValue::Int(b)) => *a == *b,
            (JsonValue::Str(a), JsonValue::Str(b)) => *a == *b,
            (JsonValue::Arr(a), JsonValue::Arr(b)) => {
                let n = a.len();
                if n != b.len() {
                    proof {
                        assert(self@->Arr_0.len() != other@->Arr_0.len());
                    }
                    return false;
                }
                let ghost va = a@;
                let ghost vb = b@;
                let mut i: usize = 0;
                while i < n
                    invariant
                        *self == JsonValue::Arr(*a),
                        *other == JsonValue::Arr(*b),
                        a@ == va,
                        b@ == vb,
                        n == a@.len(),
                        n == b@.len(),
                        i <= n,
                        forall|j: int| 0 <= j < i ==> jv_view(va[j]) == jv_view(vb[j]),
                    decreases n - i,
                {
                    if !a[i].equals(&b[i]) {
                        proof {
                            assert(self@->Arr_0[i as int] == jv_view(va[i as int]));
                            assert(other@->Arr_0[i as int] == jv_view(vb[i as int]));
                        }
                        return false;
                    }
                    i = i + 1;
                }
                proof {
                    assert(self@->Arr_0 =~= other@->Arr_0);
                }
                true
            },
            (JsonValue::Obj(a), JsonValue::Obj(b)) => a.equals(b),
            _ => {
                proof {
                    lemma_views_of_unlike_variants_differ(self, other);
                }
                false
            },
        }
    }
}

/// Values of unlike shapes have unlike views.
proof fn lemma_views_of_unlike_variants_differ(a: &JsonValue, b: &JsonValue)
    requires
        !(a is Null && b is Null),
        !(a is Bool && b is Bool),
        !(a is Int && b is Int),
        !(a is Str && b is Str),
        !(a is Arr && b is Arr),
        !(a is Obj && b is Obj),
    ensures
        a@ != b@,
{
}

} // verus!
