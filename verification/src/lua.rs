//! A model of the Lua values that cross the boundary between this library
//! and the Neovim Lua runtime, and of the table accesses and calls that the
//! library asks the runtime to perform.
//!
//! Values that only the runtime can hold (functions, tables handed out by
//! Neovim) travel through the model as opaque handles of type `H`.
use vstd::prelude::*;

verus! {

/// The mathematical value of a [`LuaValue`].
pub enum LuaModel<H> {
    Nil,
    Boolean(bool),
    Integer(int),
    Str(Seq<char>),
    /// A sequence table `{ v1, v2, ... }`.
    Array(Seq<LuaModel<H>>),
    /// A record table `{ k1 = v1, k2 = v2, ... }`, in the order the keys are set.
    Table(Seq<(Seq<char>, LuaModel<H>)>),
    /// A value owned by the runtime that the library passes on unchanged.
    Handle(H),
}

/// A Lua value built by the library.
#[derive(Debug, PartialEq)]
pub enum LuaValue<H> {
    Nil,
    Boolean(bool),
    Integer(i64),
    String(String),
    Array(Vec<LuaValue<H>>),
    Table(Vec<(String, LuaValue<H>)>),
    Handle(H),
}

pub open spec fn values_model<H>(s: Seq<LuaValue<H>>) -> Seq<LuaModel<H>>
    decreases s,
{
    if s.len() == 0 {
        Seq::empty()
    } else {
        values_model(s.drop_last()).push(s.last().model())
    }
}

pub open spec fn fields_model<H>(s: Seq<(String, LuaValue<H>)>) -> Seq<(Seq<char>, LuaModel<H>)>
    decreases s,
{
    if s.len() == 0 {
        Seq::empty()
    } else {
        fields_model(s.drop_last()).push((s.last().0@, s.last().1.model()))
    }
}

impl<H> LuaValue<H> {
    pub open spec fn model(&self) -> LuaModel<H>
        decreases self,
    {
        match self {
            LuaValue::Nil => LuaModel::Nil,
            LuaValue::Boolean(b) => LuaModel::Boolean(*b),
            LuaValue::Integer(i) => LuaModel::Integer(*i as int),
            LuaValue::String(s) => LuaModel::Str(s@),
            LuaValue::Array(v) => LuaModel::Array(values_model(v@)),
            LuaValue::Table(v) => LuaModel::Table(fields_model(v@)),
            LuaValue::Handle(h) => LuaModel::Handle(*h),
        }
    }
}

/// A sequence of texts as a sequence of Lua strings.
pub open spec fn strings_model<H>(s: Seq<String>) -> Seq<LuaModel<H>> {
    s.map_values(|x: String| LuaModel::<H>::Str(x@))
}

/// The entry `key = v` of a record table.
pub open spec fn entry<H>(key: Seq<char>, v: LuaModel<H>) -> Seq<(Seq<char>, LuaModel<H>)> {
    seq![(key, v)]
}

/// The entry `key = v` if there is a value, else no entry: a `nil` field is
/// absent from a Lua table.
pub open spec fn opt_entry<H>(key: Seq<char>, v: Option<LuaModel<H>>) -> Seq<
    (Seq<char>, LuaModel<H>),
> {
    match v {
        Some(x) => seq![(key, x)],
        None => Seq::empty(),
    }
}

pub open spec fn opt_model<H>(v: Option<LuaValue<H>>) -> Option<LuaModel<H>> {
    match v {
        Some(x) => Some(x.model()),
        None => None,
    }
}

/// The value that a record table built from `entries`, set in order, holds
/// under `key`: that of the last entry with that key, or none.
pub open spec fn lookup<H>(entries: Seq<(Seq<char>, LuaModel<H>)>, key: Seq<char>) -> Option<
    LuaModel<H>,
>
    decreases entries.len(),
{
    if entries.len() == 0 {
        None
    } else if entries.last().0 == key {
        Some(entries.last().1)
    } else {
        lookup(entries.drop_last(), key)
    }
}

/// The value that `v` holds under `key` when Lua indexes it: for a record
/// table, its entry under `key`; for any other value, none.
pub open spec fn field_of<H>(v: LuaModel<H>, key: Seq<char>) -> Option<LuaModel<H>> {
    match v {
        LuaModel::Table(entries) => lookup(entries, key),
        _ => None,
    }
}

/// Entries set later win: in a table built from `a` then `b`, a key holds
/// its value from `b` if `b` sets it, else its value from `a`.
pub proof fn lemma_lookup_concat<H>(
    a: Seq<(Seq<char>, LuaModel<H>)>,
    b: Seq<(Seq<char>, LuaModel<H>)>,
)
    ensures
        forall|k: Seq<char>|
            #[trigger] lookup(a + b, k) == (match lookup(b, k) {
                Some(v) => Some(v),
                None => lookup(a, k),
            }),
    decreases b.len(),
{
    if b.len() == 0 {
        assert(a + b =~= a);
    } else {
        lemma_lookup_concat(a, b.drop_last());
        assert((a + b).drop_last() =~= a + b.drop_last());
        assert((a + b).last() == b.last());
        assert forall|k: Seq<char>| #[trigger] lookup(a + b, k) == (match lookup(b, k) {
            Some(v) => Some(v),
            None => lookup(a, k),
        }) by {
            assert(lookup(a + b.drop_last(), k) == (match lookup(b.drop_last(), k) {
                Some(v) => Some(v),
                None => lookup(a, k),
            }));
        }
    }
}

/// The table made of the entry `key = v` holds `v` under `key` and nothing
/// under any other key; so does an optional entry, with what it holds.
pub proof fn lemma_lookup_entries<H>(key: Seq<char>, v: LuaModel<H>, o: Option<LuaModel<H>>)
    ensures
        forall|k: Seq<char>|
            #[trigger] lookup(entry(key, v), k) == (if k == key {
                Some(v)
            } else {
                None
            }),
        forall|k: Seq<char>|
            #[trigger] lookup(opt_entry(key, o), k) == (if k == key {
                o
            } else {
                None
            }),
{
    let e = Seq::<(Seq<char>, LuaModel<H>)>::empty();
    assert forall|k: Seq<char>| #[trigger] lookup(entry(key, v), k) == (if k == key {
        Some(v)
    } else {
        None
    }) by {
        let s = entry(key, v);
        assert(s.drop_last() =~= e);
        assert(s.last() == (key, v));
        assert(lookup(e, k) is None);
    }
    assert forall|k: Seq<char>| #[trigger] lookup(opt_entry(key, o), k) == (if k == key {
        o
    } else {
        None
    }) by {
        match o {
            Some(x) => {
                let s = opt_entry(key, o);
                assert(s.drop_last() =~= e);
                assert(s.last() == (key, x));
                assert(lookup(e, k) is None);
            },
            None => {
                assert(opt_entry(key, o) =~= e);
            },
        }
    }
}

/// A text as a Lua string, if there is one.
pub open spec fn opt_str<H>(v: Option<String>) -> Option<LuaModel<H>> {
    match v {
        Some(s) => Some(LuaModel::Str(s@)),
        None => None,
    }
}

/// Texts as a sequence table of Lua strings.
pub fn strings_to_lua<H>(v: &Vec<String>) -> (r: LuaValue<H>)
    ensures
        r.model() == LuaModel::<H>::Array(strings_model(v@)),
{
    let mut out: Vec<LuaValue<H>> = Vec::new();
    let n = v.len();
    for i in 0..n
        invariant
            n == v@.len(),
            values_model(out@) == strings_model::<H>(v@.take(i as int)),
    {
        let ghost before = out@;
        let c = v[i].clone();
        out.push(LuaValue::String(c));
        assert(out@.drop_last() =~= before);
        assert(out@.last() == LuaValue::<H>::String(c));
        assert(out@.last().model() == LuaModel::<H>::Str(c@));
        assert(values_model(out@) == values_model(out@.drop_last()).push(out@.last().model()));
        assert(values_model(out@) == values_model(before).push(LuaModel::Str(c@)));
        assert(strings_model::<H>(v@.take(i + 1)) =~= strings_model::<H>(v@.take(i as int)).push(
            LuaModel::Str(v@[i as int]@),
        ));
    }
    assert(v@.take(n as int) =~= v@);
    LuaValue::Array(out)
}

/// Borrowed texts as a sequence table of Lua strings.
pub fn strs_to_lua<H>(v: &[&str]) -> (r: LuaValue<H>)
    ensures
        r.model() == LuaModel::<H>::Array(v@.map_values(|t: &str| LuaModel::<H>::Str(t@))),
{
    let mut out: Vec<LuaValue<H>> = Vec::new();
    let n = v.len();
    for i in 0..n
        invariant
            n == v@.len(),
            values_model(out@) == v@.take(i as int).map_values(|t: &str| LuaModel::<H>::Str(t@)),
    {
        let x = LuaValue::String(String::from_str(v[i]));
        push_value(&mut out, x);
        assert(v@.take(i + 1).map_values(|t: &str| LuaModel::<H>::Str(t@)) =~= v@.take(
            i as int,
        ).map_values(|t: &str| LuaModel::<H>::Str(t@)).push(LuaModel::Str(v@[i as int]@)));
    }
    assert(v@.take(n as int) =~= v@);
    LuaValue::Array(out)
}

/// Appends `x` to a list of values.
pub fn push_value<H>(values: &mut Vec<LuaValue<H>>, x: LuaValue<H>)
    ensures
        values_model(final(values)@) == values_model(old(values)@).push(x.model()),
{
    let ghost before = values@;
    values.push(x);
    assert(values@.drop_last() =~= before);
}

/// Adds the entry `key = value` to a record table.
pub fn push_field<H>(fields: &mut Vec<(String, LuaValue<H>)>, key: &str, value: LuaValue<H>)
    ensures
        fields_model(final(fields)@) == fields_model(old(fields)@) + entry(key@, value.model()),
{
    let ghost before = fields@;
    fields.push((String::from_str(key), value));
    assert(fields@.drop_last() =~= before);
    assert(fields_model(before) + entry(key@, value.model()) =~= fields_model(before).push(
        (key@, value.model()),
    ));
}

/// Adds the entry `key = value` to a record table if there is a value.
pub fn push_opt_field<H>(
    fields: &mut Vec<(String, LuaValue<H>)>,
    key: &str,
    value: Option<LuaValue<H>>,
)
    ensures
        fields_model(final(fields)@) == fields_model(old(fields)@) + opt_entry(
            key@,
            opt_model(value),
        ),
{
    match value {
        Some(v) => push_field(fields, key, v),
        None => {
            assert(fields_model(fields@) + opt_entry(key@, opt_model::<H>(None)) =~= fields_model(
                fields@,
            ));
        },
    }
}

/// A text as a Lua string, if there is one.
pub fn opt_string_to_lua<H>(v: Option<String>) -> (r: Option<LuaValue<H>>)
    ensures
        opt_model(r) == opt_str::<H>(v),
{
    match v {
        Some(s) => Some(LuaValue::String(s)),
        None => None,
    }
}

/// A key of a Lua table: a field name or an integer index.
#[derive(Clone, Debug, PartialEq)]
pub enum Key {
    Name(String),
    Number(i64),
}

/// The mathematical value of a [`Key`].
pub enum KeyModel {
    Name(Seq<char>),
    Number(int),
}

impl Key {
    pub open spec fn model(&self) -> KeyModel {
        match self {
            Key::Name(s) => KeyModel::Name(s@),
            Key::Number(i) => KeyModel::Number(*i as int),
        }
    }

    /// A key equal to this one.
    pub fn duplicate(&self) -> (k: Key)
        ensures
            k.model() == self.model(),
    {
        match self {
            Key::Name(s) => Key::Name(s.clone()),
            Key::Number(i) => Key::Number(*i),
        }
    }

    /// The key `name`.
    pub fn name(name: &str) -> (k: Key)
        ensures
            k.model() == KeyModel::Name(name@),
    {
        Key::Name(String::from_str(name))
    }
}

pub open spec fn keys_model(s: Seq<Key>) -> Seq<KeyModel> {
    s.map_values(|k: Key| k.model())
}

/// The path `base` followed by `key`.
pub fn path_push(base: &Vec<Key>, key: Key) -> (p: Vec<Key>)
    ensures
        keys_model(p@) == keys_model(base@).push(key.model()),
{
    let mut p: Vec<Key> = Vec::new();
    let n = base.len();
    for i in 0..n
        invariant
            n == base.len(),
            p@.len() == i,
            forall|j: int| 0 <= j < i ==> #[trigger] p@[j].model() == base@[j].model(),
    {
        p.push(base[i].duplicate());
    }
    p.push(key);
    assert(keys_model(p@) =~= keys_model(base@).push(key.model()));
    p
}

/// What is done at the place that a path of keys leads to.
#[derive(Clone, Debug, PartialEq)]
pub enum Action {
    /// Read the value stored there.
    Read,
    /// Store there the value that the caller supplies.
    Write,
    /// Store `nil` there.
    Clear,
    /// Call the method of that name on the table stored there, with the
    /// arguments that the caller supplies.
    CallMethod(String),
}

/// The mathematical value of an [`Action`].
pub enum ActionModel {
    Read,
    Write,
    Clear,
    CallMethod(Seq<char>),
}

impl Action {
    pub open spec fn model(&self) -> ActionModel {
        match self {
            Action::Read => ActionModel::Read,
            Action::Write => ActionModel::Write,
            Action::Clear => ActionModel::Clear,
            Action::CallMethod(m) => ActionModel::CallMethod(m@),
        }
    }
}

/// An access to the place `vim[path[0]][path[1]]...` of the Lua runtime.
#[derive(Clone, Debug, PartialEq)]
pub struct Access {
    pub path: Vec<Key>,
    pub action: Action,
}

/// The mathematical value of an [`Access`].
pub struct AccessModel {
    pub path: Seq<KeyModel>,
    pub action: ActionModel,
}

impl Access {
    pub open spec fn model(&self) -> AccessModel {
        AccessModel { path: keys_model(self.path@), action: self.action.model() }
    }
}

/// A call of the function stored at `vim[function[0]][function[1]]...`
/// with the given arguments.
#[derive(Debug, PartialEq)]
pub struct LuaCall<H> {
    pub function: Vec<Key>,
    pub args: Vec<LuaValue<H>>,
}

/// A write of `value` at the place `vim[path[0]][path[1]]...`.
#[derive(Debug, PartialEq)]
pub struct Assignment<H> {
    pub path: Vec<Key>,
    pub value: LuaValue<H>,
}

impl<H> Assignment<H> {
    pub open spec fn path_model(&self) -> Seq<KeyModel> {
        keys_model(self.path@)
    }
}

/// The place of the member `name` of the table at `table`.
pub open spec fn member(table: Seq<KeyModel>, name: Seq<char>) -> Seq<KeyModel> {
    table.push(KeyModel::Name(name))
}

/// A call of the member `name` of the table at `table` with `args`.
pub fn call_member<H>(table: &Vec<Key>, name: &str, args: Vec<LuaValue<H>>) -> (c: LuaCall<H>)
    ensures
        c.function_model() == member(keys_model(table@), name@),
        c.args == args,
{
    LuaCall { function: path_push(table, Key::name(name)), args }
}

impl<H> LuaCall<H> {
    pub open spec fn function_model(&self) -> Seq<KeyModel> {
        keys_model(self.function@)
    }

    pub open spec fn args_model(&self) -> Seq<LuaModel<H>> {
        values_model(self.args@)
    }
}

} // verus!
