//! `vim.*`: the root of Neovim's Lua API, its tables of variables and
//! options, and the functions that live directly in it.
use vstd::prelude::*;
use crate::api::Api;
use crate::common::Index;
use crate::fns::Fns;
use crate::lsp::Lsp;
use crate::lua::{
    call_member, entry, fields_model, keys_model, member, opt_entry, opt_str, opt_string_to_lua,
    path_push, push_opt_field, push_value, values_model, Access, AccessModel, Action,
    ActionModel, Assignment, Key, KeyModel, LuaCall, LuaModel, LuaValue, field_of,
    lemma_lookup_entries,
};

verus! {

/// How important a notification is.
#[derive(Debug, Clone, Copy, PartialEq, Eq, Structural)]
pub enum LogLevel {
    Trace,
    Debug,
    Info,
    Warn,
    Error,
}

/// The number by which Neovim knows a level (`vim.log.levels`).
pub open spec fn log_level_code(l: LogLevel) -> int {
    match l {
        LogLevel::Trace => 0,
        LogLevel::Debug => 1,
        LogLevel::Info => 2,
        LogLevel::Warn => 3,
        LogLevel::Error => 4,
    }
}

impl LogLevel {
    /// The number by which Neovim knows this level.
    pub fn code(&self) -> (c: i64)
        ensures
            c == log_level_code(*self),
    {
        match self {
            LogLevel::Trace => 0,
            LogLevel::Debug => 1,
            LogLevel::Info => 2,
            LogLevel::Warn => 3,
            LogLevel::Error => 4,
        }
    }

    /// The Lua value of this level: its number.
    pub fn to_lua<H>(&self) -> (v: LuaValue<H>)
        ensures
            v.model() == LuaModel::<H>::Integer(log_level_code(*self)),
    {
        LuaValue::Integer(self.code())
    }
}

/// Distinct levels have distinct numbers, each between 0 and 4, and a more
/// severe level has a greater number: trace, debug, info, warn and error, in
/// that order, have increasing numbers.
pub proof fn lemma_log_level_order(a: LogLevel, b: LogLevel)
    ensures
        a != b ==> log_level_code(a) != log_level_code(b),
        0 <= log_level_code(a) <= 4,
        log_level_code(LogLevel::Trace) < log_level_code(LogLevel::Debug),
        log_level_code(LogLevel::Debug) < log_level_code(LogLevel::Info),
        log_level_code(LogLevel::Info) < log_level_code(LogLevel::Warn),
        log_level_code(LogLevel::Warn) < log_level_code(LogLevel::Error),
{
}

/// The place `table[name]`.
pub open spec fn variable_place(table: Seq<KeyModel>, name: Seq<char>) -> Seq<KeyModel> {
    member(table, name)
}

/// The place of the variable `name` of the buffer, window or tab page
/// `index`: `table[n][name]` for the one numbered `n`, `table[name]` for the
/// current one.
pub open spec fn indexed_place(table: Seq<KeyModel>, index: Index, name: Seq<char>) -> Seq<
    KeyModel,
> {
    match index {
        Index::Index(i) => table.push(KeyModel::Number(i as int)).push(KeyModel::Name(name)),
        Index::Current => table.push(KeyModel::Name(name)),
    }
}

/// A variable lives in its table: its place is the table's place followed
/// by its name.
pub proof fn lemma_variable_in_table(table: Seq<KeyModel>, name: Seq<char>)
    ensures
        variable_place(table, name).len() == table.len() + 1,
        variable_place(table, name).subrange(0, table.len() as int) == table,
        variable_place(table, name).last() == KeyModel::Name(name),
{
    assert(variable_place(table, name).subrange(0, table.len() as int) =~= table);
}

/// Distinct names are distinct places: writing one variable leaves every
/// other variable of the table where it was.
pub proof fn lemma_distinct_variables(table: Seq<KeyModel>, a: Seq<char>, b: Seq<char>)
    requires
        a != b,
    ensures
        variable_place(table, a) != variable_place(table, b),
{
    assert(variable_place(table, a).last() != variable_place(table, b).last());
}

/// Distinct variables of buffers (windows, tab pages) are distinct places,
/// whether they differ in name or in the numbered buffer; a variable of the
/// current buffer is not at the place of any numbered buffer's variable.
pub proof fn lemma_distinct_indexed_variables(
    table: Seq<KeyModel>,
    i: Index,
    a: Seq<char>,
    j: Index,
    b: Seq<char>,
)
    requires
        i != j || a != b,
    ensures
        indexed_place(table, i, a) != indexed_place(table, j, b),
{
    let p = indexed_place(table, i, a);
    let q = indexed_place(table, j, b);
    if p.len() == q.len() {
        if a != b {
            assert(p.last() != q.last());
        } else {
            match (i, j) {
                (Index::Index(x), Index::Index(y)) => {
                    assert(p[table.len() as int] != q[table.len() as int]);
                },
                _ => {},
            }
        }
    }
}

/// Global or Vim variables (`vim.g`, `vim.v`): the table at `path`.
///
/// [Neovim doc](https://neovim.io/doc/user/lua.html#lua-vim-variables)
#[derive(Debug, PartialEq)]
pub struct Variables {
    pub path: Vec<Key>,
}

impl Variables {
    /// Reads the variable `name`.
    pub fn get(&self, name: &str) -> (a: Access)
        ensures
            a.model() == (AccessModel {
                path: variable_place(keys_model(self.path@), name@),
                action: ActionModel::Read,
            }),
    {
        Access { path: path_push(&self.path, Key::name(name)), action: Action::Read }
    }

    /// Sets the variable `name` to the value that the caller supplies.
    pub fn set(&self, name: &str) -> (a: Access)
        ensures
            a.model() == (AccessModel {
                path: variable_place(keys_model(self.path@), name@),
                action: ActionModel::Write,
            }),
    {
        Access { path: path_push(&self.path, Key::name(name)), action: Action::Write }
    }

    /// Removes the variable `name` (sets it to `nil`).
    pub fn unset(&self, name: &str) -> (a: Access)
        ensures
            a.model() == (AccessModel {
                path: variable_place(keys_model(self.path@), name@),
                action: ActionModel::Clear,
            }),
    {
        Access { path: path_push(&self.path, Key::name(name)), action: Action::Clear }
    }
}

/// Variables of buffers, windows or tab pages (`vim.b`, `vim.w`, `vim.t`):
/// the table at `path`.
///
/// [Neovim doc](https://neovim.io/doc/user/lua.html#lua-vim-variables)
#[derive(Debug, PartialEq)]
pub struct IndexedVariables {
    pub path: Vec<Key>,
}

impl IndexedVariables {
    fn place(&self, index: Index, name: &str) -> (p: Vec<Key>)
        ensures
            keys_model(p@) == indexed_place(keys_model(self.path@), index, name@),
    {
        if let Index::Index(i) = index {
            let outer = path_push(&self.path, Key::Number(i));
            path_push(&outer, Key::name(name))
        } else {
            path_push(&self.path, Key::name(name))
        }
    }

    /// Reads the variable `name` of `index`.
    pub fn get(&self, index: Index, name: &str) -> (a: Access)
        ensures
            a.model() == (AccessModel {
                path: indexed_place(keys_model(self.path@), index, name@),
                action: ActionModel::Read,
            }),
    {
        Access { path: self.place(index, name), action: Action::Read }
    }

    /// Sets the variable `name` of `index` to the value that the caller
    /// supplies.
    pub fn set(&self, index: Index, name: &str) -> (a: Access)
        ensures
            a.model() == (AccessModel {
                path: indexed_place(keys_model(self.path@), index, name@),
                action: ActionModel::Write,
            }),
    {
        Access { path: self.place(index, name), action: Action::Write }
    }

    /// Removes the variable `name` of `index` (sets it to `nil`).
    pub fn unset(&self, index: Index, name: &str) -> (a: Access)
        ensures
            a.model() == (AccessModel {
                path: indexed_place(keys_model(self.path@), index, name@),
                action: ActionModel::Clear,
            }),
    {
        Access { path: self.place(index, name), action: Action::Clear }
    }
}

/// Environment variables of the editor (`vim.env`): the table at `path`.
///
/// [Neovim doc](https://neovim.io/doc/user/lua.html#vim.env)
#[derive(Debug, PartialEq)]
pub struct Env {
    pub path: Vec<Key>,
}

impl Env {
    /// Reads the environment variable `name`.
    pub fn get(&self, name: &str) -> (a: Access)
        ensures
            a.model() == (AccessModel {
                path: variable_place(keys_model(self.path@), name@),
                action: ActionModel::Read,
            }),
    {
        Access { path: path_push(&self.path, Key::name(name)), action: Action::Read }
    }

    /// Sets the environment variable `name` to the text that the caller
    /// supplies.
    pub fn set(&self, name: &str) -> (a: Access)
        ensures
            a.model() == (AccessModel {
                path: variable_place(keys_model(self.path@), name@),
                action: ActionModel::Write,
            }),
    {
        Access { path: path_push(&self.path, Key::name(name)), action: Action::Write }
    }

    /// Sets the environment variable `name` to the text `value`: the write
    /// of the Lua string `value` at its place.
    pub fn set_text<H>(&self, name: &str, value: &str) -> (a: Assignment<H>)
        ensures
            a.path_model() == variable_place(keys_model(self.path@), name@),
            a.value.model() == LuaModel::<H>::Str(value@),
    {
        Assignment {
            path: path_push(&self.path, Key::name(name)),
            value: LuaValue::String(String::from_str(value)),
        }
    }

    /// Removes the environment variable `name`.
    pub fn unset(&self, name: &str) -> (a: Access)
        ensures
            a.model() == (AccessModel {
                path: variable_place(keys_model(self.path@), name@),
                action: ActionModel::Clear,
            }),
    {
        Access { path: path_push(&self.path, Key::name(name)), action: Action::Clear }
    }
}

/// Options (`vim.opt`, `vim.opt_local`, `vim.opt_global`): the table at
/// `path`, whose entries are option objects with the methods `get`,
/// `append`, `prepend` and `remove`.
///
/// [Neovim doc](https://neovim.io/doc/user/lua.html#vim.opt)
#[derive(Debug, PartialEq)]
pub struct Opt {
    pub path: Vec<Key>,
}

impl Opt {
    fn method(&self, name: &str, method: &str) -> (a: Access)
        ensures
            a.model() == (AccessModel {
                path: variable_place(keys_model(self.path@), name@),
                action: ActionModel::CallMethod(method@),
            }),
    {
        Access {
            path: path_push(&self.path, Key::name(name)),
            action: Action::CallMethod(String::from_str(method)),
        }
    }

    /// Reads the option `name`: calls `get` on its option object.
    pub fn get(&self, name: &str) -> (a: Access)
        ensures
            a.model() == (AccessModel {
                path: variable_place(keys_model(self.path@), name@),
                action: ActionModel::CallMethod("get"@),
            }),
    {
        self.method(name, "get")
    }

    /// Sets the option `name` to the value that the caller supplies.
    pub fn set(&self, name: &str) -> (a: Access)
        ensures
            a.model() == (AccessModel {
                path: variable_place(keys_model(self.path@), name@),
                action: ActionModel::Write,
            }),
    {
        Access { path: path_push(&self.path, Key::name(name)), action: Action::Write }
    }

    /// Appends the value that the caller supplies to the option `name`.
    pub fn append(&self, name: &str) -> (a: Access)
        ensures
            a.model() == (AccessModel {
                path: variable_place(keys_model(self.path@), name@),
                action: ActionModel::CallMethod("append"@),
            }),
    {
        self.method(name, "append")
    }

    /// Prepends the value that the caller supplies to the option `name`.
    pub fn prepend(&self, name: &str) -> (a: Access)
        ensures
            a.model() == (AccessModel {
                path: variable_place(keys_model(self.path@), name@),
                action: ActionModel::CallMethod("prepend"@),
            }),
    {
        self.method(name, "prepend")
    }

    /// Removes the value that the caller supplies from the option `name`.
    pub fn remove(&self, name: &str) -> (a: Access)
        ensures
            a.model() == (AccessModel {
                path: variable_place(keys_model(self.path@), name@),
                action: ActionModel::CallMethod("remove"@),
            }),
    {
        self.method(name, "remove")
    }
}

/// Options of `vim.ui.input`.
#[derive(Debug, PartialEq)]
pub struct InputOpts {
    pub prompt: Option<String>,
}

impl Default for InputOpts {
    fn default() -> (r: Self)
        ensures
            r == (InputOpts { prompt: None }),
    {
        InputOpts { prompt: None }
    }
}

impl InputOpts {
    /// The Lua table that Neovim receives: one entry per field, in order,
    /// without the fields that hold no value.
    pub open spec fn model<H>(&self) -> LuaModel<H> {
        LuaModel::Table(
            opt_entry("prompt"@, opt_str::<H>(self.prompt)),
        )
    }

    /// A builder that starts from the default of every field.
    pub fn builder() -> (b: InputOptsBuilder)
        ensures
            b@ == (InputOpts { prompt: None }),
    {
        InputOptsBuilder { opts: InputOpts::default() }
    }

    /// The Lua table of these options.
    pub fn to_lua<H>(self) -> (v: LuaValue<H>)
        ensures
            v.model() == self.model::<H>(),
    {
        let ghost this = self;
        let mut fields: Vec<(String, LuaValue<H>)> = Vec::new();
        push_opt_field(&mut fields, "prompt", opt_string_to_lua(self.prompt));
        assert(fields_model(fields@) =~= opt_entry("prompt"@, opt_str::<H>(this.prompt)));
        LuaValue::Table(fields)
    }
}

/// `vim.ui.input` finds the prompt under its own name when it is set, and
/// nothing under any other name.
pub proof fn lemma_input_opts_table<H>(o: InputOpts)
    ensures
        field_of(o.model::<H>(), "prompt"@) == (match o.prompt {
            Some(s) => Some(LuaModel::<H>::Str(s@)),
            None => None,
        }),
        forall|k: Seq<char>|
            !(k == "prompt"@) ==> #[trigger] field_of(o.model::<H>(), k) is None,
{
    reveal_strlit("prompt");

    let p1 = opt_entry("prompt"@, opt_str::<H>(o.prompt));
    lemma_lookup_entries("prompt"@, LuaModel::Nil, opt_str::<H>(o.prompt));
}

/// Builds [`InputOpts`] one field at a time.
#[derive(Debug, PartialEq)]
pub struct InputOptsBuilder {
    opts: InputOpts,
}

impl View for InputOptsBuilder {
    type V = InputOpts;

    closed spec fn view(&self) -> InputOpts {
        self.opts
    }
}

impl InputOptsBuilder {
    /// Sets `prompt`.
    pub fn prompt(self, value: String) -> (r: Self)
        ensures
            r@ == (InputOpts { prompt: Some(value), ..self@ }),
    {
        let mut opts = self.opts;
        opts.prompt = Some(value);
        InputOptsBuilder { opts }
    }

    /// The options set so far; the others keep their default.
    pub fn build(self) -> (r: InputOpts)
        ensures
            r == self@,
    {
        self.opts
    }
}


/// `vim.ui.*`: the table at `path`.
///
/// [Neovim doc](https://neovim.io/doc/user/lua.html#lua-ui)
#[derive(Debug, PartialEq)]
pub struct Ui {
    pub path: Vec<Key>,
}

impl Ui {
    /// Calls `vim.ui.input`, which asks the user for a text and hands it to
    /// `callback`.
    ///
    /// [Neovim doc](https://neovim.io/doc/user/lua.html#vim.ui.input%28%29)
    pub fn input<H>(&self, opts: InputOpts, callback: H) -> (c: LuaCall<H>)
        ensures
            c.function_model() == member(keys_model(self.path@), "input"@),
            c.args_model() == seq![opts.model::<H>(), LuaModel::Handle(callback)],
    {
        let mut args: Vec<LuaValue<H>> = Vec::new();
        push_value(&mut args, opts.to_lua());
        push_value(&mut args, LuaValue::Handle(callback));
        assert(values_model(args@) =~= seq![opts.model::<H>(), LuaModel::Handle(callback)]);
        call_member(&self.path, "input", args)
    }
}

/// `vim.*`: the table at `path` (empty for the global `vim`).
///
/// [Neovim doc](https://neovim.io/doc/user/lua.html#lua-stdlib)
#[derive(Debug, PartialEq)]
pub struct Vim {
    pub path: Vec<Key>,
}

impl Vim {
    /// The global `vim` table.
    pub fn new() -> (v: Vim)
        ensures
            v.path@.len() == 0,
    {
        Vim { path: Vec::new() }
    }

    /// `vim.api`: the functions of Neovim's API.
    pub fn api(&self) -> (r: Api)
        ensures
            keys_model(r.path@) == member(keys_model(self.path@), "api"@),
    {
        Api { path: path_push(&self.path, Key::name("api")) }
    }

    /// `vim.lsp`: the language server client.
    pub fn lsp(&self) -> (r: Lsp)
        ensures
            keys_model(r.path@) == member(keys_model(self.path@), "lsp"@),
    {
        Lsp { path: path_push(&self.path, Key::name("lsp")) }
    }

    /// `vim.fn`: the Vim script functions.
    pub fn fns(&self) -> (r: Fns)
        ensures
            keys_model(r.path@) == member(keys_model(self.path@), "fn"@),
    {
        Fns { path: path_push(&self.path, Key::name("fn")) }
    }

    /// `vim.g`: global variables.
    pub fn g(&self) -> (r: Variables)
        ensures
            keys_model(r.path@) == member(keys_model(self.path@), "g"@),
    {
        Variables { path: path_push(&self.path, Key::name("g")) }
    }

    /// `vim.b`: buffer variables.
    pub fn b(&self) -> (r: IndexedVariables)
        ensures
            keys_model(r.path@) == member(keys_model(self.path@), "b"@),
    {
        IndexedVariables { path: path_push(&self.path, Key::name("b")) }
    }

    /// `vim.w`: window variables.
    pub fn w(&self) -> (r: IndexedVariables)
        ensures
            keys_model(r.path@) == member(keys_model(self.path@), "w"@),
    {
        IndexedVariables { path: path_push(&self.path, Key::name("w")) }
    }

    /// `vim.t`: tab page variables.
    pub fn t(&self) -> (r: IndexedVariables)
        ensures
            keys_model(r.path@) == member(keys_model(self.path@), "t"@),
    {
        IndexedVariables { path: path_push(&self.path, Key::name("t")) }
    }

    /// `vim.v`: Vim variables.
    pub fn v(&self) -> (r: Variables)
        ensures
            keys_model(r.path@) == member(keys_model(self.path@), "v"@),
    {
        Variables { path: path_push(&self.path, Key::name("v")) }
    }

    /// `vim.env`: environment variables.
    pub fn env(&self) -> (r: Env)
        ensures
            keys_model(r.path@) == member(keys_model(self.path@), "env"@),
    {
        Env { path: path_push(&self.path, Key::name("env")) }
    }

    /// `vim.opt`: options.
    pub fn opt(&self) -> (r: Opt)
        ensures
            keys_model(r.path@) == member(keys_model(self.path@), "opt"@),
    {
        Opt { path: path_push(&self.path, Key::name("opt")) }
    }

    /// `vim.opt_local`: local options.
    pub fn opt_local(&self) -> (r: Opt)
        ensures
            keys_model(r.path@) == member(keys_model(self.path@), "opt_local"@),
    {
        Opt { path: path_push(&self.path, Key::name("opt_local")) }
    }

    /// `vim.opt_global`: global options.
    pub fn opt_global(&self) -> (r: Opt)
        ensures
            keys_model(r.path@) == member(keys_model(self.path@), "opt_global"@),
    {
        Opt { path: path_push(&self.path, Key::name("opt_global")) }
    }

    /// `vim.ui`: user interface functions.
    pub fn ui(&self) -> (r: Ui)
        ensures
            keys_model(r.path@) == member(keys_model(self.path@), "ui"@),
    {
        Ui { path: path_push(&self.path, Key::name("ui")) }
    }

    /// Calls `vim.notify`, which shows `value` to the user.
    ///
    /// [Neovim doc](https://neovim.io/doc/user/lua.html#vim.notify%28%29)
    pub fn notify<H>(&self, value: &str, level: LogLevel, opts: Option<H>) -> (c: LuaCall<H>)
        ensures
            c.function_model() == member(keys_model(self.path@), "notify"@),
            c.args_model() == seq![
                LuaModel::<H>::Str(value@),
                LuaModel::Integer(log_level_code(level)),
                match opts {
                    Some(t) => LuaModel::Handle(t),
                    None => LuaModel::Nil,
                },
            ],
    {
        let ghost o = opts;
        let mut args: Vec<LuaValue<H>> = Vec::new();
        push_value(&mut args, LuaValue::String(String::from_str(value)));
        push_value(&mut args, level.to_lua());
        let t = match opts {
            Some(t) => LuaValue::Handle(t),
            None => LuaValue::Nil,
        };
        push_value(&mut args, t);
        assert(values_model(args@) =~= seq![
            LuaModel::<H>::Str(value@),
            LuaModel::Integer(log_level_code(level)),
            match o {
                Some(t) => LuaModel::Handle(t),
                None => LuaModel::Nil,
            },
        ]);
        call_member(&self.path, "notify", args)
    }

    /// Calls `vim.inspect`, which describes `value` in a human-readable
    /// text.
    pub fn inspect<H>(&self, value: H) -> (c: LuaCall<H>)
        ensures
            c.function_model() == member(keys_model(self.path@), "inspect"@),
            c.args_model() == seq![LuaModel::Handle(value)],
    {
        let mut args: Vec<LuaValue<H>> = Vec::new();
        push_value(&mut args, LuaValue::Handle(value));
        assert(values_model(args@) =~= seq![LuaModel::Handle(value)]);
        call_member(&self.path, "inspect", args)
    }
}

} // verus!
