//! `vim.fn.*`: Vim script functions.
use vstd::prelude::*;
use crate::lua::{
    call_member, keys_model, member, push_value, values_model, Key, LuaCall, LuaModel, LuaValue,
};

verus! {

/// A kind of directory that `stdpath` locates.
#[derive(Debug, Clone, Copy, PartialEq, Eq, Structural)]
pub enum PathType {
    Cache,
    Config,
    Data,
    Log,
    State,
}

/// The name by which `stdpath` knows a kind of directory.
pub open spec fn path_type_name(p: PathType) -> Seq<char> {
    match p {
        PathType::Cache => "cache"@,
        PathType::Config => "config"@,
        PathType::Data => "data"@,
        PathType::Log => "log"@,
        PathType::State => "state"@,
    }
}

impl PathType {
    /// The name by which `stdpath` knows this kind of directory.
    pub fn name(&self) -> (s: &'static str)
        ensures
            s@ == path_type_name(*self),
    {
        match self {
            PathType::Cache => "cache",
            PathType::Config => "config",
            PathType::Data => "data",
            PathType::Log => "log",
            PathType::State => "state",
        }
    }

    /// The Lua value of this kind: its name.
    pub fn to_lua<H>(&self) -> (v: LuaValue<H>)
        ensures
            v.model() == LuaModel::<H>::Str(path_type_name(*self)),
    {
        LuaValue::String(String::from_str(self.name()))
    }
}

/// Distinct kinds of directory have distinct names.
pub proof fn lemma_path_type_names_distinct(a: PathType, b: PathType)
    ensures
        path_type_name(a) == path_type_name(b) ==> a == b,
{
    reveal_strlit("cache");
    reveal_strlit("config");
    reveal_strlit("data");
    reveal_strlit("log");
    reveal_strlit("state");
    if a != b {
        assert(path_type_name(a).len() != path_type_name(b).len() || path_type_name(a)[1]
            != path_type_name(b)[1]);
    }
}

/// `vim.fn.*`: the Vim script functions, as calls of the members of the
/// table at `path`.
///
/// [Neovim doc](https://neovim.io/doc/user/builtin.html#builtin-functions)
#[derive(Debug, PartialEq)]
pub struct Fns {
    pub path: Vec<Key>,
}

impl Fns {
    /// Calls `getreg`; Neovim answers with the contents of the register.
    ///
    /// [Neovim doc](https://neovim.io/doc/user/builtin.html#getreg%28%29)
    pub fn getreg<H>(&self, regname: &str) -> (c: LuaCall<H>)
        ensures
            c.function_model() == member(keys_model(self.path@), "getreg"@),
            c.args_model() == seq![LuaModel::<H>::Str(regname@)],
    {
        let mut args: Vec<LuaValue<H>> = Vec::new();
        push_value(&mut args, LuaValue::String(String::from_str(regname)));
        assert(values_model(args@) =~= seq![LuaModel::<H>::Str(regname@)]);
        call_member(&self.path, "getreg", args)
    }

    /// Calls `stdpath`; Neovim answers with the path of the directory.
    ///
    /// [Neovim doc](https://neovim.io/doc/user/builtin.html#stdpath%28%29)
    pub fn stdpath<H>(&self, path_type: PathType) -> (c: LuaCall<H>)
        ensures
            c.function_model() == member(keys_model(self.path@), "stdpath"@),
            c.args_model() == seq![LuaModel::<H>::Str(path_type_name(path_type))],
    {
        let mut args: Vec<LuaValue<H>> = Vec::new();
        push_value(&mut args, path_type.to_lua());
        assert(values_model(args@) =~= seq![LuaModel::<H>::Str(path_type_name(path_type))]);
        call_member(&self.path, "stdpath", args)
    }
}

} // verus!
