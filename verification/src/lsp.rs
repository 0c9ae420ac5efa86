//! `vim.lsp.*`: the language server client.
use vstd::prelude::*;
use crate::common::Index;
use crate::lua::{
    call_member, keys_model, member, push_value, values_model, Key, LuaCall, LuaModel, LuaValue,
};

verus! {

/// What handles the responses to a request.
#[derive(Debug, PartialEq)]
pub enum Handler<H> {
    /// A function that ignores the responses.
    Ignore,
    /// The client's default handler.
    Default,
    /// The given Lua function.
    LuaFunction(H),
}

impl<H> Handler<H> {
    /// The Lua value of this handler, where `ignore` is a function that
    /// returns `nil`.
    pub open spec fn model(&self, ignore: H) -> LuaModel<H> {
        match self {
            Handler::Ignore => LuaModel::Handle(ignore),
            Handler::Default => LuaModel::Nil,
            Handler::LuaFunction(f) => LuaModel::Handle(*f),
        }
    }

    /// The Lua value of this handler, where `ignore` is a function that
    /// returns `nil`.
    pub fn to_lua(self, ignore: H) -> (v: LuaValue<H>)
        ensures
            v.model() == self.model(ignore),
    {
        match self {
            Handler::Ignore => LuaValue::Handle(ignore),
            Handler::Default => LuaValue::Nil,
            Handler::LuaFunction(f) => LuaValue::Handle(f),
        }
    }
}

/// `vim.lsp.*`: the table at `path`.
///
/// [Neovim doc](https://neovim.io/doc/user/lsp.html#LSP)
#[derive(Debug, PartialEq)]
pub struct Lsp {
    pub path: Vec<Key>,
}

impl Lsp {
    /// Calls `buf_request`, which sends an async request for all active
    /// clients attached to the buffer; Neovim answers with the ids of the
    /// clients that were sent the request and a function that cancels it.
    /// `ignore` is a function that returns `nil`, for [`Handler::Ignore`].
    ///
    /// [Neovim doc](https://neovim.io/doc/user/lsp.html#vim.lsp.buf_request%28%29)
    pub fn buf_request<H>(
        &self,
        buffer: Index,
        method: String,
        params: Option<H>,
        handler: Handler<H>,
        ignore: H,
    ) -> (c: LuaCall<H>)
        ensures
            c.function_model() == member(keys_model(self.path@), "buf_request"@),
            c.args_model() == seq![
                LuaModel::<H>::Integer(buffer.number()),
                LuaModel::Str(method@),
                match params {
                    Some(t) => LuaModel::Handle(t),
                    None => LuaModel::Nil,
                },
                handler.model(ignore),
            ],
    {
        let ghost p = params;
        let ghost h = handler;
        let mut args: Vec<LuaValue<H>> = Vec::new();
        push_value(&mut args, buffer.to_lua());
        push_value(&mut args, LuaValue::String(method));
        let t = match params {
            Some(t) => LuaValue::Handle(t),
            None => LuaValue::Nil,
        };
        push_value(&mut args, t);
        push_value(&mut args, handler.to_lua(ignore));
        assert(values_model(args@) =~= seq![
            LuaModel::<H>::Integer(buffer.number()),
            LuaModel::Str(method@),
            match p {
                Some(t) => LuaModel::Handle(t),
                None => LuaModel::Nil,
            },
            h.model(ignore),
        ]);
        call_member(&self.path, "buf_request", args)
    }
}

} // verus!
