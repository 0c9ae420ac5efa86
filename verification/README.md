# nvim

Typed access to Neovim's Lua API (`vim.*`), verified with Verus.

- `src/` is the verified library. It describes the requests made of the
  Neovim Lua runtime — which place of the `vim` table is read or written
  (`lua::Access`), which function is called with which arguments
  (`lua::LuaCall`) — and how the library's values (modes, option tables,
  buffer indices, ...) look as Lua values (`lua::LuaValue`). `macros::api`
  holds the rules by which an API definition becomes documented members;
  `syntax` reads such definitions from text (attributes, the name with its
  base table and section, fields and functions with their parameters,
  return types and bodies) by a grammar written out as spec functions.
  Every public function states its result exactly in its contract.
- `app/` runs those requests against a live runtime through `mlua`: it walks
  the paths, performs the reads, writes and calls, and converts values.
- `tests/` exercise the library on concrete values.
