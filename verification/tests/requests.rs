use nvim::api::{
    Callback, Command, Mode, Nargs, NvimCreateAutocmdsOpts, NvimCreateUserCommandOpts,
    NvimGetAutocmdsOpts, NvimGetRuntimeOpts, NvimSetKeymapOpts, StrI64,
};
use nvim::common::Index;
use nvim::fns::PathType;
use nvim::lsp::Handler;
use nvim::lua::{Access, Action, Key, LuaValue};
use nvim::vim::InputOpts;
use nvim::{LogLevel, Vim};

fn name(s: &str) -> Key {
    Key::Name(s.to_string())
}

fn text<H>(s: &str) -> LuaValue<H> {
    LuaValue::String(s.to_string())
}

#[test]
fn index_encodes_buffer_numbers() {
    assert_eq!(Index::Current.to_lua::<u32>(), LuaValue::Integer(0));
    assert_eq!(Index::Index(7).to_lua::<u32>(), LuaValue::Integer(7));
    assert_eq!(Index::from(12), Index::Index(12));
    // buffer 0 is, for Neovim, the current buffer
    assert_eq!(Index::Index(0).to_lua::<u32>(), Index::Current.to_lua::<u32>());
}

#[test]
fn mode_short_names() {
    let expected = [
        (Mode::NormalVisualSelectOperatorPending, ""),
        (Mode::Normal, "n"),
        (Mode::VisualSelect, "v"),
        (Mode::Select, "s"),
        (Mode::Visual, "x"),
        (Mode::OperatorPending, "o"),
        (Mode::InsertCommandline, "!"),
        (Mode::Insert, "i"),
        (Mode::InsertCommandLineLangArg, "l"),
        (Mode::CommandLine, "c"),
        (Mode::Terminal, "t"),
    ];
    for (mode, short) in expected {
        assert_eq!(mode.short_name(), short);
        assert_eq!(mode.to_lua::<u32>(), text(short));
        assert_eq!(Mode::parse(short), Some(mode));
        assert_eq!(Mode::parse(mode.variant_name()), Some(mode));
    }
}

#[test]
fn mode_parse_rejects_unknown_names() {
    assert_eq!(Mode::parse("normal"), None);
    assert_eq!(Mode::parse("nn"), None);
    assert_eq!(Mode::parse("N"), None);
    assert_eq!(Mode::parse("Insert"), Some(Mode::Insert));
    assert_eq!(Mode::parse("InsertCommandline"), Some(Mode::InsertCommandline));
}

#[test]
fn nargs_values() {
    assert_eq!(Nargs::default(), Nargs::Zero);
    assert_eq!(Nargs::Zero.to_lua::<u32>(), LuaValue::Integer(0));
    assert_eq!(Nargs::One.to_lua::<u32>(), LuaValue::Integer(1));
    assert_eq!(Nargs::Any.to_lua::<u32>(), text("*"));
    assert_eq!(Nargs::NoneOrOne.to_lua::<u32>(), text("?"));
    assert_eq!(Nargs::OneOrMore.to_lua::<u32>(), text("+"));
}

#[test]
fn log_levels_and_path_types() {
    let levels = [LogLevel::Trace, LogLevel::Debug, LogLevel::Info, LogLevel::Warn, LogLevel::Error];
    for (i, l) in levels.iter().enumerate() {
        assert_eq!(l.code(), i as i64);
        assert_eq!(l.to_lua::<u32>(), LuaValue::Integer(i as i64));
    }
    assert_eq!(PathType::Cache.name(), "cache");
    assert_eq!(PathType::Config.name(), "config");
    assert_eq!(PathType::Data.name(), "data");
    assert_eq!(PathType::Log.name(), "log");
    assert_eq!(PathType::State.to_lua::<u32>(), text("state"));
}

#[test]
fn group_command_and_callback_values() {
    assert_eq!(StrI64::from(3).to_lua::<u32>(), LuaValue::Integer(3));
    assert_eq!(StrI64::from("grp".to_string()).to_lua::<u32>(), text("grp"));
    assert_eq!(Command::<u32>::from("echo 1".to_string()).to_lua(), text("echo 1"));
    assert_eq!(Command::Lua(9u32).to_lua(), LuaValue::Handle(9));
    assert_eq!(Callback::<u32>::from("echo 2".to_string()).to_lua(), text("echo 2"));
    assert_eq!(Callback::Lua(4u32).to_lua(), LuaValue::Handle(4));
    assert_eq!(Handler::Ignore.to_lua(1u32), LuaValue::Handle(1));
    assert_eq!(Handler::Default.to_lua(1u32), LuaValue::Nil);
    assert_eq!(Handler::LuaFunction(5u32).to_lua(1), LuaValue::Handle(5));
}

#[test]
fn keymap_options_table() {
    let opts = NvimSetKeymapOpts::<u32>::builder().silent(true).desc("say hi".to_string()).build();
    assert!(opts.silent);
    assert!(!opts.noremap);
    assert_eq!(opts.desc, Some("say hi".to_string()));
    assert_eq!(
        opts.to_lua(),
        LuaValue::Table(vec![
            ("nowait".to_string(), LuaValue::Boolean(false)),
            ("silent".to_string(), LuaValue::Boolean(true)),
            ("script".to_string(), LuaValue::Boolean(false)),
            ("expr".to_string(), LuaValue::Boolean(false)),
            ("unique".to_string(), LuaValue::Boolean(false)),
            ("noremap".to_string(), LuaValue::Boolean(false)),
            ("desc".to_string(), text("say hi")),
        ])
    );
    let with_callback = NvimSetKeymapOpts::builder().callback(8u32).noremap(true).build();
    match with_callback.to_lua() {
        LuaValue::Table(entries) => {
            assert_eq!(entries.len(), 7);
            assert_eq!(entries[5], ("noremap".to_string(), LuaValue::Boolean(true)));
            assert_eq!(entries[6], ("callback".to_string(), LuaValue::Handle(8)));
        }
        other => panic!("not a table: {:?}", other),
    }
}

#[test]
fn builder_keeps_the_last_value_of_a_field() {
    let opts = NvimCreateUserCommandOpts::builder()
        .force(true)
        .force(false)
        .nargs(Nargs::Any)
        .build();
    assert_eq!(opts.force, Some(false));
    assert_eq!(
        opts.to_lua::<u32>(),
        LuaValue::Table(vec![
            ("nargs".to_string(), text("*")),
            ("force".to_string(), LuaValue::Boolean(false)),
        ])
    );
}

#[test]
fn default_options_tables() {
    assert_eq!(
        NvimGetRuntimeOpts::builder().build().to_lua::<u32>(),
        LuaValue::Table(vec![("is_lua".to_string(), LuaValue::Boolean(false))])
    );
    assert_eq!(NvimGetAutocmdsOpts::builder().build().to_lua::<u32>(), LuaValue::Table(vec![]));
    assert_eq!(InputOpts::builder().build().to_lua::<u32>(), LuaValue::Table(vec![]));
    assert_eq!(
        NvimCreateAutocmdsOpts::<u32>::builder().build().to_lua(),
        LuaValue::Table(vec![
            ("once".to_string(), LuaValue::Boolean(false)),
            ("nested".to_string(), LuaValue::Boolean(false)),
        ])
    );
}

#[test]
fn autocmd_options_table() {
    let opts = NvimCreateAutocmdsOpts::builder()
        .group(StrI64::Integer(2))
        .pattern(vec!["*.rs".to_string(), "*.toml".to_string()])
        .callback(Callback::Lua(3u32))
        .once(true)
        .build();
    assert_eq!(
        opts.to_lua(),
        LuaValue::Table(vec![
            ("group".to_string(), LuaValue::Integer(2)),
            (
                "pattern".to_string(),
                LuaValue::Array(vec![text("*.rs"), text("*.toml")])
            ),
            ("callback".to_string(), LuaValue::Handle(3)),
            ("once".to_string(), LuaValue::Boolean(true)),
            ("nested".to_string(), LuaValue::Boolean(false)),
        ])
    );
}

#[test]
fn api_calls() {
    let vim = Vim::new();
    let api = vim.api();
    let call = api.nvim_exec::<u32>("echo 1", true);
    assert_eq!(call.function, vec![name("api"), name("nvim_exec")]);
    assert_eq!(call.args, vec![text("echo 1"), LuaValue::Boolean(true)]);

    let keymap = api.nvim_set_keymap(
        Mode::Normal,
        "<leader>x",
        ":x<cr>",
        NvimSetKeymapOpts::<u32>::builder().build(),
    );
    assert_eq!(keymap.function, vec![name("api"), name("nvim_set_keymap")]);
    assert_eq!(keymap.args.len(), 4);
    assert_eq!(keymap.args[0], text("n"));
    assert_eq!(keymap.args[1], text("<leader>x"));
    assert_eq!(keymap.args[2], text(":x<cr>"));

    let files = api.nvim_get_runtime_file::<u32>("colors/*.vim", false);
    assert_eq!(files.args, vec![text("colors/*.vim"), LuaValue::Boolean(false)]);

    let runtime = api.nvim__get_runtime::<u32>(&["lua/a.lua", "lua/b.lua"], true, NvimGetRuntimeOpts::builder().is_lua(true).build());
    assert_eq!(runtime.function, vec![name("api"), name("nvim__get_runtime")]);
    assert_eq!(runtime.args[0], LuaValue::Array(vec![text("lua/a.lua"), text("lua/b.lua")]));
    assert_eq!(runtime.args[2], LuaValue::Table(vec![("is_lua".to_string(), LuaValue::Boolean(true))]));

    let command = api.nvim_buf_create_user_command(
        Index::Current,
        "Hello".to_string(),
        Command::<u32>::VimScript("echo 'hello'".to_string()),
        NvimCreateUserCommandOpts::builder().build(),
    );
    assert_eq!(command.args[0], LuaValue::Integer(0));
    assert_eq!(command.args[1], text("Hello"));
    assert_eq!(command.args[2], text("echo 'hello'"));
    assert_eq!(command.args[3], LuaValue::Table(vec![("nargs".to_string(), LuaValue::Integer(0))]));

    let autocmd = api.nvim_create_autocmd(
        vec!["BufEnter".to_string()],
        NvimCreateAutocmdsOpts::<u32>::builder().command("echo 1".to_string()).build(),
    );
    assert_eq!(autocmd.args[0], LuaValue::Array(vec![text("BufEnter")]));

    let listed = api.nvim_get_autocmds::<u32>(NvimGetAutocmdsOpts::builder().event(vec!["BufEnter".to_string()]).build());
    assert_eq!(
        listed.args,
        vec![LuaValue::Table(vec![("event".to_string(), LuaValue::Array(vec![text("BufEnter")]))])]
    );
}

#[test]
fn other_calls() {
    let vim = Vim::new();
    let reg = vim.fns().getreg::<u32>("a");
    assert_eq!(reg.function, vec![name("fn"), name("getreg")]);
    assert_eq!(reg.args, vec![text("a")]);
    let path = vim.fns().stdpath::<u32>(PathType::Config);
    assert_eq!(path.function, vec![name("fn"), name("stdpath")]);
    assert_eq!(path.args, vec![text("config")]);

    let note = vim.notify::<u32>("done", LogLevel::Warn, None);
    assert_eq!(note.function, vec![name("notify")]);
    assert_eq!(note.args, vec![text("done"), LuaValue::Integer(3), LuaValue::Nil]);

    let inspect = vim.inspect(6u32);
    assert_eq!(inspect.function, vec![name("inspect")]);
    assert_eq!(inspect.args, vec![LuaValue::Handle(6)]);

    let input = vim.ui().input(InputOpts::builder().prompt("Name: ".to_string()).build(), 2u32);
    assert_eq!(input.function, vec![name("ui"), name("input")]);
    assert_eq!(
        input.args,
        vec![LuaValue::Table(vec![("prompt".to_string(), text("Name: "))]), LuaValue::Handle(2)]
    );

    let request = vim.lsp().buf_request(
        Index::Index(3),
        "textDocument/hover".to_string(),
        None,
        Handler::Default,
        0u32,
    );
    assert_eq!(request.function, vec![name("lsp"), name("buf_request")]);
    assert_eq!(
        request.args,
        vec![LuaValue::Integer(3), text("textDocument/hover"), LuaValue::Nil, LuaValue::Nil]
    );
}

#[test]
fn variable_accesses() {
    let vim = Vim::new();
    let g = vim.g();
    assert_eq!(g.get("loaded"), Access { path: vec![name("g"), name("loaded")], action: Action::Read });
    assert_eq!(g.set("loaded"), Access { path: vec![name("g"), name("loaded")], action: Action::Write });
    assert_eq!(g.unset("loaded"), Access { path: vec![name("g"), name("loaded")], action: Action::Clear });
    assert_eq!(vim.v().get("count").path, vec![name("v"), name("count")]);

    let b = vim.b();
    assert_eq!(
        b.get(Index::Index(4), "var"),
        Access { path: vec![name("b"), Key::Number(4), name("var")], action: Action::Read }
    );
    assert_eq!(
        b.set(Index::Current, "var"),
        Access { path: vec![name("b"), name("var")], action: Action::Write }
    );
    assert_eq!(vim.w().unset(Index::Index(1000), "x").path, vec![name("w"), Key::Number(1000), name("x")]);
    assert_eq!(vim.t().unset(Index::Current, "x").action, Action::Clear);

    let env = vim.env();
    assert_eq!(env.get("HOME").path, vec![name("env"), name("HOME")]);
    assert_eq!(env.set("HOME").action, Action::Write);
    assert_eq!(env.unset("HOME").action, Action::Clear);
}

#[test]
fn option_accesses() {
    let vim = Vim::new();
    let opt = vim.opt();
    assert_eq!(
        opt.get("wildignore"),
        Access { path: vec![name("opt"), name("wildignore")], action: Action::CallMethod("get".to_string()) }
    );
    assert_eq!(opt.set("number").action, Action::Write);
    assert_eq!(opt.append("wildignore").action, Action::CallMethod("append".to_string()));
    assert_eq!(opt.prepend("wildignore").action, Action::CallMethod("prepend".to_string()));
    assert_eq!(opt.remove("wildignore").action, Action::CallMethod("remove".to_string()));
    assert_eq!(vim.opt_local().get("tw").path, vec![name("opt_local"), name("tw")]);
    assert_eq!(vim.opt_global().get("tw").path, vec![name("opt_global"), name("tw")]);
}

#[test]
fn distinct_variables_are_distinct_places() {
    let vim = Vim::new();
    let b = vim.b();
    assert_ne!(b.get(Index::Index(0), "x").path, b.get(Index::Current, "x").path);
    assert_ne!(b.get(Index::Index(1), "x").path, b.get(Index::Index(2), "x").path);
    assert_ne!(b.get(Index::Index(1), "x").path, b.get(Index::Index(1), "y").path);
    assert_ne!(vim.g().get("x").path, vim.g().get("y").path);
    // reading a variable reads the place that setting and unsetting it write
    assert_eq!(vim.g().get("x").path, vim.g().set("x").path);
    assert_eq!(b.get(Index::Index(5), "x").path, b.unset(Index::Index(5), "x").path);
}

#[test]
fn environment_text_assignment() {
    let vim = Vim::new();
    let a = vim.env().set_text::<u32>("EDITOR", "nvim");
    assert_eq!(a.path, vec![name("env"), name("EDITOR")]);
    assert_eq!(a.value, text("nvim"));
    let n = vim.env().set_text::<u32>("N", "42");
    assert_eq!(n.value, text("42"));
}

#[test]
fn mode_indices() {
    assert_eq!(Mode::from_index(0), Some(Mode::NormalVisualSelectOperatorPending));
    assert_eq!(Mode::from_index(1), Some(Mode::Normal));
    assert_eq!(Mode::from_index(10), Some(Mode::Terminal));
    assert_eq!(Mode::from_index(11), None);
}
