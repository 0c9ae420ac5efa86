use nvim::macros::{api, expand_item, scan_keyword, ApiDefinition, ApiError, ApiItem, Attr, ItemKind, Param};
use nvim::syntax::{expand_api_input, parse_api_input, ApiInputError, ApiParseError};
use nvim::text::{chars_of, join_text, same_text, starts_with};

/// An attribute as `#[name]` or `#[name = "value"]` writes it (a doc
/// comment when the name is `doc`).
fn attr(name: &str, value: Option<&str>) -> Attr {
    let args = match value {
        Some(v) if name != "doc" => format!("= \"{}\"", v),
        _ => String::new(),
    };
    Attr { name: name.to_string(), value: value.map(|v| v.to_string()), args }
}

fn raw_attr(name: &str, value: Option<&str>, args: &str) -> Attr {
    Attr { name: name.to_string(), value: value.map(|v| v.to_string()), args: args.to_string() }
}

fn item(ident: &str, kind: ItemKind, attrs: Vec<Attr>) -> ApiItem {
    ApiItem { attrs, ident: ident.to_string(), kind, params: vec![], ty: None, body: None }
}

const LUA: &str = "https://neovim.io/doc/user/lua.html";

fn vim_definition() -> ApiDefinition {
    ApiDefinition {
        attrs: vec![attr("doc", Some(" `vim.*`")), attr("prefixed", None)],
        ident: "Vim".to_string(),
        base: LUA.to_string(),
        section: Some("lua-stdlib".to_string()),
        items: vec![
            item("api", ItemKind::Field, vec![]),
            item("lsp", ItemKind::Field, vec![attr("link", Some("https://neovim.io/doc/user/lsp.html#LSP"))]),
            item("fns", ItemKind::Field, vec![attr("sec", Some("vim.fn")), attr("alias", Some("fn"))]),
            item("notify", ItemKind::Function, vec![attr("doc", Some(" Display a notification to the user"))]),
            item("opt", ItemKind::Field, vec![attr("s", Some("lua-vim-opt"))]),
        ],
    }
}

#[test]
fn vim_definition_expands() {
    let e = api(&vim_definition()).unwrap();
    assert_eq!(e.doc, format!("[Neovim doc]({}#lua-stdlib)", LUA));
    assert_eq!(e.attrs, vec![attr("doc", Some(" `vim.*`"))]);
    assert_eq!(e.items.len(), 5);
    assert_eq!(e.items[0].doc, format!("\n\n[Neovim doc]({}#vim.api)", LUA));
    assert_eq!(e.items[0].key, "api");
    assert_eq!(e.items[0].attrs, vec![]);
    assert_eq!(e.items[1].doc, "\n\n[Neovim doc](https://neovim.io/doc/user/lsp.html#LSP)");
    assert_eq!(e.items[2].doc, format!("\n\n[Neovim doc]({}#vim.fn)", LUA));
    assert_eq!(e.items[2].attrs, vec![attr("alias", Some("fn"))]);
    assert_eq!(e.items[2].key, "fns");
    assert_eq!(e.items[3].doc, format!("\n\n[Neovim doc]({}#vim.notify%28%29)", LUA));
    assert_eq!(e.items[3].kind, ItemKind::Function);
    assert_eq!(e.items[3].attrs, vec![attr("doc", Some(" Display a notification to the user"))]);
    assert_eq!(e.items[4].doc, format!("\n\n[Neovim doc]({}#lua-vim-opt)", LUA));
}

#[test]
fn unprefixed_definition() {
    let def = ApiDefinition {
        attrs: vec![],
        ident: "Fns".to_string(),
        base: "https://neovim.io/doc/user/builtin.html".to_string(),
        section: Some("builtin-functions".to_string()),
        items: vec![
            item("getreg", ItemKind::Function, vec![]),
            item("stdpath", ItemKind::Function, vec![]),
        ],
    };
    let e = api(&def).unwrap();
    assert_eq!(e.doc, "[Neovim doc](https://neovim.io/doc/user/builtin.html#builtin-functions)");
    assert_eq!(e.items[0].doc, "\n\n[Neovim doc](https://neovim.io/doc/user/builtin.html#getreg%28%29)");
    assert_eq!(e.items[1].key, "stdpath");
}

#[test]
fn definition_without_section_or_items() {
    let def = ApiDefinition {
        attrs: vec![],
        ident: "Variables".to_string(),
        base: LUA.to_string(),
        section: None,
        items: vec![],
    };
    let e = api(&def).unwrap();
    assert_eq!(e.doc, format!("[Neovim doc]({})", LUA));
    assert!(e.items.is_empty());
}

#[test]
fn prefix_attribute() {
    // with a value, the prefix is that value
    let x = expand_item(LUA, "Ui", "", &item("input", ItemKind::Function, vec![attr("prefix", Some("vim.ui."))])).unwrap();
    assert_eq!(x.doc, format!("\n\n[Neovim doc]({}#vim.ui.input%28%29)", LUA));
    // without a value, the prefix is the definition's name and a dot
    let y = expand_item(LUA, "Ui", "vim.", &item("input", ItemKind::Function, vec![attr("p", None)])).unwrap();
    assert_eq!(y.doc, format!("\n\n[Neovim doc]({}#Ui.input%28%29)", LUA));
    // the last prefix attribute wins
    let z = expand_item(LUA, "Ui", "", &item("k", ItemKind::Field, vec![attr("pre", Some("a.")), attr("prefix", Some("b."))])).unwrap();
    assert_eq!(z.doc, format!("\n\n[Neovim doc]({}#b.k)", LUA));
    // `prefixed` is not an abbreviation of `prefix`: it passes through
    let w = expand_item(LUA, "Ui", "", &item("k", ItemKind::Field, vec![attr("prefixed", None)])).unwrap();
    assert_eq!(w.attrs, vec![attr("prefixed", None)]);
    assert_eq!(w.doc, format!("\n\n[Neovim doc]({}#k)", LUA));
}

#[test]
fn attributes_without_values_are_refused() {
    let def = ApiDefinition {
        attrs: vec![],
        ident: "Vim".to_string(),
        base: LUA.to_string(),
        section: None,
        items: vec![
            item("ok", ItemKind::Field, vec![]),
            item("bad", ItemKind::Field, vec![attr("sect", None)]),
            item("worse", ItemKind::Field, vec![attr("link", None)]),
        ],
    };
    assert_eq!(api(&def), Err(ApiError::MissingValue("sect".to_string())));
    let only_link = expand_item(LUA, "Vim", "", &item("l", ItemKind::Field, vec![attr("l", None)]));
    assert_eq!(only_link, Err(ApiError::MissingValue("l".to_string())));
    // a section error comes before a link error
    let both = expand_item(LUA, "Vim", "", &item("l", ItemKind::Field, vec![attr("link", None), attr("section", None)]));
    assert_eq!(both, Err(ApiError::MissingValue("section".to_string())));
}

#[test]
fn keyword_scan() {
    let attrs = vec![
        attr("doc", Some("x")),
        attr("s", None),
        attr("sec", Some("one")),
        attr("section", Some("two")),
        attr("sections", Some("three")),
    ];
    let scan = scan_keyword(&attrs, "section");
    assert_eq!(scan.rest, vec![attr("doc", Some("x")), attr("sections", Some("three"))]);
    assert_eq!(scan.last, Some(attr("section", Some("two"))));
    assert_eq!(scan.missing, Some("s".to_string()));
}

#[test]
fn text_helpers() {
    assert_eq!(chars_of("héllo"), vec!['h', 'é', 'l', 'l', 'o']);
    assert!(starts_with("section", "sec"));
    assert!(starts_with("section", ""));
    assert!(!starts_with("section", "sections"));
    assert!(!starts_with("link", "lin k"));
    assert!(same_text("abc", "abc"));
    assert!(!same_text("abc", "ab"));
    assert_eq!(join_text("vim.", "api"), "vim.api");
}

fn param(name: &str, ty: &str) -> Param {
    Param { attrs: vec![], name: name.to_string(), by_ref: false, mutable: false, ty: ty.to_string() }
}

const VIM_INPUT: &str = r##"
    /// `vim.*`
    #[prefixed]
    Vim("https://neovim.io/doc/user/lua.html" # "lua-stdlib"){
        api: Api,
        #[link = "https://neovim.io/doc/user/lsp.html#LSP"]
        lsp: Lsp,
        #[sec = "vim.fn"]
        #[alias = "fn"]
        fns: Fns,
        // inspect(value: LuaValue) -> String
        /// Display a notification to the user
        notify(value: &str, level: LogLevel, opts: Option<LuaTable>) {
            #[derive(Debug, Clone, Copy, ToLua)]
            pub enum LogLevel {
                Trace = 0,
                Error = 4,
            }
        }
        #[s="lua-vim-opt"]
        opt: Opt,
        ui: Ui
    }
"##;

#[test]
fn parses_a_definition() {
    let defs = parse_api_input(VIM_INPUT).unwrap();
    assert_eq!(defs.len(), 1);
    let d = &defs[0];
    assert_eq!(d.ident, "Vim");
    assert_eq!(d.attrs, vec![attr("doc", Some(" `vim.*`")), attr("prefixed", None)]);
    assert_eq!(d.base, LUA);
    assert_eq!(d.section, Some("lua-stdlib".to_string()));
    let idents: Vec<&str> = d.items.iter().map(|i| i.ident.as_str()).collect();
    assert_eq!(idents, vec!["api", "lsp", "fns", "notify", "opt", "ui"]);
    assert_eq!(d.items[0].kind, ItemKind::Field);
    assert_eq!(d.items[0].ty, Some("Api".to_string()));
    assert_eq!(d.items[2].attrs, vec![attr("sec", Some("vim.fn")), attr("alias", Some("fn"))]);
    let notify = &d.items[3];
    assert_eq!(notify.kind, ItemKind::Function);
    assert_eq!(notify.attrs, vec![attr("doc", Some(" Display a notification to the user"))]);
    assert_eq!(
        notify.params,
        vec![param("value", "&str"), param("level", "LogLevel"), param("opts", "Option<LuaTable>")]
    );
    assert_eq!(notify.ty, None);
    let body = notify.body.clone().unwrap();
    assert!(body.contains("pub enum LogLevel"));
    assert!(body.trim_end().ends_with('\u{7d}'));
    assert_eq!(d.items[5].ty, Some("Ui".to_string()));
}

#[test]
fn expands_parsed_text() {
    let e = expand_api_input(VIM_INPUT).unwrap();
    assert_eq!(e.len(), 1);
    assert_eq!(e[0].doc, format!("[Neovim doc]({}#lua-stdlib)", LUA));
    assert_eq!(e[0].items[0].doc, format!("\n\n[Neovim doc]({}#vim.api)", LUA));
    assert_eq!(e[0].items[3].doc, format!("\n\n[Neovim doc]({}#vim.notify%28%29)", LUA));
    assert_eq!(e[0].items[3].params[1], param("level", "LogLevel"));
    assert_eq!(e[0].items[4].doc, format!("\n\n[Neovim doc]({}#lua-vim-opt)", LUA));
}

#[test]
fn parses_several_definitions_and_signatures() {
    let text = r##"
        Variables("https://neovim.io/doc/user/lua.html"#"lua-vim-variables")
        Env("https://neovim.io/doc/user/lua.html"#"vim.env")
        Fns("https://neovim.io/doc/user/builtin.html" # "builtin-functions") {
            getreg(regname: &str) -> String
            stdpath(path_type: PathType,) -> String { /* CLOSE */ "CLOSE" 'CLOSE' }
            buf_request(buffer: Buffer, params: Option<LuaTable<'lua>>, handler: Handler<'lua>) -> (Option<HashMap<String, String>>, LuaFunction<'lua>)
            nvim__get_runtime(pat: &[&str], all: bool, opts: NvimGetRuntimeOpts) -> LuaValue
            empty()
        }
    "##;
    let text = text.replace("CLOSE", "\u{7d}");
    let defs = parse_api_input(&text).unwrap();
    assert_eq!(defs.len(), 3);
    assert_eq!(defs[0].ident, "Variables");
    assert_eq!(defs[0].section, Some("lua-vim-variables".to_string()));
    assert!(defs[0].items.is_empty());
    assert_eq!(defs[1].section, Some("vim.env".to_string()));
    let fns = &defs[2];
    assert_eq!(fns.items.len(), 5);
    assert_eq!(fns.items[0].params, vec![param("regname", "&str")]);
    assert_eq!(fns.items[0].ty, Some("String".to_string()));
    assert_eq!(fns.items[1].params, vec![param("path_type", "PathType")]);
    assert_eq!(fns.items[1].body, Some(" /* \u{7d} */ \"\u{7d}\" '\u{7d}' ".to_string()));
    assert_eq!(fns.items[2].params[1], param("params", "Option<LuaTable<'lua>>"));
    assert_eq!(
        fns.items[2].ty,
        Some("(Option<HashMap<String, String>>, LuaFunction<'lua>)".to_string())
    );
    assert_eq!(fns.items[3].params[0], param("pat", "&[&str]"));
    assert!(fns.items[4].params.is_empty());
    assert_eq!(fns.items[4].body, None);
}

#[test]
fn string_escapes_and_comments() {
    let text = "//// plain comment\n/* block */ A(\"a\\\"b\\n\") { #[x = \"q\\\\\"] f: T, }";
    let defs = parse_api_input(text).unwrap();
    assert_eq!(defs[0].base, "a\"b\n");
    assert_eq!(defs[0].items[0].attrs, vec![raw_attr("x", Some("q\\"), "= \"q\\\\\"")]);
    assert_eq!(parse_api_input("").unwrap(), vec![]);
    assert_eq!(parse_api_input("  // only a comment\n").unwrap(), vec![]);
}

#[test]
fn texts_outside_the_grammar_are_refused() {
    let bad = [
        "A\u{28}\"x\"",
        "A(\"x\") { f() , }",
        "A(\"x\") { f: }",
        "A(1)",
        "A(\"x\" # ) {}",
        "A(\"x\") { f() \u{7b} }",
        "A(\"x\\q\")",
        "//! inner\nA(\"x\")",
    ];
    for text in bad {
        assert_eq!(parse_api_input(text), Err(ApiParseError::Syntax), "{}", text);
        assert_eq!(expand_api_input(text), Err(ApiInputError::Syntax), "{}", text);
    }
}

#[test]
fn missing_values_in_text() {
    let text = "A(\"x\") { f: T } B(\"y\") { #[section] g: T } C(\"z\") { #[link] h: T }";
    assert_eq!(expand_api_input(text), Err(ApiInputError::MissingValue("section".to_string())));
}

#[test]
fn attributes_with_paths_and_arguments() {
    let text = r##"A("x") {
        #[allow(unused)] #[a::b] #[::c = "v" ] #[prefix = 1] f: T,
        #[prefix(x)] g: T,
        #[r#prefix] h: T
    }"##;
    let defs = parse_api_input(text).unwrap();
    let items = &defs[0].items;
    assert_eq!(
        items[0].attrs,
        vec![
            raw_attr("allow", None, "(unused)"),
            raw_attr("a::b", None, ""),
            raw_attr("::c", Some("v"), "= \"v\" "),
            raw_attr("prefix", None, "= 1"),
        ]
    );
    assert_eq!(items[1].attrs, vec![raw_attr("prefix", None, "(x)")]);
    assert_eq!(items[2].attrs, vec![raw_attr("r#prefix", None, "")]);
    let e = expand_api_input(text).unwrap();
    assert_eq!(e[0].items[0].attrs, items[0].attrs[..3].to_vec());
    assert_eq!(e[0].items[0].doc, "\n\n[Neovim doc](x#A.f)");
    assert_eq!(e[0].items[1].doc, "\n\n[Neovim doc](x#A.g)");
    assert_eq!(e[0].items[2].doc, "\n\n[Neovim doc](x#h)");
    assert_eq!(e[0].items[2].attrs, vec![raw_attr("r#prefix", None, "")]);
    assert_eq!(
        expand_api_input("A(\"x\") { #[section(x)] f: T }"),
        Err(ApiInputError::MissingValue("section".to_string()))
    );
    assert_eq!(
        expand_api_input("A(\"x\") { #[link = \"a\" \"b\"] f: T }"),
        Err(ApiInputError::MissingValue("link".to_string()))
    );
}

#[test]
fn wider_types() {
    let text = r##"A("x") {
        a: dyn Fn(u8) -> u8 + Send,
        b: impl Iterator<Item = &'static str>,
        c: fn(u8, name: &str, ...) -> bool,
        d: [u8; 4 * N],
        e: <T as Trait<U>>::Out,
        f: *const [u8],
        g: !,
        h: _,
        i: Vec::<Box<dyn std::error::Error + 'static>>,
        j: m!(a, b),
        k: for<'a> fn(&'a u8),
        l: Array<u8, 3, { N + 1 }>,
        m: &'a mut (dyn A + Send)
        n(p: impl AsRef<str>) -> Option<Box<dyn FnOnce() -> R>>
    }"##;
    let defs = parse_api_input(text).unwrap();
    let tys: Vec<String> = defs[0].items.iter().map(|i| i.ty.clone().unwrap()).collect();
    assert_eq!(
        tys,
        vec![
            "dyn Fn(u8) -> u8 + Send",
            "impl Iterator<Item = &'static str>",
            "fn(u8, name: &str, ...) -> bool",
            "[u8; 4 * N]",
            "<T as Trait<U>>::Out",
            "*const [u8]",
            "!",
            "_",
            "Vec::<Box<dyn std::error::Error + 'static>>",
            "m!(a, b)",
            "for<'a> fn(&'a u8)",
            "Array<u8, 3, { N + 1 }>",
            "&'a mut (dyn A + Send)",
            "Option<Box<dyn FnOnce() -> R>>",
        ]
    );
    assert_eq!(defs[0].items[13].params, vec![param("p", "impl AsRef<str>")]);
    assert_eq!(defs[0].items[0].kind, ItemKind::Field);
    assert_eq!(defs[0].items[13].kind, ItemKind::Function);
}

#[test]
fn wider_string_literals() {
    let text = r###"A("\x41\u{1F600}\u{1_0}a\
        b") B(r"raw \n") C(r#"with "quote""#) { #[link = r"u"] f: T }"###;
    let defs = parse_api_input(text).unwrap();
    assert_eq!(defs[0].base, "A\u{1F600}\u{10}ab");
    assert_eq!(defs[1].base, "raw \\n");
    assert_eq!(defs[2].base, "with \"quote\"");
    assert_eq!(defs[2].items[0].attrs[0].value, Some("u".to_string()));
    let e = expand_api_input(text).unwrap();
    assert_eq!(e[2].items[0].doc, "\n\n[Neovim doc](u)");
    assert_eq!(parse_api_input("A(\"x\"suffix # \"s\"_y)").unwrap()[0].base, "x");
    assert_eq!(parse_api_input("A(\"x\"suffix # \"s\"_y)").unwrap()[0].section, Some("s".to_string()));
    for bad in [r#"A("\x80")"#, r#"A("\u{D800}")"#, r#"A("\u{}")"#, r#"A("\u{1234567}")"#] {
        assert_eq!(parse_api_input(bad), Err(ApiParseError::Syntax), "{}", bad);
    }
}

#[test]
fn nested_and_doc_block_comments() {
    let text = "/* outer /* inner */ still */ /** block doc */ A(\"x\") { /// line\n /**doc2*/ f: T /**/ }";
    let defs = parse_api_input(text).unwrap();
    assert_eq!(defs[0].attrs, vec![attr("doc", Some(" block doc "))]);
    assert_eq!(defs[0].items[0].attrs, vec![attr("doc", Some(" line")), attr("doc", Some("doc2"))]);
    assert_eq!(parse_api_input("/*** plain */ A(\"x\")").unwrap()[0].attrs, vec![]);
    for bad in ["/*! inner */ A(\"x\")", "/* unclosed A(\"x\")", "A(\"x\") /* unclosed"] {
        assert_eq!(parse_api_input(bad), Err(ApiParseError::Syntax), "{}", bad);
    }
}

#[test]
fn parameter_patterns_and_names() {
    let text = "A(\"x\") { f(mut a: T, ref b: U, ref mut c: V, r#type: W) r#type: X g(#[cfg(x)] /// d\n y: Y) }";
    let defs = parse_api_input(text).unwrap();
    let p = |name: &str, by_ref: bool, mutable: bool, ty: &str| Param {
        attrs: vec![],
        name: name.to_string(),
        by_ref,
        mutable,
        ty: ty.to_string(),
    };
    assert_eq!(
        defs[0].items[0].params,
        vec![p("a", false, true, "T"), p("b", true, false, "U"), p("c", true, true, "V"), p("r#type", false, false, "W")]
    );
    assert_eq!(defs[0].items[1].ident, "r#type");
    let g = &defs[0].items[2].params[0];
    assert_eq!(g.attrs, vec![raw_attr("cfg", None, "(x)"), attr("doc", Some(" d"))]);
    assert_eq!((g.name.as_str(), g.ty.as_str()), ("y", "Y"));
    let e = expand_api_input(text).unwrap();
    assert_eq!(e[0].items[1].key, "r#type");
    assert_eq!(e[0].items[1].doc, "\n\n[Neovim doc](x#r#type)");
    for bad in [
        "A(\"x\") { f(_: T) }",
        "A(\"x\") { f(self: T) }",
        "A(\"x\") { f(type: T) }",
        "A(\"x\") { f(r#self: T) }",
        "A(\"x\") { type: T }",
        "A(\"x\") { fn: T }",
        "struct(\"x\")",
        "A(\"x\") { x: dyn }",
    ] {
        assert_eq!(parse_api_input(bad), Err(ApiParseError::Syntax), "{}", bad);
    }
}
