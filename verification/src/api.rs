//! `vim.api.*`: the values that the functions of Neovim's API take and
//! return, and the calls themselves.
use vstd::prelude::*;
use crate::lua::{
    call_member, keys_model, member, push_value, strs_to_lua, values_model, Key, LuaCall,
    entry, fields_model, opt_entry, opt_str, opt_string_to_lua, push_field, push_opt_field,
    strings_model, strings_to_lua, LuaModel, LuaValue, field_of, lemma_lookup_concat, lemma_lookup_entries,
};
use crate::common::Index;
use crate::text::same_text;

verus! {

/// The mode of a mapping, as `nvim_set_keymap` names it.
#[derive(Clone, Copy, Debug, PartialEq, Eq, Structural)]
pub enum Mode {
    NormalVisualSelectOperatorPending,
    Normal,
    VisualSelect,
    Select,
    Visual,
    OperatorPending,
    InsertCommandline,
    Insert,
    InsertCommandLineLangArg,
    CommandLine,
    Terminal,
}

/// The short name by which Neovim knows a mode.
pub open spec fn mode_short_name(m: Mode) -> Seq<char> {
    match m {
        Mode::NormalVisualSelectOperatorPending => ""@,
        Mode::Normal => "n"@,
        Mode::VisualSelect => "v"@,
        Mode::Select => "s"@,
        Mode::Visual => "x"@,
        Mode::OperatorPending => "o"@,
        Mode::InsertCommandline => "!"@,
        Mode::Insert => "i"@,
        Mode::InsertCommandLineLangArg => "l"@,
        Mode::CommandLine => "c"@,
        Mode::Terminal => "t"@,
    }
}

/// The name of the variant for a mode.
pub open spec fn mode_variant_name(m: Mode) -> Seq<char> {
    match m {
        Mode::NormalVisualSelectOperatorPending => "NormalVisualSelectOperatorPending"@,
        Mode::Normal => "Normal"@,
        Mode::VisualSelect => "VisualSelect"@,
        Mode::Select => "Select"@,
        Mode::Visual => "Visual"@,
        Mode::OperatorPending => "OperatorPending"@,
        Mode::InsertCommandline => "InsertCommandline"@,
        Mode::Insert => "Insert"@,
        Mode::InsertCommandLineLangArg => "InsertCommandLineLangArg"@,
        Mode::CommandLine => "CommandLine"@,
        Mode::Terminal => "Terminal"@,
    }
}

/// The position of a mode's variant in the order of declaration.
pub open spec fn mode_index(m: Mode) -> int {
    match m {
        Mode::NormalVisualSelectOperatorPending => 0,
        Mode::Normal => 1,
        Mode::VisualSelect => 2,
        Mode::Select => 3,
        Mode::Visual => 4,
        Mode::OperatorPending => 5,
        Mode::InsertCommandline => 6,
        Mode::Insert => 7,
        Mode::InsertCommandLineLangArg => 8,
        Mode::CommandLine => 9,
        Mode::Terminal => 10,
    }
}

/// The mode at a position, if any.
pub open spec fn mode_at_index(i: int) -> Option<Mode> {
    if i == 0 {
        Some(Mode::NormalVisualSelectOperatorPending)
    } else if i == 1 {
        Some(Mode::Normal)
    } else if i == 2 {
        Some(Mode::VisualSelect)
    } else if i == 3 {
        Some(Mode::Select)
    } else if i == 4 {
        Some(Mode::Visual)
    } else if i == 5 {
        Some(Mode::OperatorPending)
    } else if i == 6 {
        Some(Mode::InsertCommandline)
    } else if i == 7 {
        Some(Mode::Insert)
    } else if i == 8 {
        Some(Mode::InsertCommandLineLangArg)
    } else if i == 9 {
        Some(Mode::CommandLine)
    } else if i == 10 {
        Some(Mode::Terminal)
    } else {
        None
    }
}

/// The position of a mode gives back that mode.
pub proof fn lemma_mode_index_round_trip(m: Mode)
    ensures
        mode_at_index(mode_index(m)) == Some(m),
{
}

/// The mode that a text names, by its short name or by its variant's name.
pub open spec fn mode_named(t: Seq<char>) -> Option<Mode> {
    if exists|m: Mode| mode_short_name(m) == t || mode_variant_name(m) == t {
        Some(choose|m: Mode| mode_short_name(m) == t || mode_variant_name(m) == t)
    } else {
        None
    }
}

/// Each mode has its own short name and its own variant name, and no short
/// name is the variant name of a mode.
pub proof fn lemma_mode_names_distinct()
    ensures
        forall|m1: Mode, m2: Mode|
            #![trigger mode_short_name(m1), mode_short_name(m2)]
            mode_short_name(m1) == mode_short_name(m2) ==> m1 == m2,
        forall|m1: Mode, m2: Mode|
            #![trigger mode_variant_name(m1), mode_variant_name(m2)]
            mode_variant_name(m1) == mode_variant_name(m2) ==> m1 == m2,
        forall|m1: Mode, m2: Mode|
            #![trigger mode_short_name(m1), mode_variant_name(m2)]
            mode_short_name(m1) != mode_variant_name(m2),
{
    reveal_strlit("");
    reveal_strlit("NormalVisualSelectOperatorPending");
    reveal_strlit("n");
    reveal_strlit("Normal");
    reveal_strlit("v");
    reveal_strlit("VisualSelect");
    reveal_strlit("s");
    reveal_strlit("Select");
    reveal_strlit("x");
    reveal_strlit("Visual");
    reveal_strlit("o");
    reveal_strlit("OperatorPending");
    reveal_strlit("!");
    reveal_strlit("InsertCommandline");
    reveal_strlit("i");
    reveal_strlit("Insert");
    reveal_strlit("l");
    reveal_strlit("InsertCommandLineLangArg");
    reveal_strlit("c");
    reveal_strlit("CommandLine");
    reveal_strlit("t");
    reveal_strlit("Terminal");
    assert forall|m1: Mode, m2: Mode|
        mode_short_name(m1) == mode_short_name(m2) implies m1 == m2 by {
        if m1 != m2 {
            assert(mode_short_name(m1).len() != mode_short_name(m2).len()
                || mode_short_name(m1)[0] != mode_short_name(m2)[0]);
        }
    }
    assert forall|m1: Mode, m2: Mode|
        mode_variant_name(m1) == mode_variant_name(m2) implies m1 == m2 by {
        if m1 != m2 {
            assert(mode_variant_name(m1).len() != mode_variant_name(m2).len()
                || mode_variant_name(m1)[0] != mode_variant_name(m2)[0]
                || mode_variant_name(m1)[1] != mode_variant_name(m2)[1]
                || mode_variant_name(m1)[6] != mode_variant_name(m2)[6]);
        }
    }
    assert forall|m1: Mode, m2: Mode| mode_short_name(m1) != mode_variant_name(m2) by {
        assert(mode_short_name(m1).len() != mode_variant_name(m2).len());
    }
}

/// Reading back the name of a mode, short or long, gives that mode.
pub proof fn lemma_mode_parse_round_trip(m: Mode)
    ensures
        mode_named(mode_short_name(m)) == Some(m),
        mode_named(mode_variant_name(m)) == Some(m),
{
    lemma_mode_names_distinct();
    let t = mode_short_name(m);
    assert(mode_short_name(m) == t || mode_variant_name(m) == t);
    let c = choose|c: Mode| mode_short_name(c) == t || mode_variant_name(c) == t;
    assert(c == m);
    let u = mode_variant_name(m);
    assert(mode_short_name(m) == u || mode_variant_name(m) == u);
    let d = choose|d: Mode| mode_short_name(d) == u || mode_variant_name(d) == u;
    assert(d == m);
}

impl Mode {
    /// The short name by which Neovim knows this mode.
    pub fn short_name(&self) -> (s: &'static str)
        ensures
            s@ == mode_short_name(*self),
    {
        match self {
            Mode::NormalVisualSelectOperatorPending => "",
            Mode::Normal => "n",
            Mode::VisualSelect => "v",
            Mode::Select => "s",
            Mode::Visual => "x",
            Mode::OperatorPending => "o",
            Mode::InsertCommandline => "!",
            Mode::Insert => "i",
            Mode::InsertCommandLineLangArg => "l",
            Mode::CommandLine => "c",
            Mode::Terminal => "t",
        }
    }

    /// The name of this mode's variant.
    pub fn variant_name(&self) -> (s: &'static str)
        ensures
            s@ == mode_variant_name(*self),
    {
        match self {
            Mode::NormalVisualSelectOperatorPending => "NormalVisualSelectOperatorPending",
            Mode::Normal => "Normal",
            Mode::VisualSelect => "VisualSelect",
            Mode::Select => "Select",
            Mode::Visual => "Visual",
            Mode::OperatorPending => "OperatorPending",
            Mode::InsertCommandline => "InsertCommandline",
            Mode::Insert => "Insert",
            Mode::InsertCommandLineLangArg => "InsertCommandLineLangArg",
            Mode::CommandLine => "CommandLine",
            Mode::Terminal => "Terminal",
        }
    }

    /// The mode that `text` names, by its short name (such as `"n"`) or by
    /// its variant's name (such as `"Normal"`).
    pub fn parse(text: &str) -> (r: Option<Mode>)
        ensures
            r == mode_named(text@),
    {
        proof {
            lemma_mode_names_distinct();
        }
        let r = parse_mode(text);
        proof {
            match r {
                Some(m) => {
                    assert(mode_short_name(m) == text@ || mode_variant_name(m) == text@);
                },
                None => {},
            }
        }
        r
    }

    /// The mode at position `index` in the order in which the variants are
    /// declared (from `0`), if there is one.
    pub fn from_index(index: u64) -> (r: Option<Mode>)
        ensures
            r == mode_at_index(index as int),
    {
        if index == 0 {
            Some(Mode::NormalVisualSelectOperatorPending)
        } else if index == 1 {
            Some(Mode::Normal)
        } else if index == 2 {
            Some(Mode::VisualSelect)
        } else if index == 3 {
            Some(Mode::Select)
        } else if index == 4 {
            Some(Mode::Visual)
        } else if index == 5 {
            Some(Mode::OperatorPending)
        } else if index == 6 {
            Some(Mode::InsertCommandline)
        } else if index == 7 {
            Some(Mode::Insert)
        } else if index == 8 {
            Some(Mode::InsertCommandLineLangArg)
        } else if index == 9 {
            Some(Mode::CommandLine)
        } else if index == 10 {
            Some(Mode::Terminal)
        } else {
            None
        }
    }

    /// The Lua value of this mode: its short name.
    pub fn to_lua<H>(&self) -> (v: LuaValue<H>)
        ensures
            v.model() == LuaModel::<H>::Str(mode_short_name(*self)),
    {
        LuaValue::String(String::from_str(self.short_name()))
    }
}

/// How many arguments a user command takes.
#[derive(Clone, Copy, Debug, PartialEq, Eq, Structural)]
pub enum Nargs {
    /// No argument (the default).
    Zero,
    /// Exactly one argument.
    One,
    /// Any number of arguments.
    Any,
    /// Zero or one argument.
    NoneOrOne,
    /// One or more arguments.
    OneOrMore,
}

/// The value of `nargs` that Neovim receives for each choice.
pub open spec fn nargs_model<H>(n: Nargs) -> LuaModel<H> {
    match n {
        Nargs::Zero => LuaModel::Integer(0),
        Nargs::One => LuaModel::Integer(1),
        Nargs::Any => LuaModel::Str("*"@),
        Nargs::NoneOrOne => LuaModel::Str("?"@),
        Nargs::OneOrMore => LuaModel::Str("+"@),
    }
}

impl Default for Nargs {
    fn default() -> (r: Nargs)
        ensures
            r == Nargs::Zero,
    {
        Nargs::Zero
    }
}

impl Nargs {
    /// The Lua value of this choice.
    pub fn to_lua<H>(&self) -> (v: LuaValue<H>)
        ensures
            v.model() == nargs_model::<H>(*self),
    {
        match self {
            Nargs::Zero => LuaValue::Integer(0),
            Nargs::One => LuaValue::Integer(1),
            Nargs::Any => LuaValue::String(String::from_str("*")),
            Nargs::NoneOrOne => LuaValue::String(String::from_str("?")),
            Nargs::OneOrMore => LuaValue::String(String::from_str("+")),
        }
    }
}

/// Distinct choices of `nargs` give Neovim distinct values.
pub proof fn lemma_nargs_distinct<H>(a: Nargs, b: Nargs)
    requires
        a != b,
    ensures
        nargs_model::<H>(a) != nargs_model::<H>(b),
{
    reveal_strlit("*");
    reveal_strlit("?");
    reveal_strlit("+");
    match (a, b) {
        (Nargs::Any, Nargs::NoneOrOne) | (Nargs::NoneOrOne, Nargs::Any) => {
            assert("*"@[0] != "?"@[0]);
        },
        (Nargs::Any, Nargs::OneOrMore) | (Nargs::OneOrMore, Nargs::Any) => {
            assert("*"@[0] != "+"@[0]);
        },
        (Nargs::NoneOrOne, Nargs::OneOrMore) | (Nargs::OneOrMore, Nargs::NoneOrOne) => {
            assert("?"@[0] != "+"@[0]);
        },
        _ => {},
    }
}

/// An autocommand group, given by number or by name.
#[derive(Clone, Debug, PartialEq)]
pub enum StrI64 {
    Integer(i64),
    String(String),
}

impl StrI64 {
    pub open spec fn model<H>(&self) -> LuaModel<H> {
        match self {
            StrI64::Integer(i) => LuaModel::Integer(*i as int),
            StrI64::String(s) => LuaModel::Str(s@),
        }
    }

    /// The Lua value: the number or the name itself.
    pub fn to_lua<H>(self) -> (v: LuaValue<H>)
        ensures
            v.model() == self.model::<H>(),
    {
        match self {
            StrI64::Integer(i) => LuaValue::Integer(i),
            StrI64::String(s) => LuaValue::String(s),
        }
    }
}

impl From<i64> for StrI64 {
    fn from(i: i64) -> (r: StrI64) {
        StrI64::Integer(i)
    }
}

impl vstd::std_specs::convert::FromSpecImpl<i64> for StrI64 {
    open spec fn obeys_from_spec() -> bool {
        true
    }

    open spec fn from_spec(i: i64) -> StrI64 {
        StrI64::Integer(i)
    }
}

impl From<String> for StrI64 {
    fn from(s: String) -> (r: StrI64) {
        StrI64::String(s)
    }
}

impl vstd::std_specs::convert::FromSpecImpl<String> for StrI64 {
    open spec fn obeys_from_spec() -> bool {
        true
    }

    open spec fn from_spec(s: String) -> StrI64 {
        StrI64::String(s)
    }
}

/// What a user command runs: a Vim script command, or a Lua function held by
/// the runtime (`H`).
#[derive(Debug, PartialEq)]
pub enum Command<H> {
    VimScript(String),
    Lua(H),
}

impl<H> Command<H> {
    pub open spec fn model(&self) -> LuaModel<H> {
        match self {
            Command::VimScript(s) => LuaModel::Str(s@),
            Command::Lua(f) => LuaModel::Handle(*f),
        }
    }

    /// The Lua value: the command text, or the function.
    pub fn to_lua(self) -> (v: LuaValue<H>)
        ensures
            v.model() == self.model(),
    {
        match self {
            Command::VimScript(s) => LuaValue::String(s),
            Command::Lua(f) => LuaValue::Handle(f),
        }
    }
}

impl<H> From<String> for Command<H> {
    fn from(s: String) -> (r: Command<H>) {
        Command::VimScript(s)
    }
}

impl<H> vstd::std_specs::convert::FromSpecImpl<String> for Command<H> {
    open spec fn obeys_from_spec() -> bool {
        true
    }

    open spec fn from_spec(s: String) -> Command<H> {
        Command::VimScript(s)
    }
}

/// What an autocommand runs: a Vim script command, or a Lua function held
/// by the runtime (`H`).
#[derive(Debug, PartialEq)]
pub enum Callback<H> {
    VimScript(String),
    Lua(H),
}

impl<H> Callback<H> {
    pub open spec fn model(&self) -> LuaModel<H> {
        match self {
            Callback::VimScript(s) => LuaModel::Str(s@),
            Callback::Lua(f) => LuaModel::Handle(*f),
        }
    }

    /// The Lua value: the command text, or the function.
    pub fn to_lua(self) -> (v: LuaValue<H>)
        ensures
            v.model() == self.model(),
    {
        match self {
            Callback::VimScript(s) => LuaValue::String(s),
            Callback::Lua(f) => LuaValue::Handle(f),
        }
    }
}

impl<H> From<String> for Callback<H> {
    fn from(s: String) -> (r: Callback<H>) {
        Callback::VimScript(s)
    }
}

impl<H> vstd::std_specs::convert::FromSpecImpl<String> for Callback<H> {
    open spec fn obeys_from_spec() -> bool {
        true
    }

    open spec fn from_spec(s: String) -> Callback<H> {
        Callback::VimScript(s)
    }
}

/// Options of `nvim_set_keymap`.
#[derive(Debug, PartialEq)]
pub struct NvimSetKeymapOpts<H> {
    pub nowait: bool,
    pub silent: bool,
    pub script: bool,
    pub expr: bool,
    pub unique: bool,
    pub noremap: bool,
    pub desc: Option<String>,
    pub callback: Option<H>,
}

impl<H> Default for NvimSetKeymapOpts<H> {
    fn default() -> (r: Self)
        ensures
            r == (NvimSetKeymapOpts::<H> {
                nowait: false,
                silent: false,
                script: false,
                expr: false,
                unique: false,
                noremap: false,
                desc: None,
                callback: None,
            }),
    {
        NvimSetKeymapOpts {
            nowait: false,
            silent: false,
            script: false,
            expr: false,
            unique: false,
            noremap: false,
            desc: None,
            callback: None,
        }
    }
}

impl<H> NvimSetKeymapOpts<H> {
    /// The Lua table that Neovim receives: one entry per field, in order,
    /// without the fields that hold no value.
    pub open spec fn model(&self) -> LuaModel<H> {
        LuaModel::Table(
            entry("nowait"@, LuaModel::Boolean(self.nowait))
                + entry("silent"@, LuaModel::Boolean(self.silent))
                + entry("script"@, LuaModel::Boolean(self.script))
                + entry("expr"@, LuaModel::Boolean(self.expr))
                + entry("unique"@, LuaModel::Boolean(self.unique))
                + entry("noremap"@, LuaModel::Boolean(self.noremap))
                + opt_entry("desc"@, opt_str::<H>(self.desc))
                + opt_entry("callback"@, match self.callback {
                    Some(x) => Some(LuaModel::Handle(x)),
                    None => None,
                }),
        )
    }

    /// A builder that starts from the default of every field.
    pub fn builder() -> (b: NvimSetKeymapOptsBuilder<H>)
        ensures
            b@ == (NvimSetKeymapOpts::<H> {
                nowait: false,
                silent: false,
                script: false,
                expr: false,
                unique: false,
                noremap: false,
                desc: None,
                callback: None,
            }),
    {
        NvimSetKeymapOptsBuilder { opts: NvimSetKeymapOpts::default() }
    }

    /// The Lua table of these options.
    pub fn to_lua(self) -> (v: LuaValue<H>)
        ensures
            v.model() == self.model(),
    {
        let ghost this = self;
        let mut fields: Vec<(String, LuaValue<H>)> = Vec::new();
        push_field(&mut fields, "nowait", LuaValue::Boolean(self.nowait));
        push_field(&mut fields, "silent", LuaValue::Boolean(self.silent));
        push_field(&mut fields, "script", LuaValue::Boolean(self.script));
        push_field(&mut fields, "expr", LuaValue::Boolean(self.expr));
        push_field(&mut fields, "unique", LuaValue::Boolean(self.unique));
        push_field(&mut fields, "noremap", LuaValue::Boolean(self.noremap));
        push_opt_field(&mut fields, "desc", opt_string_to_lua(self.desc));
        let callback = match self.callback {
            Some(x) => Some(LuaValue::Handle(x)),
            None => None,
        };
        push_opt_field(&mut fields, "callback", callback);
        assert(fields_model(fields@) =~= entry("nowait"@, LuaModel::Boolean(this.nowait))
                + entry("silent"@, LuaModel::Boolean(this.silent))
                + entry("script"@, LuaModel::Boolean(this.script))
                + entry("expr"@, LuaModel::Boolean(this.expr))
                + entry("unique"@, LuaModel::Boolean(this.unique))
                + entry("noremap"@, LuaModel::Boolean(this.noremap))
                + opt_entry("desc"@, opt_str::<H>(this.desc))
                + opt_entry("callback"@, match this.callback {
                    Some(x) => Some(LuaModel::Handle(x)),
                    None => None,
                }));
        LuaValue::Table(fields)
    }
}

/// Neovim finds each option of a key mapping under its own name: each flag
/// with its value, the description and the callback when they are set, and
/// nothing under any other name.
#[verifier::spinoff_prover]
#[verifier::rlimit(60)]
pub proof fn lemma_keymap_opts_table<H>(o: NvimSetKeymapOpts<H>)
    ensures
        field_of(o.model(), "nowait"@) == Some(LuaModel::<H>::Boolean(o.nowait)),
        field_of(o.model(), "silent"@) == Some(LuaModel::<H>::Boolean(o.silent)),
        field_of(o.model(), "script"@) == Some(LuaModel::<H>::Boolean(o.script)),
        field_of(o.model(), "expr"@) == Some(LuaModel::<H>::Boolean(o.expr)),
        field_of(o.model(), "unique"@) == Some(LuaModel::<H>::Boolean(o.unique)),
        field_of(o.model(), "noremap"@) == Some(LuaModel::<H>::Boolean(o.noremap)),
        field_of(o.model(), "desc"@) == (match o.desc {
            Some(d) => Some(LuaModel::<H>::Str(d@)),
            None => None,
        }),
        field_of(o.model(), "callback"@) == (match o.callback {
            Some(f) => Some(LuaModel::<H>::Handle(f)),
            None => None,
        }),
        forall|k: Seq<char>|
            !(k == "nowait"@ || k == "silent"@ || k == "script"@ || k == "expr"@ || k == "unique"@
                || k == "noremap"@ || k == "desc"@ || k == "callback"@) ==> #[trigger] field_of(
                o.model(),
                k,
            ) is None,
{
    reveal_strlit("nowait");
    reveal_strlit("silent");
    reveal_strlit("script");
    reveal_strlit("expr");
    reveal_strlit("unique");
    reveal_strlit("noremap");
    reveal_strlit("desc");
    reveal_strlit("callback");
    assert("nowait"@ != "silent"@) by {
        assert("nowait"@[0] != "silent"@[0]);
    }
    assert("nowait"@ != "script"@) by {
        assert("nowait"@[0] != "script"@[0]);
    }
    assert("nowait"@ != "expr"@) by {
        assert("nowait"@.len() != "expr"@.len());
    }
    assert("nowait"@ != "unique"@) by {
        assert("nowait"@[0] != "unique"@[0]);
    }
    assert("nowait"@ != "noremap"@) by {
        assert("nowait"@.len() != "noremap"@.len());
    }
    assert("nowait"@ != "desc"@) by {
        assert("nowait"@.len() != "desc"@.len());
    }
    assert("nowait"@ != "callback"@) by {
        assert("nowait"@.len() != "callback"@.len());
    }
    assert("silent"@ != "script"@) by {
        assert("silent"@[1] != "script"@[1]);
    }
    assert("silent"@ != "expr"@) by {
        assert("silent"@.len() != "expr"@.len());
    }
    assert("silent"@ != "unique"@) by {
        assert("silent"@[0] != "unique"@[0]);
    }
    assert("silent"@ != "noremap"@) by {
        assert("silent"@.len() != "noremap"@.len());
    }
    assert("silent"@ != "desc"@) by {
        assert("silent"@.len() != "desc"@.len());
    }
    assert("silent"@ != "callback"@) by {
        assert("silent"@.len() != "callback"@.len());
    }
    assert("script"@ != "expr"@) by {
        assert("script"@.len() != "expr"@.len());
    }
    assert("script"@ != "unique"@) by {
        assert("script"@[0] != "unique"@[0]);
    }
    assert("script"@ != "noremap"@) by {
        assert("script"@.len() != "noremap"@.len());
    }
    assert("script"@ != "desc"@) by {
        assert("script"@.len() != "desc"@.len());
    }
    assert("script"@ != "callback"@) by {
        assert("script"@.len() != "callback"@.len());
    }
    assert("expr"@ != "unique"@) by {
        assert("expr"@.len() != "unique"@.len());
    }
    assert("expr"@ != "noremap"@) by {
        assert("expr"@.len() != "noremap"@.len());
    }
    assert("expr"@ != "desc"@) by {
        assert("expr"@[0] != "desc"@[0]);
    }
    assert("expr"@ != "callback"@) by {
        assert("expr"@.len() != "callback"@.len());
    }
    assert("unique"@ != "noremap"@) by {
        assert("unique"@.len() != "noremap"@.len());
    }
    assert("unique"@ != "desc"@) by {
        assert("unique"@.len() != "desc"@.len());
    }
    assert("unique"@ != "callback"@) by {
        assert("unique"@.len() != "callback"@.len());
    }
    assert("noremap"@ != "desc"@) by {
        assert("noremap"@.len() != "desc"@.len());
    }
    assert("noremap"@ != "callback"@) by {
        assert("noremap"@.len() != "callback"@.len());
    }
    assert("desc"@ != "callback"@) by {
        assert("desc"@.len() != "callback"@.len());
    }
    let p1 = entry("nowait"@, LuaModel::<H>::Boolean(o.nowait));
    lemma_lookup_entries("nowait"@, LuaModel::<H>::Boolean(o.nowait), None);
    let p2 = entry("silent"@, LuaModel::<H>::Boolean(o.silent));
    lemma_lookup_entries("silent"@, LuaModel::<H>::Boolean(o.silent), None);
    let p3 = entry("script"@, LuaModel::<H>::Boolean(o.script));
    lemma_lookup_entries("script"@, LuaModel::<H>::Boolean(o.script), None);
    let p4 = entry("expr"@, LuaModel::<H>::Boolean(o.expr));
    lemma_lookup_entries("expr"@, LuaModel::<H>::Boolean(o.expr), None);
    let p5 = entry("unique"@, LuaModel::<H>::Boolean(o.unique));
    lemma_lookup_entries("unique"@, LuaModel::<H>::Boolean(o.unique), None);
    let p6 = entry("noremap"@, LuaModel::<H>::Boolean(o.noremap));
    lemma_lookup_entries("noremap"@, LuaModel::<H>::Boolean(o.noremap), None);
    let p7 = opt_entry("desc"@, opt_str::<H>(o.desc));
    lemma_lookup_entries("desc"@, LuaModel::Nil, opt_str::<H>(o.desc));
    let p8 = opt_entry("callback"@, match o.callback {
        Some(x) => Some(LuaModel::<H>::Handle(x)),
        None => None,
    });
    lemma_lookup_entries("callback"@, LuaModel::Nil, match o.callback {
        Some(x) => Some(LuaModel::<H>::Handle(x)),
        None => None,
    });
    lemma_lookup_concat(p1, p2);
    lemma_lookup_concat(p1 + p2, p3);
    lemma_lookup_concat(p1 + p2 + p3, p4);
    lemma_lookup_concat(p1 + p2 + p3 + p4, p5);
    lemma_lookup_concat(p1 + p2 + p3 + p4 + p5, p6);
    lemma_lookup_concat(p1 + p2 + p3 + p4 + p5 + p6, p7);
    lemma_lookup_concat(p1 + p2 + p3 + p4 + p5 + p6 + p7, p8);
}

/// Builds [`NvimSetKeymapOpts`] one field at a time.
#[derive(Debug, PartialEq)]
pub struct NvimSetKeymapOptsBuilder<H> {
    opts: NvimSetKeymapOpts<H>,
}

impl<H> View for NvimSetKeymapOptsBuilder<H> {
    type V = NvimSetKeymapOpts<H>;

    closed spec fn view(&self) -> NvimSetKeymapOpts<H> {
        self.opts
    }
}

impl<H> NvimSetKeymapOptsBuilder<H> {
    /// Sets `nowait`.
    pub fn nowait(self, value: bool) -> (r: Self)
        ensures
            r@ == (NvimSetKeymapOpts { nowait: value, ..self@ }),
    {
        let mut opts = self.opts;
        opts.nowait = value;
        NvimSetKeymapOptsBuilder { opts }
    }

    /// Sets `silent`.
    pub fn silent(self, value: bool) -> (r: Self)
        ensures
            r@ == (NvimSetKeymapOpts { silent: value, ..self@ }),
    {
        let mut opts = self.opts;
        opts.silent = value;
        NvimSetKeymapOptsBuilder { opts }
    }

    /// Sets `script`.
    pub fn script(self, value: bool) -> (r: Self)
        ensures
            r@ == (NvimSetKeymapOpts { script: value, ..self@ }),
    {
        let mut opts = self.opts;
        opts.script = value;
        NvimSetKeymapOptsBuilder { opts }
    }

    /// Sets `expr`.
    pub fn expr(self, value: bool) -> (r: Self)
        ensures
            r@ == (NvimSetKeymapOpts { expr: value, ..self@ }),
    {
        let mut opts = self.opts;
        opts.expr = value;
        NvimSetKeymapOptsBuilder { opts }
    }

    /// Sets `unique`.
    pub fn unique(self, value: bool) -> (r: Self)
        ensures
            r@ == (NvimSetKeymapOpts { unique: value, ..self@ }),
    {
        let mut opts = self.opts;
        opts.unique = value;
        NvimSetKeymapOptsBuilder { opts }
    }

    /// Sets `noremap`.
    pub fn noremap(self, value: bool) -> (r: Self)
        ensures
            r@ == (NvimSetKeymapOpts { noremap: value, ..self@ }),
    {
        let mut opts = self.opts;
        opts.noremap = value;
        NvimSetKeymapOptsBuilder { opts }
    }

    /// Sets `desc`.
    pub fn desc(self, value: String) -> (r: Self)
        ensures
            r@ == (NvimSetKeymapOpts { desc: Some(value), ..self@ }),
    {
        let mut opts = self.opts;
        opts.desc = Some(value);
        NvimSetKeymapOptsBuilder { opts }
    }

    /// Sets `callback`.
    pub fn callback(self, value: H) -> (r: Self)
        ensures
            r@ == (NvimSetKeymapOpts { callback: Some(value), ..self@ }),
    {
        let mut opts = self.opts;
        opts.callback = Some(value);
        NvimSetKeymapOptsBuilder { opts }
    }

    /// The options set so far; the others keep their default.
    pub fn build(self) -> (r: NvimSetKeymapOpts<H>)
        ensures
            r == self@,
    {
        self.opts
    }
}

/// Options of `nvim__get_runtime`.
#[derive(Debug, PartialEq)]
pub struct NvimGetRuntimeOpts {
    pub is_lua: bool,
}

impl Default for NvimGetRuntimeOpts {
    fn default() -> (r: Self)
        ensures
            r == (NvimGetRuntimeOpts { is_lua: false }),
    {
        NvimGetRuntimeOpts { is_lua: false }
    }
}

impl NvimGetRuntimeOpts {
    /// The Lua table that Neovim receives: one entry per field, in order,
    /// without the fields that hold no value.
    pub open spec fn model<H>(&self) -> LuaModel<H> {
        LuaModel::Table(
            entry("is_lua"@, LuaModel::Boolean(self.is_lua)),
        )
    }

    /// A builder that starts from the default of every field.
    pub fn builder() -> (b: NvimGetRuntimeOptsBuilder)
        ensures
            b@ == (NvimGetRuntimeOpts { is_lua: false }),
    {
        NvimGetRuntimeOptsBuilder { opts: NvimGetRuntimeOpts::default() }
    }

    /// The Lua table of these options.
    pub fn to_lua<H>(self) -> (v: LuaValue<H>)
        ensures
            v.model() == self.model::<H>(),
    {
        let ghost this = self;
        let mut fields: Vec<(String, LuaValue<H>)> = Vec::new();
        push_field(&mut fields, "is_lua", LuaValue::Boolean(self.is_lua));
        assert(fields_model(fields@) =~= entry("is_lua"@, LuaModel::Boolean(this.is_lua)));
        LuaValue::Table(fields)
    }
}

/// Neovim finds the option `is_lua` under its own name with its value, and
/// nothing under any other name.
pub proof fn lemma_runtime_opts_table<H>(o: NvimGetRuntimeOpts)
    ensures
        field_of(o.model::<H>(), "is_lua"@) == Some(LuaModel::<H>::Boolean(o.is_lua)),
        forall|k: Seq<char>|
            !(k == "is_lua"@) ==> #[trigger] field_of(o.model::<H>(), k) is None,
{
    reveal_strlit("is_lua");

    let p1 = entry("is_lua"@, LuaModel::<H>::Boolean(o.is_lua));
    lemma_lookup_entries("is_lua"@, LuaModel::<H>::Boolean(o.is_lua), None);
}

/// Builds [`NvimGetRuntimeOpts`] one field at a time.
#[derive(Debug, PartialEq)]
pub struct NvimGetRuntimeOptsBuilder {
    opts: NvimGetRuntimeOpts,
}

impl View for NvimGetRuntimeOptsBuilder {
    type V = NvimGetRuntimeOpts;

    closed spec fn view(&self) -> NvimGetRuntimeOpts {
        self.opts
    }
}

impl NvimGetRuntimeOptsBuilder {
    /// Sets `is_lua`.
    pub fn is_lua(self, value: bool) -> (r: Self)
        ensures
            r@ == (NvimGetRuntimeOpts { is_lua: value, ..self@ }),
    {
        let mut opts = self.opts;
        opts.is_lua = value;
        NvimGetRuntimeOptsBuilder { opts }
    }

    /// The options set so far; the others keep their default.
    pub fn build(self) -> (r: NvimGetRuntimeOpts)
        ensures
            r == self@,
    {
        self.opts
    }
}

/// Options of `nvim_buf_create_user_command`.
#[derive(Debug, PartialEq)]
pub struct NvimCreateUserCommandOpts {
    pub nargs: Nargs,
    pub desc: Option<String>,
    pub force: Option<bool>,
}

impl Default for NvimCreateUserCommandOpts {
    fn default() -> (r: Self)
        ensures
            r == (NvimCreateUserCommandOpts { nargs: Nargs::Zero, desc: None, force: None }),
    {
        NvimCreateUserCommandOpts { nargs: Nargs::Zero, desc: None, force: None }
    }
}

impl NvimCreateUserCommandOpts {
    /// The Lua table that Neovim receives: one entry per field, in order,
    /// without the fields that hold no value.
    pub open spec fn model<H>(&self) -> LuaModel<H> {
        LuaModel::Table(
            entry("nargs"@, nargs_model::<H>(self.nargs))
                + opt_entry("desc"@, opt_str::<H>(self.desc))
                + opt_entry("force"@, match self.force {
                    Some(x) => Some(LuaModel::Boolean(x)),
                    None => None,
                }),
        )
    }

    /// A builder that starts from the default of every field.
    pub fn builder() -> (b: NvimCreateUserCommandOptsBuilder)
        ensures
            b@ == (NvimCreateUserCommandOpts { nargs: Nargs::Zero, desc: None, force: None }),
    {
        NvimCreateUserCommandOptsBuilder { opts: NvimCreateUserCommandOpts::default() }
    }

    /// The Lua table of these options.
    pub fn to_lua<H>(self) -> (v: LuaValue<H>)
        ensures
            v.model() == self.model::<H>(),
    {
        let ghost this = self;
        let mut fields: Vec<(String, LuaValue<H>)> = Vec::new();
        push_field(&mut fields, "nargs", self.nargs.to_lua());
        push_opt_field(&mut fields, "desc", opt_string_to_lua(self.desc));
        let force = match self.force {
            Some(x) => Some(LuaValue::Boolean(x)),
            None => None,
        };
        push_opt_field(&mut fields, "force", force);
        assert(fields_model(fields@) =~= entry("nargs"@, nargs_model::<H>(this.nargs))
                + opt_entry("desc"@, opt_str::<H>(this.desc))
                + opt_entry("force"@, match this.force {
                    Some(x) => Some(LuaModel::Boolean(x)),
                    None => None,
                }));
        LuaValue::Table(fields)
    }
}

/// Neovim finds each option of a user command under its own name: `nargs`
/// as `0`, `1`, `"*"`, `"?"` or `"+"`, the description and `force` when
/// they are set, and nothing under any other name.
pub proof fn lemma_user_command_opts_table<H>(o: NvimCreateUserCommandOpts)
    ensures
        field_of(o.model::<H>(), "nargs"@) == Some(match o.nargs {
            Nargs::Zero => LuaModel::<H>::Integer(0),
            Nargs::One => LuaModel::<H>::Integer(1),
            Nargs::Any => LuaModel::<H>::Str("*"@),
            Nargs::NoneOrOne => LuaModel::<H>::Str("?"@),
            Nargs::OneOrMore => LuaModel::<H>::Str("+"@),
        }),
        field_of(o.model::<H>(), "desc"@) == (match o.desc {
            Some(s) => Some(LuaModel::<H>::Str(s@)),
            None => None,
        }),
        field_of(o.model::<H>(), "force"@) == (match o.force {
            Some(b) => Some(LuaModel::<H>::Boolean(b)),
            None => None,
        }),
        forall|k: Seq<char>|
            !(k == "nargs"@ || k == "desc"@ || k == "force"@) ==> #[trigger] field_of(o.model::<H>(), k) is None,
{
    reveal_strlit("nargs");
    reveal_strlit("desc");
    reveal_strlit("force");
    assert("nargs"@ != "desc"@) by {
        assert("nargs"@.len() != "desc"@.len());
    }
    assert("nargs"@ != "force"@) by {
        assert("nargs"@[0] != "force"@[0]);
    }
    assert("desc"@ != "force"@) by {
        assert("desc"@.len() != "force"@.len());
    }
    let p1 = entry("nargs"@, nargs_model::<H>(o.nargs));
    lemma_lookup_entries("nargs"@, nargs_model::<H>(o.nargs), None);
    let p2 = opt_entry("desc"@, opt_str::<H>(o.desc));
    lemma_lookup_entries("desc"@, LuaModel::Nil, opt_str::<H>(o.desc));
    let p3 = opt_entry("force"@, match o.force {
        Some(x) => Some(LuaModel::<H>::Boolean(x)),
        None => None,
    });
    lemma_lookup_entries("force"@, LuaModel::Nil, match o.force {
        Some(x) => Some(LuaModel::<H>::Boolean(x)),
        None => None,
    });
    lemma_lookup_concat(p1, p2);
    lemma_lookup_concat(p1 + p2, p3);
}

/// Builds [`NvimCreateUserCommandOpts`] one field at a time.
#[derive(Debug, PartialEq)]
pub struct NvimCreateUserCommandOptsBuilder {
    opts: NvimCreateUserCommandOpts,
}

impl View for NvimCreateUserCommandOptsBuilder {
    type V = NvimCreateUserCommandOpts;

    closed spec fn view(&self) -> NvimCreateUserCommandOpts {
        self.opts
    }
}

impl NvimCreateUserCommandOptsBuilder {
    /// Sets `nargs`.
    pub fn nargs(self, value: Nargs) -> (r: Self)
        ensures
            r@ == (NvimCreateUserCommandOpts { nargs: value, ..self@ }),
    {
        let mut opts = self.opts;
        opts.nargs = value;
        NvimCreateUserCommandOptsBuilder { opts }
    }

    /// Sets `desc`.
    pub fn desc(self, value: String) -> (r: Self)
        ensures
            r@ == (NvimCreateUserCommandOpts { desc: Some(value), ..self@ }),
    {
        let mut opts = self.opts;
        opts.desc = Some(value);
        NvimCreateUserCommandOptsBuilder { opts }
    }

    /// Sets `force`.
    pub fn force(self, value: bool) -> (r: Self)
        ensures
            r@ == (NvimCreateUserCommandOpts { force: Some(value), ..self@ }),
    {
        let mut opts = self.opts;
        opts.force = Some(value);
        NvimCreateUserCommandOptsBuilder { opts }
    }

    /// The options set so far; the others keep their default.
    pub fn build(self) -> (r: NvimCreateUserCommandOpts)
        ensures
            r == self@,
    {
        self.opts
    }
}

/// Options of `nvim_create_autocmd`.
#[derive(Debug, PartialEq)]
pub struct NvimCreateAutocmdsOpts<H> {
    pub group: Option<StrI64>,
    /// Cannot be used with buffer
    pub pattern: Option<Vec<String>>,
    /// Cannot be used with pattern
    pub buffer: Option<i64>,
    pub desc: Option<String>,
    /// Cannot be used with command
    pub callback: Option<Callback<H>>,
    /// Cannot be used with callback
    pub command: Option<String>,
    pub once: bool,
    pub nested: bool,
}

impl<H> Default for NvimCreateAutocmdsOpts<H> {
    fn default() -> (r: Self)
        ensures
            r == (NvimCreateAutocmdsOpts::<H> {
                group: None,
                pattern: None,
                buffer: None,
                desc: None,
                callback: None,
                command: None,
                once: false,
                nested: false,
            }),
    {
        NvimCreateAutocmdsOpts {
            group: None,
            pattern: None,
            buffer: None,
            desc: None,
            callback: None,
            command: None,
            once: false,
            nested: false,
        }
    }
}

impl<H> NvimCreateAutocmdsOpts<H> {
    /// The Lua table that Neovim receives: one entry per field, in order,
    /// without the fields that hold no value.
    pub open spec fn model(&self) -> LuaModel<H> {
        LuaModel::Table(
            opt_entry("group"@, match self.group { Some(x) => Some(x.model::<H>()), None => None })
                + opt_entry("pattern"@, match self.pattern {
                    Some(x) => Some(LuaModel::Array(strings_model::<H>(x@))),
                    None => None,
                })
                + opt_entry("buffer"@, match self.buffer {
                    Some(x) => Some(LuaModel::Integer(x as int)),
                    None => None,
                })
                + opt_entry("desc"@, opt_str::<H>(self.desc))
                + opt_entry("callback"@, match self.callback {
                    Some(x) => Some(x.model()),
                    None => None,
                })
                + opt_entry("command"@, opt_str::<H>(self.command))
                + entry("once"@, LuaModel::Boolean(self.once))
                + entry("nested"@, LuaModel::Boolean(self.nested)),
        )
    }

    /// A builder that starts from the default of every field.
    pub fn builder() -> (b: NvimCreateAutocmdsOptsBuilder<H>)
        ensures
            b@ == (NvimCreateAutocmdsOpts::<H> {
                group: None,
                pattern: None,
                buffer: None,
                desc: None,
                callback: None,
                command: None,
                once: false,
                nested: false,
            }),
    {
        NvimCreateAutocmdsOptsBuilder { opts: NvimCreateAutocmdsOpts::default() }
    }

    /// The Lua table of these options.
    pub fn to_lua(self) -> (v: LuaValue<H>)
        ensures
            v.model() == self.model(),
    {
        let ghost this = self;
        let mut fields: Vec<(String, LuaValue<H>)> = Vec::new();
        let group = match self.group {
            Some(x) => Some(x.to_lua()),
            None => None,
        };
        push_opt_field(&mut fields, "group", group);
        let pattern = match self.pattern {
            Some(x) => Some(strings_to_lua(&x)),
            None => None,
        };
        push_opt_field(&mut fields, "pattern", pattern);
        let buffer = match self.buffer {
            Some(x) => Some(LuaValue::Integer(x)),
            None => None,
        };
        push_opt_field(&mut fields, "buffer", buffer);
        push_opt_field(&mut fields, "desc", opt_string_to_lua(self.desc));
        let callback = match self.callback {
            Some(x) => Some(x.to_lua()),
            None => None,
        };
        push_opt_field(&mut fields, "callback", callback);
        push_opt_field(&mut fields, "command", opt_string_to_lua(self.command));
        push_field(&mut fields, "once", LuaValue::Boolean(self.once));
        push_field(&mut fields, "nested", LuaValue::Boolean(self.nested));
        assert(fields_model(fields@) =~= opt_entry("group"@, match this.group {
            Some(x) => Some(x.model::<H>()),
            None => None,
        })
                + opt_entry("pattern"@, match this.pattern {
                    Some(x) => Some(LuaModel::Array(strings_model::<H>(x@))),
                    None => None,
                })
                + opt_entry("buffer"@, match this.buffer {
                    Some(x) => Some(LuaModel::Integer(x as int)),
                    None => None,
                })
                + opt_entry("desc"@, opt_str::<H>(this.desc))
                + opt_entry("callback"@, match this.callback {
                    Some(x) => Some(x.model()),
                    None => None,
                })
                + opt_entry("command"@, opt_str::<H>(this.command))
                + entry("once"@, LuaModel::Boolean(this.once))
                + entry("nested"@, LuaModel::Boolean(this.nested)));
        LuaValue::Table(fields)
    }
}

/// Neovim finds each option of an autocommand under its own name: the
/// group (by number or name), the patterns, the buffer, the description,
/// the callback (a command text or a function) and the command when they
/// are set, `once` and `nested` always, and nothing under any other name.
#[verifier::spinoff_prover]
#[verifier::rlimit(60)]
pub proof fn lemma_create_autocmd_opts_table<H>(o: NvimCreateAutocmdsOpts<H>)
    ensures
        field_of(o.model(), "group"@) == (match o.group {
            Some(StrI64::Integer(i)) => Some(LuaModel::<H>::Integer(i as int)),
            Some(StrI64::String(g)) => Some(LuaModel::<H>::Str(g@)),
            None => None,
        }),
        field_of(o.model(), "pattern"@) == (match o.pattern {
            Some(v) => Some(LuaModel::<H>::Array(v@.map_values(|s: String| LuaModel::<H>::Str(s@)))),
            None => None,
        }),
        field_of(o.model(), "buffer"@) == (match o.buffer {
            Some(x) => Some(LuaModel::<H>::Integer(x as int)),
            None => None,
        }),
        field_of(o.model(), "desc"@) == (match o.desc {
            Some(s) => Some(LuaModel::<H>::Str(s@)),
            None => None,
        }),
        field_of(o.model(), "callback"@) == (match o.callback {
            Some(Callback::VimScript(c)) => Some(LuaModel::<H>::Str(c@)),
            Some(Callback::Lua(f)) => Some(LuaModel::<H>::Handle(f)),
            None => None,
        }),
        field_of(o.model(), "command"@) == (match o.command {
            Some(s) => Some(LuaModel::<H>::Str(s@)),
            None => None,
        }),
        field_of(o.model(), "once"@) == Some(LuaModel::<H>::Boolean(o.once)),
        field_of(o.model(), "nested"@) == Some(LuaModel::<H>::Boolean(o.nested)),
        forall|k: Seq<char>|
            !(k == "group"@ || k == "pattern"@ || k == "buffer"@ || k == "desc"@ || k == "callback"@ || k == "command"@ || k == "once"@ || k == "nested"@) ==> #[trigger] field_of(o.model(), k) is None,
{
    reveal_strlit("group");
    reveal_strlit("pattern");
    reveal_strlit("buffer");
    reveal_strlit("desc");
    reveal_strlit("callback");
    reveal_strlit("command");
    reveal_strlit("once");
    reveal_strlit("nested");
    assert("group"@ != "pattern"@) by {
        assert("group"@.len() != "pattern"@.len());
    }
    assert("group"@ != "buffer"@) by {
        assert("group"@.len() != "buffer"@.len());
    }
    assert("group"@ != "desc"@) by {
        assert("group"@.len() != "desc"@.len());
    }
    assert("group"@ != "callback"@) by {
        assert("group"@.len() != "callback"@.len());
    }
    assert("group"@ != "command"@) by {
        assert("group"@.len() != "command"@.len());
    }
    assert("group"@ != "once"@) by {
        assert("group"@.len() != "once"@.len());
    }
    assert("group"@ != "nested"@) by {
        assert("group"@.len() != "nested"@.len());
    }
    assert("pattern"@ != "buffer"@) by {
        assert("pattern"@.len() != "buffer"@.len());
    }
    assert("pattern"@ != "desc"@) by {
        assert("pattern"@.len() != "desc"@.len());
    }
    assert("pattern"@ != "callback"@) by {
        assert("pattern"@.len() != "callback"@.len());
    }
    assert("pattern"@ != "command"@) by {
        assert("pattern"@[0] != "command"@[0]);
    }
    assert("pattern"@ != "once"@) by {
        assert("pattern"@.len() != "once"@.len());
    }
    assert("pattern"@ != "nested"@) by {
        assert("pattern"@.len() != "nested"@.len());
    }
    assert("buffer"@ != "desc"@) by {
        assert("buffer"@.len() != "desc"@.len());
    }
    assert("buffer"@ != "callback"@) by {
        assert("buffer"@.len() != "callback"@.len());
    }
    assert("buffer"@ != "command"@) by {
        assert("buffer"@.len() != "command"@.len());
    }
    assert("buffer"@ != "once"@) by {
        assert("buffer"@.len() != "once"@.len());
    }
    assert("buffer"@ != "nested"@) by {
        assert("buffer"@[0] != "nested"@[0]);
    }
    assert("desc"@ != "callback"@) by {
        assert("desc"@.len() != "callback"@.len());
    }
    assert("desc"@ != "command"@) by {
        assert("desc"@.len() != "command"@.len());
    }
    assert("desc"@ != "once"@) by {
        assert("desc"@[0] != "once"@[0]);
    }
    assert("desc"@ != "nested"@) by {
        assert("desc"@.len() != "nested"@.len());
    }
    assert("callback"@ != "command"@) by {
        assert("callback"@.len() != "command"@.len());
    }
    assert("callback"@ != "once"@) by {
        assert("callback"@.len() != "once"@.len());
    }
    assert("callback"@ != "nested"@) by {
        assert("callback"@.len() != "nested"@.len());
    }
    assert("command"@ != "once"@) by {
        assert("command"@.len() != "once"@.len());
    }
    assert("command"@ != "nested"@) by {
        assert("command"@.len() != "nested"@.len());
    }
    assert("once"@ != "nested"@) by {
        assert("once"@.len() != "nested"@.len());
    }
    let p1 = opt_entry("group"@, match o.group {
        Some(x) => Some(x.model::<H>()),
        None => None,
    });
    lemma_lookup_entries("group"@, LuaModel::Nil, match o.group {
        Some(x) => Some(x.model::<H>()),
        None => None,
    });
    let p2 = opt_entry("pattern"@, match o.pattern {
        Some(x) => Some(LuaModel::<H>::Array(strings_model::<H>(x@))),
        None => None,
    });
    lemma_lookup_entries("pattern"@, LuaModel::Nil, match o.pattern {
        Some(x) => Some(LuaModel::<H>::Array(strings_model::<H>(x@))),
        None => None,
    });
    let p3 = opt_entry("buffer"@, match o.buffer {
        Some(x) => Some(LuaModel::<H>::Integer(x as int)),
        None => None,
    });
    lemma_lookup_entries("buffer"@, LuaModel::Nil, match o.buffer {
        Some(x) => Some(LuaModel::<H>::Integer(x as int)),
        None => None,
    });
    let p4 = opt_entry("desc"@, opt_str::<H>(o.desc));
    lemma_lookup_entries("desc"@, LuaModel::Nil, opt_str::<H>(o.desc));
    let p5 = opt_entry("callback"@, match o.callback {
        Some(x) => Some(x.model()),
        None => None,
    });
    lemma_lookup_entries("callback"@, LuaModel::Nil, match o.callback {
        Some(x) => Some(x.model()),
        None => None,
    });
    let p6 = opt_entry("command"@, opt_str::<H>(o.command));
    lemma_lookup_entries("command"@, LuaModel::Nil, opt_str::<H>(o.command));
    let p7 = entry("once"@, LuaModel::<H>::Boolean(o.once));
    lemma_lookup_entries("once"@, LuaModel::<H>::Boolean(o.once), None);
    let p8 = entry("nested"@, LuaModel::<H>::Boolean(o.nested));
    lemma_lookup_entries("nested"@, LuaModel::<H>::Boolean(o.nested), None);
    lemma_lookup_concat(p1, p2);
    lemma_lookup_concat(p1 + p2, p3);
    lemma_lookup_concat(p1 + p2 + p3, p4);
    lemma_lookup_concat(p1 + p2 + p3 + p4, p5);
    lemma_lookup_concat(p1 + p2 + p3 + p4 + p5, p6);
    lemma_lookup_concat(p1 + p2 + p3 + p4 + p5 + p6, p7);
    lemma_lookup_concat(p1 + p2 + p3 + p4 + p5 + p6 + p7, p8);
}

/// Builds [`NvimCreateAutocmdsOpts`] one field at a time.
#[derive(Debug, PartialEq)]
pub struct NvimCreateAutocmdsOptsBuilder<H> {
    opts: NvimCreateAutocmdsOpts<H>,
}

impl<H> View for NvimCreateAutocmdsOptsBuilder<H> {
    type V = NvimCreateAutocmdsOpts<H>;

    closed spec fn view(&self) -> NvimCreateAutocmdsOpts<H> {
        self.opts
    }
}

impl<H> NvimCreateAutocmdsOptsBuilder<H> {
    /// Sets `group`.
    pub fn group(self, value: StrI64) -> (r: Self)
        ensures
            r@ == (NvimCreateAutocmdsOpts { group: Some(value), ..self@ }),
    {
        let mut opts = self.opts;
        opts.group = Some(value);
        NvimCreateAutocmdsOptsBuilder { opts }
    }

    /// Sets `pattern`.
    pub fn pattern(self, value: Vec<String>) -> (r: Self)
        ensures
            r@ == (NvimCreateAutocmdsOpts { pattern: Some(value), ..self@ }),
    {
        let mut opts = self.opts;
        opts.pattern = Some(value);
        NvimCreateAutocmdsOptsBuilder { opts }
    }

    /// Sets `buffer`.
    pub fn buffer(self, value: i64) -> (r: Self)
        ensures
            r@ == (NvimCreateAutocmdsOpts { buffer: Some(value), ..self@ }),
    {
        let mut opts = self.opts;
        opts.buffer = Some(value);
        NvimCreateAutocmdsOptsBuilder { opts }
    }

    /// Sets `desc`.
    pub fn desc(self, value: String) -> (r: Self)
        ensures
            r@ == (NvimCreateAutocmdsOpts { desc: Some(value), ..self@ }),
    {
        let mut opts = self.opts;
        opts.desc = Some(value);
        NvimCreateAutocmdsOptsBuilder { opts }
    }

    /// Sets `callback`.
    pub fn callback(self, value: Callback<H>) -> (r: Self)
        ensures
            r@ == (NvimCreateAutocmdsOpts { callback: Some(value), ..self@ }),
    {
        let mut opts = self.opts;
        opts.callback = Some(value);
        NvimCreateAutocmdsOptsBuilder { opts }
    }

    /// Sets `command`.
    pub fn command(self, value: String) -> (r: Self)
        ensures
            r@ == (NvimCreateAutocmdsOpts { command: Some(value), ..self@ }),
    {
        let mut opts = self.opts;
        opts.command = Some(value);
        NvimCreateAutocmdsOptsBuilder { opts }
    }

    /// Sets `once`.
    pub fn once(self, value: bool) -> (r: Self)
        ensures
            r@ == (NvimCreateAutocmdsOpts { once: value, ..self@ }),
    {
        let mut opts = self.opts;
        opts.once = value;
        NvimCreateAutocmdsOptsBuilder { opts }
    }

    /// Sets `nested`.
    pub fn nested(self, value: bool) -> (r: Self)
        ensures
            r@ == (NvimCreateAutocmdsOpts { nested: value, ..self@ }),
    {
        let mut opts = self.opts;
        opts.nested = value;
        NvimCreateAutocmdsOptsBuilder { opts }
    }

    /// The options set so far; the others keep their default.
    pub fn build(self) -> (r: NvimCreateAutocmdsOpts<H>)
        ensures
            r == self@,
    {
        self.opts
    }
}

/// Options of `nvim_get_autocmds`.
#[derive(Debug, PartialEq)]
pub struct NvimGetAutocmdsOpts {
    pub group: Option<StrI64>,
    pub event: Option<Vec<String>>,
    pub pattern: Option<Vec<String>>,
}

impl Default for NvimGetAutocmdsOpts {
    fn default() -> (r: Self)
        ensures
            r == (NvimGetAutocmdsOpts { group: None, event: None, pattern: None }),
    {
        NvimGetAutocmdsOpts { group: None, event: None, pattern: None }
    }
}

impl NvimGetAutocmdsOpts {
    /// The Lua table that Neovim receives: one entry per field, in order,
    /// without the fields that hold no value.
    pub open spec fn model<H>(&self) -> LuaModel<H> {
        LuaModel::Table(
            opt_entry("group"@, match self.group { Some(x) => Some(x.model::<H>()), None => None })
                + opt_entry("event"@, match self.event {
                    Some(x) => Some(LuaModel::Array(strings_model::<H>(x@))),
                    None => None,
                })
                + opt_entry("pattern"@, match self.pattern {
                    Some(x) => Some(LuaModel::Array(strings_model::<H>(x@))),
                    None => None,
                }),
        )
    }

    /// A builder that starts from the default of every field.
    pub fn builder() -> (b: NvimGetAutocmdsOptsBuilder)
        ensures
            b@ == (NvimGetAutocmdsOpts { group: None, event: None, pattern: None }),
    {
        NvimGetAutocmdsOptsBuilder { opts: NvimGetAutocmdsOpts::default() }
    }

    /// The Lua table of these options.
    pub fn to_lua<H>(self) -> (v: LuaValue<H>)
        ensures
            v.model() == self.model::<H>(),
    {
        let ghost this = self;
        let mut fields: Vec<(String, LuaValue<H>)> = Vec::new();
        let group = match self.group {
            Some(x) => Some(x.to_lua()),
            None => None,
        };
        push_opt_field(&mut fields, "group", group);
        let event = match self.event {
            Some(x) => Some(strings_to_lua(&x)),
            None => None,
        };
        push_opt_field(&mut fields, "event", event);
        let pattern = match self.pattern {
            Some(x) => Some(strings_to_lua(&x)),
            None => None,
        };
        push_opt_field(&mut fields, "pattern", pattern);
        assert(fields_model(fields@) =~= opt_entry("group"@, match this.group {
            Some(x) => Some(x.model::<H>()),
            None => None,
        })
                + opt_entry("event"@, match this.event {
                    Some(x) => Some(LuaModel::Array(strings_model::<H>(x@))),
                    None => None,
                })
                + opt_entry("pattern"@, match this.pattern {
                    Some(x) => Some(LuaModel::Array(strings_model::<H>(x@))),
                    None => None,
                }));
        LuaValue::Table(fields)
    }
}

/// Neovim finds each filter of `nvim_get_autocmds` under its own name when
/// it is set: the group (by number or name), the events and the patterns;
/// and nothing under any other name.
pub proof fn lemma_get_autocmds_opts_table<H>(o: NvimGetAutocmdsOpts)
    ensures
        field_of(o.model::<H>(), "group"@) == (match o.group {
            Some(StrI64::Integer(i)) => Some(LuaModel::<H>::Integer(i as int)),
            Some(StrI64::String(g)) => Some(LuaModel::<H>::Str(g@)),
            None => None,
        }),
        field_of(o.model::<H>(), "event"@) == (match o.event {
            Some(v) => Some(LuaModel::<H>::Array(v@.map_values(|s: String| LuaModel::<H>::Str(s@)))),
            None => None,
        }),
        field_of(o.model::<H>(), "pattern"@) == (match o.pattern {
            Some(v) => Some(LuaModel::<H>::Array(v@.map_values(|s: String| LuaModel::<H>::Str(s@)))),
            None => None,
        }),
        forall|k: Seq<char>|
            !(k == "group"@ || k == "event"@ || k == "pattern"@) ==> #[trigger] field_of(o.model::<H>(), k) is None,
{
    reveal_strlit("group");
    reveal_strlit("event");
    reveal_strlit("pattern");
    assert("group"@ != "event"@) by {
        assert("group"@[0] != "event"@[0]);
    }
    assert("group"@ != "pattern"@) by {
        assert("group"@.len() != "pattern"@.len());
    }
    assert("event"@ != "pattern"@) by {
        assert("event"@.len() != "pattern"@.len());
    }
    let p1 = opt_entry("group"@, match o.group {
        Some(x) => Some(x.model::<H>()),
        None => None,
    });
    lemma_lookup_entries("group"@, LuaModel::Nil, match o.group {
        Some(x) => Some(x.model::<H>()),
        None => None,
    });
    let p2 = opt_entry("event"@, match o.event {
        Some(x) => Some(LuaModel::<H>::Array(strings_model::<H>(x@))),
        None => None,
    });
    lemma_lookup_entries("event"@, LuaModel::Nil, match o.event {
        Some(x) => Some(LuaModel::<H>::Array(strings_model::<H>(x@))),
        None => None,
    });
    let p3 = opt_entry("pattern"@, match o.pattern {
        Some(x) => Some(LuaModel::<H>::Array(strings_model::<H>(x@))),
        None => None,
    });
    lemma_lookup_entries("pattern"@, LuaModel::Nil, match o.pattern {
        Some(x) => Some(LuaModel::<H>::Array(strings_model::<H>(x@))),
        None => None,
    });
    lemma_lookup_concat(p1, p2);
    lemma_lookup_concat(p1 + p2, p3);
}

/// Builds [`NvimGetAutocmdsOpts`] one field at a time.
#[derive(Debug, PartialEq)]
pub struct NvimGetAutocmdsOptsBuilder {
    opts: NvimGetAutocmdsOpts,
}

impl View for NvimGetAutocmdsOptsBuilder {
    type V = NvimGetAutocmdsOpts;

    closed spec fn view(&self) -> NvimGetAutocmdsOpts {
        self.opts
    }
}

impl NvimGetAutocmdsOptsBuilder {
    /// Sets `group`.
    pub fn group(self, value: StrI64) -> (r: Self)
        ensures
            r@ == (NvimGetAutocmdsOpts { group: Some(value), ..self@ }),
    {
        let mut opts = self.opts;
        opts.group = Some(value);
        NvimGetAutocmdsOptsBuilder { opts }
    }

    /// Sets `event`.
    pub fn event(self, value: Vec<String>) -> (r: Self)
        ensures
            r@ == (NvimGetAutocmdsOpts { event: Some(value), ..self@ }),
    {
        let mut opts = self.opts;
        opts.event = Some(value);
        NvimGetAutocmdsOptsBuilder { opts }
    }

    /// Sets `pattern`.
    pub fn pattern(self, value: Vec<String>) -> (r: Self)
        ensures
            r@ == (NvimGetAutocmdsOpts { pattern: Some(value), ..self@ }),
    {
        let mut opts = self.opts;
        opts.pattern = Some(value);
        NvimGetAutocmdsOptsBuilder { opts }
    }

    /// The options set so far; the others keep their default.
    pub fn build(self) -> (r: NvimGetAutocmdsOpts)
        ensures
            r == self@,
    {
        self.opts
    }
}

/// What a user command's Lua function receives when the command runs.
#[derive(Clone, Debug, PartialEq)]
pub struct CommandCallbackData {
    /// The args passed to the command [`<args>`](https://neovim.io/doc/user/map.html#%3Cargs%3E)
    pub args: Option<String>,
    /// The args split by unescaped whitespace (when more than one argument is allowed)
    /// [`<fargs>`](https://neovim.io/doc/user/map.html#%3Cf-args%3E)
    pub fargs: Vec<String>,
    /// "true" if the command was executed with a ! modifier [`<bang>`](https://neovim.io/doc/user/map.html#%3Cbang%3E)
    pub bang: bool,
    /// The starting line of the command range [`<line1>`](https://neovim.io/doc/user/map.html#%3Cline1%3E)
    pub line1: Option<i64>,
    /// The final line of the command range [`<line2>`](https://neovim.io/doc/user/map.html#%3Cline2%3E)
    pub line2: Option<i64>,
    /// The number of items in the command range: 0, 1, or 2
    /// [`<range>`](https://neovim.io/doc/user/map.html#%3Crange%3E)
    pub range: Option<i64>,
    /// Any count supplied [`<count>`](https://neovim.io/doc/user/map.html#%3Ccount%3E)
    pub count: Option<i64>,
    /// The optional register, if specified [`<reg>`](https://neovim.io/doc/user/map.html#%3Creg%3E)
    pub reg: Option<String>,
    /// Command modifiers, if any [`<mods>`](https://neovim.io/doc/user/map.html#%3Cmods%3E)
    pub mods: Option<String>,
}

impl CommandCallbackData {
    /// The Lua table of this data: one entry per field, in order, without
    /// the fields that hold no value.
    pub open spec fn model<H>(&self) -> LuaModel<H> {
        LuaModel::Table(
            opt_entry("args"@, opt_str::<H>(self.args))
                + entry("fargs"@, LuaModel::Array(strings_model::<H>(self.fargs@)))
                + entry("bang"@, LuaModel::Boolean(self.bang))
                + opt_entry("line1"@, match self.line1 {
                    Some(x) => Some(LuaModel::Integer(x as int)),
                    None => None,
                })
                + opt_entry("line2"@, match self.line2 {
                    Some(x) => Some(LuaModel::Integer(x as int)),
                    None => None,
                })
                + opt_entry("range"@, match self.range {
                    Some(x) => Some(LuaModel::Integer(x as int)),
                    None => None,
                })
                + opt_entry("count"@, match self.count {
                    Some(x) => Some(LuaModel::Integer(x as int)),
                    None => None,
                })
                + opt_entry("reg"@, opt_str::<H>(self.reg))
                + opt_entry("mods"@, opt_str::<H>(self.mods)),
        )
    }

    /// The Lua table of this data.
    pub fn to_lua<H>(self) -> (v: LuaValue<H>)
        ensures
            v.model() == self.model::<H>(),
    {
        let ghost this = self;
        let mut fields: Vec<(String, LuaValue<H>)> = Vec::new();
        push_opt_field(&mut fields, "args", opt_string_to_lua(self.args));
        push_field(&mut fields, "fargs", strings_to_lua(&self.fargs));
        push_field(&mut fields, "bang", LuaValue::Boolean(self.bang));
        let line1 = match self.line1 {
            Some(x) => Some(LuaValue::Integer(x)),
            None => None,
        };
        push_opt_field(&mut fields, "line1", line1);
        let line2 = match self.line2 {
            Some(x) => Some(LuaValue::Integer(x)),
            None => None,
        };
        push_opt_field(&mut fields, "line2", line2);
        let range = match self.range {
            Some(x) => Some(LuaValue::Integer(x)),
            None => None,
        };
        push_opt_field(&mut fields, "range", range);
        let count = match self.count {
            Some(x) => Some(LuaValue::Integer(x)),
            None => None,
        };
        push_opt_field(&mut fields, "count", count);
        push_opt_field(&mut fields, "reg", opt_string_to_lua(self.reg));
        push_opt_field(&mut fields, "mods", opt_string_to_lua(self.mods));
        assert(fields_model(fields@) =~= opt_entry("args"@, opt_str::<H>(this.args))
                + entry("fargs"@, LuaModel::Array(strings_model::<H>(this.fargs@)))
                + entry("bang"@, LuaModel::Boolean(this.bang))
                + opt_entry("line1"@, match this.line1 {
                    Some(x) => Some(LuaModel::Integer(x as int)),
                    None => None,
                })
                + opt_entry("line2"@, match this.line2 {
                    Some(x) => Some(LuaModel::Integer(x as int)),
                    None => None,
                })
                + opt_entry("range"@, match this.range {
                    Some(x) => Some(LuaModel::Integer(x as int)),
                    None => None,
                })
                + opt_entry("count"@, match this.count {
                    Some(x) => Some(LuaModel::Integer(x as int)),
                    None => None,
                })
                + opt_entry("reg"@, opt_str::<H>(this.reg))
                + opt_entry("mods"@, opt_str::<H>(this.mods)));
        LuaValue::Table(fields)
    }
}

/// A user command's function finds each piece of its data under its own
/// name: the argument text, register and modifiers and the line numbers,
/// range and count when they are set, the split arguments and `bang`
/// always, and nothing under any other name.
#[verifier::spinoff_prover]
#[verifier::rlimit(60)]
pub proof fn lemma_command_data_table<H>(o: CommandCallbackData)
    ensures
        field_of(o.model::<H>(), "args"@) == (match o.args {
            Some(s) => Some(LuaModel::<H>::Str(s@)),
            None => None,
        }),
        field_of(o.model::<H>(), "fargs"@) == Some(LuaModel::<H>::Array(o.fargs@.map_values(|s: String| LuaModel::<H>::Str(s@)))),
        field_of(o.model::<H>(), "bang"@) == Some(LuaModel::<H>::Boolean(o.bang)),
        field_of(o.model::<H>(), "line1"@) == (match o.line1 {
            Some(x) => Some(LuaModel::<H>::Integer(x as int)),
            None => None,
        }),
        field_of(o.model::<H>(), "line2"@) == (match o.line2 {
            Some(x) => Some(LuaModel::<H>::Integer(x as int)),
            None => None,
        }),
        field_of(o.model::<H>(), "range"@) == (match o.range {
            Some(x) => Some(LuaModel::<H>::Integer(x as int)),
            None => None,
        }),
        field_of(o.model::<H>(), "count"@) == (match o.count {
            Some(x) => Some(LuaModel::<H>::Integer(x as int)),
            None => None,
        }),
        field_of(o.model::<H>(), "reg"@) == (match o.reg {
            Some(s) => Some(LuaModel::<H>::Str(s@)),
            None => None,
        }),
        field_of(o.model::<H>(), "mods"@) == (match o.mods {
            Some(s) => Some(LuaModel::<H>::Str(s@)),
            None => None,
        }),
        forall|k: Seq<char>|
            !(k == "args"@ || k == "fargs"@ || k == "bang"@ || k == "line1"@ || k == "line2"@ || k == "range"@ || k == "count"@ || k == "reg"@ || k == "mods"@) ==> #[trigger] field_of(o.model::<H>(), k) is None,
{
    reveal_strlit("args");
    reveal_strlit("fargs");
    reveal_strlit("bang");
    reveal_strlit("line1");
    reveal_strlit("line2");
    reveal_strlit("range");
    reveal_strlit("count");
    reveal_strlit("reg");
    reveal_strlit("mods");
    assert("args"@ != "fargs"@) by {
        assert("args"@.len() != "fargs"@.len());
    }
    assert("args"@ != "bang"@) by {
        assert("args"@[0] != "bang"@[0]);
    }
    assert("args"@ != "line1"@) by {
        assert("args"@.len() != "line1"@.len());
    }
    assert("args"@ != "line2"@) by {
        assert("args"@.len() != "line2"@.len());
    }
    assert("args"@ != "range"@) by {
        assert("args"@.len() != "range"@.len());
    }
    assert("args"@ != "count"@) by {
        assert("args"@.len() != "count"@.len());
    }
    assert("args"@ != "reg"@) by {
        assert("args"@.len() != "reg"@.len());
    }
    assert("args"@ != "mods"@) by {
        assert("args"@[0] != "mods"@[0]);
    }
    assert("fargs"@ != "bang"@) by {
        assert("fargs"@.len() != "bang"@.len());
    }
    assert("fargs"@ != "line1"@) by {
        assert("fargs"@[0] != "line1"@[0]);
    }
    assert("fargs"@ != "line2"@) by {
        assert("fargs"@[0] != "line2"@[0]);
    }
    assert("fargs"@ != "range"@) by {
        assert("fargs"@[0] != "range"@[0]);
    }
    assert("fargs"@ != "count"@) by {
        assert("fargs"@[0] != "count"@[0]);
    }
    assert("fargs"@ != "reg"@) by {
        assert("fargs"@.len() != "reg"@.len());
    }
    assert("fargs"@ != "mods"@) by {
        assert("fargs"@.len() != "mods"@.len());
    }
    assert("bang"@ != "line1"@) by {
        assert("bang"@.len() != "line1"@.len());
    }
    assert("bang"@ != "line2"@) by {
        assert("bang"@.len() != "line2"@.len());
    }
    assert("bang"@ != "range"@) by {
        assert("bang"@.len() != "range"@.len());
    }
    assert("bang"@ != "count"@) by {
        assert("bang"@.len() != "count"@.len());
    }
    assert("bang"@ != "reg"@) by {
        assert("bang"@.len() != "reg"@.len());
    }
    assert("bang"@ != "mods"@) by {
        assert("bang"@[0] != "mods"@[0]);
    }
    assert("line1"@ != "line2"@) by {
        assert("line1"@[4] != "line2"@[4]);
    }
    assert("line1"@ != "range"@) by {
        assert("line1"@[0] != "range"@[0]);
    }
    assert("line1"@ != "count"@) by {
        assert("line1"@[0] != "count"@[0]);
    }
    assert("line1"@ != "reg"@) by {
        assert("line1"@.len() != "reg"@.len());
    }
    assert("line1"@ != "mods"@) by {
        assert("line1"@.len() != "mods"@.len());
    }
    assert("line2"@ != "range"@) by {
        assert("line2"@[0] != "range"@[0]);
    }
    assert("line2"@ != "count"@) by {
        assert("line2"@[0] != "count"@[0]);
    }
    assert("line2"@ != "reg"@) by {
        assert("line2"@.len() != "reg"@.len());
    }
    assert("line2"@ != "mods"@) by {
        assert("line2"@.len() != "mods"@.len());
    }
    assert("range"@ != "count"@) by {
        assert("range"@[0] != "count"@[0]);
    }
    assert("range"@ != "reg"@) by {
        assert("range"@.len() != "reg"@.len());
    }
    assert("range"@ != "mods"@) by {
        assert("range"@.len() != "mods"@.len());
    }
    assert("count"@ != "reg"@) by {
        assert("count"@.len() != "reg"@.len());
    }
    assert("count"@ != "mods"@) by {
        assert("count"@.len() != "mods"@.len());
    }
    assert("reg"@ != "mods"@) by {
        assert("reg"@.len() != "mods"@.len());
    }
    let p1 = opt_entry("args"@, opt_str::<H>(o.args));
    lemma_lookup_entries("args"@, LuaModel::Nil, opt_str::<H>(o.args));
    let p2 = entry("fargs"@, LuaModel::<H>::Array(strings_model::<H>(o.fargs@)));
    lemma_lookup_entries("fargs"@, LuaModel::<H>::Array(strings_model::<H>(o.fargs@)), None);
    let p3 = entry("bang"@, LuaModel::<H>::Boolean(o.bang));
    lemma_lookup_entries("bang"@, LuaModel::<H>::Boolean(o.bang), None);
    let p4 = opt_entry("line1"@, match o.line1 {
        Some(x) => Some(LuaModel::<H>::Integer(x as int)),
        None => None,
    });
    lemma_lookup_entries("line1"@, LuaModel::Nil, match o.line1 {
        Some(x) => Some(LuaModel::<H>::Integer(x as int)),
        None => None,
    });
    let p5 = opt_entry("line2"@, match o.line2 {
        Some(x) => Some(LuaModel::<H>::Integer(x as int)),
        None => None,
    });
    lemma_lookup_entries("line2"@, LuaModel::Nil, match o.line2 {
        Some(x) => Some(LuaModel::<H>::Integer(x as int)),
        None => None,
    });
    let p6 = opt_entry("range"@, match o.range {
        Some(x) => Some(LuaModel::<H>::Integer(x as int)),
        None => None,
    });
    lemma_lookup_entries("range"@, LuaModel::Nil, match o.range {
        Some(x) => Some(LuaModel::<H>::Integer(x as int)),
        None => None,
    });
    let p7 = opt_entry("count"@, match o.count {
        Some(x) => Some(LuaModel::<H>::Integer(x as int)),
        None => None,
    });
    lemma_lookup_entries("count"@, LuaModel::Nil, match o.count {
        Some(x) => Some(LuaModel::<H>::Integer(x as int)),
        None => None,
    });
    let p8 = opt_entry("reg"@, opt_str::<H>(o.reg));
    lemma_lookup_entries("reg"@, LuaModel::Nil, opt_str::<H>(o.reg));
    let p9 = opt_entry("mods"@, opt_str::<H>(o.mods));
    lemma_lookup_entries("mods"@, LuaModel::Nil, opt_str::<H>(o.mods));
    lemma_lookup_concat(p1, p2);
    lemma_lookup_concat(p1 + p2, p3);
    lemma_lookup_concat(p1 + p2 + p3, p4);
    lemma_lookup_concat(p1 + p2 + p3 + p4, p5);
    lemma_lookup_concat(p1 + p2 + p3 + p4 + p5, p6);
    lemma_lookup_concat(p1 + p2 + p3 + p4 + p5 + p6, p7);
    lemma_lookup_concat(p1 + p2 + p3 + p4 + p5 + p6 + p7, p8);
    lemma_lookup_concat(p1 + p2 + p3 + p4 + p5 + p6 + p7 + p8, p9);
}

/// What an autocommand's Lua function receives when the autocommand runs.
#[derive(Clone, Debug, PartialEq)]
pub struct AutocmdCallbackData {
    pub id: i64,
    pub event: String,
    pub group: Option<i64>,
    pub matc: Option<String>,
    pub buf: i64,
    pub file: Option<String>,
}

/// An autocommand, as `nvim_get_autocmds` describes it.
#[derive(Debug, Default, PartialEq)]
pub struct AutoCmd {
    pub id: Option<i64>,
    pub group: Option<i64>,
    pub group_name: Option<String>,
    pub desc: Option<String>,
    pub event: String,
    pub command: Option<String>,
    pub once: bool,
    pub pattern: String,
    pub buflocal: bool,
    pub buffer: Option<i64>,
}

/// `vim.api.*`: the functions of Neovim's API, as calls of the members of
/// the table at `path`.
///
/// [Neovim doc](https://neovim.io/doc/user/api.html#api-global)
#[derive(Debug, PartialEq)]
pub struct Api {
    pub path: Vec<Key>,
}

#[allow(non_snake_case)]
impl Api {
    /// Calls `nvim__get_runtime`; Neovim answers with any Lua value.
    ///
    /// [Neovim doc](https://neovim.io/doc/user/api.html#nvim__get_runtime%28%29)
    pub fn nvim__get_runtime<H>(
        &self,
        pat: &[&str],
        all: bool,
        opts: NvimGetRuntimeOpts,
    ) -> (c: LuaCall<H>)
        ensures
            c.function_model() == member(keys_model(self.path@), "nvim__get_runtime"@),
            c.args_model() == seq![
                LuaModel::Array(pat@.map_values(|t: &str| LuaModel::<H>::Str(t@))),
                LuaModel::Boolean(all),
                opts.model::<H>(),
            ],
    {
        let mut args: Vec<LuaValue<H>> = Vec::new();
        push_value(&mut args, strs_to_lua(pat));
        push_value(&mut args, LuaValue::Boolean(all));
        push_value(&mut args, opts.to_lua());
        assert(values_model(args@) =~= seq![
            LuaModel::Array(pat@.map_values(|t: &str| LuaModel::<H>::Str(t@))),
            LuaModel::Boolean(all),
            opts.model::<H>(),
        ]);
        call_member(&self.path, "nvim__get_runtime", args)
    }

    /// Calls `nvim_buf_create_user_command`.
    ///
    /// [Neovim doc](https://neovim.io/doc/user/api.html#nvim_buf_create_user_command%28%29)
    pub fn nvim_buf_create_user_command<H>(
        &self,
        buffer: Index,
        name: String,
        command: Command<H>,
        opts: NvimCreateUserCommandOpts,
    ) -> (c: LuaCall<H>)
        ensures
            c.function_model() == member(keys_model(self.path@), "nvim_buf_create_user_command"@),
            c.args_model() == seq![
                LuaModel::Integer(buffer.number()),
                LuaModel::Str(name@),
                command.model(),
                opts.model::<H>(),
            ],
    {
        let mut args: Vec<LuaValue<H>> = Vec::new();
        push_value(&mut args, buffer.to_lua());
        push_value(&mut args, LuaValue::String(name));
        push_value(&mut args, command.to_lua());
        push_value(&mut args, opts.to_lua());
        assert(values_model(args@) =~= seq![
            LuaModel::Integer(buffer.number()),
            LuaModel::Str(name@),
            command.model(),
            opts.model::<H>(),
        ]);
        call_member(&self.path, "nvim_buf_create_user_command", args)
    }

    /// Calls `nvim_create_autocmd`; Neovim answers with the number of the new autocommand.
    ///
    /// [Neovim doc](https://neovim.io/doc/user/api.html#nvim_create_autocmd%28%29)
    pub fn nvim_create_autocmd<H>(
        &self,
        events: Vec<String>,
        opts: NvimCreateAutocmdsOpts<H>,
    ) -> (c: LuaCall<H>)
        ensures
            c.function_model() == member(keys_model(self.path@), "nvim_create_autocmd"@),
            c.args_model() == seq![LuaModel::Array(strings_model::<H>(events@)), opts.model()],
    {
        let mut args: Vec<LuaValue<H>> = Vec::new();
        push_value(&mut args, strings_to_lua(&events));
        push_value(&mut args, opts.to_lua());
        assert(values_model(args@) =~= seq![
            LuaModel::Array(strings_model::<H>(events@)),
            opts.model(),
        ]);
        call_member(&self.path, "nvim_create_autocmd", args)
    }

    /// Calls `nvim_exec`; Neovim answers with the output as text.
    ///
    /// [Neovim doc](https://neovim.io/doc/user/api.html#nvim_exec%28%29)
    pub fn nvim_exec<H>(&self, src: &str, output: bool) -> (c: LuaCall<H>)
        ensures
            c.function_model() == member(keys_model(self.path@), "nvim_exec"@),
            c.args_model() == seq![LuaModel::<H>::Str(src@), LuaModel::Boolean(output)],
    {
        let mut args: Vec<LuaValue<H>> = Vec::new();
        push_value(&mut args, LuaValue::String(String::from_str(src)));
        push_value(&mut args, LuaValue::Boolean(output));
        assert(values_model(args@) =~= seq![LuaModel::<H>::Str(src@), LuaModel::Boolean(output)]);
        call_member(&self.path, "nvim_exec", args)
    }

    /// Calls `nvim_get_autocmds`; Neovim answers with a list of [`AutoCmd`].
    ///
    /// [Neovim doc](https://neovim.io/doc/user/api.html#nvim_get_autocmds%28%29)
    pub fn nvim_get_autocmds<H>(&self, opts: NvimGetAutocmdsOpts) -> (c: LuaCall<H>)
        ensures
            c.function_model() == member(keys_model(self.path@), "nvim_get_autocmds"@),
            c.args_model() == seq![opts.model::<H>()],
    {
        let mut args: Vec<LuaValue<H>> = Vec::new();
        push_value(&mut args, opts.to_lua());
        assert(values_model(args@) =~= seq![opts.model::<H>()]);
        call_member(&self.path, "nvim_get_autocmds", args)
    }

    /// Calls `nvim_get_runtime_file`; Neovim answers with a list of paths.
    ///
    /// [Neovim doc](https://neovim.io/doc/user/api.html#nvim_get_runtime_file%28%29)
    pub fn nvim_get_runtime_file<H>(&self, glob: &str, all: bool) -> (c: LuaCall<H>)
        ensures
            c.function_model() == member(keys_model(self.path@), "nvim_get_runtime_file"@),
            c.args_model() == seq![LuaModel::<H>::Str(glob@), LuaModel::Boolean(all)],
    {
        let mut args: Vec<LuaValue<H>> = Vec::new();
        push_value(&mut args, LuaValue::String(String::from_str(glob)));
        push_value(&mut args, LuaValue::Boolean(all));
        assert(values_model(args@) =~= seq![LuaModel::<H>::Str(glob@), LuaModel::Boolean(all)]);
        call_member(&self.path, "nvim_get_runtime_file", args)
    }

    /// Calls `nvim_set_keymap`.
    ///
    /// [Neovim doc](https://neovim.io/doc/user/api.html#nvim_set_keymap%28%29)
    pub fn nvim_set_keymap<H>(
        &self,
        mode: Mode,
        lhs: &str,
        rhs: &str,
        opts: NvimSetKeymapOpts<H>,
    ) -> (c: LuaCall<H>)
        ensures
            c.function_model() == member(keys_model(self.path@), "nvim_set_keymap"@),
            c.args_model() == seq![
                LuaModel::Str(mode_short_name(mode)),
                LuaModel::Str(lhs@),
                LuaModel::Str(rhs@),
                opts.model(),
            ],
    {
        let mut args: Vec<LuaValue<H>> = Vec::new();
        push_value(&mut args, mode.to_lua());
        push_value(&mut args, LuaValue::String(String::from_str(lhs)));
        push_value(&mut args, LuaValue::String(String::from_str(rhs)));
        push_value(&mut args, opts.to_lua());
        assert(values_model(args@) =~= seq![
            LuaModel::Str(mode_short_name(mode)),
            LuaModel::Str(lhs@),
            LuaModel::Str(rhs@),
            opts.model(),
        ]);
        call_member(&self.path, "nvim_set_keymap", args)
    }
}

fn parse_mode(text: &str) -> (r: Option<Mode>)
    ensures
        r matches Some(m) ==> (mode_short_name(m) == text@ || mode_variant_name(m) == text@),
        r is None ==> forall|m: Mode|
            mode_short_name(m) != text@ && mode_variant_name(m) != text@,
{
    if same_text(text, "") || same_text(text, "NormalVisualSelectOperatorPending") {
        return Some(Mode::NormalVisualSelectOperatorPending);
    }
    if same_text(text, "n") || same_text(text, "Normal") {
        return Some(Mode::Normal);
    }
    if same_text(text, "v") || same_text(text, "VisualSelect") {
        return Some(Mode::VisualSelect);
    }
    if same_text(text, "s") || same_text(text, "Select") {
        return Some(Mode::Select);
    }
    if same_text(text, "x") || same_text(text, "Visual") {
        return Some(Mode::Visual);
    }
    if same_text(text, "o") || same_text(text, "OperatorPending") {
        return Some(Mode::OperatorPending);
    }
    if same_text(text, "!") || same_text(text, "InsertCommandline") {
        return Some(Mode::InsertCommandline);
    }
    if same_text(text, "i") || same_text(text, "Insert") {
        return Some(Mode::Insert);
    }
    if same_text(text, "l") || same_text(text, "InsertCommandLineLangArg") {
        return Some(Mode::InsertCommandLineLangArg);
    }
    if same_text(text, "c") || same_text(text, "CommandLine") {
        return Some(Mode::CommandLine);
    }
    if same_text(text, "t") || same_text(text, "Terminal") {
        return Some(Mode::Terminal);
    }
    None
}

} // verus!
