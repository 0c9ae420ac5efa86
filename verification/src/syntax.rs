//! The grammar of an API definition's text, and a parser for it.
//!
//! An input holds definitions one after another:
//!
//! ```text
//! definition := attribute* NAME "(" STRING ("#" STRING)? ")" ("{" member* "}")?
//! member     := attribute* NAME ":" type ","?
//!             | attribute* NAME "(" (param ("," param)* ","?)? ")" ("->" type)? ("{" tokens "}")?
//! param      := attribute* "ref"? "mut"? NAME ":" type
//! attribute  := "#" "[" "::"? SEGMENT ("::" SEGMENT)* tokens "]" | doc comment
//! type       := "&" LIFETIME? "mut"? type | "*" ("const" | "mut") type
//!             | "(" (type ("," type)* ","?)? ")" | "[" type (";" tokens)? "]"
//!             | "!" | "_" | ("dyn" | "impl") bounds | bare-fn | "for" "<" args bounds
//!             | "<" type ("as" path)? ">" "::" segments
//!             | path ("!" group | "+" bounds)?
//! bare-fn    := ("for" "<" args)? "unsafe"? ("extern" STRING?)? "fn" "(" fn-args ")" ("->" type)?
//! path       := "::"? segments
//! segments   := SEGMENT ("::"? "<" args | "(" types ")" ("->" type)?)? ("::" segments)?
//! args       := ((LIFETIME | "{" tokens "}" | LITERAL | NAME "=" type | NAME ":" bounds
//!                | type) ("," ...)* ","?)? ">"
//! bounds     := bound ("+" bound)* "+"?
//! bound      := LIFETIME | "(" bound ")" | "?" path | "for" "<" args path | path
//! ```
//!
//! A NAME is an identifier that is not a keyword, or a raw identifier
//! `r#name`; a SEGMENT is a NAME or one of `crate`, `self`, `super`, `Self`.
//! Identifiers are ASCII letters, digits and `_`, not starting with a
//! digit. `tokens` are any tokens whose brackets `()`, `[]` and `{}` nest,
//! kept as text. Between tokens stand Rust's whitespace and comments
//! other than doc comments: `//` comments and nested `/* */` comments. Doc
//! comments (`///`, `/** */`) are attributes named `doc`; inner doc comments
//! (`//!`, `/*! */`) are refused. Strings are written in double quotes, with
//! the escapes `\n`, `\r`, `\t`, `\0`, `\\`, `\"`, `\'`, `\x` followed by
//! two hexadecimal digits up to `7F`, `\u{...}` and a backslash before a line
//! break (which skips the ASCII whitespace after it), or raw, as `r"..."`
//! or `r#"..."#`; a suffix (an identifier) may follow a string and does not
//! change its value.
use vstd::prelude::*;
use crate::macros::{
    api, api_model, ApiError, ApiExpansion, ApiExpansionModel, attrs_model, opt_text, params_model, ApiDefinition, ApiDefinitionModel, ApiItem, ApiItemModel,
    Attr, AttrModel, ItemKind, Param, ParamModel,
};
use crate::text::chars_of;

verus! {

/// `t[i]` exists and is `c`.
pub open spec fn at(t: Seq<char>, i: int, c: char) -> bool {
    0 <= i < t.len() && t[i] == c
}

/// `j` is after `i` and within the text.
pub open spec fn fwd(t: Seq<char>, i: int, j: int) -> bool {
    i < j <= t.len()
}

/// `c` is whitespace to Rust (Unicode's Pattern_White_Space): space, tab,
/// line feed, vertical tab, form feed, carriage return, next line, the
/// left-to-right and right-to-left marks, and the line and paragraph
/// separators.
pub open spec fn is_space(c: char) -> bool {
    c == ' ' || c == '\t' || c == '\n' || c == '\u{0B}' || c == '\u{0C}' || c == '\r' || c
        == '\u{85}' || c == '\u{200E}' || c == '\u{200F}' || c == '\u{2028}' || c == '\u{2029}'
}

/// `c` is ASCII whitespace, which a backslash before a line break in a
/// string skips: space, tab, line feed, carriage return.
pub open spec fn is_ascii_space(c: char) -> bool {
    c == ' ' || c == '\t' || c == '\n' || c == '\r'
}

pub open spec fn is_ident_start(c: char) -> bool {
    ('a' as u32 <= c as u32 <= 'z' as u32) || ('A' as u32 <= c as u32 <= 'Z' as u32) || c == '_'
}

pub open spec fn is_ident_char(c: char) -> bool {
    is_ident_start(c) || ('0' as u32 <= c as u32 <= '9' as u32)
}

/// A `//` comment that is not a doc comment starts at `i`.
pub open spec fn plain_line_comment(t: Seq<char>, i: int) -> bool {
    at(t, i, '/') && at(t, i + 1, '/') && !at(t, i + 2, '!') && (!at(t, i + 2, '/') || at(
        t,
        i + 3,
        '/',
    ))
}

/// A `///` doc comment starts at `i`.
pub open spec fn doc_comment(t: Seq<char>, i: int) -> bool {
    at(t, i, '/') && at(t, i + 1, '/') && at(t, i + 2, '/') && !at(t, i + 3, '/')
}

/// A `/** */` doc comment starts at `i` (not `/**/`, nor `/***`).
pub open spec fn doc_block(t: Seq<char>, i: int) -> bool {
    at(t, i, '/') && at(t, i + 1, '*') && at(t, i + 2, '*') && !at(t, i + 3, '*') && !at(
        t,
        i + 3,
        '/',
    )
}

/// A `/* */` comment that is not a doc comment starts at `i`.
pub open spec fn plain_block(t: Seq<char>, i: int) -> bool {
    at(t, i, '/') && at(t, i + 1, '*') && !at(t, i + 2, '!') && !doc_block(t, i)
}

/// The end of the line that `i` is on: the position of the next line break,
/// or the end of the text.
pub open spec fn line_end(t: Seq<char>, i: int) -> int
    decreases t.len() - i,
{
    if i < 0 || i >= t.len() || t[i] == '\n' {
        i
    } else {
        line_end(t, i + 1)
    }
}

/// The position after the `*/` that closes a block comment whose content
/// continues at `i`, `depth` comments deep inside it (block comments nest),
/// if one does.
pub open spec fn block_end(t: Seq<char>, i: int, depth: nat) -> Option<int>
    decreases t.len() - i,
{
    if !(0 <= i && i + 1 < t.len()) {
        None
    } else if t[i] == '*' && t[i + 1] == '/' {
        if depth == 0 {
            Some(i + 2)
        } else {
            block_end(t, i + 2, (depth - 1) as nat)
        }
    } else if t[i] == '/' && t[i + 1] == '*' {
        block_end(t, i + 2, depth + 1)
    } else {
        block_end(t, i + 1, depth)
    }
}

pub proof fn lemma_line_end(t: Seq<char>, i: int)
    requires
        0 <= i <= t.len(),
    ensures
        i <= line_end(t, i) <= t.len(),
    decreases t.len() - i,
{
    if i < t.len() && t[i] != '\n' {
        lemma_line_end(t, i + 1);
    }
}

pub proof fn lemma_block_end(t: Seq<char>, i: int, depth: nat)
    requires
        0 <= i <= t.len(),
    ensures
        block_end(t, i, depth) matches Some(e) ==> i + 2 <= e <= t.len(),
    decreases t.len() - i,
{
    if i + 1 < t.len() {
        if t[i] == '*' && t[i + 1] == '/' {
            if depth > 0 {
                lemma_block_end(t, i + 2, (depth - 1) as nat);
            }
        } else if t[i] == '/' && t[i + 1] == '*' {
            lemma_block_end(t, i + 2, depth + 1);
        } else {
            lemma_block_end(t, i + 1, depth);
        }
    }
}

/// The first position at or after `i` that is not inside spaces or
/// comments.
pub open spec fn skip(t: Seq<char>, i: int) -> int
    decreases t.len() - i,
{
    if i < 0 || i >= t.len() {
        i
    } else if is_space(t[i]) {
        skip(t, i + 1)
    } else if plain_line_comment(t, i) {
        proof {
            lemma_line_end(t, i + 2);
        }
        skip(t, line_end(t, i + 2))
    } else if plain_block(t, i) {
        proof {
            lemma_block_end(t, i + 2, 0);
        }
        match block_end(t, i + 2, 0) {
            Some(e) => skip(t, e),
            None => i,
        }
    } else {
        i
    }
}

pub proof fn lemma_skip(t: Seq<char>, i: int)
    requires
        0 <= i <= t.len(),
    ensures
        i <= skip(t, i) <= t.len(),
    decreases t.len() - i,
{
    if i < t.len() {
        if is_space(t[i]) {
            lemma_skip(t, i + 1);
        } else if plain_line_comment(t, i) {
            lemma_line_end(t, i + 2);
            lemma_skip(t, line_end(t, i + 2));
        } else if plain_block(t, i) {
            lemma_block_end(t, i + 2, 0);
            if let Some(e) = block_end(t, i + 2, 0) {
                lemma_skip(t, e);
            }
        }
    }
}

/// Rust's whitespace between tokens counts for nothing: at a space, tab,
/// line feed, vertical tab, form feed, carriage return, next line,
/// left-to-right or right-to-left mark, line or paragraph separator,
/// skipping ends where skipping from the next character ends; and skipping
/// never ends on one of these characters.
pub proof fn lemma_whitespace_is_skipped(t: Seq<char>, i: int)
    requires
        0 <= i <= t.len(),
    ensures
        i < t.len() && (t[i] == ' ' || t[i] == '\t' || t[i] == '\n' || t[i] == '\u{0B}' || t[i]
            == '\u{0C}' || t[i] == '\r' || t[i] == '\u{85}' || t[i] == '\u{200E}' || t[i]
            == '\u{200F}' || t[i] == '\u{2028}' || t[i] == '\u{2029}') ==> skip(t, i) == skip(
            t,
            i + 1,
        ),
        skip(t, i) < t.len() ==> {
            let c = t[skip(t, i)];
            !(c == ' ' || c == '\t' || c == '\n' || c == '\u{0B}' || c == '\u{0C}' || c == '\r'
                || c == '\u{85}' || c == '\u{200E}' || c == '\u{200F}' || c == '\u{2028}' || c
                == '\u{2029}')
        },
    decreases t.len() - i,
{
    if i < t.len() {
        if is_space(t[i]) {
            lemma_whitespace_is_skipped(t, i + 1);
        } else if plain_line_comment(t, i) {
            lemma_line_end(t, i + 2);
            lemma_whitespace_is_skipped(t, line_end(t, i + 2));
        } else if plain_block(t, i) {
            lemma_block_end(t, i + 2, 0);
            if let Some(e) = block_end(t, i + 2, 0) {
                lemma_whitespace_is_skipped(t, e);
            }
        }
    }
}

/// The end of the run of identifier characters starting at `i`.
pub open spec fn ident_end(t: Seq<char>, i: int) -> int
    decreases t.len() - i,
{
    if 0 <= i < t.len() && is_ident_char(t[i]) {
        ident_end(t, i + 1)
    } else {
        i
    }
}

pub proof fn lemma_ident_end(t: Seq<char>, i: int)
    requires
        0 <= i <= t.len(),
    ensures
        i <= ident_end(t, i) <= t.len(),
    decreases t.len() - i,
{
    if i < t.len() && is_ident_char(t[i]) {
        lemma_ident_end(t, i + 1);
    }
}

/// The end of the identifier (or keyword) starting at `i`, if one does.
pub open spec fn ident_at(t: Seq<char>, i: int) -> Option<int> {
    if 0 <= i < t.len() && is_ident_start(t[i]) {
        Some(ident_end(t, i + 1))
    } else {
        None
    }
}

pub proof fn lemma_ident_at(t: Seq<char>, i: int)
    requires
        0 <= i <= t.len(),
    ensures
        ident_at(t, i) matches Some(e) ==> i < e <= t.len(),
{
    if i < t.len() {
        lemma_ident_end(t, i + 1);
    }
}

/// The identifier or keyword at `i` is `w`.
pub open spec fn word_is(t: Seq<char>, i: int, w: Seq<char>) -> bool {
    match ident_at(t, i) {
        Some(e) => t.subrange(i, e) == w,
        None => false,
    }
}

/// The position after the identifier or keyword at `i` (or `i`).
pub open spec fn word_end(t: Seq<char>, i: int) -> int {
    match ident_at(t, i) {
        Some(e) => e,
        None => i,
    }
}

/// The first position after the word at `i` that is not in spaces or
/// comments.
pub open spec fn after_word(t: Seq<char>, i: int) -> int {
    skip(t, word_end(t, i))
}

pub proof fn lemma_after_word(t: Seq<char>, i: int)
    requires
        0 <= i <= t.len(),
        ident_at(t, i) is Some,
    ensures
        i < word_end(t, i) <= after_word(t, i) <= t.len(),
{
    lemma_ident_at(t, i);
    lemma_skip(t, word_end(t, i));
}

/// `w` is a keyword: it cannot name an item, a parameter or a path
/// segment.
pub open spec fn is_keyword(w: Seq<char>) -> bool {
    w == "_"@ || w == "abstract"@ || w == "as"@ || w == "async"@ || w == "await"@ || w
        == "become"@ || w == "box"@ || w == "break"@ || w == "const"@ || w == "continue"@ || w
        == "crate"@ || w == "do"@ || w == "dyn"@ || w == "else"@ || w == "enum"@ || w
        == "extern"@ || w == "false"@ || w == "final"@ || w == "fn"@ || w == "for"@ || w
        == "if"@ || w == "impl"@ || w == "in"@ || w == "let"@ || w == "loop"@ || w == "macro"@
        || w == "match"@ || w == "mod"@ || w == "move"@ || w == "mut"@ || w == "override"@ || w
        == "priv"@ || w == "pub"@ || w == "ref"@ || w == "return"@ || w == "Self"@ || w
        == "self"@ || w == "static"@ || w == "struct"@ || w == "super"@ || w == "trait"@ || w
        == "true"@ || w == "try"@ || w == "type"@ || w == "typeof"@ || w == "unsafe"@ || w
        == "unsized"@ || w == "use"@ || w == "virtual"@ || w == "where"@ || w == "while"@ || w
        == "yield"@
}

/// `w` is a keyword that may still stand as a segment of a path.
pub open spec fn is_path_keyword(w: Seq<char>) -> bool {
    w == "crate"@ || w == "self"@ || w == "super"@ || w == "Self"@
}

/// The end of the name at `i`: an identifier that is not a keyword, or a
/// raw identifier `r#name` (whose name is neither `_` nor a path keyword).
pub open spec fn name_at(t: Seq<char>, i: int) -> Option<int> {
    if at(t, i, 'r') && at(t, i + 1, '#') {
        match ident_at(t, i + 2) {
            None => None,
            Some(e) => if is_path_keyword(t.subrange(i + 2, e)) || t.subrange(i + 2, e) == "_"@ {
                None
            } else {
                Some(e)
            },
        }
    } else {
        match ident_at(t, i) {
            None => None,
            Some(e) => if is_keyword(t.subrange(i, e)) {
                None
            } else {
                Some(e)
            },
        }
    }
}

/// A name is never one of Rust's keywords unless it is written raw: where
/// a name is read at `i` without `r#`, its text is none of the keywords;
/// written raw, it is none of `crate`, `self`, `super`, `Self` and `_`.
pub proof fn lemma_names_are_not_keywords(t: Seq<char>, i: int)
    ensures
        name_at(t, i) matches Some(e) ==> {
            let w = t.subrange(i, e);
            !(at(t, i, 'r') && at(t, i + 1, '#')) ==> !(w == "_"@ || w == "abstract"@ || w == "as"@ || w == "async"@ || w == "await"@ || w ==
                "become"@ || w == "box"@ || w == "break"@ || w == "const"@ || w == "continue"@ || w ==
                "crate"@ || w == "do"@ || w == "dyn"@ || w == "else"@ || w == "enum"@ || w == "extern"@
                || w == "false"@ || w == "final"@ || w == "fn"@ || w == "for"@ || w == "if"@ || w ==
                "impl"@ || w == "in"@ || w == "let"@ || w == "loop"@ || w == "macro"@ || w == "match"@
                || w == "mod"@ || w == "move"@ || w == "mut"@ || w == "override"@ || w == "priv"@ || w
                == "pub"@ || w == "ref"@ || w == "return"@ || w == "Self"@ || w == "self"@ || w ==
                "static"@ || w == "struct"@ || w == "super"@ || w == "trait"@ || w == "true"@ || w ==
                "try"@ || w == "type"@ || w == "typeof"@ || w == "unsafe"@ || w == "unsized"@ || w ==
                "use"@ || w == "virtual"@ || w == "where"@ || w == "while"@ || w == "yield"@)
        },
        name_at(t, i) matches Some(e) ==> {
            let w = t.subrange(i + 2, e);
            (at(t, i, 'r') && at(t, i + 1, '#')) ==> !(w == "crate"@ || w == "self"@ || w
                == "super"@ || w == "Self"@ || w == "_"@)
        },
{
}

/// The end of the path segment at `i`: a name or a path keyword.
pub open spec fn seg_name_at(t: Seq<char>, i: int) -> Option<int> {
    match name_at(t, i) {
        Some(e) => Some(e),
        None => match ident_at(t, i) {
            Some(e) => if is_path_keyword(t.subrange(i, e)) {
                Some(e)
            } else {
                None
            },
            None => None,
        },
    }
}

pub proof fn lemma_seg_name_at(t: Seq<char>, i: int)
    requires
        0 <= i <= t.len(),
    ensures
        name_at(t, i) matches Some(e) ==> i < e <= t.len(),
        seg_name_at(t, i) matches Some(e) ==> i < e <= t.len(),
{
    lemma_ident_at(t, i);
    if i + 2 <= t.len() {
        lemma_ident_at(t, i + 2);
    }
}

/// The value of a hexadecimal digit, or -1.
pub open spec fn hex_val(c: char) -> int {
    if '0' as u32 <= c as u32 <= '9' as u32 {
        c as u32 - '0' as u32
    } else if 'a' as u32 <= c as u32 <= 'f' as u32 {
        c as u32 - 'a' as u32 + 10
    } else if 'A' as u32 <= c as u32 <= 'F' as u32 {
        c as u32 - 'A' as u32 + 10
    } else {
        -1
    }
}

/// `v` is the number of a character.
pub open spec fn valid_scalar(v: int) -> bool {
    0 <= v <= 0x10FFFF && !(0xD800 <= v <= 0xDFFF)
}

/// The character that a one-letter escape `\c` stands for.
pub open spec fn simple_escape(c: char) -> Option<char> {
    if c == 'n' {
        Some('\n')
    } else if c == 't' {
        Some('\t')
    } else if c == 'r' {
        Some('\r')
    } else if c == '0' {
        Some('\0')
    } else if c == '\\' {
        Some('\\')
    } else if c == '"' {
        Some('"')
    } else if c == '\'' {
        Some('\'')
    } else {
        None
    }
}

/// The first position at or after `j` that is not a space.
pub open spec fn space_end(t: Seq<char>, j: int) -> int
    decreases t.len() - j,
{
    if 0 <= j < t.len() && is_ascii_space(t[j]) {
        space_end(t, j + 1)
    } else {
        j
    }
}

/// The digits of `\u{...}` from `j`, with value `v` and `n` digits so far:
/// the number written and the position after the `}`.
pub open spec fn unicode_digits(t: Seq<char>, j: int, v: int, n: nat) -> Option<(int, int)>
    decreases t.len() - j,
{
    if !(0 <= j < t.len()) {
        None
    } else if t[j] == '}' {
        if n >= 1 {
            Some((v, j + 1))
        } else {
            None
        }
    } else if hex_val(t[j]) >= 0 {
        if n >= 6 {
            None
        } else {
            unicode_digits(t, j + 1, 16 * v + hex_val(t[j]), n + 1)
        }
    } else if t[j] == '_' && n >= 1 {
        unicode_digits(t, j + 1, v, n)
    } else {
        None
    }
}

/// The escape whose backslash stands before `j`: the character it stands
/// for (none for a backslash before a line break, which skips the spaces
/// after it) and the position after it.
pub open spec fn escape_at(t: Seq<char>, j: int) -> Option<(Option<char>, int)> {
    if !(0 <= j < t.len()) {
        None
    } else if simple_escape(t[j]) is Some {
        Some((simple_escape(t[j]), j + 1))
    } else if t[j] == 'x' {
        if j + 2 < t.len() && hex_val(t[j + 1]) >= 0 && hex_val(t[j + 2]) >= 0 && 16 * hex_val(
            t[j + 1],
        ) + hex_val(t[j + 2]) <= 0x7F {
            Some((Some((16 * hex_val(t[j + 1]) + hex_val(t[j + 2])) as char), j + 3))
        } else {
            None
        }
    } else if t[j] == 'u' && at(t, j + 1, '{') {
        match unicode_digits(t, j + 2, 0, 0) {
            Some((v, e)) => if valid_scalar(v) {
                Some((Some(v as char), e))
            } else {
                None
            },
            None => None,
        }
    } else if t[j] == '\n' {
        Some((None, space_end(t, j + 1)))
    } else if t[j] == '\r' && at(t, j + 1, '\n') {
        Some((None, space_end(t, j + 2)))
    } else {
        None
    }
}

/// The rest of a string literal from `i`, whose value so far is `acc`: its
/// value and the position after its closing quote.
pub open spec fn str_rest(t: Seq<char>, i: int, acc: Seq<char>) -> Option<(Seq<char>, int)>
    decreases t.len() - i,
{
    if !(0 <= i < t.len()) {
        None
    } else if t[i] == '"' {
        Some((acc, i + 1))
    } else if t[i] == '\\' {
        match escape_at(t, i + 1) {
            None => None,
            Some((c, e)) => if !fwd(t, i, e) {
                None
            } else {
                match c {
                    Some(c) => str_rest(t, e, acc.push(c)),
                    None => str_rest(t, e, acc),
                }
            },
        }
    } else {
        str_rest(t, i + 1, acc.push(t[i]))
    }
}

/// The number of `#` from `j` on.
pub open spec fn hash_run(t: Seq<char>, j: int) -> nat
    decreases t.len() - j,
{
    if at(t, j, '#') {
        1 + hash_run(t, j + 1)
    } else {
        0
    }
}

/// The first `"` at or after `k` followed by at least `h` of `#`.
pub open spec fn raw_close(t: Seq<char>, k: int, h: nat) -> Option<int>
    decreases t.len() - k,
{
    if !(0 <= k < t.len()) {
        None
    } else if t[k] == '"' && hash_run(t, k + 1) >= h {
        Some(k)
    } else {
        raw_close(t, k + 1, h)
    }
}

/// The raw string whose `r` stands before `j` (`r"..."`, `r#"..."#`, ...):
/// its value and the position after it.
pub open spec fn raw_str(t: Seq<char>, j: int) -> Option<(Seq<char>, int)> {
    let h = hash_run(t, j);
    if !at(t, j + h, '"') {
        None
    } else {
        match raw_close(t, j + h + 1, h) {
            None => None,
            Some(k) => Some((t.subrange(j + h + 1, k), k + 1 + h)),
        }
    }
}

/// The position after the suffix (an identifier) that may follow a
/// literal ending at `e`.
pub open spec fn suffix_end(t: Seq<char>, e: int) -> int {
    match ident_at(t, e) {
        Some(f) => f,
        None => e,
    }
}

/// The string literal starting at `i`, plain or raw, with an optional
/// suffix: its value and the position after it.
pub open spec fn lit_str(t: Seq<char>, i: int) -> Option<(Seq<char>, int)> {
    let lit = if at(t, i, '"') {
        str_rest(t, i + 1, Seq::empty())
    } else if at(t, i, 'r') {
        raw_str(t, i + 1)
    } else {
        None
    };
    match lit {
        Some((v, e)) => Some((v, suffix_end(t, e))),
        None => None,
    }
}

/// The position after the closing quote of a string (or byte string) whose
/// content continues at `j`; an escape takes the character after its
/// backslash with it.
pub open spec fn str_skip(t: Seq<char>, j: int) -> Option<int>
    decreases t.len() - j,
{
    if !(0 <= j < t.len()) {
        None
    } else if t[j] == '"' {
        Some(j + 1)
    } else if t[j] == '\\' {
        if j + 1 < t.len() {
            str_skip(t, j + 2)
        } else {
            None
        }
    } else {
        str_skip(t, j + 1)
    }
}

/// The position after the first `'` at or after `j`.
pub open spec fn quote_from(t: Seq<char>, j: int) -> Option<int>
    decreases t.len() - j,
{
    if !(0 <= j < t.len()) {
        None
    } else if t[j] == '\'' {
        Some(j + 1)
    } else {
        quote_from(t, j + 1)
    }
}

/// The position after the character literal starting at `i`, if one does
/// (else the `'` starts a lifetime).
pub open spec fn char_skip(t: Seq<char>, i: int) -> Option<int> {
    if at(t, i + 1, '\\') {
        quote_from(t, i + 3)
    } else if at(t, i + 2, '\'') && !at(t, i + 1, '\'') {
        Some(i + 3)
    } else {
        None
    }
}

/// The position after the token, or comment, that starts at `i` and holds
/// no bracket: a string, a character literal, a comment, a word (or a raw
/// string after its `r` or `br`), or one character.
pub open spec fn token_skip(t: Seq<char>, i: int) -> Option<int> {
    if !(0 <= i < t.len()) {
        None
    } else if t[i] == '"' {
        str_skip(t, i + 1)
    } else if at(t, i, '/') && at(t, i + 1, '/') {
        Some(line_end(t, i + 2))
    } else if at(t, i, '/') && at(t, i + 1, '*') {
        block_end(t, i + 2, 0)
    } else if t[i] == '\'' {
        match char_skip(t, i) {
            Some(e) => Some(e),
            None => Some(i + 1),
        }
    } else if is_ident_start(t[i]) {
        let e = ident_end(t, i + 1);
        if t.subrange(i, e) == "r"@ || t.subrange(i, e) == "br"@ {
            match raw_str(t, e) {
                Some((v, f)) => Some(f),
                None => Some(e),
            }
        } else {
            Some(e)
        }
    } else {
        Some(i + 1)
    }
}

pub open spec fn is_open(c: char) -> bool {
    c == '(' || c == '[' || c == '{'
}

pub open spec fn is_close(c: char) -> bool {
    c == ')' || c == ']' || c == '}'
}

/// The bracket that closes the bracket `c`.
pub open spec fn closer(c: char) -> char {
    if c == '(' {
        ')'
    } else if c == '[' {
        ']'
    } else {
        '}'
    }
}

/// Tokens from `i` on, inside groups whose closing brackets are `stack`
/// (the innermost last): the position after the bracket that closes the
/// outermost group. Brackets nest and match; those in strings, character
/// literals and comments do not count.
pub open spec fn tokens_end(t: Seq<char>, i: int, stack: Seq<char>) -> Option<int>
    decreases t.len() - i,
{
    if !(0 <= i < t.len()) || stack.len() == 0 {
        None
    } else if is_close(t[i]) {
        if t[i] != stack.last() {
            None
        } else if stack.len() == 1 {
            Some(i + 1)
        } else {
            tokens_end(t, i + 1, stack.drop_last())
        }
    } else if is_open(t[i]) {
        tokens_end(t, i + 1, stack.push(closer(t[i])))
    } else {
        match token_skip(t, i) {
            Some(j) => if fwd(t, i, j) {
                tokens_end(t, j, stack)
            } else {
                None
            },
            None => None,
        }
    }
}

/// A lifetime `'name` starting at `i`: the position after it.
pub open spec fn lifetime_at(t: Seq<char>, i: int) -> Option<int> {
    if at(t, i, '\'') {
        ident_at(t, i + 1)
    } else {
        None
    }
}

pub proof fn lemma_lifetime_at(t: Seq<char>, i: int)
    requires
        0 <= i <= t.len(),
    ensures
        lifetime_at(t, i) matches Some(e) ==> i < e <= t.len(),
{
    if at(t, i, '\'') {
        lemma_ident_at(t, i + 1);
    }
}

/// The first position after the one-character token at `i` that is not in
/// spaces or comments.
pub open spec fn next(t: Seq<char>, i: int) -> int {
    skip(t, i + 1)
}

pub proof fn lemma_next(t: Seq<char>, i: int)
    requires
        0 <= i < t.len(),
    ensures
        i < next(t, i) <= t.len(),
{
    lemma_skip(t, i + 1);
}

/// After `&` at `i`: the position of the referenced type, past an optional
/// lifetime and an optional `mut`.
pub open spec fn after_ref(t: Seq<char>, i: int) -> int {
    let j = next(t, i);
    let k = match lifetime_at(t, j) {
        Some(e) => skip(t, e),
        None => j,
    };
    if word_is(t, k, "mut"@) {
        after_word(t, k)
    } else {
        k
    }
}

pub proof fn lemma_after_ref(t: Seq<char>, i: int)
    requires
        at(t, i, '&'),
    ensures
        i < after_ref(t, i) <= t.len(),
{
    lemma_next(t, i);
    let j = next(t, i);
    lemma_lifetime_at(t, j);
    let k = match lifetime_at(t, j) {
        Some(e) => skip(t, e),
        None => j,
    };
    if let Some(e) = lifetime_at(t, j) {
        lemma_skip(t, e);
    }
    if word_is(t, k, "mut"@) {
        lemma_after_word(t, k);
    }
}

/// A bound may start at `j`.
pub open spec fn bound_start(t: Seq<char>, j: int) -> bool {
    (0 <= j < t.len() && is_ident_start(t[j])) || (at(t, j, ':') && at(t, j + 1, ':')) || at(
        t,
        j,
        '?',
    ) || at(t, j, '\'') || at(t, j, '(')
}

/// The end of the literal starting at `i`: a number, a string, a character
/// or `true` / `false`.
pub open spec fn literal_at(t: Seq<char>, i: int) -> Option<int> {
    if 0 <= i < t.len() && '0' as u32 <= t[i] as u32 <= '9' as u32 {
        Some(ident_end(t, i + 1))
    } else if at(t, i, '"') {
        str_skip(t, i + 1)
    } else if at(t, i, '\'') {
        char_skip(t, i)
    } else if word_is(t, i, "true"@) || word_is(t, i, "false"@) {
        Some(word_end(t, i))
    } else {
        None
    }
}

/// The end of the segments of a path from `i`: a segment with optional
/// generic arguments (`<...>`, `::<...>`, or `(...) -> T` as in `Fn`), then
/// more segments after `::`.
pub open spec fn segs(t: Seq<char>, i: int) -> Option<int>
    decreases 16 * (t.len() - i),
{
    if !(0 <= i <= t.len()) {
        None
    } else {
        match seg_name_at(t, i) {
            None => None,
            Some(e) => {
                proof {
                    lemma_seg_name_at(t, i);
                    lemma_skip(t, e);
                }
                let k = skip(t, e);
                let f = if at(t, k, '<') {
                    proof {
                        lemma_next(t, k);
                    }
                    args(t, next(t, k))
                } else if at(t, k, ':') && at(t, k + 1, ':') && at(t, skip(t, k + 2), '<') {
                    proof {
                        lemma_skip(t, k + 2);
                        lemma_next(t, skip(t, k + 2));
                    }
                    args(t, next(t, skip(t, k + 2)))
                } else if at(t, k, '(') {
                    proof {
                        lemma_next(t, k);
                    }
                    match tys(t, next(t, k)) {
                        None => None,
                        Some(p) => if !fwd(t, i, p) {
                            None
                        } else if at(t, skip(t, p), '-') && at(t, skip(t, p) + 1, '>') {
                            proof {
                                lemma_skip(t, p);
                                lemma_skip(t, skip(t, p) + 2);
                            }
                            ty(t, skip(t, skip(t, p) + 2), false)
                        } else {
                            Some(p)
                        },
                    }
                } else {
                    Some(e)
                };
                match f {
                    None => None,
                    Some(f) => if !fwd(t, i, f) {
                        None
                    } else if at(t, skip(t, f), ':') && at(t, skip(t, f) + 1, ':') {
                        proof {
                            lemma_skip(t, f);
                            lemma_skip(t, skip(t, f) + 2);
                        }
                        segs(t, skip(t, skip(t, f) + 2))
                    } else {
                        Some(f)
                    },
                }
            },
        }
    }
}

/// The end of a path starting at `i`.
pub open spec fn path(t: Seq<char>, i: int) -> Option<int>
    decreases 16 * (t.len() - i) + 1,
{
    if !(0 <= i <= t.len()) {
        None
    } else if at(t, i, ':') && at(t, i + 1, ':') {
        proof {
            lemma_skip(t, i + 2);
        }
        segs(t, skip(t, i + 2))
    } else {
        segs(t, i)
    }
}

/// The end of the bound starting at `i`: a lifetime, or a trait, maybe
/// `?`, `for<...>` or in parentheses.
pub open spec fn bound(t: Seq<char>, i: int) -> Option<int>
    decreases 16 * (t.len() - i) + 2,
{
    if !(0 <= i <= t.len()) {
        None
    } else if lifetime_at(t, i) is Some {
        lifetime_at(t, i)
    } else if at(t, i, '(') {
        proof {
            lemma_next(t, i);
        }
        match bound(t, next(t, i)) {
            None => None,
            Some(e) => if !fwd(t, i, e) {
                None
            } else if at(t, skip(t, e), ')') {
                Some(skip(t, e) + 1)
            } else {
                None
            },
        }
    } else if at(t, i, '?') {
        proof {
            lemma_next(t, i);
        }
        path(t, next(t, i))
    } else if word_is(t, i, "for"@) {
        proof {
            lemma_after_word(t, i);
        }
        let k = after_word(t, i);
        if at(t, k, '<') {
            proof {
                lemma_next(t, k);
            }
            match args(t, next(t, k)) {
                None => None,
                Some(a) => if !fwd(t, i, a) {
                    None
                } else {
                    proof {
                        lemma_skip(t, a);
                    }
                    path(t, skip(t, a))
                },
            }
        } else {
            None
        }
    } else {
        path(t, i)
    }
}

/// The end of the bounds starting at `i`, joined by `+` where `plus`
/// allows it (a last `+` may end them).
pub open spec fn bounds(t: Seq<char>, i: int, plus: bool) -> Option<int>
    decreases 16 * (t.len() - i) + 3,
{
    if !(0 <= i <= t.len()) {
        None
    } else {
        match bound(t, i) {
            None => None,
            Some(e) => if !fwd(t, i, e) {
                None
            } else if plus && at(t, skip(t, e), '+') {
                proof {
                    lemma_skip(t, e);
                    lemma_next(t, skip(t, e));
                }
                if bound_start(t, next(t, skip(t, e))) {
                    bounds(t, next(t, skip(t, e)), plus)
                } else {
                    Some(skip(t, e) + 1)
                }
            } else {
                Some(e)
            },
        }
    }
}

/// The end of the function pointer type starting at `i`:
/// `for<...> unsafe extern "abi" fn(args) -> T`, its first three parts
/// optional.
pub open spec fn bare_fn(t: Seq<char>, i: int) -> Option<int>
    decreases 16 * (t.len() - i) + 4,
{
    if !(0 <= i <= t.len()) {
        None
    } else {
        let a = if word_is(t, i, "for"@) {
            proof {
                lemma_after_word(t, i);
            }
            let k = after_word(t, i);
            if at(t, k, '<') {
                proof {
                    lemma_next(t, k);
                }
                match args(t, next(t, k)) {
                    None => None,
                    Some(x) => if !fwd(t, i, x) {
                        None
                    } else {
                        Some(skip(t, x))
                    },
                }
            } else {
                None
            }
        } else {
            Some(i)
        };
        match a {
            None => None,
            Some(a) => {
                let b = if word_is(t, a, "unsafe"@) {
                    after_word(t, a)
                } else {
                    a
                };
                let c = if word_is(t, b, "extern"@) {
                    let k = after_word(t, b);
                    match lit_str(t, k) {
                        Some((v, e)) => skip(t, e),
                        None => k,
                    }
                } else {
                    b
                };
                if word_is(t, c, "fn"@) && i <= c {
                    proof {
                        lemma_after_word(t, c);
                    }
                    let k = after_word(t, c);
                    if at(t, k, '(') {
                        proof {
                            lemma_next(t, k);
                        }
                        match fnargs(t, next(t, k)) {
                            None => None,
                            Some(p) => if !fwd(t, i, p) {
                                None
                            } else if at(t, skip(t, p), '-') && at(t, skip(t, p) + 1, '>') {
                                proof {
                                    lemma_skip(t, p);
                                    lemma_skip(t, skip(t, p) + 2);
                                }
                                ty(t, skip(t, skip(t, p) + 2), false)
                            } else {
                                Some(p)
                            },
                        }
                    } else {
                        None
                    }
                } else {
                    None
                }
            },
        }
    }
}

/// The end of the type starting at `i`; `plus` allows a trait object to
/// join bounds with `+`.
pub open spec fn ty(t: Seq<char>, i: int, plus: bool) -> Option<int>
    decreases 16 * (t.len() - i) + 5,
{
    if !(0 <= i <= t.len()) {
        None
    } else if at(t, i, '&') {
        proof {
            lemma_after_ref(t, i);
        }
        ty(t, after_ref(t, i), false)
    } else if at(t, i, '*') {
        proof {
            lemma_next(t, i);
        }
        let j = next(t, i);
        if word_is(t, j, "const"@) || word_is(t, j, "mut"@) {
            proof {
                lemma_after_word(t, j);
            }
            ty(t, after_word(t, j), false)
        } else {
            None
        }
    } else if at(t, i, '(') {
        proof {
            lemma_next(t, i);
        }
        tys(t, next(t, i))
    } else if at(t, i, '[') {
        proof {
            lemma_next(t, i);
        }
        match ty(t, next(t, i), true) {
            None => None,
            Some(e) => if !fwd(t, i, e) {
                None
            } else if at(t, skip(t, e), ']') {
                Some(skip(t, e) + 1)
            } else if at(t, skip(t, e), ';') && !at(t, next(t, skip(t, e)), ']') {
                tokens_end(t, skip(t, e) + 1, seq![']'])
            } else {
                None
            },
        }
    } else if at(t, i, '!') {
        Some(i + 1)
    } else if at(t, i, '<') {
        proof {
            lemma_next(t, i);
        }
        match ty(t, next(t, i), true) {
            None => None,
            Some(e) => if !fwd(t, i, e) {
                None
            } else {
                proof {
                    lemma_skip(t, e);
                }
                let k = skip(t, e);
                let g = if word_is(t, k, "as"@) {
                    proof {
                        lemma_after_word(t, k);
                    }
                    match path(t, after_word(t, k)) {
                        Some(p) => if fwd(t, i, p) {
                            Some(skip(t, p))
                        } else {
                            None
                        },
                        None => None,
                    }
                } else {
                    Some(k)
                };
                match g {
                    None => None,
                    Some(g) => if at(t, g, '>') && i < g && at(t, next(t, g), ':') && at(
                        t,
                        next(t, g) + 1,
                        ':',
                    ) {
                        proof {
                            lemma_next(t, g);
                            lemma_skip(t, next(t, g) + 2);
                        }
                        segs(t, skip(t, next(t, g) + 2))
                    } else {
                        None
                    },
                }
            },
        }
    } else if word_is(t, i, "_"@) {
        Some(i + 1)
    } else if word_is(t, i, "dyn"@) || word_is(t, i, "impl"@) {
        proof {
            lemma_after_word(t, i);
        }
        bounds(t, after_word(t, i), plus)
    } else if word_is(t, i, "fn"@) || word_is(t, i, "unsafe"@) || word_is(t, i, "extern"@) {
        bare_fn(t, i)
    } else if word_is(t, i, "for"@) {
        match bare_fn(t, i) {
            Some(e) => Some(e),
            None => bounds(t, i, plus),
        }
    } else {
        match path(t, i) {
            None => None,
            Some(e) => if !fwd(t, i, e) {
                None
            } else {
                proof {
                    lemma_skip(t, e);
                }
                let k = skip(t, e);
                if at(t, k, '!') && 0 <= next(t, k) < t.len() && is_open(t[next(t, k)]) {
                    tokens_end(t, next(t, k) + 1, seq![closer(t[next(t, k)])])
                } else if plus && at(t, k, '+') {
                    proof {
                        lemma_next(t, k);
                    }
                    if bound_start(t, next(t, k)) {
                        bounds(t, next(t, k), plus)
                    } else {
                        Some(k + 1)
                    }
                } else {
                    Some(e)
                }
            },
        }
    }
}

/// The end of the rest of a tuple type from `i`, up to its `)`.
pub open spec fn tys(t: Seq<char>, i: int) -> Option<int>
    decreases 16 * (t.len() - i) + 6,
{
    if !(0 <= i <= t.len()) {
        None
    } else if at(t, i, ')') {
        Some(i + 1)
    } else {
        match ty(t, i, true) {
            None => None,
            Some(e) => if !fwd(t, i, e) {
                None
            } else if at(t, skip(t, e), ')') {
                Some(skip(t, e) + 1)
            } else if at(t, skip(t, e), ',') {
                proof {
                    lemma_skip(t, e);
                    lemma_next(t, skip(t, e));
                }
                tys(t, next(t, skip(t, e)))
            } else {
                None
            },
        }
    }
}

/// The end of the generic argument starting at `i`.
pub open spec fn arg(t: Seq<char>, i: int) -> Option<int>
    decreases 16 * (t.len() - i) + 7,
{
    if !(0 <= i <= t.len()) {
        None
    } else if lifetime_at(t, i) is Some {
        lifetime_at(t, i)
    } else if at(t, i, '{') {
        tokens_end(t, i + 1, seq!['}'])
    } else if literal_at(t, i) is Some {
        literal_at(t, i)
    } else {
        match name_at(t, i) {
            Some(e) => {
                proof {
                    lemma_seg_name_at(t, i);
                    lemma_skip(t, e);
                }
                let k = skip(t, e);
                if at(t, k, '=') && !at(t, k + 1, '=') {
                    proof {
                        lemma_next(t, k);
                    }
                    ty(t, next(t, k), true)
                } else if at(t, k, ':') && !at(t, k + 1, ':') {
                    proof {
                        lemma_next(t, k);
                    }
                    bounds(t, next(t, k), true)
                } else {
                    ty(t, i, true)
                }
            },
            None => ty(t, i, true),
        }
    }
}

/// The end of the rest of a list of generic arguments from `i`, up to its
/// `>`.
pub open spec fn args(t: Seq<char>, i: int) -> Option<int>
    decreases 16 * (t.len() - i) + 8,
{
    if !(0 <= i <= t.len()) {
        None
    } else if at(t, i, '>') {
        Some(i + 1)
    } else {
        match arg(t, i) {
            None => None,
            Some(e) => if !fwd(t, i, e) {
                None
            } else if at(t, skip(t, e), '>') {
                Some(skip(t, e) + 1)
            } else if at(t, skip(t, e), ',') {
                proof {
                    lemma_skip(t, e);
                    lemma_next(t, skip(t, e));
                }
                args(t, next(t, skip(t, e)))
            } else {
                None
            },
        }
    }
}

/// The end of the rest of the arguments of a function pointer type from
/// `i`, up to its `)`: each a type, `name: type`, or `...`.
pub open spec fn fnargs(t: Seq<char>, i: int) -> Option<int>
    decreases 16 * (t.len() - i) + 9,
{
    if !(0 <= i <= t.len()) {
        None
    } else if at(t, i, ')') {
        Some(i + 1)
    } else {
        let el = if at(t, i, '.') && at(t, i + 1, '.') && at(t, i + 2, '.') {
            Some(i + 3)
        } else if ident_at(t, i) is Some && at(t, skip(t, word_end(t, i)), ':') && !at(
            t,
            skip(t, word_end(t, i)) + 1,
            ':',
        ) {
            proof {
                lemma_after_word(t, i);
                lemma_next(t, skip(t, word_end(t, i)));
            }
            ty(t, next(t, skip(t, word_end(t, i))), true)
        } else {
            ty(t, i, true)
        };
        match el {
            None => None,
            Some(e) => if !fwd(t, i, e) {
                None
            } else if at(t, skip(t, e), ')') {
                Some(skip(t, e) + 1)
            } else if at(t, skip(t, e), ',') {
                proof {
                    lemma_skip(t, e);
                    lemma_next(t, skip(t, e));
                }
                fnargs(t, next(t, skip(t, e)))
            } else {
                None
            },
        }
    }
}

/// The segments of an attribute's path from `i`, after the text `acc`
/// already read: the path's text (its segments joined by `::`) and the
/// position after its last segment.
pub open spec fn mod_segs(t: Seq<char>, i: int, acc: Seq<char>) -> Option<(Seq<char>, int)>
    decreases t.len() - i,
{
    if !(0 <= i <= t.len()) {
        None
    } else {
        match seg_name_at(t, i) {
            None => None,
            Some(e) => {
                proof {
                    lemma_seg_name_at(t, i);
                    lemma_skip(t, e);
                }
                let k = skip(t, e);
                if at(t, k, ':') && at(t, k + 1, ':') {
                    proof {
                        lemma_skip(t, k + 2);
                    }
                    mod_segs(t, skip(t, k + 2), acc + t.subrange(i, e) + "::"@)
                } else {
                    Some((acc + t.subrange(i, e), e))
                }
            },
        }
    }
}

/// The path of an attribute starting at `i`: its text and the position
/// after it.
pub open spec fn mod_path(t: Seq<char>, i: int) -> Option<(Seq<char>, int)> {
    if at(t, i, ':') && at(t, i + 1, ':') {
        mod_segs(t, skip(t, i + 2), "::"@)
    } else {
        mod_segs(t, i, Seq::empty())
    }
}

/// The value of an attribute whose tokens run from `d` to the `]` at `c`:
/// the string when the tokens are exactly `= "value"`.
pub open spec fn attr_value(t: Seq<char>, d: int, c: int) -> Option<Seq<char>> {
    if at(t, d, '=') {
        match lit_str(t, next(t, d)) {
            Some((v, e)) => if skip(t, e) == c {
                Some(v)
            } else {
                None
            },
            None => None,
        }
    } else {
        None
    }
}

/// The attribute starting at `i` (a `#[...]`, a `///` line or a `/** */`
/// comment): the attribute and the position after it.
pub open spec fn attr_at(t: Seq<char>, i: int) -> Option<(AttrModel, int)> {
    if doc_comment(t, i) {
        Some(
            (
                AttrModel {
                    name: "doc"@,
                    value: Some(t.subrange(i + 3, line_end(t, i + 3))),
                    args: Seq::empty(),
                },
                line_end(t, i + 3),
            ),
        )
    } else if doc_block(t, i) {
        match block_end(t, i + 3, 0) {
            None => None,
            Some(e) => Some(
                (
                    AttrModel {
                        name: "doc"@,
                        value: Some(t.subrange(i + 3, e - 2)),
                        args: Seq::empty(),
                    },
                    e,
                ),
            ),
        }
    } else if at(t, i, '#') && at(t, next(t, i), '[') {
        match mod_path(t, next(t, next(t, i))) {
            None => None,
            Some((name, c)) => {
                let d = skip(t, c);
                match tokens_end(t, d, seq![']']) {
                    None => None,
                    Some(f) => if d < f {
                        Some(
                            (
                                AttrModel {
                                    name,
                                    value: attr_value(t, d, f - 1),
                                    args: t.subrange(d, f - 1),
                                },
                                f,
                            ),
                        )
                    } else {
                        None
                    },
                }
            },
        }
    } else {
        None
    }
}

/// An attribute starts at `i`.
pub open spec fn attr_start(t: Seq<char>, i: int) -> bool {
    doc_comment(t, i) || doc_block(t, i) || at(t, i, '#')
}

/// The attributes from `i` on, after those in `acc`: all of them and the
/// position after them (past spaces and comments).
pub open spec fn attrs_from(t: Seq<char>, i: int, acc: Seq<AttrModel>) -> Option<
    (Seq<AttrModel>, int),
>
    decreases t.len() - i,
{
    if !(0 <= i <= t.len()) {
        None
    } else if attr_start(t, i) {
        match attr_at(t, i) {
            None => None,
            Some((a, e)) => if !fwd(t, i, e) {
                None
            } else {
                proof {
                    lemma_skip(t, e);
                }
                attrs_from(t, skip(t, e), acc.push(a))
            },
        }
    } else {
        Some((acc, i))
    }
}

/// The parameters from `i` on, after those in `acc`, up to the closing `)`:
/// all of them and the position after the `)` (past spaces and comments).
pub open spec fn params_from(t: Seq<char>, i: int, acc: Seq<ParamModel>) -> Option<
    (Seq<ParamModel>, int),
>
    decreases t.len() - i, 1int,
{
    if !(0 <= i <= t.len()) {
        None
    } else if at(t, i, ')') {
        Some((acc, next(t, i)))
    } else {
        match attrs_from(t, i, Seq::empty()) {
            None => None,
            Some((attrs, s)) => params_rest(t, i, s, attrs, acc),
        }
    }
}

/// The rest of the parameter whose attributes `attrs` were read from `i` to
/// `s`, and the parameters after it, as [`params_from`] reads them.
pub open spec fn params_rest(
    t: Seq<char>,
    i: int,
    s: int,
    attrs: Seq<AttrModel>,
    acc: Seq<ParamModel>,
) -> Option<(Seq<ParamModel>, int)>
    decreases t.len() - i, 0int,
{
    if !(0 <= i <= s <= t.len()) {
        None
    } else {
        let by_ref = word_is(t, s, "ref"@);
        let a = if by_ref {
            after_word(t, s)
        } else {
            s
        };
        let mutable = word_is(t, a, "mut"@);
        let b = if mutable {
            after_word(t, a)
        } else {
            a
        };
        match name_at(t, b) {
            None => None,
            Some(e) => if !(i <= b && fwd(t, b, e)) || !at(t, skip(t, e), ':') {
                None
            } else {
                let d = next(t, skip(t, e));
                match ty(t, d, true) {
                    None => None,
                    Some(f) => if !fwd(t, i, f) {
                        None
                    } else {
                        let p = ParamModel {
                            attrs,
                            name: t.subrange(b, e),
                            by_ref,
                            mutable,
                            ty: t.subrange(d, f),
                        };
                        proof {
                            lemma_skip(t, f);
                        }
                        if at(t, skip(t, f), ')') {
                            Some((acc.push(p), next(t, skip(t, f))))
                        } else if at(t, skip(t, f), ',') {
                            proof {
                                lemma_next(t, skip(t, f));
                            }
                            params_from(t, next(t, skip(t, f)), acc.push(p))
                        } else {
                            None
                        }
                    },
                }
            },
        }
    }
}

/// The optional return type `-> Type` at `i`: its text and the position
/// after it (past spaces and comments).
pub open spec fn ret_at(t: Seq<char>, i: int) -> Option<(Option<Seq<char>>, int)> {
    if at(t, i, '-') && at(t, i + 1, '>') {
        let r = skip(t, i + 2);
        match ty(t, r, true) {
            None => None,
            Some(e) => Some((Some(t.subrange(r, e)), skip(t, e))),
        }
    } else {
        Some((None, i))
    }
}

/// The optional body `{ ... }` at `i`: the text between its braces and the
/// position after it (past spaces and comments).
pub open spec fn body_at(t: Seq<char>, i: int) -> Option<(Option<Seq<char>>, int)> {
    if at(t, i, '{') {
        match tokens_end(t, i + 1, seq!['}']) {
            None => None,
            Some(c) => Some((Some(t.subrange(i + 1, c - 1)), skip(t, c))),
        }
    } else {
        Some((None, i))
    }
}

/// The member starting at `i`: the item and the position after it (past
/// spaces and comments, and past the `,` that may follow a field).
pub open spec fn member_at(t: Seq<char>, i: int) -> Option<(ApiItemModel, int)> {
    match attrs_from(t, i, Seq::empty()) {
        None => None,
        Some((attrs, a)) => match name_at(t, a) {
            None => None,
            Some(b) => {
                let c = skip(t, b);
                if at(t, c, ':') {
                    let d = next(t, c);
                    match ty(t, d, true) {
                        None => None,
                        Some(e) => {
                            let f = skip(t, e);
                            Some(
                                (
                                    ApiItemModel {
                                        attrs,
                                        ident: t.subrange(a, b),
                                        kind: ItemKind::Field,
                                        params: Seq::empty(),
                                        ty: Some(t.subrange(d, e)),
                                        body: None,
                                    },
                                    if at(t, f, ',') {
                                        next(t, f)
                                    } else {
                                        f
                                    },
                                ),
                            )
                        },
                    }
                } else if at(t, c, '(') {
                    match params_from(t, next(t, c), Seq::empty()) {
                        None => None,
                        Some((params, p)) => match ret_at(t, p) {
                            None => None,
                            Some((ret, q)) => match body_at(t, q) {
                                None => None,
                                Some((body, r)) => Some(
                                    (
                                        ApiItemModel {
                                            attrs,
                                            ident: t.subrange(a, b),
                                            kind: ItemKind::Function,
                                            params,
                                            ty: ret,
                                            body,
                                        },
                                        r,
                                    ),
                                ),
                            },
                        },
                    }
                } else {
                    None
                }
            },
        },
    }
}

/// The members from `i` on, after those in `acc`, up to the closing `}`:
/// all of them and the position after the `}`.
pub open spec fn members_from(t: Seq<char>, i: int, acc: Seq<ApiItemModel>) -> Option<
    (Seq<ApiItemModel>, int),
>
    decreases t.len() - i,
{
    if !(0 <= i <= t.len()) {
        None
    } else if at(t, i, '}') {
        Some((acc, i + 1))
    } else {
        match member_at(t, i) {
            None => None,
            Some((m, e)) => if fwd(t, i, e) {
                members_from(t, e, acc.push(m))
            } else {
                None
            },
        }
    }
}

/// The optional section `# "section"` at `i`: its text and the position
/// after it (past spaces and comments).
pub open spec fn section_at(t: Seq<char>, i: int) -> Option<(Option<Seq<char>>, int)> {
    if at(t, i, '#') {
        match lit_str(t, next(t, i)) {
            None => None,
            Some((s, e)) => Some((Some(s), skip(t, e))),
        }
    } else {
        Some((None, i))
    }
}

/// The definition starting at `i`: the definition and the position after it
/// (past spaces and comments).
pub open spec fn definition_at(t: Seq<char>, i: int) -> Option<(ApiDefinitionModel, int)> {
    match attrs_from(t, i, Seq::empty()) {
        None => None,
        Some((attrs, a)) => match name_at(t, a) {
            None => None,
            Some(b) => if !at(t, skip(t, b), '(') {
                None
            } else {
                match lit_str(t, next(t, skip(t, b))) {
                    None => None,
                    Some((base, d)) => match section_at(t, skip(t, d)) {
                        None => None,
                        Some((section, f)) => if !at(t, f, ')') {
                            None
                        } else if at(t, next(t, f), '{') {
                            match members_from(t, next(t, next(t, f)), Seq::empty()) {
                                None => None,
                                Some((items, h)) => Some(
                                    (
                                        ApiDefinitionModel {
                                            attrs,
                                            ident: t.subrange(a, b),
                                            base,
                                            section,
                                            items,
                                        },
                                        skip(t, h),
                                    ),
                                ),
                            }
                        } else {
                            Some(
                                (
                                    ApiDefinitionModel {
                                        attrs,
                                        ident: t.subrange(a, b),
                                        base,
                                        section,
                                        items: Seq::empty(),
                                    },
                                    next(t, f),
                                ),
                            )
                        },
                    },
                }
            },
        },
    }
}

/// The definitions from `i` on, after those in `acc`, to the end of the
/// text.
pub open spec fn definitions_from(t: Seq<char>, i: int, acc: Seq<ApiDefinitionModel>) -> Option<
    Seq<ApiDefinitionModel>,
>
    decreases t.len() - i,
{
    if !(0 <= i <= t.len()) {
        None
    } else if i == t.len() {
        Some(acc)
    } else {
        match definition_at(t, i) {
            None => None,
            Some((d, e)) => if fwd(t, i, e) {
                definitions_from(t, e, acc.push(d))
            } else {
                None
            },
        }
    }
}

/// The definitions that a text holds, in order, if it follows the grammar.
pub open spec fn api_input(t: Seq<char>) -> Option<Seq<ApiDefinitionModel>> {
    definitions_from(t, skip(t, 0), Seq::empty())
}

// ---------------------------------------------------------------------------
// Executable scanners, one for each definition above.

/// `t[i + k]` exists and is `c`.
pub fn at_after(t: &Vec<char>, i: usize, k: usize, c: char) -> (r: bool)
    requires
        i <= t.len(),
    ensures
        r == at(t@, i + k, c),
{
    k < t.len() - i && t[i + k] == c
}

/// `t[i]` exists and is `c`.
pub fn at_exec(t: &Vec<char>, i: usize, c: char) -> (r: bool)
    ensures
        r == at(t@, i as int, c),
{
    i < t.len() && t[i] == c
}

pub fn is_space_exec(c: char) -> (r: bool)
    ensures
        r == is_space(c),
{
    c == ' ' || c == '\t' || c == '\n' || c == '\u{0B}' || c == '\u{0C}' || c == '\r' || c
        == '\u{85}' || c == '\u{200E}' || c == '\u{200F}' || c == '\u{2028}' || c == '\u{2029}'
}

pub fn is_ascii_space_exec(c: char) -> (r: bool)
    ensures
        r == is_ascii_space(c),
{
    c == ' ' || c == '\t' || c == '\n' || c == '\r'
}

pub fn is_ident_start_exec(c: char) -> (r: bool)
    ensures
        r == is_ident_start(c),
{
    let u = c as u32;
    (97 <= u && u <= 122) || (65 <= u && u <= 90) || c == '_'
}

pub fn is_ident_char_exec(c: char) -> (r: bool)
    ensures
        r == is_ident_char(c),
{
    let u = c as u32;
    is_ident_start_exec(c) || (48 <= u && u <= 57)
}

pub fn line_end_exec(t: &Vec<char>, i: usize) -> (r: usize)
    requires
        i <= t.len(),
    ensures
        r == line_end(t@, i as int),
        i <= r <= t.len(),
{
    let mut j = i;
    while j < t.len() && t[j] != '\n'
        invariant
            i <= j <= t.len(),
            line_end(t@, j as int) == line_end(t@, i as int),
        decreases t.len() - j,
    {
        j = j + 1;
    }
    j
}

pub fn block_end_exec(t: &Vec<char>, i: usize) -> (r: Option<usize>)
    requires
        i <= t.len(),
    ensures
        opt_pos(r) == block_end(t@, i as int, 0),
        r matches Some(e) ==> i + 2 <= e <= t.len(),
{
    let mut j = i;
    let mut depth: usize = 0;
    while j < t.len() && t.len() - j > 1
        invariant
            i <= j <= t.len(),
            depth <= j,
            block_end(t@, j as int, depth as nat) == block_end(t@, i as int, 0),
        decreases t.len() - j,
    {
        if t[j] == '*' && t[j + 1] == '/' {
            if depth == 0 {
                return Some(j + 2);
            }
            depth = depth - 1;
            j = j + 2;
        } else if t[j] == '/' && t[j + 1] == '*' {
            depth = depth + 1;
            j = j + 2;
        } else {
            j = j + 1;
        }
    }
    None
}

pub fn doc_block_exec(t: &Vec<char>, i: usize) -> (r: bool)
    ensures
        r == doc_block(t@, i as int),
{
    i < t.len() && at_after(t, i, 0, '/') && at_after(t, i, 1, '*') && at_after(t, i, 2, '*')
        && !at_after(t, i, 3, '*') && !at_after(t, i, 3, '/')
}

pub fn skip_exec(t: &Vec<char>, i: usize) -> (r: usize)
    requires
        i <= t.len(),
    ensures
        r == skip(t@, i as int),
        i <= r <= t.len(),
{
    proof {
        lemma_skip(t@, i as int);
    }
    let mut j = i;
    loop
        invariant
            i <= j <= t.len(),
            skip(t@, j as int) == skip(t@, i as int),
        decreases t.len() - j,
    {
        if j >= t.len() {
            return j;
        }
        let c = t[j];
        if is_space_exec(c) {
            j = j + 1;
        } else if at_exec(t, j, '/') && at_exec(t, j + 1, '/') && !at_exec(t, j + 2, '!') && (
        !at_exec(t, j + 2, '/') || at_exec(t, j + 3, '/')) {
            j = line_end_exec(t, j + 2);
        } else if at_exec(t, j, '/') && at_exec(t, j + 1, '*') && !at_exec(t, j + 2, '!')
            && !doc_block_exec(t, j) {
            match block_end_exec(t, j + 2) {
                Some(e) => {
                    j = e;
                },
                None => {
                    return j;
                },
            }
        } else {
            return j;
        }
    }
}

pub fn ident_end_exec(t: &Vec<char>, i: usize) -> (r: usize)
    requires
        i <= t.len(),
    ensures
        r == ident_end(t@, i as int),
        i <= r <= t.len(),
{
    let mut j = i;
    while j < t.len() && is_ident_char_exec(t[j])
        invariant
            i <= j <= t.len(),
            ident_end(t@, j as int) == ident_end(t@, i as int),
        decreases t.len() - j,
    {
        j = j + 1;
    }
    j
}

pub fn ident_at_exec(t: &Vec<char>, i: usize) -> (r: Option<usize>)
    requires
        i <= t.len(),
    ensures
        opt_pos(r) == ident_at(t@, i as int),
        r matches Some(e) ==> i < e <= t.len(),
{
    if i < t.len() && is_ident_start_exec(t[i]) {
        Some(ident_end_exec(t, i + 1))
    } else {
        None
    }
}

/// Whether `t[a..b]` is the text `w`.
pub fn seg_eq(t: &Vec<char>, a: usize, b: usize, w: &Vec<char>) -> (r: bool)
    requires
        a <= b <= t.len(),
    ensures
        r == (t@.subrange(a as int, b as int) == w@),
{
    if b - a != w.len() {
        proof {
            if t@.subrange(a as int, b as int) == w@ {
                assert(t@.subrange(a as int, b as int).len() == w@.len());
            }
        }
        return false;
    }
    let n = w.len();
    for k in 0..n
        invariant
            n == w@.len(),
            b - a == n,
            a <= b <= t.len(),
            forall|m: int| 0 <= m < k ==> t@[a + m] == w@[m],
    {
        if t[a + k] != w[k] {
            assert(t@.subrange(a as int, b as int)[k as int] != w@[k as int]);
            return false;
        }
    }
    assert(t@.subrange(a as int, b as int) =~= w@);
    true
}

/// Whether `t[a..b]` is the text `w`.
pub fn text_is(t: &Vec<char>, a: usize, b: usize, w: &str) -> (r: bool)
    requires
        a <= b <= t.len(),
    ensures
        r == (t@.subrange(a as int, b as int) == w@),
{
    let v = chars_of(w);
    seg_eq(t, a, b, &v)
}

pub fn word_is_exec(t: &Vec<char>, i: usize, w: &str) -> (r: bool)
    requires
        i <= t.len(),
    ensures
        r == word_is(t@, i as int, w@),
{
    match ident_at_exec(t, i) {
        None => false,
        Some(e) => text_is(t, i, e, w),
    }
}

pub fn after_word_exec(t: &Vec<char>, i: usize) -> (r: usize)
    requires
        i <= t.len(),
        ident_at(t@, i as int) is Some,
    ensures
        r == after_word(t@, i as int),
        i < r <= t.len(),
{
    proof {
        lemma_after_word(t@, i as int);
    }
    match ident_at_exec(t, i) {
        Some(e) => skip_exec(t, e),
        None => i,
    }
}

pub fn is_keyword_exec(t: &Vec<char>, a: usize, b: usize) -> (r: bool)
    requires
        a <= b <= t.len(),
    ensures
        r == is_keyword(t@.subrange(a as int, b as int)),
{
    text_is(t, a, b, "_") || text_is(t, a, b, "abstract") || text_is(t, a, b, "as") || text_is(
        t,
        a,
        b,
        "async",
    ) || text_is(t, a, b, "await") || text_is(t, a, b, "become") || text_is(t, a, b, "box")
        || text_is(t, a, b, "break") || text_is(t, a, b, "const") || text_is(t, a, b, "continue")
        || text_is(t, a, b, "crate") || text_is(t, a, b, "do") || text_is(t, a, b, "dyn")
        || text_is(t, a, b, "else") || text_is(t, a, b, "enum") || text_is(t, a, b, "extern")
        || text_is(t, a, b, "false") || text_is(t, a, b, "final") || text_is(t, a, b, "fn")
        || text_is(t, a, b, "for") || text_is(t, a, b, "if") || text_is(t, a, b, "impl")
        || text_is(t, a, b, "in") || text_is(t, a, b, "let") || text_is(t, a, b, "loop")
        || text_is(t, a, b, "macro") || text_is(t, a, b, "match") || text_is(t, a, b, "mod")
        || text_is(t, a, b, "move") || text_is(t, a, b, "mut") || text_is(t, a, b, "override")
        || text_is(t, a, b, "priv") || text_is(t, a, b, "pub") || text_is(t, a, b, "ref")
        || text_is(t, a, b, "return") || text_is(t, a, b, "Self") || text_is(t, a, b, "self")
        || text_is(t, a, b, "static") || text_is(t, a, b, "struct") || text_is(t, a, b, "super")
        || text_is(t, a, b, "trait") || text_is(t, a, b, "true") || text_is(t, a, b, "try")
        || text_is(t, a, b, "type") || text_is(t, a, b, "typeof") || text_is(t, a, b, "unsafe")
        || text_is(t, a, b, "unsized") || text_is(t, a, b, "use") || text_is(t, a, b, "virtual")
        || text_is(t, a, b, "where") || text_is(t, a, b, "while") || text_is(t, a, b, "yield")
}

pub fn is_path_keyword_exec(t: &Vec<char>, a: usize, b: usize) -> (r: bool)
    requires
        a <= b <= t.len(),
    ensures
        r == is_path_keyword(t@.subrange(a as int, b as int)),
{
    text_is(t, a, b, "crate") || text_is(t, a, b, "self") || text_is(t, a, b, "super") || text_is(
        t,
        a,
        b,
        "Self",
    )
}

pub fn name_at_exec(t: &Vec<char>, i: usize) -> (r: Option<usize>)
    requires
        i <= t.len(),
    ensures
        opt_pos(r) == name_at(t@, i as int),
        r matches Some(e) ==> i < e <= t.len(),
{
    if at_exec(t, i, 'r') && at_exec(t, i + 1, '#') {
        match ident_at_exec(t, i + 2) {
            None => None,
            Some(e) => if is_path_keyword_exec(t, i + 2, e) || text_is(t, i + 2, e, "_") {
                None
            } else {
                Some(e)
            },
        }
    } else {
        match ident_at_exec(t, i) {
            None => None,
            Some(e) => if is_keyword_exec(t, i, e) {
                None
            } else {
                Some(e)
            },
        }
    }
}

pub fn seg_name_at_exec(t: &Vec<char>, i: usize) -> (r: Option<usize>)
    requires
        i <= t.len(),
    ensures
        opt_pos(r) == seg_name_at(t@, i as int),
        r matches Some(e) ==> i < e <= t.len(),
{
    match name_at_exec(t, i) {
        Some(e) => Some(e),
        None => match ident_at_exec(t, i) {
            Some(e) => if is_path_keyword_exec(t, i, e) {
                Some(e)
            } else {
                None
            },
            None => None,
        },
    }
}

pub fn hex_val_exec(c: char) -> (r: i32)
    ensures
        r == hex_val(c),
{
    let u = c as u32;
    if 48 <= u && u <= 57 {
        (u - 48) as i32
    } else if 97 <= u && u <= 102 {
        (u - 97 + 10) as i32
    } else if 65 <= u && u <= 70 {
        (u - 65 + 10) as i32
    } else {
        -1
    }
}

pub fn simple_escape_exec(c: char) -> (r: Option<char>)
    ensures
        r == simple_escape(c),
{
    if c == 'n' {
        Some('\n')
    } else if c == 't' {
        Some('\t')
    } else if c == 'r' {
        Some('\r')
    } else if c == '0' {
        Some('\0')
    } else if c == '\\' {
        Some('\\')
    } else if c == '"' {
        Some('"')
    } else if c == '\'' {
        Some('\'')
    } else {
        None
    }
}

pub fn space_end_exec(t: &Vec<char>, j: usize) -> (r: usize)
    requires
        j <= t.len(),
    ensures
        r == space_end(t@, j as int),
        j <= r <= t.len(),
{
    let mut k = j;
    while k < t.len() && is_ascii_space_exec(t[k])
        invariant
            j <= k <= t.len(),
            space_end(t@, k as int) == space_end(t@, j as int),
        decreases t.len() - k,
    {
        k = k + 1;
    }
    k
}

/// An upper bound of a number written with `n` hexadecimal digits.
pub open spec fn hex_bound(n: nat) -> int {
    if n == 0 {
        1
    } else if n == 1 {
        0x10
    } else if n == 2 {
        0x100
    } else if n == 3 {
        0x1000
    } else if n == 4 {
        0x10000
    } else if n == 5 {
        0x100000
    } else {
        0x1000000
    }
}

pub fn unicode_digits_exec(t: &Vec<char>, j: usize) -> (r: Option<(u32, usize)>)
    requires
        j <= t.len(),
    ensures
        match r {
            Some((v, e)) => unicode_digits(t@, j as int, 0, 0) == Some((v as int, e as int))
                && j < e <= t.len(),
            None => unicode_digits(t@, j as int, 0, 0) is None,
        },
{
    let mut k = j;
    let mut v: u32 = 0;
    let mut n: usize = 0;
    while k < t.len()
        invariant
            j <= k <= t.len(),
            n <= 6,
            0 <= v < hex_bound(n as nat),
            unicode_digits(t@, k as int, v as int, n as nat) == unicode_digits(t@, j as int, 0, 0),
        decreases t.len() - k,
    {
        let c = t[k];
        let h = hex_val_exec(c);
        if c == '}' {
            if n >= 1 {
                return Some((v, k + 1));
            } else {
                return None;
            }
        } else if h >= 0 {
            if n >= 6 {
                return None;
            }
            v = 16 * v + h as u32;
            n = n + 1;
            k = k + 1;
        } else if c == '_' && n >= 1 {
            k = k + 1;
        } else {
            return None;
        }
    }
    None
}

/// Calls `char::from_u32`, which gives the character numbered `v`, or
/// `None` where no character has that number.
#[verifier::external_body]
fn char_from_number(v: u32) -> (r: Option<char>)
    ensures
        r == (if valid_scalar(v as int) {
            Some(v as char)
        } else {
            None
        }),
{
    char::from_u32(v)
}

pub fn escape_exec(t: &Vec<char>, j: usize) -> (r: Option<(Option<char>, usize)>)
    requires
        j <= t.len(),
    ensures
        match r {
            Some((c, e)) => escape_at(t@, j as int) == Some((c, e as int)) && j < e <= t.len(),
            None => escape_at(t@, j as int) is None,
        },
{
    if j >= t.len() {
        return None;
    }
    let c = t[j];
    match simple_escape_exec(c) {
        Some(x) => {
            return Some((Some(x), j + 1));
        },
        None => {},
    }
    if c == 'x' {
        if t.len() - j > 2 {
            let h1 = hex_val_exec(t[j + 1]);
            let h2 = hex_val_exec(t[j + 2]);
            if h1 >= 0 && h2 >= 0 && 16 * h1 + h2 <= 0x7F {
                let v = (16 * h1 + h2) as u32;
                match char_from_number(v) {
                    Some(x) => Some((Some(x), j + 3)),
                    None => None,
                }
            } else {
                None
            }
        } else {
            None
        }
    } else if c == 'u' && at_exec(t, j + 1, '{') {
        match unicode_digits_exec(t, j + 2) {
            Some((v, e)) => match char_from_number(v) {
                Some(x) => Some((Some(x), e)),
                None => None,
            },
            None => None,
        }
    } else if c == '\n' {
        Some((None, space_end_exec(t, j + 1)))
    } else if c == '\r' && at_exec(t, j + 1, '\n') {
        Some((None, space_end_exec(t, j + 2)))
    } else {
        None
    }
}

pub fn hash_run_exec(t: &Vec<char>, j: usize) -> (r: usize)
    requires
        j <= t.len(),
    ensures
        r == hash_run(t@, j as int),
        r <= t.len() - j,
{
    let mut k = j;
    while k < t.len() && t[k] == '#'
        invariant
            j <= k <= t.len(),
            hash_run(t@, k as int) + (k - j) == hash_run(t@, j as int),
        decreases t.len() - k,
    {
        k = k + 1;
    }
    k - j
}

/// The raw string whose `r` stands before `j`: where its content starts and
/// ends, and the position after it.
pub fn raw_str_exec(t: &Vec<char>, j: usize) -> (r: Option<(usize, usize, usize)>)
    requires
        j <= t.len(),
    ensures
        match r {
            Some((a, b, e)) => a <= b <= t.len() && j < e <= t.len() && raw_str(t@, j as int)
                == Some((t@.subrange(a as int, b as int), e as int)),
            None => raw_str(t@, j as int) is None,
        },
{
    let h = hash_run_exec(t, j);
    if !at_exec(t, j + h, '"') {
        return None;
    }
    let a = j + h + 1;
    let mut k = a;
    while k < t.len()
        invariant
            a <= k <= t.len(),
            a == j + h + 1,
            h == hash_run(t@, j as int),
            at(t@, j + h, '"'),
            raw_close(t@, k as int, h as nat) == raw_close(t@, a as int, h as nat),
        decreases t.len() - k,
    {
        if t[k] == '"' {
            let g = hash_run_exec(t, k + 1);
            if g >= h {
                assert(raw_close(t@, k as int, h as nat) == Some(k as int));
                return Some((a, k, k + 1 + h));
            }
        }
        k = k + 1;
    }
    None
}

pub fn suffix_end_exec(t: &Vec<char>, e: usize) -> (r: usize)
    requires
        e <= t.len(),
    ensures
        r == suffix_end(t@, e as int),
        e <= r <= t.len(),
{
    match ident_at_exec(t, e) {
        Some(f) => f,
        None => e,
    }
}

/// The string literal starting at `i`: its value and the position after it.
pub fn lit_str_exec(t: &Vec<char>, i: usize) -> (r: Option<(String, usize)>)
    requires
        i <= t.len(),
    ensures
        match r {
            Some((v, e)) => lit_str(t@, i as int) == Some((v@, e as int)) && i < e <= t.len(),
            None => lit_str(t@, i as int) is None,
        },
{
    if at_exec(t, i, 'r') {
        return match raw_str_exec(t, i + 1) {
            Some((a, b, e)) => Some((text_between(t, a, b), suffix_end_exec(t, e))),
            None => None,
        };
    }
    if !at_exec(t, i, '"') {
        return None;
    }
    let mut acc: Vec<char> = Vec::new();
    let mut j = i + 1;
    while j < t.len()
        invariant
            i < j <= t.len(),
            at(t@, i as int, '"'),
            str_rest(t@, j as int, acc@) == str_rest(t@, i + 1, Seq::empty()),
        decreases t.len() - j,
    {
        let c = t[j];
        if c == '"' {
            return Some((text_from_chars(&acc), suffix_end_exec(t, j + 1)));
        } else if c == '\\' {
            match escape_exec(t, j + 1) {
                None => {
                    return None;
                },
                Some((x, e)) => {
                    match x {
                        Some(x) => {
                            acc.push(x);
                        },
                        None => {},
                    }
                    j = e;
                },
            }
        } else {
            acc.push(c);
            j = j + 1;
        }
    }
    None
}

pub fn str_skip_exec(t: &Vec<char>, j: usize) -> (r: Option<usize>)
    requires
        j <= t.len(),
    ensures
        opt_pos(r) == str_skip(t@, j as int),
        r matches Some(e) ==> j < e <= t.len(),
{
    let mut k = j;
    while k < t.len()
        invariant
            j <= k,
            str_skip(t@, k as int) == str_skip(t@, j as int),
        decreases t.len() - k,
    {
        if t[k] == '"' {
            return Some(k + 1);
        } else if t[k] == '\\' {
            if t.len() - k < 2 {
                return None;
            }
            k = k + 2;
        } else {
            k = k + 1;
        }
    }
    None
}

pub fn quote_from_exec(t: &Vec<char>, j: usize) -> (r: Option<usize>)
    ensures
        opt_pos(r) == quote_from(t@, j as int),
        r matches Some(e) ==> j < e <= t.len(),
{
    let mut k = j;
    while k < t.len()
        invariant
            j <= k,
            quote_from(t@, k as int) == quote_from(t@, j as int),
        decreases t.len() - k,
    {
        if t[k] == '\'' {
            return Some(k + 1);
        }
        k = k + 1;
    }
    None
}

pub fn char_skip_exec(t: &Vec<char>, i: usize) -> (r: Option<usize>)
    requires
        i < t.len(),
    ensures
        opt_pos(r) == char_skip(t@, i as int),
        r matches Some(e) ==> i < e <= t.len(),
{
    if at_exec(t, i + 1, '\\') {
        if t.len() - i >= 3 {
            quote_from_exec(t, i + 3)
        } else {
            None
        }
    } else if at_after(t, i, 2, '\'') && !at_exec(t, i + 1, '\'') {
        Some(i + 3)
    } else {
        None
    }
}

pub fn token_skip_exec(t: &Vec<char>, i: usize) -> (r: Option<usize>)
    requires
        i < t.len(),
    ensures
        opt_pos(r) == token_skip(t@, i as int),
        r matches Some(e) ==> i < e <= t.len(),
{
    let c = t[i];
    if c == '"' {
        str_skip_exec(t, i + 1)
    } else if at_exec(t, i, '/') && at_exec(t, i + 1, '/') {
        Some(line_end_exec(t, i + 2))
    } else if at_exec(t, i, '/') && at_exec(t, i + 1, '*') {
        block_end_exec(t, i + 2)
    } else if c == '\'' {
        match char_skip_exec(t, i) {
            Some(e) => Some(e),
            None => Some(i + 1),
        }
    } else if is_ident_start_exec(c) {
        let e = ident_end_exec(t, i + 1);
        if text_is(t, i, e, "r") || text_is(t, i, e, "br") {
            match raw_str_exec(t, e) {
                Some((a, b, f)) => Some(f),
                None => Some(e),
            }
        } else {
            Some(e)
        }
    } else {
        Some(i + 1)
    }
}

/// The bracket that closes the bracket `c`.
pub fn closer_exec(c: char) -> (r: char)
    ensures
        r == closer(c),
{
    if c == '(' {
        ')'
    } else if c == '[' {
        ']'
    } else {
        '}'
    }
}

/// Tokens from `i` on, inside one group closed by `close`: the position
/// after the bracket that closes it.
pub fn tokens_end_exec(t: &Vec<char>, i: usize, close: char) -> (r: Option<usize>)
    requires
        i <= t.len(),
    ensures
        opt_pos(r) == tokens_end(t@, i as int, seq![close]),
        r matches Some(e) ==> i < e <= t.len(),
{
    let mut stack: Vec<char> = Vec::new();
    stack.push(close);
    assert(stack@ =~= seq![close]);
    let mut j = i;
    while j < t.len()
        invariant
            i <= j <= t.len(),
            stack@.len() >= 1,
            tokens_end(t@, j as int, stack@) == tokens_end(t@, i as int, seq![close]),
        decreases t.len() - j,
    {
        let c = t[j];
        if c == ')' || c == ']' || c == '}' {
            let top = stack[stack.len() - 1];
            if c != top {
                return None;
            }
            if stack.len() == 1 {
                return Some(j + 1);
            }
            let ghost before = stack@;
            stack.pop();
            assert(stack@ =~= before.drop_last());
            j = j + 1;
        } else if c == '(' || c == '[' || c == '{' {
            stack.push(closer_exec(c));
            j = j + 1;
        } else {
            match token_skip_exec(t, j) {
                Some(e) => {
                    j = e;
                },
                None => {
                    return None;
                },
            }
        }
    }
    None
}

pub fn lifetime_at_exec(t: &Vec<char>, i: usize) -> (r: Option<usize>)
    requires
        i <= t.len(),
    ensures
        opt_pos(r) == lifetime_at(t@, i as int),
        r matches Some(e) ==> i < e <= t.len(),
{
    if at_exec(t, i, '\'') {
        ident_at_exec(t, i + 1)
    } else {
        None
    }
}

pub fn next_exec(t: &Vec<char>, i: usize) -> (r: usize)
    requires
        i < t.len(),
    ensures
        r == next(t@, i as int),
        i < r <= t.len(),
{
    proof {
        lemma_next(t@, i as int);
    }
    skip_exec(t, i + 1)
}

pub fn after_ref_exec(t: &Vec<char>, i: usize) -> (r: usize)
    requires
        at(t@, i as int, '&'),
    ensures
        r == after_ref(t@, i as int),
        i < r <= t.len(),
{
    proof {
        lemma_after_ref(t@, i as int);
    }
    let j = next_exec(t, i);
    let k = match lifetime_at_exec(t, j) {
        Some(e) => skip_exec(t, e),
        None => j,
    };
    if word_is_exec(t, k, "mut") {
        after_word_exec(t, k)
    } else {
        k
    }
}

pub fn bound_start_exec(t: &Vec<char>, j: usize) -> (r: bool)
    ensures
        r == bound_start(t@, j as int),
{
    (j < t.len() && is_ident_start_exec(t[j])) || (at_exec(t, j, ':') && at_exec(t, j + 1, ':'))
        || at_exec(t, j, '?') || at_exec(t, j, '\'') || at_exec(t, j, '(')
}

pub fn literal_at_exec(t: &Vec<char>, i: usize) -> (r: Option<usize>)
    requires
        i <= t.len(),
    ensures
        opt_pos(r) == literal_at(t@, i as int),
        r matches Some(e) ==> i < e <= t.len(),
{
    if i < t.len() && 48 <= t[i] as u32 && t[i] as u32 <= 57 {
        Some(ident_end_exec(t, i + 1))
    } else if at_exec(t, i, '"') {
        str_skip_exec(t, i + 1)
    } else if at_exec(t, i, '\'') {
        char_skip_exec(t, i)
    } else if word_is_exec(t, i, "true") || word_is_exec(t, i, "false") {
        ident_at_exec(t, i)
    } else {
        None
    }
}

pub open spec fn opt_pos(r: Option<usize>) -> Option<int> {
    match r {
        Some(e) => Some(e as int),
        None => None,
    }
}

/// Calls `String::from_iter`, which collects the characters of `v`, in
/// order, into a string.
#[verifier::external_body]
fn text_from_chars(v: &Vec<char>) -> (r: String)
    ensures
        r@ == v@,
{
    String::from_iter(v.iter())
}

/// The text `t[a..b]`.
pub fn text_between(t: &Vec<char>, a: usize, b: usize) -> (r: String)
    requires
        a <= b <= t.len(),
    ensures
        r@ == t@.subrange(a as int, b as int),
{
    let mut v: Vec<char> = Vec::new();
    let mut j = a;
    while j < b
        invariant
            a <= j <= b <= t.len(),
            v@ == t@.subrange(a as int, j as int),
        decreases b - j,
    {
        v.push(t[j]);
        j = j + 1;
        assert(v@ =~= t@.subrange(a as int, j as int));
    }
    text_from_chars(&v)
}

/// The end of the segments of a path from `i`.
pub fn segs_exec(t: &Vec<char>, i: usize) -> (r: Option<usize>)
    requires
        i <= t.len(),
    ensures
        opt_pos(r) == segs(t@, i as int),
        r matches Some(e) ==> i < e <= t.len(),
    decreases 16 * (t@.len() - i),
{
    let e = match seg_name_at_exec(t, i) {
        None => {
            return None;
        },
        Some(e) => e,
    };
    proof {
        lemma_seg_name_at(t@, i as int);
    }
    let k = skip_exec(t, e);
    let f = if at_exec(t, k, '<') {
        let j = next_exec(t, k);
        args_exec(t, j)
    } else if at_exec(t, k, ':') && at_exec(t, k + 1, ':') && at_exec(t, skip_exec(t, k + 2), '<') {
        let m = skip_exec(t, k + 2);
        let j = next_exec(t, m);
        args_exec(t, j)
    } else if at_exec(t, k, '(') {
        let j = next_exec(t, k);
        match tys_exec(t, j) {
            None => None,
            Some(p) => {
                let q = skip_exec(t, p);
                if at_exec(t, q, '-') && at_exec(t, q + 1, '>') {
                    let s = skip_exec(t, q + 2);
                    ty_exec(t, s, false)
                } else {
                    Some(p)
                }
            },
        }
    } else {
        Some(e)
    };
    match f {
        None => None,
        Some(f) => {
            let m = skip_exec(t, f);
            if at_exec(t, m, ':') && at_exec(t, m + 1, ':') {
                let j = skip_exec(t, m + 2);
                segs_exec(t, j)
            } else {
                Some(f)
            }
        },
    }
}

/// The end of the path starting at `i`.
pub fn path_exec(t: &Vec<char>, i: usize) -> (r: Option<usize>)
    requires
        i <= t.len(),
    ensures
        opt_pos(r) == path(t@, i as int),
        r matches Some(e) ==> i < e <= t.len(),
    decreases 16 * (t@.len() - i) + 1,
{
    if at_exec(t, i, ':') && at_exec(t, i + 1, ':') {
        let j = skip_exec(t, i + 2);
        segs_exec(t, j)
    } else {
        segs_exec(t, i)
    }
}

/// The end of the bound starting at `i`.
pub fn bound_exec(t: &Vec<char>, i: usize) -> (r: Option<usize>)
    requires
        i <= t.len(),
    ensures
        opt_pos(r) == bound(t@, i as int),
        r matches Some(e) ==> i < e <= t.len(),
    decreases 16 * (t@.len() - i) + 2,
{
    match lifetime_at_exec(t, i) {
        Some(e) => {
            return Some(e);
        },
        None => {},
    }
    if at_exec(t, i, '(') {
        let j = next_exec(t, i);
        match bound_exec(t, j) {
            None => None,
            Some(e) => {
                let k = skip_exec(t, e);
                if at_exec(t, k, ')') {
                    Some(k + 1)
                } else {
                    None
                }
            },
        }
    } else if at_exec(t, i, '?') {
        let j = next_exec(t, i);
        path_exec(t, j)
    } else if word_is_exec(t, i, "for") {
        let k = after_word_exec(t, i);
        if at_exec(t, k, '<') {
            let j = next_exec(t, k);
            match args_exec(t, j) {
                None => None,
                Some(a) => {
                    let s = skip_exec(t, a);
                    path_exec(t, s)
                },
            }
        } else {
            None
        }
    } else {
        path_exec(t, i)
    }
}

/// The end of the bounds starting at `i`.
pub fn bounds_exec(t: &Vec<char>, i: usize, plus: bool) -> (r: Option<usize>)
    requires
        i <= t.len(),
    ensures
        opt_pos(r) == bounds(t@, i as int, plus),
        r matches Some(e) ==> i < e <= t.len(),
    decreases 16 * (t@.len() - i) + 3,
{
    match bound_exec(t, i) {
        None => None,
        Some(e) => {
            let k = skip_exec(t, e);
            if plus && at_exec(t, k, '+') {
                let n = next_exec(t, k);
                if bound_start_exec(t, n) {
                    bounds_exec(t, n, plus)
                } else {
                    Some(k + 1)
                }
            } else {
                Some(e)
            }
        },
    }
}

/// The end of the function pointer type starting at `i`.
pub fn bare_fn_exec(t: &Vec<char>, i: usize) -> (r: Option<usize>)
    requires
        i <= t.len(),
    ensures
        opt_pos(r) == bare_fn(t@, i as int),
        r matches Some(e) ==> i < e <= t.len(),
    decreases 16 * (t@.len() - i) + 4,
{
    let a = if word_is_exec(t, i, "for") {
        let k = after_word_exec(t, i);
        if at_exec(t, k, '<') {
            let j = next_exec(t, k);
            match args_exec(t, j) {
                None => {
                    return None;
                },
                Some(x) => skip_exec(t, x),
            }
        } else {
            return None;
        }
    } else {
        i
    };
    let b = if word_is_exec(t, a, "unsafe") {
        after_word_exec(t, a)
    } else {
        a
    };
    let c = if word_is_exec(t, b, "extern") {
        let k = after_word_exec(t, b);
        match lit_str_exec(t, k) {
            Some((v, e)) => skip_exec(t, e),
            None => k,
        }
    } else {
        b
    };
    if word_is_exec(t, c, "fn") && i <= c {
        let k = after_word_exec(t, c);
        if at_exec(t, k, '(') {
            let j = next_exec(t, k);
            match fnargs_exec(t, j) {
                None => None,
                Some(p) => {
                    let q = skip_exec(t, p);
                    if at_exec(t, q, '-') && at_exec(t, q + 1, '>') {
                        let s = skip_exec(t, q + 2);
                        ty_exec(t, s, false)
                    } else {
                        Some(p)
                    }
                },
            }
        } else {
            None
        }
    } else {
        None
    }
}

/// The end of the type starting at `i`.
#[verifier::rlimit(40)]
pub fn ty_exec(t: &Vec<char>, i: usize, plus: bool) -> (r: Option<usize>)
    requires
        i <= t.len(),
    ensures
        opt_pos(r) == ty(t@, i as int, plus),
        r matches Some(e) ==> i < e <= t.len(),
    decreases 16 * (t@.len() - i) + 5,
{
    if at_exec(t, i, '&') {
        let j = after_ref_exec(t, i);
        ty_exec(t, j, false)
    } else if at_exec(t, i, '*') {
        let j = next_exec(t, i);
        if word_is_exec(t, j, "const") || word_is_exec(t, j, "mut") {
            let k = after_word_exec(t, j);
            ty_exec(t, k, false)
        } else {
            None
        }
    } else if at_exec(t, i, '(') {
        let j = next_exec(t, i);
        tys_exec(t, j)
    } else if at_exec(t, i, '[') {
        let j = next_exec(t, i);
        match ty_exec(t, j, true) {
            None => None,
            Some(e) => {
                let k = skip_exec(t, e);
                if at_exec(t, k, ']') {
                    Some(k + 1)
                } else if at_exec(t, k, ';') && !at_exec(t, next_exec(t, k), ']') {
                    tokens_end_exec(t, k + 1, ']')
                } else {
                    None
                }
            },
        }
    } else if at_exec(t, i, '!') {
        Some(i + 1)
    } else if at_exec(t, i, '<') {
        let j = next_exec(t, i);
        match ty_exec(t, j, true) {
            None => None,
            Some(e) => {
                let k = skip_exec(t, e);
                let g = if word_is_exec(t, k, "as") {
                    let w = after_word_exec(t, k);
                    match path_exec(t, w) {
                        Some(p) => Some(skip_exec(t, p)),
                        None => None,
                    }
                } else {
                    Some(k)
                };
                match g {
                    None => None,
                    Some(g) => if at_exec(t, g, '>') && i < g {
                        let n = next_exec(t, g);
                        if at_exec(t, n, ':') && at_exec(t, n + 1, ':') {
                            let s = skip_exec(t, n + 2);
                            segs_exec(t, s)
                        } else {
                            None
                        }
                    } else {
                        None
                    },
                }
            },
        }
    } else if word_is_exec(t, i, "_") {
        Some(i + 1)
    } else if word_is_exec(t, i, "dyn") || word_is_exec(t, i, "impl") {
        let j = after_word_exec(t, i);
        bounds_exec(t, j, plus)
    } else if word_is_exec(t, i, "fn") || word_is_exec(t, i, "unsafe") || word_is_exec(
        t,
        i,
        "extern",
    ) {
        bare_fn_exec(t, i)
    } else if word_is_exec(t, i, "for") {
        match bare_fn_exec(t, i) {
            Some(e) => Some(e),
            None => bounds_exec(t, i, plus),
        }
    } else {
        match path_exec(t, i) {
            None => None,
            Some(e) => {
                let k = skip_exec(t, e);
                if at_exec(t, k, '!') {
                    let n = next_exec(t, k);
                    if n < t.len() && (t[n] == '(' || t[n] == '[' || t[n] == '{') {
                        return tokens_end_exec(t, n + 1, closer_exec(t[n]));
                    }
                }
                if plus && at_exec(t, k, '+') {
                    let n = next_exec(t, k);
                    if bound_start_exec(t, n) {
                        bounds_exec(t, n, plus)
                    } else {
                        Some(k + 1)
                    }
                } else {
                    Some(e)
                }
            },
        }
    }
}

/// The end of the rest of a tuple type from `i`.
pub fn tys_exec(t: &Vec<char>, i: usize) -> (r: Option<usize>)
    requires
        i <= t.len(),
    ensures
        opt_pos(r) == tys(t@, i as int),
        r matches Some(e) ==> i < e <= t.len(),
    decreases 16 * (t@.len() - i) + 6,
{
    if at_exec(t, i, ')') {
        return Some(i + 1);
    }
    match ty_exec(t, i, true) {
        None => None,
        Some(e) => {
            let k = skip_exec(t, e);
            if at_exec(t, k, ')') {
                Some(k + 1)
            } else if at_exec(t, k, ',') {
                let j = next_exec(t, k);
                tys_exec(t, j)
            } else {
                None
            }
        },
    }
}

/// The end of the generic argument starting at `i`.
pub fn arg_exec(t: &Vec<char>, i: usize) -> (r: Option<usize>)
    requires
        i <= t.len(),
    ensures
        opt_pos(r) == arg(t@, i as int),
        r matches Some(e) ==> i < e <= t.len(),
    decreases 16 * (t@.len() - i) + 7,
{
    match lifetime_at_exec(t, i) {
        Some(e) => {
            return Some(e);
        },
        None => {},
    }
    if at_exec(t, i, '{') {
        return tokens_end_exec(t, i + 1, '}');
    }
    match literal_at_exec(t, i) {
        Some(e) => {
            return Some(e);
        },
        None => {},
    }
    match name_at_exec(t, i) {
        Some(e) => {
            let k = skip_exec(t, e);
            if at_exec(t, k, '=') && !at_exec(t, k + 1, '=') {
                let n = next_exec(t, k);
                ty_exec(t, n, true)
            } else if at_exec(t, k, ':') && !at_exec(t, k + 1, ':') {
                let n = next_exec(t, k);
                bounds_exec(t, n, true)
            } else {
                ty_exec(t, i, true)
            }
        },
        None => ty_exec(t, i, true),
    }
}

/// The end of the rest of a list of generic arguments from `i`.
pub fn args_exec(t: &Vec<char>, i: usize) -> (r: Option<usize>)
    requires
        i <= t.len(),
    ensures
        opt_pos(r) == args(t@, i as int),
        r matches Some(e) ==> i < e <= t.len(),
    decreases 16 * (t@.len() - i) + 8,
{
    if at_exec(t, i, '>') {
        return Some(i + 1);
    }
    match arg_exec(t, i) {
        None => None,
        Some(e) => {
            let k = skip_exec(t, e);
            if at_exec(t, k, '>') {
                Some(k + 1)
            } else if at_exec(t, k, ',') {
                let j = next_exec(t, k);
                args_exec(t, j)
            } else {
                None
            }
        },
    }
}

/// The end of the rest of the arguments of a function pointer type.
pub fn fnargs_exec(t: &Vec<char>, i: usize) -> (r: Option<usize>)
    requires
        i <= t.len(),
    ensures
        opt_pos(r) == fnargs(t@, i as int),
        r matches Some(e) ==> i < e <= t.len(),
    decreases 16 * (t@.len() - i) + 9,
{
    if at_exec(t, i, ')') {
        return Some(i + 1);
    }
    let el = if at_exec(t, i, '.') && at_exec(t, i + 1, '.') && at_exec(t, i + 2, '.') {
        Some(i + 3)
    } else {
        match ident_at_exec(t, i) {
            Some(w) => {
                let k = skip_exec(t, w);
                if at_exec(t, k, ':') && !at_exec(t, k + 1, ':') {
                    let n = next_exec(t, k);
                    ty_exec(t, n, true)
                } else {
                    ty_exec(t, i, true)
                }
            },
            None => ty_exec(t, i, true),
        }
    };
    match el {
        None => None,
        Some(e) => {
            let k = skip_exec(t, e);
            if at_exec(t, k, ')') {
                Some(k + 1)
            } else if at_exec(t, k, ',') {
                let j = next_exec(t, k);
                fnargs_exec(t, j)
            } else {
                None
            }
        },
    }
}

/// Appends `t[a..b]` to `acc`.
fn push_range(acc: &mut Vec<char>, t: &Vec<char>, a: usize, b: usize)
    requires
        a <= b <= t.len(),
    ensures
        final(acc)@ == old(acc)@ + t@.subrange(a as int, b as int),
{
    let mut j = a;
    while j < b
        invariant
            a <= j <= b <= t.len(),
            acc@ == old(acc)@ + t@.subrange(a as int, j as int),
        decreases b - j,
    {
        acc.push(t[j]);
        j = j + 1;
        assert(acc@ =~= old(acc)@ + t@.subrange(a as int, j as int));
    }
}

/// The path of an attribute starting at `i`: its text and the position
/// after it.
pub fn mod_path_exec(t: &Vec<char>, i: usize) -> (r: Option<(String, usize)>)
    requires
        i <= t.len(),
    ensures
        match r {
            Some((n, e)) => mod_path(t@, i as int) == Some((n@, e as int)) && e <= t.len(),
            None => mod_path(t@, i as int) is None,
        },
{
    proof {
        reveal_strlit("::");
    }
    let mut acc: Vec<char> = Vec::new();
    let mut j = i;
    if at_exec(t, i, ':') && at_exec(t, i + 1, ':') {
        acc.push(':');
        acc.push(':');
        assert(acc@ =~= "::"@);
        j = skip_exec(t, i + 2);
    } else {
        assert(acc@ =~= Seq::<char>::empty());
    }
    loop
        invariant
            j <= t.len(),
            mod_segs(t@, j as int, acc@) == mod_path(t@, i as int),
        decreases t.len() - j,
    {
        let e = match seg_name_at_exec(t, j) {
            None => {
                return None;
            },
            Some(e) => e,
        };
        let ghost before = acc@;
        push_range(&mut acc, t, j, e);
        let k = skip_exec(t, e);
        if at_exec(t, k, ':') && at_exec(t, k + 1, ':') {
            acc.push(':');
            acc.push(':');
            proof {
                reveal_strlit("::");
            }
            assert(acc@ =~= before + t@.subrange(j as int, e as int) + "::"@);
            j = skip_exec(t, k + 2);
        } else {
            return Some((text_from_chars(&acc), e));
        }
    }
}

/// The value of an attribute whose tokens run from `d` to the `]` at `c`.
pub fn attr_value_exec(t: &Vec<char>, d: usize, c: usize) -> (r: Option<String>)
    requires
        d <= t.len(),
    ensures
        opt_text(r) == attr_value(t@, d as int, c as int),
{
    if at_exec(t, d, '=') {
        let n = next_exec(t, d);
        match lit_str_exec(t, n) {
            Some((v, e)) => if skip_exec(t, e) == c {
                Some(v)
            } else {
                None
            },
            None => None,
        }
    } else {
        None
    }
}

pub open spec fn attr_result(r: Option<(Attr, usize)>) -> Option<(AttrModel, int)> {
    match r {
        Some((a, e)) => Some((a.model(), e as int)),
        None => None,
    }
}

/// The attribute starting at `i`.
pub fn attr_at_exec(t: &Vec<char>, i: usize) -> (r: Option<(Attr, usize)>)
    requires
        i <= t.len(),
    ensures
        attr_result(r) == attr_at(t@, i as int),
        r matches Some((a, e)) ==> e <= t.len(),
{
    if at_exec(t, i, '/') && at_exec(t, i + 1, '/') && at_exec(t, i + 2, '/') && !at_exec(
        t,
        i + 3,
        '/',
    ) {
        let e = line_end_exec(t, i + 3);
        let value = text_between(t, i + 3, e);
        return Some((Attr { name: String::from_str("doc"), value: Some(value), args: String::new() }, e));
    }
    if doc_block_exec(t, i) {
        return match block_end_exec(t, i + 3) {
            None => None,
            Some(e) => {
                let value = text_between(t, i + 3, e - 2);
                Some(
                    (
                        Attr { name: String::from_str("doc"), value: Some(value), args: String::new() },
                        e,
                    ),
                )
            },
        };
    }
    if !at_exec(t, i, '#') {
        return None;
    }
    let a = next_exec(t, i);
    if !at_exec(t, a, '[') {
        return None;
    }
    let b = next_exec(t, a);
    match mod_path_exec(t, b) {
        None => None,
        Some((name, c)) => {
            let d = skip_exec(t, c);
            match tokens_end_exec(t, d, ']') {
                None => None,
                Some(f) => {
                    let value = attr_value_exec(t, d, f - 1);
                    let args = text_between(t, d, f - 1);
                    Some((Attr { name, value, args }, f))
                },
            }
        },
    }
}

/// Whether an attribute starts at `i`.
pub fn attr_start_exec(t: &Vec<char>, i: usize) -> (r: bool)
    requires
        i <= t.len(),
    ensures
        r == attr_start(t@, i as int),
{
    (at_exec(t, i, '/') && at_exec(t, i + 1, '/') && at_after(t, i, 2, '/') && !at_after(t, i, 3, '/'))
        || doc_block_exec(t, i) || at_exec(t, i, '#')
}

/// The attributes starting at `i`, and the position after them.
pub fn attrs_exec(t: &Vec<char>, i: usize) -> (r: Option<(Vec<Attr>, usize)>)
    requires
        i <= t.len(),
    ensures
        match r {
            Some((v, e)) => attrs_from(t@, i as int, Seq::empty()) == Some(
                (attrs_model(v@), e as int),
            ) && i <= e <= t.len(),
            None => attrs_from(t@, i as int, Seq::empty()) is None,
        },
{
    let mut acc: Vec<Attr> = Vec::new();
    let mut j = i;
    assert(attrs_model(acc@) =~= Seq::<AttrModel>::empty());
    loop
        invariant
            i <= j <= t.len(),
            attrs_from(t@, j as int, attrs_model(acc@)) == attrs_from(t@, i as int, Seq::empty()),
        decreases t.len() - j,
    {
        if !attr_start_exec(t, j) {
            return Some((acc, j));
        }
        match attr_at_exec(t, j) {
            None => {
                return None;
            },
            Some((a, e)) => {
                if e <= j {
                    return None;
                }
                let ghost before = acc@;
                acc.push(a);
                assert(attrs_model(acc@) =~= attrs_model(before).push(a.model()));
                j = skip_exec(t, e);
            },
        }
    }
}

/// The parameters starting at `i`, up to and past the closing `)`.
pub fn params_exec(t: &Vec<char>, i: usize) -> (r: Option<(Vec<Param>, usize)>)
    requires
        i <= t.len(),
    ensures
        match r {
            Some((v, e)) => params_from(t@, i as int, Seq::empty()) == Some(
                (params_model(v@), e as int),
            ) && e <= t.len(),
            None => params_from(t@, i as int, Seq::empty()) is None,
        },
{
    let mut acc: Vec<Param> = Vec::new();
    let mut j = i;
    assert(params_model(acc@) =~= Seq::<ParamModel>::empty());
    loop
        invariant
            j <= t.len(),
            params_from(t@, j as int, params_model(acc@)) == params_from(
                t@,
                i as int,
                Seq::empty(),
            ),
        decreases t.len() - j,
    {
        if at_exec(t, j, ')') {
            let e = next_exec(t, j);
            return Some((acc, e));
        }
        let (pattrs, s) = match attrs_exec(t, j) {
            None => {
                return None;
            },
            Some(x) => x,
        };
        let by_ref = word_is_exec(t, s, "ref");
        let a = if by_ref {
            after_word_exec(t, s)
        } else {
            s
        };
        let mutable = word_is_exec(t, a, "mut");
        let b = if mutable {
            after_word_exec(t, a)
        } else {
            a
        };
        let e = match name_at_exec(t, b) {
            None => {
                return None;
            },
            Some(e) => e,
        };
        let c = skip_exec(t, e);
        if !at_exec(t, c, ':') {
            return None;
        }
        let d = next_exec(t, c);
        let f = match ty_exec(t, d, true) {
            None => {
                return None;
            },
            Some(f) => f,
        };
        let p = Param {
            attrs: pattrs,
            name: text_between(t, b, e),
            by_ref,
            mutable,
            ty: text_between(t, d, f),
        };
        let k = skip_exec(t, f);
        let ghost before = acc@;
        acc.push(p);
        assert(params_model(acc@) =~= params_model(before).push(p.model()));
        if at_exec(t, k, ')') {
            let e2 = next_exec(t, k);
            return Some((acc, e2));
        } else if at_exec(t, k, ',') {
            j = next_exec(t, k);
        } else {
            return None;
        }
    }
}

pub open spec fn opt_text_result(r: Option<(Option<String>, usize)>) -> Option<
    (Option<Seq<char>>, int),
> {
    match r {
        Some((o, e)) => Some((opt_text(o), e as int)),
        None => None,
    }
}

/// The optional return type at `i`.
pub fn ret_exec(t: &Vec<char>, i: usize) -> (r: Option<(Option<String>, usize)>)
    requires
        i <= t.len(),
    ensures
        opt_text_result(r) == ret_at(t@, i as int),
        r matches Some((o, e)) ==> i <= e <= t.len(),
{
    if at_exec(t, i, '-') && at_exec(t, i + 1, '>') {
        let r = skip_exec(t, i + 2);
        match ty_exec(t, r, true) {
            None => None,
            Some(e) => Some((Some(text_between(t, r, e)), skip_exec(t, e))),
        }
    } else {
        Some((None, i))
    }
}

/// The optional body at `i`.
pub fn body_exec(t: &Vec<char>, i: usize) -> (r: Option<(Option<String>, usize)>)
    requires
        i <= t.len(),
    ensures
        opt_text_result(r) == body_at(t@, i as int),
        r matches Some((o, e)) ==> i <= e <= t.len(),
{
    if at_exec(t, i, '{') {
        match tokens_end_exec(t, i + 1, '}') {
            None => None,
            Some(c) => Some((Some(text_between(t, i + 1, c - 1)), skip_exec(t, c))),
        }
    } else {
        Some((None, i))
    }
}

pub open spec fn item_result(r: Option<(ApiItem, usize)>) -> Option<(ApiItemModel, int)> {
    match r {
        Some((m, e)) => Some((m.model(), e as int)),
        None => None,
    }
}

/// The member starting at `i`.
pub fn member_exec(t: &Vec<char>, i: usize) -> (r: Option<(ApiItem, usize)>)
    requires
        i <= t.len(),
    ensures
        item_result(r) == member_at(t@, i as int),
        r matches Some((m, e)) ==> e <= t.len(),
{
    let (attrs, a) = match attrs_exec(t, i) {
        None => {
            return None;
        },
        Some(x) => x,
    };
    let b = match name_at_exec(t, a) {
        None => {
            return None;
        },
        Some(b) => b,
    };
    let c = skip_exec(t, b);
    if at_exec(t, c, ':') {
        let d = next_exec(t, c);
        match ty_exec(t, d, true) {
            None => None,
            Some(e) => {
                let f = skip_exec(t, e);
                let g = if at_exec(t, f, ',') {
                    next_exec(t, f)
                } else {
                    f
                };
                let item = ApiItem {
                    attrs,
                    ident: text_between(t, a, b),
                    kind: ItemKind::Field,
                    params: Vec::new(),
                    ty: Some(text_between(t, d, e)),
                    body: None,
                };
                assert(params_model(item.params@) =~= Seq::<ParamModel>::empty());
                Some((item, g))
            },
        }
    } else if at_exec(t, c, '(') {
        let n = next_exec(t, c);
        match params_exec(t, n) {
            None => None,
            Some((params, p)) => match ret_exec(t, p) {
                None => None,
                Some((ret, q)) => match body_exec(t, q) {
                    None => None,
                    Some((body, r)) => Some(
                        (
                            ApiItem {
                                attrs,
                                ident: text_between(t, a, b),
                                kind: ItemKind::Function,
                                params,
                                ty: ret,
                                body,
                            },
                            r,
                        ),
                    ),
                },
            },
        }
    } else {
        None
    }
}

/// The members starting at `i`, up to and past the closing `}`.
pub fn members_exec(t: &Vec<char>, i: usize) -> (r: Option<(Vec<ApiItem>, usize)>)
    requires
        i <= t.len(),
    ensures
        match r {
            Some((v, e)) => members_from(t@, i as int, Seq::empty()) == Some(
                (v@.map_values(|m: ApiItem| m.model()), e as int),
            ) && e <= t.len(),
            None => members_from(t@, i as int, Seq::empty()) is None,
        },
{
    let mut acc: Vec<ApiItem> = Vec::new();
    let mut j = i;
    assert(acc@.map_values(|m: ApiItem| m.model()) =~= Seq::<ApiItemModel>::empty());
    loop
        invariant
            j <= t.len(),
            members_from(t@, j as int, acc@.map_values(|m: ApiItem| m.model())) == members_from(
                t@,
                i as int,
                Seq::empty(),
            ),
        decreases t.len() - j,
    {
        if at_exec(t, j, '}') {
            return Some((acc, j + 1));
        }
        match member_exec(t, j) {
            None => {
                return None;
            },
            Some((m, e)) => {
                if e <= j {
                    return None;
                }
                let ghost before = acc@;
                acc.push(m);
                assert(acc@.map_values(|m: ApiItem| m.model()) =~= before.map_values(
                    |m: ApiItem| m.model(),
                ).push(m.model()));
                j = e;
            },
        }
    }
}

pub open spec fn def_result(r: Option<(ApiDefinition, usize)>) -> Option<
    (ApiDefinitionModel, int),
> {
    match r {
        Some((d, e)) => Some((d.model(), e as int)),
        None => None,
    }
}

/// The definition starting at `i`.
pub fn definition_exec(t: &Vec<char>, i: usize) -> (r: Option<(ApiDefinition, usize)>)
    requires
        i <= t.len(),
    ensures
        def_result(r) == definition_at(t@, i as int),
        r matches Some((d, e)) ==> e <= t.len(),
{
    let (attrs, a) = match attrs_exec(t, i) {
        None => {
            return None;
        },
        Some(x) => x,
    };
    let b = match name_at_exec(t, a) {
        None => {
            return None;
        },
        Some(b) => b,
    };
    let c = skip_exec(t, b);
    if !at_exec(t, c, '(') {
        return None;
    }
    let n = next_exec(t, c);
    let (base, d) = match lit_str_exec(t, n) {
        None => {
            return None;
        },
        Some(x) => x,
    };
    let d2 = skip_exec(t, d);
    let (section, f) = if at_exec(t, d2, '#') {
        let m = next_exec(t, d2);
        match lit_str_exec(t, m) {
            None => {
                return None;
            },
            Some((s, e)) => (Some(s), skip_exec(t, e)),
        }
    } else {
        (None, d2)
    };
    if !at_exec(t, f, ')') {
        return None;
    }
    let g = next_exec(t, f);
    let ident = text_between(t, a, b);
    if at_exec(t, g, '{') {
        let h0 = next_exec(t, g);
        match members_exec(t, h0) {
            None => None,
            Some((items, h)) => {
                let e = skip_exec(t, h);
                Some((ApiDefinition { attrs, ident, base, section, items }, e))
            },
        }
    } else {
        let items: Vec<ApiItem> = Vec::new();
        assert(items@.map_values(|m: ApiItem| m.model()) =~= Seq::<ApiItemModel>::empty());
        Some((ApiDefinition { attrs, ident, base, section, items }, g))
    }
}

/// Why a text is not an API definition.
#[derive(Clone, Debug, PartialEq)]
pub enum ApiParseError {
    /// The text does not follow the grammar.
    Syntax,
}

/// The mathematical value of what [`parse_api_input`] returns: the
/// definitions read, or `None` where the text was refused.
pub open spec fn parse_result_model(r: Result<Vec<ApiDefinition>, ApiParseError>) -> Option<
    Seq<ApiDefinitionModel>,
> {
    match r {
        Ok(v) => Some(v@.map_values(|d: ApiDefinition| d.model())),
        Err(_) => None,
    }
}

/// Reads the definitions that `text` holds, in order.
pub fn parse_api_input(text: &str) -> (r: Result<Vec<ApiDefinition>, ApiParseError>)
    ensures
        parse_result_model(r) == api_input(text@),
{
    let cs = chars_of(text);
    let t = &cs;
    let i = skip_exec(t, 0);
    let mut acc: Vec<ApiDefinition> = Vec::new();
    let mut j = i;
    assert(acc@.map_values(|d: ApiDefinition| d.model()) =~= Seq::<ApiDefinitionModel>::empty());
    while j < t.len()
        invariant
            j <= t.len(),
            t@ == text@,
            definitions_from(t@, j as int, acc@.map_values(|d: ApiDefinition| d.model()))
                == api_input(text@),
        decreases t.len() - j,
    {
        match definition_exec(t, j) {
            None => {
                return Err(ApiParseError::Syntax);
            },
            Some((d, e)) => {
                if e <= j {
                    return Err(ApiParseError::Syntax);
                }
                let ghost before = acc@;
                acc.push(d);
                assert(acc@.map_values(|d: ApiDefinition| d.model()) =~= before.map_values(
                    |d: ApiDefinition| d.model(),
                ).push(d.model()));
                j = e;
            },
        }
    }
    Ok(acc)
}

/// Why the definitions in a text cannot be expanded.
#[derive(Clone, Debug, PartialEq)]
pub enum ApiInputError {
    /// The text does not follow the grammar.
    Syntax,
    /// The attribute of this name needs a value (`= "..."`) and has none.
    MissingValue(String),
}

/// The mathematical value of an [`ApiInputError`].
pub enum ApiInputErrorModel {
    Syntax,
    MissingValue(Seq<char>),
}

/// The expansions of the definitions, in order, or the error of the first
/// definition that has one.
pub open spec fn expand_all(defs: Seq<ApiDefinitionModel>) -> Result<
    Seq<ApiExpansionModel>,
    Seq<char>,
>
    decreases defs.len(),
{
    if defs.len() == 0 {
        Ok(Seq::empty())
    } else {
        match expand_all(defs.drop_last()) {
            Err(e) => Err(e),
            Ok(done) => match api_model(defs.last()) {
                Err(e) => Err(e),
                Ok(x) => Ok(done.push(x)),
            },
        }
    }
}

/// How the definitions of a text are expanded: an error if the text does not
/// follow the grammar, else the expansion of each definition in order, or
/// the first error among them.
pub open spec fn expand_input_model(t: Seq<char>) -> Result<
    Seq<ApiExpansionModel>,
    ApiInputErrorModel,
> {
    match api_input(t) {
        None => Err(ApiInputErrorModel::Syntax),
        Some(defs) => match expand_all(defs) {
            Ok(xs) => Ok(xs),
            Err(n) => Err(ApiInputErrorModel::MissingValue(n)),
        },
    }
}

/// The mathematical value of what [`expand_api_input`] returns.
pub open spec fn input_result_model(r: Result<Vec<ApiExpansion>, ApiInputError>) -> Result<
    Seq<ApiExpansionModel>,
    ApiInputErrorModel,
> {
    match r {
        Ok(v) => Ok(v@.map_values(|x: ApiExpansion| x.model())),
        Err(ApiInputError::Syntax) => Err(ApiInputErrorModel::Syntax),
        Err(ApiInputError::MissingValue(n)) => Err(ApiInputErrorModel::MissingValue(n@)),
    }
}

/// An error in the expansion of the first `k` definitions is the error of
/// the expansion of all of them.
proof fn lemma_expand_all_error_prefix(defs: Seq<ApiDefinitionModel>, k: int)
    requires
        0 <= k <= defs.len(),
        expand_all(defs.take(k)) is Err,
    ensures
        expand_all(defs) == expand_all(defs.take(k)),
    decreases defs.len(),
{
    if k == defs.len() {
        assert(defs.take(k) =~= defs);
    } else {
        assert(defs.drop_last().take(k) =~= defs.take(k));
        lemma_expand_all_error_prefix(defs.drop_last(), k);
    }
}

/// Reads the definitions that `text` holds and expands each of them, in
/// order.
pub fn expand_api_input(text: &str) -> (r: Result<Vec<ApiExpansion>, ApiInputError>)
    ensures
        input_result_model(r) == expand_input_model(text@),
{
    let defs = match parse_api_input(text) {
        Err(_) => {
            return Err(ApiInputError::Syntax);
        },
        Ok(d) => d,
    };
    let ghost ds = defs@.map_values(|d: ApiDefinition| d.model());
    let mut out: Vec<ApiExpansion> = Vec::new();
    assert(out@.map_values(|x: ApiExpansion| x.model()) =~= Seq::<ApiExpansionModel>::empty());
    assert(ds.take(0) =~= Seq::<ApiDefinitionModel>::empty());
    let n = defs.len();
    for i in 0..n
        invariant
            n == defs@.len(),
            ds == defs@.map_values(|d: ApiDefinition| d.model()),
            api_input(text@) == Some(ds),
            expand_all(ds.take(i as int)) == Ok::<Seq<ApiExpansionModel>, Seq<char>>(
                out@.map_values(|x: ApiExpansion| x.model()),
            ),
    {
        assert(ds.take(i + 1).drop_last() =~= ds.take(i as int));
        assert(ds.take(i + 1).last() == defs@[i as int].model());
        match api(&defs[i]) {
            Err(ApiError::MissingValue(m)) => {
                proof {
                    assert(expand_all(ds.take(i + 1)) == Err::<Seq<ApiExpansionModel>, Seq<char>>(
                        m@,
                    ));
                    lemma_expand_all_error_prefix(ds, i + 1);
                }
                return Err(ApiInputError::MissingValue(m));
            },
            Ok(x) => {
                let ghost before = out@;
                out.push(x);
                assert(out@.map_values(|x: ApiExpansion| x.model()) =~= before.map_values(
                    |x: ApiExpansion| x.model(),
                ).push(x.model()));
            },
        }
    }
    assert(ds.take(n as int) =~= ds);
    Ok(out)
}

} // verus!
