//! The rules by which an API definition becomes a documented table of Lua
//! members: which item documents which section of Neovim's help, which
//! attributes are consumed, and under which key each member is looked up.
//!
//! An API definition names a Lua table (such as `vim.api`), the page of the
//! Neovim documentation that describes it, and its members: fields (other
//! tables) and functions. Attributes on an item may override the prefix of
//! its help section (`#[prefix = "..."]`), the whole section
//! (`#[section = "..."]`) or the whole link (`#[link = "..."]`); any
//! non-empty abbreviation of those words works as well (`#[s = "..."]`).
use vstd::prelude::*;
use crate::text::{join_text, is_prefix, lowercase, same_text, starts_with, to_lowercase};

verus! {

/// An attribute `#[path tokens]`, or a doc comment. `name` is the path,
/// its segments joined by `::`; `args` is the text of the tokens after the
/// path, and `value` the string when those tokens are exactly `= "value"`.
/// A doc comment is the attribute named `doc` whose value is the comment's
/// text, with no `args`.
#[derive(Clone, Debug, PartialEq)]
pub struct Attr {
    pub name: String,
    pub value: Option<String>,
    pub args: String,
}

/// The mathematical value of an [`Attr`].
pub struct AttrModel {
    pub name: Seq<char>,
    pub value: Option<Seq<char>>,
    pub args: Seq<char>,
}

pub open spec fn opt_text(o: Option<String>) -> Option<Seq<char>> {
    match o {
        Some(s) => Some(s@),
        None => None,
    }
}

impl Attr {
    pub open spec fn model(&self) -> AttrModel {
        AttrModel { name: self.name@, value: opt_text(self.value), args: self.args@ }
    }

    /// An attribute equal to this one.
    pub fn duplicate(&self) -> (a: Attr)
        ensures
            a.model() == self.model(),
    {
        let value = match &self.value {
            Some(v) => Some(v.clone()),
            None => None,
        };
        Attr { name: self.name.clone(), value, args: self.args.clone() }
    }
}

pub open spec fn attrs_model(s: Seq<Attr>) -> Seq<AttrModel> {
    s.map_values(|a: Attr| a.model())
}

pub open spec fn opt_attr_model(o: Option<Attr>) -> Option<AttrModel> {
    match o {
        Some(a) => Some(a.model()),
        None => None,
    }
}

/// `name` abbreviates `keyword`: it is a prefix of it.
pub open spec fn abbreviates(name: Seq<char>, keyword: Seq<char>) -> bool {
    is_prefix(name, keyword)
}

/// The attributes whose names do not abbreviate `keyword`, in order.
pub open spec fn without(attrs: Seq<AttrModel>, keyword: Seq<char>) -> Seq<AttrModel>
    decreases attrs.len(),
{
    if attrs.len() == 0 {
        Seq::empty()
    } else {
        let rest = without(attrs.drop_last(), keyword);
        if abbreviates(attrs.last().name, keyword) {
            rest
        } else {
            rest.push(attrs.last())
        }
    }
}

/// The last attribute whose name abbreviates `keyword`.
pub open spec fn last_of(attrs: Seq<AttrModel>, keyword: Seq<char>) -> Option<AttrModel>
    decreases attrs.len(),
{
    if attrs.len() == 0 {
        None
    } else if abbreviates(attrs.last().name, keyword) {
        Some(attrs.last())
    } else {
        last_of(attrs.drop_last(), keyword)
    }
}

/// The name of the first attribute whose name abbreviates `keyword` and
/// that has no value.
pub open spec fn first_missing(attrs: Seq<AttrModel>, keyword: Seq<char>) -> Option<Seq<char>>
    decreases attrs.len(),
{
    if attrs.len() == 0 {
        None
    } else {
        match first_missing(attrs.drop_last(), keyword) {
            Some(n) => Some(n),
            None => if abbreviates(attrs.last().name, keyword) && attrs.last().value is None {
                Some(attrs.last().name)
            } else {
                None
            },
        }
    }
}

/// What one pass over the attributes finds for one keyword.
pub struct KeywordScan {
    /// The attributes whose names do not abbreviate the keyword.
    pub rest: Vec<Attr>,
    /// The last attribute whose name abbreviates the keyword.
    pub last: Option<Attr>,
    /// The name of the first such attribute that has no value.
    pub missing: Option<String>,
}

/// Sorts the attributes by whether their names abbreviate `keyword`.
pub fn scan_keyword(attrs: &Vec<Attr>, keyword: &str) -> (r: KeywordScan)
    ensures
        attrs_model(r.rest@) == without(attrs_model(attrs@), keyword@),
        opt_attr_model(r.last) == last_of(attrs_model(attrs@), keyword@),
        opt_text(r.missing) == first_missing(attrs_model(attrs@), keyword@),
        r.missing is None ==> (r.last matches Some(a) ==> a.value is Some),
{
    let ghost all = attrs_model(attrs@);
    let mut rest: Vec<Attr> = Vec::new();
    let mut last: Option<Attr> = None;
    let mut missing: Option<String> = None;
    let n = attrs.len();
    for i in 0..n
        invariant
            n == attrs@.len(),
            all == attrs_model(attrs@),
            attrs_model(rest@) == without(all.take(i as int), keyword@),
            opt_attr_model(last) == last_of(all.take(i as int), keyword@),
            opt_text(missing) == first_missing(all.take(i as int), keyword@),
            missing is None ==> (last matches Some(a) ==> a.value is Some),
    {
        let a = &attrs[i];
        assert(all.take(i + 1).drop_last() =~= all.take(i as int));
        assert(all.take(i + 1).last() == a.model());
        if starts_with(keyword, a.name.as_str()) {
            if missing.is_none() && a.value.is_none() {
                missing = Some(a.name.clone());
            }
            last = Some(a.duplicate());
        } else {
            let ghost before = rest@;
            rest.push(a.duplicate());
            assert(attrs_model(rest@) =~= attrs_model(before).push(a.model()));
        }
    }
    assert(all.take(n as int) =~= all);
    KeywordScan { rest, last, missing }
}

/// What an item of an API definition is: a field holding another table, or
/// a function.
#[derive(Clone, Copy, Debug, PartialEq, Eq, Structural)]
pub enum ItemKind {
    Field,
    Function,
}

/// A parameter `name: Type` of a function item, with the attributes
/// written before it, whose name may be bound by reference (`ref name`) and
/// mutably (`mut name`).
#[derive(Clone, Debug, PartialEq)]
pub struct Param {
    pub attrs: Vec<Attr>,
    pub name: String,
    pub by_ref: bool,
    pub mutable: bool,
    pub ty: String,
}

pub struct ParamModel {
    pub attrs: Seq<AttrModel>,
    pub name: Seq<char>,
    pub by_ref: bool,
    pub mutable: bool,
    pub ty: Seq<char>,
}

impl Param {
    pub open spec fn model(&self) -> ParamModel {
        ParamModel {
            attrs: attrs_model(self.attrs@),
            name: self.name@,
            by_ref: self.by_ref,
            mutable: self.mutable,
            ty: self.ty@,
        }
    }
}

pub open spec fn params_model(s: Seq<Param>) -> Seq<ParamModel> {
    s.map_values(|p: Param| p.model())
}

/// Copies of the attributes.
pub fn duplicate_attrs(v: &Vec<Attr>) -> (r: Vec<Attr>)
    ensures
        attrs_model(r@) == attrs_model(v@),
{
    let mut r: Vec<Attr> = Vec::new();
    let n = v.len();
    for i in 0..n
        invariant
            n == v@.len(),
            attrs_model(r@) == attrs_model(v@.take(i as int)),
    {
        let a = v[i].duplicate();
        let ghost before = r@;
        r.push(a);
        assert(attrs_model(r@) =~= attrs_model(before).push(a.model()));
        assert(attrs_model(v@.take(i + 1)) =~= attrs_model(v@.take(i as int)).push(
            v@[i as int].model(),
        ));
    }
    assert(v@.take(n as int) =~= v@);
    r
}

/// Copies of the parameters.
pub fn duplicate_params(ps: &Vec<Param>) -> (r: Vec<Param>)
    ensures
        params_model(r@) == params_model(ps@),
{
    let mut r: Vec<Param> = Vec::new();
    let n = ps.len();
    for i in 0..n
        invariant
            n == ps@.len(),
            params_model(r@) == params_model(ps@.take(i as int)),
    {
        let p = Param {
            attrs: duplicate_attrs(&ps[i].attrs),
            name: ps[i].name.clone(),
            by_ref: ps[i].by_ref,
            mutable: ps[i].mutable,
            ty: ps[i].ty.clone(),
        };
        let ghost before = r@;
        r.push(p);
        assert(params_model(r@) =~= params_model(before).push(p.model()));
        assert(params_model(ps@.take(i + 1)) =~= params_model(ps@.take(i as int)).push(
            ps@[i as int].model(),
        ));
    }
    assert(ps@.take(n as int) =~= ps@);
    r
}

/// A copy of an optional text.
pub fn duplicate_text(o: &Option<String>) -> (r: Option<String>)
    ensures
        opt_text(r) == opt_text(*o),
{
    match o {
        Some(s) => Some(s.clone()),
        None => None,
    }
}

/// An item `ident: Type` or `ident(params) -> Ret { body }` of an API
/// definition, with the attributes written above it. `ty` is the field's
/// type or the function's return type, `body` the text between the braces
/// after a function.
#[derive(Clone, Debug, PartialEq)]
pub struct ApiItem {
    pub attrs: Vec<Attr>,
    pub ident: String,
    pub kind: ItemKind,
    pub params: Vec<Param>,
    pub ty: Option<String>,
    pub body: Option<String>,
}

pub struct ApiItemModel {
    pub attrs: Seq<AttrModel>,
    pub ident: Seq<char>,
    pub kind: ItemKind,
    pub params: Seq<ParamModel>,
    pub ty: Option<Seq<char>>,
    pub body: Option<Seq<char>>,
}

impl ApiItem {
    pub open spec fn model(&self) -> ApiItemModel {
        ApiItemModel {
            attrs: attrs_model(self.attrs@),
            ident: self.ident@,
            kind: self.kind,
            params: params_model(self.params@),
            ty: opt_text(self.ty),
            body: opt_text(self.body),
        }
    }
}

/// A member of the generated table: the attributes that pass through, its
/// documentation, the key under which the Lua table holds it, and the
/// item's signature (parameters, type, body) unchanged.
#[derive(Clone, Debug, PartialEq)]
pub struct ItemExpansion {
    pub attrs: Vec<Attr>,
    pub doc: String,
    pub key: String,
    pub kind: ItemKind,
    pub params: Vec<Param>,
    pub ty: Option<String>,
    pub body: Option<String>,
}

pub struct ItemExpansionModel {
    pub attrs: Seq<AttrModel>,
    pub doc: Seq<char>,
    pub key: Seq<char>,
    pub kind: ItemKind,
    pub params: Seq<ParamModel>,
    pub ty: Option<Seq<char>>,
    pub body: Option<Seq<char>>,
}

impl ItemExpansion {
    pub open spec fn model(&self) -> ItemExpansionModel {
        ItemExpansionModel {
            attrs: attrs_model(self.attrs@),
            doc: self.doc@,
            key: self.key@,
            kind: self.kind,
            params: params_model(self.params@),
            ty: opt_text(self.ty),
            body: opt_text(self.body),
        }
    }
}

/// Why an API definition cannot be expanded.
#[derive(Clone, Debug, PartialEq)]
pub enum ApiError {
    /// The attribute of this name needs a value (`= "..."`) and has none.
    MissingValue(String),
}

/// A Markdown link labelled "Neovim doc".
pub open spec fn neovim_doc(link: Seq<char>) -> Seq<char> {
    "[Neovim doc]("@ + link + ")"@
}

/// The help section of an item before any attribute changes it: a field is
/// documented under its name, a function under its name followed by `()`
/// (written `%28%29` in a link).
pub open spec fn own_section(ident: Seq<char>, kind: ItemKind) -> Seq<char> {
    match kind {
        ItemKind::Field => ident,
        ItemKind::Function => ident + "%28%29"@,
    }
}

/// The prefix of an item's help section: that of the definition, unless a
/// `prefix` attribute gives one (or, without a value, asks for the
/// definition's name followed by a dot).
pub open spec fn item_prefix(
    default_prefix: Seq<char>,
    struct_ident: Seq<char>,
    attrs: Seq<AttrModel>,
) -> Seq<char> {
    match last_of(attrs, "prefix"@) {
        None => default_prefix,
        Some(a) => match a.value {
            Some(v) => v,
            None => struct_ident + "."@,
        },
    }
}

pub open spec fn value_of(a: AttrModel) -> Seq<char> {
    match a.value {
        Some(v) => v,
        None => Seq::empty(),
    }
}

/// How an item is expanded, or the name of the attribute that lacks a value.
pub open spec fn expand_item_model(
    base: Seq<char>,
    struct_ident: Seq<char>,
    default_prefix: Seq<char>,
    item: ApiItemModel,
) -> Result<ItemExpansionModel, Seq<char>> {
    let rest1 = without(item.attrs, "prefix"@);
    let rest2 = without(rest1, "section"@);
    let rest3 = without(rest2, "link"@);
    let prefix = item_prefix(default_prefix, struct_ident, item.attrs);
    let section = match last_of(rest1, "section"@) {
        Some(a) => value_of(a),
        None => prefix + own_section(item.ident, item.kind),
    };
    let link = match last_of(rest2, "link"@) {
        Some(a) => value_of(a),
        None => base + "#"@ + section,
    };
    if first_missing(rest1, "section"@) is Some {
        Err(first_missing(rest1, "section"@)->0)
    } else if first_missing(rest2, "link"@) is Some {
        Err(first_missing(rest2, "link"@)->0)
    } else {
        Ok(
            ItemExpansionModel {
                attrs: rest3,
                doc: "\n\n"@ + neovim_doc(link),
                key: item.ident,
                kind: item.kind,
                params: item.params,
                ty: item.ty,
                body: item.body,
            },
        )
    }
}

pub open spec fn item_result_model(r: Result<ItemExpansion, ApiError>) -> Result<
    ItemExpansionModel,
    Seq<char>,
> {
    match r {
        Ok(x) => Ok(x.model()),
        Err(ApiError::MissingValue(n)) => Err(n@),
    }
}

/// Expands one item of the definition named `struct_ident`, documented at
/// `base`, whose items are prefixed by `default_prefix`.
pub fn expand_item(base: &str, struct_ident: &str, default_prefix: &str, item: &ApiItem) -> (r:
    Result<ItemExpansion, ApiError>)
    ensures
        item_result_model(r) == expand_item_model(
            base@,
            struct_ident@,
            default_prefix@,
            item.model(),
        ),
{
    let scan1 = scan_keyword(&item.attrs, "prefix");
    let prefix = match &scan1.last {
        None => String::from_str(default_prefix),
        Some(a) => match &a.value {
            Some(v) => v.clone(),
            None => join_text(struct_ident, "."),
        },
    };
    let own = match item.kind {
        ItemKind::Field => item.ident.clone(),
        ItemKind::Function => join_text(item.ident.as_str(), "%28%29"),
    };
    let scan2 = scan_keyword(&scan1.rest, "section");
    if let Some(m) = scan2.missing {
        return Err(ApiError::MissingValue(m));
    }
    let section = match &scan2.last {
        Some(a) => match &a.value {
            Some(v) => v.clone(),
            None => String::new(),
        },
        None => join_text(prefix.as_str(), own.as_str()),
    };
    let scan3 = scan_keyword(&scan2.rest, "link");
    if let Some(m) = scan3.missing {
        return Err(ApiError::MissingValue(m));
    }
    let link = match &scan3.last {
        Some(a) => match &a.value {
            Some(v) => v.clone(),
            None => String::new(),
        },
        None => {
            let with_hash = join_text(base, "#");
            join_text(with_hash.as_str(), section.as_str())
        },
    };
    let opened = join_text("\n\n[Neovim doc](", link.as_str());
    let doc = join_text(opened.as_str(), ")");
    proof {
        assert(doc@ == "\n\n"@ + neovim_doc(link@)) by {
            reveal_strlit("\n\n[Neovim doc](");
            reveal_strlit("\n\n");
            reveal_strlit("[Neovim doc](");
            assert("\n\n[Neovim doc]("@ =~= "\n\n"@ + "[Neovim doc]("@);
        }
    }
    Ok(
        ItemExpansion {
            attrs: scan3.rest,
            doc,
            key: item.ident.clone(),
            kind: item.kind,
            params: duplicate_params(&item.params),
            ty: duplicate_text(&item.ty),
            body: duplicate_text(&item.body),
        },
    )
}

/// When no attribute abbreviates `keyword`, none is removed, none is found,
/// and none lacks a value.
proof fn lemma_no_keyword(attrs: Seq<AttrModel>, keyword: Seq<char>)
    requires
        forall|i: int| 0 <= i < attrs.len() ==> !abbreviates(#[trigger] attrs[i].name, keyword),
    ensures
        without(attrs, keyword) == attrs,
        last_of(attrs, keyword) is None,
        first_missing(attrs, keyword) is None,
    decreases attrs.len(),
{
    if attrs.len() > 0 {
        let d = attrs.drop_last();
        assert forall|i: int| 0 <= i < d.len() implies !abbreviates(
            #[trigger] d[i].name,
            keyword,
        ) by {
            assert(d[i] == attrs[i]);
        }
        lemma_no_keyword(d, keyword);
        assert(!abbreviates(attrs[attrs.len() - 1].name, keyword));
        assert(d.push(attrs.last()) =~= attrs);
    }
}

/// An item without attributes is documented at the page of its definition,
/// in the section made of the definition's prefix and the item's own
/// section (its name, followed by `()` for a function), and is looked up
/// under its name.
pub proof fn lemma_plain_item(
    base: Seq<char>,
    struct_ident: Seq<char>,
    prefix: Seq<char>,
    ident: Seq<char>,
    kind: ItemKind,
    params: Seq<ParamModel>,
    ty: Option<Seq<char>>,
    body: Option<Seq<char>>,
)
    ensures
        expand_item_model(
            base,
            struct_ident,
            prefix,
            ApiItemModel { attrs: Seq::empty(), ident, kind, params, ty, body },
        ) == Ok::<ItemExpansionModel, Seq<char>>(
            ItemExpansionModel {
                attrs: Seq::empty(),
                doc: "\n\n"@ + neovim_doc(base + "#"@ + prefix + own_section(ident, kind)),
                key: ident,
                kind,
                params,
                ty,
                body,
            },
        ),
{
    let e: Seq<AttrModel> = Seq::empty();
    lemma_no_keyword(e, "prefix"@);
    lemma_no_keyword(e, "section"@);
    lemma_no_keyword(e, "link"@);
    assert(base + "#"@ + (prefix + own_section(ident, kind)) =~= base + "#"@ + prefix
        + own_section(ident, kind));
}

/// Attributes whose names abbreviate none of `prefix`, `section` and `link`
/// pass through unchanged and in order, and cannot make an item fail.
pub proof fn lemma_other_attributes_pass_through(
    base: Seq<char>,
    struct_ident: Seq<char>,
    prefix: Seq<char>,
    item: ApiItemModel,
)
    requires
        forall|i: int|
            0 <= i < item.attrs.len() ==> {
                &&& !abbreviates(#[trigger] item.attrs[i].name, "prefix"@)
                &&& !abbreviates(item.attrs[i].name, "section"@)
                &&& !abbreviates(item.attrs[i].name, "link"@)
            },
    ensures
        expand_item_model(base, struct_ident, prefix, item) matches Ok(x) && x.attrs
            == item.attrs && x.doc == "\n\n"@ + neovim_doc(
            base + "#"@ + prefix + own_section(item.ident, item.kind),
        ),
{
    lemma_no_keyword(item.attrs, "prefix"@);
    lemma_no_keyword(item.attrs, "section"@);
    lemma_no_keyword(item.attrs, "link"@);
    assert(base + "#"@ + (prefix + own_section(item.ident, item.kind)) =~= base + "#"@ + prefix
        + own_section(item.ident, item.kind));
}

/// An item whose only attribute is `#[link = "v"]` (whose tokens after
/// the path are `args`) is documented by the link `v` alone.
pub proof fn lemma_link_attribute(
    base: Seq<char>,
    struct_ident: Seq<char>,
    prefix: Seq<char>,
    ident: Seq<char>,
    kind: ItemKind,
    v: Seq<char>,
    args: Seq<char>,
    params: Seq<ParamModel>,
    ty: Option<Seq<char>>,
    body: Option<Seq<char>>,
)
    ensures
        expand_item_model(
            base,
            struct_ident,
            prefix,
            ApiItemModel {
                attrs: seq![AttrModel { name: "link"@, value: Some(v), args }],
                ident,
                kind,
                params,
                ty,
                body,
            },
        ) == Ok::<ItemExpansionModel, Seq<char>>(
            ItemExpansionModel {
                attrs: Seq::empty(),
                doc: "\n\n"@ + neovim_doc(v),
                key: ident,
                kind,
                params,
                ty,
                body,
            },
        ),
{
    reveal_strlit("link");
    reveal_strlit("prefix");
    reveal_strlit("section");
    let attrs = seq![AttrModel { name: "link"@, value: Some(v), args }];
    assert(!abbreviates("link"@, "prefix"@)) by {
        assert("prefix"@.subrange(0, 4)[0] != "link"@[0]);
    }
    assert(!abbreviates("link"@, "section"@)) by {
        assert("section"@.subrange(0, 4)[0] != "link"@[0]);
    }
    assert(abbreviates("link"@, "link"@)) by {
        assert("link"@.subrange(0, 4) =~= "link"@);
    }
    assert(attrs.drop_last() =~= Seq::<AttrModel>::empty());
    assert(attrs[0].name == "link"@);
    lemma_no_keyword(attrs, "prefix"@);
    lemma_no_keyword(attrs, "section"@);
    assert(attrs.last() == attrs[0]);
    assert(without(attrs.drop_last(), "link"@) =~= Seq::<AttrModel>::empty());
    assert(without(attrs, "link"@) =~= Seq::<AttrModel>::empty());
    assert(last_of(attrs, "link"@) == Some(attrs[0]));
    assert(first_missing(attrs.drop_last(), "link"@) is None);
    assert(first_missing(attrs, "link"@) is None);
}

/// What one attribute makes of the attribute scans for `keyword`.
proof fn lemma_single_attr(a: AttrModel, keyword: Seq<char>)
    ensures
        abbreviates(a.name, keyword) ==> {
            &&& without(seq![a], keyword) == Seq::<AttrModel>::empty()
            &&& last_of(seq![a], keyword) == Some(a)
            &&& first_missing(seq![a], keyword) == (if a.value is None {
                Some(a.name)
            } else {
                None
            })
        },
        !abbreviates(a.name, keyword) ==> {
            &&& without(seq![a], keyword) == seq![a]
            &&& last_of(seq![a], keyword) is None
            &&& first_missing(seq![a], keyword) is None
        },
{
    let s = seq![a];
    let e = Seq::<AttrModel>::empty();
    assert(s.drop_last() =~= e);
    assert(s.last() == a);
    assert(e.push(a) =~= s);
    assert(without(e, keyword) == e);
    assert(last_of(e, keyword) is None);
    assert(first_missing(e, keyword) is None);
    assert(without(s, keyword) == (if abbreviates(a.name, keyword) {
        without(e, keyword)
    } else {
        without(e, keyword).push(a)
    }));
    assert(last_of(s, keyword) == (if abbreviates(a.name, keyword) {
        Some(a)
    } else {
        last_of(e, keyword)
    }));
    assert(first_missing(s, keyword) == (if abbreviates(a.name, keyword) && a.value is None {
        Some(a.name)
    } else {
        None::<Seq<char>>
    }));
}

/// A non-empty abbreviation of one of `prefix`, `section` and `link`
/// abbreviates neither of the other two.
proof fn lemma_keywords_apart(n: Seq<char>)
    requires
        n.len() > 0,
    ensures
        abbreviates(n, "prefix"@) ==> !abbreviates(n, "section"@) && !abbreviates(n, "link"@),
        abbreviates(n, "section"@) ==> !abbreviates(n, "prefix"@) && !abbreviates(n, "link"@),
        abbreviates(n, "link"@) ==> !abbreviates(n, "prefix"@) && !abbreviates(n, "section"@),
{
    reveal_strlit("prefix");
    reveal_strlit("section");
    reveal_strlit("link");
    if abbreviates(n, "prefix"@) {
        assert(n[0] == "prefix"@.subrange(0, n.len() as int)[0]);
    }
    if abbreviates(n, "section"@) {
        assert(n[0] == "section"@.subrange(0, n.len() as int)[0]);
    }
    if abbreviates(n, "link"@) {
        assert(n[0] == "link"@.subrange(0, n.len() as int)[0]);
    }
}

/// Expansion changes only an item's attributes and documentation: whatever
/// the attributes, a successful expansion is looked up under the item's
/// name and keeps its kind, parameters, type and body unchanged.
pub proof fn lemma_expansion_keeps_signature(
    base: Seq<char>,
    struct_ident: Seq<char>,
    prefix: Seq<char>,
    item: ApiItemModel,
)
    ensures
        expand_item_model(base, struct_ident, prefix, item) matches Ok(x) ==> {
            &&& x.key == item.ident
            &&& x.kind == item.kind
            &&& x.params == item.params
            &&& x.ty == item.ty
            &&& x.body == item.body
        },
{
}

/// An item whose only attribute is a `section` (or an abbreviation of the
/// word) with the value `v` is documented at `base#v`, whatever the
/// definition's prefix; without a value the attribute is refused by its
/// name.
pub proof fn lemma_section_attribute(
    base: Seq<char>,
    struct_ident: Seq<char>,
    prefix: Seq<char>,
    item: ApiItemModel,
    n: Seq<char>,
    v: Option<Seq<char>>,
    args: Seq<char>,
)
    requires
        0 < n.len() <= 7,
        "section"@.subrange(0, n.len() as int) == n,
        item.attrs == seq![AttrModel { name: n, value: v, args }],
    ensures
        v is None ==> expand_item_model(base, struct_ident, prefix, item) == Err::<
            ItemExpansionModel,
            Seq<char>,
        >(n),
        v matches Some(v) ==> expand_item_model(base, struct_ident, prefix, item) matches Ok(x)
            && x.attrs == Seq::<AttrModel>::empty() && x.doc == "\n\n"@ + "[Neovim doc]("@ + base
            + "#"@ + v + ")"@,
{
    reveal_strlit("section");
    let a = AttrModel { name: n, value: v, args };
    assert(abbreviates(n, "section"@));
    lemma_keywords_apart(n);
    lemma_single_attr(a, "prefix"@);
    lemma_single_attr(a, "section"@);
    assert(without(Seq::<AttrModel>::empty(), "link"@) == Seq::<AttrModel>::empty());
    if let Some(w) = v {
        assert("\n\n"@ + neovim_doc(base + "#"@ + w) =~= "\n\n"@ + "[Neovim doc]("@ + base + "#"@
            + w + ")"@);
    }
}

/// An item whose only attribute is a `link` (or an abbreviation of the
/// word) with the value `v` is documented by the link `v` alone; without a
/// value the attribute is refused by its name.
pub proof fn lemma_link_value(
    base: Seq<char>,
    struct_ident: Seq<char>,
    prefix: Seq<char>,
    item: ApiItemModel,
    n: Seq<char>,
    v: Option<Seq<char>>,
    args: Seq<char>,
)
    requires
        0 < n.len() <= 4,
        "link"@.subrange(0, n.len() as int) == n,
        item.attrs == seq![AttrModel { name: n, value: v, args }],
    ensures
        v is None ==> expand_item_model(base, struct_ident, prefix, item) == Err::<
            ItemExpansionModel,
            Seq<char>,
        >(n),
        v matches Some(v) ==> expand_item_model(base, struct_ident, prefix, item) matches Ok(x)
            && x.attrs == Seq::<AttrModel>::empty() && x.doc == "\n\n"@ + "[Neovim doc]("@ + v
            + ")"@,
{
    reveal_strlit("link");
    let a = AttrModel { name: n, value: v, args };
    assert(abbreviates(n, "link"@));
    lemma_keywords_apart(n);
    lemma_single_attr(a, "prefix"@);
    lemma_single_attr(a, "section"@);
    lemma_single_attr(a, "link"@);
    if let Some(w) = v {
        assert("\n\n"@ + neovim_doc(w) =~= "\n\n"@ + "[Neovim doc]("@ + w + ")"@);
    }
}

/// An item whose only attribute is a `prefix` (or an abbreviation of the
/// word) is documented at `base#` followed by the attribute's value (without
/// one, the definition's name and a dot) and the item's name, with `%28%29`
/// (`()`) after the name of a function; the attribute is consumed.
pub proof fn lemma_prefix_attribute(
    base: Seq<char>,
    struct_ident: Seq<char>,
    prefix: Seq<char>,
    item: ApiItemModel,
    n: Seq<char>,
    v: Option<Seq<char>>,
    args: Seq<char>,
)
    requires
        0 < n.len() <= 6,
        "prefix"@.subrange(0, n.len() as int) == n,
        item.attrs == seq![AttrModel { name: n, value: v, args }],
    ensures
        expand_item_model(base, struct_ident, prefix, item) matches Ok(x) && x.attrs == Seq::<
            AttrModel,
        >::empty() && x.doc == "\n\n"@ + "[Neovim doc]("@ + base + "#"@ + (match v {
            Some(p) => p,
            None => struct_ident + "."@,
        }) + (match item.kind {
            ItemKind::Field => item.ident,
            ItemKind::Function => item.ident + "%28%29"@,
        }) + ")"@,
{
    reveal_strlit("prefix");
    let a = AttrModel { name: n, value: v, args };
    assert(abbreviates(n, "prefix"@));
    lemma_single_attr(a, "prefix"@);
    let e = Seq::<AttrModel>::empty();
    assert(without(e, "section"@) == e);
    assert(without(e, "link"@) == e);
    let p = match v {
        Some(p) => p,
        None => struct_ident + "."@,
    };
    let own = own_section(item.ident, item.kind);
    assert("\n\n"@ + neovim_doc(base + "#"@ + (p + own)) =~= "\n\n"@ + "[Neovim doc]("@ + base
        + "#"@ + p + own + ")"@);
}

/// The attributes not named exactly `name`, in order.
pub open spec fn without_named(attrs: Seq<AttrModel>, name: Seq<char>) -> Seq<AttrModel>
    decreases attrs.len(),
{
    if attrs.len() == 0 {
        Seq::empty()
    } else {
        let rest = without_named(attrs.drop_last(), name);
        if attrs.last().name == name {
            rest
        } else {
            rest.push(attrs.last())
        }
    }
}

/// Some attribute is named exactly `name`.
pub open spec fn has_named(attrs: Seq<AttrModel>, name: Seq<char>) -> bool {
    exists|i: int| 0 <= i < attrs.len() && #[trigger] attrs[i].name == name
}

/// An API definition: the name of the generated type, its attributes, the
/// page of the Neovim documentation that describes the table and the
/// optional section of that page, and the items.
#[derive(Clone, Debug, PartialEq)]
pub struct ApiDefinition {
    pub attrs: Vec<Attr>,
    pub ident: String,
    pub base: String,
    pub section: Option<String>,
    pub items: Vec<ApiItem>,
}

pub struct ApiDefinitionModel {
    pub attrs: Seq<AttrModel>,
    pub ident: Seq<char>,
    pub base: Seq<char>,
    pub section: Option<Seq<char>>,
    pub items: Seq<ApiItemModel>,
}

impl ApiDefinition {
    pub open spec fn model(&self) -> ApiDefinitionModel {
        ApiDefinitionModel {
            attrs: attrs_model(self.attrs@),
            ident: self.ident@,
            base: self.base@,
            section: opt_text(self.section),
            items: self.items@.map_values(|i: ApiItem| i.model()),
        }
    }
}

/// The generated type: the attributes that pass through, its documentation,
/// and its members.
#[derive(Clone, Debug, PartialEq)]
pub struct ApiExpansion {
    pub attrs: Vec<Attr>,
    pub doc: String,
    pub items: Vec<ItemExpansion>,
}

pub struct ApiExpansionModel {
    pub attrs: Seq<AttrModel>,
    pub doc: Seq<char>,
    pub items: Seq<ItemExpansionModel>,
}

impl ApiExpansion {
    pub open spec fn model(&self) -> ApiExpansionModel {
        ApiExpansionModel {
            attrs: attrs_model(self.attrs@),
            doc: self.doc@,
            items: self.items@.map_values(|i: ItemExpansion| i.model()),
        }
    }
}

/// The prefix of every item's section: with `#[prefixed]`, the lowercase
/// name of the definition followed by a dot; else nothing.
pub open spec fn definition_prefix(attrs: Seq<AttrModel>, ident: Seq<char>) -> Seq<char> {
    if has_named(attrs, "prefixed"@) {
        lowercase(ident + "."@)
    } else {
        Seq::empty()
    }
}

/// The link of the definition itself: the page, then `#section` if given.
pub open spec fn definition_link(base: Seq<char>, section: Option<Seq<char>>) -> Seq<char> {
    match section {
        Some(s) => base + "#"@ + s,
        None => base,
    }
}

/// The expansion of the items, in order, or the error of the first item
/// that has one.
pub open spec fn expand_items_model(
    base: Seq<char>,
    ident: Seq<char>,
    prefix: Seq<char>,
    items: Seq<ApiItemModel>,
) -> Result<Seq<ItemExpansionModel>, Seq<char>>
    decreases items.len(),
{
    if items.len() == 0 {
        Ok(Seq::empty())
    } else {
        match expand_items_model(base, ident, prefix, items.drop_last()) {
            Err(e) => Err(e),
            Ok(done) => match expand_item_model(base, ident, prefix, items.last()) {
                Err(e) => Err(e),
                Ok(x) => Ok(done.push(x)),
            },
        }
    }
}

/// An error in the expansion of the first `k` items is the error of the
/// expansion of all of them.
proof fn lemma_expand_items_error_prefix(
    base: Seq<char>,
    ident: Seq<char>,
    prefix: Seq<char>,
    items: Seq<ApiItemModel>,
    k: int,
)
    requires
        0 <= k <= items.len(),
        expand_items_model(base, ident, prefix, items.take(k)) is Err,
    ensures
        expand_items_model(base, ident, prefix, items) == expand_items_model(
            base,
            ident,
            prefix,
            items.take(k),
        ),
    decreases items.len(),
{
    if k == items.len() {
        assert(items.take(k) =~= items);
    } else {
        assert(items.drop_last().take(k) =~= items.take(k));
        lemma_expand_items_error_prefix(base, ident, prefix, items.drop_last(), k);
    }
}

/// How a definition is expanded, or the name of the first attribute that
/// lacks a value.
pub open spec fn api_model(def: ApiDefinitionModel) -> Result<ApiExpansionModel, Seq<char>> {
    let prefix = definition_prefix(def.attrs, def.ident);
    match expand_items_model(def.base, def.ident, prefix, def.items) {
        Err(e) => Err(e),
        Ok(items) => Ok(
            ApiExpansionModel {
                attrs: without_named(def.attrs, "prefixed"@),
                doc: neovim_doc(definition_link(def.base, def.section)),
                items,
            },
        ),
    }
}

pub open spec fn api_result_model(r: Result<ApiExpansion, ApiError>) -> Result<
    ApiExpansionModel,
    Seq<char>,
> {
    match r {
        Ok(x) => Ok(x.model()),
        Err(ApiError::MissingValue(n)) => Err(n@),
    }
}

/// A successful expansion has one member per item, in order, each looked up
/// under the item's name and of the item's kind.
pub proof fn lemma_expansion_keeps_items(
    base: Seq<char>,
    ident: Seq<char>,
    prefix: Seq<char>,
    items: Seq<ApiItemModel>,
)
    ensures
        expand_items_model(base, ident, prefix, items) matches Ok(xs) ==> {
            &&& xs.len() == items.len()
            &&& forall|i: int|
                0 <= i < items.len() ==> (#[trigger] xs[i]).key == items[i].ident && xs[i].kind
                    == items[i].kind
        },
    decreases items.len(),
{
    if items.len() > 0 {
        lemma_expansion_keeps_items(base, ident, prefix, items.drop_last());
    }
}

/// Item by item: the expansion of a list of items succeeds exactly when
/// each item's does, and then holds each item's expansion, in order.
proof fn lemma_items_each(
    base: Seq<char>,
    ident: Seq<char>,
    prefix: Seq<char>,
    items: Seq<ApiItemModel>,
)
    ensures
        expand_items_model(base, ident, prefix, items) is Ok <==> forall|i: int|
            0 <= i < items.len() ==> (#[trigger] expand_item_model(base, ident, prefix, items[i]))
                is Ok,
        expand_items_model(base, ident, prefix, items) matches Ok(xs) ==> {
            &&& xs.len() == items.len()
            &&& forall|i: int|
                0 <= i < items.len() ==> #[trigger] expand_item_model(base, ident, prefix, items[i])
                    == Ok::<ItemExpansionModel, Seq<char>>(xs[i])
        },
    decreases items.len(),
{
    if items.len() > 0 {
        let d = items.drop_last();
        lemma_items_each(base, ident, prefix, d);
        assert forall|i: int| 0 <= i < d.len() implies #[trigger] d[i] == items[i] by {}
        if expand_items_model(base, ident, prefix, items) is Ok {
            assert forall|i: int| 0 <= i < items.len() implies (#[trigger] expand_item_model(
                base,
                ident,
                prefix,
                items[i],
            )) is Ok by {
                if i < d.len() {
                    assert(d[i] == items[i]);
                    assert(expand_item_model(base, ident, prefix, d[i]) is Ok);
                }
            }
        } else {
            if expand_items_model(base, ident, prefix, d) is Err {
                let i = choose|i: int|
                    0 <= i < d.len() && !(#[trigger] expand_item_model(base, ident, prefix, d[i]) is Ok);
                assert(d[i] == items[i]);
            } else {
                assert(expand_item_model(base, ident, prefix, items[items.len() - 1]) is Err);
            }
        }
        if let Ok(xs) = expand_items_model(base, ident, prefix, items) {
            let ds = expand_items_model(base, ident, prefix, d)->Ok_0;
            assert forall|i: int| 0 <= i < items.len() implies #[trigger] expand_item_model(
                base,
                ident,
                prefix,
                items[i],
            ) == Ok::<ItemExpansionModel, Seq<char>>(xs[i]) by {
                if i < d.len() {
                    assert(d[i] == items[i]);
                    assert(expand_item_model(base, ident, prefix, d[i]) == Ok::<
                        ItemExpansionModel,
                        Seq<char>,
                    >(ds[i]));
                }
            }
        }
    }
}

/// A definition is expanded item by item, in order, with its page and its
/// name, and with the prefix `p`: the definition's name and a dot in
/// lowercase when one of its attributes is named exactly `prefixed`, else
/// nothing. The expansion succeeds exactly when every item's does, and then
/// holds one member per item, each the expansion of that item.
pub proof fn lemma_api_expands_each_item(def: ApiDefinitionModel, p: Seq<char>)
    requires
        p == (if exists|j: int|
            0 <= j < def.attrs.len() && (#[trigger] def.attrs[j]).name == "prefixed"@ {
            lowercase(def.ident + "."@)
        } else {
            Seq::empty()
        }),
    ensures
        api_model(def) is Ok <==> forall|i: int|
            0 <= i < def.items.len() ==> (#[trigger] expand_item_model(
                def.base,
                def.ident,
                p,
                def.items[i],
            )) is Ok,
        api_model(def) matches Ok(x) ==> {
            &&& x.items.len() == def.items.len()
            &&& forall|i: int|
                0 <= i < def.items.len() ==> #[trigger] expand_item_model(
                    def.base,
                    def.ident,
                    p,
                    def.items[i],
                ) == Ok::<ItemExpansionModel, Seq<char>>(x.items[i])
        },
{
    assert(p == definition_prefix(def.attrs, def.ident)) by {
        if has_named(def.attrs, "prefixed"@) {
            let j = choose|j: int| 0 <= j < def.attrs.len() && #[trigger] def.attrs[j].name == "prefixed"@;
            assert(def.attrs[j].name == "prefixed"@);
        }
    }
    lemma_items_each(def.base, def.ident, p, def.items);
}

/// The attributes not named exactly `name` are those kept by a filter.
proof fn lemma_without_named_filter(attrs: Seq<AttrModel>, name: Seq<char>)
    ensures
        without_named(attrs, name) == attrs.filter(|a: AttrModel| a.name != name),
    decreases attrs.len(),
{
    reveal(Seq::filter);
    if attrs.len() > 0 {
        lemma_without_named_filter(attrs.drop_last(), name);
    }
}

/// The generated type is documented by the link to the definition's page,
/// followed by `#section` when the definition names a section, and keeps
/// every attribute of the definition but those named exactly `prefixed`,
/// in order.
pub proof fn lemma_definition_doc(def: ApiDefinitionModel)
    ensures
        api_model(def) matches Ok(x) ==> {
            &&& x.doc == "[Neovim doc]("@ + def.base + (match def.section {
                Some(s) => "#"@ + s,
                None => Seq::empty(),
            }) + ")"@
            &&& x.attrs == def.attrs.filter(|a: AttrModel| a.name != "prefixed"@)
        },
{
    lemma_without_named_filter(def.attrs, "prefixed"@);
    match def.section {
        Some(s) => {
            assert(neovim_doc(def.base + "#"@ + s) =~= "[Neovim doc]("@ + def.base + ("#"@ + s)
                + ")"@);
        },
        None => {
            assert(neovim_doc(def.base) =~= "[Neovim doc]("@ + def.base + Seq::<char>::empty()
                + ")"@);
        },
    }
}

/// Expands an API definition into the documented members of its Lua table.
pub fn api(def: &ApiDefinition) -> (r: Result<ApiExpansion, ApiError>)
    ensures
        api_result_model(r) == api_model(def.model()),
{
    let ghost attrs = attrs_model(def.attrs@);
    let mut kept: Vec<Attr> = Vec::new();
    let mut prefixed = false;
    let n = def.attrs.len();
    for i in 0..n
        invariant
            n == def.attrs@.len(),
            attrs == attrs_model(def.attrs@),
            attrs_model(kept@) == without_named(attrs.take(i as int), "prefixed"@),
            prefixed == has_named(attrs.take(i as int), "prefixed"@),
    {
        let a = &def.attrs[i];
        assert(attrs.take(i + 1).drop_last() =~= attrs.take(i as int));
        assert(attrs.take(i + 1).last() == a.model());
        let is_prefixed = same_text(a.name.as_str(), "prefixed");
        if is_prefixed {
            prefixed = true;
            assert(attrs.take(i + 1)[i as int].name == "prefixed"@);
        } else {
            let ghost before = kept@;
            kept.push(a.duplicate());
            assert(attrs_model(kept@) =~= attrs_model(before).push(a.model()));
        }
        assert(has_named(attrs.take(i + 1), "prefixed"@) == (prefixed)) by {
            if has_named(attrs.take(i + 1), "prefixed"@) && !is_prefixed {
                let j = choose|j: int|
                    0 <= j < i + 1 && #[trigger] attrs.take(i + 1)[j].name == "prefixed"@;
                assert(attrs.take(i as int)[j].name == "prefixed"@);
            }
            if has_named(attrs.take(i as int), "prefixed"@) {
                let j = choose|j: int|
                    0 <= j < i && #[trigger] attrs.take(i as int)[j].name == "prefixed"@;
                assert(attrs.take(i + 1)[j].name == "prefixed"@);
            }
        }
    }
    assert(attrs.take(n as int) =~= attrs);
    let prefix = if prefixed {
        let named = join_text(def.ident.as_str(), ".");
        to_lowercase(named.as_str())
    } else {
        String::new()
    };
    let link = match &def.section {
        Some(s) => {
            let with_hash = join_text(def.base.as_str(), "#");
            join_text(with_hash.as_str(), s.as_str())
        },
        None => def.base.clone(),
    };
    let opened = join_text("[Neovim doc](", link.as_str());
    let doc = join_text(opened.as_str(), ")");
    let ghost items = def.items@.map_values(|i: ApiItem| i.model());
    let mut out: Vec<ItemExpansion> = Vec::new();
    assert(out@.map_values(|x: ItemExpansion| x.model()) =~= Seq::empty());
    assert(items.take(0) =~= Seq::empty());
    let m = def.items.len();
    assert(prefix@ == definition_prefix(attrs, def.ident@));
    for i in 0..m
        invariant
            m == def.items@.len(),
            prefix@ == definition_prefix(attrs_model(def.attrs@), def.ident@),
            items == def.items@.map_values(|i: ApiItem| i.model()),
            expand_items_model(def.base@, def.ident@, prefix@, items.take(i as int)) == Ok::<
                Seq<ItemExpansionModel>,
                Seq<char>,
            >(out@.map_values(|x: ItemExpansion| x.model())),
    {
        assert(items.take(i + 1).drop_last() =~= items.take(i as int));
        assert(items.take(i + 1).last() == def.items@[i as int].model());
        let x = expand_item(def.base.as_str(), def.ident.as_str(), prefix.as_str(), &def.items[i]);
        match x {
            Err(e) => {
                proof {
                    let ghost name = match e {
                        ApiError::MissingValue(ref nm) => nm@,
                    };
                    assert(expand_items_model(def.base@, def.ident@, prefix@, items.take(i + 1))
                        == Err::<Seq<ItemExpansionModel>, Seq<char>>(name));
                    lemma_expand_items_error_prefix(def.base@, def.ident@, prefix@, items, i + 1);
                }
                return Err(e);
            },
            Ok(x) => {
                let ghost before = out@;
                out.push(x);
                assert(out@.map_values(|x: ItemExpansion| x.model()) =~= before.map_values(
                    |x: ItemExpansion| x.model(),
                ).push(x.model()));
            },
        }
    }
    assert(items.take(m as int) =~= items);
    Ok(ApiExpansion { attrs: kept, doc, items: out })
}

} // verus!
