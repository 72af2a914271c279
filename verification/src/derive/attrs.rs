//! Attributes: the `repr` check and the `#[typesize(..)]` field configuration.
use vstd::prelude::*;

use super::text::{push_text, text_eq};

verus! {

/// The delimiter of a token group.
#[derive(Clone, Copy, PartialEq, Eq, Structural, Debug)]
pub enum Delimiter {
    Parenthesis,
    Brace,
    Bracket,
    Invisible,
}

/// One token of an attribute's argument list. Groups are flattened: a group is its opening
/// delimiter, its tokens and its closing delimiter.
#[derive(Clone, Debug)]
pub enum AttrToken {
    Ident(String),
    /// A punctuation character, and whether it is joined to the next one (as the two `:` of `::`).
    Punct(char, bool),
    Literal(String),
    Open(Delimiter),
    Close(Delimiter),
}

/// The view of an [`AttrToken`]: its text as characters.
pub enum TokenView {
    Ident(Seq<char>),
    Punct(char, bool),
    Literal(Seq<char>),
    Open(Delimiter),
    Close(Delimiter),
}

impl View for AttrToken {
    type V = TokenView;

    open spec fn view(&self) -> TokenView {
        match self {
            AttrToken::Ident(s) => TokenView::Ident(s@),
            AttrToken::Punct(c, joint) => TokenView::Punct(*c, *joint),
            AttrToken::Literal(s) => TokenView::Literal(s@),
            AttrToken::Open(d) => TokenView::Open(*d),
            AttrToken::Close(d) => TokenView::Close(*d),
        }
    }
}

/// The shape of an attribute after its path.
#[derive(Clone, Debug)]
pub enum AttrMeta {
    /// `#[path]`
    Path,
    /// `#[path(tokens)]`, with any delimiter.
    List(Vec<AttrToken>),
    /// `#[path = value]`
    NameValue,
}

/// An attribute: its path, when that path is a single identifier, and its shape.
#[derive(Clone, Debug)]
pub struct AttributeModel {
    pub ident: Option<String>,
    pub meta: AttrMeta,
}

/// The view of an [`AttributeModel`].
pub struct AttributeView {
    pub ident: Option<Seq<char>>,
    pub list: Option<Seq<TokenView>>,
}

/// The views of a sequence of tokens.
pub open spec fn token_views(ts: Seq<AttrToken>) -> Seq<TokenView> {
    ts.map_values(|t: AttrToken| t@)
}

impl View for AttributeModel {
    type V = AttributeView;

    open spec fn view(&self) -> AttributeView {
        AttributeView {
            ident: match self.ident {
                Some(s) => Some(s@),
                None => None,
            },
            list: match self.meta {
                AttrMeta::List(ts) => Some(token_views(ts@)),
                _ => None,
            },
        }
    }
}

/// The views of a sequence of attributes.
pub open spec fn attribute_views(attrs: Seq<AttributeModel>) -> Seq<AttributeView> {
    attrs.map_values(|a: AttributeModel| a@)
}

/// How a field is sized by the derive.
#[derive(Clone, Debug)]
pub enum FieldConfig {
    /// By its own `TypeSize::extra_size`.
    Default,
    /// `#[typesize(skip)]`: assumed to hold no allocation.
    Skip,
    /// `#[typesize(with = path)]`: by the function at `path`, given as source text.
    With(String),
}

/// The view of a [`FieldConfig`].
pub enum ConfigView {
    Default,
    Skip,
    With(Seq<char>),
}

impl View for FieldConfig {
    type V = ConfigView;

    open spec fn view(&self) -> ConfigView {
        match self {
            FieldConfig::Default => ConfigView::Default,
            FieldConfig::Skip => ConfigView::Skip,
            FieldConfig::With(p) => ConfigView::With(p@),
        }
    }
}

/// Why a `#[typesize(..)]` attribute, or the item being derived for, is refused.
#[derive(Clone, Copy, PartialEq, Eq, Structural, Debug)]
pub enum DeriveError {
    /// The attribute's arguments start with neither `skip` nor `with`.
    ExpectedSkipOrWith,
    /// `with` is not followed by `=`.
    ExpectedEq,
    /// `with =` is not followed by a path.
    ExpectedIdent,
    /// Tokens are left after a complete configuration.
    UnexpectedToken,
    /// The item is a union.
    UnionUnsupported,
}

/// The message of the compile error that reports the refusal `e`.
pub open spec fn error_message(e: DeriveError) -> Seq<char> {
    match e {
        DeriveError::ExpectedSkipOrWith => "expected `skip` or `with`"@,
        DeriveError::ExpectedEq => "expected `=`"@,
        DeriveError::ExpectedIdent => "expected identifier"@,
        DeriveError::UnexpectedToken => "unexpected token"@,
        DeriveError::UnionUnsupported => "Unions are unsupported for typesize derive."@,
    }
}

impl DeriveError {
    /// The message of the compile error that reports this refusal.
    pub fn message(&self) -> (r: &'static str)
        ensures
            r@ == error_message(*self),
    {
        match self {
            DeriveError::ExpectedSkipOrWith => "expected `skip` or `with`",
            DeriveError::ExpectedEq => "expected `=`",
            DeriveError::ExpectedIdent => "expected identifier",
            DeriveError::UnexpectedToken => "unexpected token",
            DeriveError::UnionUnsupported => "Unions are unsupported for typesize derive.",
        }
    }
}

/// `ts[i]` is the identifier `name`.
pub open spec fn is_ident_at(ts: Seq<TokenView>, i: int, name: Seq<char>) -> bool {
    0 <= i < ts.len() && ts[i] == TokenView::Ident(name)
}

/// `ts[i]` is an identifier.
pub open spec fn is_any_ident_at(ts: Seq<TokenView>, i: int) -> bool {
    0 <= i < ts.len() && ts[i] is Ident
}

/// `ts[i]` is the punctuation character `c`, joined or not.
pub open spec fn is_punct_at(ts: Seq<TokenView>, i: int, c: char) -> bool {
    0 <= i < ts.len() && (ts[i] matches TokenView::Punct(p, _) && p == c)
}

/// `ts[i]` and `ts[i + 1]` form `::`.
pub open spec fn is_colon2_at(ts: Seq<TokenView>, i: int) -> bool {
    0 <= i && i + 1 < ts.len() && ts[i] == TokenView::Punct(':', true) && is_punct_at(ts, i + 1, ':')
}

/// `ts[i]` is an identifier that is not a keyword (or `_`).
pub open spec fn is_word_at(ts: Seq<TokenView>, i: int) -> bool {
    is_any_ident_at(ts, i) && !reserved_word(ts[i]->Ident_0)
}

/// Whether a `repr` attribute whose arguments are `ts` asks for a packed layout, or `None` when
/// the arguments are not one identifier or two identifiers separated by a comma (a keyword or `_`
/// is no identifier there).
pub open spec fn repr_packed(ts: Seq<TokenView>) -> Option<bool> {
    if !is_word_at(ts, 0) {
        None
    } else if !is_punct_at(ts, 1, ',') {
        if ts.len() == 1 {
            Some(is_ident_at(ts, 0, "packed"@))
        } else {
            None
        }
    } else if !is_word_at(ts, 2) || ts.len() != 3 {
        None
    } else {
        let valid_first = is_ident_at(ts, 0, "C"@) || is_ident_at(ts, 0, "Rust"@);
        let valid_second = is_ident_at(ts, 2, "C"@) || is_ident_at(ts, 2, "Rust"@);
        Some(
            (valid_first && is_ident_at(ts, 2, "packed"@)) || (is_ident_at(ts, 0, "packed"@)
                && valid_second),
        )
    }
}

/// Whether the attributes ask for a packed layout: the first `repr` list attribute that does so
/// decides; `None` when a `repr` list attribute before it does not parse.
pub open spec fn attrs_packed(attrs: Seq<AttributeView>) -> Option<bool>
    decreases attrs.len(),
{
    if attrs.len() == 0 {
        Some(false)
    } else {
        let a = attrs[0];
        let rest = attrs_packed(attrs.drop_first());
        if a.ident == Some("repr"@) && a.list is Some {
            match repr_packed(a.list->0) {
                Some(true) => Some(true),
                Some(false) => rest,
                None => None,
            }
        } else {
            rest
        }
    }
}

/// `ts[i]` is the punctuation character `c`, joined to the next one.
pub open spec fn is_joint_punct_at(ts: Seq<TokenView>, i: int, c: char) -> bool {
    0 <= i < ts.len() && ts[i] == TokenView::Punct(c, true)
}

/// The words that stand as a path segment of their own, without generic arguments.
pub open spec fn plain_segment_word(s: Seq<char>) -> bool {
    s == "super"@ || s == "self"@ || s == "crate"@ || s == "try"@
}

/// The keywords (and `_`) that are not identifiers.
pub open spec fn reserved_word(s: Seq<char>) -> bool {
    s == "_"@ || s == "abstract"@ || s == "as"@ || s == "async"@ || s == "await"@ || s
        == "become"@ || s == "box"@ || s == "break"@ || s == "const"@ || s == "continue"@ || s
        == "crate"@ || s == "do"@ || s == "dyn"@ || s == "else"@ || s == "enum"@ || s
        == "extern"@ || s == "false"@ || s == "final"@ || s == "fn"@ || s == "for"@ || s
        == "if"@ || s == "impl"@ || s == "in"@ || s == "let"@ || s == "loop"@ || s == "macro"@
        || s == "match"@ || s == "mod"@ || s == "move"@ || s == "mut"@ || s == "override"@ || s
        == "priv"@ || s == "pub"@ || s == "ref"@ || s == "return"@ || s == "Self"@ || s
        == "self"@ || s == "static"@ || s == "struct"@ || s == "super"@ || s == "trait"@ || s
        == "true"@ || s == "try"@ || s == "type"@ || s == "typeof"@ || s == "unsafe"@ || s
        == "unsized"@ || s == "use"@ || s == "virtual"@ || s == "where"@ || s == "while"@ || s
        == "yield"@
}

/// The `>` at `p` ends `->` or `=>` rather than closing an angle bracket.
pub open spec fn arrow_tail_at(ts: Seq<TokenView>, p: int) -> bool {
    is_joint_punct_at(ts, p - 1, '-') || is_joint_punct_at(ts, p - 1, '=')
}

/// Where the angle-bracketed arguments scanned from `p` end, `depth` angle brackets and
/// `groups` delimited groups being open: just after the `>` that closes the outermost angle
/// bracket outside any group; `None` when the tokens run out or a group closes unopened.
pub open spec fn angle_close(ts: Seq<TokenView>, p: int, depth: nat, groups: nat) -> Option<int>
    decreases ts.len() - p,
{
    if p < 0 || p >= ts.len() {
        None
    } else if ts[p] is Open {
        angle_close(ts, p + 1, depth, groups + 1)
    } else if ts[p] is Close {
        if groups == 0 {
            None
        } else {
            angle_close(ts, p + 1, depth, (groups - 1) as nat)
        }
    } else if groups == 0 && is_punct_at(ts, p, '<') {
        angle_close(ts, p + 1, depth + 1, groups)
    } else if groups == 0 && is_punct_at(ts, p, '>') && !arrow_tail_at(ts, p) {
        if depth <= 1 {
            Some(p + 1)
        } else {
            angle_close(ts, p + 1, (depth - 1) as nat, groups)
        }
    } else {
        angle_close(ts, p + 1, depth, groups)
    }
}

/// A `<` at `q` opens generic arguments: it does not start `<=` or `<<=`.
pub open spec fn angle_opens_at(ts: Seq<TokenView>, q: int) -> bool {
    is_punct_at(ts, q, '<') && !(is_joint_punct_at(ts, q, '<') && (is_punct_at(ts, q + 1, '=')
        || (is_joint_punct_at(ts, q + 1, '<') && is_punct_at(ts, q + 2, '='))))
}

/// The end of a path segment that starts at `p`: `super`, `self`, `crate` or `try` alone, or an
/// identifier that is not a keyword (or `Self`), followed by generic arguments in angle
/// brackets, written with or without a leading `::`; `None` when there is no such segment.
pub open spec fn segment_end(ts: Seq<TokenView>, p: int) -> Option<int> {
    if !is_any_ident_at(ts, p) {
        None
    } else {
        let s = ts[p]->Ident_0;
        if plain_segment_word(s) {
            Some(p + 1)
        } else if s != "Self"@ && reserved_word(s) {
            None
        } else if angle_opens_at(ts, p + 1) {
            angle_close(ts, p + 1, 0, 0)
        } else if is_colon2_at(ts, p + 1) && is_punct_at(ts, p + 3, '<') {
            angle_close(ts, p + 3, 0, 0)
        } else {
            Some(p + 1)
        }
    }
}

/// The end of the `::`-separated segments that follow a segment ending at `p`; a `::` followed
/// by a parenthesised group is not part of the path.
pub open spec fn path_tail_end(ts: Seq<TokenView>, p: int) -> Option<int>
    decreases ts.len() - p,
{
    if p < 0 || p > ts.len() {
        None
    } else if is_colon2_at(ts, p) && !(p + 2 < ts.len() && ts[p + 2] == TokenView::Open(
        Delimiter::Parenthesis,
    )) {
        match segment_end(ts, p + 2) {
            None => None,
            Some(q) => if p < q <= ts.len() {
                path_tail_end(ts, q)
            } else {
                None
            },
        }
    } else {
        Some(p)
    }
}

/// The end of a path that starts at `p`: an optional leading `::`, then segments separated by
/// `::`; `None` when a segment is missing or malformed.
pub open spec fn path_end(ts: Seq<TokenView>, p: int) -> Option<int> {
    let q = if is_colon2_at(ts, p) {
        p + 2
    } else {
        p
    };
    match segment_end(ts, q) {
        None => None,
        Some(e) => path_tail_end(ts, e),
    }
}

/// The punctuation characters that a token can hold.
pub open spec fn is_punct_char(c: char) -> bool {
    c == '=' || c == '<' || c == '>' || c == '!' || c == '~' || c == '+' || c == '-' || c == '*'
        || c == '/' || c == '%' || c == '^' || c == '&' || c == '|' || c == '@' || c == '.' || c
        == ',' || c == ';' || c == ':' || c == '#' || c == '$' || c == '?' || c == '\''
}

/// The source text of a token of a path.
pub open spec fn path_token_text(t: TokenView) -> Seq<char> {
    match t {
        TokenView::Ident(s) => s,
        TokenView::Literal(s) => s,
        TokenView::Punct(c, _) => if is_punct_char(c) {
            seq![c]
        } else {
            Seq::empty()
        },
        TokenView::Open(d) => match d {
            Delimiter::Parenthesis => "("@,
            Delimiter::Brace => "{"@,
            Delimiter::Bracket => "["@,
            Delimiter::Invisible => Seq::empty(),
        },
        TokenView::Close(d) => match d {
            Delimiter::Parenthesis => ")"@,
            Delimiter::Brace => "}"@,
            Delimiter::Bracket => "]"@,
            Delimiter::Invisible => Seq::empty(),
        },
    }
}

/// An identifier or a literal, which needs a space before another one.
pub open spec fn is_word(t: TokenView) -> bool {
    t is Ident || t is Literal
}

/// The source text of the tokens `ts[start..end]`, with a space between two neighbouring
/// identifiers or literals.
pub open spec fn path_text(ts: Seq<TokenView>, start: int, end: int) -> Seq<char>
    decreases end - start,
{
    if end <= start {
        Seq::empty()
    } else {
        let sep = if end - 1 > start && is_word(ts[end - 2]) && is_word(ts[end - 1]) {
            " "@
        } else {
            Seq::empty()
        };
        path_text(ts, start, end - 1) + sep + path_token_text(ts[end - 1])
    }
}

/// The configuration that the arguments `ts` of a `#[typesize(..)]` attribute give: `skip`, or
/// `with = path`, and nothing after it.
pub open spec fn parse_config(ts: Seq<TokenView>) -> Result<ConfigView, DeriveError> {
    if is_ident_at(ts, 0, "skip"@) {
        if ts.len() == 1 {
            Ok(ConfigView::Skip)
        } else {
            Err(DeriveError::UnexpectedToken)
        }
    } else if is_ident_at(ts, 0, "with"@) {
        if !is_punct_at(ts, 1, '=') {
            Err(DeriveError::ExpectedEq)
        } else {
            match path_end(ts, 2) {
                None => Err(DeriveError::ExpectedIdent),
                Some(end) => if end == ts.len() {
                    Ok(ConfigView::With(path_text(ts, 2, end)))
                } else {
                    Err(DeriveError::UnexpectedToken)
                },
            }
        }
    } else {
        Err(DeriveError::ExpectedSkipOrWith)
    }
}

/// The configuration that a field's attributes give: the first `#[typesize(..)]` list
/// attribute decides; without one, the default.
pub open spec fn field_config(attrs: Seq<AttributeView>) -> Result<ConfigView, DeriveError>
    decreases attrs.len(),
{
    if attrs.len() == 0 {
        Ok(ConfigView::Default)
    } else {
        let a = attrs[0];
        if a.ident == Some("typesize"@) && a.list is Some {
            parse_config(a.list->0)
        } else {
            field_config(attrs.drop_first())
        }
    }
}

/// Whether `t` is the identifier `name`.
fn token_is_ident(t: &AttrToken, name: &str) -> (r: bool)
    ensures
        r == (t@ == TokenView::Ident(name@)),
{
    match t {
        AttrToken::Ident(s) => text_eq(s.as_str(), name),
        _ => false,
    }
}

/// Whether `t` is the punctuation character `c`.
fn token_is_punct(t: &AttrToken, c: char) -> (r: bool)
    ensures
        r == (t@ matches TokenView::Punct(p, _) && p == c),
{
    match t {
        AttrToken::Punct(p, _) => *p == c,
        _ => false,
    }
}

/// Whether `ts[i]` and `ts[i + 1]` form `::`.
fn colon2_at(ts: &[AttrToken], i: usize) -> (r: bool)
    ensures
        r == is_colon2_at(token_views(ts@), i as int),
{
    if i < ts.len() && i + 1 < ts.len() {
        match &ts[i] {
            AttrToken::Punct(':', true) => token_is_punct(&ts[i + 1], ':'),
            _ => false,
        }
    } else {
        false
    }
}

/// Whether the arguments `ts` of a `repr` attribute ask for a packed layout; `None` when they do
/// not parse as one identifier or two identifiers separated by a comma.
pub fn repr_args_packed(ts: &[AttrToken]) -> (r: Option<bool>)
    ensures
        r == repr_packed(token_views(ts@)),
{
    let ghost v = token_views(ts@);
    let is_valid_repr_for_packed = |t: &AttrToken| -> (r: bool)
        ensures
            r == (t@ == TokenView::Ident("C"@) || t@ == TokenView::Ident("Rust"@)),
        { token_is_ident(t, "C") || token_is_ident(t, "Rust") };
    if ts.len() == 0 {
        return None;
    }
    let first_is_ident = match &ts[0] {
        AttrToken::Ident(name) => !reserved(name.as_str()),
        _ => false,
    };
    if !first_is_ident {
        return None;
    }
    if ts.len() < 2 || !token_is_punct(&ts[1], ',') {
        if ts.len() == 1 {
            return Some(token_is_ident(&ts[0], "packed"));
        } else {
            return None;
        }
    }
    if ts.len() != 3 {
        return None;
    }
    let second_is_ident = match &ts[2] {
        AttrToken::Ident(name) => !reserved(name.as_str()),
        _ => false,
    };
    if !second_is_ident {
        return None;
    }
    if is_valid_repr_for_packed(&ts[0]) && token_is_ident(&ts[2], "packed") {
        return Some(true);
    }
    if token_is_ident(&ts[0], "packed") && is_valid_repr_for_packed(&ts[2]) {
        return Some(true);
    }
    Some(false)
}

/// Whether an attribute is a list attribute whose path is the identifier `name`; its arguments
/// when it is.
fn list_args<'a>(attr: &'a AttributeModel, name: &str) -> (r: Option<&'a Vec<AttrToken>>)
    ensures
        match r {
            Some(ts) => attr@.ident == Some(name@) && attr@.list == Some(token_views(ts@)),
            None => !(attr@.ident == Some(name@) && attr@.list is Some),
        },
{
    match &attr.ident {
        Some(ident) => {
            if !text_eq(ident.as_str(), name) {
                return None;
            }
        },
        None => {
            return None;
        },
    }
    match &attr.meta {
        AttrMeta::List(ts) => Some(ts),
        _ => None,
    }
}

/// Whether the attributes ask for a packed layout (`repr(packed)`, `repr(C, packed)`,
/// `repr(packed, Rust)` and the like); `None` when a `repr` attribute that is looked at does not
/// parse.
pub fn check_repr_packed(attrs: &[AttributeModel]) -> (r: Option<bool>)
    ensures
        r == attrs_packed(attribute_views(attrs@)),
{
    let ghost v = attribute_views(attrs@);
    assert(v.skip(0) =~= v);
    let mut i: usize = 0;
    while i < attrs.len()
        invariant
            i <= attrs@.len(),
            v == attribute_views(attrs@),
            attrs_packed(v) == attrs_packed(v.skip(i as int)),
        decreases attrs@.len() - i,
    {
        proof {
            assert(v.skip(i as int).drop_first() =~= v.skip(i + 1));
            assert(v.skip(i as int)[0] == attrs@[i as int]@);
        }
        match list_args(&attrs[i], "repr") {
            Some(ts) => match repr_args_packed(ts.as_slice()) {
                Some(true) => {
                    return Some(true);
                },
                Some(false) => {},
                None => {
                    return None;
                },
            },
            None => {},
        }
        i = i + 1;
    }
    assert(v.skip(i as int) =~= Seq::<AttributeView>::empty());
    Some(false)
}

/// The view of a configuration result.
pub open spec fn config_result_view(r: Result<FieldConfig, DeriveError>) -> Result<
    ConfigView,
    DeriveError,
> {
    match r {
        Ok(c) => Ok(c@),
        Err(e) => Err(e),
    }
}

/// `angle_close` ends after where it starts and within the tokens.
proof fn lemma_angle_close_bounds(ts: Seq<TokenView>, p: int, depth: nat, groups: nat)
    ensures
        angle_close(ts, p, depth, groups) matches Some(e) ==> p < e <= ts.len(),
    decreases ts.len() - p,
{
    if 0 <= p < ts.len() {
        lemma_angle_close_bounds(ts, p + 1, depth + 1, groups);
        lemma_angle_close_bounds(ts, p + 1, depth, groups + 1);
        lemma_angle_close_bounds(ts, p + 1, depth, groups);
        if groups > 0 {
            lemma_angle_close_bounds(ts, p + 1, depth, (groups - 1) as nat);
        }
        if depth > 1 {
            lemma_angle_close_bounds(ts, p + 1, (depth - 1) as nat, groups);
        }
    }
}

/// A segment ends after where it starts and within the tokens.
proof fn lemma_segment_end_bounds(ts: Seq<TokenView>, p: int)
    ensures
        segment_end(ts, p) matches Some(e) ==> p < e <= ts.len(),
{
    lemma_angle_close_bounds(ts, p + 1, 0, 0);
    lemma_angle_close_bounds(ts, p + 3, 0, 0);
}

/// The tail of a path ends no earlier than where it starts, and within the tokens.
proof fn lemma_path_tail_bounds(ts: Seq<TokenView>, p: int)
    ensures
        path_tail_end(ts, p) matches Some(e) ==> p <= e <= ts.len(),
    decreases ts.len() - p,
{
    if 0 <= p <= ts.len() {
        if let Some(q) = segment_end(ts, p + 2) {
            if p < q <= ts.len() {
                lemma_path_tail_bounds(ts, q);
            }
        }
    }
}

/// Whether `s` is a keyword or `_`.
fn reserved(s: &str) -> (r: bool)
    ensures
        r == reserved_word(s@),
{
    text_eq(s, "_") || text_eq(s, "abstract") || text_eq(s, "as") || text_eq(s, "async")
        || text_eq(s, "await") || text_eq(s, "become") || text_eq(s, "box") || text_eq(s, "break")
        || text_eq(s, "const") || text_eq(s, "continue") || text_eq(s, "crate") || text_eq(s, "do")
        || text_eq(s, "dyn") || text_eq(s, "else") || text_eq(s, "enum") || text_eq(s, "extern")
        || text_eq(s, "false") || text_eq(s, "final") || text_eq(s, "fn") || text_eq(s, "for")
        || text_eq(s, "if") || text_eq(s, "impl") || text_eq(s, "in") || text_eq(s, "let")
        || text_eq(s, "loop") || text_eq(s, "macro") || text_eq(s, "match") || text_eq(s, "mod")
        || text_eq(s, "move") || text_eq(s, "mut") || text_eq(s, "override") || text_eq(s, "priv")
        || text_eq(s, "pub") || text_eq(s, "ref") || text_eq(s, "return") || text_eq(s, "Self")
        || text_eq(s, "self") || text_eq(s, "static") || text_eq(s, "struct") || text_eq(s, "super")
        || text_eq(s, "trait") || text_eq(s, "true") || text_eq(s, "try") || text_eq(s, "type")
        || text_eq(s, "typeof") || text_eq(s, "unsafe") || text_eq(s, "unsized") || text_eq(s, "use")
        || text_eq(s, "virtual") || text_eq(s, "where") || text_eq(s, "while") || text_eq(s, "yield")
}

/// Whether `s` is `super`, `self`, `crate` or `try`.
fn plain_word(s: &str) -> (r: bool)
    ensures
        r == plain_segment_word(s@),
{
    text_eq(s, "super") || text_eq(s, "self") || text_eq(s, "crate") || text_eq(s, "try")
}

/// Whether `ts[i]` is the punctuation character `c`.
fn punct_at(ts: &[AttrToken], i: usize, c: char) -> (r: bool)
    ensures
        r == is_punct_at(token_views(ts@), i as int, c),
{
    i < ts.len() && token_is_punct(&ts[i], c)
}

/// Whether `ts[i]` is the punctuation character `c`, joined to the next one.
fn joint_punct_at(ts: &[AttrToken], i: usize, c: char) -> (r: bool)
    ensures
        r == is_joint_punct_at(token_views(ts@), i as int, c),
{
    if i < ts.len() {
        match &ts[i] {
            AttrToken::Punct(p, true) => *p == c,
            _ => false,
        }
    } else {
        false
    }
}

/// Whether a `<` at `q` opens generic arguments.
fn angle_opens(ts: &[AttrToken], q: usize) -> (r: bool)
    requires
        q <= ts@.len(),
    ensures
        r == angle_opens_at(token_views(ts@), q as int),
{
    let ghost v = token_views(ts@);
    let n = ts.len();
    assert(v.len() == ts@.len());
    if !punct_at(ts, q, '<') || !joint_punct_at(ts, q, '<') {
        return punct_at(ts, q, '<');
    }
    assert(q < ts@.len());
    if punct_at(ts, q + 1, '=') {
        return false;
    }
    if !joint_punct_at(ts, q + 1, '<') {
        return true;
    }
    assert(q + 1 < ts@.len());
    !punct_at(ts, q + 2, '=')
}

/// Where the angle-bracketed arguments that start at `p` end.
fn angle_close_at(ts: &[AttrToken], p: usize) -> (r: Option<usize>)
    ensures
        match r {
            Some(e) => angle_close(token_views(ts@), p as int, 0, 0) == Some(e as int),
            None => angle_close(token_views(ts@), p as int, 0, 0) is None,
        },
{
    let ghost v = token_views(ts@);
    if p >= ts.len() {
        return None;
    }
    let mut i = p;
    let mut depth: usize = 0;
    let mut groups: usize = 0;
    while i < ts.len()
        invariant
            v == token_views(ts@),
            v.len() == ts@.len(),
            p <= i <= ts@.len(),
            depth <= i,
            groups <= i,
            angle_close(v, p as int, 0, 0) == angle_close(v, i as int, depth as nat, groups as nat),
        decreases ts@.len() - i,
    {
        match &ts[i] {
            AttrToken::Open(_) => {
                groups = groups + 1;
            },
            AttrToken::Close(_) => {
                if groups == 0 {
                    return None;
                }
                groups = groups - 1;
            },
            AttrToken::Punct(c, _) => {
                if groups == 0 && *c == '<' {
                    depth = depth + 1;
                } else if groups == 0 && *c == '>' && !(i > 0 && (joint_punct_at(ts, i - 1, '-')
                    || joint_punct_at(ts, i - 1, '='))) {
                    if depth <= 1 {
                        return Some(i + 1);
                    }
                    depth = depth - 1;
                }
            },
            _ => {},
        }
        i = i + 1;
    }
    None
}

/// Where the path segment that starts at `p` ends.
fn segment_end_at(ts: &[AttrToken], p: usize) -> (r: Option<usize>)
    ensures
        match r {
            Some(e) => segment_end(token_views(ts@), p as int) == Some(e as int),
            None => segment_end(token_views(ts@), p as int) is None,
        },
{
    let ghost v = token_views(ts@);
    if p >= ts.len() {
        return None;
    }
    match &ts[p] {
        AttrToken::Ident(s) => {
            assert(v[p as int]->Ident_0 == s@);
            if plain_word(s.as_str()) {
                return Some(p + 1);
            }
            if !text_eq(s.as_str(), "Self") && reserved(s.as_str()) {
                return None;
            }
            if angle_opens(ts, p + 1) {
                return angle_close_at(ts, p + 1);
            }
            if colon2_at(ts, p + 1) && punct_at(ts, p + 3, '<') {
                return angle_close_at(ts, p + 3);
            }
            Some(p + 1)
        },
        _ => None,
    }
}

/// Whether `t` opens a parenthesised group.
fn opens_paren(t: &AttrToken) -> (r: bool)
    ensures
        r == (t@ == TokenView::Open(Delimiter::Parenthesis)),
{
    match t {
        AttrToken::Open(Delimiter::Parenthesis) => true,
        _ => false,
    }
}

/// Where the path that starts at `p` ends.
fn path_end_at(ts: &[AttrToken], p: usize) -> (r: Option<usize>)
    ensures
        match r {
            Some(e) => path_end(token_views(ts@), p as int) == Some(e as int),
            None => path_end(token_views(ts@), p as int) is None,
        },
{
    let ghost v = token_views(ts@);
    let n = ts.len();
    assert(v.len() == ts@.len());
    let q0 = if colon2_at(ts, p) {
        assert(is_colon2_at(v, p as int));
        p + 2
    } else {
        p
    };
    let mut q = match segment_end_at(ts, q0) {
        None => {
            return None;
        },
        Some(e) => e,
    };
    proof {
        lemma_segment_end_bounds(v, q0 as int);
    }
    while colon2_at(ts, q) && !(q + 2 < ts.len() && opens_paren(&ts[q + 2]))
        invariant
            v == token_views(ts@),
            v.len() == ts@.len(),
            n == ts@.len(),
            q <= ts@.len(),
            path_end(v, p as int) == path_tail_end(v, q as int),
        decreases ts@.len() - q,
    {
        match segment_end_at(ts, q + 2) {
            None => {
                return None;
            },
            Some(e) => {
                proof {
                    lemma_segment_end_bounds(v, q + 2);
                }
                q = e;
            },
        }
    }
    Some(q)
}

/// The text of the punctuation character `c`.
fn punct_text(c: char) -> (r: &'static str)
    ensures
        r@ == (if is_punct_char(c) {
            seq![c]
        } else {
            Seq::<char>::empty()
        }),
{
    if c == '=' { proof { reveal_strlit("="); } "=" }
    else if c == '<' { proof { reveal_strlit("<"); } "<" }
    else if c == '>' { proof { reveal_strlit(">"); } ">" }
    else if c == '!' { proof { reveal_strlit("!"); } "!" }
    else if c == '~' { proof { reveal_strlit("~"); } "~" }
    else if c == '+' { proof { reveal_strlit("+"); } "+" }
    else if c == '-' { proof { reveal_strlit("-"); } "-" }
    else if c == '*' { proof { reveal_strlit("*"); } "*" }
    else if c == '/' { proof { reveal_strlit("/"); } "/" }
    else if c == '%' { proof { reveal_strlit("%"); } "%" }
    else if c == '^' { proof { reveal_strlit("^"); } "^" }
    else if c == '&' { proof { reveal_strlit("&"); } "&" }
    else if c == '|' { proof { reveal_strlit("|"); } "|" }
    else if c == '@' { proof { reveal_strlit("@"); } "@" }
    else if c == '.' { proof { reveal_strlit("."); } "." }
    else if c == ',' { proof { reveal_strlit(","); } "," }
    else if c == ';' { proof { reveal_strlit(";"); } ";" }
    else if c == ':' { proof { reveal_strlit(":"); } ":" }
    else if c == '#' { proof { reveal_strlit("#"); } "#" }
    else if c == '$' { proof { reveal_strlit("$"); } "$" }
    else if c == '?' { proof { reveal_strlit("?"); } "?" }
    else if c == '\'' { proof { reveal_strlit("'"); } "'" }
    else { proof { reveal_strlit(""); } "" }
}

/// The source text of a token.
fn token_text(t: &AttrToken) -> (r: String)
    ensures
        r@ == path_token_text(t@),
{
    let mut out = String::new();
    match t {
        AttrToken::Ident(s) => push_text(&mut out, s.as_str()),
        AttrToken::Literal(s) => push_text(&mut out, s.as_str()),
        AttrToken::Punct(c, _) => push_text(&mut out, punct_text(*c)),
        AttrToken::Open(d) => match d {
            Delimiter::Parenthesis => push_text(&mut out, "("),
            Delimiter::Brace => push_text(&mut out, "{"),
            Delimiter::Bracket => push_text(&mut out, "["),
            Delimiter::Invisible => {},
        },
        AttrToken::Close(d) => match d {
            Delimiter::Parenthesis => push_text(&mut out, ")"),
            Delimiter::Brace => push_text(&mut out, "}"),
            Delimiter::Bracket => push_text(&mut out, "]"),
            Delimiter::Invisible => {},
        },
    }
    assert(out@ =~= path_token_text(t@));
    out
}

/// Whether `t` is an identifier or a literal.
fn token_is_word(t: &AttrToken) -> (r: bool)
    ensures
        r == is_word(t@),
{
    match t {
        AttrToken::Ident(_) => true,
        AttrToken::Literal(_) => true,
        _ => false,
    }
}

/// The source text of `ts[start..end]`.
fn tokens_text(ts: &[AttrToken], start: usize, end: usize) -> (r: String)
    requires
        start <= end <= ts@.len(),
    ensures
        r@ == path_text(token_views(ts@), start as int, end as int),
{
    let ghost v = token_views(ts@);
    let mut out = String::new();
    let mut i = start;
    while i < end
        invariant
            v == token_views(ts@),
            v.len() == ts@.len(),
            start <= i <= end <= ts@.len(),
            out@ == path_text(v, start as int, i as int),
        decreases end - i,
    {
        if i > start && token_is_word(&ts[i - 1]) && token_is_word(&ts[i]) {
            push_text(&mut out, " ");
            proof { reveal_strlit(" "); }
        }
        let t = token_text(&ts[i]);
        push_text(&mut out, t.as_str());
        assert(out@ =~= path_text(v, start as int, i + 1));
        i = i + 1;
    }
    out
}

/// Parses a path that starts at `p`, as a `syn::Path` is read: an optional leading `::`, then
/// segments separated by `::`, each an identifier that is not a keyword (or `super`, `self`,
/// `crate`, `try` alone, or `Self`) with optional generic arguments in angle brackets. Returns
/// where it ends and its source text.
pub fn parse_path(ts: &[AttrToken], p: usize) -> (r: Option<(usize, String)>)
    ensures
        match r {
            Some((end, text)) => path_end(token_views(ts@), p as int) == Some(end as int)
                && text@ == path_text(token_views(ts@), p as int, end as int),
            None => path_end(token_views(ts@), p as int) is None,
        },
{
    let ghost v = token_views(ts@);
    match path_end_at(ts, p) {
        None => None,
        Some(end) => {
            proof {
                let q = if is_colon2_at(v, p as int) {
                    p + 2
                } else {
                    p as int
                };
                lemma_segment_end_bounds(v, q);
                lemma_path_tail_bounds(v, segment_end(v, q)->Some_0);
            }
            Some((end, tokens_text(ts, p, end)))
        },
    }
}

/// Parses the arguments of a `#[typesize(..)]` attribute: `skip`, or `with = path`, with
/// nothing after it.
pub fn parse_field_config(ts: &[AttrToken]) -> (r: Result<FieldConfig, DeriveError>)
    ensures
        config_result_view(r) == parse_config(token_views(ts@)),
{
    let ghost v = token_views(ts@);
    if ts.len() > 0 && token_is_ident(&ts[0], "skip") {
        if ts.len() == 1 {
            return Ok(FieldConfig::Skip);
        } else {
            return Err(DeriveError::UnexpectedToken);
        }
    }
    if ts.len() > 0 && token_is_ident(&ts[0], "with") {
        if ts.len() < 2 || !token_is_punct(&ts[1], '=') {
            return Err(DeriveError::ExpectedEq);
        }
        match parse_path(ts, 2) {
            None => Err(DeriveError::ExpectedIdent),
            Some((end, text)) => {
                if end == ts.len() {
                    Ok(FieldConfig::With(text))
                } else {
                    Err(DeriveError::UnexpectedToken)
                }
            },
        }
    } else {
        Err(DeriveError::ExpectedSkipOrWith)
    }
}

/// The configuration that a field's attributes give: the first `#[typesize(..)]` attribute
/// decides; without one, the field is sized by its own `TypeSize`.
pub fn get_field_config(attrs: &[AttributeModel]) -> (r: Result<FieldConfig, DeriveError>)
    ensures
        config_result_view(r) == field_config(attribute_views(attrs@)),
{
    let ghost v = attribute_views(attrs@);
    assert(v.skip(0) =~= v);
    let mut i: usize = 0;
    while i < attrs.len()
        invariant
            i <= attrs@.len(),
            v == attribute_views(attrs@),
            field_config(v) == field_config(v.skip(i as int)),
        decreases attrs@.len() - i,
    {
        proof {
            assert(v.skip(i as int).drop_first() =~= v.skip(i + 1));
            assert(v.skip(i as int)[0] == attrs@[i as int]@);
        }
        match list_args(&attrs[i], "typesize") {
            Some(ts) => {
                return parse_field_config(ts.as_slice());
            },
            None => {},
        }
        i = i + 1;
    }
    assert(v.skip(i as int) =~= Seq::<AttributeView>::empty());
    Ok(FieldConfig::Default)
}

} // verus!
