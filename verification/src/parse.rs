//! The declarative argument grammar:
//!
//! ```text
//! Arguments       := [ Identifier ':' ] ImplementerDecl ( ',' ImplementerDecl )*
//! ImplementerDecl := TypeReference [ 'as' Identifier ]
//! TypeReference   := Identifier ( '::' Identifier )*
//! ```
//!
//! The optional leading `Identifier ':'` (the override name for the sum
//! type) is told apart from the first implementer by a two-token lookahead:
//! the first token is consumed as the override name exactly when the second
//! token is a colon. An empty argument list is accepted and yields an empty
//! implementer list; it is degenerate but not rejected here.
//!
//! The grammar is stated once as a specification-level parser
//! (`spec_args`), and the executable parser is proved to return exactly its
//! result, success and failure alike.

use vstd::prelude::*;

verus! {

/// One token of the argument list, as handed over by the host's lexer.
#[derive(Debug, Clone, PartialEq, Eq)]
pub enum Token {
    /// A bare identifier or keyword-free word.
    Ident(String),
    /// `:`
    Colon,
    /// `,`
    Comma,
    /// `::`
    PathSep,
    /// `as`
    As,
}

/// What a malformed argument list was missing.
#[derive(Debug, Clone, Copy, PartialEq, Eq)]
pub enum ParseErrorKind {
    /// An implementer declaration must start with a type identifier.
    ExpectedType,
    /// A `::` must be followed by a path segment identifier.
    ExpectedSegment,
    /// An alias clause must start with `as`.
    ExpectedAs,
    /// An `as` must be followed by an alias identifier.
    ExpectedAlias,
    /// After a complete implementer declaration only `,` or the end of the
    /// argument list may follow.
    ExpectedCommaOrEnd,
    /// The argument list does not open with an override name (`Identifier ':'`).
    NoOverrideName,
}

/// A malformed argument list: what was expected and the index of the token
/// at which parsing failed (the length of the list when the input ended
/// early). The invocation site pins the whole list to one source location;
/// the index locates the offence inside it.
#[derive(Debug, Clone, Copy, PartialEq, Eq)]
pub struct ParseError {
    pub kind: ParseErrorKind,
    pub pos: usize,
}

impl ParseError {
    /// A human-readable description of the failure.
    pub fn message(&self) -> (r: &'static str)
        ensures
            r@ == spec_message(self.kind),
    {
        match self.kind {
            ParseErrorKind::ExpectedType => "expected a type identifier",
            ParseErrorKind::ExpectedSegment => "expected a path segment after `::`",
            ParseErrorKind::ExpectedAs => "expected `as`",
            ParseErrorKind::ExpectedAlias => "expected an alias identifier after `as`",
            ParseErrorKind::ExpectedCommaOrEnd => "expected `,` or the end of the arguments",
            ParseErrorKind::NoOverrideName => "expected an override name followed by `:`",
        }
    }
}

/// The message text belonging to each failure kind.
pub open spec fn spec_message(k: ParseErrorKind) -> Seq<char> {
    match k {
        ParseErrorKind::ExpectedType => "expected a type identifier"@,
        ParseErrorKind::ExpectedSegment => "expected a path segment after `::`"@,
        ParseErrorKind::ExpectedAs => "expected `as`"@,
        ParseErrorKind::ExpectedAlias => "expected an alias identifier after `as`"@,
        ParseErrorKind::ExpectedCommaOrEnd => "expected `,` or the end of the arguments"@,
        ParseErrorKind::NoOverrideName => "expected an override name followed by `:`"@,
    }
}

/// The characters of an identifier token; the empty sequence for any other
/// token (used only where the token is known to be an identifier).
pub open spec fn ident_chars(t: Token) -> Seq<char> {
    match t {
        Token::Ident(s) => s@,
        _ => Seq::empty(),
    }
}

/// The mathematical form of one parsed implementer: the segments of its
/// type reference, and its alias if one was written.
#[verifier::ext_equal]
pub struct ImplView {
    pub path: Seq<Seq<char>>,
    pub alias: Option<Seq<char>>,
}

/// The mathematical form of a parsed argument list.
#[verifier::ext_equal]
pub struct ArgsView {
    pub enum_name: Option<Seq<char>>,
    pub impls: Seq<ImplView>,
}

/// The effective alias of an implementer: its alias if present, else the
/// simple (last) segment of its type reference.
pub open spec fn impl_alias(v: ImplView) -> Seq<char> {
    match v.alias {
        Some(a) => a,
        None => v.path.last(),
    }
}

/// `TypeReference` continuation: starting at `i` with the segments seen so
/// far, consume every `:: Identifier` pair; stop before any other token.
pub open spec fn spec_path_rest(t: Seq<Token>, i: int, acc: Seq<Seq<char>>) -> Result<
    (Seq<Seq<char>>, int),
    ParseError,
>
    decreases t.len() - i,
{
    if 0 <= i < t.len() && t[i] is PathSep {
        if i + 1 < t.len() && t[i + 1] is Ident {
            spec_path_rest(t, i + 2, acc.push(ident_chars(t[i + 1])))
        } else {
            Err(ParseError { kind: ParseErrorKind::ExpectedSegment, pos: (i + 1) as usize })
        }
    } else {
        Ok((acc, i))
    }
}

/// `ImplementerDecl`: a type reference, then an optional `as Identifier`.
pub open spec fn spec_decl(t: Seq<Token>, i: int) -> Result<(ImplView, int), ParseError> {
    if 0 <= i < t.len() && t[i] is Ident {
        match spec_path_rest(t, i + 1, seq![ident_chars(t[i])]) {
            Ok((path, j)) => {
                if j < t.len() && t[j] is As {
                    if j + 1 < t.len() && t[j + 1] is Ident {
                        Ok((ImplView { path, alias: Some(ident_chars(t[j + 1])) }, j + 2))
                    } else {
                        Err(ParseError { kind: ParseErrorKind::ExpectedAlias, pos: (j + 1) as usize })
                    }
                } else {
                    Ok((ImplView { path, alias: None }, j))
                }
            },
            Err(e) => Err(e),
        }
    } else {
        Err(ParseError { kind: ParseErrorKind::ExpectedType, pos: i as usize })
    }
}

/// The implementer list from `i` to the end of the input: one declaration,
/// then either the end or a `,` and the rest of the list.
pub open spec fn spec_list(t: Seq<Token>, i: int, acc: Seq<ImplView>) -> Result<
    Seq<ImplView>,
    ParseError,
>
    decreases t.len() - i,
{
    match spec_decl(t, i) {
        Ok((im, j)) => {
            if j == t.len() {
                Ok(acc.push(im))
            } else if i < j < t.len() && t[j] is Comma {
                spec_list(t, j + 1, acc.push(im))
            } else {
                Err(ParseError { kind: ParseErrorKind::ExpectedCommaOrEnd, pos: j as usize })
            }
        },
        Err(e) => Err(e),
    }
}

/// The whole argument grammar, with the two-token lookahead for the
/// override name and the acceptance of an empty implementer list.
pub open spec fn spec_args(t: Seq<Token>) -> Result<ArgsView, ParseError> {
    if t.len() == 0 {
        Ok(ArgsView { enum_name: None, impls: Seq::empty() })
    } else if t.len() >= 2 && t[0] is Ident && t[1] is Colon {
        if t.len() == 2 {
            Ok(ArgsView { enum_name: Some(ident_chars(t[0])), impls: Seq::empty() })
        } else {
            match spec_list(t, 2, Seq::empty()) {
                Ok(impls) => Ok(ArgsView { enum_name: Some(ident_chars(t[0])), impls }),
                Err(e) => Err(e),
            }
        }
    } else {
        match spec_list(t, 0, Seq::empty()) {
            Ok(impls) => Ok(ArgsView { enum_name: None, impls }),
            Err(e) => Err(e),
        }
    }
}

/// One registered implementer: a type reference (a qualified path of at
/// least one segment) and an optional alias under which its variant is
/// tagged.
#[derive(Debug)]
pub struct Implementer {
    pub path: Vec<String>,
    pub alias: Option<String>,
}

impl View for Implementer {
    type V = ImplView;

    open spec fn view(&self) -> ImplView {
        ImplView {
            path: self.path@.map_values(|s: String| s@),
            alias: match self.alias {
                Some(a) => Some(a@),
                None => None,
            },
        }
    }
}

impl Implementer {
    /// A meaningful implementer names at least one path segment.
    pub open spec fn wf(&self) -> bool {
        self@.path.len() >= 1
    }

    /// The effective alias: the alias if one was written, else the simple
    /// (unqualified) name of the type reference.
    pub fn alias(&self) -> (r: &String)
        requires
            self.wf(),
        ensures
            r@ == impl_alias(self@),
    {
        match &self.alias {
            Some(id) => id,
            None => &self.path[self.path.len() - 1],
        }
    }
}

/// The parsed argument list: an optional override name for the sum type and
/// the ordered implementer list.
#[derive(Debug)]
pub struct Arguments {
    pub enum_name: Option<String>,
    pub impls: Vec<Implementer>,
}

impl View for Arguments {
    type V = ArgsView;

    open spec fn view(&self) -> ArgsView {
        ArgsView {
            enum_name: match self.enum_name {
                Some(n) => Some(n@),
                None => None,
            },
            impls: self.impls@.map_values(|im: Implementer| im@),
        }
    }
}

impl Arguments {
    /// Every parsed implementer has a non-empty type reference.
    pub open spec fn wf(&self) -> bool {
        forall|k: int| 0 <= k < self.impls@.len() ==> (#[trigger] self.impls@[k]).wf()
    }
}

/// An alias clause, `as Identifier`.
#[derive(Debug)]
pub struct Alias(pub String);

impl Alias {
    /// Parses `as Identifier` at position `i`.
    pub fn parse(t: &Vec<Token>, i: usize) -> (r: Result<(Alias, usize), ParseError>)
        requires
            i <= t@.len(),
        ensures
            r is Ok <==> (i + 1 < t@.len() && t@[i as int] is As && t@[i + 1] is Ident),
            match r {
                Ok((a, j)) => a.0@ == ident_chars(t@[i + 1]) && j == i + 2,
                Err(e) => if i < t@.len() && t@[i as int] is As {
                    e == (ParseError { kind: ParseErrorKind::ExpectedAlias, pos: (i + 1) as usize })
                } else {
                    e == (ParseError { kind: ParseErrorKind::ExpectedAs, pos: i })
                },
            },
    {
        if i < t.len() && matches!(&t[i], Token::As) {
            if i + 1 < t.len() {
                if let Token::Ident(id) = &t[i + 1] {
                    return Ok((Alias(id.clone()), i + 2));
                }
            }
            Err(ParseError { kind: ParseErrorKind::ExpectedAlias, pos: i + 1 })
        } else {
            Err(ParseError { kind: ParseErrorKind::ExpectedAs, pos: i })
        }
    }
}

/// The override name, `Identifier ':'`, recognised by the two-token
/// lookahead at the very front of the argument list.
#[derive(Debug)]
pub struct EnumName(pub String);

impl EnumName {
    /// Consumes `Identifier ':'` at the front of the argument list iff the
    /// second token is a colon.
    pub fn parse(t: &Vec<Token>) -> (r: Result<(EnumName, usize), ParseError>)
        ensures
            match r {
                Ok((en, j)) => t@.len() >= 2 && t@[0] is Ident && t@[1] is Colon && en.0@
                    == ident_chars(t@[0]) && j == 2,
                Err(e) => !(t@.len() >= 2 && t@[0] is Ident && t@[1] is Colon) && e == (
                ParseError { kind: ParseErrorKind::NoOverrideName, pos: 0 }),
            },
    {
        if t.len() >= 2 && matches!(&t[1], Token::Colon) {
            if let Token::Ident(id) = &t[0] {
                return Ok((EnumName(id.clone()), 2));
            }
        }
        Err(ParseError { kind: ParseErrorKind::NoOverrideName, pos: 0 })
    }
}

/// `TypeReference` continuation: consumes every `:: Identifier` pair from
/// `i`, extending the segments collected so far.
fn parse_path_rest(t: &Vec<Token>, i: usize, acc: Vec<String>) -> (r: Result<
    (Vec<String>, usize),
    ParseError,
>)
    requires
        i <= t@.len(),
    ensures
        match r {
            Ok((path, j)) => spec_path_rest(t@, i as int, acc@.map_values(|s: String| s@)) == Ok::<
                _,
                ParseError,
            >((path@.map_values(|s: String| s@), j as int)) && i <= j <= t@.len(),
            Err(e) => spec_path_rest(t@, i as int, acc@.map_values(|s: String| s@)) == Err::<
                (Seq<Seq<char>>, int),
                _,
            >(e),
        },
    decreases t@.len() - i,
{
    if i < t.len() && matches!(&t[i], Token::PathSep) {
        if i + 1 < t.len() {
            if let Token::Ident(id) = &t[i + 1] {
                let mut acc2 = acc;
                let ghost old_acc = acc2@.map_values(|s: String| s@);
                acc2.push(id.clone());
                proof {
                    assert(acc2@.map_values(|s: String| s@) =~= old_acc.push(
                        ident_chars(t@[i + 1]),
                    ));
                }
                return parse_path_rest(t, i + 2, acc2);
            }
        }
        Err(ParseError { kind: ParseErrorKind::ExpectedSegment, pos: i + 1 })
    } else {
        Ok((acc, i))
    }
}

impl Implementer {
    /// `ImplementerDecl`: a type reference, then an optional alias clause.
    pub fn parse(t: &Vec<Token>, i: usize) -> (r: Result<(Implementer, usize), ParseError>)
        requires
            i <= t@.len(),
        ensures
            match r {
                Ok((im, j)) => spec_decl(t@, i as int) == Ok::<_, ParseError>((im@, j as int))
                    && im.wf() && i < j <= t@.len(),
                Err(e) => spec_decl(t@, i as int) == Err::<(ImplView, int), _>(e),
            },
    {
        if i < t.len() {
            if let Token::Ident(first) = &t[i] {
                let mut seed: Vec<String> = Vec::new();
                seed.push(first.clone());
                proof {
                    assert(seed@.map_values(|s: String| s@) =~= seq![ident_chars(t@[i as int])]);
                }
                let (path, j) = match parse_path_rest(t, i + 1, seed) {
                    Ok(pj) => pj,
                    Err(e) => {
                        return Err(e);
                    },
                };
                proof {
                    lemma_path_rest_bounds(
                        t@,
                        i + 1,
                        seq![ident_chars(t@[i as int])],
                    );
                    assert(path@.map_values(|s: String| s@).len() >= 1) by {
                        lemma_path_rest_grows(t@, i + 1, seq![ident_chars(t@[i as int])]);
                    }
                }
                let mut take_alias = false;
                if j < t.len() {
                    if let Token::As = &t[j] {
                        take_alias = true;
                    }
                }
                if take_alias {
                    match Alias::parse(t, j) {
                        Ok((a, j2)) => {
                            return Ok((Implementer { path, alias: Some(a.0) }, j2));
                        },
                        Err(e) => {
                            return Err(e);
                        },
                    }
                }
                return Ok((Implementer { path, alias: None }, j));
            }
        }
        Err(ParseError { kind: ParseErrorKind::ExpectedType, pos: i })
    }
}

/// The implementer list from `i` to the end of the input, extending the
/// implementers collected so far.
fn parse_list(t: &Vec<Token>, i: usize, acc: Vec<Implementer>) -> (r: Result<
    Vec<Implementer>,
    ParseError,
>)
    requires
        i <= t@.len(),
    ensures
        match r {
            Ok(impls) => spec_list(t@, i as int, acc@.map_values(|im: Implementer| im@)) == Ok::<
                _,
                ParseError,
            >(impls@.map_values(|im: Implementer| im@)) && impls@.len() >= acc@.len() && (forall|
                k: int,
            |
                0 <= k < acc@.len() ==> impls@[k] == acc@[k]) && (forall|k: int|
                acc@.len() <= k < impls@.len() ==> (#[trigger] impls@[k]).wf()),
            Err(e) => spec_list(t@, i as int, acc@.map_values(|im: Implementer| im@)) == Err::<
                Seq<ImplView>,
                _,
            >(e),
        },
    decreases t@.len() - i,
{
    let (im, j) = match Implementer::parse(t, i) {
        Ok(ij) => ij,
        Err(e) => {
            return Err(e);
        },
    };
    let mut acc2 = acc;
    let ghost old_acc = acc2@.map_values(|im: Implementer| im@);
    acc2.push(im);
    proof {
        assert(acc2@.map_values(|im: Implementer| im@) =~= old_acc.push(
            spec_decl(t@, i as int)->Ok_0.0,
        ));
    }
    if j == t.len() {
        return Ok(acc2);
    }
    let is_comma = matches!(&t[j], Token::Comma);
    if is_comma {
        parse_list(t, j + 1, acc2)
    } else {
        Err(ParseError { kind: ParseErrorKind::ExpectedCommaOrEnd, pos: j })
    }
}

impl Arguments {
    /// Parses the whole argument list: the optional override name found by
    /// the two-token lookahead, then the comma-separated implementer
    /// declarations. Succeeds exactly where the grammar `spec_args` does,
    /// with exactly its result; fails with exactly its error otherwise.
    pub fn parse(t: &Vec<Token>) -> (r: Result<Arguments, ParseError>)
        ensures
            match r {
                Ok(a) => spec_args(t@) == Ok::<_, ParseError>(a@) && a.wf(),
                Err(e) => spec_args(t@) == Err::<ArgsView, _>(e),
            },
    {
        let enum_name = match EnumName::parse(t) {
            Ok((en, _)) => Some(en.0),
            Err(_) => None,
        };
        let start: usize = if enum_name.is_some() {
            2
        } else {
            0
        };
        if t.len() == start {
            let a = Arguments { enum_name, impls: Vec::new() };
            proof {
                assert(a@.impls =~= Seq::<ImplView>::empty());
            }
            return Ok(a);
        }
        let seed: Vec<Implementer> = Vec::new();
        proof {
            assert(seed@.map_values(|im: Implementer| im@) =~= Seq::<ImplView>::empty());
        }
        match parse_list(t, start, seed) {
            Ok(impls) => Ok(Arguments { enum_name, impls }),
            Err(e) => Err(e),
        }
    }
}

/// A successful path continuation keeps every segment collected so far and
/// so never shrinks the segment list.
pub proof fn lemma_path_rest_grows(t: Seq<Token>, i: int, acc: Seq<Seq<char>>)
    requires
        0 <= i <= t.len(),
        spec_path_rest(t, i, acc) is Ok,
    ensures
        spec_path_rest(t, i, acc)->Ok_0.0.len() >= acc.len(),
    decreases t.len() - i,
{
    if 0 <= i < t.len() && t[i] is PathSep {
        if i + 1 < t.len() && t[i + 1] is Ident {
            lemma_path_rest_grows(t, i + 2, acc.push(ident_chars(t[i + 1])));
        }
    }
}

/// A successful path continuation never moves backwards and never runs past
/// the end of the input.
pub proof fn lemma_path_rest_bounds(t: Seq<Token>, i: int, acc: Seq<Seq<char>>)
    requires
        0 <= i <= t.len(),
        spec_path_rest(t, i, acc) is Ok,
    ensures
        i <= spec_path_rest(t, i, acc)->Ok_0.1 <= t.len(),
    decreases t.len() - i,
{
    if 0 <= i < t.len() && t[i] is PathSep {
        if i + 1 < t.len() && t[i + 1] is Ident {
            lemma_path_rest_bounds(t, i + 2, acc.push(ident_chars(t[i + 1])));
        }
    }
}

} // verus!
