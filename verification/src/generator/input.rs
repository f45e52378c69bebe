//! Reading a description from its tokens.
//!
//! A description is the type's name, then optionally a comma and a literal
//! (the display name), then any number of sections, each behind a comma:
//!
//! ```text
//! Name [, literal] { , @functions(Handle, Table, field) | , @class(literal) | , @impls(A, B, ..) } [,]
//! ```
//!
//! Inside `@functions`, `Handle` and `Table` are types, each a run of tokens
//! up to the next comma outside angle brackets, and `field` is either an
//! identifier or an expression inside square brackets. Whether a run is a
//! type and whether the brackets hold an expression is asked of `syn`; the
//! answers are a [`Verdict`]. The result names runs and expressions by their
//! positions in the input.
//!
//! Each reader comes in two forms. The one named `parse` asks `syn` itself.
//! The one named `parse_with` takes the answers as an argument, and says
//! exactly what is read for each of them.

use vstd::prelude::*;
use vstd::string::*;
use crate::util::str_eq;
use crate::generator::token::{
    Delimiter,
    Token,
    find_type_end,
    is_expression,
    is_type,
    literal_at,
    read_literal,
    type_end,
};

verus! {

/// A run of tokens by its first position and the position behind its last.
#[derive(Clone, Copy, Debug, PartialEq, Eq, Structural)]
pub struct Span {
    pub start: usize,
    pub end: usize,
}

/// Why a token sequence is no description.
#[derive(Clone, Copy, Debug, PartialEq, Eq, Structural)]
pub enum ParseError {
    /// An identifier was due: the type's name, a section's name, a field or a
    /// capability.
    ExpectedIdentifier,
    /// A comma was due between two parts.
    ExpectedComma,
    /// A section must start with `@`.
    ExpectedAt,
    /// A literal was due inside `@class(..)`.
    ExpectedLiteral,
    /// A known section's name must be followed by a parenthesised group.
    ExpectedParentheses,
    /// A type inside `@functions(..)` is empty or is no type.
    ExpectedType,
    /// The square brackets of a field hold nothing, or no expression.
    ExpectedExpression,
    /// A section's group holds tokens behind its last part.
    UnexpectedToken,
}

/// What `syn` said of the parts of one `@functions(..)` group: whether the
/// first run is a type, whether the second run is one, and whether the
/// square brackets of the field hold an expression. An answer about a part
/// that the group does not have says nothing.
#[derive(Clone, Copy, Debug, PartialEq, Eq, Structural)]
pub struct Verdict {
    pub handle: bool,
    pub functions: bool,
    pub expression: bool,
}

/// Where a function table comes from: the field of that name in the host's
/// data block, or an arbitrary lookup expression.
#[derive(Debug, PartialEq, Eq)]
pub enum IdentOrExpr {
    /// The name of a field.
    Ident(String),
    /// The position, within the section's group, of the bracketed group that
    /// holds the expression.
    Expr(usize),
}

pub enum IdentOrExprView {
    Ident(Seq<char>),
    Expr(usize),
}

impl View for IdentOrExpr {
    type V = IdentOrExprView;

    open spec fn view(&self) -> IdentOrExprView {
        match self {
            IdentOrExpr::Ident(word) => IdentOrExprView::Ident(word@),
            IdentOrExpr::Expr(at) => IdentOrExprView::Expr(*at),
        }
    }
}

/// The contents of a `@functions(..)` section.
#[derive(Debug, PartialEq, Eq)]
pub struct FunctionsInput {
    /// The position of the section's group in the description.
    pub section: usize,
    /// The handle type, as a run within the group.
    pub handle: Span,
    /// The table type, as a run within the group.
    pub functions: Span,
    /// The table's source.
    pub field: IdentOrExpr,
}

pub struct FunctionsInputView {
    pub section: usize,
    pub handle: Span,
    pub functions: Span,
    pub field: IdentOrExprView,
}

impl View for FunctionsInput {
    type V = FunctionsInputView;

    open spec fn view(&self) -> FunctionsInputView {
        FunctionsInputView {
            section: self.section,
            handle: self.handle,
            functions: self.functions,
            field: self.field@,
        }
    }
}

/// A description of one handle type.
#[derive(Debug, PartialEq, Eq)]
pub struct ObjectInput {
    /// The name of the handle type.
    pub object: String,
    /// The display name, as the literal's source text.
    pub name: Option<String>,
    /// The function table, if the type has one.
    pub functions: Option<FunctionsInput>,
    /// The key under which the type's class is looked up, as the literal's
    /// source text.
    pub class: Option<String>,
    /// The capabilities attached to the type, in the order written.
    pub impls: Vec<String>,
}

pub struct ObjectInputView {
    pub object: Seq<char>,
    pub name: Option<Seq<char>>,
    pub functions: Option<FunctionsInputView>,
    pub class: Option<Seq<char>>,
    pub impls: Seq<Seq<char>>,
}

/// The texts of a sequence of strings.
pub open spec fn texts(words: Seq<String>) -> Seq<Seq<char>> {
    Seq::new(words.len(), |i: int| words[i]@)
}

/// The text of an optional string.
pub open spec fn text_of(word: Option<String>) -> Option<Seq<char>> {
    match word {
        Some(w) => Some(w@),
        None => None,
    }
}

impl View for ObjectInput {
    type V = ObjectInputView;

    open spec fn view(&self) -> ObjectInputView {
        ObjectInputView {
            object: self.object@,
            name: text_of(self.name),
            functions: match self.functions {
                Some(f) => Some(f@),
                None => None,
            },
            class: text_of(self.class),
            impls: texts(self.impls@),
        }
    }
}

/// The table source written at position `at` of a section's group, where
/// `expression` tells whether what square brackets hold is an expression.
pub open spec fn field_at(group: Seq<Token>, at: int, expression: bool) -> Result<
    IdentOrExprView,
    ParseError,
> {
    if 0 <= at < group.len() {
        match group[at].group(Delimiter::Bracket) {
            Some(inner) => if inner.len() == 0 || !expression {
                Err(ParseError::ExpectedExpression)
            } else {
                Ok(IdentOrExprView::Expr(at as usize))
            },
            None => match group[at].ident() {
                Some(word) => Ok(IdentOrExprView::Ident(word)),
                None => Err(ParseError::ExpectedIdentifier),
            },
        }
    } else {
        Err(ParseError::ExpectedIdentifier)
    }
}

/// What a `@functions(..)` group says, by the answers in `verdict`: the two
/// types, each ending at a comma, then the source, then at most one more
/// comma. The parts are read in order, and the first that fails decides the
/// error. The flag tells whether tokens are left behind the last part.
pub open spec fn functions_in(group: Seq<Token>, section: usize, verdict: Verdict) -> Result<
    (FunctionsInputView, bool),
    ParseError,
> {
    let a = type_end(group, 0, 0);
    let b = type_end(group, a + 1, 0);
    let rest = if b + 2 < group.len() && group[b + 2].punct(',') {
        b + 3
    } else {
        b + 2
    };
    if a == 0 || !verdict.handle {
        Err(ParseError::ExpectedType)
    } else if a >= group.len() {
        Err(ParseError::ExpectedComma)
    } else if b == a + 1 || !verdict.functions {
        Err(ParseError::ExpectedType)
    } else if b >= group.len() {
        Err(ParseError::ExpectedComma)
    } else {
        match field_at(group, b + 1, verdict.expression) {
            Err(e) => Err(e),
            Ok(field) => Ok(
                (
                    FunctionsInputView {
                        section,
                        handle: Span { start: 0, end: a as usize },
                        functions: Span { start: (a + 1) as usize, end: b as usize },
                        field,
                    },
                    rest < group.len(),
                ),
            ),
        }
    }
}

/// What a `@class(..)` group says: one literal. The flag tells whether tokens
/// are left behind it.
pub open spec fn class_in(group: Seq<Token>) -> Result<(Seq<char>, bool), ParseError> {
    match literal_at(group, 0) {
        Some((text, taken)) => Ok((text, taken < group.len())),
        None => Err(ParseError::ExpectedLiteral),
    }
}

/// What an `@impls(..)` group says from position `at` on, behind the
/// capabilities `found` so far: identifiers with a comma between each two,
/// and at most one comma behind the last.
pub open spec fn impls_from(group: Seq<Token>, at: int, found: Seq<Seq<char>>) -> Result<
    Seq<Seq<char>>,
    ParseError,
>
    decreases group.len() - at,
{
    if at < 0 || at >= group.len() {
        Ok(found)
    } else {
        match group[at].ident() {
            None => Err(ParseError::ExpectedIdentifier),
            Some(word) => if at + 1 >= group.len() {
                Ok(found.push(word))
            } else if !group[at + 1].punct(',') {
                Err(ParseError::ExpectedComma)
            } else {
                impls_from(group, at + 2, found.push(word))
            },
        }
    }
}

/// The description once its last section is read: an error if any section
/// left tokens behind.
pub open spec fn finished(read: ObjectInputView, leftover: bool) -> Result<
    ObjectInputView,
    ParseError,
> {
    if leftover {
        Err(ParseError::UnexpectedToken)
    } else {
        Ok(read)
    }
}

/// The description that `tokens` give from position `at` on, where the
/// sections start, behind what was `read` so far. Each section is a comma,
/// `@`, a name and, for the three known names, a parenthesised group; a later
/// section of one name replaces an earlier one, and an unknown name is passed
/// over. A comma may end the description. `verdicts` holds, at the position
/// of each group, the answers about that group.
pub open spec fn sections_from(
    tokens: Seq<Token>,
    at: int,
    read: ObjectInputView,
    leftover: bool,
    verdicts: Seq<Verdict>,
) -> Result<ObjectInputView, ParseError>
    decreases tokens.len() - at,
{
    if at < 0 || at >= tokens.len() {
        finished(read, leftover)
    } else if !tokens[at].punct(',') {
        Err(ParseError::ExpectedComma)
    } else if at + 1 >= tokens.len() {
        finished(read, leftover)
    } else if !tokens[at + 1].punct('@') {
        Err(ParseError::ExpectedAt)
    } else if at + 2 >= tokens.len() {
        Err(ParseError::ExpectedIdentifier)
    } else {
        match tokens[at + 2].ident() {
            None => Err(ParseError::ExpectedIdentifier),
            Some(key) => if key == "functions"@ || key == "class"@ || key == "impls"@ {
                if at + 3 >= tokens.len() {
                    Err(ParseError::ExpectedParentheses)
                } else {
                    match tokens[at + 3].group(Delimiter::Parenthesis) {
                        None => Err(ParseError::ExpectedParentheses),
                        Some(inner) => if key == "functions"@ {
                            match functions_in(inner, (at + 3) as usize, verdicts[at + 3]) {
                                Err(e) => Err(e),
                                Ok((f, more)) => sections_from(
                                    tokens,
                                    at + 4,
                                    ObjectInputView { functions: Some(f), ..read },
                                    leftover || more,
                                    verdicts,
                                ),
                            }
                        } else if key == "class"@ {
                            match class_in(inner) {
                                Err(e) => Err(e),
                                Ok((text, more)) => sections_from(
                                    tokens,
                                    at + 4,
                                    ObjectInputView { class: Some(text), ..read },
                                    leftover || more,
                                    verdicts,
                                ),
                            }
                        } else {
                            match impls_from(inner, 0, Seq::empty()) {
                                Err(e) => Err(e),
                                Ok(found) => sections_from(
                                    tokens,
                                    at + 4,
                                    ObjectInputView { impls: found, ..read },
                                    leftover,
                                    verdicts,
                                ),
                            }
                        },
                    }
                }
            } else {
                sections_from(tokens, at + 3, read, leftover, verdicts)
            },
        }
    }
}

/// The description that `tokens` give, or why they give none, by the answers
/// in `verdicts`.
pub open spec fn parse_spec(tokens: Seq<Token>, verdicts: Seq<Verdict>) -> Result<
    ObjectInputView,
    ParseError,
> {
    if tokens.len() == 0 {
        Err(ParseError::ExpectedIdentifier)
    } else {
        match tokens[0].ident() {
            None => Err(ParseError::ExpectedIdentifier),
            Some(object) => {
                let bare = ObjectInputView {
                    object,
                    name: None,
                    functions: None,
                    class: None,
                    impls: Seq::empty(),
                };
                if tokens.len() == 1 {
                    Ok(bare)
                } else {
                    match literal_at(tokens, 2) {
                        Some((text, taken)) => if tokens[1].punct(',') {
                            sections_from(
                                tokens,
                                2 + taken,
                                ObjectInputView { name: Some(text), ..bare },
                                false,
                                verdicts,
                            )
                        } else {
                            Err(ParseError::ExpectedComma)
                        },
                        None => sections_from(tokens, 1, bare, false, verdicts),
                    }
                }
            },
        }
    }
}

/// What a reader of a table source returned, by its view.
pub open spec fn field_outcome(read: Result<IdentOrExpr, ParseError>) -> Result<
    IdentOrExprView,
    ParseError,
> {
    match read {
        Ok(field) => Ok(field@),
        Err(e) => Err(e),
    }
}

/// What a reader of a `@functions(..)` group returned, by its view.
pub open spec fn functions_outcome(read: Result<(FunctionsInput, bool), ParseError>) -> Result<
    (FunctionsInputView, bool),
    ParseError,
> {
    match read {
        Ok((f, more)) => Ok((f@, more)),
        Err(e) => Err(e),
    }
}

/// What a reader of a description returned, by its view.
pub open spec fn input_outcome(read: Result<ObjectInput, ParseError>) -> Result<
    ObjectInputView,
    ParseError,
> {
    match read {
        Ok(input) => Ok(input@),
        Err(e) => Err(e),
    }
}

impl IdentOrExpr {
    /// Reads the table source at position `at` of a section's group, where
    /// `expression` tells whether what square brackets hold is an
    /// expression.
    pub fn parse_with(group: &Vec<Token>, at: usize, expression: bool) -> (read: Result<
        IdentOrExpr,
        ParseError,
    >)
        ensures
            field_outcome(read) == field_at(group@, at as int, expression),
    {
        if at >= group.len() {
            return Err(ParseError::ExpectedIdentifier);
        }
        match group[at].as_group(Delimiter::Bracket) {
            Some(inner) => {
                if inner.len() == 0 || !expression {
                    Err(ParseError::ExpectedExpression)
                } else {
                    Ok(IdentOrExpr::Expr(at))
                }
            },
            None => match group[at].as_ident() {
                Some(word) => Ok(IdentOrExpr::Ident(word.clone())),
                None => Err(ParseError::ExpectedIdentifier),
            },
        }
    }

    /// Reads the table source at position `at` of a section's group, asking
    /// `syn` whether what square brackets hold is an expression. The result
    /// is what [`field_at`] gives for the answer.
    pub fn parse(group: &Vec<Token>, at: usize) -> (read: Result<IdentOrExpr, ParseError>)
        ensures
            exists|expression: bool|
                field_outcome(read) == #[trigger] field_at(group@, at as int, expression),
    {
        let expression: bool = if at < group.len() {
            match group[at].as_group(Delimiter::Bracket) {
                Some(inner) => is_expression(inner),
                None => true,
            }
        } else {
            true
        };
        let read = Self::parse_with(group, at, expression);
        assert(field_outcome(read) == field_at(group@, at as int, expression));
        read
    }
}

impl FunctionsInput {
    /// Asks `syn` about the parts of a `@functions(..)` group.
    fn judge(group: &Vec<Token>) -> (verdict: Verdict) {
        let n: usize = group.len();
        let a: usize = find_type_end(group, 0);
        let handle: bool = is_type(group, 0, a);
        let mut functions: bool = false;
        let mut expression: bool = false;
        if a < n {
            let b: usize = find_type_end(group, a + 1);
            functions = is_type(group, a + 1, b);
            if b < n && b + 1 < n {
                match group[b + 1].as_group(Delimiter::Bracket) {
                    Some(inner) => {
                        expression = is_expression(inner);
                    },
                    None => {},
                }
            }
        }
        Verdict { handle, functions, expression }
    }

    /// Reads a `@functions(..)` group that stands at position `section` of
    /// the description, by the answers in `verdict`. The flag of the result
    /// tells whether the group holds tokens behind its last part.
    pub fn parse_with(group: &Vec<Token>, section: usize, verdict: Verdict) -> (read: Result<
        (FunctionsInput, bool),
        ParseError,
    >)
        ensures
            functions_outcome(read) == functions_in(group@, section, verdict),
    {
        let n: usize = group.len();
        let a: usize = find_type_end(group, 0);
        if a == 0 || !verdict.handle {
            return Err(ParseError::ExpectedType);
        }
        if a >= n {
            return Err(ParseError::ExpectedComma);
        }
        let b: usize = find_type_end(group, a + 1);
        if b == a + 1 || !verdict.functions {
            return Err(ParseError::ExpectedType);
        }
        if b >= n {
            return Err(ParseError::ExpectedComma);
        }
        let field = match IdentOrExpr::parse_with(group, b + 1, verdict.expression) {
            Ok(field) => field,
            Err(e) => {
                return Err(e);
            },
        };
        let mut rest: usize = b + 2;
        if rest < n && group[rest].is_punct(',') {
            rest = rest + 1;
        }
        Ok(
            (
                FunctionsInput {
                    section,
                    handle: Span { start: 0, end: a },
                    functions: Span { start: a + 1, end: b },
                    field,
                },
                rest < n,
            ),
        )
    }

    /// Reads a `@functions(..)` group that stands at position `section` of
    /// the description, asking `syn` about its types and its expression. The
    /// result is what [`functions_in`] gives for the answers.
    pub fn parse(group: &Vec<Token>, section: usize) -> (read: Result<
        (FunctionsInput, bool),
        ParseError,
    >)
        ensures
            exists|verdict: Verdict|
                functions_outcome(read) == #[trigger] functions_in(group@, section, verdict),
    {
        let verdict = Self::judge(group);
        let read = Self::parse_with(group, section, verdict);
        assert(functions_outcome(read) == functions_in(group@, section, verdict));
        read
    }
}

/// Reads a `@class(..)` group.
fn parse_class(group: &Vec<Token>) -> (read: Result<(String, bool), ParseError>)
    ensures
        match read {
            Ok((text, more)) => class_in(group@) == Ok::<_, ParseError>((text@, more)),
            Err(e) => class_in(group@) == Err::<(Seq<char>, bool), _>(e),
        },
{
    match read_literal(group, 0) {
        Some((text, taken)) => Ok((text, taken < group.len())),
        None => Err(ParseError::ExpectedLiteral),
    }
}

/// Reads an `@impls(..)` group.
fn parse_impls(group: &Vec<Token>) -> (read: Result<Vec<String>, ParseError>)
    ensures
        match read {
            Ok(found) => impls_from(group@, 0, Seq::empty()) == Ok::<_, ParseError>(
                texts(found@),
            ),
            Err(e) => impls_from(group@, 0, Seq::empty()) == Err::<Seq<Seq<char>>, _>(e),
        },
{
    let n: usize = group.len();
    let mut found: Vec<String> = Vec::new();
    let mut at: usize = 0;
    assert(texts(found@) =~= Seq::empty());
    while at < n
        invariant
            n == group@.len(),
            impls_from(group@, 0, Seq::empty()) == impls_from(group@, at as int, texts(found@)),
        decreases n - at,
    {
        let word = match group[at].as_ident() {
            Some(word) => word.clone(),
            None => {
                return Err(ParseError::ExpectedIdentifier);
            },
        };
        let ghost before = texts(found@);
        found.push(word);
        assert(texts(found@) =~= before.push(word@));
        if at + 1 >= n {
            return Ok(found);
        }
        if !group[at + 1].is_punct(',') {
            return Err(ParseError::ExpectedComma);
        }
        at = at + 2;
    }
    Ok(found)
}

impl ObjectInput {
    /// Reads a description from its tokens, asking `syn` about the types and
    /// the expression of each `@functions(..)` section. The result is what
    /// [`parse_spec`] gives for the answers.
    pub fn parse(tokens: &Vec<Token>) -> (read: Result<ObjectInput, ParseError>)
        ensures
            exists|verdicts: Seq<Verdict>|
                verdicts.len() == tokens@.len() && input_outcome(read) == #[trigger] parse_spec(
                    tokens@,
                    verdicts,
                ),
    {
        let mut verdicts: Vec<Verdict> = Vec::new();
        let mut i: usize = 0;
        while i < tokens.len()
            invariant
                i <= tokens@.len(),
                verdicts@.len() == i,
            decreases tokens@.len() - i,
        {
            let verdict = match tokens[i].as_group(Delimiter::Parenthesis) {
                Some(inner) => FunctionsInput::judge(inner),
                None => Verdict { handle: true, functions: true, expression: true },
            };
            verdicts.push(verdict);
            i = i + 1;
        }
        let read = Self::parse_with(tokens, &verdicts);
        assert(input_outcome(read) == parse_spec(tokens@, verdicts@));
        read
    }

    /// Reads a description from its tokens, by the answers in `verdicts`,
    /// which holds at the position of each group the answers about that
    /// group. The result is the description that [`parse_spec`] gives, or
    /// the error that it gives.
    pub fn parse_with(tokens: &Vec<Token>, verdicts: &Vec<Verdict>) -> (read: Result<
        ObjectInput,
        ParseError,
    >)
        requires
            verdicts@.len() == tokens@.len(),
        ensures
            input_outcome(read) == parse_spec(tokens@, verdicts@),
    {
        let n: usize = tokens.len();
        if n == 0 {
            return Err(ParseError::ExpectedIdentifier);
        }
        let object = match tokens[0].as_ident() {
            Some(word) => word.clone(),
            None => {
                return Err(ParseError::ExpectedIdentifier);
            },
        };
        let mut input = ObjectInput {
            object,
            name: None,
            functions: None,
            class: None,
            impls: Vec::new(),
        };
        assert(texts(input.impls@) =~= Seq::empty());
        if n == 1 {
            return Ok(input);
        }
        let mut at: usize = 1;
        match read_literal(tokens, 2) {
            Some((text, taken)) => {
                if !tokens[1].is_punct(',') {
                    return Err(ParseError::ExpectedComma);
                }
                input.name = Some(text);
                at = 2 + taken;
            },
            None => {},
        }
        let mut leftover: bool = false;
        while at < n
            invariant
                n == tokens@.len(),
                verdicts@.len() == n,
                parse_spec(tokens@, verdicts@) == sections_from(
                    tokens@,
                    at as int,
                    input@,
                    leftover,
                    verdicts@,
                ),
            decreases n - at,
        {
            if !tokens[at].is_punct(',') {
                return Err(ParseError::ExpectedComma);
            }
            if at + 1 >= n {
                return if leftover {
                    Err(ParseError::UnexpectedToken)
                } else {
                    Ok(input)
                };
            }
            if !tokens[at + 1].is_punct('@') {
                return Err(ParseError::ExpectedAt);
            }
            if at + 2 >= n {
                return Err(ParseError::ExpectedIdentifier);
            }
            let key: &String = match tokens[at + 2].as_ident() {
                Some(word) => word,
                None => {
                    return Err(ParseError::ExpectedIdentifier);
                },
            };
            let is_functions: bool = str_eq(key.as_str(), "functions");
            let is_class: bool = str_eq(key.as_str(), "class");
            let is_impls: bool = str_eq(key.as_str(), "impls");
            if is_functions || is_class || is_impls {
                if at + 3 >= n {
                    return Err(ParseError::ExpectedParentheses);
                }
                let inner: &Vec<Token> = match tokens[at + 3].as_group(Delimiter::Parenthesis) {
                    Some(inner) => inner,
                    None => {
                        return Err(ParseError::ExpectedParentheses);
                    },
                };
                if is_functions {
                    match FunctionsInput::parse_with(inner, at + 3, verdicts[at + 3]) {
                        Ok((f, more)) => {
                            input.functions = Some(f);
                            leftover = leftover || more;
                        },
                        Err(e) => {
                            return Err(e);
                        },
                    }
                } else if is_class {
                    match parse_class(inner) {
                        Ok((text, more)) => {
                            input.class = Some(text);
                            leftover = leftover || more;
                        },
                        Err(e) => {
                            return Err(e);
                        },
                    }
                } else {
                    match parse_impls(inner) {
                        Ok(found) => {
                            input.impls = found;
                        },
                        Err(e) => {
                            return Err(e);
                        },
                    }
                }
                at = at + 4;
            } else {
                at = at + 3;
            }
        }
        if leftover {
            Err(ParseError::UnexpectedToken)
        } else {
            Ok(input)
        }
    }
}

} // verus!
