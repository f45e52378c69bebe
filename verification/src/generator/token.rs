//! Tokens of a description, as plain values.
//!
//! What counts as an identifier, a literal, a type or an expression is
//! decided by `syn`, the parser that reads Rust source for macros. A word or
//! a literal carries that decision with its text, so that reading a
//! description is a matter of plain values: [`Token::word`] and
//! [`Token::literal`] ask `syn` and make tokens that carry its answers,
//! whatever they are. For a type or an expression, `syn` is handed the
//! source text of the tokens, [`tokens_text`].

use vstd::prelude::*;
use vstd::string::*;

verus! {

/// The bracket pair around a group of tokens.
#[derive(Clone, Copy, Debug, PartialEq, Eq, Structural)]
pub enum Delimiter {
    Parenthesis,
    Brace,
    Bracket,
}

/// One token tree: a word, a literal, a punctuation character, or a
/// bracketed group of token trees.
#[derive(Debug)]
pub enum Token {
    /// A word by its text. `identifier` tells whether the word may serve as
    /// an identifier, which a keyword may not; `literal` tells whether the
    /// word is a literal by itself, as a truth value is.
    Ident { text: String, identifier: bool, literal: bool },
    /// A literal by its source text. `negatable` tells whether a minus sign
    /// in front of it makes one literal of the two, as it does with a number.
    Literal { text: String, negatable: bool },
    /// A punctuation character with something else behind it, or nothing.
    Punct(char),
    /// A punctuation character that is written together with the punctuation
    /// character behind it, as the first colon of `::` is.
    Joint(char),
    /// The tokens between a pair of brackets.
    Group(Delimiter, Vec<Token>),
}

/// The longest text, in characters, that is handed to `syn`. The parser
/// works through nested brackets by recursion, so a text is kept short
/// enough that its nesting cannot exhaust the stack.
pub const TEXT_LIMIT: usize = 128;

/// True when a text is short enough to be handed to `syn`, with room for one
/// more character in front.
pub open spec fn fits(text: Seq<char>) -> bool {
    text.len() < TEXT_LIMIT
}

/// Tells whether a text is short enough to be handed to `syn`.
pub fn text_fits(text: &str) -> (ok: bool)
    ensures
        ok == fits(text@),
{
    text.unicode_len() < TEXT_LIMIT
}

/// `syn::parse_str` for `syn::Ident`: whether the call succeeds, which is
/// when the parser reads the text as one word that is no keyword. Nothing is
/// claimed of the answer: the parser's lexer is the compiler's own inside a
/// macro expansion and another one outside, and the two need not agree on
/// every text. The text is short, so that the parser's recursion stays
/// shallow.
#[verifier::external_body]
fn parses_as_identifier(word: &str) -> (yes: bool)
    requires
        word@.len() <= TEXT_LIMIT,
{
    syn::parse_str::<syn::Ident>(word).is_ok()
}

/// `syn::parse_str` for `syn::Lit`: whether the call succeeds, which is when
/// the parser reads the text as one literal, a truth value, or a minus sign
/// and a number. Nothing is claimed of the answer, and the text is short, as
/// for identifiers.
#[verifier::external_body]
fn parses_as_literal(text: &str) -> (yes: bool)
    requires
        text@.len() <= TEXT_LIMIT,
{
    syn::parse_str::<syn::Lit>(text).is_ok()
}

impl Token {
    /// True when the token is the punctuation character `c`, joint or not.
    pub open spec fn punct(self, c: char) -> bool {
        self == Token::Punct(c) || self == Token::Joint(c)
    }

    /// The token's text when it is a word that may serve as an identifier.
    pub open spec fn ident(self) -> Option<Seq<char>> {
        match self {
            Token::Ident { text, identifier, literal } => if identifier {
                Some(text@)
            } else {
                None
            },
            _ => None,
        }
    }

    /// The token's contents when it is a group inside the brackets `d`.
    pub open spec fn group(self, d: Delimiter) -> Option<Seq<Token>> {
        match self {
            Token::Group(e, inner) => if e == d {
                Some(inner@)
            } else {
                None
            },
            _ => None,
        }
    }

    /// The token of the word `text`, with what `syn` answers for it when it
    /// is asked whether the word is an identifier and whether it is a
    /// literal.
    pub fn word(text: String) -> (token: Token)
        requires
            fits(text@),
        ensures
            token matches Token::Ident { text: kept, identifier, literal } && kept == text,
    {
        let identifier = parses_as_identifier(text.as_str());
        let literal = parses_as_literal(text.as_str());
        Token::Ident { text, identifier, literal }
    }

    /// The token of the literal with the source text `text`, with what `syn`
    /// answers when it is asked whether a minus sign and the text are one
    /// literal.
    pub fn literal(text: String) -> (token: Token)
        requires
            fits(text@),
        ensures
            token matches Token::Literal { text: kept, negatable } && kept == text,
    {
        let signed = String::from_str("-").concat(text.as_str());
        proof {
            reveal_strlit("-");
            assert("-"@.len() == 1);
        }
        let negatable = parses_as_literal(signed.as_str());
        Token::Literal { text, negatable }
    }

    /// Tells whether the token is the punctuation character `c`.
    pub fn is_punct(&self, c: char) -> (yes: bool)
        ensures
            yes == self.punct(c),
    {
        match self {
            Token::Punct(p) => *p == c,
            Token::Joint(p) => *p == c,
            _ => false,
        }
    }

    /// The token's text when it is an identifier.
    pub fn as_ident(&self) -> (word: Option<&String>)
        ensures
            match word {
                Some(w) => self.ident() == Some(w@),
                None => self.ident() is None,
            },
    {
        match self {
            Token::Ident { text, identifier, literal } => if *identifier {
                Some(text)
            } else {
                None
            },
            _ => None,
        }
    }

    /// The token's contents when it is a group inside the brackets `d`.
    pub fn as_group(&self, d: Delimiter) -> (inner: Option<&Vec<Token>>)
        ensures
            match inner {
                Some(v) => self.group(d) == Some(v@),
                None => self.group(d) is None,
            },
    {
        match self {
            Token::Group(e, v) => if *e == d {
                Some(v)
            } else {
                None
            },
            _ => None,
        }
    }
}

/// The literal that starts at position `at` of `tokens`, as its text and the
/// number of tokens it takes: a literal token, a word that is a literal, or a
/// minus sign in front of a literal token that takes one.
pub open spec fn literal_at(tokens: Seq<Token>, at: int) -> Option<(Seq<char>, int)> {
    if at < 0 || at >= tokens.len() {
        None
    } else {
        match tokens[at] {
            Token::Literal { text, negatable } => Some((text@, 1int)),
            Token::Ident { text, identifier, literal } => if literal {
                Some((text@, 1int))
            } else {
                None
            },
            _ => if tokens[at].punct('-') && at + 1 < tokens.len() {
                match tokens[at + 1] {
                    Token::Literal { text, negatable } => if negatable {
                        Some((seq!['-'] + text@, 2int))
                    } else {
                        None
                    },
                    _ => None,
                }
            } else {
                None
            },
        }
    }
}

/// Reads the literal that starts at position `at`, if one does.
pub fn read_literal(tokens: &Vec<Token>, at: usize) -> (found: Option<(String, usize)>)
    ensures
        match found {
            Some((text, taken)) => literal_at(tokens@, at as int) == Some((text@, taken as int))
                && 1 <= taken <= 2 && at + taken <= tokens@.len(),
            None => literal_at(tokens@, at as int) is None,
        },
{
    if at >= tokens.len() {
        return None;
    }
    match &tokens[at] {
        Token::Literal { text, negatable } => Some((text.clone(), 1)),
        Token::Ident { text, identifier, literal } => {
            if *literal {
                Some((text.clone(), 1))
            } else {
                None
            }
        },
        other => {
            if other.is_punct('-') && at + 1 < tokens.len() {
                match &tokens[at + 1] {
                    Token::Literal { text, negatable } => {
                        if *negatable {
                            let signed = String::from_str("-").concat(text.as_str());
                            proof {
                                reveal_strlit("-");
                                assert("-"@ =~= seq!['-']);
                            }
                            Some((signed, 2))
                        } else {
                            None
                        }
                    },
                    _ => None,
                }
            } else {
                None
            }
        },
    }
}

/// True when the token at position `at` closes a pair of angle brackets: a
/// `>` that is not the head of an arrow.
pub open spec fn closes_angle(tokens: Seq<Token>, at: int) -> bool {
    tokens[at].punct('>') && !(at > 0 && tokens[at - 1].punct('-'))
}

/// Where the type that holds position `at` ends: the position of the first
/// comma at or after `at` that stands outside angle brackets, or the length
/// of `tokens` when there is none. `depth` counts the angle brackets that
/// are open at `at`. Commas inside groups do not count either.
pub open spec fn type_end(tokens: Seq<Token>, at: int, depth: nat) -> int
    decreases tokens.len() - at,
{
    if at < 0 || at >= tokens.len() {
        tokens.len() as int
    } else if depth == 0 && tokens[at].punct(',') {
        at
    } else if tokens[at].punct('<') {
        type_end(tokens, at + 1, depth + 1)
    } else if depth > 0 && closes_angle(tokens, at) {
        type_end(tokens, at + 1, (depth - 1) as nat)
    } else {
        type_end(tokens, at + 1, depth)
    }
}

/// Finds the end of the type that starts at position `from`.
pub fn find_type_end(tokens: &Vec<Token>, from: usize) -> (end: usize)
    ensures
        end as int == type_end(tokens@, from as int, 0),
        from <= end || end == tokens@.len(),
        end <= tokens@.len(),
{
    let n: usize = tokens.len();
    if from >= n {
        return n;
    }
    let mut at: usize = from;
    let mut depth: usize = 0;
    while at < n
        invariant
            n == tokens@.len(),
            from <= at <= n,
            depth <= at - from,
            type_end(tokens@, from as int, 0) == type_end(tokens@, at as int, depth as nat),
        decreases n - at,
    {
        if depth == 0 && tokens[at].is_punct(',') {
            return at;
        }
        if tokens[at].is_punct('<') {
            depth = depth + 1;
        } else if depth > 0 && tokens[at].is_punct('>') && !(at > 0 && tokens[at - 1].is_punct(
            '-',
        )) {
            depth = depth - 1;
        }
        at = at + 1;
    }
    n
}

/// The bracket that opens a group.
pub open spec fn opening(d: Delimiter) -> char {
    match d {
        Delimiter::Parenthesis => '(',
        Delimiter::Brace => '{',
        Delimiter::Bracket => '[',
    }
}

/// The bracket that closes a group.
pub open spec fn closing(d: Delimiter) -> char {
    match d {
        Delimiter::Parenthesis => ')',
        Delimiter::Brace => '}',
        Delimiter::Bracket => ']',
    }
}

/// The source text of a run of tokens: each token's text in order, a space
/// behind every token but a joint punctuation character, and a group as its
/// brackets around the text of its tokens.
pub open spec fn tokens_text(tokens: Seq<Token>) -> Seq<char>
    decreases tokens,
{
    if tokens.len() == 0 {
        Seq::empty()
    } else {
        tokens_text(tokens.drop_last()) + (match tokens.last() {
            Token::Ident { text, identifier, literal } => text@ + seq![' '],
            Token::Literal { text, negatable } => text@ + seq![' '],
            Token::Punct(c) => seq![c, ' '],
            Token::Joint(c) => seq![c],
            Token::Group(d, inner) => seq![opening(d)] + tokens_text(inner@) + seq![
                closing(d),
                ' ',
            ],
        })
    }
}

/// How deeply the groups of a run of tokens are nested: `0` for tokens
/// without a group.
pub open spec fn nesting(tokens: Seq<Token>) -> nat
    decreases tokens,
{
    if tokens.len() == 0 {
        0
    } else {
        let before = nesting(tokens.drop_last());
        let last: nat = match tokens.last() {
            Token::Group(d, inner) => 1 + nesting(inner@),
            _ => 0,
        };
        if before >= last {
            before
        } else {
            last
        }
    }
}

/// A run is nested at least as deeply as each of its beginnings.
pub proof fn lemma_nesting_of_beginning(tokens: Seq<Token>, len: int)
    requires
        0 <= len <= tokens.len(),
    ensures
        nesting(tokens.take(len)) <= nesting(tokens),
    decreases tokens.len() - len,
{
    if len == tokens.len() {
        assert(tokens.take(len) =~= tokens);
    } else {
        lemma_nesting_of_beginning(tokens, len + 1);
        assert(tokens.take(len + 1).drop_last() =~= tokens.take(len));
    }
}

/// `String::push` of the standard library: appends one character.
#[verifier::external_body]
fn push_char(text: &mut String, c: char)
    ensures
        final(text)@ == old(text)@.push(c),
{
    text.push(c)
}

/// Appends the source text of the tokens from `from` up to `to`, unless they
/// are nested more deeply than `depth`: then it gives up and says so.
fn render_into(tokens: &Vec<Token>, from: usize, to: usize, out: &mut String, depth: usize) -> (done:
    bool)
    requires
        from <= to <= tokens@.len(),
    ensures
        done == (nesting(tokens@.subrange(from as int, to as int)) <= depth),
        done ==> final(out)@ == old(out)@ + tokens_text(
            tokens@.subrange(from as int, to as int),
        ),
    decreases depth,
{
    let ghost start = out@;
    let ghost whole = tokens@.subrange(from as int, to as int);
    let mut i: usize = from;
    assert(tokens@.subrange(from as int, from as int) =~= Seq::<Token>::empty());
    assert(out@ =~= start + tokens_text(tokens@.subrange(from as int, from as int)));
    while i < to
        invariant
            from <= i <= to <= tokens@.len(),
            whole == tokens@.subrange(from as int, to as int),
            out@ == start + tokens_text(tokens@.subrange(from as int, i as int)),
            nesting(tokens@.subrange(from as int, i as int)) <= depth,
        decreases to - i,
    {
        let ghost before = out@;
        let ghost run = tokens@.subrange(from as int, i as int + 1);
        proof {
            assert(run.drop_last() =~= tokens@.subrange(from as int, i as int));
            assert(run.last() == tokens@[i as int]);
            assert(whole.take(i as int + 1 - from as int) =~= run);
            lemma_nesting_of_beginning(whole, i as int + 1 - from as int);
        }
        match &tokens[i] {
            Token::Ident { text, identifier, literal } => {
                out.append(text.as_str());
                push_char(out, ' ');
                assert(out@ =~= before + (text@ + seq![' ']));
            },
            Token::Literal { text, negatable } => {
                out.append(text.as_str());
                push_char(out, ' ');
                assert(out@ =~= before + (text@ + seq![' ']));
            },
            Token::Punct(c) => {
                push_char(out, *c);
                push_char(out, ' ');
                assert(out@ =~= before + seq![*c, ' ']);
            },
            Token::Joint(c) => {
                push_char(out, *c);
                assert(out@ =~= before + seq![*c]);
            },
            Token::Group(d, inner) => {
                if depth == 0 {
                    return false;
                }
                let open: char = match d {
                    Delimiter::Parenthesis => '(',
                    Delimiter::Brace => '{',
                    Delimiter::Bracket => '[',
                };
                let close: char = match d {
                    Delimiter::Parenthesis => ')',
                    Delimiter::Brace => '}',
                    Delimiter::Bracket => ']',
                };
                push_char(out, open);
                assert(inner@.subrange(0, inner@.len() as int) =~= inner@);
                let inside = render_into(inner, 0, inner.len(), out, depth - 1);
                if !inside {
                    return false;
                }
                push_char(out, close);
                push_char(out, ' ');
                assert(out@ =~= before + (seq![opening(*d)] + tokens_text(inner@) + seq![
                    closing(*d),
                    ' ',
                ]));
            },
        }
        assert(out@ =~= start + tokens_text(run));
        i = i + 1;
    }
    true
}

/// The source text of the tokens from `from` up to `to`, or nothing for
/// tokens that are nested more deeply than a text of [`TEXT_LIMIT`]
/// characters can be.
pub fn render(tokens: &Vec<Token>, from: usize, to: usize) -> (text: Option<String>)
    requires
        from <= to <= tokens@.len(),
    ensures
        match text {
            Some(t) => t@ == tokens_text(tokens@.subrange(from as int, to as int)),
            None => nesting(tokens@.subrange(from as int, to as int)) > TEXT_LIMIT,
        },
{
    let mut text = String::new();
    if render_into(tokens, from, to, &mut text, TEXT_LIMIT) {
        assert(text@ =~= tokens_text(tokens@.subrange(from as int, to as int)));
        Some(text)
    } else {
        None
    }
}

/// `syn::parse_str` for `syn::Type`: whether the call succeeds, which is
/// when the parser reads the text as one type. Nothing is claimed of the
/// answer, and the text is short, as for identifiers.
#[verifier::external_body]
fn parses_as_type(text: &str) -> (yes: bool)
    requires
        text@.len() <= TEXT_LIMIT,
{
    syn::parse_str::<syn::Type>(text).is_ok()
}

/// `syn::parse_str` for `syn::Expr`: whether the call succeeds, which is
/// when the parser reads the text as one expression. Nothing is claimed of
/// the answer, and the text is short, as for identifiers.
#[verifier::external_body]
fn parses_as_expression(text: &str) -> (yes: bool)
    requires
        text@.len() <= TEXT_LIMIT,
{
    syn::parse_str::<syn::Expr>(text).is_ok()
}

/// Asks `syn` whether the tokens from `from` up to `to` are one type. A run
/// whose text is too long to be handed over, or that is nested too deeply,
/// counts as none.
pub(crate) fn is_type(tokens: &Vec<Token>, from: usize, to: usize) -> (yes: bool)
    requires
        from <= to <= tokens@.len(),
    ensures
        yes ==> fits(tokens_text(tokens@.subrange(from as int, to as int))),
{
    match render(tokens, from, to) {
        Some(text) => text_fits(text.as_str()) && parses_as_type(text.as_str()),
        None => false,
    }
}

/// Asks `syn` whether the tokens are one expression. Tokens whose text is
/// too long to be handed over, or that are nested too deeply, count as none.
pub(crate) fn is_expression(tokens: &Vec<Token>) -> (yes: bool)
    ensures
        yes ==> fits(tokens_text(tokens@)),
{
    assert(tokens@.subrange(0, tokens@.len() as int) =~= tokens@);
    match render(tokens, 0, tokens.len()) {
        Some(text) => text_fits(text.as_str()) && parses_as_expression(text.as_str()),
        None => false,
    }
}

} // verus!
