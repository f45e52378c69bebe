use rusty_uevr::generator::emit::{define_object, define_object_with, plan, slot_name, Fragment};
use rusty_uevr::generator::input::{
    FunctionsInput, IdentOrExpr, ObjectInput, ParseError, Span, Verdict,
};
use rusty_uevr::generator::token::{
    find_type_end, read_literal, render, text_fits, Delimiter, Token, TEXT_LIMIT,
};

fn ident(word: &str) -> Token {
    Token::word(String::from(word))
}

fn text(literal: &str) -> Token {
    Token::literal(String::from(literal))
}

fn number(literal: &str) -> Token {
    Token::literal(String::from(literal))
}

fn comma() -> Token {
    Token::Punct(',')
}

fn at() -> Token {
    Token::Punct('@')
}

fn parens(inner: Vec<Token>) -> Token {
    Token::Group(Delimiter::Parenthesis, inner)
}

fn brackets(inner: Vec<Token>) -> Token {
    Token::Group(Delimiter::Bracket, inner)
}

fn section(name: &str, inner: Vec<Token>) -> Vec<Token> {
    vec![comma(), at(), ident(name), parens(inner)]
}

fn functions(handle: &str, table: &str, field: Token) -> Vec<Token> {
    section("functions", vec![ident(handle), comma(), ident(table), comma(), field])
}

fn bare(object: &str) -> ObjectInput {
    ObjectInput {
        object: String::from(object),
        name: None,
        functions: None,
        class: None,
        impls: Vec::new(),
    }
}

fn strings(words: &[&str]) -> Vec<String> {
    words.iter().map(|w| String::from(*w)).collect()
}

/// The description of the object handle, as its declaration is written.
fn object_declaration() -> Vec<Token> {
    let mut tokens = vec![ident("UObject"), comma(), text("\"Object\"")];
    tokens.extend(functions("UEVR_UObjectHandle", "UEVR_UObjectFunctions", ident("uobject")));
    tokens.extend(section("class", vec![text("\"Class /Script/CoreUObject.Object\"")]));
    tokens.extend(section("impls", vec![ident("RUObject")]));
    tokens
}

#[test]
fn name_alone_is_a_description() {
    assert_eq!(ObjectInput::parse(&vec![ident("UEnum")]), Ok(bare("UEnum")));
}

#[test]
fn trailing_comma_is_allowed() {
    assert_eq!(ObjectInput::parse(&vec![ident("UEnum"), comma()]), Ok(bare("UEnum")));
    let tokens = vec![ident("UEnum"), comma(), text("\"Enum\""), comma()];
    let mut expected = bare("UEnum");
    expected.name = Some(String::from("\"Enum\""));
    assert_eq!(ObjectInput::parse(&tokens), Ok(expected));
}

#[test]
fn name_and_display_name() {
    let tokens = vec![ident("UEnum"), comma(), text("\"Enum\"")];
    let mut expected = bare("UEnum");
    expected.name = Some(String::from("\"Enum\""));
    assert_eq!(ObjectInput::parse(&tokens), Ok(expected));
}

#[test]
fn display_name_and_capabilities() {
    let mut tokens = vec![ident("UEnum"), comma(), text("\"Enum\"")];
    tokens.extend(section("impls", vec![ident("RUObject")]));
    let mut expected = bare("UEnum");
    expected.name = Some(String::from("\"Enum\""));
    expected.impls = strings(&["RUObject"]);
    assert_eq!(ObjectInput::parse(&tokens), Ok(expected));
}

#[test]
fn function_table_alone() {
    let mut tokens = vec![ident("FField")];
    tokens.extend(functions("UEVR_FFieldHandle", "UEVR_FFieldFunctions", ident("ffield")));
    let mut expected = bare("FField");
    expected.functions = Some(FunctionsInput {
        section: 4,
        handle: Span { start: 0, end: 1 },
        functions: Span { start: 2, end: 3 },
        field: IdentOrExpr::Ident(String::from("ffield")),
    });
    assert_eq!(ObjectInput::parse(&tokens), Ok(expected));
}

#[test]
fn full_declaration_is_read() {
    let expected = ObjectInput {
        object: String::from("UObject"),
        name: Some(String::from("\"Object\"")),
        functions: Some(FunctionsInput {
            section: 6,
            handle: Span { start: 0, end: 1 },
            functions: Span { start: 2, end: 3 },
            field: IdentOrExpr::Ident(String::from("uobject")),
        }),
        class: Some(String::from("\"Class /Script/CoreUObject.Object\"")),
        impls: strings(&["RUObject"]),
    };
    assert_eq!(ObjectInput::parse(&object_declaration()), Ok(expected));
}

#[test]
fn capabilities_keep_their_order() {
    let mut tokens = vec![ident("UStruct")];
    tokens.extend(section(
        "impls",
        vec![ident("RUObject"), comma(), ident("RUField"), comma(), ident("RUStruct"), comma()],
    ));
    let mut expected = bare("UStruct");
    expected.impls = strings(&["RUObject", "RUField", "RUStruct"]);
    assert_eq!(ObjectInput::parse(&tokens), Ok(expected));
}

#[test]
fn table_source_may_be_an_expression() {
    let lookup = brackets(vec![
        parens(vec![Token::Punct('*'), ident("hook")]),
        Token::Punct('.'),
        ident("mc_state"),
    ]);
    let mut tokens = vec![ident("MotionControllerState"), comma(), text("\"MotionControllerState\"")];
    tokens.extend(functions("Handle", "Functions", lookup));
    let parsed = ObjectInput::parse(&tokens).unwrap();
    assert_eq!(
        parsed.functions,
        Some(FunctionsInput {
            section: 6,
            handle: Span { start: 0, end: 1 },
            functions: Span { start: 2, end: 3 },
            field: IdentOrExpr::Expr(4),
        })
    );
}

#[test]
fn types_are_runs_up_to_the_comma() {
    let group = vec![
        ident("bindings"),
        Token::Joint(':'),
        Token::Punct(':'),
        ident("Handle"),
        comma(),
        Token::Punct('*'),
        ident("mut"),
        ident("Table"),
        comma(),
        ident("field"),
        comma(),
    ];
    assert_eq!(
        FunctionsInput::parse(&group, 9),
        Ok((
            FunctionsInput {
                section: 9,
                handle: Span { start: 0, end: 4 },
                functions: Span { start: 5, end: 8 },
                field: IdentOrExpr::Ident(String::from("field")),
            },
            false
        ))
    );
}

#[test]
fn later_section_replaces_earlier() {
    let mut tokens = vec![ident("UWorld")];
    tokens.extend(section("class", vec![text("\"A\"")]));
    tokens.extend(section("class", vec![text("\"B\"")]));
    let mut expected = bare("UWorld");
    expected.class = Some(String::from("\"B\""));
    assert_eq!(ObjectInput::parse(&tokens), Ok(expected));
}

#[test]
fn unknown_section_is_passed_over() {
    let tokens = vec![ident("UWorld"), comma(), at(), ident("later"), comma()];
    assert_eq!(ObjectInput::parse(&tokens), Ok(bare("UWorld")));
}

#[test]
fn literal_may_be_a_truth_value_or_negative_number() {
    let tokens = vec![ident("A"), comma(), ident("true")];
    assert_eq!(ObjectInput::parse(&tokens).unwrap().name, Some(String::from("true")));
    let tokens = vec![ident("A"), comma(), Token::Punct('-'), number("5")];
    assert_eq!(ObjectInput::parse(&tokens).unwrap().name, Some(String::from("-5")));
    assert_eq!(read_literal(&vec![Token::Punct('-'), number("1.5")], 0), Some((String::from("-1.5"), 2)));
    assert_eq!(read_literal(&vec![Token::Punct('-'), text("\"x\"")], 0), None);
    assert_eq!(read_literal(&vec![text("'c'")], 0), Some((String::from("'c'"), 1)));
    assert_eq!(read_literal(&vec![ident("maybe")], 0), None);
    assert_eq!(read_literal(&vec![text("1")], 1), None);
}

#[test]
fn empty_input_expects_identifier() {
    assert_eq!(ObjectInput::parse(&Vec::new()), Err(ParseError::ExpectedIdentifier));
}

#[test]
fn keyword_is_no_name() {
    assert_eq!(ObjectInput::parse(&vec![ident("struct")]), Err(ParseError::ExpectedIdentifier));
    assert_eq!(ObjectInput::parse(&vec![ident("_")]), Err(ParseError::ExpectedIdentifier));
    assert_eq!(ObjectInput::parse(&vec![text("\"x\"")]), Err(ParseError::ExpectedIdentifier));
    assert_eq!(ident("while").as_ident(), None);
    assert_eq!(ident("Self").as_ident(), None);
    assert_eq!(ident("selfish").as_ident(), Some(&String::from("selfish")));
    assert_eq!(ident("r#struct").as_ident(), Some(&String::from("r#struct")));
}

#[test]
fn words_and_literals_carry_the_parsers_answers() {
    assert!(matches!(ident("UObject"), Token::Ident { identifier: true, literal: false, .. }));
    assert!(matches!(ident("fn"), Token::Ident { identifier: false, literal: false, .. }));
    assert!(matches!(ident("true"), Token::Ident { identifier: false, literal: true, .. }));
    assert!(matches!(ident("false"), Token::Ident { identifier: false, literal: true, .. }));
    assert!(matches!(text("\"Object\""), Token::Literal { negatable: false, .. }));
    assert!(matches!(text("'c'"), Token::Literal { negatable: false, .. }));
    assert!(matches!(number("5"), Token::Literal { negatable: true, .. }));
    assert!(matches!(number("1.5e3"), Token::Literal { negatable: true, .. }));
    assert!(matches!(number("0xffu8"), Token::Literal { negatable: true, .. }));
}

#[test]
fn reading_goes_by_the_answers_a_token_carries() {
    let word = |identifier: bool, literal: bool| Token::Ident {
        text: String::from("word"),
        identifier,
        literal,
    };
    assert_eq!(ObjectInput::parse(&vec![word(true, false)]), Ok(bare("word")));
    assert_eq!(ObjectInput::parse(&vec![word(false, false)]), Err(ParseError::ExpectedIdentifier));
    assert_eq!(read_literal(&vec![word(true, true)], 0), Some((String::from("word"), 1)));
    assert_eq!(read_literal(&vec![word(true, false)], 0), None);
    let minus = |negatable: bool| {
        vec![Token::Punct('-'), Token::Literal { text: String::from("7"), negatable }]
    };
    assert_eq!(read_literal(&minus(true), 0), Some((String::from("-7"), 2)));
    assert_eq!(read_literal(&minus(false), 0), None);
    assert_eq!(read_literal(&minus(false), 1), Some((String::from("7"), 1)));
}

#[test]
fn missing_comma_is_reported() {
    let tokens = vec![ident("A"), ident("B")];
    assert_eq!(ObjectInput::parse(&tokens), Err(ParseError::ExpectedComma));
    let tokens = vec![ident("A"), ident("B"), text("\"x\"")];
    assert_eq!(ObjectInput::parse(&tokens), Err(ParseError::ExpectedComma));
    let tokens = vec![ident("A"), comma(), text("\"x\""), text("\"y\"")];
    assert_eq!(ObjectInput::parse(&tokens), Err(ParseError::ExpectedComma));
}

#[test]
fn section_must_start_with_at() {
    let tokens = vec![ident("A"), comma(), ident("impls"), parens(vec![])];
    assert_eq!(ObjectInput::parse(&tokens), Err(ParseError::ExpectedAt));
}

#[test]
fn section_needs_a_name() {
    let tokens = vec![ident("A"), comma(), at()];
    assert_eq!(ObjectInput::parse(&tokens), Err(ParseError::ExpectedIdentifier));
    let tokens = vec![ident("A"), comma(), at(), text("\"x\"")];
    assert_eq!(ObjectInput::parse(&tokens), Err(ParseError::ExpectedIdentifier));
}

#[test]
fn known_section_needs_parentheses() {
    let tokens = vec![ident("A"), comma(), at(), ident("class")];
    assert_eq!(ObjectInput::parse(&tokens), Err(ParseError::ExpectedParentheses));
    let tokens = vec![ident("A"), comma(), at(), ident("impls"), brackets(vec![])];
    assert_eq!(ObjectInput::parse(&tokens), Err(ParseError::ExpectedParentheses));
}

#[test]
fn class_needs_a_literal() {
    let mut tokens = vec![ident("A")];
    tokens.extend(section("class", vec![ident("Object")]));
    assert_eq!(ObjectInput::parse(&tokens), Err(ParseError::ExpectedLiteral));
    let mut tokens = vec![ident("A")];
    tokens.extend(section("class", vec![]));
    assert_eq!(ObjectInput::parse(&tokens), Err(ParseError::ExpectedLiteral));
}

#[test]
fn functions_need_two_types_and_a_source() {
    assert_eq!(FunctionsInput::parse(&vec![], 0), Err(ParseError::ExpectedType));
    assert_eq!(FunctionsInput::parse(&vec![comma()], 0), Err(ParseError::ExpectedType));
    assert_eq!(FunctionsInput::parse(&vec![ident("H")], 0), Err(ParseError::ExpectedComma));
    assert_eq!(
        FunctionsInput::parse(&vec![ident("H"), comma()], 0),
        Err(ParseError::ExpectedType)
    );
    assert_eq!(
        FunctionsInput::parse(&vec![ident("H"), comma(), comma()], 0),
        Err(ParseError::ExpectedType)
    );
    assert_eq!(
        FunctionsInput::parse(&vec![ident("H"), comma(), ident("F")], 0),
        Err(ParseError::ExpectedComma)
    );
    assert_eq!(
        FunctionsInput::parse(&vec![ident("H"), comma(), ident("F"), comma()], 0),
        Err(ParseError::ExpectedIdentifier)
    );
    assert_eq!(
        FunctionsInput::parse(&vec![ident("H"), comma(), ident("F"), comma(), text("1")], 0),
        Err(ParseError::ExpectedIdentifier)
    );
}

#[test]
fn empty_brackets_hold_no_expression() {
    let group = vec![ident("H"), comma(), ident("F"), comma(), brackets(vec![])];
    assert_eq!(FunctionsInput::parse(&group, 0), Err(ParseError::ExpectedExpression));
    assert_eq!(IdentOrExpr::parse(&group, 4), Err(ParseError::ExpectedExpression));
    assert_eq!(IdentOrExpr::parse(&group, 5), Err(ParseError::ExpectedIdentifier));
    assert_eq!(IdentOrExpr::parse(&group, 0), Ok(IdentOrExpr::Ident(String::from("H"))));
}

#[test]
fn capabilities_are_identifiers_between_commas() {
    let mut tokens = vec![ident("A")];
    tokens.extend(section("impls", vec![ident("X"), ident("Y")]));
    assert_eq!(ObjectInput::parse(&tokens), Err(ParseError::ExpectedComma));
    let mut tokens = vec![ident("A")];
    tokens.extend(section("impls", vec![comma()]));
    assert_eq!(ObjectInput::parse(&tokens), Err(ParseError::ExpectedIdentifier));
    let mut tokens = vec![ident("A")];
    tokens.extend(section("impls", vec![]));
    assert_eq!(ObjectInput::parse(&tokens), Ok(bare("A")));
}

#[test]
fn tokens_left_in_a_section_are_unexpected() {
    let mut tokens = vec![ident("A")];
    tokens.extend(section("class", vec![text("\"x\""), text("\"y\"")]));
    assert_eq!(ObjectInput::parse(&tokens), Err(ParseError::UnexpectedToken));
    let mut tokens = vec![ident("A")];
    tokens.extend(section(
        "functions",
        vec![ident("H"), comma(), ident("F"), comma(), ident("f"), comma(), ident("g")],
    ));
    assert_eq!(ObjectInput::parse(&tokens), Err(ParseError::UnexpectedToken));
}

#[test]
fn earlier_error_wins_over_leftover_tokens() {
    let mut tokens = vec![ident("A")];
    tokens.extend(section("class", vec![text("\"x\""), text("\"y\"")]));
    tokens.push(ident("junk"));
    assert_eq!(ObjectInput::parse(&tokens), Err(ParseError::ExpectedComma));
}

#[test]
fn commas_inside_groups_do_not_count() {
    let tokens = vec![ident("a"), parens(vec![comma()]), comma(), ident("b")];
    assert_eq!(find_type_end(&tokens, 0), 2);
    assert_eq!(find_type_end(&tokens, 3), 4);
    assert_eq!(find_type_end(&tokens, 9), 4);
}

fn angle(open: bool) -> Token {
    Token::Punct(if open { '<' } else { '>' })
}

#[test]
fn commas_inside_angle_brackets_do_not_count() {
    // Foo<A, Bar<B, C>>, next
    let tokens = vec![
        ident("Foo"),
        angle(true),
        ident("A"),
        comma(),
        ident("Bar"),
        angle(true),
        ident("B"),
        comma(),
        ident("C"),
        angle(false),
        angle(false),
        comma(),
        ident("next"),
    ];
    assert_eq!(find_type_end(&tokens, 0), 11);
    assert_eq!(find_type_end(&tokens, 12), 13);
}

#[test]
fn arrow_closes_no_angle_bracket() {
    // Foo<fn() -> A, B>, next
    let tokens = vec![
        ident("Foo"),
        angle(true),
        ident("fn"),
        parens(vec![]),
        Token::Punct('-'),
        angle(false),
        ident("A"),
        comma(),
        ident("B"),
        angle(false),
        comma(),
        ident("next"),
    ];
    assert_eq!(find_type_end(&tokens, 0), 10);
}

#[test]
fn types_may_have_generic_arguments() {
    let group = vec![
        ident("Handle"),
        angle(true),
        ident("A"),
        comma(),
        ident("B"),
        angle(false),
        comma(),
        ident("Table"),
        angle(true),
        ident("C"),
        angle(false),
        comma(),
        ident("field"),
    ];
    assert_eq!(
        FunctionsInput::parse(&group, 4),
        Ok((
            FunctionsInput {
                section: 4,
                handle: Span { start: 0, end: 6 },
                functions: Span { start: 7, end: 11 },
                field: IdentOrExpr::Ident(String::from("field")),
            },
            false
        ))
    );
}

#[test]
fn unclosed_angle_bracket_leaves_no_comma() {
    let group = vec![ident("Handle"), angle(true), ident("A"), comma(), ident("B")];
    assert_eq!(FunctionsInput::parse(&group, 0), Err(ParseError::ExpectedType));
    let taken_for_a_type = Verdict { handle: true, functions: true, expression: true };
    assert_eq!(
        FunctionsInput::parse_with(&group, 0, taken_for_a_type),
        Err(ParseError::ExpectedComma)
    );
}

#[test]
fn slot_is_named_after_the_type() {
    assert_eq!(slot_name("UObject"), "__UObject_fns");
    assert_eq!(slot_name(""), "___fns");
}

#[test]
fn bare_type_generates_only_its_handle() {
    assert_eq!(
        define_object(&vec![ident("FNumericProperty")]),
        Ok(vec![Fragment::Handle { object: String::from("FNumericProperty") }])
    );
}

#[test]
fn full_declaration_generates_every_fragment_in_order() {
    let object = String::from("UObject");
    assert_eq!(
        define_object(&object_declaration()),
        Ok(vec![
            Fragment::Handle { object: object.clone() },
            Fragment::InternalName { object: object.clone(), name: String::from("\"Object\"") },
            Fragment::FunctionTable {
                object: object.clone(),
                slot: String::from("__UObject_fns"),
                section: 6,
                handle: Span { start: 0, end: 1 },
                functions: Span { start: 2, end: 3 },
                source: IdentOrExpr::Ident(String::from("uobject")),
            },
            Fragment::StaticClass {
                object: object.clone(),
                class: String::from("\"Class /Script/CoreUObject.Object\""),
            },
            Fragment::Impls { object: object.clone(), capabilities: strings(&["RUObject"]) },
        ])
    );
}

#[test]
fn fragments_follow_the_description() {
    let mut input = bare("UWorld");
    input.class = Some(String::from("\"Class /Script/Engine.World\""));
    input.impls = strings(&["RUObject"]);
    assert_eq!(
        plan(input),
        vec![
            Fragment::Handle { object: String::from("UWorld") },
            Fragment::StaticClass {
                object: String::from("UWorld"),
                class: String::from("\"Class /Script/Engine.World\""),
            },
            Fragment::Impls { object: String::from("UWorld"), capabilities: strings(&["RUObject"]) },
        ]
    );
}

#[test]
fn nothing_is_generated_from_a_bad_description() {
    assert_eq!(define_object(&vec![ident("fn")]), Err(ParseError::ExpectedIdentifier));
    assert_eq!(define_object(&vec![ident("A"), at()]), Err(ParseError::ExpectedComma));
}

#[test]
fn only_short_texts_are_handed_to_the_parser() {
    assert_eq!(TEXT_LIMIT, 128);
    assert!(text_fits(""));
    assert!(text_fits(&"a".repeat(127)));
    assert!(!text_fits(&"a".repeat(128)));
    // The limit counts characters, not bytes.
    assert!(text_fits(&"\u{e9}".repeat(127)));
    let long = "x".repeat(127);
    assert_eq!(ident(&long).as_ident(), Some(&long));
}

#[test]
fn nested_brackets_in_a_short_text_are_no_identifier() {
    let nested = format!("{}{}", "(".repeat(63), ")".repeat(63));
    assert!(matches!(ident(&nested), Token::Ident { identifier: false, literal: false, .. }));
    assert!(matches!(text(&nested), Token::Literal { negatable: false, .. }));
}

fn all(yes: bool) -> Verdict {
    Verdict { handle: yes, functions: yes, expression: yes }
}

#[test]
fn text_of_tokens_is_their_source() {
    let tokens = vec![
        ident("bindings"),
        Token::Joint(':'),
        Token::Punct(':'),
        ident("Handle"),
        angle(true),
        brackets(vec![ident("u8"), Token::Punct(';'), number("4")]),
        angle(false),
    ];
    let source = |text: &str| Some(String::from(text));
    assert_eq!(render(&tokens, 0, 7), source("bindings :: Handle < [u8 ; 4 ] > "));
    assert_eq!(render(&tokens, 1, 3), source(":: "));
    assert_eq!(render(&tokens, 3, 3), source(""));
    assert_eq!(render(&vec![parens(vec![]), text("\"x\"")], 0, 2), source("() \"x\" "));
}

#[test]
fn what_is_no_type_is_refused() {
    // @functions(+, -, x)
    let group = vec![Token::Punct('+'), comma(), Token::Punct('-'), comma(), ident("x")];
    assert_eq!(FunctionsInput::parse(&group, 0), Err(ParseError::ExpectedType));
    let mut tokens = vec![ident("A"), comma(), at(), ident("functions"), parens(group)];
    assert_eq!(ObjectInput::parse(&tokens), Err(ParseError::ExpectedType));
    assert_eq!(define_object(&tokens), Err(ParseError::ExpectedType));
    tokens.push(ident("junk"));
    assert_eq!(define_object(&tokens), Err(ParseError::ExpectedType));
}

#[test]
fn second_type_is_asked_about_too() {
    let group = vec![ident("Handle"), comma(), ident("A"), ident("B"), comma(), ident("x")];
    assert_eq!(FunctionsInput::parse(&group, 0), Err(ParseError::ExpectedType));
    let group = vec![ident("A"), ident("B"), comma(), ident("Table"), comma(), ident("x")];
    assert_eq!(FunctionsInput::parse(&group, 0), Err(ParseError::ExpectedType));
}

#[test]
fn types_of_many_shapes_are_accepted() {
    // *mut Handle, &'static [Table; 2], field
    let group = vec![
        Token::Punct('*'),
        ident("mut"),
        ident("Handle"),
        comma(),
        Token::Punct('&'),
        Token::Joint('\''),
        ident("static"),
        brackets(vec![ident("Table"), Token::Punct(';'), number("2")]),
        comma(),
        ident("field"),
    ];
    assert_eq!(
        FunctionsInput::parse(&group, 0),
        Ok((
            FunctionsInput {
                section: 0,
                handle: Span { start: 0, end: 3 },
                functions: Span { start: 4, end: 8 },
                field: IdentOrExpr::Ident(String::from("field")),
            },
            false
        ))
    );
}

#[test]
fn what_is_no_expression_is_refused() {
    let field = brackets(vec![Token::Punct('+')]);
    let group = vec![ident("H"), comma(), ident("F"), comma(), field];
    assert_eq!(FunctionsInput::parse(&group, 0), Err(ParseError::ExpectedExpression));
    assert_eq!(IdentOrExpr::parse(&group, 4), Err(ParseError::ExpectedExpression));
    let field = brackets(vec![ident("a"), Token::Punct('/'), Token::Punct('*'), ident("b")]);
    let group = vec![ident("H"), comma(), ident("F"), comma(), field];
    assert_eq!(IdentOrExpr::parse(&group, 4), Ok(IdentOrExpr::Expr(4)));
}

#[test]
fn reading_goes_by_the_verdicts_it_is_given() {
    let group = vec![ident("H"), comma(), ident("F"), comma(), brackets(vec![ident("x")])];
    let read = FunctionsInput {
        section: 3,
        handle: Span { start: 0, end: 1 },
        functions: Span { start: 2, end: 3 },
        field: IdentOrExpr::Expr(4),
    };
    assert_eq!(FunctionsInput::parse_with(&group, 3, all(true)), Ok((read, false)));
    assert_eq!(
        FunctionsInput::parse_with(&group, 3, all(false)),
        Err(ParseError::ExpectedType)
    );
    assert_eq!(
        FunctionsInput::parse_with(
            &group,
            3,
            Verdict { handle: true, functions: false, expression: true }
        ),
        Err(ParseError::ExpectedType)
    );
    assert_eq!(
        FunctionsInput::parse_with(
            &group,
            3,
            Verdict { handle: true, functions: true, expression: false }
        ),
        Err(ParseError::ExpectedExpression)
    );
    assert_eq!(IdentOrExpr::parse_with(&group, 4, false), Err(ParseError::ExpectedExpression));
    assert_eq!(IdentOrExpr::parse_with(&group, 0, false), Ok(IdentOrExpr::Ident(String::from("H"))));
}

#[test]
fn description_is_read_by_the_verdict_at_its_group() {
    let mut tokens = vec![ident("FField")];
    tokens.extend(functions("Handle", "Table", ident("ffield")));
    let mut verdicts = vec![all(false); tokens.len()];
    assert_eq!(ObjectInput::parse_with(&tokens, &verdicts), Err(ParseError::ExpectedType));
    assert_eq!(define_object_with(&tokens, &verdicts), Err(ParseError::ExpectedType));
    verdicts[4] = all(true);
    assert!(ObjectInput::parse_with(&tokens, &verdicts).is_ok());
    assert_eq!(define_object_with(&tokens, &verdicts), define_object(&tokens));
}

#[test]
fn type_too_long_to_ask_about_is_refused() {
    let long = "x".repeat(126);
    let group = vec![ident(&long), comma(), ident("F"), comma(), ident("f")];
    assert!(FunctionsInput::parse(&group, 0).is_ok());
    let longer = "x".repeat(127);
    let group = vec![ident(&longer), comma(), ident("F"), comma(), ident("f")];
    assert_eq!(FunctionsInput::parse(&group, 0), Err(ParseError::ExpectedType));
    let mut path = Vec::new();
    for _ in 0..40 {
        path.push(ident("seg"));
        path.push(Token::Joint(':'));
        path.push(Token::Punct(':'));
    }
    path.push(ident("Handle"));
    path.extend(vec![comma(), ident("F"), comma(), ident("f")]);
    assert_eq!(FunctionsInput::parse(&path, 0), Err(ParseError::ExpectedType));
}

fn nested(levels: usize) -> Token {
    let mut token = parens(vec![]);
    for _ in 1..levels {
        token = parens(vec![token]);
    }
    token
}

#[test]
fn tokens_nested_too_deeply_have_no_text() {
    assert!(render(&vec![nested(TEXT_LIMIT)], 0, 1).is_some());
    assert_eq!(render(&vec![nested(TEXT_LIMIT + 1)], 0, 1), None);
    assert_eq!(render(&vec![ident("a"), nested(TEXT_LIMIT + 1)], 0, 1), Some(String::from("a ")));
}

#[test]
fn deeply_nested_type_is_refused_unasked() {
    let group = vec![nested(1000), comma(), ident("F"), comma(), ident("f")];
    assert_eq!(FunctionsInput::parse(&group, 0), Err(ParseError::ExpectedType));
    let group = vec![ident("H"), comma(), ident("F"), comma(), brackets(vec![nested(1000)])];
    assert_eq!(FunctionsInput::parse(&group, 0), Err(ParseError::ExpectedExpression));
}

#[test]
fn longest_texts_are_parsed_at_their_deepest() {
    // A type of forty nested parentheses around a name.
    let mut handle = parens(vec![ident("A")]);
    for _ in 1..40 {
        handle = parens(vec![handle]);
    }
    let group = vec![handle, comma(), ident("F"), comma(), ident("f")];
    assert!(FunctionsInput::parse(&group, 0).is_ok());
    // An expression of a hundred and twenty negations.
    let mut lookup: Vec<Token> = (0..120).map(|_| Token::Joint('!')).collect();
    lookup.push(ident("x"));
    let group = vec![ident("H"), comma(), ident("F"), comma(), brackets(lookup)];
    assert_eq!(
        FunctionsInput::parse(&group, 0).map(|(read, _)| read.field),
        Ok(IdentOrExpr::Expr(4))
    );
    // A type of sixty references.
    let mut table: Vec<Token> = (0..60).map(|_| Token::Punct('&')).collect();
    table.push(ident("T"));
    let mut group = vec![ident("H"), comma()];
    group.extend(table);
    group.extend(vec![comma(), ident("f")]);
    assert!(FunctionsInput::parse(&group, 0).is_ok());
}
