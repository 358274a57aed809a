use delegation::extract::select_methods;
use delegation::locate::find_contract;
use delegation::model::{
    ContractDefinition, ContractItem, DelegationClause, GenError, ImplBlock, ImplContract,
    MethodSignature, ParamPattern, SourceItem, SourceScope,
};
use delegation::parse::{parse_clauses, parse_structure, screen_clauses};
use delegation::synth::{delegate, expand};
use delegation::token::{render, Token};

fn id(s: &str) -> Token {
    Token::Ident(s.to_string())
}

fn other(s: &str) -> Token {
    Token::Other(s.to_string())
}

/// `fn a(&self)`
fn sig_a() -> MethodSignature {
    MethodSignature {
        name: "a".to_string(),
        tokens: vec![
            id("fn"),
            id("a"),
            Token::OpenParen,
            other("&"),
            id("self"),
            Token::CloseParen,
        ],
        params: vec![],
    }
}

/// `fn b(&self, x: u32)`
fn sig_b() -> MethodSignature {
    MethodSignature {
        name: "b".to_string(),
        tokens: vec![
            id("fn"),
            id("b"),
            Token::OpenParen,
            other("&"),
            id("self"),
            Token::Comma,
            id("x"),
            other(":"),
            id("u32"),
            Token::CloseParen,
        ],
        params: vec![ParamPattern::Plain("x".to_string())],
    }
}

fn greeter_contract() -> ContractDefinition {
    ContractDefinition {
        name: "Greeter".to_string(),
        items: vec![ContractItem::Method(sig_a()), ContractItem::Method(sig_b())],
    }
}

fn greeter_scope() -> SourceScope {
    SourceScope {
        items: vec![SourceItem::Other, SourceItem::Contract(greeter_contract())],
    }
}

fn greeter_block(body: Vec<Token>) -> ImplBlock {
    ImplBlock {
        contract: Some(ImplContract {
            path: vec![id("Greeter")],
            name: "Greeter".to_string(),
        }),
        self_ty: vec![id("Wrapper")],
        body,
    }
}

/// The expected forwarding method for `a`, delegating to `target`.
fn forwarded_a(target: &str) -> Vec<Token> {
    let mut out = sig_a().tokens;
    out.extend(vec![
        Token::OpenBrace,
        id(target),
        Token::Dot,
        id("a"),
        Token::OpenParen,
        Token::CloseParen,
        Token::CloseBrace,
    ]);
    out
}

/// The expected forwarding method for `b`, delegating to `target`.
fn forwarded_b(target: &str) -> Vec<Token> {
    let mut out = sig_b().tokens;
    out.extend(vec![
        Token::OpenBrace,
        id(target),
        Token::Dot,
        id("b"),
        Token::OpenParen,
        id("x"),
        Token::CloseParen,
        Token::CloseBrace,
    ]);
    out
}

fn expected_block(body: Vec<Token>, generated: Vec<Token>) -> Vec<Token> {
    let mut out = vec![Token::ImplKw, id("Greeter"), Token::ForKw, id("Wrapper"), Token::OpenBrace];
    out.extend(body);
    out.extend(generated);
    out.push(Token::CloseBrace);
    out
}

#[test]
fn use_without_for_delegates_every_method_in_order() {
    let args = vec![Token::UseKw, id("target")];
    let r = delegate(&args, &greeter_block(vec![]), &greeter_scope());
    let mut generated = forwarded_a("target");
    generated.extend(forwarded_b("target"));
    assert_eq!(r, Ok(expected_block(vec![], generated)));
}

#[test]
fn use_for_one_name_delegates_only_that_method() {
    let args = vec![Token::UseKw, id("target"), Token::ForKw, id("a")];
    let r = delegate(&args, &greeter_block(vec![]), &greeter_scope());
    assert_eq!(r, Ok(expected_block(vec![], forwarded_a("target"))));
}

#[test]
fn use_for_unknown_name_generates_nothing_without_error() {
    let args = vec![Token::UseKw, id("target"), Token::ForKw, id("c")];
    let r = delegate(&args, &greeter_block(vec![]), &greeter_scope());
    assert_eq!(r, Ok(expected_block(vec![], vec![])));
}

#[test]
fn two_clauses_generate_in_clause_order() {
    let args = vec![
        Token::UseKw,
        id("x"),
        Token::ForKw,
        id("a"),
        Token::Semi,
        Token::UseKw,
        id("y"),
        Token::ForKw,
        id("b"),
    ];
    let r = delegate(&args, &greeter_block(vec![]), &greeter_scope());
    let mut generated = forwarded_a("x");
    generated.extend(forwarded_b("y"));
    assert_eq!(r, Ok(expected_block(vec![], generated)));
}

#[test]
fn hand_written_members_stand_unchanged_before_generated_ones() {
    let body = vec![
        id("fn"),
        id("a"),
        Token::OpenParen,
        other("&"),
        id("self"),
        Token::CloseParen,
        Token::OpenBrace,
        Token::CloseBrace,
    ];
    let args = vec![Token::UseKw, id("target"), Token::ForKw, id("b")];
    let r = delegate(&args, &greeter_block(body.clone()), &greeter_scope());
    assert_eq!(r, Ok(expected_block(body, forwarded_b("target"))));
}

#[test]
fn forwarding_preserves_parameter_order_and_identifiers() {
    let contract = ContractDefinition {
        name: "Pair".to_string(),
        items: vec![ContractItem::Method(MethodSignature {
            name: "m".to_string(),
            tokens: vec![id("fn"), id("m"), Token::OpenParen, id("p"), Token::Comma, id("q"), Token::CloseParen],
            params: vec![
                ParamPattern::Plain("p".to_string()),
                ParamPattern::Complex,
                ParamPattern::Plain("q".to_string()),
            ],
        })],
    };
    let scope = SourceScope { items: vec![SourceItem::Contract(contract)] };
    let block = ImplBlock {
        contract: Some(ImplContract { path: vec![id("Pair")], name: "Pair".to_string() }),
        self_ty: vec![id("W")],
        body: vec![],
    };
    let args = vec![Token::UseKw, id("inner")];
    let r = delegate(&args, &block, &scope).unwrap();
    let call: Vec<Token> = vec![
        Token::OpenBrace,
        id("inner"),
        Token::Dot,
        id("m"),
        Token::OpenParen,
        id("p"),
        Token::Comma,
        id("q"),
        Token::CloseParen,
        Token::CloseBrace,
    ];
    let pos = r
        .windows(call.len())
        .position(|w| w == call.as_slice())
        .expect("forwarding call with p before q not found");
    assert!(pos > 0);
}

#[test]
fn missing_contract_declaration_is_fatal() {
    let block = ImplBlock { contract: None, self_ty: vec![id("Wrapper")], body: vec![] };
    let args = vec![Token::UseKw, id("target")];
    let r = delegate(&args, &block, &greeter_scope());
    assert_eq!(r, Err(GenError::MissingContract));
}

#[test]
fn clause_not_starting_with_use_is_malformed() {
    let args = vec![id("target")];
    let r = delegate(&args, &greeter_block(vec![]), &greeter_scope());
    assert_eq!(r, Err(GenError::MalformedClause));
}

#[test]
fn empty_target_expression_is_malformed() {
    let args = vec![Token::UseKw, Token::ForKw, id("a")];
    let r = delegate(&args, &greeter_block(vec![]), &greeter_scope());
    assert_eq!(r, Err(GenError::MalformedClause));
}

#[test]
fn syntactically_invalid_target_expression_is_malformed() {
    let args = vec![Token::UseKw, other("]["), id("target")];
    let r = delegate(&args, &greeter_block(vec![]), &greeter_scope());
    assert_eq!(r, Err(GenError::MalformedClause));
}

#[test]
fn field_access_target_expression_is_accepted() {
    let args = vec![Token::UseKw, id("self"), Token::Dot, id("inner")];
    let r = delegate(&args, &greeter_block(vec![]), &greeter_scope());
    let mut generated = sig_a().tokens;
    generated.extend(vec![
        Token::OpenBrace,
        id("self"),
        Token::Dot,
        id("inner"),
        Token::Dot,
        id("a"),
        Token::OpenParen,
        Token::CloseParen,
        Token::CloseBrace,
    ]);
    let mut b = sig_b().tokens;
    b.extend(vec![
        Token::OpenBrace,
        id("self"),
        Token::Dot,
        id("inner"),
        Token::Dot,
        id("b"),
        Token::OpenParen,
        id("x"),
        Token::CloseParen,
        Token::CloseBrace,
    ]);
    generated.extend(b);
    assert_eq!(r, Ok(expected_block(vec![], generated)));
}

#[test]
fn block_target_keeps_inner_semicolon_in_one_clause() {
    let target = vec![Token::OpenBrace, id("x"), Token::Semi, id("x"), Token::CloseBrace];
    let mut args = vec![Token::UseKw];
    args.extend(target.clone());
    args.extend(vec![Token::ForKw, id("a")]);
    let r = delegate(&args, &greeter_block(vec![]), &greeter_scope());
    let mut generated = sig_a().tokens;
    generated.push(Token::OpenBrace);
    generated.extend(target);
    generated.extend(vec![
        Token::Dot,
        id("a"),
        Token::OpenParen,
        Token::CloseParen,
        Token::CloseBrace,
    ]);
    assert_eq!(r, Ok(expected_block(vec![], generated)));
}

#[test]
fn parenthesized_loop_target_keeps_inner_for_keyword() {
    let target = vec![
        Token::OpenParen,
        Token::ForKw,
        id("i"),
        id("in"),
        id("it"),
        Token::OpenBrace,
        Token::CloseBrace,
        Token::CloseParen,
    ];
    let mut args = vec![Token::UseKw];
    args.extend(target.clone());
    args.extend(vec![Token::ForKw, id("a")]);
    let r = delegate(&args, &greeter_block(vec![]), &greeter_scope());
    let mut generated = sig_a().tokens;
    generated.push(Token::OpenBrace);
    generated.extend(target);
    generated.extend(vec![
        Token::Dot,
        id("a"),
        Token::OpenParen,
        Token::CloseParen,
        Token::CloseBrace,
    ]);
    assert_eq!(r, Ok(expected_block(vec![], generated)));
}

#[test]
fn indexed_target_with_brackets_is_accepted() {
    let args = vec![
        Token::UseKw,
        id("m"),
        Token::OpenBracket,
        id("k"),
        Token::CloseBracket,
        Token::ForKw,
        id("a"),
    ];
    let r = delegate(&args, &greeter_block(vec![]), &greeter_scope());
    let mut generated = sig_a().tokens;
    generated.extend(vec![
        Token::OpenBrace,
        id("m"),
        Token::OpenBracket,
        id("k"),
        Token::CloseBracket,
        Token::Dot,
        id("a"),
        Token::OpenParen,
        Token::CloseParen,
        Token::CloseBrace,
    ]);
    assert_eq!(r, Ok(expected_block(vec![], generated)));
}

#[test]
fn contract_not_found_generates_nothing_without_error() {
    let scope = SourceScope { items: vec![SourceItem::Other] };
    let args = vec![Token::UseKw, id("target")];
    let r = delegate(&args, &greeter_block(vec![]), &scope);
    assert_eq!(r, Ok(expected_block(vec![], vec![])));
}

#[test]
fn first_contract_with_matching_name_wins() {
    let first = ContractDefinition {
        name: "Greeter".to_string(),
        items: vec![ContractItem::Method(sig_a())],
    };
    let scope = SourceScope {
        items: vec![
            SourceItem::Contract(first),
            SourceItem::Contract(greeter_contract()),
        ],
    };
    let args = vec![Token::UseKw, id("target")];
    let r = delegate(&args, &greeter_block(vec![]), &scope);
    assert_eq!(r, Ok(expected_block(vec![], forwarded_a("target"))));
}

#[test]
fn empty_clause_list_emits_the_block_unchanged() {
    let args = vec![];
    let body = vec![id("fn"), id("z"), Token::OpenParen, Token::CloseParen, Token::OpenBrace, Token::CloseBrace];
    let r = delegate(&args, &greeter_block(body.clone()), &greeter_scope());
    assert_eq!(r, Ok(expected_block(body, vec![])));
}

#[test]
fn trailing_separator_is_allowed() {
    let args = vec![Token::UseKw, id("target"), Token::ForKw, id("a"), Token::Semi];
    let r = delegate(&args, &greeter_block(vec![]), &greeter_scope());
    assert_eq!(r, Ok(expected_block(vec![], forwarded_a("target"))));
}

#[test]
fn for_without_names_delegates_every_method() {
    let args = vec![Token::UseKw, id("target"), Token::ForKw];
    let r = delegate(&args, &greeter_block(vec![]), &greeter_scope());
    let mut generated = forwarded_a("target");
    generated.extend(forwarded_b("target"));
    assert_eq!(r, Ok(expected_block(vec![], generated)));
}

#[test]
fn trailing_comma_sets_the_name_list_aside() {
    let args = vec![Token::UseKw, id("target"), Token::ForKw, id("a"), Token::Comma];
    let r = delegate(&args, &greeter_block(vec![]), &greeter_scope());
    let mut generated = forwarded_a("target");
    generated.extend(forwarded_b("target"));
    assert_eq!(r, Ok(expected_block(vec![], generated)));
}

#[test]
fn garbage_after_for_is_malformed() {
    let args = vec![Token::UseKw, id("target"), Token::ForKw, other("42")];
    let r = delegate(&args, &greeter_block(vec![]), &greeter_scope());
    assert_eq!(r, Err(GenError::MalformedClause));
}

#[test]
fn structure_is_read_before_the_expression_check() {
    let args = vec![Token::UseKw, other("][")];
    let structural = parse_structure(&args).unwrap();
    assert_eq!(structural.len(), 1);
    assert_eq!(structural[0].target, vec![other("][")]);
    assert!(matches!(parse_clauses(&args), Err(GenError::MalformedClause)));
}

#[test]
fn screening_fixes_the_result_for_every_verdict() {
    let clause = || DelegationClause { target: vec![id("t")], names: None };
    let accepted = screen_clauses(vec![clause()], &vec![true]).unwrap();
    assert_eq!(accepted[0].target, vec![id("t")]);
    assert!(matches!(
        screen_clauses(vec![clause(), clause()], &vec![true, false]),
        Err(GenError::MalformedClause)
    ));
}

#[test]
fn expand_always_succeeds_on_a_block_that_names_a_contract() {
    let clauses = vec![DelegationClause { target: vec![id("t")], names: None }];
    let r = expand(&greeter_block(vec![]), &greeter_scope(), &clauses);
    let mut generated = forwarded_a("t");
    generated.extend(forwarded_b("t"));
    assert_eq!(r, Ok(expected_block(vec![], generated)));
    let bare = ImplBlock { contract: None, self_ty: vec![id("W")], body: vec![] };
    assert_eq!(
        expand(&bare, &greeter_scope(), &clauses),
        Err(GenError::MissingContract)
    );
}

#[test]
fn non_method_contract_members_are_ignored() {
    let contract = ContractDefinition {
        name: "Greeter".to_string(),
        items: vec![
            ContractItem::Other,
            ContractItem::Method(sig_a()),
            ContractItem::Other,
        ],
    };
    let scope = SourceScope { items: vec![SourceItem::Contract(contract)] };
    let args = vec![Token::UseKw, id("target")];
    let r = delegate(&args, &greeter_block(vec![]), &scope);
    assert_eq!(r, Ok(expected_block(vec![], forwarded_a("target"))));
}

#[test]
fn duplicate_delegations_are_passed_through_unvalidated() {
    let args = vec![
        Token::UseKw,
        id("x"),
        Token::ForKw,
        id("a"),
        Token::Semi,
        Token::UseKw,
        id("y"),
        Token::ForKw,
        id("a"),
    ];
    let r = delegate(&args, &greeter_block(vec![]), &greeter_scope());
    let mut generated = forwarded_a("x");
    generated.extend(forwarded_a("y"));
    assert_eq!(r, Ok(expected_block(vec![], generated)));
}

#[test]
fn parse_clauses_keeps_clause_order_and_names() {
    let args = vec![
        Token::UseKw,
        id("x"),
        Token::Semi,
        Token::UseKw,
        id("y"),
        Token::ForKw,
        id("a"),
        Token::Comma,
        id("b"),
    ];
    let clauses: Vec<DelegationClause> = parse_clauses(&args).unwrap();
    assert_eq!(clauses.len(), 2);
    assert_eq!(clauses[0].target, vec![id("x")]);
    assert!(clauses[0].names.is_none());
    assert_eq!(clauses[1].target, vec![id("y")]);
    assert_eq!(
        clauses[1].names,
        Some(vec!["a".to_string(), "b".to_string()])
    );
}

#[test]
fn explicit_empty_name_list_selects_every_method() {
    let contract = greeter_contract();
    let clause = DelegationClause { target: vec![id("t")], names: Some(vec![]) };
    let selected = select_methods(&contract, &clause);
    let names: Vec<&str> = selected.iter().map(|m| m.name.as_str()).collect();
    assert_eq!(names, vec!["a", "b"]);
}

#[test]
fn selection_keeps_contract_declaration_order_not_clause_order() {
    let contract = greeter_contract();
    let clause = DelegationClause {
        target: vec![id("t")],
        names: Some(vec!["b".to_string(), "a".to_string()]),
    };
    let selected = select_methods(&contract, &clause);
    let names: Vec<&str> = selected.iter().map(|m| m.name.as_str()).collect();
    assert_eq!(names, vec!["a", "b"]);
}

#[test]
fn find_contract_skips_other_items() {
    let scope = greeter_scope();
    let found = find_contract(&scope, &"Greeter".to_string());
    assert_eq!(found.map(|c| c.name.as_str()), Some("Greeter"));
    assert!(find_contract(&scope, &"Absent".to_string()).is_none());
}

#[test]
fn render_joins_tokens_with_single_spaces() {
    let ts = vec![id("self"), Token::Dot, id("inner"), Token::OpenParen, Token::CloseParen];
    assert_eq!(render(&ts), "self . inner ( ) ");
}
