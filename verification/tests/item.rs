use clickrs_core::item::{
    check_all_named, clone_attributes, separated_tokens, spell_attributes, AttrStyle, Attribute,
    FnArg, Pat, PatIdent, PatType, Signature,
};
use clickrs_core::token::{Delimiter, Spacing, TokenTree};

fn binding(name: &str) -> PatIdent {
    PatIdent { by_ref: false, mutable: false, ident: name.to_string(), subpattern: vec![] }
}

fn named(name: &str, ty: &str) -> FnArg {
    FnArg::Typed(PatType {
        attrs: vec![],
        pat: Pat::Ident(binding(name)),
        ty: vec![TokenTree::ident(ty)],
    })
}

fn receiver() -> FnArg {
    FnArg::Receiver(vec![TokenTree::punct('&'), TokenTree::ident("self")])
}

fn pattern() -> FnArg {
    FnArg::Typed(PatType {
        attrs: vec![],
        pat: Pat::Other(vec![TokenTree::ident("_")]),
        ty: vec![TokenTree::ident("u8")],
    })
}

fn attribute(style: AttrStyle, path: &[&str], tokens: Vec<TokenTree>) -> Attribute {
    Attribute {
        style,
        leading_colon: false,
        path: path.iter().map(|segment| segment.to_string()).collect(),
        tokens,
    }
}

#[test]
fn kinds_of_parameters_are_told_apart() {
    assert!(named("debug", "bool").is_named());
    assert!(!named("debug", "bool").is_receiver());
    assert!(receiver().is_receiver());
    assert!(!receiver().is_named());
    assert!(!pattern().is_named());
    assert!(!pattern().is_receiver());
}

#[test]
fn all_named_holds_of_identifier_parameters_only() {
    assert!(check_all_named(&vec![]));
    assert!(check_all_named(&vec![named("a", "u8"), named("b", "u8")]));
    assert!(!check_all_named(&vec![named("a", "u8"), pattern()]));
    assert!(!check_all_named(&vec![receiver(), named("a", "u8")]));
}

#[test]
fn identifier_pattern_is_spelled_part_by_part() {
    assert_eq!(binding("a").to_tokens(), vec![TokenTree::ident("a")]);
    let full = PatIdent {
        by_ref: true,
        mutable: true,
        ident: "a".to_string(),
        subpattern: vec![TokenTree::ident("_")],
    };
    assert_eq!(
        full.to_tokens(),
        vec![
            TokenTree::ident("ref"),
            TokenTree::ident("mut"),
            TokenTree::ident("a"),
            TokenTree::punct('@'),
            TokenTree::ident("_"),
        ]
    );
    let mutable =
        PatIdent { by_ref: false, mutable: true, ident: "a".to_string(), subpattern: vec![] };
    assert_eq!(mutable.to_tokens(), vec![TokenTree::ident("mut"), TokenTree::ident("a")]);
}

#[test]
fn parameter_is_attributes_pattern_colon_type() {
    assert_eq!(receiver().to_tokens(), vec![TokenTree::punct('&'), TokenTree::ident("self")]);
    assert_eq!(
        pattern().to_tokens(),
        vec![TokenTree::ident("_"), TokenTree::punct(':'), TokenTree::ident("u8")]
    );
    let documented = FnArg::Typed(PatType {
        attrs: vec![
            TokenTree::punct('#'),
            TokenTree::Group(Delimiter::Bracket, vec![TokenTree::ident("cold")]),
        ],
        pat: Pat::Ident(binding("speed")),
        ty: vec![
            TokenTree::ident("Option"),
            TokenTree::punct('<'),
            TokenTree::ident("u8"),
            TokenTree::punct('>'),
        ],
    });
    assert_eq!(
        documented.to_tokens(),
        vec![
            TokenTree::punct('#'),
            TokenTree::Group(Delimiter::Bracket, vec![TokenTree::ident("cold")]),
            TokenTree::ident("speed"),
            TokenTree::punct(':'),
            TokenTree::ident("Option"),
            TokenTree::punct('<'),
            TokenTree::ident("u8"),
            TokenTree::punct('>'),
        ]
    );
}

#[test]
fn parameters_have_a_comma_between_them_and_none_at_the_end() {
    assert_eq!(separated_tokens(&vec![]), vec![]);
    assert_eq!(
        separated_tokens(&vec![named("debug", "bool")]),
        vec![TokenTree::ident("debug"), TokenTree::punct(':'), TokenTree::ident("bool")]
    );
    assert_eq!(
        separated_tokens(&vec![named("debug", "bool"), receiver(), named("speed", "u64")]),
        vec![
            TokenTree::ident("debug"),
            TokenTree::punct(':'),
            TokenTree::ident("bool"),
            TokenTree::punct(','),
            TokenTree::punct('&'),
            TokenTree::ident("self"),
            TokenTree::punct(','),
            TokenTree::ident("speed"),
            TokenTree::punct(':'),
            TokenTree::ident("u64"),
        ]
    );
}

fn signature(inputs: Vec<FnArg>, trailing: Vec<TokenTree>) -> Signature {
    Signature {
        prefix: vec![TokenTree::ident("fn")],
        ident: "main".to_string(),
        generics: vec![],
        inputs,
        trailing,
        output: vec![],
    }
}

#[test]
fn parameter_list_ends_as_it_was_written() {
    let x = vec![TokenTree::ident("x"), TokenTree::punct(':'), TokenTree::ident("T")];
    let y = vec![TokenTree::ident("y"), TokenTree::punct(':'), TokenTree::ident("U")];
    let mut both = x.clone();
    both.push(TokenTree::punct(','));
    both.extend(y.clone());

    let plain = signature(vec![named("x", "T"), named("y", "U")], vec![]);
    assert_eq!(plain.to_tokens_as("f")[2], TokenTree::Group(Delimiter::Parenthesis, both.clone()));

    let mut with_comma = both.clone();
    with_comma.push(TokenTree::punct(','));
    let closed = signature(vec![named("x", "T"), named("y", "U")], vec![TokenTree::punct(',')]);
    assert_eq!(closed.to_tokens_as("f")[2], TokenTree::Group(Delimiter::Parenthesis, with_comma));

    let dots =
        vec![TokenTree::punct(','), TokenTree::joint('.'), TokenTree::joint('.'), TokenTree::punct('.')];
    let mut variadic_list = x.clone();
    variadic_list.extend(dots.clone());
    let variadic = signature(vec![named("x", "T")], dots);
    assert_eq!(
        variadic.to_tokens_as("f")[2],
        TokenTree::Group(Delimiter::Parenthesis, variadic_list)
    );

    let one = signature(vec![named("x", "T")], vec![]);
    assert_eq!(one.to_tokens_as("f")[2], TokenTree::Group(Delimiter::Parenthesis, x));
    assert_eq!(signature(vec![], vec![]).to_tokens_as("f")[2], TokenTree::unit());
}

#[test]
fn signature_is_spelled_under_the_given_name() {
    let sig = Signature {
        prefix: vec![TokenTree::ident("async"), TokenTree::ident("fn")],
        ident: "main".to_string(),
        generics: vec![TokenTree::punct('<'), TokenTree::ident("T"), TokenTree::punct('>')],
        inputs: vec![named("x", "T")],
        trailing: vec![],
        output: vec![
            TokenTree::Punct('-', Spacing::Joint),
            TokenTree::punct('>'),
            TokenTree::ident("T"),
        ],
    };
    assert_eq!(
        sig.to_tokens_as("__inner_main"),
        vec![
            TokenTree::ident("async"),
            TokenTree::ident("fn"),
            TokenTree::ident("__inner_main"),
            TokenTree::punct('<'),
            TokenTree::ident("T"),
            TokenTree::punct('>'),
            TokenTree::Group(
                Delimiter::Parenthesis,
                vec![TokenTree::ident("x"), TokenTree::punct(':'), TokenTree::ident("T")],
            ),
            TokenTree::Punct('-', Spacing::Joint),
            TokenTree::punct('>'),
            TokenTree::ident("T"),
        ]
    );
    assert_eq!(sig.ident, "main");
    assert_eq!(sig.to_tokens_as("main")[2], TokenTree::ident("main"));
}

#[test]
fn plain_signature_has_empty_parentheses() {
    assert_eq!(
        signature(vec![], vec![]).to_tokens_as("run"),
        vec![TokenTree::ident("fn"), TokenTree::ident("run"), TokenTree::unit()]
    );
}

#[test]
fn attribute_is_spelled_as_it_stood() {
    assert_eq!(
        attribute(AttrStyle::Outer, &["inline"], vec![]).to_tokens(),
        vec![
            TokenTree::punct('#'),
            TokenTree::Group(Delimiter::Bracket, vec![TokenTree::ident("inline")]),
        ]
    );
    let allow = attribute(
        AttrStyle::Inner,
        &["allow"],
        vec![TokenTree::Group(Delimiter::Parenthesis, vec![TokenTree::ident("unused")])],
    );
    assert_eq!(
        allow.to_tokens(),
        vec![
            TokenTree::punct('#'),
            TokenTree::punct('!'),
            TokenTree::Group(
                Delimiter::Bracket,
                vec![
                    TokenTree::ident("allow"),
                    TokenTree::Group(Delimiter::Parenthesis, vec![TokenTree::ident("unused")]),
                ],
            ),
        ]
    );
}

#[test]
fn attribute_path_has_separators_between_segments() {
    let mut rooted = attribute(AttrStyle::Outer, &["tokio", "main"], vec![]);
    assert_eq!(
        rooted.to_tokens(),
        vec![
            TokenTree::punct('#'),
            TokenTree::Group(
                Delimiter::Bracket,
                vec![
                    TokenTree::ident("tokio"),
                    TokenTree::joint(':'),
                    TokenTree::punct(':'),
                    TokenTree::ident("main"),
                ],
            ),
        ]
    );
    rooted.leading_colon = true;
    assert_eq!(
        rooted.to_tokens()[1],
        TokenTree::Group(
            Delimiter::Bracket,
            vec![
                TokenTree::joint(':'),
                TokenTree::punct(':'),
                TokenTree::ident("tokio"),
                TokenTree::joint(':'),
                TokenTree::punct(':'),
                TokenTree::ident("main"),
            ],
        )
    );
}

#[test]
fn attributes_are_spelled_by_style_in_order() {
    let attrs = vec![
        attribute(AttrStyle::Outer, &["a"], vec![]),
        attribute(AttrStyle::Inner, &["b"], vec![]),
        attribute(AttrStyle::Outer, &["c"], vec![]),
    ];
    let bracket = |name: &str| TokenTree::Group(Delimiter::Bracket, vec![TokenTree::ident(name)]);
    assert_eq!(
        spell_attributes(&attrs, AttrStyle::Outer),
        vec![TokenTree::punct('#'), bracket("a"), TokenTree::punct('#'), bracket("c")]
    );
    assert_eq!(
        spell_attributes(&attrs, AttrStyle::Inner),
        vec![TokenTree::punct('#'), TokenTree::punct('!'), bracket("b")]
    );
    assert_eq!(spell_attributes(&vec![], AttrStyle::Outer), vec![]);
}

#[test]
fn attributes_are_copied_whole() {
    let attrs = vec![
        attribute(AttrStyle::Outer, &["tokio", "main"], vec![]),
        attribute(
            AttrStyle::Inner,
            &["argument"],
            vec![TokenTree::Group(
                Delimiter::Parenthesis,
                vec![TokenTree::verbatim("\"debug\""), TokenTree::punct(',')],
            )],
        ),
    ];
    assert_eq!(clone_attributes(&attrs), attrs);
    assert_eq!(attrs[1].clone(), attrs[1]);
    assert_eq!(clone_attributes(&vec![]), vec![]);
}
