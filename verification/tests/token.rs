use clickrs_core::token::{
    append_stream, clone_stream, clone_tree, extend_stream, push_outer_attribute,
    push_path_separator, push_tree, Delimiter, Literal, Spacing, TokenTree,
};

fn sample_group() -> TokenTree {
    TokenTree::Group(
        Delimiter::Parenthesis,
        vec![
            TokenTree::Ident("short".to_string()),
            TokenTree::Punct(',', Spacing::Alone),
            TokenTree::Group(
                Delimiter::Bracket,
                vec![TokenTree::Literal(Literal::Verbatim("\"c\"".to_string()))],
            ),
        ],
    )
}

#[test]
fn ident_holds_its_name() {
    assert_eq!(TokenTree::ident("main"), TokenTree::Ident("main".to_string()));
    assert_ne!(TokenTree::ident("main"), TokenTree::Ident("Main".to_string()));
}

#[test]
fn punct_stands_alone_and_joint_is_glued() {
    assert_eq!(TokenTree::punct(','), TokenTree::Punct(',', Spacing::Alone));
    assert_eq!(TokenTree::joint(':'), TokenTree::Punct(':', Spacing::Joint));
    assert_ne!(TokenTree::punct(':'), TokenTree::joint(':'));
}

#[test]
fn literals_keep_value_or_text() {
    assert_eq!(
        TokenTree::string("a \"b\""),
        TokenTree::Literal(Literal::Str("a \"b\"".to_string()))
    );
    assert_eq!(TokenTree::usize_suffixed(42), TokenTree::Literal(Literal::Usize(42)));
    assert_eq!(
        TokenTree::verbatim("\"hi\""),
        TokenTree::Literal(Literal::Verbatim("\"hi\"".to_string()))
    );
    assert_ne!(TokenTree::string("hi"), TokenTree::verbatim("hi"));
}

#[test]
fn group_wraps_its_stream() {
    let stream = vec![TokenTree::ident("a"), TokenTree::punct(',')];
    assert_eq!(
        TokenTree::group(Delimiter::Brace, stream.clone()),
        TokenTree::Group(Delimiter::Brace, stream)
    );
    assert_eq!(TokenTree::unit(), TokenTree::Group(Delimiter::Parenthesis, vec![]));
}

#[test]
fn clone_tree_copies_every_level() {
    let tree = sample_group();
    assert_eq!(clone_tree(&tree), tree);
    assert_eq!(tree.clone(), tree);
    let leaf = TokenTree::usize_suffixed(7);
    assert_eq!(clone_tree(&leaf), leaf);
}

#[test]
fn clone_stream_copies_in_order() {
    let stream = vec![TokenTree::ident("pub"), sample_group(), TokenTree::punct(';')];
    assert_eq!(clone_stream(&stream), stream);
    assert_eq!(clone_stream(&Vec::new()), Vec::<TokenTree>::new());
}

#[test]
fn push_tree_adds_at_the_end() {
    let mut stream = vec![TokenTree::ident("a")];
    push_tree(&mut stream, TokenTree::ident("b"));
    assert_eq!(stream, vec![TokenTree::ident("a"), TokenTree::ident("b")]);
}

#[test]
fn append_and_extend_concatenate() {
    let mut stream = vec![TokenTree::ident("a")];
    append_stream(&mut stream, vec![TokenTree::ident("b"), TokenTree::ident("c")]);
    let more = vec![sample_group()];
    extend_stream(&mut stream, &more);
    assert_eq!(
        stream,
        vec![
            TokenTree::ident("a"),
            TokenTree::ident("b"),
            TokenTree::ident("c"),
            sample_group(),
        ]
    );
    assert_eq!(more, vec![sample_group()]);
}

#[test]
fn path_separator_is_two_colons_glued() {
    let mut stream = vec![TokenTree::ident("a")];
    push_path_separator(&mut stream);
    assert_eq!(
        stream,
        vec![
            TokenTree::ident("a"),
            TokenTree::Punct(':', Spacing::Joint),
            TokenTree::Punct(':', Spacing::Alone),
        ]
    );
}

#[test]
fn outer_attribute_is_pound_and_brackets() {
    let mut stream = Vec::new();
    push_outer_attribute(&mut stream, vec![TokenTree::ident("test")]);
    assert_eq!(
        stream,
        vec![
            TokenTree::Punct('#', Spacing::Alone),
            TokenTree::Group(Delimiter::Bracket, vec![TokenTree::ident("test")]),
        ]
    );
}
