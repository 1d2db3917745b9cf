use clickrs_core::builder::{
    argument, command, get_command_block, try_command, CommandMacroArgs,
};
use clickrs_core::item::{
    AttrStyle, Attribute, FnArg, ItemFn, Pat, PatIdent, PatType, Signature,
};
use clickrs_core::token::{Delimiter, TokenTree};

fn args_named(name: &str) -> CommandMacroArgs {
    CommandMacroArgs {
        name: name.to_string(),
        bin_name: None,
        version: None,
        long_version: None,
        version_short: None,
        version_message: None,
        author: None,
        about: None,
        long_about: None,
        before_help: None,
        help: None,
        after_help: None,
        help_short: None,
        help_message: None,
        usage: None,
        template: None,
        set_term_width: None,
        max_term_width: None,
    }
}

fn app_new(name: &str) -> Vec<TokenTree> {
    vec![
        TokenTree::ident("use"),
        TokenTree::ident("clap"),
        TokenTree::joint(':'),
        TokenTree::punct(':'),
        TokenTree::Group(
            Delimiter::Brace,
            vec![TokenTree::ident("App"), TokenTree::punct(','), TokenTree::ident("Arg")],
        ),
        TokenTree::punct(';'),
        TokenTree::ident("let"),
        TokenTree::ident("matches"),
        TokenTree::punct('='),
        TokenTree::ident("App"),
        TokenTree::joint(':'),
        TokenTree::punct(':'),
        TokenTree::ident("new"),
        TokenTree::Group(Delimiter::Parenthesis, vec![TokenTree::string(name)]),
    ]
}

fn setter(method: &str, value: TokenTree) -> Vec<TokenTree> {
    vec![
        TokenTree::punct('.'),
        TokenTree::ident(method),
        TokenTree::Group(Delimiter::Parenthesis, vec![value]),
    ]
}

fn named(name: &str, ty: &str) -> FnArg {
    FnArg::Typed(PatType {
        attrs: vec![],
        pat: Pat::Ident(PatIdent {
            by_ref: false,
            mutable: false,
            ident: name.to_string(),
            subpattern: vec![],
        }),
        ty: vec![TokenTree::ident(ty)],
    })
}

fn attribute(path: &str, tokens: Vec<TokenTree>) -> Attribute {
    Attribute {
        style: AttrStyle::Outer,
        leading_colon: false,
        path: vec![path.to_string()],
        tokens,
    }
}

fn statements() -> Vec<TokenTree> {
    vec![TokenTree::ident("run"), TokenTree::unit(), TokenTree::punct(';')]
}

fn function(vis: Vec<TokenTree>, attrs: Vec<Attribute>, inputs: Vec<FnArg>) -> ItemFn {
    ItemFn {
        attrs,
        vis,
        sig: Signature {
            prefix: vec![TokenTree::ident("fn")],
            ident: "main".to_string(),
            generics: vec![],
            inputs,
            trailing: vec![],
            output: vec![],
        },
        block: statements(),
    }
}

/// `.arg(Arg::with_name("name") options)`
fn arg_builder(name: &str, options: Vec<TokenTree>) -> Vec<TokenTree> {
    let mut builder = vec![
        TokenTree::ident("Arg"),
        TokenTree::joint(':'),
        TokenTree::punct(':'),
        TokenTree::ident("with_name"),
        TokenTree::Group(Delimiter::Parenthesis, vec![TokenTree::string(name)]),
    ];
    builder.extend(options);
    vec![
        TokenTree::punct('.'),
        TokenTree::ident("arg"),
        TokenTree::Group(Delimiter::Parenthesis, builder),
    ]
}

/// `clap::value_t_or_exit!(matches.value_of("name"), ty),`
fn parsed_value(name: &str, ty: &str) -> Vec<TokenTree> {
    vec![
        TokenTree::ident("clap"),
        TokenTree::joint(':'),
        TokenTree::punct(':'),
        TokenTree::ident("value_t_or_exit"),
        TokenTree::punct('!'),
        TokenTree::Group(
            Delimiter::Parenthesis,
            vec![
                TokenTree::ident("matches"),
                TokenTree::punct('.'),
                TokenTree::ident("value_of"),
                TokenTree::Group(Delimiter::Parenthesis, vec![TokenTree::string(name)]),
                TokenTree::punct(','),
                TokenTree::ident(ty),
            ],
        ),
        TokenTree::punct(','),
    ]
}

/// `vis fn main() { chain .get_matches(); __inner_main(values); }`
fn main_fn(vis: Vec<TokenTree>, chain: Vec<TokenTree>, values: Vec<TokenTree>) -> Vec<TokenTree> {
    let mut body = chain;
    body.extend(vec![
        TokenTree::punct('.'),
        TokenTree::ident("get_matches"),
        TokenTree::unit(),
        TokenTree::punct(';'),
        TokenTree::ident("__inner_main"),
        TokenTree::Group(Delimiter::Parenthesis, values),
        TokenTree::punct(';'),
    ]);
    let mut out = vis;
    out.extend(vec![
        TokenTree::ident("fn"),
        TokenTree::ident("main"),
        TokenTree::unit(),
        TokenTree::Group(Delimiter::Brace, body),
    ]);
    out
}

#[test]
fn chain_with_name_only_is_app_new() {
    assert_eq!(get_command_block(args_named("basic")), app_new("basic"));
}

#[test]
fn chain_keeps_the_name_as_a_value() {
    let chain = get_command_block(args_named("say \"hi\""));
    assert_eq!(chain, app_new("say \"hi\""));
    assert_eq!(chain.len(), 14);
}

#[test]
fn chain_has_one_link_per_given_setting() {
    let mut args = args_named("basic");
    args.about = Some("An example".to_string());
    let mut expected = app_new("basic");
    expected.extend(setter("about", TokenTree::string("An example")));
    assert_eq!(get_command_block(args), expected);
}

#[test]
fn chain_orders_links_by_setting_not_by_field() {
    let mut args = args_named("basic");
    args.bin_name = Some("b".to_string());
    args.template = Some("t".to_string());
    args.author = Some("me".to_string());
    args.version = Some("1.0".to_string());
    args.max_term_width = Some(120);
    args.set_term_width = Some(0);
    let mut expected = app_new("basic");
    expected.extend(setter("version", TokenTree::string("1.0")));
    expected.extend(setter("author", TokenTree::string("me")));
    expected.extend(setter("bin_name", TokenTree::string("b")));
    expected.extend(setter("template", TokenTree::string("t")));
    expected.extend(setter("set_term_width", TokenTree::usize_suffixed(0)));
    expected.extend(setter("max_term_width", TokenTree::usize_suffixed(120)));
    assert_eq!(get_command_block(args), expected);
}

#[test]
fn chain_with_every_setting_follows_the_fixed_order() {
    let args = CommandMacroArgs {
        name: "n".to_string(),
        bin_name: Some("bin_name".to_string()),
        version: Some("version".to_string()),
        long_version: Some("long_version".to_string()),
        version_short: Some("version_short".to_string()),
        version_message: Some("version_message".to_string()),
        author: Some("author".to_string()),
        about: Some("about".to_string()),
        long_about: Some("long_about".to_string()),
        before_help: Some("before_help".to_string()),
        help: Some("help".to_string()),
        after_help: Some("after_help".to_string()),
        help_short: Some("help_short".to_string()),
        help_message: Some("help_message".to_string()),
        usage: Some("usage".to_string()),
        template: Some("template".to_string()),
        set_term_width: Some(80),
        max_term_width: Some(usize::MAX),
    };
    let mut expected = app_new("n");
    for method in [
        "version",
        "author",
        "about",
        "bin_name",
        "long_version",
        "version_short",
        "version_message",
        "long_about",
        "before_help",
        "help",
        "after_help",
        "help_short",
        "help_message",
        "usage",
        "template",
    ] {
        expected.extend(setter(method, TokenTree::string(method)));
    }
    expected.extend(setter("set_term_width", TokenTree::usize_suffixed(80)));
    expected.extend(setter("max_term_width", TokenTree::usize_suffixed(usize::MAX)));
    assert_eq!(get_command_block(args), expected);
}

#[test]
fn empty_text_is_still_a_setting() {
    let mut args = args_named("");
    args.help = Some(String::new());
    let mut expected = app_new("");
    expected.extend(setter("help", TokenTree::string("")));
    assert_eq!(get_command_block(args), expected);
}

#[test]
fn builder_command_keeps_the_function_and_calls_it() {
    let mut args = args_named("basic");
    args.version = Some("1.0".to_string());
    let options = vec![
        TokenTree::punct('.'),
        TokenTree::ident("short"),
        TokenTree::Group(Delimiter::Parenthesis, vec![TokenTree::verbatim("\"s\"")]),
    ];
    let mut annotation = vec![TokenTree::verbatim("\"speed\""), TokenTree::punct(',')];
    annotation.extend(options.clone());
    let item = function(
        vec![TokenTree::ident("pub")],
        vec![
            attribute("inline", vec![]),
            attribute("argument", vec![TokenTree::Group(Delimiter::Parenthesis, annotation)]),
        ],
        vec![named("debug", "bool"), named("speed", "u64")],
    );

    let mut expected = vec![
        TokenTree::punct('#'),
        TokenTree::Group(Delimiter::Bracket, vec![TokenTree::ident("inline")]),
        TokenTree::ident("pub"),
        TokenTree::ident("fn"),
        TokenTree::ident("__inner_main"),
        TokenTree::Group(
            Delimiter::Parenthesis,
            vec![
                TokenTree::ident("debug"),
                TokenTree::punct(':'),
                TokenTree::ident("bool"),
                TokenTree::punct(','),
                TokenTree::ident("speed"),
                TokenTree::punct(':'),
                TokenTree::ident("u64"),
            ],
        ),
        TokenTree::Group(Delimiter::Brace, statements()),
    ];
    let mut chain = app_new("basic");
    chain.extend(setter("version", TokenTree::string("1.0")));
    chain.extend(arg_builder("debug", vec![]));
    chain.extend(arg_builder("speed", options));
    let mut values = parsed_value("debug", "bool");
    values.extend(parsed_value("speed", "u64"));
    expected.extend(main_fn(vec![TokenTree::ident("pub")], chain, values));

    assert_eq!(command(args, item), expected);
}

#[test]
fn builder_command_on_a_function_without_parameters() {
    let item = function(vec![], vec![], vec![]);
    let mut expected = vec![
        TokenTree::ident("fn"),
        TokenTree::ident("__inner_main"),
        TokenTree::unit(),
        TokenTree::Group(Delimiter::Brace, statements()),
    ];
    expected.extend(main_fn(vec![], app_new("x"), vec![]));
    assert_eq!(command(args_named("x"), item), expected);
}

#[test]
fn builder_try_command_expands_what_can_be_expanded() {
    let item = || function(vec![], vec![], vec![named("a", "u8")]);
    assert_eq!(try_command(args_named("x"), item()), Some(command(args_named("x"), item())));
}

#[test]
fn builder_try_command_gives_nothing_otherwise() {
    let receiver = FnArg::Receiver(vec![TokenTree::punct('&'), TokenTree::ident("self")]);
    assert_eq!(try_command(args_named("x"), function(vec![], vec![], vec![receiver])), None);
    let pattern = FnArg::Typed(PatType {
        attrs: vec![],
        pat: Pat::Other(vec![TokenTree::ident("_")]),
        ty: vec![TokenTree::ident("u8")],
    });
    assert_eq!(try_command(args_named("x"), function(vec![], vec![], vec![pattern])), None);
    let unnamed = attribute("argument", vec![TokenTree::unit()]);
    assert_eq!(try_command(args_named("x"), function(vec![], vec![unnamed], vec![])), None);
}

#[test]
fn argument_hands_the_function_back_as_it_was() {
    let input = vec![
        TokenTree::ident("fn"),
        TokenTree::ident("main"),
        TokenTree::unit(),
        TokenTree::Group(Delimiter::Brace, statements()),
    ];
    let args = vec![TokenTree::verbatim("\"debug\""), TokenTree::punct(',')];
    assert_eq!(argument(args, input.clone()), input);
    assert_eq!(argument(vec![], input.clone()), input);
    assert_eq!(argument(input.clone(), vec![]), vec![]);
}

#[test]
fn argument_keeps_attributes_and_body() {
    let input = vec![
        TokenTree::punct('#'),
        TokenTree::Group(Delimiter::Bracket, vec![TokenTree::ident("inline")]),
        TokenTree::ident("fn"),
        TokenTree::ident("main"),
        TokenTree::unit(),
        TokenTree::Group(Delimiter::Brace, vec![]),
    ];
    assert_eq!(argument(vec![], input.clone()), input);
}
