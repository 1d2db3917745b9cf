//! The `command` expansion that spells the program's metadata out as a chain
//! of builder calls.
//!
//! `#[command(name = "basic", version = "1.0")]` on a function becomes the
//! function itself under the name `__inner_main` and a `main` that builds
//! the parser step by step, `App::new("basic").version("1.0")` and one
//! `.arg(Arg::with_name("x"))` per parameter, asks it for the matches, and
//! calls `__inner_main` with the value of each parameter. In this expansion
//! the options of `#[argument("x", ..)]` continue the `Arg` builder of the
//! parameter, as in `#[argument("x", .short("x").takes_value(true))]`.

use crate::item::{all_named, clone_attributes, FnArg, FnArgView, ItemFn, ItemFnView, Pat};
use crate::options::{ArgumentOptions, OptionsView};
use crate::schema::{
    build_inner_main_fn, check_expandable, collect_argument_macro_attributes, collected_options,
    expandable, inner_main_fn, options_for,
};
use crate::token::{
    append_stream, extend_stream, path_separator, push_path_separator, push_tree, Delimiter,
    TokenTree, TokenTreeView,
};
use vstd::prelude::*;

verus! {

/// The arguments of `#[command(..)]`: the program's name and the settings of
/// its parser that were given.
#[derive(Clone, Debug, PartialEq, Eq, Hash)]
pub struct CommandMacroArgs {
    pub name: String,
    pub bin_name: Option<String>,
    pub version: Option<String>,
    pub long_version: Option<String>,
    pub version_short: Option<String>,
    pub version_message: Option<String>,
    pub author: Option<String>,
    pub about: Option<String>,
    pub long_about: Option<String>,
    pub before_help: Option<String>,
    pub help: Option<String>,
    pub after_help: Option<String>,
    pub help_short: Option<String>,
    pub help_message: Option<String>,
    pub usage: Option<String>,
    pub template: Option<String>,
    pub set_term_width: Option<usize>,
    pub max_term_width: Option<usize>,
}

/// The model of [`CommandMacroArgs`].
pub struct CommandMacroArgsView {
    pub name: Seq<char>,
    pub bin_name: Option<Seq<char>>,
    pub version: Option<Seq<char>>,
    pub long_version: Option<Seq<char>>,
    pub version_short: Option<Seq<char>>,
    pub version_message: Option<Seq<char>>,
    pub author: Option<Seq<char>>,
    pub about: Option<Seq<char>>,
    pub long_about: Option<Seq<char>>,
    pub before_help: Option<Seq<char>>,
    pub help: Option<Seq<char>>,
    pub after_help: Option<Seq<char>>,
    pub help_short: Option<Seq<char>>,
    pub help_message: Option<Seq<char>>,
    pub usage: Option<Seq<char>>,
    pub template: Option<Seq<char>>,
    pub set_term_width: Option<usize>,
    pub max_term_width: Option<usize>,
}

/// The characters of a setting, if it was given.
pub open spec fn text_of(value: Option<String>) -> Option<Seq<char>> {
    match value {
        Some(text) => Some(text@),
        None => None,
    }
}

impl View for CommandMacroArgs {
    type V = CommandMacroArgsView;

    open spec fn view(&self) -> CommandMacroArgsView {
        CommandMacroArgsView {
            name: self.name@,
            bin_name: text_of(self.bin_name),
            version: text_of(self.version),
            long_version: text_of(self.long_version),
            version_short: text_of(self.version_short),
            version_message: text_of(self.version_message),
            author: text_of(self.author),
            about: text_of(self.about),
            long_about: text_of(self.long_about),
            before_help: text_of(self.before_help),
            help: text_of(self.help),
            after_help: text_of(self.after_help),
            help_short: text_of(self.help_short),
            help_message: text_of(self.help_message),
            usage: text_of(self.usage),
            template: text_of(self.template),
            set_term_width: self.set_term_width,
            max_term_width: self.max_term_width,
        }
    }
}

impl DeepView for CommandMacroArgs {
    type V = CommandMacroArgsView;

    open spec fn deep_view(&self) -> CommandMacroArgsView {
        self@
    }
}

/// The start of the chain:
///
/// ```text
/// use clap::{App, Arg};
/// let matches = App::new("name")
/// ```
pub open spec fn app_new(name: Seq<char>) -> Seq<TokenTreeView> {
    seq![TokenTreeView::Ident("use"@), TokenTreeView::Ident("clap"@)] + path_separator() + seq![
        TokenTreeView::braced(
            seq![
                TokenTreeView::Ident("App"@),
                TokenTreeView::punct(','),
                TokenTreeView::Ident("Arg"@),
            ],
        ),
        TokenTreeView::punct(';'),
        TokenTreeView::Ident("let"@),
        TokenTreeView::Ident("matches"@),
        TokenTreeView::punct('='),
        TokenTreeView::Ident("App"@),
    ] + path_separator() + seq![
        TokenTreeView::Ident("new"@),
        TokenTreeView::parenthesized(seq![TokenTreeView::string(name)]),
    ]
}

/// One link of the chain: `.method(value)`.
pub open spec fn setter(method: Seq<char>, value: TokenTreeView) -> Seq<TokenTreeView> {
    seq![
        TokenTreeView::punct('.'),
        TokenTreeView::Ident(method),
        TokenTreeView::parenthesized(seq![value]),
    ]
}

/// The link for a text setting: `.method("value")` if it was given, nothing
/// otherwise.
pub open spec fn string_setter(method: Seq<char>, value: Option<Seq<char>>) -> Seq<
    TokenTreeView,
> {
    match value {
        Some(text) => setter(method, TokenTreeView::string(text)),
        None => Seq::empty(),
    }
}

/// The link for a numeric setting: `.method(value)` if it was given,
/// nothing otherwise.
pub open spec fn usize_setter(method: Seq<char>, value: Option<usize>) -> Seq<TokenTreeView> {
    match value {
        Some(n) => setter(method, TokenTreeView::usize_suffixed(n)),
        None => Seq::empty(),
    }
}

/// The whole chain for `args`: its start, then one link for each setting
/// that was given, the text settings first, each kind in a fixed order.
pub open spec fn command_block(args: CommandMacroArgsView) -> Seq<TokenTreeView> {
    app_new(args.name) + string_setter("version"@, args.version) + string_setter(
        "author"@,
        args.author,
    ) + string_setter("about"@, args.about) + string_setter("bin_name"@, args.bin_name)
        + string_setter("long_version"@, args.long_version) + string_setter(
        "version_short"@,
        args.version_short,
    ) + string_setter("version_message"@, args.version_message) + string_setter(
        "long_about"@,
        args.long_about,
    ) + string_setter("before_help"@, args.before_help) + string_setter("help"@, args.help)
        + string_setter("after_help"@, args.after_help) + string_setter(
        "help_short"@,
        args.help_short,
    ) + string_setter("help_message"@, args.help_message) + string_setter("usage"@, args.usage)
        + string_setter("template"@, args.template) + usize_setter(
        "set_term_width"@,
        args.set_term_width,
    ) + usize_setter("max_term_width"@, args.max_term_width)
}

/// The link that declares the parameter `arg` to the parser:
/// `.arg(Arg::with_name("name") options)`, where the options recorded for
/// the parameter continue the `Arg` builder.
pub open spec fn arg_builder(arg: FnArgView, options: OptionsView) -> Seq<TokenTreeView> {
    seq![
        TokenTreeView::punct('.'),
        TokenTreeView::Ident("arg"@),
        TokenTreeView::parenthesized(
            seq![TokenTreeView::Ident("Arg"@)] + path_separator() + seq![
                TokenTreeView::Ident("with_name"@),
                TokenTreeView::parenthesized(seq![TokenTreeView::string(arg.name())]),
            ] + options_for(options, arg.name()),
        ),
    ]
}

/// The links that declare the parameters, one per parameter in declaration
/// order.
pub open spec fn arg_builders(inputs: Seq<FnArgView>, options: OptionsView) -> Seq<
    TokenTreeView,
> {
    inputs.flat_map(|arg: FnArgView| arg_builder(arg, options))
}

/// The argument that hands the parsed value of the parameter `arg` on, read
/// at the parameter's type:
/// `clap::value_t_or_exit!(matches.value_of("name"), type),`.
pub open spec fn parsed_value(arg: FnArgView) -> Seq<TokenTreeView> {
    seq![TokenTreeView::Ident("clap"@)] + path_separator() + seq![
        TokenTreeView::Ident("value_t_or_exit"@),
        TokenTreeView::punct('!'),
        TokenTreeView::parenthesized(
            seq![
                TokenTreeView::Ident("matches"@),
                TokenTreeView::punct('.'),
                TokenTreeView::Ident("value_of"@),
                TokenTreeView::parenthesized(seq![TokenTreeView::string(arg.name())]),
                TokenTreeView::punct(','),
            ] + arg.ty(),
        ),
        TokenTreeView::punct(','),
    ]
}

/// The arguments of the call of the inner function: one per parameter, in
/// declaration order.
pub open spec fn parsed_values(inputs: Seq<FnArgView>) -> Seq<TokenTreeView> {
    inputs.flat_map(|arg: FnArgView| parsed_value(arg))
}

/// The statements of the entry point: build the parser, ask it for the
/// matches, call the inner function with the parsed values.
///
/// ```text
/// command_block arg_builders .get_matches();
/// __inner_main(parsed_values);
/// ```
pub open spec fn builder_body(
    args: CommandMacroArgsView,
    inputs: Seq<FnArgView>,
    options: OptionsView,
) -> Seq<TokenTreeView> {
    command_block(args) + arg_builders(inputs, options) + seq![
        TokenTreeView::punct('.'),
        TokenTreeView::Ident("get_matches"@),
        TokenTreeView::parenthesized(Seq::empty()),
        TokenTreeView::punct(';'),
        TokenTreeView::Ident("__inner_main"@),
        TokenTreeView::parenthesized(parsed_values(inputs)),
        TokenTreeView::punct(';'),
    ]
}

/// The new entry point: `vis fn main() { builder_body }`.
pub open spec fn builder_main(
    vis: Seq<TokenTreeView>,
    args: CommandMacroArgsView,
    inputs: Seq<FnArgView>,
    options: OptionsView,
) -> Seq<TokenTreeView> {
    vis + seq![
        TokenTreeView::Ident("fn"@),
        TokenTreeView::Ident("main"@),
        TokenTreeView::parenthesized(Seq::empty()),
        TokenTreeView::braced(builder_body(args, inputs, options)),
    ]
}

/// What `#[command(..)]` with the arguments `args` puts in the place of the
/// function `item`: the function under its inner name, and the new entry
/// point.
pub open spec fn builder_expansion(args: CommandMacroArgsView, item: ItemFnView) -> Seq<
    TokenTreeView,
> {
    inner_main_fn(item) + builder_main(
        item.vis,
        args,
        item.sig.inputs,
        collected_options(item.attrs),
    )
}

/// Puts the link `.method(value)` at the end of `chain`.
fn push_setter(chain: &mut Vec<TokenTree>, method: &str, value: TokenTree)
    ensures
        final(chain).deep_view() == old(chain).deep_view() + setter(method@, value@),
{
    let mut arguments: Vec<TokenTree> = Vec::new();
    push_tree(&mut arguments, value);
    assert(arguments.deep_view() =~= seq![value@]);
    push_tree(chain, TokenTree::punct('.'));
    push_tree(chain, TokenTree::ident(method));
    push_tree(chain, TokenTree::group(Delimiter::Parenthesis, arguments));
    assert(chain.deep_view() =~= old(chain).deep_view() + setter(method@, value@));
}

/// Puts the link for the text setting `method` at the end of `chain`.
fn push_string_setter(chain: &mut Vec<TokenTree>, method: &str, value: &Option<String>)
    ensures
        final(chain).deep_view() == old(chain).deep_view() + string_setter(
            method@,
            text_of(*value),
        ),
{
    match value {
        Some(text) => push_setter(chain, method, TokenTree::string(text.as_str())),
        None => {
            assert(chain.deep_view() =~= old(chain).deep_view() + Seq::empty());
        },
    }
}

/// Puts the link for the numeric setting `method` at the end of `chain`.
fn push_usize_setter(chain: &mut Vec<TokenTree>, method: &str, value: Option<usize>)
    ensures
        final(chain).deep_view() == old(chain).deep_view() + usize_setter(method@, value),
{
    match value {
        Some(n) => push_setter(chain, method, TokenTree::usize_suffixed(n)),
        None => {
            assert(chain.deep_view() =~= old(chain).deep_view() + Seq::empty());
        },
    }
}

/// Builds the chain of builder calls for `args`.
pub fn get_command_block(args: CommandMacroArgs) -> (chain: Vec<TokenTree>)
    ensures
        chain.deep_view() == command_block(args@),
{
    let mut imports: Vec<TokenTree> = Vec::new();
    push_tree(&mut imports, TokenTree::ident("App"));
    push_tree(&mut imports, TokenTree::punct(','));
    push_tree(&mut imports, TokenTree::ident("Arg"));
    assert(imports.deep_view() =~= seq![
        TokenTreeView::Ident("App"@),
        TokenTreeView::punct(','),
        TokenTreeView::Ident("Arg"@),
    ]);
    let mut command_name: Vec<TokenTree> = Vec::new();
    push_tree(&mut command_name, TokenTree::string(args.name.as_str()));
    assert(command_name.deep_view() =~= seq![TokenTreeView::string(args@.name)]);

    let mut chain: Vec<TokenTree> = Vec::new();
    push_tree(&mut chain, TokenTree::ident("use"));
    push_tree(&mut chain, TokenTree::ident("clap"));
    push_path_separator(&mut chain);
    push_tree(&mut chain, TokenTree::group(Delimiter::Brace, imports));
    push_tree(&mut chain, TokenTree::punct(';'));
    push_tree(&mut chain, TokenTree::ident("let"));
    push_tree(&mut chain, TokenTree::ident("matches"));
    push_tree(&mut chain, TokenTree::punct('='));
    push_tree(&mut chain, TokenTree::ident("App"));
    push_path_separator(&mut chain);
    push_tree(&mut chain, TokenTree::ident("new"));
    push_tree(&mut chain, TokenTree::group(Delimiter::Parenthesis, command_name));
    assert(chain.deep_view() =~= app_new(args@.name));

    push_string_setter(&mut chain, "version", &args.version);
    push_string_setter(&mut chain, "author", &args.author);
    push_string_setter(&mut chain, "about", &args.about);
    push_string_setter(&mut chain, "bin_name", &args.bin_name);
    push_string_setter(&mut chain, "long_version", &args.long_version);
    push_string_setter(&mut chain, "version_short", &args.version_short);
    push_string_setter(&mut chain, "version_message", &args.version_message);
    push_string_setter(&mut chain, "long_about", &args.long_about);
    push_string_setter(&mut chain, "before_help", &args.before_help);
    push_string_setter(&mut chain, "help", &args.help);
    push_string_setter(&mut chain, "after_help", &args.after_help);
    push_string_setter(&mut chain, "help_short", &args.help_short);
    push_string_setter(&mut chain, "help_message", &args.help_message);
    push_string_setter(&mut chain, "usage", &args.usage);
    push_string_setter(&mut chain, "template", &args.template);
    push_usize_setter(&mut chain, "set_term_width", args.set_term_width);
    push_usize_setter(&mut chain, "max_term_width", args.max_term_width);
    chain
}

/// Builds the links that declare the parameters of `input` to the parser.
fn build_arg_builders(input: &ItemFn, argument_macro_attributes: &ArgumentOptions) -> (links: Vec<
    TokenTree,
>)
    requires
        all_named(input@.sig.inputs),
    ensures
        links.deep_view() == arg_builders(input@.sig.inputs, argument_macro_attributes@),
{
    let inputs = &input.sig.inputs;
    let ghost options = argument_macro_attributes@;
    let ghost to_link = |arg: FnArgView| arg_builder(arg, argument_macro_attributes@);
    let mut links: Vec<TokenTree> = Vec::new();
    let mut i: usize = 0;
    while i < inputs.len()
        invariant
            i <= inputs.len(),
            all_named(inputs.deep_view()),
            options == argument_macro_attributes@,
            to_link == |arg: FnArgView| arg_builder(arg, argument_macro_attributes@),
            links.deep_view() == inputs.deep_view().take(i as int).flat_map(to_link),
        decreases inputs.len() - i,
    {
        let ghost arg = inputs.deep_view()[i as int];
        assert(arg == inputs[i as int]@);
        assert(arg.is_named());
        let ghost before = links.deep_view();
        match &inputs[i] {
            FnArg::Typed(pat_type) => match &pat_type.pat {
                Pat::Ident(pat_ident) => {
                    let mut name: Vec<TokenTree> = Vec::new();
                    push_tree(&mut name, TokenTree::string(pat_ident.ident.as_str()));
                    assert(name.deep_view() =~= seq![TokenTreeView::string(arg.name())]);
                    let mut builder: Vec<TokenTree> = Vec::new();
                    push_tree(&mut builder, TokenTree::ident("Arg"));
                    push_path_separator(&mut builder);
                    push_tree(&mut builder, TokenTree::ident("with_name"));
                    push_tree(&mut builder, TokenTree::group(Delimiter::Parenthesis, name));
                    match argument_macro_attributes.get(&pat_ident.ident) {
                        Some(macro_args) => {
                            extend_stream(&mut builder, macro_args);
                        },
                        None => {},
                    }
                    assert(builder.deep_view() =~= seq![TokenTreeView::Ident("Arg"@)]
                        + path_separator() + seq![
                        TokenTreeView::Ident("with_name"@),
                        TokenTreeView::parenthesized(seq![TokenTreeView::string(arg.name())]),
                    ] + options_for(options, arg.name()));
                    push_tree(&mut links, TokenTree::punct('.'));
                    push_tree(&mut links, TokenTree::ident("arg"));
                    push_tree(&mut links, TokenTree::group(Delimiter::Parenthesis, builder));
                },
                _ => {},
            },
            _ => {},
        }
        proof {
            inputs.deep_view().lemma_flat_map_take_append(to_link, i as int);
            assert(links.deep_view() =~= before + arg_builder(arg, options));
        }
        i += 1;
    }
    assert(inputs.deep_view().take(inputs.len() as int) =~= inputs.deep_view());
    links
}

/// Builds the arguments with which the new entry point calls the inner
/// function: for each parameter of `input`, in declaration order, its parsed
/// value.
fn build_parsed_values(input: &ItemFn) -> (values: Vec<TokenTree>)
    requires
        all_named(input@.sig.inputs),
    ensures
        values.deep_view() == parsed_values(input@.sig.inputs),
{
    let inputs = &input.sig.inputs;
    let ghost to_value = |arg: FnArgView| parsed_value(arg);
    let mut values: Vec<TokenTree> = Vec::new();
    let mut i: usize = 0;
    while i < inputs.len()
        invariant
            i <= inputs.len(),
            all_named(inputs.deep_view()),
            to_value == |arg: FnArgView| parsed_value(arg),
            values.deep_view() == inputs.deep_view().take(i as int).flat_map(to_value),
        decreases inputs.len() - i,
    {
        let ghost arg = inputs.deep_view()[i as int];
        assert(arg == inputs[i as int]@);
        assert(arg.is_named());
        let ghost before = values.deep_view();
        match &inputs[i] {
            FnArg::Typed(pat_type) => match &pat_type.pat {
                Pat::Ident(pat_ident) => {
                    let mut name: Vec<TokenTree> = Vec::new();
                    push_tree(&mut name, TokenTree::string(pat_ident.ident.as_str()));
                    assert(name.deep_view() =~= seq![TokenTreeView::string(arg.name())]);
                    let mut read: Vec<TokenTree> = Vec::new();
                    push_tree(&mut read, TokenTree::ident("matches"));
                    push_tree(&mut read, TokenTree::punct('.'));
                    push_tree(&mut read, TokenTree::ident("value_of"));
                    push_tree(&mut read, TokenTree::group(Delimiter::Parenthesis, name));
                    push_tree(&mut read, TokenTree::punct(','));
                    extend_stream(&mut read, &pat_type.ty);
                    assert(read.deep_view() =~= seq![
                        TokenTreeView::Ident("matches"@),
                        TokenTreeView::punct('.'),
                        TokenTreeView::Ident("value_of"@),
                        TokenTreeView::parenthesized(seq![TokenTreeView::string(arg.name())]),
                        TokenTreeView::punct(','),
                    ] + arg.ty());
                    push_tree(&mut values, TokenTree::ident("clap"));
                    push_path_separator(&mut values);
                    push_tree(&mut values, TokenTree::ident("value_t_or_exit"));
                    push_tree(&mut values, TokenTree::punct('!'));
                    push_tree(&mut values, TokenTree::group(Delimiter::Parenthesis, read));
                    push_tree(&mut values, TokenTree::punct(','));
                },
                _ => {},
            },
            _ => {},
        }
        proof {
            inputs.deep_view().lemma_flat_map_take_append(to_value, i as int);
            assert(values.deep_view() =~= before + parsed_value(arg));
        }
        i += 1;
    }
    assert(inputs.deep_view().take(inputs.len() as int) =~= inputs.deep_view());
    values
}

/// Expands `#[command(..)]` with the arguments `args` on the function
/// `input`.
///
/// The result holds the function itself, renamed to `__inner_main`, with its
/// body unchanged and every attribute that is no `argument` annotation still
/// on it; and a `main` of the same visibility that builds the parser from
/// `args` and the parameters, asks it for the matches, and calls
/// `__inner_main` with the parsed value of each parameter, in declaration
/// order.
pub fn command(args: CommandMacroArgs, input: ItemFn) -> (main_block: Vec<TokenTree>)
    requires
        expandable(input@),
    ensures
        main_block.deep_view() == builder_expansion(args@, input@),
{
    let ghost args_view = args@;
    let collect_result = collect_argument_macro_attributes(clone_attributes(&input.attrs));
    let argument_macro_attributes = collect_result.0;
    let remaining_attributes = collect_result.1;

    let mut body = get_command_block(args);
    append_stream(&mut body, build_arg_builders(&input, &argument_macro_attributes));
    push_tree(&mut body, TokenTree::punct('.'));
    push_tree(&mut body, TokenTree::ident("get_matches"));
    push_tree(&mut body, TokenTree::unit());
    push_tree(&mut body, TokenTree::punct(';'));
    push_tree(&mut body, TokenTree::ident("__inner_main"));
    push_tree(&mut body, TokenTree::group(Delimiter::Parenthesis, build_parsed_values(&input)));
    push_tree(&mut body, TokenTree::punct(';'));
    assert(body.deep_view() =~= builder_body(
        args_view,
        input@.sig.inputs,
        collected_options(input@.attrs),
    ));

    let mut main_block = build_inner_main_fn(&remaining_attributes, &input);
    let ghost before = main_block.deep_view();
    extend_stream(&mut main_block, &input.vis);
    push_tree(&mut main_block, TokenTree::ident("fn"));
    push_tree(&mut main_block, TokenTree::ident("main"));
    push_tree(&mut main_block, TokenTree::unit());
    push_tree(&mut main_block, TokenTree::group(Delimiter::Brace, body));
    assert(main_block.deep_view() =~= before + builder_main(
        input@.vis,
        args_view,
        input@.sig.inputs,
        collected_options(input@.attrs),
    ));
    main_block
}

/// [`command`] for any function: the expansion where the function can be
/// expanded, and nothing where it cannot.
pub fn try_command(args: CommandMacroArgs, input: ItemFn) -> (main_block: Option<Vec<TokenTree>>)
    ensures
        main_block is Some == expandable(input@),
        main_block matches Some(tokens) ==> tokens.deep_view() == builder_expansion(
            args@,
            input@,
        ),
{
    if check_expandable(&input) {
        Some(command(args, input))
    } else {
        None
    }
}

/// Expands `#[argument(args_stream)]` on the function spelled by
/// `input_stream`: the function comes back as it was. The annotation only
/// carries options for `command` to pick up.
pub fn argument(args_stream: Vec<TokenTree>, input_stream: Vec<TokenTree>) -> (output: Vec<
    TokenTree,
>)
    ensures
        output == input_stream,
        output.deep_view() == input_stream.deep_view(),
{
    input_stream
}

/// A setting that was not given leaves no trace: with the name alone the
/// chain is its start.
pub proof fn lemma_chain_without_settings(args: CommandMacroArgsView)
    requires
        args.bin_name is None,
        args.version is None,
        args.long_version is None,
        args.version_short is None,
        args.version_message is None,
        args.author is None,
        args.about is None,
        args.long_about is None,
        args.before_help is None,
        args.help is None,
        args.after_help is None,
        args.help_short is None,
        args.help_message is None,
        args.usage is None,
        args.template is None,
        args.set_term_width is None,
        args.max_term_width is None,
    ensures
        command_block(args) == app_new(args.name),
{
    assert(command_block(args) =~= app_new(args.name));
}

/// The parser is told of each parameter under the parameter's own name, and
/// the value handed to the inner function is read under that name, at the
/// type that the parameter declares.
pub proof fn lemma_parameter_is_parsed_alike(arg: FnArgView, options: OptionsView)
    requires
        arg.is_named(),
    ensures
        arg_builder(arg, options)[2]->Group_1[4] == TokenTreeView::parenthesized(
            seq![TokenTreeView::string(arg.name())],
        ),
        parsed_value(arg)[5]->Group_1[3] == TokenTreeView::parenthesized(
            seq![TokenTreeView::string(arg.name())],
        ),
        parsed_value(arg)[5]->Group_1.skip(5) == arg.ty(),
{
    assert(parsed_value(arg)[5]->Group_1.skip(5) =~= arg.ty());
}

/// The parser is told of the parameters, and the inner function is called
/// with their values, one by one in declaration order.
pub proof fn lemma_parser_follows_the_parameters(
    inputs: Seq<FnArgView>,
    arg: FnArgView,
    options: OptionsView,
)
    ensures
        arg_builders(inputs.push(arg), options) == arg_builders(inputs, options) + arg_builder(
            arg,
            options,
        ),
        parsed_values(inputs.push(arg)) == parsed_values(inputs) + parsed_value(arg),
{
    inputs.lemma_flat_map_push(|arg: FnArgView| arg_builder(arg, options), arg);
    inputs.lemma_flat_map_push(|arg: FnArgView| parsed_value(arg), arg);
}

} // verus!
