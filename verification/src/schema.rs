//! The `command` expansion that derives the argument schema from the
//! function's parameters.
//!
//! The annotated function
//!
//! ```text
//! #[command(name = "basic")]
//! #[argument("debug", short, long)]
//! fn main(debug: bool, speed: u64) { .. }
//! ```
//!
//! becomes a struct with one field per parameter, the function itself
//! under the name `__inner_main`, and a `main` that parses the command line
//! into the struct and calls `__inner_main` with the fields in parameter
//! order. Attributes other than `argument` annotations stay on the function.

use crate::item::{
    all_named, check_all_named, clone_attributes, separated, spell_attributes,
    spelled_attributes, AttrStyle, Attribute, AttributeView, FnArg, FnArgView, ItemFn,
    ItemFnView, Pat, SignatureView,
};
use crate::options::{ArgumentOptions, OptionsView};
use crate::token::{
    append_stream, clone_stream, clone_tree, extend_stream, lemma_group_view, outer_attribute,
    path_separator, push_outer_attribute, push_path_separator, push_tree, Delimiter, Literal,
    LiteralView, TokenTree, TokenTreeView,
};
use vstd::prelude::*;
use vstd::string::{StrSliceExecFns, StringExecFns};

verus! {

/// `text` stands between double quotes.
pub open spec fn is_quoted(text: Seq<char>) -> bool {
    text.len() >= 2 && text.first() == '"' && text.last() == '"'
}

/// What stands between the double quotes of `text`.
pub open spec fn unquoted(text: Seq<char>) -> Seq<char>
    recommends
        is_quoted(text),
{
    text.subrange(1, text.len() - 1)
}

/// `tree` has the shape of the arguments of one `argument` annotation: a
/// group that starts with a string literal, written plainly between double
/// quotes, which names the parameter.
pub open spec fn is_call(tree: TokenTreeView) -> bool {
    &&& tree matches TokenTreeView::Group(_, stream)
    &&& stream.len() > 0
    &&& stream[0] matches TokenTreeView::Literal(LiteralView::Verbatim(text))
    &&& is_quoted(text)
}

/// The parameter that the annotation with the arguments `tree` names.
pub open spec fn call_name(tree: TokenTreeView) -> Seq<char>
    recommends
        is_call(tree),
{
    unquoted(tree->Group_1[0]->Literal_0->Verbatim_0)
}

/// The options that the annotation with the arguments `tree` gives: what
/// follows the name and the one token after it.
pub open spec fn call_options(tree: TokenTreeView) -> Seq<TokenTreeView>
    recommends
        is_call(tree),
{
    let stream = tree->Group_1;
    if stream.len() >= 2 {
        stream.skip(2)
    } else {
        Seq::empty()
    }
}

impl AttributeView {
    /// The attribute is an `argument` annotation: its path starts with the
    /// segment `argument`.
    pub open spec fn is_argument(self) -> bool {
        self.path.len() > 0 && self.path[0] == "argument"@
    }

    /// The attribute has a path, and if it is an `argument` annotation each
    /// token tree after the path has the shape that [`is_call`] asks for.
    pub open spec fn well_formed(self) -> bool {
        &&& self.path.len() > 0
        &&& self.is_argument() ==> forall|j: int|
            0 <= j < self.tokens.len() ==> is_call(#[trigger] self.tokens[j])
    }
}

/// Every attribute of `attrs` is well formed.
pub open spec fn collectable(attrs: Seq<AttributeView>) -> bool {
    forall|i: int| 0 <= i < attrs.len() ==> (#[trigger] attrs[i]).well_formed()
}

/// `options` after the annotation with the arguments `call`.
pub open spec fn record_call(options: OptionsView, call: TokenTreeView) -> OptionsView {
    options.insert(call_name(call), call_options(call))
}

/// `options` after each of `calls` in turn.
pub open spec fn record_calls(options: OptionsView, calls: Seq<TokenTreeView>) -> OptionsView {
    calls.fold_left(options, |o: OptionsView, call: TokenTreeView| record_call(o, call))
}

/// `options` after the attribute `attr`: unchanged unless it is an `argument`
/// annotation.
pub open spec fn record_attribute(options: OptionsView, attr: AttributeView) -> OptionsView {
    if attr.is_argument() {
        record_calls(options, attr.tokens)
    } else {
        options
    }
}

/// The options that the `argument` annotations among `attrs` give, by
/// parameter name. Where two annotations name the same parameter, the later
/// one counts.
pub open spec fn collected_options(attrs: Seq<AttributeView>) -> OptionsView {
    attrs.fold_left(
        OptionsView::empty(),
        |o: OptionsView, attr: AttributeView| record_attribute(o, attr),
    )
}

/// The attributes among `attrs` that are no `argument` annotations, in their
/// order.
pub open spec fn remaining_attributes(attrs: Seq<AttributeView>) -> Seq<AttributeView> {
    attrs.filter(|attr: AttributeView| !attr.is_argument())
}

/// The text between the double quotes of `text`, if it stands between double
/// quotes.
pub fn strip_quotes(text: &String) -> (inner: Option<String>)
    ensures
        inner is Some == is_quoted(text@),
        inner matches Some(s) ==> s@ == unquoted(text@),
{
    let text = text.as_str();
    let len = text.unicode_len();
    if len >= 2 && text.get_char(0) == '"' && text.get_char(len - 1) == '"' {
        Some(String::from_str(text.substring_char(1, len - 1)))
    } else {
        None
    }
}

/// The parameter name and the options in the arguments `tree` of an
/// `argument` annotation, if `tree` has the shape of such arguments.
pub fn parse_call(tree: &TokenTree) -> (call: Option<(String, Vec<TokenTree>)>)
    ensures
        call is Some == is_call(tree@),
        call matches Some((name, options)) ==> name@ == call_name(tree@) && options.deep_view()
            == call_options(tree@),
{
    match tree {
        TokenTree::Group(delimiter, stream) => {
            proof {
                lemma_group_view(*delimiter, *stream);
            }
            if stream.len() == 0 {
                return None;
            }
            assert(stream.deep_view()[0] == stream@[0]@);
            match &stream[0] {
                TokenTree::Literal(Literal::Verbatim(text)) => {
                    match strip_quotes(text) {
                        Some(name) => {
                            let mut options: Vec<TokenTree> = Vec::new();
                            let mut i: usize = 2;
                            while i < stream.len()
                                invariant
                                    2 <= i,
                                    stream.len() < 2 ==> options.deep_view() == Seq::<
                                        TokenTreeView,
                                    >::empty(),
                                    stream.len() >= 2 ==> i <= stream.len() && options.deep_view()
                                        == stream.deep_view().subrange(2, i as int),
                                decreases stream.len() - i,
                            {
                                push_tree(
                                    &mut options,
                                    clone_tree(&stream[i]),
                                );
                                i += 1;
                                assert(options.deep_view() =~= stream.deep_view().subrange(
                                    2,
                                    i as int,
                                ));
                            }
                            assert(options.deep_view() =~= call_options(tree@));
                            Some((name, options))
                        },
                        None => None,
                    }
                },
                _ => None,
            }
        },
        _ => None,
    }
}

impl Attribute {
    /// Whether the attribute is an `argument` annotation.
    pub fn is_argument(&self) -> (b: bool)
        ensures
            b == self@.is_argument(),
    {
        if self.path.len() == 0 {
            return false;
        }
        assert(self@.path[0] == self.path@[0]@);
        self.path[0] == String::from_str("argument")
    }

    /// Whether the attribute is well formed.
    pub fn is_well_formed(&self) -> (b: bool)
        ensures
            b == self@.well_formed(),
    {
        if self.path.len() == 0 {
            return false;
        }
        if !self.is_argument() {
            return true;
        }
        let mut j: usize = 0;
        while j < self.tokens.len()
            invariant
                j <= self.tokens.len(),
                self@.is_argument(),
                forall|k: int| 0 <= k < j ==> is_call(#[trigger] self@.tokens[k]),
            decreases self.tokens.len() - j,
        {
            assert(self@.tokens[j as int] == self.tokens@[j as int]@);
            if parse_call(&self.tokens[j]).is_none() {
                assert(!is_call(self@.tokens[j as int]));
                return false;
            }
            j += 1;
        }
        true
    }
}

/// Whether every attribute of `attrs` is well formed.
pub fn check_collectable(attrs: &Vec<Attribute>) -> (b: bool)
    ensures
        b == collectable(attrs.deep_view()),
{
    let mut i: usize = 0;
    while i < attrs.len()
        invariant
            i <= attrs.len(),
            forall|k: int| 0 <= k < i ==> (#[trigger] attrs.deep_view()[k]).well_formed(),
        decreases attrs.len() - i,
    {
        assert(attrs.deep_view()[i as int] == attrs@[i as int]@);
        if !attrs[i].is_well_formed() {
            return false;
        }
        i += 1;
    }
    true
}

/// Splits the attributes of the annotated function.
///
/// The first result holds, by parameter name, the options that the `argument`
/// annotations give. The second holds the other attributes, untouched and in
/// their order.
pub fn collect_argument_macro_attributes(attributes: Vec<Attribute>) -> (collected: (
    ArgumentOptions,
    Vec<Attribute>,
))
    requires
        collectable(attributes.deep_view()),
    ensures
        collected.0@ == collected_options(attributes.deep_view()),
        collected.1.deep_view() == remaining_attributes(attributes.deep_view()),
{
    let mut argument_macro_attributes = ArgumentOptions::new();
    let mut remaining_attributes: Vec<Attribute> = Vec::new();
    let ghost all = attributes.deep_view();
    let ghost is_other = |attr: AttributeView| !attr.is_argument();

    for attribute in iter: attributes
        invariant
            all == attributes.deep_view(),
            iter.seq() == attributes@,
            collectable(all),
            is_other == |attr: AttributeView| !attr.is_argument(),
            argument_macro_attributes@ == collected_options(all.take(iter.index() as int)),
            remaining_attributes.deep_view() == all.take(iter.index() as int).filter(is_other),
    {
        let ghost i = iter.index() as int;
        assert(all.take(i + 1).drop_last() =~= all.take(i));
        assert(all[i].well_formed());
        if attribute.is_argument() {
            let mut j: usize = 0;
            while j < attribute.tokens.len()
                invariant
                    j <= attribute.tokens.len(),
                    attribute@.well_formed(),
                    attribute@.is_argument(),
                    argument_macro_attributes@ == record_calls(
                        collected_options(all.take(i)),
                        attribute@.tokens.take(j as int),
                    ),
                decreases attribute.tokens.len() - j,
            {
                assert(attribute@.tokens.take(j + 1).drop_last() =~= attribute@.tokens.take(
                    j as int,
                ));
                assert(is_call(attribute@.tokens[j as int]));
                match parse_call(&attribute.tokens[j]) {
                    Some((name, options)) => {
                        argument_macro_attributes.insert(name, options);
                    },
                    None => {},
                }
                j += 1;
            }
            assert(attribute@.tokens.take(attribute.tokens.len() as int) =~= attribute@.tokens);
            proof {
                all.take(i).lemma_filter_push(all[i], is_other);
                assert(all.take(i + 1) =~= all.take(i).push(all[i]));
            }
        } else {
            proof {
                all.take(i).lemma_filter_push(all[i], is_other);
                assert(all.take(i + 1) =~= all.take(i).push(all[i]));
            }
            let ghost before = remaining_attributes.deep_view();
            remaining_attributes.push(attribute);
            assert(remaining_attributes.deep_view() =~= before.push(all[i]));
        }
    }
    assert(all.take(all.len() as int) =~= all);
    (argument_macro_attributes, remaining_attributes)
}

/// The options recorded for the parameter `name`, none if it has no
/// annotation.
pub open spec fn options_for(options: OptionsView, name: Seq<char>) -> Seq<TokenTreeView> {
    if options.dom().contains(name) {
        options[name]
    } else {
        Seq::empty()
    }
}

/// The schema field that the parameter `arg` becomes:
/// `#[structopt(options)] name: type,` with the parameter's name, its type
/// and the options recorded for its name.
pub open spec fn field(arg: FnArgView, options: OptionsView) -> Seq<TokenTreeView> {
    outer_attribute(
        seq![
            TokenTreeView::Ident("structopt"@),
            TokenTreeView::parenthesized(options_for(options, arg.name())),
        ],
    ) + seq![TokenTreeView::Ident(arg.name()), TokenTreeView::punct(':')] + arg.ty() + seq![
        TokenTreeView::punct(','),
    ]
}

/// The fields of the schema: one per parameter, in declaration order.
pub open spec fn fields(inputs: Seq<FnArgView>, options: OptionsView) -> Seq<TokenTreeView> {
    inputs.flat_map(|arg: FnArgView| field(arg, options))
}

/// The schema:
///
/// ```text
/// use clickrs::structopt::StructOpt;
///
/// #[derive(Debug, StructOpt)]
/// #[structopt(command_args)]
/// struct __CommandStruct { fields }
/// ```
pub open spec fn command_struct(
    command_args: Seq<TokenTreeView>,
    inputs: Seq<FnArgView>,
    options: OptionsView,
) -> Seq<TokenTreeView> {
    seq![TokenTreeView::Ident("use"@), TokenTreeView::Ident("clickrs"@)] + path_separator()
        + seq![TokenTreeView::Ident("structopt"@)] + path_separator()
        + seq![TokenTreeView::Ident("StructOpt"@), TokenTreeView::punct(';')] + outer_attribute(
        seq![
            TokenTreeView::Ident("derive"@),
            TokenTreeView::parenthesized(
                seq![
                    TokenTreeView::Ident("Debug"@),
                    TokenTreeView::punct(','),
                    TokenTreeView::Ident("StructOpt"@),
                ],
            ),
        ],
    ) + outer_attribute(
        seq![TokenTreeView::Ident("structopt"@), TokenTreeView::parenthesized(command_args)],
    ) + seq![
        TokenTreeView::Ident("struct"@),
        TokenTreeView::Ident("__CommandStruct"@),
        TokenTreeView::braced(fields(inputs, options)),
    ]
}

/// The argument that hands the parsed value of the parameter `arg` on:
/// `opts.name,`.
pub open spec fn field_access(arg: FnArgView) -> Seq<TokenTreeView> {
    seq![
        TokenTreeView::Ident("opts"@),
        TokenTreeView::punct('.'),
        TokenTreeView::Ident(arg.name()),
        TokenTreeView::punct(','),
    ]
}

/// The arguments of the call of the inner function: one per parameter, in
/// declaration order.
pub open spec fn inner_args(inputs: Seq<FnArgView>) -> Seq<TokenTreeView> {
    inputs.flat_map(|arg: FnArgView| field_access(arg))
}

/// The new entry point:
///
/// ```text
/// vis fn main() {
///     let opts = __CommandStruct::from_args();
///     __inner_main(inner_main_args);
/// }
/// ```
pub open spec fn main_fn(vis: Seq<TokenTreeView>, inputs: Seq<FnArgView>) -> Seq<TokenTreeView> {
    vis + seq![
        TokenTreeView::Ident("fn"@),
        TokenTreeView::Ident("main"@),
        TokenTreeView::parenthesized(Seq::empty()),
        TokenTreeView::braced(
            seq![
                TokenTreeView::Ident("let"@),
                TokenTreeView::Ident("opts"@),
                TokenTreeView::punct('='),
                TokenTreeView::Ident("__CommandStruct"@),
            ] + path_separator() + seq![
                TokenTreeView::Ident("from_args"@),
                TokenTreeView::parenthesized(Seq::empty()),
                TokenTreeView::punct(';'),
                TokenTreeView::Ident("__inner_main"@),
                TokenTreeView::parenthesized(inner_args(inputs)),
                TokenTreeView::punct(';'),
            ],
        ),
    ]
}

/// The function `item` under the name `__inner_main`: its body and its
/// signature as they were, and of its attributes those that are no `argument`
/// annotations, each where it stood and in their order.
pub open spec fn inner_main_fn(item: ItemFnView) -> Seq<TokenTreeView> {
    inner_main_item(item).tokens()
}

/// The function `item` with the name `__inner_main` in place of its own and
/// without its `argument` annotations. Nothing else of it is changed.
pub open spec fn inner_main_item(item: ItemFnView) -> ItemFnView {
    ItemFnView {
        attrs: remaining_attributes(item.attrs),
        vis: item.vis,
        sig: SignatureView {
            prefix: item.sig.prefix,
            ident: "__inner_main"@,
            generics: item.sig.generics,
            inputs: item.sig.inputs,
            trailing: item.sig.trailing,
            output: item.sig.output,
        },
        block: item.block,
    }
}

/// The function can be expanded: its attributes are well formed and each of
/// its parameters is bound to a single identifier.
pub open spec fn expandable(item: ItemFnView) -> bool {
    collectable(item.attrs) && all_named(item.sig.inputs)
}

/// What `#[command(args)]` puts in the place of the function `item`: the
/// schema, the function under its inner name, and the new entry point.
pub open spec fn expansion(args: Seq<TokenTreeView>, item: ItemFnView) -> Seq<TokenTreeView> {
    command_struct(args, item.sig.inputs, collected_options(item.attrs)) + inner_main_fn(item)
        + main_fn(item.vis, item.sig.inputs)
}

/// Whether the function can be expanded.
pub fn check_expandable(item: &ItemFn) -> (b: bool)
    ensures
        b == expandable(item@),
{
    check_collectable(&item.attrs) && check_all_named(&item.sig.inputs)
}

/// Builds the schema for the parameters of `input_itemfn`: a struct that
/// derives its command-line parser, with `command_args` as the options of the
/// program and, for each parameter, a field with the options that
/// `argument_macro_attributes` holds for it.
pub fn build_structopt_block(
    command_args: Vec<TokenTree>,
    input_itemfn: &ItemFn,
    argument_macro_attributes: &ArgumentOptions,
) -> (structopt_block: Vec<TokenTree>)
    requires
        all_named(input_itemfn@.sig.inputs),
    ensures
        structopt_block.deep_view() == command_struct(
            command_args.deep_view(),
            input_itemfn@.sig.inputs,
            argument_macro_attributes@,
        ),
{
    let inputs = &input_itemfn.sig.inputs;
    let ghost options = argument_macro_attributes@;
    let ghost to_field = |arg: FnArgView| field(arg, argument_macro_attributes@);

    let mut members_block: Vec<TokenTree> = Vec::new();
    let mut i: usize = 0;
    while i < inputs.len()
        invariant
            i <= inputs.len(),
            all_named(inputs.deep_view()),
            options == argument_macro_attributes@,
            to_field == |arg: FnArgView| field(arg, argument_macro_attributes@),
            members_block.deep_view() == inputs.deep_view().take(i as int).flat_map(to_field),
        decreases inputs.len() - i,
    {
        let main_arg = &inputs[i];
        let ghost arg = inputs.deep_view()[i as int];
        assert(arg == main_arg@);
        assert(arg.is_named());
        let ghost before = members_block.deep_view();

        match main_arg {
            FnArg::Typed(pat_type) => match &pat_type.pat {
                Pat::Ident(pat_ident) => {
                    let structopt_member_block = match argument_macro_attributes.get(
                        &pat_ident.ident,
                    ) {
                        Some(macro_args) => clone_stream(macro_args),
                        None => Vec::new(),
                    };
                    assert(structopt_member_block.deep_view() =~= options_for(
                        options,
                        arg.name(),
                    ));
                    let mut attribute: Vec<TokenTree> = Vec::new();
                    push_tree(&mut attribute, TokenTree::ident("structopt"));
                    push_tree(
                        &mut attribute,
                        TokenTree::group(Delimiter::Parenthesis, structopt_member_block),
                    );
                    assert(attribute.deep_view() =~= seq![
                        TokenTreeView::Ident("structopt"@),
                        TokenTreeView::parenthesized(options_for(options, arg.name())),
                    ]);
                    push_outer_attribute(&mut members_block, attribute);
                    push_tree(&mut members_block, TokenTree::Ident(pat_ident.ident.clone()));
                    push_tree(&mut members_block, TokenTree::punct(':'));
                    extend_stream(&mut members_block, &pat_type.ty);
                    push_tree(&mut members_block, TokenTree::punct(','));
                },
                _ => {},
            },
            _ => {},
        }
        proof {
            inputs.deep_view().lemma_flat_map_take_append(to_field, i as int);
            assert(members_block.deep_view() =~= before + field(arg, options));
        }
        i += 1;
    }
    assert(inputs.deep_view().take(inputs.len() as int) =~= inputs.deep_view());

    let mut structopt_block: Vec<TokenTree> = Vec::new();
    push_tree(&mut structopt_block, TokenTree::ident("use"));
    push_tree(&mut structopt_block, TokenTree::ident("clickrs"));
    push_path_separator(&mut structopt_block);
    push_tree(&mut structopt_block, TokenTree::ident("structopt"));
    push_path_separator(&mut structopt_block);
    push_tree(&mut structopt_block, TokenTree::ident("StructOpt"));
    push_tree(&mut structopt_block, TokenTree::punct(';'));

    let mut traits: Vec<TokenTree> = Vec::new();
    push_tree(&mut traits, TokenTree::ident("Debug"));
    push_tree(&mut traits, TokenTree::punct(','));
    push_tree(&mut traits, TokenTree::ident("StructOpt"));
    assert(traits.deep_view() =~= seq![
        TokenTreeView::Ident("Debug"@),
        TokenTreeView::punct(','),
        TokenTreeView::Ident("StructOpt"@),
    ]);
    let mut derive: Vec<TokenTree> = Vec::new();
    push_tree(&mut derive, TokenTree::ident("derive"));
    push_tree(&mut derive, TokenTree::group(Delimiter::Parenthesis, traits));
    assert(derive.deep_view() =~= seq![
        TokenTreeView::Ident("derive"@),
        TokenTreeView::parenthesized(
            seq![
                TokenTreeView::Ident("Debug"@),
                TokenTreeView::punct(','),
                TokenTreeView::Ident("StructOpt"@),
            ],
        ),
    ]);
    push_outer_attribute(&mut structopt_block, derive);

    let ghost command_args_view = command_args.deep_view();
    let mut program: Vec<TokenTree> = Vec::new();
    push_tree(&mut program, TokenTree::ident("structopt"));
    push_tree(&mut program, TokenTree::group(Delimiter::Parenthesis, command_args));
    assert(program.deep_view() =~= seq![
        TokenTreeView::Ident("structopt"@),
        TokenTreeView::parenthesized(command_args_view),
    ]);
    push_outer_attribute(&mut structopt_block, program);

    push_tree(&mut structopt_block, TokenTree::ident("struct"));
    push_tree(&mut structopt_block, TokenTree::ident("__CommandStruct"));
    push_tree(&mut structopt_block, TokenTree::group(Delimiter::Brace, members_block));
    assert(structopt_block.deep_view() =~= command_struct(
        command_args_view,
        input_itemfn@.sig.inputs,
        argument_macro_attributes@,
    ));
    structopt_block
}

/// Builds the arguments with which the new entry point calls the inner
/// function: for each parameter of `input_itemfn`, in declaration order, the
/// field of the parsed schema that has its name.
pub fn build_inner_main_args(input_itemfn: &ItemFn) -> (inner_main_args: Vec<TokenTree>)
    requires
        all_named(input_itemfn@.sig.inputs),
    ensures
        inner_main_args.deep_view() == inner_args(input_itemfn@.sig.inputs),
{
    let inputs = &input_itemfn.sig.inputs;
    let ghost to_access = |arg: FnArgView| field_access(arg);

    let mut inner_main_args: Vec<TokenTree> = Vec::new();
    let mut i: usize = 0;
    while i < inputs.len()
        invariant
            i <= inputs.len(),
            all_named(inputs.deep_view()),
            to_access == |arg: FnArgView| field_access(arg),
            inner_main_args.deep_view() == inputs.deep_view().take(i as int).flat_map(to_access),
        decreases inputs.len() - i,
    {
        let ghost arg = inputs.deep_view()[i as int];
        assert(arg == inputs[i as int]@);
        assert(arg.is_named());
        let ghost before = inner_main_args.deep_view();
        match &inputs[i] {
            FnArg::Typed(pat_type) => match &pat_type.pat {
                Pat::Ident(pat_ident) => {
                    push_tree(&mut inner_main_args, TokenTree::ident("opts"));
                    push_tree(&mut inner_main_args, TokenTree::punct('.'));
                    push_tree(&mut inner_main_args, TokenTree::Ident(pat_ident.ident.clone()));
                    push_tree(&mut inner_main_args, TokenTree::punct(','));
                },
                _ => {},
            },
            _ => {},
        }
        proof {
            inputs.deep_view().lemma_flat_map_take_append(to_access, i as int);
            assert(inner_main_args.deep_view() =~= before + field_access(arg));
        }
        i += 1;
    }
    assert(inputs.deep_view().take(inputs.len() as int) =~= inputs.deep_view());
    inner_main_args
}

/// Spells the function `input` out under the name `__inner_main`, with
/// `remaining` as its attributes.
pub(crate) fn build_inner_main_fn(remaining: &Vec<Attribute>, input: &ItemFn) -> (inner: Vec<
    TokenTree,
>)
    requires
        remaining.deep_view() == remaining_attributes(input@.attrs),
    ensures
        inner.deep_view() == inner_main_fn(input@),
{
    let mut inner = spell_attributes(remaining, AttrStyle::Outer);
    extend_stream(&mut inner, &input.vis);
    let signature = input.sig.to_tokens_as("__inner_main");
    append_stream(&mut inner, signature);
    let mut body = spell_attributes(remaining, AttrStyle::Inner);
    extend_stream(&mut body, &input.block);
    push_tree(&mut inner, TokenTree::group(Delimiter::Brace, body));
    assert(inner.deep_view() =~= inner_main_fn(input@));
    inner
}

/// Expands `#[command(args_stream)]` on the function `input`.
///
/// The result holds, in this order: the schema that
/// [`build_structopt_block`] builds from the parameters and the `argument`
/// annotations; the function itself, renamed to `__inner_main`, with every
/// attribute that is no `argument` annotation still on it; and a `main` of
/// the same visibility that parses the command line into the schema and calls
/// `__inner_main` with its fields.
pub fn command(args_stream: Vec<TokenTree>, input: ItemFn) -> (main_block: Vec<TokenTree>)
    requires
        expandable(input@),
    ensures
        main_block.deep_view() == expansion(args_stream.deep_view(), input@),
{
    let ghost args = args_stream.deep_view();
    let collect_result = collect_argument_macro_attributes(clone_attributes(&input.attrs));
    let argument_macro_attributes = collect_result.0;
    let remaining_attributes = collect_result.1;

    let mut main_block = build_structopt_block(args_stream, &input, &argument_macro_attributes);
    let inner_main_args = build_inner_main_args(&input);

    append_stream(&mut main_block, build_inner_main_fn(&remaining_attributes, &input));
    assert(main_block.deep_view() =~= command_struct(
        args,
        input@.sig.inputs,
        collected_options(input@.attrs),
    ) + inner_main_fn(input@));

    let mut body: Vec<TokenTree> = Vec::new();
    push_tree(&mut body, TokenTree::ident("let"));
    push_tree(&mut body, TokenTree::ident("opts"));
    push_tree(&mut body, TokenTree::punct('='));
    push_tree(&mut body, TokenTree::ident("__CommandStruct"));
    push_path_separator(&mut body);
    push_tree(&mut body, TokenTree::ident("from_args"));
    push_tree(&mut body, TokenTree::unit());
    push_tree(&mut body, TokenTree::punct(';'));
    push_tree(&mut body, TokenTree::ident("__inner_main"));
    push_tree(&mut body, TokenTree::group(Delimiter::Parenthesis, inner_main_args));
    push_tree(&mut body, TokenTree::punct(';'));

    assert(body.deep_view() =~= seq![
        TokenTreeView::Ident("let"@),
        TokenTreeView::Ident("opts"@),
        TokenTreeView::punct('='),
        TokenTreeView::Ident("__CommandStruct"@),
    ] + path_separator() + seq![
        TokenTreeView::Ident("from_args"@),
        TokenTreeView::parenthesized(Seq::empty()),
        TokenTreeView::punct(';'),
        TokenTreeView::Ident("__inner_main"@),
        TokenTreeView::parenthesized(inner_args(input@.sig.inputs)),
        TokenTreeView::punct(';'),
    ]);

    let ghost before = main_block.deep_view();
    extend_stream(&mut main_block, &input.vis);
    push_tree(&mut main_block, TokenTree::ident("fn"));
    push_tree(&mut main_block, TokenTree::ident("main"));
    push_tree(&mut main_block, TokenTree::unit());
    push_tree(&mut main_block, TokenTree::group(Delimiter::Brace, body));
    assert(main_block.deep_view() =~= before + main_fn(input@.vis, input@.sig.inputs));
    main_block
}

/// [`command`] for any function: the expansion where the function can be
/// expanded, and nothing where it cannot.
pub fn try_command(args_stream: Vec<TokenTree>, input: ItemFn) -> (main_block: Option<
    Vec<TokenTree>,
>)
    ensures
        main_block is Some == expandable(input@),
        main_block matches Some(tokens) ==> tokens.deep_view() == expansion(
            args_stream.deep_view(),
            input@,
        ),
{
    if check_expandable(&input) {
        Some(command(args_stream, input))
    } else {
        None
    }
}

/// An attribute comes through the splitting untouched exactly if it stands
/// on the function and is no `argument` annotation.
pub proof fn lemma_remaining_attributes_are_the_others(
    attrs: Seq<AttributeView>,
    attr: AttributeView,
)
    ensures
        remaining_attributes(attrs).contains(attr) <==> attrs.contains(attr)
            && !attr.is_argument(),
{
    let is_other = |attr: AttributeView| !attr.is_argument();
    let remaining = attrs.filter(is_other);
    if remaining.contains(attr) {
        let i = choose|i: int| 0 <= i < remaining.len() && remaining[i] == attr;
        attrs.lemma_filter_pred(is_other, i);
        attrs.lemma_filter_contains_rev(is_other, attr);
    }
    if attrs.contains(attr) && !attr.is_argument() {
        let i = choose|i: int| 0 <= i < attrs.len() && attrs[i] == attr;
        attrs.lemma_filter_contains(is_other, i);
    }
}

/// The splitting keeps the order of the attributes: what remains of two runs
/// of attributes, one after the other, is what remains of the first and then
/// what remains of the second.
pub proof fn lemma_remaining_attributes_keep_their_order(
    first: Seq<AttributeView>,
    second: Seq<AttributeView>,
)
    ensures
        remaining_attributes(first + second) == remaining_attributes(first)
            + remaining_attributes(second),
{
    Seq::filter_distributes_over_add(first, second, |attr: AttributeView| !attr.is_argument());
}

/// The arguments of all `argument` annotations among `attrs`, in the order in
/// which they stand on the function.
pub open spec fn argument_calls(attrs: Seq<AttributeView>) -> Seq<TokenTreeView> {
    attrs.filter(|attr: AttributeView| attr.is_argument()).flat_map(
        |attr: AttributeView| attr.tokens,
    )
}

/// Recording one run of annotation arguments and then another is recording
/// the two runs as one.
proof fn lemma_record_calls_in_turn(
    options: OptionsView,
    first: Seq<TokenTreeView>,
    second: Seq<TokenTreeView>,
)
    ensures
        record_calls(options, first + second) == record_calls(
            record_calls(options, first),
            second,
        ),
    decreases second.len(),
{
    if second.len() == 0 {
        assert(first + second =~= first);
    } else {
        assert((first + second).drop_last() =~= first + second.drop_last());
        lemma_record_calls_in_turn(options, first, second.drop_last());
    }
}

/// The options collected from the attributes are those recorded from the
/// arguments of the `argument` annotations, read as one run.
pub proof fn lemma_collected_options_by_calls(attrs: Seq<AttributeView>)
    ensures
        collected_options(attrs) == record_calls(OptionsView::empty(), argument_calls(attrs)),
    decreases attrs.len(),
{
    let is_argument = |attr: AttributeView| attr.is_argument();
    let tokens = |attr: AttributeView| attr.tokens;
    if attrs.len() == 0 {
        reveal(Seq::filter);
        assert(attrs.filter(is_argument).map_values(tokens) =~= Seq::empty());
    } else {
        let before = attrs.drop_last();
        let attr = attrs.last();
        assert(before.push(attr) =~= attrs);
        lemma_collected_options_by_calls(before);
        before.lemma_filter_push(attr, is_argument);
        if attr.is_argument() {
            before.filter(is_argument).lemma_flat_map_push(tokens, attr);
            lemma_record_calls_in_turn(
                OptionsView::empty(),
                argument_calls(before),
                attr.tokens,
            );
        }
    }
}

/// After a run of annotation arguments a name has options exactly if it had
/// some before or one of the arguments names it.
proof fn lemma_recorded_names(options: OptionsView, calls: Seq<TokenTreeView>, name: Seq<char>)
    ensures
        record_calls(options, calls).dom().contains(name) <==> options.dom().contains(name)
            || exists|k: int| 0 <= k < calls.len() && #[trigger] call_name(calls[k]) == name,
    decreases calls.len(),
{
    if calls.len() > 0 {
        let before = calls.drop_last();
        lemma_recorded_names(options, before, name);
        if exists|k: int| 0 <= k < calls.len() && #[trigger] call_name(calls[k]) == name {
            let k = choose|k: int| 0 <= k < calls.len() && #[trigger] call_name(calls[k]) == name;
            if k < calls.len() - 1 {
                assert(call_name(before[k]) == name);
            }
        }
        if record_calls(options, calls).dom().contains(name) && !options.dom().contains(name) {
            if call_name(calls.last()) == name {
                assert(call_name(calls[calls.len() - 1]) == name);
            } else {
                let k = choose|k: int|
                    0 <= k < before.len() && #[trigger] call_name(before[k]) == name;
                assert(call_name(calls[k]) == name);
            }
        }
    }
}

/// After a run of annotation arguments, the last of them that names a
/// parameter decides its options.
proof fn lemma_recorded_last(options: OptionsView, calls: Seq<TokenTreeView>, k: int)
    requires
        0 <= k < calls.len(),
        forall|l: int|
            k < l < calls.len() ==> #[trigger] call_name(calls[l]) != call_name(calls[k]),
    ensures
        record_calls(options, calls).dom().contains(call_name(calls[k])),
        record_calls(options, calls)[call_name(calls[k])] == call_options(calls[k]),
    decreases calls.len(),
{
    if k < calls.len() - 1 {
        let before = calls.drop_last();
        assert(call_name(calls[calls.len() - 1]) != call_name(calls[k]));
        assert forall|l: int| k < l < before.len() implies #[trigger] call_name(before[l])
            != call_name(before[k]) by {
            assert(call_name(calls[l]) != call_name(calls[k]));
        }
        lemma_recorded_last(options, before, k);
    }
}

/// Options are filed under a name exactly if some `argument` annotation
/// names it.
pub proof fn lemma_collected_names(attrs: Seq<AttributeView>, name: Seq<char>)
    ensures
        collected_options(attrs).dom().contains(name) <==> exists|k: int|
            0 <= k < argument_calls(attrs).len() && #[trigger] call_name(argument_calls(attrs)[k])
                == name,
{
    lemma_collected_options_by_calls(attrs);
    lemma_recorded_names(OptionsView::empty(), argument_calls(attrs), name);
}

/// The last annotation wins: the options filed under a name are those of the
/// last `argument` annotation that names it.
pub proof fn lemma_last_annotation_wins(attrs: Seq<AttributeView>, k: int)
    requires
        0 <= k < argument_calls(attrs).len(),
        forall|l: int|
            k < l < argument_calls(attrs).len() ==> #[trigger] call_name(argument_calls(attrs)[l])
                != call_name(argument_calls(attrs)[k]),
    ensures
        collected_options(attrs).dom().contains(call_name(argument_calls(attrs)[k])),
        collected_options(attrs)[call_name(argument_calls(attrs)[k])] == call_options(
            argument_calls(attrs)[k],
        ),
{
    lemma_collected_options_by_calls(attrs);
    lemma_recorded_last(OptionsView::empty(), argument_calls(attrs), k);
}

/// Without `argument` annotations no options are collected, and every
/// attribute remains.
pub proof fn lemma_nothing_to_collect(attrs: Seq<AttributeView>)
    requires
        forall|i: int| 0 <= i < attrs.len() ==> !(#[trigger] attrs[i]).is_argument(),
    ensures
        collected_options(attrs) == OptionsView::empty(),
        remaining_attributes(attrs) == attrs,
    decreases attrs.len(),
{
    reveal(Seq::filter);
    if attrs.len() > 0 {
        let before = attrs.drop_last();
        lemma_nothing_to_collect(before);
        assert(!attrs[attrs.len() - 1].is_argument());
        assert(before.push(attrs.last()) =~= attrs);
    }
}

/// The schema has one field per parameter, in declaration order: the fields
/// for a list of parameters and one more are the fields for the list and
/// then the field for the one.
pub proof fn lemma_fields_follow_the_parameters(
    inputs: Seq<FnArgView>,
    arg: FnArgView,
    options: OptionsView,
)
    ensures
        fields(inputs.push(arg), options) == fields(inputs, options) + field(arg, options),
{
    inputs.lemma_flat_map_push(|arg: FnArgView| field(arg, options), arg);
}

/// A parameter that no annotation names becomes a field with empty options:
/// `#[structopt()] name: type,`.
pub proof fn lemma_field_without_annotation(arg: FnArgView, options: OptionsView)
    requires
        !options.dom().contains(arg.name()),
    ensures
        field(arg, options) == outer_attribute(
            seq![
                TokenTreeView::Ident("structopt"@),
                TokenTreeView::parenthesized(Seq::empty()),
            ],
        ) + seq![TokenTreeView::Ident(arg.name()), TokenTreeView::punct(':')] + arg.ty() + seq![
            TokenTreeView::punct(','),
        ],
{
}

/// The inner function is called positionally: the call has four tokens per
/// parameter, and the tokens at the place of the `j`-th parameter read
/// `opts.name,` with the name of that parameter.
pub proof fn lemma_inner_args_are_positional(inputs: Seq<FnArgView>, j: int)
    requires
        0 <= j < inputs.len(),
    ensures
        inner_args(inputs).len() == 4 * inputs.len(),
        inner_args(inputs).subrange(4 * j, 4 * j + 4) == field_access(inputs[j]),
    decreases inputs.len(),
{
    let before = inputs.drop_last();
    let to_access = |arg: FnArgView| field_access(arg);
    assert(before.push(inputs.last()) =~= inputs);
    before.lemma_flat_map_push(to_access, inputs.last());
    lemma_inner_args_len(before);
    if j < inputs.len() - 1 {
        lemma_inner_args_are_positional(before, j);
        assert(inner_args(inputs).subrange(4 * j, 4 * j + 4) =~= inner_args(before).subrange(
            4 * j,
            4 * j + 4,
        ));
    } else {
        assert(inner_args(inputs).subrange(4 * j, 4 * j + 4) =~= field_access(inputs[j]));
    }
}

/// The call of the inner function has four tokens per parameter.
proof fn lemma_inner_args_len(inputs: Seq<FnArgView>)
    ensures
        inner_args(inputs).len() == 4 * inputs.len(),
    decreases inputs.len(),
{
    if inputs.len() > 0 {
        let before = inputs.drop_last();
        assert(before.push(inputs.last()) =~= inputs);
        before.lemma_flat_map_push(|arg: FnArgView| field_access(arg), inputs.last());
        lemma_inner_args_len(before);
    } else {
        assert(inputs.map_values(|arg: FnArgView| field_access(arg)) =~= Seq::empty());
    }
}

/// The attributes that stay on the function are spelled out one by one, in
/// their order, each at the place where it stood: those for a run of
/// attributes and one more are those for the run, and then the one if it
/// stands at `style`.
pub proof fn lemma_attributes_are_spelled_in_order(
    attrs: Seq<AttributeView>,
    attr: AttributeView,
    style: AttrStyle,
)
    ensures
        spelled_attributes(attrs.push(attr), style) == spelled_attributes(attrs, style) + (
        if attr.style == style {
            attr.spelled()
        } else {
            Seq::empty()
        }),
{
    let at_style = |attr: AttributeView| attr.style == style;
    let spell = |attr: AttributeView| attr.spelled();
    attrs.lemma_filter_push(attr, at_style);
    attrs.filter(at_style).lemma_flat_map_push(spell, attr);
    assert(spelled_attributes(attrs, style) + Seq::<TokenTreeView>::empty()
        =~= spelled_attributes(attrs, style));
}

/// No attribute that is no `argument` annotation is lost: each is spelled
/// out, as it was, among the attributes that the inner function carries at
/// the place where it stood.
pub proof fn lemma_every_other_attribute_is_spelled(attrs: Seq<AttributeView>, i: int)
    requires
        0 <= i < attrs.len(),
        !attrs[i].is_argument(),
    ensures
        ({
            let carried = spelled_attributes(remaining_attributes(attrs), attrs[i].style);
            let spelled = attrs[i].spelled();
            exists|at: int|
                0 <= at && at + spelled.len() <= carried.len() && #[trigger] carried.subrange(
                    at,
                    at + spelled.len(),
                ) == spelled
        }),
    decreases attrs.len(),
{
    let style = attrs[i].style;
    let spelled = attrs[i].spelled();
    let before = attrs.drop_last();
    let last = attrs.last();
    let carried = spelled_attributes(remaining_attributes(attrs), style);
    let carried_before = spelled_attributes(remaining_attributes(before), style);
    assert(before.push(last) =~= attrs);
    before.lemma_filter_push(last, |attr: AttributeView| !attr.is_argument());
    if last.is_argument() {
        assert(carried == carried_before);
    } else {
        lemma_attributes_are_spelled_in_order(remaining_attributes(before), last, style);
    }
    if i == attrs.len() - 1 {
        let at = carried_before.len() as int;
        assert(carried.subrange(at, at + spelled.len()) =~= spelled);
    } else {
        lemma_every_other_attribute_is_spelled(before, i);
        let at = choose|at: int|
            0 <= at && at + spelled.len() <= carried_before.len()
                && #[trigger] carried_before.subrange(at, at + spelled.len()) == spelled;
        assert(carried.subrange(at, at + spelled.len()) =~= carried_before.subrange(
            at,
            at + spelled.len(),
        ));
    }
}

/// An attribute that is no `argument` annotation is not lost: on a function
/// whose only attribute it is, the inner function carries it, spelled as it
/// was, in front of the visibility if it is an outer attribute and at the
/// head of the body if it is an inner one.
pub proof fn lemma_other_attribute_stays(item: ItemFnView)
    requires
        item.attrs.len() == 1,
        !item.attrs[0].is_argument(),
    ensures
        item.attrs[0].style == AttrStyle::Outer ==> inner_main_fn(item) == item.attrs[0].spelled()
            + item.vis + item.sig.tokens_as("__inner_main"@) + seq![
            TokenTreeView::braced(item.block),
        ],
        item.attrs[0].style == AttrStyle::Inner ==> inner_main_fn(item) == item.vis
            + item.sig.tokens_as("__inner_main"@) + seq![
            TokenTreeView::braced(item.attrs[0].spelled() + item.block),
        ],
{
    let attr = item.attrs[0];
    let none = Seq::<AttributeView>::empty();
    assert(none.push(attr) =~= item.attrs);
    lemma_nothing_to_collect(item.attrs);
    lemma_attributes_are_spelled_in_order(none, attr, AttrStyle::Outer);
    lemma_attributes_are_spelled_in_order(none, attr, AttrStyle::Inner);
    reveal(Seq::filter);
    assert(none.filter(|attr: AttributeView| attr.style == AttrStyle::Outer).map_values(
        |attr: AttributeView| attr.spelled(),
    ) =~= Seq::empty());
    assert(none.filter(|attr: AttributeView| attr.style == AttrStyle::Inner).map_values(
        |attr: AttributeView| attr.spelled(),
    ) =~= Seq::empty());
    let empty = Seq::<TokenTreeView>::empty();
    assert(empty + attr.spelled() =~= attr.spelled());
    assert(empty + empty =~= empty);
    assert(empty + item.block =~= item.block);
    assert(empty + item.vis =~= item.vis);
}

/// The parameter list of the inner function has the parameters in
/// declaration order, a comma between each two: the list for some parameters
/// and one more is the list for those, a comma, and the one.
pub proof fn lemma_parameter_list_follows_the_parameters(inputs: Seq<FnArgView>, arg: FnArgView)
    ensures
        separated(inputs.push(arg)) == if inputs.len() == 0 {
            arg.tokens()
        } else {
            separated(inputs) + seq![TokenTreeView::punct(',')] + arg.tokens()
        },
{
    let listed = |arg: FnArgView| arg.listed();
    assert(inputs.push(arg).drop_last() =~= inputs);
    if inputs.len() == 0 {
        assert(inputs.map_values(listed) =~= Seq::empty());
        assert(separated(inputs.push(arg)) =~= arg.tokens());
    } else {
        assert(inputs.drop_last().push(inputs.last()) =~= inputs);
        inputs.drop_last().lemma_flat_map_push(listed, inputs.last());
        assert(separated(inputs.push(arg)) =~= separated(inputs) + seq![
            TokenTreeView::punct(','),
        ] + arg.tokens());
    }
}

/// The inner function differs from the function in its name only, once the
/// `argument` annotations are taken off: a function without such annotations
/// and already called `__inner_main` is spelled out as it is.
pub proof fn lemma_inner_function_is_the_function_renamed(item: ItemFnView)
    requires
        forall|i: int| 0 <= i < item.attrs.len() ==> !(#[trigger] item.attrs[i]).is_argument(),
    ensures
        inner_main_item(item).attrs == item.attrs,
        inner_main_item(item).vis == item.vis,
        inner_main_item(item).block == item.block,
        inner_main_item(item).sig.tokens_as(item.sig.ident) == item.sig.tokens_as(item.sig.ident),
        item.sig.ident == "__inner_main"@ ==> inner_main_fn(item) == item.tokens(),
{
    lemma_nothing_to_collect(item.attrs);
}

/// The schema field, the argument of the call and the parameter of the inner
/// function that belong to one parameter agree: the field and the argument
/// name the identifier that the parameter binds, and the field has the type
/// that the parameter declares.
pub proof fn lemma_parameter_is_spelled_alike(arg: FnArgView, options: OptionsView)
    requires
        arg.is_named(),
    ensures
        ({
            let typed = arg->Typed_0;
            let pat = typed.pat->Ident_0;
            let at = typed.attrs.len() + (if pat.by_ref {
                1int
            } else {
                0int
            }) + (if pat.mutable {
                1int
            } else {
                0int
            });
            let field = field(arg, options);
            let parameter = arg.tokens();
            &&& field.len() == 5 + typed.ty.len()
            &&& field[2] == TokenTreeView::Ident(pat.ident)
            &&& field.subrange(4, 4 + typed.ty.len() as int) == typed.ty
            &&& field_access(arg)[2] == TokenTreeView::Ident(pat.ident)
            &&& at < parameter.len()
            &&& parameter[at] == TokenTreeView::Ident(pat.ident)
            &&& parameter.subrange(parameter.len() - typed.ty.len(), parameter.len() as int)
                == typed.ty
        }),
{
    let typed = arg->Typed_0;
    let field = field(arg, options);
    let parameter = arg.tokens();
    assert(field.subrange(4, 4 + typed.ty.len() as int) =~= typed.ty);
    assert(parameter.subrange(parameter.len() - typed.ty.len(), parameter.len() as int)
        =~= typed.ty);
}

/// Where no two `argument` annotations name the same parameter, there are as
/// many entries of options as annotations.
pub proof fn lemma_distinct_names_are_counted(attrs: Seq<AttributeView>)
    requires
        forall|k: int, l: int|
            0 <= k < l < argument_calls(attrs).len() ==> call_name(
                #[trigger] argument_calls(attrs)[k],
            ) != call_name(#[trigger] argument_calls(attrs)[l]),
    ensures
        collected_options(attrs).dom().finite(),
        collected_options(attrs).dom().len() == argument_calls(attrs).len(),
{
    lemma_collected_options_by_calls(attrs);
    lemma_recorded_count(argument_calls(attrs));
}

/// A run of annotation arguments with pairwise different names records as
/// many entries as it has arguments.
proof fn lemma_recorded_count(calls: Seq<TokenTreeView>)
    requires
        forall|k: int, l: int|
            0 <= k < l < calls.len() ==> call_name(#[trigger] calls[k]) != call_name(
                #[trigger] calls[l],
            ),
    ensures
        record_calls(OptionsView::empty(), calls).dom().finite(),
        record_calls(OptionsView::empty(), calls).dom().len() == calls.len(),
    decreases calls.len(),
{
    if calls.len() > 0 {
        let before = calls.drop_last();
        let name = call_name(calls.last());
        assert forall|k: int, l: int| 0 <= k < l < before.len() implies call_name(
            #[trigger] before[k],
        ) != call_name(#[trigger] before[l]) by {
            assert(call_name(calls[k]) != call_name(calls[l]));
        }
        lemma_recorded_count(before);
        lemma_recorded_names(OptionsView::empty(), before, name);
        if exists|k: int| 0 <= k < before.len() && #[trigger] call_name(before[k]) == name {
            let k = choose|k: int| 0 <= k < before.len() && #[trigger] call_name(before[k]) == name;
            assert(call_name(calls[k]) != call_name(calls[calls.len() - 1]));
        }
    }
}

} // verus!
