//! What a call gives for a definition, told by what is handed in and what comes back alone.
use crate::config::HoverConfig;
use crate::definition;
use crate::definition::{
    AssocItemContainer, Definition, DefinitionKind, Item, Local, ModulePath,
};
use crate::docs;
use crate::docs_laws;
use crate::laws;
use crate::markup::Markup;
use crate::semantics::FamousDefs;
use crate::syntax::SyntaxKind;
use crate::text;
use either::Either;
use vstd::prelude::*;

verus! {

/// Nothing on the way to the module has a name.
pub open spec fn is_nameless(module: ModulePath) -> bool {
    &&& module.crate_name is None
    &&& forall|i: int|
        0 <= i < module.path_to_root@.len() ==> (#[trigger] module.path_to_root@[i]) is None
}

proof fn lemma_nameless_segments(names: Seq<Option<String>>)
    ensures
        definition::module_segments(names).len() == 0 <==> (forall|i: int|
            0 <= i < names.len() ==> (#[trigger] names[i]) is None),
    decreases names.len(),
{
    if names.len() > 0 {
        let rest = names.drop_first();
        lemma_nameless_segments(rest);
        if definition::module_segments(names).len() == 0 {
            assert(names[0] is None);
            assert forall|i: int| 0 <= i < names.len() implies (#[trigger] names[i]) is None by {
                if i > 0 {
                    assert(rest[i - 1] is None);
                }
            }
        }
        if forall|i: int| 0 <= i < names.len() ==> (#[trigger] names[i]) is None {
            assert forall|i: int| 0 <= i < rest.len() implies (#[trigger] rest[i]) is None by {
                assert(names[i + 1] is None);
            }
            assert(names[0] is None);
        }
    }
}

proof fn lemma_nameless(module: ModulePath)
    ensures
        definition::path_segments(module, None).len() == 0 <==> is_nameless(module),
{
    lemma_nameless_segments(module.path_to_root@);
}

/// Where nothing has a name, the path is empty, or the name of the item alone.
pub proof fn law_nameless_path_is_the_item(
    module: &ModulePath,
    item_name: Option<String>,
    res: String,
)
    requires
        call_ensures(definition::path, (module, item_name), res),
        is_nameless(*module),
    ensures
        item_name is None ==> res@.len() == 0,
        item_name is Some ==> res@ == item_name->0@,
{
    lemma_nameless(*module);
    if item_name is Some {
        laws::law_path_ends_with_item(*module, item_name->0@);
    }
}

/// Where anything has a name, the name of an item goes behind the path to its module.
pub proof fn law_item_goes_behind_module(
    module: &ModulePath,
    item_name: Option<String>,
    to_module: String,
    res: String,
)
    requires
        call_ensures(definition::path, (module, None::<String>), to_module),
        call_ensures(definition::path, (module, item_name), res),
        item_name is Some,
        !is_nameless(*module),
    ensures
        res@ == to_module@ + "::"@ + item_name->0@,
{
    lemma_nameless(*module);
    laws::law_path_ends_with_item(*module, item_name->0@);
}

/// A module goes behind the modules around it, and one without a name leaves no trace.
pub proof fn law_inner_module_goes_behind(
    module: &ModulePath,
    outer: &ModulePath,
    name: Option<String>,
    to_outer: String,
    res: String,
)
    requires
        call_ensures(definition::path, (module, None::<String>), res),
        call_ensures(definition::path, (outer, None::<String>), to_outer),
        module.crate_name == outer.crate_name,
        module.path_to_root@ == seq![name] + outer.path_to_root@,
    ensures
        name is None ==> res@ == to_outer@,
        name is Some && is_nameless(*outer) ==> res@ == name->0@,
        name is Some && !is_nameless(*outer) ==> res@ == to_outer@ + "::"@ + name->0@,
{
    assert(module.path_to_root@.drop_first() =~= outer.path_to_root@);
    let around = definition::path_segments(*outer, None);
    lemma_nameless(*outer);
    if name is Some {
        assert(definition::path_segments(*module, None) =~= around.push(name->0@));
        laws::lemma_join_one_more(around, name->0@, "::"@);
    } else {
        assert(definition::path_segments(*module, None) =~= around);
    }
}

/// The name of the crate goes before all others.
pub proof fn law_crate_goes_first(
    module: &ModulePath,
    within: &ModulePath,
    item_name: Option<String>,
    in_crate: String,
    res: String,
)
    requires
        call_ensures(definition::path, (module, item_name), res),
        call_ensures(definition::path, (within, item_name), in_crate),
        module.crate_name is Some,
        within.crate_name is None,
        module.path_to_root@ == within.path_to_root@,
    ensures
        is_nameless(*within) && item_name is None ==> res@ == module.crate_name->0@,
        !is_nameless(*within) || item_name is Some ==> res@ == module.crate_name->0@ + "::"@
            + in_crate@,
{
    let parts = definition::path_segments(*module, text::opt_text(item_name));
    let rest = definition::path_segments(*within, text::opt_text(item_name));
    lemma_nameless(*within);
    assert(rest.len() == 0 <==> is_nameless(*within) && item_name is None);
    assert(parts =~= seq![module.crate_name->0@] + rest);
    assert(parts.drop_first() =~= rest);
}

/// A field is owned by its type, a variant by its enum, a local variable by what it is local
/// to, an associated function by its trait or type, and nothing else is owned.
pub proof fn law_owner_is_named(def: &Definition, res: Option<String>)
    requires
        call_ensures(definition::definition_owner_name, (def,), res),
    ensures
        match def.kind {
            DefinitionKind::Field(_, owner) => res is Some && res->0@ == owner@,
            DefinitionKind::Variant(_, owner) => res is Some && res->0@ == owner@,
            DefinitionKind::Function(_, Some(AssocItemContainer::Trait(owner))) => res is Some
                && res->0@ == owner@,
            DefinitionKind::Function(_, Some(AssocItemContainer::Impl(Some(owner)))) => res is Some
                && res->0@ == owner@,
            DefinitionKind::Local(Local { parent: Some(owner), .. }) => res is Some && res->0@
                == owner@,
            _ => res is None,
        },
{
}

/// The path to a definition is that to its owner in its module; a generic parameter, and what
/// stands in no module, have none.
pub proof fn law_path_leads_to_owner(
    def: &Definition,
    owner: Option<String>,
    to_owner: String,
    res: Option<String>,
)
    requires
        call_ensures(definition::definition_mod_path, (def,), res),
        call_ensures(definition::definition_owner_name, (def,), owner),
        def.module is Some ==> call_ensures(
            definition::path,
            (&def.module->0, owner),
            to_owner,
        ),
    ensures
        def.kind is GenericParam || def.module is None ==> res is None,
        !(def.kind is GenericParam) && def.module is Some ==> res is Some && res->0@ == to_owner@,
{
}

/// An item is labelled as it is written, and has its own documentation.
pub proof fn law_label_is_as_written(item: &Item, res: (String, Option<String>))
    requires
        call_ensures(definition::label_and_docs, (item,), res),
    ensures
        res.0@ == item.display@,
        item.docs is None ==> res.1 is None,
        item.docs is Some ==> res.1 is Some && res.1->0@ == item.docs->0@,
{
    assert(text::opt_text(res.1) == text::opt_text(item.docs));
}

/// A value goes behind the label where it is known.
pub proof fn law_value_goes_behind_label(
    item: &Item,
    value: &Option<String>,
    res: (String, Option<String>),
)
    requires
        call_ensures(definition::label_value_and_docs, (item, value), res),
    ensures
        value is None ==> res.0@ == item.display@,
        value is Some ==> res.0@ == item.display@ + " = "@ + value->0@,
        item.docs is None ==> res.1 is None,
        item.docs is Some ==> res.1 is Some && res.1->0@ == item.docs->0@,
{
    assert(text::opt_text(res.1) == text::opt_text(item.docs));
}

/// The path in a block of its own, nothing where there is none or it is empty.
pub open spec fn head(path: Option<String>) -> Seq<char> {
    if path is Some && path->0@.len() > 0 {
        docs_laws::code(path->0@) + "\n\n"@
    } else {
        Seq::empty()
    }
}

/// The documentation after a line, nothing where there is none or it is not wanted.
pub open spec fn tail(docs: Option<String>, config: HoverConfig) -> Seq<char> {
    if docs is Some && config.documentation is Some {
        "\n___\n\n"@ + docs->0@
    } else {
        Seq::empty()
    }
}

/// The hover shows the label as code, the path before it unless there is none or it is empty,
/// and the documentation behind it where there is any and it is wanted.
pub open spec fn shows_item(
    res: Option<Markup>,
    path: Option<String>,
    label: Seq<char>,
    docs: Option<String>,
    config: HoverConfig,
) -> bool {
    &&& res is Some
    &&& res->0.text@ == head(path) + docs_laws::code(label) + tail(docs, config)
}

proof fn lemma_shows_item(
    def: &Definition,
    famous_defs: Option<&FamousDefs>,
    config: &HoverConfig,
    path: Option<String>,
    res: Option<Markup>,
    label: Seq<char>,
    docs: Option<String>,
)
    requires
        call_ensures(definition::definition, (def, famous_defs, config), res),
        call_ensures(definition::definition_mod_path, (def,), path),
        definition::label_and_docs_of(def.kind) == Some((label, text::opt_text(docs))),
    ensures
        shows_item(res, path, label, docs, *config),
{
    assert(text::opt_text(path) == definition::mod_path(*def));
    assert(!(def.kind is BuiltinType) && !(def.kind is Local) && !(def.kind is Label));
    let shown = if config.documentation is Some {
        text::opt_text(docs)
    } else {
        None
    };
    let text = docs::markup_text(shown, label, text::opt_text(path));
    assert(res->0.text@ == text);
    assert(text =~= head(path) + docs_laws::code(label) + tail(docs, *config));
}

/// The definition is an item without a value.
pub open spec fn is_plain_item(kind: DefinitionKind, item: Item) -> bool {
    match kind {
        DefinitionKind::Field(it, _) => it == item,
        DefinitionKind::Module(it) => it == item,
        DefinitionKind::Function(it, _) => it == item,
        DefinitionKind::Adt(it) => it == item,
        DefinitionKind::Variant(it, _) => it == item,
        DefinitionKind::Trait(it) => it == item,
        DefinitionKind::TypeAlias(it) => it == item,
        DefinitionKind::SelfType(Some(it)) => it == item,
        DefinitionKind::GenericParam(it) => it == item,
        _ => false,
    }
}

/// An item without a value shows as it is written, with its path and documentation.
pub proof fn law_plain_item_shows_as_written(
    def: &Definition,
    famous_defs: Option<&FamousDefs>,
    config: &HoverConfig,
    item: Item,
    path: Option<String>,
    res: Option<Markup>,
)
    requires
        call_ensures(definition::definition, (def, famous_defs, config), res),
        call_ensures(definition::definition_mod_path, (def,), path),
        is_plain_item(def.kind, item),
    ensures
        shows_item(res, path, item.display@, item.docs, *config),
{
    lemma_shows_item(def, famous_defs, config, path, res, item.display@, item.docs);
}

/// A constant and a static alike show with their value where that is known.
pub proof fn law_value_shows(
    def: &Definition,
    famous_defs: Option<&FamousDefs>,
    config: &HoverConfig,
    item: Item,
    value: Option<String>,
    path: Option<String>,
    res: Option<Markup>,
)
    requires
        call_ensures(definition::definition, (def, famous_defs, config), res),
        call_ensures(definition::definition_mod_path, (def,), path),
        def.kind == DefinitionKind::Const(item, value) || def.kind == DefinitionKind::Static(
            item,
            value,
        ),
    ensures
        value is None ==> shows_item(res, path, item.display@, item.docs, *config),
        value is Some ==> shows_item(
            res,
            path,
            item.display@ + " = "@ + value->0@,
            item.docs,
            *config,
        ),
{
    let label = if value is Some {
        item.display@ + " = "@ + value->0@
    } else {
        item.display@
    };
    lemma_shows_item(def, famous_defs, config, path, res, label, item.docs);
}

/// A static has the hover of a constant that is written the same, with the same value, in the
/// same module.
pub proof fn law_static_shows_as_constant(
    a: &Definition,
    b: &Definition,
    famous_defs: Option<&FamousDefs>,
    config: &HoverConfig,
    item: Item,
    value: Option<String>,
    path_a: Option<String>,
    path_b: Option<String>,
    res_a: Option<Markup>,
    res_b: Option<Markup>,
)
    requires
        call_ensures(definition::definition, (a, famous_defs, config), res_a),
        call_ensures(definition::definition, (b, famous_defs, config), res_b),
        call_ensures(definition::definition_mod_path, (a,), path_a),
        call_ensures(definition::definition_mod_path, (b,), path_b),
        a.kind == DefinitionKind::Const(item, value),
        b.kind == DefinitionKind::Static(item, value),
        a.module == b.module,
    ensures
        res_a is Some,
        res_b is Some,
        res_a->0.text@ == res_b->0.text@,
{
    law_value_shows(a, famous_defs, config, item, value, path_a, res_a);
    law_value_shows(b, famous_defs, config, item, value, path_b, res_b);
    assert(text::opt_text(path_a) == text::opt_text(path_b));
}

proof fn lemma_end_tells(before: Seq<char>, a: Seq<char>, b: Seq<char>)
    requires
        before + a == before + b,
    ensures
        a == b,
{
    assert((before + a).skip(before.len() as int) =~= a);
    assert((before + b).skip(before.len() as int) =~= b);
}

proof fn lemma_code_tells(before: Seq<char>, a: Seq<char>, b: Seq<char>, behind: Seq<char>)
    requires
        before + docs_laws::code(a) + behind == before + docs_laws::code(b) + behind,
    ensures
        a == b,
{
    let (x, y) = (before + docs_laws::code(a) + behind, before + docs_laws::code(b) + behind);
    let n = (before.len() + "```rust\n"@.len()) as int;
    assert(x.len() == y.len());
    assert(x.subrange(n, n + a.len()) =~= a);
    assert(y.subrange(n, n + b.len()) =~= b);
}

/// Different values show differently, of constants and of statics alike.
pub proof fn law_values_tell_apart(
    a: &Definition,
    b: &Definition,
    famous_defs: Option<&FamousDefs>,
    config: &HoverConfig,
    item: Item,
    value_a: String,
    value_b: String,
    path_a: Option<String>,
    path_b: Option<String>,
    res_a: Option<Markup>,
    res_b: Option<Markup>,
)
    requires
        call_ensures(definition::definition, (a, famous_defs, config), res_a),
        call_ensures(definition::definition, (b, famous_defs, config), res_b),
        call_ensures(definition::definition_mod_path, (a,), path_a),
        call_ensures(definition::definition_mod_path, (b,), path_b),
        a.kind == DefinitionKind::Const(item, Some(value_a)) || a.kind == DefinitionKind::Static(
            item,
            Some(value_a),
        ),
        b.kind == DefinitionKind::Const(item, Some(value_b)) || b.kind == DefinitionKind::Static(
            item,
            Some(value_b),
        ),
        a.module == b.module,
        value_a@ != value_b@,
    ensures
        res_a is Some,
        res_b is Some,
        res_a->0.text@ != res_b->0.text@,
{
    law_value_shows(a, famous_defs, config, item, Some(value_a), path_a, res_a);
    law_value_shows(b, famous_defs, config, item, Some(value_b), path_b, res_b);
    assert(text::opt_text(path_a) == text::opt_text(path_b));
    if res_a->0.text@ == res_b->0.text@ {
        let (before, behind) = (head(path_a), tail(item.docs, *config));
        lemma_code_tells(
            before,
            item.display@ + " = "@ + value_a@,
            item.display@ + " = "@ + value_b@,
            behind,
        );
        lemma_end_tells(item.display@ + " = "@, value_a@, value_b@);
    }
}

/// A macro shows by the label of its source, whichever kind that is, with its path and
/// documentation.
pub proof fn law_macro_shows_its_label(
    def: &Definition,
    famous_defs: Option<&FamousDefs>,
    config: &HoverConfig,
    label: Seq<char>,
    docs: Option<String>,
    path: Option<String>,
    res: Option<Markup>,
)
    requires
        call_ensures(definition::definition, (def, famous_defs, config), res),
        call_ensures(definition::definition_mod_path, (def,), path),
        match def.kind {
            DefinitionKind::Macro(Some(Either::Left(rules)), its_docs) => rules.label@ == label
                && its_docs == docs,
            DefinitionKind::Macro(Some(Either::Right(function)), its_docs) => function.label@
                == label && its_docs == docs,
            _ => false,
        },
    ensures
        shows_item(res, path, label, docs, *config),
{
    lemma_shows_item(def, famous_defs, config, path, res, label, docs);
}

/// A macro without source shows nothing, and neither does `Self` of what is no struct, union or
/// enum.
pub proof fn law_no_source_no_hover(
    def: &Definition,
    famous_defs: Option<&FamousDefs>,
    config: &HoverConfig,
    docs: Option<String>,
    res: Option<Markup>,
)
    requires
        call_ensures(definition::definition, (def, famous_defs, config), res),
        def.kind == DefinitionKind::Macro(None, docs) || def.kind == DefinitionKind::SelfType(None),
    ensures
        res is None,
{
}

/// A builtin type shows with the documentation of `std` where there is any, and by its name
/// alone where there is none, whatever the reader wants.
pub proof fn law_builtin_type_shows(
    def: &Definition,
    famous_defs: Option<&FamousDefs>,
    config: &HoverConfig,
    name: &str,
    its_name: String,
    documented: Option<Markup>,
    res: Option<Markup>,
)
    requires
        call_ensures(definition::definition, (def, famous_defs, config), res),
        def.kind == DefinitionKind::BuiltinType(its_name),
        its_name@ == name@,
        famous_defs is Some ==> call_ensures(docs::builtin, (famous_defs->0, name), documented),
    ensures
        res is Some,
        famous_defs is Some && documented is Some ==> res->0.text@ == documented->0.text@,
        famous_defs is None || documented is None ==> res->0.text@ == docs_laws::code(name@),
{
}

/// A label shows by its name.
pub proof fn law_label_shows_its_name(
    def: &Definition,
    famous_defs: Option<&FamousDefs>,
    config: &HoverConfig,
    name: String,
    res: Option<Markup>,
)
    requires
        call_ensures(definition::definition, (def, famous_defs, config), res),
        def.kind == DefinitionKind::Label(name),
    ensures
        res is Some,
        res->0.text@ == docs_laws::code(name@),
{
}

/// A local variable shows in the same way on its own and as a definition.
pub proof fn law_local_definition_shows_local(
    def: &Definition,
    famous_defs: Option<&FamousDefs>,
    config: &HoverConfig,
    it: &Local,
    alone: Option<Markup>,
    res: Option<Markup>,
)
    requires
        call_ensures(definition::definition, (def, famous_defs, config), res),
        call_ensures(definition::local, (it,), alone),
        def.kind == DefinitionKind::Local(*it),
    ensures
        alone is Some,
        res is Some,
        res->0.text@ == alone->0.text@,
{
}

/// A local variable shows its name and its type, `mut` before the name exactly where it may
/// change, and `let` before that exactly where a `let` binds it, be it a statement or in a
/// condition; `self` shows by that word.
pub proof fn law_local_shows_its_binding(it: &Local, res: Option<Markup>)
    requires
        call_ensures(definition::local, (it,), res),
        it.source is Left ==> it.name is Some,
    ensures
        res is Some,
        it.source is Right && !it.is_mut ==> res->0.text@ == docs_laws::code("self: "@ + it.ty@),
        it.source is Right && it.is_mut ==> res->0.text@ == docs_laws::code(
            "mut self: "@ + it.ty@,
        ),
        it.source matches Either::Left(ident) ==> {
            let bound = it.name->0@ + ": "@ + it.ty@;
            let by_let = ident.parent == Some(SyntaxKind::LetStmt) || ident.parent == Some(
                SyntaxKind::Condition,
            );
            &&& by_let && it.is_mut ==> res->0.text@ == docs_laws::code("let mut "@ + bound)
            &&& by_let && !it.is_mut ==> res->0.text@ == docs_laws::code("let "@ + bound)
            &&& !by_let && it.is_mut ==> res->0.text@ == docs_laws::code("mut "@ + bound)
            &&& !by_let && !it.is_mut ==> res->0.text@ == docs_laws::code(bound)
        },
{
    reveal_strlit("");
    reveal_strlit("let ");
    reveal_strlit("mut ");
    reveal_strlit("let mut ");
    reveal_strlit("self: ");
    reveal_strlit("mut self: ");
    let label = definition::local_label(*it);
    assert(docs::markup_text(None, label, None) =~= docs_laws::code(label));
    match it.source {
        Either::Left(ident) => {
            let bound = it.name->0@ + ": "@ + it.ty@;
            let by_let = ident.parent == Some(SyntaxKind::LetStmt) || ident.parent == Some(
                SyntaxKind::Condition,
            );
            if by_let && it.is_mut {
                assert(label =~= "let mut "@ + bound);
            } else if by_let {
                assert(label =~= "let "@ + bound);
            } else if it.is_mut {
                assert(label =~= "mut "@ + bound);
            } else {
                assert(label =~= bound);
            }
        },
        Either::Right(_) => {
            if it.is_mut {
                assert(label =~= "mut self: "@ + it.ty@);
            } else {
                assert(label =~= "self: "@ + it.ty@);
            }
        },
    }
}

/// Any definition can be asked for, a local variable that a pattern binds if it has a name.
pub proof fn law_definitions_can_be_asked_for(
    def: &Definition,
    famous_defs: Option<&FamousDefs>,
    config: &HoverConfig,
    it: &Local,
    module: &ModulePath,
    item_name: Option<String>,
)
    requires
        it.source is Left ==> it.name is Some,
        def.kind matches DefinitionKind::Local(local) ==> local.source is Left
            ==> local.name is Some,
    ensures
        call_requires(definition::definition, (def, famous_defs, config)),
        call_requires(definition::local, (it,)),
        call_requires(definition::path, (module, item_name)),
        call_requires(definition::definition_owner_name, (def,)),
        call_requires(definition::definition_mod_path, (def,)),
{
}

} // verus!
