//! Hovers for definitions.
use crate::config::HoverConfig;
use crate::docs;
use crate::markup;
use crate::markup::Markup;
use crate::semantics::FamousDefs;
use crate::syntax::SyntaxKind;
use crate::text;
use either::Either;
use vstd::prelude::*;

verus! {

/// Where a module stands.
#[derive(Debug)]
pub struct ModulePath {
    /// The name under which its crate is shown, if there is one.
    pub crate_name: Option<String>,
    /// The names of the module and of those around it, from the inside out. A module
    /// without a name, such as the root of a crate or a block, has none.
    pub path_to_root: Vec<Option<String>>,
}

/// How an item is written, and its documentation if it has any.
#[derive(Debug)]
pub struct Item {
    pub display: String,
    pub docs: Option<String>,
}

/// A macro that is defined by its rules.
#[derive(Debug)]
pub struct MacroRules {
    pub label: String,
}

/// A macro that is defined by a function.
#[derive(Debug)]
pub struct ProcMacroFn {
    pub label: String,
}

/// What a function is an associated item of.
#[derive(Debug)]
pub enum AssocItemContainer {
    /// A trait, by its name.
    Trait(String),
    /// An impl, by the name of the struct, union or enum that it is for, if it is for one.
    Impl(Option<String>),
}

/// A pattern that binds a local variable.
#[derive(Debug)]
pub struct IdentPat {
    /// The kind of the node around the pattern.
    pub parent: Option<SyntaxKind>,
}

/// The parameter `self`.
#[derive(Debug)]
pub struct SelfParam {}

/// A local variable.
#[derive(Debug)]
pub struct Local {
    pub name: Option<String>,
    /// How its type is written.
    pub ty: String,
    pub is_mut: bool,
    /// Where it is bound.
    pub source: Either<IdentPat, SelfParam>,
    /// The name of the function, constant or static that it is local to, if there is one.
    pub parent: Option<String>,
}

/// What a name stands for.
#[derive(Debug)]
pub enum DefinitionKind {
    /// A macro, with its source where that is known, and its documentation.
    Macro(Option<Either<MacroRules, ProcMacroFn>>, Option<String>),
    /// A field, with the name of the type or variant that it is part of.
    Field(Item, String),
    Module(Item),
    /// A function, with what it is an associated item of, if it is one.
    Function(Item, Option<AssocItemContainer>),
    Adt(Item),
    /// A variant, with the name of its enum.
    Variant(Item, String),
    /// A constant, with its value where that is known.
    Const(Item, Option<String>),
    /// A static, with its value where that is known.
    Static(Item, Option<String>),
    Trait(Item),
    TypeAlias(Item),
    /// A builtin type, by its name.
    BuiltinType(String),
    Local(Local),
    /// `Self` in an impl, with the struct, union or enum that the impl is for, if it is for one.
    SelfType(Option<Item>),
    GenericParam(Item),
    /// A label, by its name.
    Label(String),
}

/// A definition, and the module that it stands in, if it stands in one.
#[derive(Debug)]
pub struct Definition {
    pub kind: DefinitionKind,
    pub module: Option<ModulePath>,
}

impl Local {
    /// A local variable that a pattern binds has a name.
    pub open spec fn wf(self) -> bool {
        self.source is Left ==> self.name is Some
    }
}

impl Definition {
    pub open spec fn wf(self) -> bool {
        self.kind matches DefinitionKind::Local(local) ==> local.wf()
    }
}

/// The text as a sequence of at most one.
pub open spec fn segment(name: Option<Seq<char>>) -> Seq<Seq<char>> {
    match name {
        Some(name) => seq![name],
        None => Seq::empty(),
    }
}

/// The names of the modules that have one, from the outside in.
pub open spec fn module_segments(path_to_root: Seq<Option<String>>) -> Seq<Seq<char>>
    decreases path_to_root.len(),
{
    if path_to_root.len() == 0 {
        Seq::empty()
    } else {
        module_segments(path_to_root.drop_first()) + segment(text::opt_text(path_to_root[0]))
    }
}

/// The names on the way from the crate to an item of the module.
pub open spec fn path_segments(module: ModulePath, item_name: Option<Seq<char>>) -> Seq<Seq<char>> {
    segment(text::opt_text(module.crate_name)) + module_segments(module.path_to_root@) + segment(
        item_name,
    )
}

/// The path to an item of the module, or to the module itself.
pub open spec fn path_text(module: ModulePath, item_name: Option<Seq<char>>) -> Seq<char> {
    text::join(path_segments(module, item_name), "::"@)
}

/// Appends a copy of a name, if there is one.
fn push_segment(segments: &mut Vec<String>, name: &Option<String>)
    ensures
        text::texts(final(segments)@) == text::texts(old(segments)@) + segment(
            text::opt_text(*name),
        ),
{
    match name {
        Some(name) => {
            segments.push(name.clone());
        },
        None => {},
    }
    assert(text::texts(segments@) =~= text::texts(old(segments)@) + segment(text::opt_text(*name)));
}

/// The path to an item of the module, or to the module itself.
pub fn path(module: &ModulePath, item_name: Option<String>) -> (res: String)
    ensures
        res@ == path_text(*module, text::opt_text(item_name)),
{
    let mut segments: Vec<String> = Vec::new();
    push_segment(&mut segments, &module.crate_name);
    let ghost krate = segment(text::opt_text(module.crate_name));
    let names = &module.path_to_root;
    let mut i: usize = names.len();
    proof {
        assert(names@.skip(i as int) =~= Seq::empty());
        assert(text::texts(segments@) =~= krate + module_segments(names@.skip(i as int)));
    }
    while i > 0
        invariant
            i <= names@.len(),
            text::texts(segments@) == krate + module_segments(names@.skip(i as int)),
        decreases i,
    {
        i = i - 1;
        assert(names@.skip(i as int).drop_first() =~= names@.skip(i + 1));
        push_segment(&mut segments, &names[i]);
        assert(text::texts(segments@) =~= krate + module_segments(names@.skip(i as int)));
    }
    assert(names@.skip(0) =~= names@);
    push_segment(&mut segments, &item_name);
    proof {
        reveal_strlit("::");
        vstd::utf8::is_ascii_chars_encode_utf8("::"@);
    }
    text::join_strings(&segments, "::")
}

/// The name of what the definition is part of: the type of a field, the function of a local
/// variable, the trait or the type of an associated function, the enum of a variant.
pub open spec fn owner_name(kind: DefinitionKind) -> Option<Seq<char>> {
    match kind {
        DefinitionKind::Field(_, parent) => Some(parent@),
        DefinitionKind::Local(local) => text::opt_text(local.parent),
        DefinitionKind::Function(_, Some(AssocItemContainer::Trait(name))) => Some(name@),
        DefinitionKind::Function(_, Some(AssocItemContainer::Impl(name))) => text::opt_text(name),
        DefinitionKind::Variant(_, parent) => Some(parent@),
        _ => None,
    }
}

/// The name of what the definition is part of.
pub fn definition_owner_name(def: &Definition) -> (res: Option<String>)
    ensures
        text::opt_text(res) == owner_name(def.kind),
{
    match &def.kind {
        DefinitionKind::Field(_, parent) => Some(parent.clone()),
        DefinitionKind::Local(local) => local.parent.clone(),
        DefinitionKind::Function(_, container) => match container {
            Some(AssocItemContainer::Trait(name)) => Some(name.clone()),
            Some(AssocItemContainer::Impl(name)) => name.clone(),
            None => None,
        },
        DefinitionKind::Variant(_, parent) => Some(parent.clone()),
        _ => None,
    }
}

/// The path to what the definition is part of.
pub open spec fn mod_path(def: Definition) -> Option<Seq<char>> {
    match def.module {
        Some(module) if !(def.kind is GenericParam) => Some(
            path_text(module, owner_name(def.kind)),
        ),
        _ => None,
    }
}

/// The path to what the definition is part of. A generic parameter has none.
pub fn definition_mod_path(def: &Definition) -> (res: Option<String>)
    ensures
        text::opt_text(res) == mod_path(*def),
{
    if let DefinitionKind::GenericParam(_) = &def.kind {
        return None;
    }
    match &def.module {
        Some(module) => Some(path(module, definition_owner_name(def))),
        None => None,
    }
}

/// How an item is written, and its documentation.
pub fn label_and_docs(item: &Item) -> (res: (String, Option<String>))
    ensures
        res.0@ == item.display@,
        text::opt_text(res.1) == text::opt_text(item.docs),
{
    (item.display.clone(), item.docs.clone())
}

/// An item, and its value where that is known.
pub open spec fn label_with_value(display: Seq<char>, value: Option<Seq<char>>) -> Seq<char> {
    match value {
        Some(value) => display + " = "@ + value,
        None => display,
    }
}

/// How an item is written, with its value where that is known, and its documentation.
pub fn label_value_and_docs(item: &Item, value: &Option<String>) -> (res: (String, Option<String>))
    ensures
        res.0@ == label_with_value(item.display@, text::opt_text(*value)),
        text::opt_text(res.1) == text::opt_text(item.docs),
{
    let mut label = item.display.clone();
    if let Some(value) = value {
        label.append(" = ");
        label.append(value.as_str());
    }
    (label, item.docs.clone())
}

/// How a local variable is written.
pub open spec fn local_label(it: Local) -> Seq<char> {
    let is_mut = if it.is_mut {
        "mut "@
    } else {
        ""@
    };
    match it.source {
        Either::Left(ident) => {
            let let_kw = if ident.parent == Some(SyntaxKind::LetStmt) || ident.parent == Some(
                SyntaxKind::Condition,
            ) {
                "let "@
            } else {
                ""@
            };
            let_kw + is_mut + it.name->0@ + ": "@ + it.ty@
        },
        Either::Right(_) => is_mut + "self: "@ + it.ty@,
    }
}

/// Renders a local variable: how it is bound, its name and its type.
pub fn local(it: &Local) -> (res: Option<Markup>)
    requires
        it.wf(),
    ensures
        markup::opt_markup(res) == Some(docs::markup_text(None, local_label(*it), None)),
{
    let is_mut = if it.is_mut {
        "mut "
    } else {
        ""
    };
    let mut desc = String::new();
    match &it.source {
        Either::Left(ident) => {
            let let_kw = if matches!(
                ident.parent,
                Some(SyntaxKind::LetStmt | SyntaxKind::Condition)
            ) {
                "let "
            } else {
                ""
            };
            let name = it.name.as_ref().unwrap();
            desc.append(let_kw);
            desc.append(is_mut);
            desc.append(name.as_str());
            desc.append(": ");
        },
        Either::Right(_) => {
            desc.append(is_mut);
            desc.append("self: ");
        },
    }
    desc.append(it.ty.as_str());
    assert(desc@ =~= local_label(*it));
    docs::markup(None, desc, None)
}

/// How a definition is written that has a path and documentation, and that documentation.
/// There is neither for a macro without source, and for `Self` where it is no struct, union
/// or enum.
pub open spec fn label_and_docs_of(kind: DefinitionKind) -> Option<(Seq<char>, Option<Seq<char>>)> {
    match kind {
        DefinitionKind::Macro(Some(Either::Left(rules)), docs) => Some(
            (rules.label@, text::opt_text(docs)),
        ),
        DefinitionKind::Macro(Some(Either::Right(function)), docs) => Some(
            (function.label@, text::opt_text(docs)),
        ),
        DefinitionKind::Const(item, value) | DefinitionKind::Static(item, value) => Some(
            (label_with_value(item.display@, text::opt_text(value)), text::opt_text(item.docs)),
        ),
        DefinitionKind::Field(item, _)
        | DefinitionKind::Module(item)
        | DefinitionKind::Function(item, _)
        | DefinitionKind::Adt(item)
        | DefinitionKind::Variant(item, _)
        | DefinitionKind::Trait(item)
        | DefinitionKind::TypeAlias(item)
        | DefinitionKind::SelfType(Some(item))
        | DefinitionKind::GenericParam(item) => Some((item.display@, text::opt_text(item.docs))),
        _ => None,
    }
}

/// The hover for a definition.
pub open spec fn definition_text(
    def: Definition,
    famous_defs: Option<&FamousDefs>,
    config: HoverConfig,
) -> Option<Seq<char>> {
    match def.kind {
        DefinitionKind::BuiltinType(name) => {
            let documented = match famous_defs {
                Some(famous_defs) => docs::builtin_text(*famous_defs, name@),
                None => None,
            };
            match documented {
                Some(text) => Some(text),
                None => Some(markup::rust_block(name@)),
            }
        },
        DefinitionKind::Local(local) => Some(docs::markup_text(None, local_label(local), None)),
        DefinitionKind::Label(name) => Some(markup::rust_block(name@)),
        _ => match label_and_docs_of(def.kind) {
            Some((label, docs)) => Some(
                docs::markup_text(
                    if config.documentation is Some {
                        docs
                    } else {
                        None
                    },
                    label,
                    mod_path(def),
                ),
            ),
            None => None,
        },
    }
}

/// The hover for a definition: the path to it, how it is written, and its documentation where
/// that is wanted.
///
/// A builtin type is shown with the documentation that `std` has of it, a local variable with
/// its type, and a label by its name.
pub fn definition(
    def: &Definition,
    famous_defs: Option<&FamousDefs>,
    config: &HoverConfig,
) -> (res: Option<Markup>)
    requires
        def.wf(),
    ensures
        markup::opt_markup(res) == definition_text(*def, famous_defs, *config),
{
    let mod_path = definition_mod_path(def);
    let (label, docs) = match &def.kind {
        DefinitionKind::Macro(source, docs) => (
            match source.as_ref()? {
                Either::Left(rules) => rules.label.clone(),
                Either::Right(function) => function.label.clone(),
            },
            docs.clone(),
        ),
        DefinitionKind::Field(it, _) => label_and_docs(it),
        DefinitionKind::Module(it) => label_and_docs(it),
        DefinitionKind::Function(it, _) => label_and_docs(it),
        DefinitionKind::Adt(it) => label_and_docs(it),
        DefinitionKind::Variant(it, _) => label_and_docs(it),
        DefinitionKind::Const(it, value) => label_value_and_docs(it, value),
        DefinitionKind::Static(it, value) => label_value_and_docs(it, value),
        DefinitionKind::Trait(it) => label_and_docs(it),
        DefinitionKind::TypeAlias(it) => label_and_docs(it),
        DefinitionKind::BuiltinType(name) => {
            if let Some(famous_defs) = famous_defs {
                if let Some(markup) = docs::builtin(famous_defs, name.as_str()) {
                    return Some(markup);
                }
            }
            return Some(Markup::fenced_block(name.as_str()));
        },
        DefinitionKind::Local(it) => return local(it),
        DefinitionKind::SelfType(adt) => label_and_docs(adt.as_ref()?),
        DefinitionKind::GenericParam(it) => label_and_docs(it),
        DefinitionKind::Label(name) => return Some(Markup::fenced_block(name.as_str())),
    };
    let shown = if config.documentation.is_some() {
        docs
    } else {
        None
    };
    docs::markup(shown, label, mod_path)
}

} // verus!
