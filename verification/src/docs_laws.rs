//! What a call gives of documentation, told by what is handed in and what comes back alone.
use crate::config::{HoverConfig, HoverDocFormat};
use crate::docs;
use crate::hover::HoverResult;
use crate::markup::Markup;
use crate::semantics::{FamousDefs, Module};
use crate::syntax::SyntaxToken;
use crate::text;
use vstd::prelude::*;

verus! {

/// A block of Rust code.
pub open spec fn code(s: Seq<char>) -> Seq<char> {
    "```rust\n"@ + s + "\n```"@
}

/// Markdown is wanted exactly in that format.
pub proof fn law_markdown_is_one_format(config: &HoverConfig, res: bool)
    requires
        call_ensures(HoverConfig::markdown, (config,), res),
    ensures
        res <==> config.documentation == Some(HoverDocFormat::Markdown),
{
}

/// A fenced block holds its contents as Rust code.
pub proof fn law_fenced_block_holds_code(contents: &str, res: Markup)
    requires
        call_ensures(Markup::fenced_block, (contents,), res),
    ensures
        res.text@ == code(contents@),
{
}

/// An item shows as code; a path to it goes before in a block of its own, unless it is empty,
/// and documentation goes behind, after a line, also where it is empty.
pub proof fn law_item_shows_as_code(
    docs: Option<String>,
    desc: String,
    path: Option<String>,
    res: Option<Markup>,
)
    requires
        call_ensures(docs::markup, (docs, desc, path), res),
    ensures
        res is Some,
        path is None && docs is None ==> res->0.text@ == code(desc@),
        path is None && docs is Some ==> res->0.text@ == code(desc@) + "\n___\n\n"@ + docs->0@,
        path is Some && path->0@.len() == 0 && docs is None ==> res->0.text@ == code(desc@),
        path is Some && path->0@.len() == 0 && docs is Some ==> res->0.text@ == code(desc@)
            + "\n___\n\n"@ + docs->0@,
        path is Some && path->0@.len() > 0 && docs is None ==> res->0.text@ == code(path->0@)
            + "\n\n"@ + code(desc@),
        path is Some && path->0@.len() > 0 && docs is Some ==> res->0.text@ == code(path->0@)
            + "\n\n"@ + code(desc@) + "\n___\n\n"@ + docs->0@,
{
    let text = docs::markup_text(text::opt_text(docs), desc@, text::opt_text(path));
    assert(res->0.text@ == text);
    if path is None || path->0@.len() == 0 {
        if docs is None {
            assert(text =~= code(desc@));
        } else {
            assert(text =~= code(desc@) + "\n___\n\n"@ + docs->0@);
        }
    } else {
        if docs is None {
            assert(text =~= code(path->0@) + "\n\n"@ + code(desc@));
        } else {
            assert(text =~= code(path->0@) + "\n\n"@ + code(desc@) + "\n___\n\n"@ + docs->0@);
        }
    }
}

/// One of the three functions gives the shown text from the whole of the given one: links are
/// rewritten for the definition, or taken out, only where Markdown is wanted, and Markdown is
/// taken out everywhere else.
pub proof fn law_one_pass_gives_the_text<D, M, W, L>(
    def: &D,
    markup: &Markup,
    config: &HoverConfig,
    remove_markdown: M,
    rewrite_links: W,
    remove_links: L,
    res: Markup,
) where M: Fn(&str) -> String, W: Fn(&str, &D) -> String, L: Fn(&str) -> String
    requires
        call_ensures(
            docs::process_markup::<D, M, W, L>,
            (def, markup, config, remove_markdown, rewrite_links, remove_links),
            res,
        ),
    ensures
        config.documentation != Some(HoverDocFormat::Markdown) ==> exists|i: &str, o: String|
            #[trigger] call_ensures(remove_markdown, (i,), o) && i@ == markup.text@ && o@
                == res.text@,
        config.documentation == Some(HoverDocFormat::Markdown) && config.links_in_hover
            ==> exists|i: &str, o: String|
            #[trigger] call_ensures(rewrite_links, (i, def), o) && i@ == markup.text@ && o@
                == res.text@,
        config.documentation == Some(HoverDocFormat::Markdown) && !config.links_in_hover
            ==> exists|i: &str, o: String|
            #[trigger] call_ensures(remove_links, (i,), o) && i@ == markup.text@ && o@
                == res.text@,
{
}

/// The module has this name.
pub open spec fn is_named(module: Module, name: Seq<char>) -> bool {
    module.name is Some && module.name->0@ == name
}

/// Number `k` of the modules below the root of `std` is the first with this name.
pub open spec fn is_first(famous_defs: FamousDefs, name: Seq<char>, k: int) -> bool {
    &&& famous_defs.std is Some
    &&& 0 <= k < famous_defs.std->0@.len()
    &&& is_named(famous_defs.std->0@[k], name)
    &&& forall|j: int| 0 <= j < k ==> !is_named(#[trigger] famous_defs.std->0@[j], name)
}

/// `std` has no module of this name below its root, or is not known.
pub open spec fn has_none(famous_defs: FamousDefs, name: Seq<char>) -> bool {
    famous_defs.std is Some ==> forall|j: int|
        0 <= j < famous_defs.std->0@.len() ==> !is_named(#[trigger] famous_defs.std->0@[j], name)
}

proof fn lemma_first_named(modules: Seq<Module>, name: Seq<char>, k: int)
    requires
        0 <= k < modules.len(),
        is_named(modules[k], name),
        forall|j: int| 0 <= j < k ==> !is_named(#[trigger] modules[j], name),
    ensures
        docs::first_named(modules, name) == Some(modules[k]),
    decreases k,
{
    if k > 0 {
        assert(!is_named(modules[0], name));
        let rest = modules.drop_first();
        assert forall|j: int| 0 <= j < k - 1 implies !is_named(#[trigger] rest[j], name) by {
            assert(!is_named(modules[j + 1], name));
        }
        lemma_first_named(rest, name, k - 1);
    }
}

proof fn lemma_none_named(modules: Seq<Module>, name: Seq<char>)
    requires
        forall|j: int| 0 <= j < modules.len() ==> !is_named(#[trigger] modules[j], name),
    ensures
        docs::first_named(modules, name) is None,
    decreases modules.len(),
{
    if modules.len() > 0 {
        assert(!is_named(modules[0], name));
        let rest = modules.drop_first();
        assert forall|j: int| 0 <= j < rest.len() implies !is_named(#[trigger] rest[j], name) by {
            assert(!is_named(modules[j + 1], name));
        }
        lemma_none_named(rest, name);
    }
}

/// The first module of a name is found, and none where there is none.
pub proof fn law_first_module_is_found(
    famous_defs: &FamousDefs,
    name: &str,
    k: int,
    res: Option<&Module>,
)
    requires
        call_ensures(docs::find_std_module, (famous_defs, name), res),
    ensures
        is_first(*famous_defs, name@, k) ==> res is Some && *res->0 == famous_defs.std->0@[k],
        has_none(*famous_defs, name@) ==> res is None,
{
    if is_first(*famous_defs, name@, k) {
        lemma_first_named(famous_defs.std->0@, name@, k);
    }
    if has_none(*famous_defs, name@) && famous_defs.std is Some {
        lemma_none_named(famous_defs.std->0@, name@);
    }
}

/// A builtin type shows with the documentation of the first module of `std` that is named
/// after it.
pub proof fn law_builtin_shows_docs(
    famous_defs: &FamousDefs,
    name: &str,
    k: int,
    res: Option<Markup>,
)
    requires
        call_ensures(docs::builtin, (famous_defs, name), res),
        is_first(*famous_defs, "prim_"@ + name@, k),
        famous_defs.std->0@[k].docs is Some,
    ensures
        res is Some,
        res->0.text@ == code(name@) + "\n___\n\n"@ + famous_defs.std->0@[k].docs->0@,
{
    lemma_first_named(famous_defs.std->0@, "prim_"@ + name@, k);
    let text = docs::markup_text(Some(famous_defs.std->0@[k].docs->0@), name@, None);
    assert(text =~= code(name@) + "\n___\n\n"@ + famous_defs.std->0@[k].docs->0@);
}

/// A builtin type without such a module, or whose module has no documentation, does not show.
pub proof fn law_builtin_needs_docs(
    famous_defs: &FamousDefs,
    name: &str,
    k: int,
    res: Option<Markup>,
)
    requires
        call_ensures(docs::builtin, (famous_defs, name), res),
        has_none(*famous_defs, "prim_"@ + name@) || (is_first(*famous_defs, "prim_"@ + name@, k)
            && famous_defs.std->0@[k].docs is None),
    ensures
        res is None,
{
    if is_first(*famous_defs, "prim_"@ + name@, k) {
        lemma_first_named(famous_defs.std->0@, "prim_"@ + name@, k);
    } else if famous_defs.std is Some {
        lemma_none_named(famous_defs.std->0@, "prim_"@ + name@);
    }
}

/// Where documentation is wanted, a keyword shows with the documentation of the first module
/// of `std` that is named after it, passed through one of the three functions, and leads
/// nowhere.
pub proof fn law_keyword_shows_docs<M, W, L>(
    config: &HoverConfig,
    token: &SyntaxToken,
    scope: Option<&FamousDefs>,
    remove_markdown: M,
    rewrite_links: W,
    remove_links: L,
    k: int,
    res: Option<HoverResult>,
) where M: Fn(&str) -> String, W: Fn(&str, &Module) -> String, L: Fn(&str) -> String
    requires
        call_ensures(
            docs::keyword::<M, W, L>,
            (config, token, scope, remove_markdown, rewrite_links, remove_links),
            res,
        ),
        token.is_keyword,
        config.documentation is Some,
        scope is Some,
        is_first(*scope->0, token.text@ + "_keyword"@, k),
        scope->0.std->0@[k].docs is Some,
    ensures
        ({
            let module = scope->0.std->0@[k];
            let text = code(token.text@) + "\n___\n\n"@ + module.docs->0@;
            let markdown = config.documentation == Some(HoverDocFormat::Markdown);
            &&& res is Some
            &&& res->0.actions@.len() == 0
            &&& !markdown ==> exists|i: &str, o: String|
                #[trigger] call_ensures(remove_markdown, (i,), o) && i@ == text && o@
                    == res->0.markup.text@
            &&& markdown && config.links_in_hover ==> exists|i: &str, o: String|
                #[trigger] call_ensures(rewrite_links, (i, &module), o) && i@ == text && o@
                    == res->0.markup.text@
            &&& markdown && !config.links_in_hover ==> exists|i: &str, o: String|
                #[trigger] call_ensures(remove_links, (i,), o) && i@ == text && o@
                    == res->0.markup.text@
        }),
{
    let module = scope->0.std->0@[k];
    lemma_first_named(scope->0.std->0@, token.text@ + "_keyword"@, k);
    let text = code(token.text@) + "\n___\n\n"@ + module.docs->0@;
    assert(docs::markup_text(Some(module.docs->0@), token.text@, None) =~= text);
    assert(docs::keyword_docs(*config, *token, scope) == Some((module, module.docs->0@)));
    assert(res->0@.actions.len() == res->0.actions@.len());
}

/// A token shows nothing that is no keyword, for which documentation is not wanted, that has
/// no parent, or that `std` does not document.
pub proof fn law_keyword_needs_docs<M, W, L>(
    config: &HoverConfig,
    token: &SyntaxToken,
    scope: Option<&FamousDefs>,
    remove_markdown: M,
    rewrite_links: W,
    remove_links: L,
    k: int,
    res: Option<HoverResult>,
) where M: Fn(&str) -> String, W: Fn(&str, &Module) -> String, L: Fn(&str) -> String
    requires
        call_ensures(
            docs::keyword::<M, W, L>,
            (config, token, scope, remove_markdown, rewrite_links, remove_links),
            res,
        ),
        !token.is_keyword || config.documentation is None || scope is None || has_none(
            *scope->0,
            token.text@ + "_keyword"@,
        ) || (is_first(*scope->0, token.text@ + "_keyword"@, k)
            && scope->0.std->0@[k].docs is None),
    ensures
        res is None,
{
    if scope is Some {
        let name = token.text@ + "_keyword"@;
        if is_first(*scope->0, name, k) {
            lemma_first_named(scope->0.std->0@, name, k);
        } else if has_none(*scope->0, name) && scope->0.std is Some {
            lemma_none_named(scope->0.std->0@, name);
        }
    }
}

/// Any documentation can be asked for, with functions that take any text.
pub proof fn law_documentation_can_be_asked_for<M, W, L>(
    config: &HoverConfig,
    token: &SyntaxToken,
    scope: Option<&FamousDefs>,
    famous_defs: &FamousDefs,
    module: &Module,
    markup: &Markup,
    name: &str,
    docs: Option<String>,
    desc: String,
    path: Option<String>,
    remove_markdown: M,
    rewrite_links: W,
    remove_links: L,
) where M: Fn(&str) -> String, W: Fn(&str, &Module) -> String, L: Fn(&str) -> String
    requires
        forall|s: &str| #[trigger] call_requires(remove_markdown, (s,)),
        forall|s: &str, m: &Module| #[trigger] call_requires(rewrite_links, (s, m)),
        forall|s: &str| #[trigger] call_requires(remove_links, (s,)),
    ensures
        call_requires(
            docs::keyword::<M, W, L>,
            (config, token, scope, remove_markdown, rewrite_links, remove_links),
        ),
        call_requires(
            docs::process_markup::<Module, M, W, L>,
            (module, markup, config, remove_markdown, rewrite_links, remove_links),
        ),
        call_requires(docs::find_std_module, (famous_defs, name)),
        call_requires(docs::builtin, (famous_defs, name)),
        call_requires(docs::markup, (docs, desc, path)),
{
}

} // verus!
