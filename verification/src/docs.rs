//! Hovers that show documentation.
use crate::config::HoverConfig;
use crate::hover::HoverResult;
use crate::markup;
use crate::markup::Markup;
use crate::semantics::{FamousDefs, Module};
use crate::syntax::SyntaxToken;
use crate::text;
use vstd::prelude::*;

verus! {

/// The markup for an item: the path to it where there is one, how it is written, and its
/// documentation where there is any.
pub open spec fn markup_text(
    docs: Option<Seq<char>>,
    desc: Seq<char>,
    mod_path: Option<Seq<char>>,
) -> Seq<char> {
    let head = match mod_path {
        Some(path) if path.len() > 0 => markup::rust_block(path) + "\n\n"@,
        _ => Seq::empty(),
    };
    let tail = match docs {
        Some(docs) => "\n___\n\n"@ + docs,
        None => Seq::empty(),
    };
    head + markup::rust_block(desc) + tail
}

/// Renders an item: the path to it where there is one, how it is written, and its
/// documentation where there is any.
pub fn markup(docs: Option<String>, desc: String, mod_path: Option<String>) -> (res: Option<Markup>)
    ensures
        markup::opt_markup(res) == Some(
            markup_text(text::opt_text(docs), desc@, text::opt_text(mod_path)),
        ),
{
    let mut buf = String::new();
    if let Some(mod_path) = &mod_path {
        if !mod_path.as_str().is_empty() {
            markup::push_rust_block(&mut buf, mod_path.as_str());
            buf.append("\n\n");
        }
    }
    markup::push_rust_block(&mut buf, desc.as_str());
    if let Some(docs) = &docs {
        buf.append("\n___\n\n");
        buf.append(docs.as_str());
    }
    assert(buf@ =~= markup_text(text::opt_text(docs), desc@, text::opt_text(mod_path)));
    Some(Markup::from(buf))
}

/// `f` gives `out` for `input`.
pub open spec fn gives<F: Fn(&str) -> String>(f: F, input: Seq<char>, out: Seq<char>) -> bool {
    exists|i: &str, o: String| #[trigger] call_ensures(f, (i,), o) && i@ == input && o@ == out
}

/// `f` gives `out` for `input` and the definition `def`.
pub open spec fn gives_for<D, F: Fn(&str, &D) -> String>(
    f: F,
    input: Seq<char>,
    def: D,
    out: Seq<char>,
) -> bool {
    exists|i: &str, o: String|
        #[trigger] call_ensures(f, (i, &def), o) && i@ == input && o@ == out
}

/// What is done to the markup of a definition before it is shown.
#[derive(Clone, Copy, PartialEq, Eq, Structural, Debug)]
pub enum MarkupPass {
    /// All Markdown is taken out.
    RemoveMarkdown,
    /// Links are made to lead to where they should.
    RewriteLinks,
    /// Links are taken out.
    RemoveLinks,
}

pub open spec fn pass_of(config: HoverConfig) -> MarkupPass {
    if !config.is_markdown() {
        MarkupPass::RemoveMarkdown
    } else if config.links_in_hover {
        MarkupPass::RewriteLinks
    } else {
        MarkupPass::RemoveLinks
    }
}

/// `out` is what the function for the pass that `config` asks for gives for `input`.
pub open spec fn processed<D, M, W, L>(
    def: D,
    input: Seq<char>,
    config: HoverConfig,
    remove_markdown: M,
    rewrite_links: W,
    remove_links: L,
    out: Seq<char>,
) -> bool where
    M: Fn(&str) -> String,
    W: Fn(&str, &D) -> String,
    L: Fn(&str) -> String,
 {
    match pass_of(config) {
        MarkupPass::RemoveMarkdown => gives(remove_markdown, input, out),
        MarkupPass::RewriteLinks => gives_for(rewrite_links, input, def, out),
        MarkupPass::RemoveLinks => gives(remove_links, input, out),
    }
}

/// Makes the markup of the definition `def` ready to be shown, with one of three functions:
/// without Markdown where the reader wants none, else with links rewritten, or taken out
/// where the reader wants none.
pub fn process_markup<D, M, W, L>(
    def: &D,
    markup: &Markup,
    config: &HoverConfig,
    remove_markdown: M,
    rewrite_links: W,
    remove_links: L,
) -> (res: Markup) where
    M: Fn(&str) -> String,
    W: Fn(&str, &D) -> String,
    L: Fn(&str) -> String,

    requires
        pass_of(*config) is RemoveMarkdown ==> forall|s: &str|
            s@ == markup@ ==> #[trigger] call_requires(remove_markdown, (s,)),
        pass_of(*config) is RewriteLinks ==> forall|s: &str|
            s@ == markup@ ==> #[trigger] call_requires(rewrite_links, (s, def)),
        pass_of(*config) is RemoveLinks ==> forall|s: &str|
            s@ == markup@ ==> #[trigger] call_requires(remove_links, (s,)),
    ensures
        processed(*def, markup@, *config, remove_markdown, rewrite_links, remove_links, res@),
{
    let text = markup.as_str();
    let text = if !config.markdown() {
        remove_markdown(text)
    } else if config.links_in_hover {
        rewrite_links(text, def)
    } else {
        remove_links(text)
    };
    Markup::from(text)
}

/// The first of the modules with this name.
pub open spec fn first_named(modules: Seq<Module>, name: Seq<char>) -> Option<Module>
    decreases modules.len(),
{
    if modules.len() == 0 {
        None
    } else if text::opt_text(modules[0].name) == Some(name) {
        Some(modules[0])
    } else {
        first_named(modules.drop_first(), name)
    }
}

/// The module of this name right below the root of `std`.
pub open spec fn std_module(famous_defs: FamousDefs, name: Seq<char>) -> Option<Module> {
    match famous_defs.std {
        Some(modules) => first_named(modules@, name),
        None => None,
    }
}

/// Finds the module of this name right below the root of `std`.
pub fn find_std_module<'a>(famous_defs: &'a FamousDefs, name: &str) -> (res: Option<&'a Module>)
    ensures
        match res {
            Some(module) => std_module(*famous_defs, name@) == Some(*module),
            None => std_module(*famous_defs, name@) is None,
        },
{
    let modules = famous_defs.std.as_ref()?;
    let mut i: usize = 0;
    assert(modules@.skip(0) =~= modules@);
    while i < modules.len()
        invariant
            famous_defs.std == Some(*modules),
            i <= modules@.len(),
            first_named(modules@, name@) == first_named(modules@.skip(i as int), name@),
        decreases modules@.len() - i,
    {
        assert(modules@.skip(i as int).drop_first() =~= modules@.skip(i + 1));
        if let Some(module_name) = &modules[i].name {
            if text::same_text(module_name.as_str(), name) {
                return Some(&modules[i]);
            }
        }
        i = i + 1;
    }
    None
}

/// The module of `std` that documents a keyword.
pub open spec fn keyword_module(keyword: Seq<char>, famous_defs: FamousDefs) -> Option<Module> {
    std_module(famous_defs, keyword + "_keyword"@)
}

/// The documentation of the token: the module of `std` that holds it, and its text. There is
/// none where documentation is not wanted, or the token is no keyword.
pub open spec fn keyword_docs(
    config: HoverConfig,
    token: SyntaxToken,
    scope: Option<&FamousDefs>,
) -> Option<(Module, Seq<char>)> {
    if !token.is_keyword || config.documentation is None || scope is None {
        None
    } else {
        match keyword_module(token.text@, *scope->0) {
            Some(module) => match module.docs {
                Some(docs) => Some((module, docs@)),
                None => None,
            },
            None => None,
        }
    }
}

/// The hover for a keyword: its documentation, which `std` holds in a module of its own for
/// each keyword. `scope` is what the crate of the token's parent sees, `None` where the token
/// has no parent.
pub fn keyword<M, W, L>(
    config: &HoverConfig,
    token: &SyntaxToken,
    scope: Option<&FamousDefs>,
    remove_markdown: M,
    rewrite_links: W,
    remove_links: L,
) -> (res: Option<HoverResult>) where
    M: Fn(&str) -> String,
    W: Fn(&str, &Module) -> String,
    L: Fn(&str) -> String,

    requires
        forall|s: &str| #[trigger] call_requires(remove_markdown, (s,)),
        forall|s: &str, m: &Module| #[trigger] call_requires(rewrite_links, (s, m)),
        forall|s: &str| #[trigger] call_requires(remove_links, (s,)),
    ensures
        match keyword_docs(*config, *token, scope) {
            Some((module, docs)) => {
                &&& res matches Some(hover)
                &&& processed(
                    module,
                    markup_text(Some(docs), token.text@, None),
                    *config,
                    remove_markdown,
                    rewrite_links,
                    remove_links,
                    hover@.markup,
                )
                &&& hover@.actions.len() == 0
            },
            None => res is None,
        },
{
    if !token.is_keyword || config.documentation.is_none() {
        return None;
    }
    let famous_defs = scope?;
    // std exposes {}_keyword modules with docstrings on the root to document keywords
    let keyword_mod = token.text.clone().concat("_keyword");
    let doc_owner = find_std_module(famous_defs, keyword_mod.as_str())?;
    let docs = doc_owner.docs.as_ref()?;
    let markup = process_markup(
        doc_owner,
        &markup(Some(docs.clone()), token.text.clone(), None)?,
        config,
        remove_markdown,
        rewrite_links,
        remove_links,
    );
    Some(HoverResult { markup, actions: Vec::new() })
}

/// The documentation of a builtin type.
pub open spec fn builtin_text(famous_defs: FamousDefs, name: Seq<char>) -> Option<Seq<char>> {
    match std_module(famous_defs, "prim_"@ + name) {
        Some(module) => match module.docs {
            Some(docs) => Some(markup_text(Some(docs@), name, None)),
            None => None,
        },
        None => None,
    }
}

/// Renders a builtin type with its documentation, which `std` holds in a module of its own
/// for each builtin type. There is nothing to render where that is missing.
pub fn builtin(famous_defs: &FamousDefs, name: &str) -> (res: Option<Markup>)
    ensures
        markup::opt_markup(res) == builtin_text(*famous_defs, name@),
{
    // std exposes prim_{} modules with docstrings on the root to document the builtins
    let primitive_mod = "prim_".to_owned().concat(name);
    let doc_owner = find_std_module(famous_defs, primitive_mod.as_str())?;
    let docs = doc_owner.docs.as_ref()?;
    markup(Some(docs.clone()), name.to_owned(), None)
}

} // verus!
