//! What holds of all hovers: how their lines are aligned, what they leave out, and what
//! decides them.
use crate::config::HoverConfig;
use crate::definition;
use crate::definition::{Definition, ModulePath};
use crate::docs;
use crate::expr;
use crate::expr::TryShown;
use crate::hover::HoverView;
use crate::lint;
use crate::lint::{Lint, LintTables};
use crate::markup;
use crate::semantics::{FamousDefs, Module, SyntaxNode, Type, TypeInfo};
use crate::syntax;
use crate::syntax::{Attr, SyntaxElement, SyntaxToken};
use crate::text;
use vstd::prelude::*;

verus! {

/// A row whose text fits is exactly as wide as asked for, and ends with its text.
pub proof fn law_row_has_its_width(label: Seq<char>, s: Seq<char>, columns: int)
    requires
        label.len() + s.len() <= columns,
    ensures
        text::row(label, s, columns).len() == columns,
        text::row(label, s, columns).take(label.len() as int) == label,
        text::row(label, s, columns).skip(columns - s.len()) == s,
{
    let r = text::row(label, s, columns);
    assert(r.take(label.len() as int) =~= label);
    assert(r.skip(columns - s.len()) =~= s);
}

/// All lines for `*expr` are equally wide: the types end in the same column.
pub proof fn law_deref_lines_are_aligned(
    inner: Seq<char>,
    original: Seq<char>,
    adjusted: Option<Seq<char>>,
)
    ensures
        ({
            let columns = expr::deref_columns(inner, original, adjusted);
            let first = text::row("Dereferenced from: "@, inner, columns);
            let second = text::row("To type: "@, original, columns);
            &&& first.len() == columns
            &&& second.len() == columns
            &&& match adjusted {
                Some(ty) => {
                    let third = text::row("Coerced to: "@, ty, columns);
                    &&& expr::deref_lines(inner, original, adjusted) == first + "\n"@ + second
                        + "\n"@ + third + "\n"@
                    &&& third.len() == columns
                },
                None => expr::deref_lines(inner, original, adjusted) == first + "\n"@ + second
                    + "\n"@,
            }
        }),
{
    text::lemma_chars_fit_in_bytes(inner);
    text::lemma_chars_fit_in_bytes(original);
    if let Some(adjusted) = adjusted {
        text::lemma_chars_fit_in_bytes(adjusted);
    }
}

/// Both lines for `?` are equally wide: the types end in the same column.
pub proof fn law_try_lines_are_aligned(label: Seq<char>, inner: Seq<char>, body: Seq<char>)
    ensures
        ({
            let columns = expr::try_columns(label, inner, body);
            let first = text::row(label, inner, columns);
            let second = text::row("Propagated as: "@, body, columns);
            &&& expr::try_lines(label, inner, body) == first + "\n"@ + second + "\n"@
            &&& first.len() == columns
            &&& second.len() == columns
        }),
{
    text::lemma_chars_fit_in_bytes(inner);
    text::lemma_chars_fit_in_bytes(body);
}

/// The two lines for a coerced type are equally wide exactly where the coerced type is no
/// longer than the type itself, in bytes, or takes up one byte for each character.
pub proof fn law_coercion_lines_are_aligned(original: Seq<char>, adjusted: Seq<char>)
    ensures
        expr::coercion_first(original, adjusted).len() == expr::coercion_second(
            original,
            adjusted,
        ).len() <==> text::byte_len(adjusted) <= text::byte_len(original) || text::byte_len(
            adjusted,
        ) == adjusted.len(),
{
    reveal_strlit("Type: ");
    reveal_strlit("Coerced to: ");
    text::lemma_chars_fit_in_bytes(original);
    text::lemma_chars_fit_in_bytes(adjusted);
}

/// Where Markdown is wanted, the lines for `?` are those of the plain text in a block, and
/// the hover leads to the same definitions.
pub proof fn law_markdown_wraps_try(shown: TryShown)
    ensures
        expr::try_hover(true, shown).markup == "```text\n"@ + expr::try_hover(false, shown).markup
            + "```\n"@,
        expr::try_hover(true, shown).actions == expr::try_hover(false, shown).actions,
{
}

/// Where Markdown is wanted, the lines for `*expr` are those of the plain text in a block,
/// and the hover leads to the same definitions.
pub proof fn law_markdown_wraps_deref(inner: Type, info: TypeInfo)
    ensures
        expr::deref_hover(true, inner, info).markup == "```text\n"@ + expr::deref_hover(
            false,
            inner,
            info,
        ).markup + "```\n"@,
        expr::deref_hover(true, inner, info).actions == expr::deref_hover(
            false,
            inner,
            info,
        ).actions,
{
}

/// Where Markdown is wanted, the text for a type is the plain text in a block, and the hover
/// leads to the same definitions.
pub proof fn law_markdown_wraps_type_info(info: TypeInfo)
    ensures
        expr::type_info_hover(true, info).markup == if info.adjusted is Some {
            "```text\n"@ + expr::type_info_hover(false, info).markup + "```\n"@
        } else {
            "```rust\n"@ + expr::type_info_hover(false, info).markup + "\n```"@
        },
        expr::type_info_hover(true, info).actions == expr::type_info_hover(false, info).actions,
{
}

/// The innermost body, or the item that ends the search for it, decides alone which type `?`
/// returns to; what stands around it does not matter.
pub proof fn law_innermost_body_decides(ancestors: Seq<SyntaxNode>, i: int)
    requires
        0 <= i < ancestors.len(),
        expr::ends_search(ancestors[i]),
        forall|j: int| 0 <= j < i ==> !expr::ends_search(#[trigger] ancestors[j]),
    ensures
        expr::body_type(ancestors) == expr::body_type(seq![ancestors[i]]),
    decreases i,
{
    if i > 0 {
        assert(!expr::ends_search(ancestors[0]));
        assert forall|j: int| 0 <= j < i - 1 implies !expr::ends_search(
            #[trigger] ancestors.drop_first()[j],
        ) by {
            assert(!expr::ends_search(ancestors[j + 1]));
        }
        law_innermost_body_decides(ancestors.drop_first(), i - 1);
    }
}

/// Without a body there is no type that `?` returns to.
pub proof fn law_no_body_no_type(ancestors: Seq<SyntaxNode>)
    requires
        forall|j: int| 0 <= j < ancestors.len() ==> !expr::ends_search(#[trigger] ancestors[j]),
    ensures
        expr::body_type(ancestors) is None,
    decreases ancestors.len(),
{
    if ancestors.len() > 0 {
        assert(!expr::ends_search(ancestors[0]));
        assert forall|j: int| 0 <= j < ancestors.len() - 1 implies !expr::ends_search(
            #[trigger] ancestors.drop_first()[j],
        ) by {
            assert(!expr::ends_search(ancestors[j + 1]));
        }
        law_no_body_no_type(ancestors.drop_first());
    }
}

/// `?` shows nothing where the type before it is that of the body, nor where both are an
/// `Option`.
pub proof fn law_no_hover_without_change(inner: Type, body: Type, famous_defs: FamousDefs)
    ensures
        inner.id == body.id ==> expr::try_shown(inner, body, famous_defs) is None,
        expr::both_are(famous_defs.core_option, inner, body) ==> expr::try_shown(
            inner,
            body,
            famous_defs,
        ) is None,
{
}

/// Of two results that are not equal only the error types show.
pub proof fn law_two_results_show_errors(inner: Type, body: Type, famous_defs: FamousDefs)
    requires
        inner.id != body.id,
        expr::both_are(famous_defs.core_result, inner, body),
        famous_defs.wf(),
        inner.arguments@.len() > 1,
        body.arguments@.len() > 1,
    ensures
        expr::try_shown(inner, body, famous_defs) == Some(
            TryShown::Error(inner.arguments@[1], body.arguments@[1]),
        ),
{
}

/// Where the type before the `?` and that of the body are not instances of the same enum, both
/// show whole.
pub proof fn law_different_enums_show_whole(inner: Type, body: Type, famous_defs: FamousDefs)
    requires
        inner.agrees_with(body),
        expr::enum_of(inner) != expr::enum_of(body),
    ensures
        expr::try_shown(inner, body, famous_defs) == Some(TryShown::Target(inner, body)),
{
}

/// An `Option` in a body that is a `Result`, and a `Result` in a body that is an `Option`, show
/// whole.
pub proof fn law_option_and_result_show_whole(inner: Type, body: Type, famous_defs: FamousDefs)
    requires
        inner.agrees_with(body),
        famous_defs.wf(),
        famous_defs.core_option is Some,
        famous_defs.core_result is Some,
        (expr::enum_of(inner) == famous_defs.core_option && expr::enum_of(body)
            == famous_defs.core_result) || (expr::enum_of(inner) == famous_defs.core_result
            && expr::enum_of(body) == famous_defs.core_option),
    ensures
        expr::try_shown(inner, body, famous_defs) == Some(TryShown::Target(inner, body)),
{
    law_different_enums_show_whole(inner, body, famous_defs);
}

/// Where documentation is not wanted, a keyword has no hover, and neither has any other token.
pub proof fn law_only_wanted_keywords_have_docs(
    config: HoverConfig,
    token: SyntaxToken,
    scope: Option<&FamousDefs>,
)
    ensures
        config.documentation is None || !token.is_keyword ==> docs::keyword_docs(
            config,
            token,
            scope,
        ) is None,
{
}

/// Documentation comes last, after a line; without it the rest is the same.
pub proof fn law_docs_come_last(docs: Seq<char>, desc: Seq<char>, mod_path: Option<Seq<char>>)
    ensures
        docs::markup_text(Some(docs), desc, mod_path) == docs::markup_text(None, desc, mod_path)
            + "\n___\n\n"@ + docs,
{
    assert(docs::markup_text(Some(docs), desc, mod_path) =~= docs::markup_text(None, desc, mod_path)
        + "\n___\n\n"@ + docs);
}

/// An empty path is left out, as if there were none.
pub proof fn law_empty_path_is_left_out(docs: Option<Seq<char>>, desc: Seq<char>)
    ensures
        docs::markup_text(docs, desc, Some(Seq::empty())) == docs::markup_text(docs, desc, None),
{
}

/// A path goes before the rest in a block of its own.
pub proof fn law_path_comes_first(docs: Option<Seq<char>>, desc: Seq<char>, path: Seq<char>)
    requires
        path.len() > 0,
    ensures
        docs::markup_text(docs, desc, Some(path)) == markup::rust_block(path) + "\n\n"@
            + docs::markup_text(docs, desc, None),
{
    assert(docs::markup_text(docs, desc, Some(path)) =~= markup::rust_block(path) + "\n\n"@
        + docs::markup_text(docs, desc, None));
}

/// Where documentation is not wanted, the documentation of a definition does not show: two
/// definitions that differ in nothing else have the same hover.
pub proof fn law_unwanted_docs_do_not_show(
    a: Definition,
    b: Definition,
    famous_defs: Option<&FamousDefs>,
    config: HoverConfig,
)
    requires
        config.documentation is None,
        definition::label_and_docs_of(a.kind) is Some,
        definition::label_and_docs_of(b.kind) is Some,
        (definition::label_and_docs_of(a.kind)->0).0 == (definition::label_and_docs_of(b.kind)->0).0,
        definition::mod_path(a) == definition::mod_path(b),
    ensures
        definition::definition_text(a, famous_defs, config) == definition::definition_text(
            b,
            famous_defs,
            config,
        ),
{
}

/// A definition has a hover unless it is a macro without source, or `Self` for what is no
/// struct, union or enum.
pub proof fn law_definition_has_hover(
    def: Definition,
    famous_defs: Option<&FamousDefs>,
    config: HoverConfig,
)
    ensures
        definition::definition_text(def, famous_defs, config) is None <==> match def.kind {
            definition::DefinitionKind::Macro(source, _) => source is None,
            definition::DefinitionKind::SelfType(adt) => adt is None,
            _ => false,
        },
{
}

pub(crate) proof fn lemma_join_one_more(parts: Seq<Seq<char>>, part: Seq<char>, sep: Seq<char>)
    ensures
        text::join(parts.push(part), sep) == if parts.len() == 0 {
            part
        } else {
            text::join(parts, sep) + sep + part
        },
    decreases parts.len(),
{
    if parts.len() > 0 {
        let all = parts.push(part);
        assert(all.drop_first() =~= parts.drop_first().push(part));
        lemma_join_one_more(parts.drop_first(), part, sep);
        assert(text::join(all, sep) == parts[0] + sep + text::join(all.drop_first(), sep));
        assert(text::join(all, sep) =~= text::join(parts, sep) + sep + part);
    }
}

/// The path to an item is the path to its module and the name of the item, with `::` between
/// them, or the name alone where that path has no names.
pub proof fn law_path_ends_with_item(module: ModulePath, name: Seq<char>)
    ensures
        definition::path_text(module, Some(name)) == if definition::path_segments(
            module,
            None,
        ).len() == 0 {
            name
        } else {
            definition::path_text(module, None) + "::"@ + name
        },
{
    let parts = definition::path_segments(module, None);
    assert(definition::path_segments(module, Some(name)) =~= parts.push(name));
    lemma_join_one_more(parts, name, "::"@);
}

/// No name holds a colon.
pub open spec fn are_names(parts: Seq<Seq<char>>) -> bool {
    forall|i: int| 0 <= i < parts.len() ==> !(#[trigger] parts[i]).contains(':')
}

/// The first name ends where the text ends, or where the separator begins.
proof fn lemma_join_starts_with_first(parts: Seq<Seq<char>>)
    requires
        parts.len() > 0,
    ensures
        ({
            let s = text::join(parts, "::"@);
            let n = parts[0].len() as int;
            &&& n <= s.len()
            &&& s.take(n) == parts[0]
            &&& parts.len() == 1 ==> s.len() == n
            &&& parts.len() > 1 ==> {
                &&& s.len() >= n + 2
                &&& s[n] == ':'
                &&& s.skip(n + 2) == text::join(parts.drop_first(), "::"@)
            }
        }),
{
    reveal_strlit("::");
    let s = text::join(parts, "::"@);
    let n = parts[0].len() as int;
    assert(s.take(n) =~= parts[0]);
    if parts.len() > 1 {
        let rest = text::join(parts.drop_first(), "::"@);
        assert(s == parts[0] + "::"@ + rest);
        assert(s.skip(n + 2) =~= rest);
    }
}

proof fn lemma_join_is_injective(a: Seq<Seq<char>>, b: Seq<Seq<char>>)
    requires
        are_names(a),
        are_names(b),
        a.len() > 0,
        b.len() > 0,
        text::join(a, "::"@) == text::join(b, "::"@),
    ensures
        a == b,
    decreases a.len(),
{
    let s = text::join(a, "::"@);
    let (m, n) = (a[0].len() as int, b[0].len() as int);
    lemma_join_starts_with_first(a);
    lemma_join_starts_with_first(b);
    if m < n {
        assert(b[0][m] == s.take(n)[m]);
        assert(b[0].contains(s[m]));
    } else if n < m {
        assert(a[0][n] == s.take(m)[n]);
        assert(a[0].contains(s[n]));
    } else {
        assert(a[0] == b[0]);
        if a.len() > 1 {
            let (x, y) = (a.drop_first(), b.drop_first());
            assert forall|i: int| 0 <= i < x.len() implies !(#[trigger] x[i]).contains(':') by {
                assert(x[i] == a[i + 1]);
            }
            assert forall|i: int| 0 <= i < y.len() implies !(#[trigger] y[i]).contains(':') by {
                assert(y[i] == b[i + 1]);
            }
            lemma_join_is_injective(x, y);
            assert(a =~= seq![a[0]] + x);
            assert(b =~= seq![b[0]] + y);
        } else {
            assert(a =~= b);
        }
    }
}

/// A path that is not empty tells all the names on the way, where none of them holds a colon:
/// two paths are the same only if they go through the same names.
pub proof fn law_path_tells_its_names(
    module: ModulePath,
    item_name: Option<Seq<char>>,
    other_module: ModulePath,
    other_item_name: Option<Seq<char>>,
)
    requires
        are_names(definition::path_segments(module, item_name)),
        are_names(definition::path_segments(other_module, other_item_name)),
        definition::path_text(module, item_name).len() > 0,
        definition::path_text(module, item_name) == definition::path_text(
            other_module,
            other_item_name,
        ),
    ensures
        definition::path_segments(module, item_name) == definition::path_segments(
            other_module,
            other_item_name,
        ),
{
    lemma_join_is_injective(
        definition::path_segments(module, item_name),
        definition::path_segments(other_module, other_item_name),
    );
}

/// A builtin type, a local variable and a label are shown in the same way whatever the reader
/// has chosen.
pub proof fn law_choice_does_not_matter(
    def: Definition,
    famous_defs: Option<&FamousDefs>,
    config: HoverConfig,
    other: HoverConfig,
)
    requires
        def.kind is BuiltinType || def.kind is Local || def.kind is Label,
    ensures
        definition::definition_text(def, famous_defs, config) == definition::definition_text(
            def,
            famous_defs,
            other,
        ),
{
}

/// The module found under a name is the first one that has it; none is found exactly where
/// none has it.
pub proof fn law_first_named_is_first(modules: Seq<Module>, name: Seq<char>)
    ensures
        docs::first_named(modules, name) is None <==> forall|i: int|
            0 <= i < modules.len() ==> text::opt_text((#[trigger] modules[i]).name) != Some(name),
        docs::first_named(modules, name) matches Some(module) ==> exists|i: int|
            #![trigger modules[i]]
            0 <= i < modules.len() && modules[i] == module && text::opt_text(module.name) == Some(
                name,
            ) && forall|j: int|
                0 <= j < i ==> text::opt_text((#[trigger] modules[j]).name) != Some(name),
    decreases modules.len(),
{
    if modules.len() > 0 {
        let rest = modules.drop_first();
        law_first_named_is_first(rest, name);
        assert(forall|i: int| 0 <= i < rest.len() ==> rest[i] == modules[i + 1]);
        if text::opt_text(modules[0].name) != Some(name) {
            assert forall|i: int| 0 <= i < modules.len() && docs::first_named(rest, name) is None implies
                text::opt_text((#[trigger] modules[i]).name) != Some(name) by {
                if i > 0 {
                    assert(rest[i - 1] == modules[i]);
                }
            }
            if docs::first_named(rest, name) is Some {
                let module = docs::first_named(rest, name)->0;
                let i = choose|i: int|
                    #![trigger rest[i]]
                    0 <= i < rest.len() && rest[i] == module && forall|j: int|
                        0 <= j < i ==> text::opt_text((#[trigger] rest[j]).name) != Some(name);
                assert(modules[i + 1] == module);
                assert forall|j: int| 0 <= j < i + 1 implies text::opt_text(
                    (#[trigger] modules[j]).name,
                ) != Some(name) by {
                    if j > 0 {
                        assert(rest[j - 1] == modules[j]);
                    }
                }
            }
        } else {
            assert(modules[0] == modules[0]);
        }
    }
}

/// Without Markdown, links do not matter.
pub proof fn law_links_need_markdown(config: HoverConfig)
    ensures
        docs::pass_of(config) is RemoveMarkdown <==> !config.is_markdown(),
        config.documentation is None ==> docs::pass_of(config) is RemoveMarkdown,
        docs::pass_of(config) is RewriteLinks ==> config.links_in_hover,
{
}

/// The order of texts is a strict total order.
pub proof fn law_order_is_strict_and_total(a: Seq<char>, b: Seq<char>, c: Seq<char>)
    ensures
        !text::precedes(a, a),
        text::precedes(a, b) ==> !text::precedes(b, a),
        text::precedes(a, b) && text::precedes(b, c) ==> text::precedes(a, c),
        text::precedes(a, b) || a == b || text::precedes(b, a),
{
    let (x, y, z) = (
        vstd::utf8::encode_utf8(a),
        vstd::utf8::encode_utf8(b),
        vstd::utf8::encode_utf8(c),
    );
    lemma_smaller_is_unique(x, x);
    lemma_smaller_is_unique(x, y);
    if text::precedes(a, b) && text::precedes(b, c) {
        let k = choose|k: int| text::smaller_at(x, y, k);
        let l = choose|l: int| text::smaller_at(y, z, l);
        let m = if k < l {
            k
        } else {
            l
        };
        assert(x.take(m) =~= x.take(k).take(m));
        assert(y.take(m) =~= y.take(k).take(m));
        assert(y.take(m) =~= y.take(l).take(m));
        assert(z.take(m) =~= z.take(l).take(m));
        if k < l {
            assert(y[k] == y.take(l)[k] && z[k] == z.take(l)[k]);
        } else if l < k {
            assert(y[l] == y.take(k)[l] && x[l] == x.take(k)[l]);
        }
        assert(text::smaller_at(x, z, m));
    }
    if a != b {
        if x == y {
            text::lemma_encoding_is_injective(a, b);
        }
        assert(x.take(0) =~= y.take(0));
        lemma_differing_are_ordered(x, y, 0);
    }
}

proof fn lemma_smaller_is_unique(x: Seq<u8>, y: Seq<u8>)
    ensures
        forall|k: int, l: int| #[trigger]
            text::smaller_at(x, y, k) && #[trigger] text::smaller_at(y, x, l) ==> false,
{
    assert forall|k: int, l: int| #[trigger]
        text::smaller_at(x, y, k) && #[trigger] text::smaller_at(y, x, l) implies false by {
        if k < l {
            assert(x[k] == x.take(l)[k] && y[k] == y.take(l)[k]);
        } else if l < k {
            assert(x[l] == x.take(k)[l] && y[l] == y.take(k)[l]);
        }
    }
}

proof fn lemma_differing_are_ordered(x: Seq<u8>, y: Seq<u8>, i: int)
    requires
        0 <= i <= x.len(),
        i <= y.len(),
        x.take(i) == y.take(i),
        x != y,
    ensures
        (exists|k: int| text::smaller_at(x, y, k)) || (exists|k: int| text::smaller_at(y, x, k)),
    decreases x.len() - i,
{
    if i < x.len() && i < y.len() && x[i] == y[i] {
        assert(x.take(i + 1) =~= x.take(i).push(x[i]));
        assert(y.take(i + 1) =~= y.take(i).push(y[i]));
        lemma_differing_are_ordered(x, y, i + 1);
    } else if i == x.len() && i == y.len() {
        assert(x =~= x.take(i));
        assert(y =~= y.take(i));
    } else {
        assert(text::smaller_at(x, y, i) || text::smaller_at(y, x, i));
    }
}

/// A list in which each label comes after the ones before is sorted, and no two entries of it
/// have the same label: what is found under a label is the one entry that has it.
pub proof fn law_labels_are_unique(lints: Seq<Lint>)
    requires
        forall|i: int, j: int|
            0 <= i < j < lints.len() ==> text::precedes(
                (#[trigger] lints[i]).label@,
                (#[trigger] lints[j]).label@,
            ),
    ensures
        lint::is_sorted(lints),
        forall|a: Lint, b: Lint| #[trigger]
            lints.contains(a) && #[trigger] lints.contains(b) && a.label@ == b.label@ ==> a == b,
{
    assert forall|i: int, j: int| 0 <= i < j < lints.len() implies !text::precedes(
        (#[trigger] lints[j]).label@,
        (#[trigger] lints[i]).label@,
    ) by {
        law_order_is_strict_and_total(lints[i].label@, lints[j].label@, lints[j].label@);
    }
    assert forall|a: Lint, b: Lint| #[trigger]
        lints.contains(a) && #[trigger] lints.contains(b) && a.label@ == b.label@ implies a == b by {
        let i = choose|i: int| 0 <= i < lints.len() && lints[i] == a;
        let j = choose|j: int| 0 <= j < lints.len() && lints[j] == b;
        law_order_is_strict_and_total(a.label@, a.label@, a.label@);
        if i < j {
            assert(text::precedes(lints[i].label@, lints[j].label@));
        } else if j < i {
            assert(text::precedes(lints[j].label@, lints[i].label@));
        }
    }
}

/// In a list in which each label comes after the ones before, the hover for a label is
/// determined: any two that show an entry with that label are the same.
pub proof fn law_lint_hover_is_determined(
    lints: Seq<Lint>,
    label: Seq<char>,
    a: HoverView,
    b: HoverView,
)
    requires
        forall|i: int, j: int|
            0 <= i < j < lints.len() ==> text::precedes(
                (#[trigger] lints[i]).label@,
                (#[trigger] lints[j]).label@,
            ),
        lint::shows_listed(a, lints, label),
        lint::shows_listed(b, lints, label),
    ensures
        a == b,
{
    law_labels_are_unique(lints);
}

/// Blanks and comments can be taken out anywhere: what stands before and behind them is all
/// that counts.
pub proof fn law_trivia_leave_no_trace(
    before: Seq<SyntaxElement>,
    trivia: Seq<SyntaxElement>,
    behind: Seq<SyntaxElement>,
)
    requires
        forall|i: int| 0 <= i < trivia.len() ==> (#[trigger] trivia[i]).is_trivia(),
    ensures
        syntax::without_trivia(before + trivia + behind) == syntax::without_trivia(before + behind),
    decreases before.len() + trivia.len(),
{
    let all = before + trivia + behind;
    if before.len() > 0 {
        assert(all.drop_first() =~= before.drop_first() + trivia + behind);
        assert((before + behind).drop_first() =~= before.drop_first() + behind);
        law_trivia_leave_no_trace(before.drop_first(), trivia, behind);
    } else if trivia.len() > 0 {
        assert(all[0] == trivia[0]);
        assert(all.drop_first() =~= before + trivia.drop_first() + behind);
        assert forall|i: int| 0 <= i < trivia.len() - 1 implies (
        #[trigger] trivia.drop_first()[i]).is_trivia() by {
            assert(trivia[i + 1].is_trivia());
        }
        law_trivia_leave_no_trace(before, trivia.drop_first(), behind);
    } else {
        assert(all =~= before + behind);
    }
}

/// Which of the levels an attribute sets does not matter for the lint that a token names, and
/// neither do the blanks and comments before the token.
pub proof fn law_level_does_not_matter(
    tables: LintTables,
    level: Seq<char>,
    other: Seq<char>,
    token: SyntaxToken,
    same: SyntaxToken,
)
    requires
        lint::is_level(level),
        lint::is_level(other),
        token.text@ == same.text@,
        syntax::without_trivia(token.previous@) == syntax::without_trivia(same.previous@),
    ensures
        lint::lint_sought(tables, level, token) == lint::lint_sought(tables, other, same),
{
    reveal_strlit("feature");
    reveal_strlit("allow");
    reveal_strlit("deny");
    reveal_strlit("forbid");
    reveal_strlit("warn");
    assert(level.len() < "feature"@.len() && other.len() < "feature"@.len());
}

/// Two attributes that differ in the level they set, and in blanks and comments, have the same
/// hovers: for a token in the arguments of one, and the same token in those of the other, the
/// hover is the same, whatever the tables hold.
pub proof fn law_level_and_trivia_do_not_matter(
    tables: LintTables,
    attr: Attr,
    other: Attr,
    token: SyntaxToken,
    same: SyntaxToken,
)
    requires
        attr.simple_call is Some,
        other.simple_call is Some,
        lint::is_level(attr.simple_call->0.path@),
        lint::is_level(other.simple_call->0.path@),
        attr.simple_call->0.token_tree.spec_contains(token.start)
            == other.simple_call->0.token_tree.spec_contains(same.start),
        token.text@ == same.text@,
        syntax::without_trivia(token.previous@) == syntax::without_trivia(same.previous@),
    ensures
        lint::lint_in_attr(tables, attr, token) == lint::lint_in_attr(tables, other, same),
{
    law_level_does_not_matter(
        tables,
        attr.simple_call->0.path@,
        other.simple_call->0.path@,
        token,
        same,
    );
}

} // verus!
