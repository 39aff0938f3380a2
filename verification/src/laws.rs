//! The properties the library guarantees across its components, stated
//! and proved over the same spec functions its contracts use.

use vstd::prelude::*;
use crate::ast::{Item, Program};
use crate::cache::spec_lookup;
use crate::completion::{
    spec_basic_completions, spec_builtin_items, spec_builtin_limit, spec_completions,
    spec_fn_names, spec_icount, spec_item_views, spec_method_items, spec_var_items,
    CompletionItemKind, ItemView,
};
use crate::frontend::{AnalysisInput, BuiltinFn};
use crate::diagnostics::spec_check_document;
use crate::text::{spec_fingerprint, spec_line_exists, spec_member_access};

verus! {

/// Cache idempotence: once a parse of `text` is stored for `id` — into
/// any prior cache state `m`, and likewise into the cleared cache after
/// eviction — a lookup with the same text returns that very program,
/// structurally equal, with no front-end involvement.
pub proof fn lemma_cache_hit_after_store(
    m: Map<Seq<char>, (u64, Program)>,
    id: Seq<char>,
    text: Seq<char>,
    program: Program,
)
    ensures
        spec_lookup(m.insert(id, (spec_fingerprint(text), program)), id, text) == Some(program),
        spec_lookup(
            Map::<Seq<char>, (u64, Program)>::empty().insert(
                id,
                (spec_fingerprint(text), program),
            ),
            id,
            text,
        ) == Some(program),
{
}

/// Invalidation: when the cache holds at most a parse of `t1` for `id`
/// and `t2` carries a different fingerprint, a lookup with `t2` yields
/// nothing — neither before nor after the change handler removed the
/// entry — so the program cached for `t1` is never returned for `t2`.
pub proof fn lemma_no_stale_hit(
    m: Map<Seq<char>, (u64, Program)>,
    id: Seq<char>,
    t1: Seq<char>,
    t2: Seq<char>,
    p1: Program,
)
    requires
        spec_fingerprint(t1) != spec_fingerprint(t2),
        m.contains_key(id) ==> m[id] == (spec_fingerprint(t1), p1),
    ensures
        spec_lookup(m, id, t2) is None,
        spec_lookup(m.remove(id), id, t2) is None,
{
}

/// Diagnostics determinism: the diagnostic list is a function of what
/// the front-end reported, so identical analyses of identical texts
/// yield identical diagnostic lists.
pub proof fn lemma_diagnostics_deterministic(a: AnalysisInput, b: AnalysisInput)
    requires
        a == b,
    ensures
        spec_check_document(a) == spec_check_document(b),
{
}

proof fn lemma_item_views_len_pos(items: Seq<Item>, i: int)
    requires
        1 <= i <= items.len(),
    ensures
        spec_item_views(items, i).len() > 0,
{
    match items[i - 1] {
        Item::Function(_) => {},
        Item::Class(_) => {},
    }
}

proof fn lemma_builtin_items_len_nondecreasing(
    bs: Seq<BuiltinFn>,
    fnames: Seq<Seq<char>>,
    len0: int,
    j: int,
    i: int,
)
    requires
        0 <= j <= i,
    ensures
        spec_builtin_items(bs, fnames, len0, j).len() <= spec_builtin_items(
            bs,
            fnames,
            len0,
            i,
        ).len(),
    decreases i - j,
{
    if j < i {
        lemma_builtin_items_len_nondecreasing(bs, fnames, len0, j, i - 1);
    }
}

/// Completion is never empty: with a line under the cursor and a
/// non-empty built-in catalog the list holds a user item, a catalog item
/// or the keywords; and with no line under the cursor (or no parsed
/// program at all) the minimal fallback — keywords plus `print` — is
/// returned, which is never empty either.
pub proof fn lemma_completions_nonempty(
    program: Program,
    text: Seq<u8>,
    line: int,
    col: int,
    builtins: Seq<BuiltinFn>,
)
    requires
        builtins.len() > 0,
    ensures
        spec_completions(program, text, line, col, builtins).len() > 0,
        spec_basic_completions().len() > 0,
{
    if spec_line_exists(text, line) {
        let items = program.items@;
        if spec_member_access(text, line, col) {
            if items.len() > 0 {
                lemma_item_views_len_pos(items, items.len() as int);
            } else {
                assert(spec_fn_names(items, 0).len() == 0);
                assert(!spec_fn_names(items, 0).contains(builtins[0].name@));
                let user = spec_item_views(items, items.len() as int);
                let fnames = spec_fn_names(items, items.len() as int);
                let vars = match crate::scope::spec_enclosing_fn(items, line + 1, 0) {
                    Some(f) => spec_var_items(
                        crate::scope::spec_scope_vars(f),
                        fnames,
                        crate::scope::spec_scope_vars(f).len() as int,
                    ),
                    None => Seq::<ItemView>::empty(),
                };
                let base = user + vars;
                assert(fnames.len() == 0);
                assert(!fnames.contains(builtins[0].name@));
                assert(spec_builtin_items(builtins, fnames, base.len() as int, 0).len() == 0);
                assert(spec_builtin_items(builtins, fnames, base.len() as int, 1).len() == 1);
                lemma_builtin_items_len_nondecreasing(
                    builtins,
                    fnames,
                    base.len() as int,
                    1,
                    spec_builtin_limit(builtins.len() as int),
                );
            }
        }
    }
}

proof fn lemma_method_items_no_keyword(cname: Seq<char>, ms: Seq<crate::ast::Function>, d0: int, j: int)
    requires
        j >= 0,
    ensures
        forall|k: int|
            0 <= k < spec_method_items(cname, ms, d0, j).len() ==> #[trigger] spec_method_items(
                cname,
                ms,
                d0,
                j,
            )[k].kind != CompletionItemKind::Keyword,
    decreases j,
{
    if j > 0 {
        lemma_method_items_no_keyword(cname, ms, d0, j - 1);
    }
}

proof fn lemma_user_items_no_keyword(items: Seq<Item>, i: int)
    requires
        i >= 0,
    ensures
        forall|k: int|
            0 <= k < spec_item_views(items, i).len() ==> #[trigger] spec_item_views(
                items,
                i,
            )[k].kind != CompletionItemKind::Keyword,
    decreases i,
{
    if i > 0 {
        lemma_user_items_no_keyword(items, i - 1);
        match items[i - 1] {
            Item::Function(_) => {},
            Item::Class(c) => {
                lemma_method_items_no_keyword(
                    c.name@,
                    c.methods@,
                    spec_icount(items, i - 1),
                    c.methods@.len() as int,
                );
            },
        }
    }
}

proof fn lemma_var_items_no_keyword(vars: Seq<Seq<char>>, fnames: Seq<Seq<char>>, i: int)
    requires
        i >= 0,
    ensures
        forall|k: int|
            0 <= k < spec_var_items(vars, fnames, i).len() ==> #[trigger] spec_var_items(
                vars,
                fnames,
                i,
            )[k].kind != CompletionItemKind::Keyword,
    decreases i,
{
    if i > 0 {
        lemma_var_items_no_keyword(vars, fnames, i - 1);
    }
}

proof fn lemma_builtin_items_no_keyword(
    bs: Seq<BuiltinFn>,
    fnames: Seq<Seq<char>>,
    len0: int,
    i: int,
)
    requires
        i >= 0,
    ensures
        forall|k: int|
            0 <= k < spec_builtin_items(bs, fnames, len0, i).len() ==> #[trigger] spec_builtin_items(
                bs,
                fnames,
                len0,
                i,
            )[k].kind != CompletionItemKind::Keyword,
    decreases i,
{
    if i > 0 {
        lemma_builtin_items_no_keyword(bs, fnames, len0, i - 1);
    }
}

/// No keywords in member-access position: when the cursor line's prefix,
/// trimmed of trailing whitespace, ends with a dot, the completion list
/// holds no keyword item — only functions, classes, methods, variables
/// and catalog entries.
pub proof fn lemma_member_access_no_keywords(
    program: Program,
    text: Seq<u8>,
    line: int,
    col: int,
    builtins: Seq<BuiltinFn>,
)
    requires
        spec_line_exists(text, line),
        spec_member_access(text, line, col),
    ensures
        forall|k: int|
            0 <= k < spec_completions(program, text, line, col, builtins).len()
                ==> #[trigger] spec_completions(program, text, line, col, builtins)[k].kind
                != CompletionItemKind::Keyword,
{
    let items = program.items@;
    let n = items.len() as int;
    let fnames = spec_fn_names(items, n);
    let user = spec_item_views(items, n);
    let vars = match crate::scope::spec_enclosing_fn(items, line + 1, 0) {
        Some(f) => spec_var_items(
            crate::scope::spec_scope_vars(f),
            fnames,
            crate::scope::spec_scope_vars(f).len() as int,
        ),
        None => Seq::<ItemView>::empty(),
    };
    let base = user + vars;
    let bi = spec_builtin_items(builtins, fnames, base.len() as int, spec_builtin_limit(
        builtins.len() as int,
    ));
    lemma_user_items_no_keyword(items, n);
    match crate::scope::spec_enclosing_fn(items, line + 1, 0) {
        Some(f) => {
            lemma_var_items_no_keyword(
                crate::scope::spec_scope_vars(f),
                fnames,
                crate::scope::spec_scope_vars(f).len() as int,
            );
        },
        None => {},
    }
    lemma_builtin_items_no_keyword(builtins, fnames, base.len() as int, spec_builtin_limit(
        builtins.len() as int,
    ));
    assert forall|k: int|
        0 <= k < spec_completions(program, text, line, col, builtins).len() implies spec_completions(
        program,
        text,
        line,
        col,
        builtins,
    )[k].kind != CompletionItemKind::Keyword by {
        let all = base + bi;
        assert(spec_completions(program, text, line, col, builtins) == all);
        if k < base.len() {
            if k < user.len() {
                assert(all[k] == user[k]);
            } else {
                assert(all[k] == vars[k - user.len()]);
            }
        } else {
            assert(all[k] == bi[k - base.len()]);
        }
    }
}

} // verus!
