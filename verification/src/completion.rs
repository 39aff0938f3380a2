//! The completion engine: derives the ordered suggestion list from the
//! parsed program, the cursor position, the names in scope, the built-in
//! catalog and the keyword set — with the member-access rule (no
//! keywords after a trailing dot) and the formatting cutoffs that bound
//! the work done per request.

use vstd::prelude::*;
use vstd::string::*;
use crate::ast::{Class, Function, Item, Program};
use crate::backend::Backend;
use crate::diagnostics::Position;
use crate::frontend::BuiltinFn;
use crate::render::{format_function_signature, format_type, spec_format_type, spec_params_prefix, spec_signature};
use crate::scope::{extract_variables_in_scope, names_view, spec_enclosing_fn, spec_scope_vars};
use crate::text::{member_access_at, spec_line_exists, spec_member_access};

verus! {

/// How many user functions and methods get a fully formatted signature
/// as their detail; later ones fall back to `fn name`.
pub const MAX_DETAILED_ITEMS: usize = 50;

/// How many catalog entries are considered, regardless of catalog size.
pub const MAX_BUILTIN_ITEMS: usize = 100;

/// Once the accumulated item count passes this, built-in details fall
/// back to `name()`.
pub const BUILTIN_DETAIL_CUTOFF: usize = 200;

/// What kind of thing a completion item suggests.
#[derive(Clone, Copy, Debug, PartialEq, Eq, Structural)]
pub enum CompletionItemKind {
    Function,
    Class,
    Method,
    Variable,
    Keyword,
}

/// One suggestion: a label to insert, its kind, a detail line, and an
/// optional documentation block.
#[derive(Clone, Debug, PartialEq)]
pub struct CompletionItem {
    pub label: String,
    pub kind: CompletionItemKind,
    pub detail: String,
    pub documentation: Option<String>,
}

/// The mathematical content of a completion item.
pub ghost struct ItemView {
    pub label: Seq<char>,
    pub kind: CompletionItemKind,
    pub detail: Seq<char>,
    pub documentation: Option<Seq<char>>,
}

/// The content of an optional doc string.
pub open spec fn spec_doc(d: Option<String>) -> Option<Seq<char>> {
    match d {
        Some(s) => Some(s@),
        None => None,
    }
}

impl View for CompletionItem {
    type V = ItemView;

    open spec fn view(&self) -> ItemView {
        ItemView {
            label: self.label@,
            kind: self.kind,
            detail: self.detail@,
            documentation: spec_doc(self.documentation),
        }
    }
}

/// The contents of a completion list.
pub open spec fn items_view(s: Seq<CompletionItem>) -> Seq<ItemView> {
    s.map_values(|c: CompletionItem| c@)
}

/// The detail line of a user function or method: the full signature for
/// the first `MAX_DETAILED_ITEMS` encountered, a bare `fn name` after.
pub open spec fn spec_fn_detail(f: Function, detailed: int) -> Seq<char> {
    if detailed < MAX_DETAILED_ITEMS {
        spec_signature(f)
    } else {
        "fn "@ + f.name@
    }
}

/// The item a top-level function contributes.
pub open spec fn spec_fn_item(f: Function, detailed: int) -> ItemView {
    ItemView {
        label: f.name@,
        kind: CompletionItemKind::Function,
        detail: spec_fn_detail(f, detailed),
        documentation: spec_doc(f.doc),
    }
}

/// The item a class contributes for itself.
pub open spec fn spec_class_item(c: Class) -> ItemView {
    ItemView {
        label: c.name@,
        kind: CompletionItemKind::Class,
        detail: "class "@ + c.name@,
        documentation: spec_doc(c.doc),
    }
}

/// The item a method contributes: labelled `ClassName.method`.
pub open spec fn spec_method_item(cname: Seq<char>, m: Function, detailed: int) -> ItemView {
    ItemView {
        label: cname + "."@ + m.name@,
        kind: CompletionItemKind::Method,
        detail: spec_fn_detail(m, detailed),
        documentation: spec_doc(m.doc),
    }
}

/// The detailed-formatting counter after the first `j` methods, starting
/// from `d0`: it grows by one per method while under the cutoff.
pub open spec fn spec_mcount(ms: Seq<Function>, d0: int, j: int) -> int
    decreases j,
{
    if j <= 0 {
        d0
    } else {
        let c = spec_mcount(ms, d0, j - 1);
        if c < MAX_DETAILED_ITEMS {
            c + 1
        } else {
            c
        }
    }
}

/// The items of the first `j` methods of a class, threading the
/// detailed-formatting counter from `d0`.
pub open spec fn spec_method_items(cname: Seq<char>, ms: Seq<Function>, d0: int, j: int) -> Seq<
    ItemView,
>
    decreases j,
{
    if j <= 0 {
        Seq::<ItemView>::empty()
    } else {
        spec_method_items(cname, ms, d0, j - 1).push(
            spec_method_item(cname, ms[j - 1], spec_mcount(ms, d0, j - 1)),
        )
    }
}

/// The detailed-formatting counter after the first `i` top-level items.
pub open spec fn spec_icount(items: Seq<Item>, i: int) -> int
    decreases i,
{
    if i <= 0 {
        0
    } else {
        let c = spec_icount(items, i - 1);
        match items[i - 1] {
            Item::Function(_) => if c < MAX_DETAILED_ITEMS {
                c + 1
            } else {
                c
            },
            Item::Class(cl) => spec_mcount(cl.methods@, c, cl.methods@.len() as int),
        }
    }
}

/// The items one top-level item contributes, at counter `d`.
pub open spec fn spec_one_item(item: Item, d: int) -> Seq<ItemView> {
    match item {
        Item::Function(f) => seq![spec_fn_item(f, d)],
        Item::Class(c) => seq![spec_class_item(c)] + spec_method_items(
            c.name@,
            c.methods@,
            d,
            c.methods@.len() as int,
        ),
    }
}

/// The items of the first `i` top-level items, in source order.
pub open spec fn spec_item_views(items: Seq<Item>, i: int) -> Seq<ItemView>
    decreases i,
{
    if i <= 0 {
        Seq::<ItemView>::empty()
    } else {
        spec_item_views(items, i - 1) + spec_one_item(items[i - 1], spec_icount(items, i - 1))
    }
}

/// The names of the first `j` methods.
pub open spec fn spec_method_names(ms: Seq<Function>, j: int) -> Seq<Seq<char>>
    decreases j,
{
    if j <= 0 {
        Seq::<Seq<char>>::empty()
    } else {
        spec_method_names(ms, j - 1).push(ms[j - 1].name@)
    }
}

/// The function and method names of the first `i` top-level items —
/// the names that shadow same-named variables and built-ins. Class names
/// themselves shadow nothing.
pub open spec fn spec_fn_names(items: Seq<Item>, i: int) -> Seq<Seq<char>>
    decreases i,
{
    if i <= 0 {
        Seq::<Seq<char>>::empty()
    } else {
        spec_fn_names(items, i - 1) + match items[i - 1] {
            Item::Function(f) => seq![f.name@],
            Item::Class(c) => spec_method_names(c.methods@, c.methods@.len() as int),
        }
    }
}

/// The items of the first `i` in-scope variables, skipping names already
/// taken by a function or method.
pub open spec fn spec_var_items(vars: Seq<Seq<char>>, fnames: Seq<Seq<char>>, i: int) -> Seq<
    ItemView,
>
    decreases i,
{
    if i <= 0 {
        Seq::<ItemView>::empty()
    } else {
        let prev = spec_var_items(vars, fnames, i - 1);
        if fnames.contains(vars[i - 1]) {
            prev
        } else {
            prev.push(
                ItemView {
                    label: vars[i - 1],
                    kind: CompletionItemKind::Variable,
                    detail: "Variable"@,
                    documentation: None,
                },
            )
        }
    }
}

/// The full signature a catalog entry shows while the list is short:
/// `name(p1: t1, p2: t2) -> returnType`.
pub open spec fn spec_builtin_sig(b: BuiltinFn) -> Seq<char> {
    b.name@ + "("@ + spec_params_prefix(b.params@, b.params@.len() as int) + ") -> "@
        + spec_format_type(b.return_type, 0)
}

/// The item one catalog entry contributes when the list already holds
/// `cur_len` items: the full signature under the cutoff, `name()` past
/// it.
pub open spec fn spec_builtin_item(b: BuiltinFn, cur_len: int) -> ItemView {
    ItemView {
        label: b.name@,
        kind: CompletionItemKind::Function,
        detail: if cur_len < BUILTIN_DETAIL_CUTOFF {
            spec_builtin_sig(b)
        } else {
            b.name@ + "()"@
        },
        documentation: Some(b.description@),
    }
}

/// The items of the first `i` catalog entries, skipping names shadowed
/// by a user function or method, with the list length threaded from
/// `len0` for the detail cutoff.
pub open spec fn spec_builtin_items(
    bs: Seq<BuiltinFn>,
    fnames: Seq<Seq<char>>,
    len0: int,
    i: int,
) -> Seq<ItemView>
    decreases i,
{
    if i <= 0 {
        Seq::<ItemView>::empty()
    } else {
        let prev = spec_builtin_items(bs, fnames, len0, i - 1);
        if fnames.contains(bs[i - 1].name@) {
            prev
        } else {
            prev.push(spec_builtin_item(bs[i - 1], len0 + prev.len()))
        }
    }
}

/// The keyword suggestions, in their fixed order.
pub open spec fn spec_keyword_items() -> Seq<ItemView> {
    seq![
        spec_keyword_item("fn"@, "Function definition"@),
        spec_keyword_item("let"@, "Immutable variable"@),
        spec_keyword_item("var"@, "Mutable variable"@),
        spec_keyword_item("if"@, "Conditional statement"@),
        spec_keyword_item("else"@, "Else branch"@),
        spec_keyword_item("for"@, "For loop"@),
        spec_keyword_item("while"@, "While loop"@),
        spec_keyword_item("break"@, "Break out of loop"@),
        spec_keyword_item("continue"@, "Continue to next loop iteration"@),
        spec_keyword_item("return"@, "Return from function"@),
    ]
}

/// One keyword suggestion.
pub open spec fn spec_keyword_item(label: Seq<char>, detail: Seq<char>) -> ItemView {
    ItemView { label, kind: CompletionItemKind::Keyword, detail, documentation: None }
}

/// The minimal fallback list: all keywords plus the built-in `print` —
/// never empty.
pub open spec fn spec_basic_completions() -> Seq<ItemView> {
    spec_keyword_items().push(
        ItemView {
            label: "print"@,
            kind: CompletionItemKind::Function,
            detail: "print(value: dynamic) -> void"@,
            documentation: None,
        },
    )
}

/// The number of catalog entries considered: the whole catalog, capped.
pub open spec fn spec_builtin_limit(n: int) -> int {
    if n > MAX_BUILTIN_ITEMS {
        MAX_BUILTIN_ITEMS as int
    } else {
        n
    }
}

/// The whole completion list for a parsed program at a cursor. When the
/// text has no line at the cursor, the minimal fallback list. Otherwise,
/// in order: every top-level function and class (classes also emit one
/// item per method), the variables visible at the cursor not shadowed by
/// a function, the catalog entries not shadowed by a function, and — only
/// outside member-access position — the keywords.
pub open spec fn spec_completions(
    program: Program,
    text: Seq<u8>,
    line: int,
    col: int,
    builtins: Seq<BuiltinFn>,
) -> Seq<ItemView> {
    if !spec_line_exists(text, line) {
        spec_basic_completions()
    } else {
        let items = program.items@;
        let user = spec_item_views(items, items.len() as int);
        let fnames = spec_fn_names(items, items.len() as int);
        let vars = match spec_enclosing_fn(items, line + 1, 0) {
            Some(f) => spec_var_items(spec_scope_vars(f), fnames, spec_scope_vars(f).len() as int),
            None => Seq::<ItemView>::empty(),
        };
        let base = user + vars;
        let all = base + spec_builtin_items(
            builtins,
            fnames,
            base.len() as int,
            spec_builtin_limit(builtins.len() as int),
        );
        if spec_member_access(text, line, col) {
            all
        } else {
            all + spec_keyword_items()
        }
    }
}

/// Whether `names` holds a name equal to `x`.
fn contains_name(names: &Vec<String>, x: &String) -> (r: bool)
    ensures
        r == names_view(names@).contains(x@),
{
    let mut i: usize = 0;
    while i < names.len()
        invariant
            0 <= i <= names@.len(),
            forall|k: int| 0 <= k < i ==> names@[k]@ != x@,
        decreases names@.len() - i,
    {
        if names[i] == *x {
            proof {
                assert(names_view(names@)[i as int] == x@);
            }
            return true;
        }
        i = i + 1;
    }
    proof {
        assert(forall|k: int| 0 <= k < names_view(names@).len() ==> names_view(names@)[k] != x@);
    }
    false
}

fn clone_doc(d: &Option<String>) -> (r: Option<String>)
    ensures
        spec_doc(r) == spec_doc(*d),
{
    match d {
        Some(s) => Some(s.clone()),
        None => None,
    }
}

/// Renders the full catalog-entry signature `name(params) -> ret`.
fn builtin_signature(b: &BuiltinFn) -> (r: String)
    ensures
        r@ == spec_builtin_sig(*b),
{
    let mut s = b.name.clone();
    s.append("(");
    let ghost mid = s@;
    let mut j: usize = 0;
    while j < b.params.len()
        invariant
            0 <= j <= b.params@.len(),
            s@ == mid + spec_params_prefix(b.params@, j as int),
        decreases b.params@.len() - j,
    {
        if j > 0 {
            s.append(", ");
        }
        let p = &b.params[j];
        s.append(p.name.as_str());
        s.append(": ");
        let t = format_type(&p.ty);
        s.append(t.as_str());
        proof {
            assert(s@ =~= mid + spec_params_prefix(b.params@, j as int + 1));
        }
        j = j + 1;
    }
    s.append(") -> ");
    let t = format_type(&b.return_type);
    s.append(t.as_str());
    proof {
        assert(s@ =~= spec_builtin_sig(*b));
    }
    s
}

/// Appends the items and shadowing names of every top-level item,
/// threading the detailed-formatting counter.
#[verifier::loop_isolation(false)]
fn push_user_items(program: &Program, items: &mut Vec<CompletionItem>, names: &mut Vec<String>)
    ensures
        items_view(final(items)@) == items_view(old(items)@) + spec_item_views(
            program.items@,
            program.items@.len() as int,
        ),
        names_view(final(names)@) == names_view(old(names)@) + spec_fn_names(
            program.items@,
            program.items@.len() as int,
        ),
{
    let ghost base_items = items_view(old(items)@);
    let ghost base_names = names_view(old(names)@);
    let ghost src = program.items@;
    let mut detailed_count: usize = 0;
    let mut i: usize = 0;
    proof {
        assert(items_view(items@) =~= base_items + spec_item_views(src, 0));
        assert(names_view(names@) =~= base_names + spec_fn_names(src, 0));
    }
    while i < program.items.len()
        invariant
            0 <= i <= src.len(),
            items_view(items@) == base_items + spec_item_views(src, i as int),
            names_view(names@) == base_names + spec_fn_names(src, i as int),
            detailed_count == spec_icount(src, i as int),
        decreases src.len() - i,
    {
        let ghost c0 = detailed_count as int;
        match &program.items[i] {
            Item::Function(func) => {
                let ghost prev_names = names_view(names@);
                names.push(func.name.clone());
                proof {
                    assert(names_view(names@) =~= prev_names.push(func.name@));
                    assert(spec_fn_names(src, i as int + 1) == spec_fn_names(src, i as int)
                        + seq![func.name@]);
                    assert(names_view(names@) =~= base_names + spec_fn_names(src, i as int + 1));
                }
                let detail = if detailed_count < MAX_DETAILED_ITEMS {
                    detailed_count = detailed_count + 1;
                    format_function_signature(func)
                } else {
                    let mut d = String::from_str("fn ");
                    d.append(func.name.as_str());
                    d
                };
                proof {
                    assert(detail@ == spec_fn_detail(*func, c0));
                }
                let item = CompletionItem {
                    label: func.name.clone(),
                    kind: CompletionItemKind::Function,
                    detail,
                    documentation: clone_doc(&func.doc),
                };
                let ghost prev_items = items_view(items@);
                let ghost iv = item@;
                items.push(item);
                proof {
                    assert(iv == spec_fn_item(*func, c0));
                    assert(items_view(items@) =~= prev_items.push(iv));
                    assert(spec_one_item(src[i as int], c0) =~= seq![spec_fn_item(*func, c0)]);
                    assert(spec_item_views(src, i as int + 1) == spec_item_views(src, i as int)
                        + spec_one_item(src[i as int], c0));
                    assert(items_view(items@) =~= base_items + spec_item_views(src, i as int + 1));
                    assert(detailed_count == spec_icount(src, i as int + 1));
                }
            },
            Item::Class(class) => {
                let detail = {
                    let mut d = String::from_str("class ");
                    d.append(class.name.as_str());
                    d
                };
                let item = CompletionItem {
                    label: class.name.clone(),
                    kind: CompletionItemKind::Class,
                    detail,
                    documentation: clone_doc(&class.doc),
                };
                let ghost prev_items = items_view(items@);
                let ghost civ = item@;
                items.push(item);
                let ghost mid_items = items_view(items@);
                let ghost mid_names = names_view(names@);
                proof {
                    assert(civ == spec_class_item(*class));
                    assert(mid_items =~= prev_items.push(civ));
                    assert(items_view(items@) =~= mid_items + spec_method_items(
                        class.name@,
                        class.methods@,
                        c0,
                        0,
                    ));
                    assert(names_view(names@) =~= mid_names + spec_method_names(class.methods@, 0));
                }
                let mut j: usize = 0;
                while j < class.methods.len()
                    invariant
                        0 <= j <= class.methods@.len(),
                        items_view(items@) == mid_items + spec_method_items(
                            class.name@,
                            class.methods@,
                            c0,
                            j as int,
                        ),
                        names_view(names@) == mid_names + spec_method_names(
                            class.methods@,
                            j as int,
                        ),
                        detailed_count == spec_mcount(class.methods@, c0, j as int),
                    decreases class.methods@.len() - j,
                {
                    let ghost m0 = detailed_count as int;
                    let method = &class.methods[j];
                    let ghost prev_names = names_view(names@);
                    names.push(method.name.clone());
                    proof {
                        assert(names_view(names@) =~= prev_names.push(method.name@));
                        assert(spec_method_names(class.methods@, j as int + 1)
                            == spec_method_names(class.methods@, j as int).push(method.name@));
                        assert(names_view(names@) =~= mid_names + spec_method_names(
                            class.methods@,
                            j as int + 1,
                        ));
                    }
                    let detail = if detailed_count < MAX_DETAILED_ITEMS {
                        detailed_count = detailed_count + 1;
                        format_function_signature(method)
                    } else {
                        let mut d = String::from_str("fn ");
                        d.append(method.name.as_str());
                        d
                    };
                    let label = {
                        let mut l = class.name.clone();
                        l.append(".");
                        l.append(method.name.as_str());
                        l
                    };
                    proof {
                        assert(detail@ == spec_fn_detail(*method, m0));
                        assert(label@ =~= class.name@ + "."@ + method.name@);
                    }
                    let item = CompletionItem {
                        label,
                        kind: CompletionItemKind::Method,
                        detail,
                        documentation: clone_doc(&method.doc),
                    };
                    let ghost prev_items2 = items_view(items@);
                    let ghost mv = item@;
                    items.push(item);
                    proof {
                        assert(mv == spec_method_item(class.name@, *method, m0));
                        assert(items_view(items@) =~= prev_items2.push(mv));
                        assert(spec_method_items(class.name@, class.methods@, c0, j as int + 1)
                            == spec_method_items(class.name@, class.methods@, c0, j as int).push(
                            spec_method_item(class.name@, class.methods@[j as int], m0),
                        ));
                        assert(items_view(items@) =~= mid_items + spec_method_items(
                            class.name@,
                            class.methods@,
                            c0,
                            j as int + 1,
                        ));
                    }
                    j = j + 1;
                }
                proof {
                    assert(spec_one_item(src[i as int], c0) =~= seq![spec_class_item(*class)]
                        + spec_method_items(
                        class.name@,
                        class.methods@,
                        c0,
                        class.methods@.len() as int,
                    ));
                    assert(mid_items =~= (base_items + spec_item_views(src, i as int)).push(
                        spec_class_item(*class),
                    ));
                    assert(spec_item_views(src, i as int + 1) == spec_item_views(src, i as int)
                        + spec_one_item(src[i as int], c0));
                    assert(items_view(items@) =~= base_items + spec_item_views(src, i as int + 1));
                    assert(spec_fn_names(src, i as int + 1) == spec_fn_names(src, i as int)
                        + spec_method_names(class.methods@, class.methods@.len() as int));
                    assert(names_view(names@) =~= base_names + spec_fn_names(src, i as int + 1));
                    assert(detailed_count == spec_icount(src, i as int + 1));
                }
            },
        }
        i = i + 1;
    }
}

/// Appends the in-scope variables not shadowed by a function or method.
#[verifier::loop_isolation(false)]
fn push_var_items(vars: &Vec<String>, names: &Vec<String>, items: &mut Vec<CompletionItem>)
    ensures
        items_view(final(items)@) == items_view(old(items)@) + spec_var_items(
            names_view(vars@),
            names_view(names@),
            vars@.len() as int,
        ),
{
    let ghost base = items_view(old(items)@);
    let mut i: usize = 0;
    proof {
        assert(items_view(items@) =~= base + spec_var_items(
            names_view(vars@),
            names_view(names@),
            0,
        ));
    }
    while i < vars.len()
        invariant
            0 <= i <= vars@.len(),
            items_view(items@) == base + spec_var_items(
                names_view(vars@),
                names_view(names@),
                i as int,
            ),
        decreases vars@.len() - i,
    {
        let var_name = &vars[i];
        proof {
            assert(names_view(vars@)[i as int] == vars@[i as int]@);
        }
        if !contains_name(names, var_name) {
            let item = CompletionItem {
                label: var_name.clone(),
                kind: CompletionItemKind::Variable,
                detail: String::from_str("Variable"),
                documentation: None,
            };
            let ghost prev = items_view(items@);
            let ghost iv = item@;
            items.push(item);
            proof {
                assert(items_view(items@) =~= prev.push(iv));
                assert(items_view(items@) =~= base + spec_var_items(
                    names_view(vars@),
                    names_view(names@),
                    i as int + 1,
                ));
            }
        } else {
            proof {
                assert(items_view(items@) =~= base + spec_var_items(
                    names_view(vars@),
                    names_view(names@),
                    i as int + 1,
                ));
            }
        }
        i = i + 1;
    }
}

/// Appends the catalog entries not shadowed by a function or method,
/// capped, with the detail cutoff on the accumulated item count.
#[verifier::loop_isolation(false)]
fn push_builtin_items(builtins: &Vec<BuiltinFn>, names: &Vec<String>, items: &mut Vec<CompletionItem>)
    ensures
        items_view(final(items)@) == items_view(old(items)@) + spec_builtin_items(
            builtins@,
            names_view(names@),
            old(items)@.len() as int,
            spec_builtin_limit(builtins@.len() as int),
        ),
{
    let ghost base = items_view(old(items)@);
    let ghost len0 = old(items)@.len() as int;
    let limit = if builtins.len() > MAX_BUILTIN_ITEMS {
        MAX_BUILTIN_ITEMS
    } else {
        builtins.len()
    };
    let mut i: usize = 0;
    proof {
        assert(items_view(items@) =~= base + spec_builtin_items(
            builtins@,
            names_view(names@),
            len0,
            0,
        ));
    }
    while i < limit
        invariant
            0 <= i <= limit,
            limit == spec_builtin_limit(builtins@.len() as int),
            items_view(items@) == base + spec_builtin_items(
                builtins@,
                names_view(names@),
                len0,
                i as int,
            ),
        decreases limit - i,
    {
        let b = &builtins[i];
        if !contains_name(names, &b.name) {
            let ghost cur = items@.len() as int;
            let detail = if items.len() < BUILTIN_DETAIL_CUTOFF {
                builtin_signature(b)
            } else {
                let mut d = b.name.clone();
                d.append("()");
                d
            };
            let item = CompletionItem {
                label: b.name.clone(),
                kind: CompletionItemKind::Function,
                detail,
                documentation: Some(b.description.clone()),
            };
            let ghost prev = items_view(items@);
            let ghost iv = item@;
            items.push(item);
            proof {
                assert(cur == len0 + spec_builtin_items(
                    builtins@,
                    names_view(names@),
                    len0,
                    i as int,
                ).len());
                assert(iv == spec_builtin_item(builtins@[i as int], cur));
                assert(items_view(items@) =~= prev.push(iv));
                assert(items_view(items@) =~= base + spec_builtin_items(
                    builtins@,
                    names_view(names@),
                    len0,
                    i as int + 1,
                ));
            }
        } else {
            proof {
                assert(items_view(items@) =~= base + spec_builtin_items(
                    builtins@,
                    names_view(names@),
                    len0,
                    i as int + 1,
                ));
            }
        }
        i = i + 1;
    }
}

impl Backend {
    /// The fixed keyword suggestions.
    pub fn get_keyword_completions(&self) -> (r: Vec<CompletionItem>)
        ensures
            items_view(r@) == spec_keyword_items(),
    {
        let mut items: Vec<CompletionItem> = Vec::new();
        items.push(CompletionItem {
            label: String::from_str("fn"),
            kind: CompletionItemKind::Keyword,
            detail: String::from_str("Function definition"),
            documentation: None,
        });
        items.push(CompletionItem {
            label: String::from_str("let"),
            kind: CompletionItemKind::Keyword,
            detail: String::from_str("Immutable variable"),
            documentation: None,
        });
        items.push(CompletionItem {
            label: String::from_str("var"),
            kind: CompletionItemKind::Keyword,
            detail: String::from_str("Mutable variable"),
            documentation: None,
        });
        items.push(CompletionItem {
            label: String::from_str("if"),
            kind: CompletionItemKind::Keyword,
            detail: String::from_str("Conditional statement"),
            documentation: None,
        });
        items.push(CompletionItem {
            label: String::from_str("else"),
            kind: CompletionItemKind::Keyword,
            detail: String::from_str("Else branch"),
            documentation: None,
        });
        items.push(CompletionItem {
            label: String::from_str("for"),
            kind: CompletionItemKind::Keyword,
            detail: String::from_str("For loop"),
            documentation: None,
        });
        items.push(CompletionItem {
            label: String::from_str("while"),
            kind: CompletionItemKind::Keyword,
            detail: String::from_str("While loop"),
            documentation: None,
        });
        items.push(CompletionItem {
            label: String::from_str("break"),
            kind: CompletionItemKind::Keyword,
            detail: String::from_str("Break out of loop"),
            documentation: None,
        });
        items.push(CompletionItem {
            label: String::from_str("continue"),
            kind: CompletionItemKind::Keyword,
            detail: String::from_str("Continue to next loop iteration"),
            documentation: None,
        });
        items.push(CompletionItem {
            label: String::from_str("return"),
            kind: CompletionItemKind::Keyword,
            detail: String::from_str("Return from function"),
            documentation: None,
        });
        proof {
            assert(items_view(items@) =~= spec_keyword_items());
        }
        items
    }

    /// The minimal fallback list — all keywords plus `print` — used when
    /// no program is available or the cursor line does not exist. Never
    /// empty.
    pub fn get_basic_completions(&self) -> (r: Vec<CompletionItem>)
        ensures
            items_view(r@) == spec_basic_completions(),
            r@.len() > 0,
    {
        let mut items = self.get_keyword_completions();
        items.push(CompletionItem {
            label: String::from_str("print"),
            kind: CompletionItemKind::Function,
            detail: String::from_str("print(value: dynamic) -> void"),
            documentation: None,
        });
        proof {
            assert(items_view(items@) =~= spec_basic_completions());
        }
        items
    }

    /// The context-aware completion list for a parsed program at a
    /// cursor position (0-based protocol coordinates).
    pub fn get_completions(&self, program: &Program, text: &str, position: Position) -> (r: Vec<
        CompletionItem,
    >)
        ensures
            items_view(r@) == spec_completions(
                *program,
                text.spec_bytes(),
                position.line as int,
                position.character as int,
                self.builtins@,
            ),
    {
        let line = position.line as usize;
        let col = position.character as usize;
        let is_member_access = match member_access_at(text, line, col) {
            None => {
                return self.get_basic_completions();
            },
            Some(b) => b,
        };
        let mut items: Vec<CompletionItem> = Vec::new();
        let mut function_names: Vec<String> = Vec::new();
        proof {
            assert(items_view(items@) =~= Seq::<ItemView>::empty());
            assert(names_view(function_names@) =~= Seq::<Seq<char>>::empty());
        }
        push_user_items(program, &mut items, &mut function_names);
        let col1 = if col < usize::MAX {
            col + 1
        } else {
            col
        };
        let vars_opt = if line < usize::MAX {
            extract_variables_in_scope(program, line + 1, col1)
        } else {
            proof {
                crate::scope::lemma_enclosing_fn_none_beyond(
                    program.items@,
                    line as int + 1,
                    0,
                );
            }
            None
        };
        if let Some(vars) = &vars_opt {
            push_var_items(vars, &function_names, &mut items);
        }
        push_builtin_items(&self.builtins, &function_names, &mut items);
        if !is_member_access {
            let mut keywords = self.get_keyword_completions();
            let ghost before = items_view(items@);
            let ghost kw = items_view(keywords@);
            items.append(&mut keywords);
            proof {
                assert(items_view(items@) =~= before + kw);
            }
        }
        proof {
            assert(items_view(items@) =~= spec_completions(
                *program,
                text.spec_bytes(),
                position.line as int,
                position.character as int,
                self.builtins@,
            ));
        }
        items
    }
}

} // verus!
