//! Extraction of the variable names visible at a cursor position: the
//! enclosing function's parameters plus every name bound by a `let`/`var`
//! statement or a for-loop variable anywhere in its body. Names are kept
//! in first-occurrence order, each name once.

use vstd::prelude::*;
use crate::ast::{Function, Item, Program, Statement};

verus! {

/// The name sequence a `Vec<String>` stands for.
pub open spec fn names_view(v: Seq<String>) -> Seq<Seq<char>> {
    v.map_values(|s: String| s@)
}

/// `acc` with `x` appended unless already present.
pub open spec fn spec_push_new(acc: Seq<Seq<char>>, x: Seq<char>) -> Seq<Seq<char>> {
    if acc.contains(x) {
        acc
    } else {
        acc.push(x)
    }
}

/// The names `acc` grows into once the names bound by `stmt` are added,
/// in traversal order, each new name once.
pub open spec fn spec_add_stmt(acc: Seq<Seq<char>>, stmt: Statement) -> Seq<Seq<char>>
    decreases stmt, 0int,
{
    match stmt {
        Statement::Let { name } => spec_push_new(acc, name@),
        Statement::For { var, body } => spec_add_stmts(spec_push_new(acc, var@), body@, 0),
        Statement::If { then, else_ } => {
            let after_then = spec_add_stmts(acc, then@, 0);
            match else_ {
                Some(e) => spec_add_stmts(after_then, e@, 0),
                None => after_then,
            }
        },
        Statement::While { body } => spec_add_stmts(acc, body@, 0),
        Statement::Other => acc,
    }
}

/// The names `acc` grows into once the statements of `stmts` from index
/// `i` on are traversed.
pub open spec fn spec_add_stmts(acc: Seq<Seq<char>>, stmts: Seq<Statement>, i: int) -> Seq<Seq<char>>
    decreases stmts, stmts.len() - i,
{
    if i < 0 || i >= stmts.len() {
        acc
    } else {
        spec_add_stmts(spec_add_stmt(acc, stmts[i]), stmts, i + 1)
    }
}

/// Appends `name` unless an equal name is already held.
fn push_unique(vars: &mut Vec<String>, name: &String)
    ensures
        names_view(final(vars)@) == spec_push_new(names_view(old(vars)@), name@),
{
    let mut i: usize = 0;
    while i < vars.len()
        invariant
            0 <= i <= vars@.len(),
            vars@ == old(vars)@,
            forall|k: int| 0 <= k < i ==> vars@[k]@ != name@,
        decreases vars@.len() - i,
    {
        if vars[i].eq(name) {
            proof {
                assert(names_view(vars@)[i as int] == name@);
                assert(names_view(vars@).contains(name@));
            }
            return;
        }
        i = i + 1;
    }
    proof {
        assert(forall|k: int| 0 <= k < names_view(vars@).len() ==> names_view(vars@)[k] != name@);
        assert(!names_view(vars@).contains(name@));
    }
    vars.push(name.clone());
    proof {
        assert(names_view(vars@) =~= spec_push_new(names_view(old(vars)@), name@));
    }
}

fn add_stmt_vars(stmt: &Statement, variables: &mut Vec<String>)
    ensures
        names_view(final(variables)@) == spec_add_stmt(names_view(old(variables)@), *stmt),
    decreases *stmt,
{
    match stmt {
        Statement::Let { name } => {
            push_unique(variables, name);
        },
        Statement::For { var, body } => {
            push_unique(variables, var);
            add_stmts_vars(body, variables);
        },
        Statement::If { then, else_ } => {
            add_stmts_vars(then, variables);
            if let Some(e) = else_ {
                add_stmts_vars(e, variables);
            }
        },
        Statement::While { body } => {
            add_stmts_vars(body, variables);
        },
        Statement::Other => {},
    }
}

fn add_stmts_vars(stmts: &Vec<Statement>, variables: &mut Vec<String>)
    ensures
        names_view(final(variables)@) == spec_add_stmts(names_view(old(variables)@), stmts@, 0),
    decreases stmts@,
{
    let ghost acc0 = names_view(variables@);
    let mut i: usize = 0;
    while i < stmts.len()
        invariant
            0 <= i <= stmts@.len(),
            spec_add_stmts(acc0, stmts@, 0) == spec_add_stmts(names_view(variables@), stmts@, i as int),
        decreases stmts@.len() - i,
    {
        add_stmt_vars(&stmts[i], variables);
        i = i + 1;
    }
}

/// Collects the names bound by `statements`, in traversal order, into
/// `variables`, skipping names already held.
pub fn extract_variables_from_statements(statements: &Vec<Statement>, variables: &mut Vec<String>)
    ensures
        names_view(final(variables)@) == spec_add_stmts(names_view(old(variables)@), statements@, 0),
{
    add_stmts_vars(statements, variables);
}

/// The names `acc` grows into once the parameter names from index `i` on
/// are added.
pub open spec fn spec_add_params(acc: Seq<Seq<char>>, f: Function, i: int) -> Seq<Seq<char>>
    decreases f.params@.len() - i,
{
    if i < 0 || i >= f.params@.len() {
        acc
    } else {
        spec_add_params(spec_push_new(acc, f.params@[i].name@), f, i + 1)
    }
}

/// The names visible inside `f`: its parameters, then every name bound
/// in its body, first occurrence of each.
pub open spec fn spec_scope_vars(f: Function) -> Seq<Seq<char>> {
    spec_add_stmts(spec_add_params(Seq::<Seq<char>>::empty(), f, 0), f.body@, 0)
}

/// The first top-level function whose span contains `line` (1-based),
/// scanning items from index `i`.
pub open spec fn spec_enclosing_fn(items: Seq<Item>, line: int, i: int) -> Option<Function>
    decreases items.len() - i,
{
    if i < 0 || i >= items.len() {
        None
    } else {
        match items[i] {
            Item::Function(f) => {
                if f.span.start.line <= line <= f.span.end.line {
                    Some(f)
                } else {
                    spec_enclosing_fn(items, line, i + 1)
                }
            },
            Item::Class(_) => spec_enclosing_fn(items, line, i + 1),
        }
    }
}

/// Finds the function whose span contains `line` (1-based) and returns
/// the names visible inside it, in first-occurrence order; `None` when
/// no top-level function contains the line. The column is not consulted:
/// scoping is per enclosing function, without block scoping.
pub fn extract_variables_in_scope(program: &Program, line: usize, _column: usize) -> (r: Option<
    Vec<String>,
>)
    ensures
        match r {
            None => spec_enclosing_fn(program.items@, line as int, 0) is None,
            Some(v) => spec_enclosing_fn(program.items@, line as int, 0) matches Some(f)
                && names_view(v@) == spec_scope_vars(f),
        },
{
    let mut i: usize = 0;
    while i < program.items.len()
        invariant
            0 <= i <= program.items@.len(),
            spec_enclosing_fn(program.items@, line as int, 0) == spec_enclosing_fn(
                program.items@,
                line as int,
                i as int,
            ),
        decreases program.items@.len() - i,
    {
        if let Item::Function(f) = &program.items[i] {
            if f.span.start.line <= line && line <= f.span.end.line {
                let mut variables: Vec<String> = Vec::new();
                proof {
                    assert(names_view(variables@) =~= Seq::<Seq<char>>::empty());
                }
                let mut j: usize = 0;
                while j < f.params.len()
                    invariant
                        0 <= j <= f.params@.len(),
                        spec_add_params(Seq::<Seq<char>>::empty(), *f, 0) == spec_add_params(
                            names_view(variables@),
                            *f,
                            j as int,
                        ),
                    decreases f.params@.len() - j,
                {
                    push_unique(&mut variables, &f.params[j].name);
                    j = j + 1;
                }
                extract_variables_from_statements(&f.body, &mut variables);
                proof {
                    assert(spec_enclosing_fn(program.items@, line as int, i as int) == Some(*f));
                }
                return Some(variables);
            }
        }
        i = i + 1;
    }
    None
}

} // verus!

use vstd::prelude::*;

verus! {

/// No function's span can contain a line beyond what `usize` holds.
pub proof fn lemma_enclosing_fn_none_beyond(items: Seq<Item>, line: int, i: int)
    requires
        line > usize::MAX,
        i >= 0,
    ensures
        spec_enclosing_fn(items, line, i) is None,
    decreases items.len() - i,
{
    if i < items.len() {
        lemma_enclosing_fn_none_beyond(items, line, i + 1);
    }
}

} // verus!
