//! The hover engine: finds the function defined at (or directly above)
//! the requested line and renders its signature and doc string.

use vstd::prelude::*;
use crate::ast::{Function, Item, Program};
use crate::render::{format_function_signature, spec_signature};

verus! {

/// The content a hover tooltip shows: a rendered signature and the
/// function's doc string, when it has one.
#[derive(Debug, Clone, PartialEq)]
pub struct HoverInfo {
    pub signature: String,
    pub doc: Option<String>,
}

/// The first top-level function whose definition line is `line` or the
/// line directly above it (1-based), scanning items from index `i`. A
/// hover heuristic: definitions are matched, call sites are not.
pub open spec fn spec_fn_at_line(items: Seq<Item>, line: int, i: int) -> Option<Function>
    decreases items.len() - i,
{
    if i < 0 || i >= items.len() {
        None
    } else {
        match items[i] {
            Item::Function(f) => {
                if line == f.span.start.line || line == f.span.start.line + 1 {
                    Some(f)
                } else {
                    spec_fn_at_line(items, line, i + 1)
                }
            },
            Item::Class(_) => spec_fn_at_line(items, line, i + 1),
        }
    }
}

/// Finds the function defined at 1-based `line` (its definition line, or
/// the line directly after it) and returns its rendered signature and
/// doc string; `None` when no top-level function matches. The column is
/// not consulted.
pub fn find_function_at_position(program: &Program, line: usize, _column: usize) -> (r: Option<
    HoverInfo,
>)
    ensures
        match r {
            None => spec_fn_at_line(program.items@, line as int, 0) is None,
            Some(h) => spec_fn_at_line(program.items@, line as int, 0) matches Some(f)
                && h.signature@ == spec_signature(f) && h.doc == f.doc,
        },
{
    let mut i: usize = 0;
    while i < program.items.len()
        invariant
            0 <= i <= program.items@.len(),
            spec_fn_at_line(program.items@, line as int, 0) == spec_fn_at_line(
                program.items@,
                line as int,
                i as int,
            ),
        decreases program.items@.len() - i,
    {
        if let Item::Function(f) = &program.items[i] {
            let func_line = f.span.start.line;
            if line == func_line || (line > 0 && line - 1 == func_line) {
                let signature = format_function_signature(f);
                let doc = match &f.doc {
                    Some(d) => Some(d.clone()),
                    None => None,
                };
                proof {
                    assert(spec_fn_at_line(program.items@, line as int, i as int) == Some(*f));
                }
                return Some(HoverInfo { signature, doc });
            }
        }
        i = i + 1;
    }
    None
}

} // verus!
