//! Rendering of types and function signatures for hover tooltips and
//! completion details.

use vstd::prelude::*;
use vstd::string::*;
use crate::ast::{Attribute, Function, Parameter, Type};
use crate::text::spec_dec_digits;
use crate::text::append_dec_u64;

verus! {

/// Nesting depth past which a type is rendered as `...`. Keeps the
/// rendering of adversarially nested types bounded.
pub const MAX_TYPE_DEPTH: usize = 10;

/// The rendering of the first `i` dimensions of a tensor, separated by
/// `", "`.
pub open spec fn spec_dims_prefix(dims: Seq<u64>, i: int) -> Seq<char>
    decreases i,
{
    if i <= 0 {
        Seq::<char>::empty()
    } else if i == 1 {
        spec_dec_digits(dims[0] as int)
    } else {
        spec_dims_prefix(dims, i - 1) + ", "@ + spec_dec_digits(dims[i - 1] as int)
    }
}

/// The rendering of a type at nesting depth `depth`: `...` past the
/// depth bound, else the object-language spelling with nested types
/// rendered one level deeper.
pub open spec fn spec_format_type(ty: Type, depth: int) -> Seq<char>
    decreases ty,
{
    if depth > MAX_TYPE_DEPTH {
        "..."@
    } else {
        match ty {
            Type::Int => "int"@,
            Type::Str => "str"@,
            Type::Float32 => "float32"@,
            Type::Float64 => "float64"@,
            Type::Bool => "bool"@,
            Type::Dynamic => "dynamic"@,
            Type::List(inner) => "list["@ + spec_format_type(*inner, depth + 1) + "]"@,
            Type::Array(inner) => "array["@ + spec_format_type(*inner, depth + 1) + "]"@,
            Type::Mapping(k, v) => "map["@ + spec_format_type(*k, depth + 1) + ", "@
                + spec_format_type(*v, depth + 1) + "]"@,
            Type::Tensor(inner, dims) => "Tensor["@ + spec_format_type(*inner, depth + 1) + ", ["@
                + spec_dims_prefix(dims@, dims@.len() as int) + "]]"@,
            Type::Named(name) => name@,
        }
    }
}

fn format_type_with_depth(ty: &Type, depth: usize) -> (r: String)
    ensures
        r@ == spec_format_type(*ty, depth as int),
    decreases *ty,
{
    if depth > MAX_TYPE_DEPTH {
        let r = String::from_str("...");
        return r;
    }
    match ty {
        Type::Int => String::from_str("int"),
        Type::Str => String::from_str("str"),
        Type::Float32 => String::from_str("float32"),
        Type::Float64 => String::from_str("float64"),
        Type::Bool => String::from_str("bool"),
        Type::Dynamic => String::from_str("dynamic"),
        Type::List(inner) => {
            let mut s = String::from_str("list[");
            let t = format_type_with_depth(&**inner, depth + 1);
            s.append(t.as_str());
            s.append("]");
            proof {
                assert(s@ =~= spec_format_type(*ty, depth as int));
            }
            s
        },
        Type::Array(inner) => {
            let mut s = String::from_str("array[");
            let t = format_type_with_depth(&**inner, depth + 1);
            s.append(t.as_str());
            s.append("]");
            proof {
                assert(s@ =~= spec_format_type(*ty, depth as int));
            }
            s
        },
        Type::Mapping(k, v) => {
            let mut s = String::from_str("map[");
            let tk = format_type_with_depth(&**k, depth + 1);
            s.append(tk.as_str());
            s.append(", ");
            let tv = format_type_with_depth(&**v, depth + 1);
            s.append(tv.as_str());
            s.append("]");
            proof {
                assert(s@ =~= spec_format_type(*ty, depth as int));
            }
            s
        },
        Type::Tensor(inner, dims) => {
            let mut s = String::from_str("Tensor[");
            let t = format_type_with_depth(&**inner, depth + 1);
            s.append(t.as_str());
            s.append(", [");
            let ghost base = s@;
            let mut i: usize = 0;
            while i < dims.len()
                invariant
                    0 <= i <= dims@.len(),
                    s@ == base + spec_dims_prefix(dims@, i as int),
                decreases dims@.len() - i,
            {
                if i > 0 {
                    s.append(", ");
                }
                append_dec_u64(&mut s, dims[i]);
                proof {
                    assert(s@ =~= base + spec_dims_prefix(dims@, i as int + 1));
                }
                i = i + 1;
            }
            s.append("]]");
            proof {
                assert(s@ =~= spec_format_type(*ty, depth as int));
            }
            s
        },
        Type::Named(name) => name.clone(),
    }
}

/// Renders a type for display, starting at depth zero.
pub fn format_type(ty: &Type) -> (r: String)
    ensures
        r@ == spec_format_type(*ty, 0),
{
    format_type_with_depth(ty, 0)
}

/// The rendering of one attribute: `@name ` or `@name(argCount) `.
pub open spec fn spec_attr_txt(a: Attribute) -> Seq<char> {
    if a.args@.len() == 0 {
        "@"@ + a.name@ + " "@
    } else {
        "@"@ + a.name@ + "("@ + spec_dec_digits(a.args@.len() as int) + ") "@
    }
}

/// The rendering of the first `i` attributes, each followed by a space.
pub open spec fn spec_attrs_prefix(attrs: Seq<Attribute>, i: int) -> Seq<char>
    decreases i,
{
    if i <= 0 {
        Seq::<char>::empty()
    } else {
        spec_attrs_prefix(attrs, i - 1) + spec_attr_txt(attrs[i - 1])
    }
}

/// The rendering of one parameter: `name: type`.
pub open spec fn spec_param_txt(p: Parameter) -> Seq<char> {
    p.name@ + ": "@ + spec_format_type(p.ty, 0)
}

/// The rendering of the first `i` parameters, separated by `", "`.
pub open spec fn spec_params_prefix(params: Seq<Parameter>, i: int) -> Seq<char>
    decreases i,
{
    if i <= 0 {
        Seq::<char>::empty()
    } else if i == 1 {
        spec_param_txt(params[0])
    } else {
        spec_params_prefix(params, i - 1) + ", "@ + spec_param_txt(params[i - 1])
    }
}

/// The full signature of a function: its attributes, then
/// `fn name(params)`, then the optional ` -> returnType`.
pub open spec fn spec_signature(f: Function) -> Seq<char> {
    spec_attrs_prefix(f.attrs@, f.attrs@.len() as int) + "fn "@ + f.name@ + "("@
        + spec_params_prefix(f.params@, f.params@.len() as int) + ")"@
        + match f.return_type {
            Some(t) => " -> "@ + spec_format_type(t, 0),
            None => Seq::<char>::empty(),
        }
}

/// Renders a function's full signature, as hover shows it and as
/// completion details show it for the first functions encountered.
pub fn format_function_signature(func: &Function) -> (r: String)
    ensures
        r@ == spec_signature(*func),
{
    let mut s = String::new();
    let mut i: usize = 0;
    while i < func.attrs.len()
        invariant
            0 <= i <= func.attrs@.len(),
            s@ == spec_attrs_prefix(func.attrs@, i as int),
        decreases func.attrs@.len() - i,
    {
        let a = &func.attrs[i];
        s.append("@");
        s.append(a.name.as_str());
        if a.args.len() > 0 {
            s.append("(");
            append_dec_u64(&mut s, a.args.len() as u64);
            s.append(") ");
        } else {
            s.append(" ");
        }
        proof {
            assert(s@ =~= spec_attrs_prefix(func.attrs@, i as int + 1));
        }
        i = i + 1;
    }
    s.append("fn ");
    s.append(func.name.as_str());
    s.append("(");
    let ghost mid = s@;
    let mut j: usize = 0;
    while j < func.params.len()
        invariant
            0 <= j <= func.params@.len(),
            s@ == mid + spec_params_prefix(func.params@, j as int),
        decreases func.params@.len() - j,
    {
        if j > 0 {
            s.append(", ");
        }
        let p = &func.params[j];
        s.append(p.name.as_str());
        s.append(": ");
        let t = format_type(&p.ty);
        s.append(t.as_str());
        proof {
            assert(s@ =~= mid + spec_params_prefix(func.params@, j as int + 1));
        }
        j = j + 1;
    }
    s.append(")");
    if let Some(ret) = &func.return_type {
        s.append(" -> ");
        let t = format_type(ret);
        s.append(t.as_str());
    }
    proof {
        assert(s@ =~= spec_signature(*func));
    }
    s
}

} // verus!
