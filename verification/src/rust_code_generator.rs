//! Rendering of Rust type expressions as source text.

use vstd::prelude::*;
use vstd::string::StringExecFns;
use crate::rust_type::RustPointerLikeTypeKind;
use crate::rust_type::RustType;
use crate::string_utils::joined;

verus! {

/// The source text of a pointer-like prefix.
pub open spec fn pointer_prefix(kind: RustPointerLikeTypeKind, is_const: bool) -> Seq<char> {
    match kind {
        RustPointerLikeTypeKind::Pointer => if is_const {
            "*const "@
        } else {
            "*mut "@
        },
        RustPointerLikeTypeKind::Reference => if is_const {
            "&"@
        } else {
            "&mut "@
        },
    }
}

/// The source text of a Rust type expression.
pub open spec fn rust_type_code(t: RustType) -> Seq<char>
    decreases t,
{
    match t {
        RustType::Unit => "()"@,
        RustType::Common { path } => joined(path@, "::"@),
        RustType::PointerLike { kind, is_const, target } => pointer_prefix(kind, is_const)
            + rust_type_code(*target),
        RustType::FunctionPointer { return_type, arguments } => "fn("@ + argument_list_code(
            arguments@,
        ) + ") -> "@ + rust_type_code(*return_type),
    }
}

/// The source text of a comma-separated argument type list.
pub open spec fn argument_list_code(ts: Seq<RustType>) -> Seq<char>
    decreases ts,
{
    if ts.len() == 0 {
        Seq::empty()
    } else if ts.len() == 1 {
        rust_type_code(ts[0])
    } else {
        argument_list_code(ts.drop_last()) + ", "@ + rust_type_code(ts.last())
    }
}

/// Renders a Rust type expression as source text.
#[verifier::loop_isolation(false)]
pub fn rust_type_to_code(t: &RustType) -> (r: String)
    ensures
        r@ == rust_type_code(*t),
    decreases *t,
{
    match t {
        RustType::Unit => String::from_str("()"),
        RustType::Common { path } => path.full_name(),
        RustType::PointerLike { kind, is_const, target } => {
            let mut s = match kind {
                RustPointerLikeTypeKind::Pointer => if *is_const {
                    String::from_str("*const ")
                } else {
                    String::from_str("*mut ")
                },
                RustPointerLikeTypeKind::Reference => if *is_const {
                    String::from_str("&")
                } else {
                    String::from_str("&mut ")
                },
            };
            let inner = rust_type_to_code(target);
            s.append(inner.as_str());
            s
        },
        RustType::FunctionPointer { return_type, arguments } => {
            let mut s = String::from_str("fn(");
            let mut i: usize = 0;
            while i < arguments.len()
                invariant
                    0 <= i <= arguments.len(),
                    s@ == "fn("@ + argument_list_code(arguments@.take(i as int)),
                decreases arguments.len() - i,
            {
                proof {
                    assert(decreases_to!(*t => arguments@[i as int]));
                }
                if i > 0 {
                    s.append(", ");
                }
                let piece = rust_type_to_code(&arguments[i]);
                s.append(piece.as_str());
                proof {
                    let ts = arguments@;
                    if i == 0 {
                        assert(ts.take(1) =~= seq![ts[0]]);
                    } else {
                        assert(ts.take(i + 1).drop_last() =~= ts.take(i as int));
                        assert(ts.take(i + 1).last() == ts[i as int]);
                    }
                }
                i = i + 1;
            }
            proof {
                assert(arguments@.take(arguments@.len() as int) =~= arguments@);
            }
            s.append(") -> ");
            let ret = rust_type_to_code(return_type);
            s.append(ret.as_str());
            s
        },
    }
}

} // verus!
