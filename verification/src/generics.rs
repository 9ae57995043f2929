//! The generic projector: derives the use form of the declaration's generic
//! parameter list. At a use site only parameter identifiers appear — a type
//! parameter loses its bounds and default, a constant parameter collapses
//! to a bare identifier, a lifetime passes through unchanged.

use vstd::prelude::*;
use crate::ast::{EnumDecl, GenParam, UseParam};

verus! {

/// The use-form projection of one declaration-form parameter.
pub open spec fn project_param(p: GenParam) -> UseParam {
    match p {
        GenParam::Lifetime { name } => UseParam::Lifetime { name },
        GenParam::TypeParam { name, bounds: _, default: _ } => UseParam::Bare { name },
        GenParam::ConstParam { name, ty: _, default: _ } => UseParam::Bare { name },
    }
}

/// The use-form projection of a whole parameter list: same order, same
/// arity, same identifiers.
pub open spec fn projected(params: Seq<GenParam>, used: Seq<UseParam>) -> bool {
    &&& used.len() == params.len()
    &&& forall|i: int| 0 <= i < params.len() ==> used[i] == project_param(params[i])
}

/// Projects the declaration's generics into use form.
pub fn get_cleaned_generics(decl: &EnumDecl) -> (r: Vec<UseParam>)
    ensures
        projected(decl.generics@, r@),
{
    let n = decl.generics.len();
    let mut out: Vec<UseParam> = Vec::new();
    let mut i: usize = 0;
    while i < n
        invariant
            i <= n,
            n == decl.generics@.len(),
            out@.len() == i,
            forall|k: int| 0 <= k < i ==> out@[k] == project_param(decl.generics@[k]),
        decreases n - i,
    {
        let q = match &decl.generics[i] {
            GenParam::Lifetime { name } => UseParam::Lifetime { name: name.clone() },
            GenParam::TypeParam { name, bounds: _, default: _ } => UseParam::Bare {
                name: name.clone(),
            },
            GenParam::ConstParam { name, ty: _, default: _ } => UseParam::Bare {
                name: name.clone(),
            },
        };
        out.push(q);
        i = i + 1;
    }
    out
}

} // verus!
