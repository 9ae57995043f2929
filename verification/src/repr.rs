//! The representation resolver: finds the first `repr` attribute and
//! validates that its argument names an integer type, or, when the
//! declaration carries none, selects the narrowest unsigned width that can
//! address every variant and appends the synthesized attribute.

use vstd::prelude::*;
use vstd::string::{StrSliceExecFns, StringExecFns};
use crate::ast::{EnumDecl, OuterAttr, TransformError};

verus! {

/// The characters that `trim_parens` strips from either end.
pub open spec fn is_paren(c: char) -> bool {
    c == '(' || c == ')'
}

/// The argument text with every leading and trailing parenthesis removed:
/// `(u8)` becomes `u8`.
pub open spec fn trim_parens(s: Seq<char>) -> Seq<char>
    decreases s.len(),
{
    if s.len() == 0 {
        s
    } else if is_paren(s[0]) {
        trim_parens(s.subrange(1, s.len() as int))
    } else if is_paren(s[s.len() - 1]) {
        trim_parens(s.subrange(0, s.len() - 1))
    } else {
        s
    }
}

/// An attribute whose path identifier is the representation keyword.
pub open spec fn is_repr_attr(a: OuterAttr) -> bool {
    a.name@ == "repr"@
}

/// The index of the first representation attribute, if any.
pub open spec fn find_repr(attrs: Seq<OuterAttr>) -> Option<int>
    decreases attrs.len(),
{
    if attrs.len() == 0 {
        None
    } else if is_repr_attr(attrs[0]) {
        Some(0int)
    } else {
        match find_repr(attrs.subrange(1, attrs.len() as int)) {
            None => None,
            Some(i) => Some(i + 1),
        }
    }
}

/// The argument text of a representation attribute names an integer type:
/// it opens with `(i` or `(u`.
pub open spec fn int_repr_args(args: Seq<char>) -> bool {
    args.len() >= 2 && args[0] == '(' && (args[1] == 'i' || args[1] == 'u')
}

/// The narrowest unsigned integer type whose maximum is at least `n`,
/// climbing `u8, u16, u32, u64, u128, usize`.
pub open spec fn repr_ladder(n: nat) -> Seq<char> {
    if n <= 0xff {
        "u8"@
    } else if n <= 0xffff {
        "u16"@
    } else if n <= 0xffff_ffff {
        "u32"@
    } else if n <= 0xffff_ffff_ffff_ffff {
        "u64"@
    } else if n <= 0xffff_ffff_ffff_ffff_ffff_ffff_ffff_ffff {
        "u128"@
    } else {
        "usize"@
    }
}

/// The token text of a synthesized representation attribute argument:
/// the chosen type wrapped in parentheses.
pub open spec fn synth_args(n: nat) -> Seq<char> {
    seq!['('] + repr_ladder(n) + seq![')']
}

proof fn lemma_find_repr_none(attrs: Seq<OuterAttr>)
    requires
        forall|k: int| 0 <= k < attrs.len() ==> !is_repr_attr(attrs[k]),
    ensures
        find_repr(attrs) is None,
    decreases attrs.len(),
{
    if attrs.len() > 0 {
        lemma_find_repr_none(attrs.subrange(1, attrs.len() as int));
    }
}

proof fn lemma_find_repr_at(attrs: Seq<OuterAttr>, i: int)
    requires
        0 <= i < attrs.len(),
        is_repr_attr(attrs[i]),
        forall|k: int| 0 <= k < i ==> !is_repr_attr(attrs[k]),
    ensures
        find_repr(attrs) == Some(i),
    decreases attrs.len(),
{
    if i > 0 {
        lemma_find_repr_at(attrs.subrange(1, attrs.len() as int), i - 1);
    }
}

fn is_paren_char(c: char) -> (b: bool)
    ensures
        b == is_paren(c),
{
    c == '(' || c == ')'
}

/// Strips every leading and trailing parenthesis from the argument text.
pub fn trim_parens_str(s: &str) -> (r: String)
    ensures
        r@ == trim_parens(s@),
{
    let len: usize = s.unicode_len();
    proof {
        assert(s@.subrange(0, len as int) =~= s@);
    }
    let mut lo: usize = 0;
    while lo < len && is_paren_char(s.get_char(lo))
        invariant
            lo <= len,
            len == s@.len(),
            trim_parens(s@) == trim_parens(s@.subrange(lo as int, len as int)),
        decreases len - lo,
    {
        proof {
            let t = s@.subrange(lo as int, len as int);
            assert(t[0] == s@[lo as int]);
            assert(t.subrange(1, t.len() as int) =~= s@.subrange(lo as int + 1, len as int));
        }
        lo = lo + 1;
    }
    let mut hi: usize = len;
    while hi > lo && is_paren_char(s.get_char(hi - 1))
        invariant
            lo <= hi <= len,
            len == s@.len(),
            lo == len || !is_paren(s@[lo as int]),
            trim_parens(s@) == trim_parens(s@.subrange(lo as int, hi as int)),
        decreases hi,
    {
        proof {
            let t = s@.subrange(lo as int, hi as int);
            assert(t[0] == s@[lo as int]);
            assert(t[t.len() - 1] == s@[hi as int - 1]);
            assert(t.subrange(0, t.len() - 1) =~= s@.subrange(lo as int, hi as int - 1));
        }
        hi = hi - 1;
    }
    if hi == lo {
        proof {
            assert(s@.subrange(lo as int, hi as int) =~= Seq::<char>::empty());
        }
        String::new()
    } else {
        proof {
            let t = s@.subrange(lo as int, hi as int);
            assert(t[0] == s@[lo as int]);
            assert(t[t.len() - 1] == s@[hi as int - 1]);
        }
        let sub = s.substring_char(lo, hi);
        sub.to_owned()
    }
}

/// The narrowest unsigned type of the ladder whose maximum is at least `n`.
pub fn choose_repr(n: usize) -> (r: String)
    ensures
        r@ == repr_ladder(n as nat),
{
    if n <= 0xff {
        String::from_str("u8")
    } else if n <= 0xffff {
        String::from_str("u16")
    } else if n <= 0xffff_ffff {
        String::from_str("u32")
    } else {
        String::from_str("u64")
    }
}

/// Resolves the representation of the declaration: returns the integer
/// type identifier of the first `repr` attribute when it names one, rejects
/// the declaration when it does not, and otherwise appends a synthesized
/// unsigned `repr` attribute chosen by `repr_ladder` and returns its type.
pub fn enforce_repr_inttype(decl: &mut EnumDecl) -> (res: Result<String, TransformError>)
    ensures
        match find_repr(old(decl).attrs@) {
            Some(i) => {
                if int_repr_args(old(decl).attrs@[i].args@) {
                    &&& res is Ok
                    &&& res->Ok_0@ == trim_parens(old(decl).attrs@[i].args@)
                    &&& *final(decl) == *old(decl)
                } else {
                    &&& res is Err
                    &&& (res->Err_0 matches TransformError::NonIntegerRepresentation { args }
                        && args@ == old(decl).attrs@[i].args@)
                    &&& *final(decl) == *old(decl)
                }
            },
            None => {
                &&& res is Ok
                &&& res->Ok_0@ == repr_ladder(old(decl).variants@.len() as nat)
                &&& final(decl).name == old(decl).name
                &&& final(decl).generics == old(decl).generics
                &&& final(decl).where_clause == old(decl).where_clause
                &&& final(decl).variants == old(decl).variants
                &&& final(decl).attrs@.len() == old(decl).attrs@.len() + 1
                &&& final(decl).attrs@.subrange(0, old(decl).attrs@.len() as int)
                    == old(decl).attrs@
                &&& final(decl).attrs@.last().name@ == "repr"@
                &&& final(decl).attrs@.last().args@
                    == synth_args(old(decl).variants@.len() as nat)
            },
        },
{
    let repr_kw = String::from_str("repr");
    let n_attrs = decl.attrs.len();
    let mut i: usize = 0;
    while i < n_attrs
        invariant
            i <= n_attrs,
            n_attrs == decl.attrs@.len(),
            repr_kw@ == "repr"@,
            *decl == *old(decl),
            forall|k: int| 0 <= k < i ==> !is_repr_attr(decl.attrs@[k]),
        decreases n_attrs - i,
    {
        if decl.attrs[i].name == repr_kw {
            proof {
                lemma_find_repr_at(decl.attrs@, i as int);
            }
            let args_len = decl.attrs[i].args.as_str().unicode_len();
            let valid = if args_len >= 2 {
                let c0 = decl.attrs[i].args.as_str().get_char(0);
                let c1 = decl.attrs[i].args.as_str().get_char(1);
                c0 == '(' && (c1 == 'i' || c1 == 'u')
            } else {
                false
            };
            if valid {
                return Ok(trim_parens_str(decl.attrs[i].args.as_str()));
            } else {
                return Err(TransformError::NonIntegerRepresentation {
                    args: decl.attrs[i].args.clone(),
                });
            }
        }
        i = i + 1;
    }
    proof {
        lemma_find_repr_none(decl.attrs@);
    }
    let chosen = choose_repr(decl.variants.len());
    let mut args = String::from_str("(");
    args.append(chosen.as_str());
    args.append(")");
    let attr = OuterAttr { name: String::from_str("repr"), args };
    decl.attrs.push(attr);
    proof {
        reveal_strlit("(");
        reveal_strlit(")");
        assert("("@ =~= seq!['(']);
        assert(")"@ =~= seq![')']);
        assert(decl.attrs@.subrange(0, old(decl).attrs@.len() as int)
            =~= old(decl).attrs@);
    }
    Ok(chosen)
}

} // verus!
