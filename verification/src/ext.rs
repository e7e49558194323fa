//! Constructing declarations of extern functions in the runtime's own
//! source language.
//!
//! A host library exposed to the runtime is reached through `ccall`; the
//! declaration that makes one host function callable is a small piece of
//! runtime source text generated from the function's signature.

use vstd::prelude::*;

verus! {

/// The parameter list of the declaration head: each argument as
/// `name::Type, `.
pub open spec fn params_text(args: Seq<(Seq<char>, Seq<char>)>) -> Seq<char>
    decreases args.len(),
{
    if args.len() == 0 {
        Seq::<char>::empty()
    } else {
        params_text(args.drop_last()) + args.last().0 + "::"@ + args.last().1 + ", "@
    }
}

/// The type tuple of the `ccall`: each argument type as `Type,`.
pub open spec fn types_text(args: Seq<(Seq<char>, Seq<char>)>) -> Seq<char>
    decreases args.len(),
{
    if args.len() == 0 {
        Seq::<char>::empty()
    } else {
        types_text(args.drop_last()) + args.last().1 + ","@
    }
}

/// The argument list of the `ccall`: each argument name as `name,`.
pub open spec fn names_text(args: Seq<(Seq<char>, Seq<char>)>) -> Seq<char>
    decreases args.len(),
{
    if args.len() == 0 {
        Seq::<char>::empty()
    } else {
        names_text(args.drop_last()) + args.last().0 + ","@
    }
}

/// The whole declaration: a function of the given name and arguments
/// whose body forwards to `ccall` into the given library.
pub open spec fn decl_text(
    lib: Seq<char>,
    name: Seq<char>,
    args: Seq<(Seq<char>, Seq<char>)>,
    out: Seq<char>,
) -> Seq<char> {
    "function "@ + name + "("@ + params_text(args) + ")\n    ccall((:"@ + name + ", \""@ + lib
        + "\"), "@ + out + ", ("@ + types_text(args) + "), "@ + names_text(args) + ")\nend"@
}

/// The argument pairs of an argument vector, as character sequences.
pub open spec fn arg_views(args: Seq<(String, String)>) -> Seq<(Seq<char>, Seq<char>)> {
    args.map_values(|a: (String, String)| (a.0@, a.1@))
}

/// Construct the declaration, in the runtime's source language, of one
/// extern function of the named library: its name, its arguments as
/// name and type text, and its result type.
pub fn decl_jl(lib: &str, name: &str, args: &Vec<(String, String)>, out: &str) -> (r: String)
    ensures
        r@ == decl_text(lib@, name@, arg_views(args@), out@),
{
    let mut head = String::from_str("function ");
    head.append(name);
    head.append("(");
    let n = args.len();
    let mut i: usize = 0;
    while i < n
        invariant
            n == args@.len(),
            i <= n,
            head@ == "function "@ + name@ + "("@ + params_text(arg_views(args@).take(i as int)),
        decreases n - i,
    {
        head.append(args[i].0.as_str());
        head.append("::");
        head.append(args[i].1.as_str());
        head.append(", ");
        proof {
            assert(arg_views(args@).take(i + 1).drop_last() =~= arg_views(args@).take(i as int));
            assert(arg_views(args@).take(i + 1).last() == (args@[i as int].0@, args@[i as int].1@));
        }
        i += 1;
    }
    proof {
        assert(arg_views(args@).take(n as int) =~= arg_views(args@));
    }
    head.append(")\n    ccall((:");
    head.append(name);
    head.append(", \"");
    head.append(lib);
    head.append("\"), ");
    head.append(out);
    head.append(", (");
    let ghost mid = head@;
    let mut i: usize = 0;
    while i < n
        invariant
            n == args@.len(),
            i <= n,
            head@ == mid + types_text(arg_views(args@).take(i as int)),
        decreases n - i,
    {
        head.append(args[i].1.as_str());
        head.append(",");
        proof {
            assert(arg_views(args@).take(i + 1).drop_last() =~= arg_views(args@).take(i as int));
            assert(arg_views(args@).take(i + 1).last() == (args@[i as int].0@, args@[i as int].1@));
        }
        i += 1;
    }
    proof {
        assert(arg_views(args@).take(n as int) =~= arg_views(args@));
    }
    head.append("), ");
    let ghost mid2 = head@;
    let mut i: usize = 0;
    while i < n
        invariant
            n == args@.len(),
            i <= n,
            head@ == mid2 + names_text(arg_views(args@).take(i as int)),
        decreases n - i,
    {
        head.append(args[i].0.as_str());
        head.append(",");
        proof {
            assert(arg_views(args@).take(i + 1).drop_last() =~= arg_views(args@).take(i as int));
            assert(arg_views(args@).take(i + 1).last() == (args@[i as int].0@, args@[i as int].1@));
        }
        i += 1;
    }
    proof {
        assert(arg_views(args@).take(n as int) =~= arg_views(args@));
    }
    head.append(")\nend");
    head
}

} // verus!
