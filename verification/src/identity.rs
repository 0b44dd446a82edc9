//! Classification of an exec event by the process's identity.
//!
//! The identity is a snapshot of the executable path and the argument list,
//! read on demand from the OS process table (the path as a symbolic link,
//! the arguments as one NUL-separated string); it is used only to decide
//! whether the exec is the zygote being started, and is not retained.

use vstd::prelude::*;

verus! {

/// The executable path the zygote starts under.
pub open spec fn spec_zygote_exe() -> Seq<char> {
    "/system/bin/app_process64"@
}

/// The launch flag the zygote is started with as its first argument.
pub open spec fn spec_zygote_flag() -> Seq<char> {
    "-Xzygote"@
}

/// Whether an identity is the zygote being started: the known executable
/// path, and the known launch flag as the first argument after the program
/// name.
pub open spec fn spec_is_zygote(exe: Seq<char>, args: Seq<Seq<char>>) -> bool {
    exe == spec_zygote_exe() && args.len() > 1 && args[1] == spec_zygote_flag()
}

/// Decides whether an exec event's identity is the zygote being started.
pub fn is_zygote_exec(exe: &String, args: &Vec<String>) -> (r: bool)
    ensures
        r == spec_is_zygote(exe@, args@.map_values(|a: String| a@)),
{
    proof {
        let ghost views = args@.map_values(|a: String| a@);
        assert(views.len() == args@.len());
        assert(args@.len() > 1 ==> views[1] == args@[1]@);
    }
    let target = String::from_str("/system/bin/app_process64");
    if !target.eq(exe) {
        return false;
    }
    if args.len() <= 1 {
        return false;
    }
    let flag = String::from_str("-Xzygote");
    let a1: &String = &args[1];
    flag.eq(a1)
}

/// Accumulator form of splitting on NUL: `cur` is the run being read, `acc`
/// the non-empty runs already complete.
pub open spec fn spec_split_acc(
    s: Seq<char>,
    cur: Seq<char>,
    acc: Seq<Seq<char>>,
) -> Seq<Seq<char>>
    decreases s.len(),
{
    if s.len() == 0 {
        if cur.len() > 0 {
            acc.push(cur)
        } else {
            acc
        }
    } else if s[0] == '\u{0}' {
        spec_split_acc(
            s.skip(1),
            Seq::empty(),
            if cur.len() > 0 {
                acc.push(cur)
            } else {
                acc
            },
        )
    } else {
        spec_split_acc(s.skip(1), cur.push(s[0]), acc)
    }
}

/// The argument list encoded in a NUL-separated string: the non-empty
/// maximal NUL-free runs, in order.
pub open spec fn spec_split_nul(s: Seq<char>) -> Seq<Seq<char>> {
    spec_split_acc(s, Seq::empty(), Seq::empty())
}

/// Splits the NUL-separated argument string of a process into its argument
/// list, dropping empty entries.
pub fn split_cmdline(s: &str) -> (args: Vec<String>)
    ensures
        args@.map_values(|a: String| a@) == spec_split_nul(s@),
{
    let n = s.unicode_len();
    let mut args: Vec<String> = Vec::new();
    let mut start: usize = 0;
    let mut i: usize = 0;
    proof {
        assert(s@.skip(0) =~= s@);
        assert(s@.subrange(0, 0) =~= Seq::<char>::empty());
        assert(args@.map_values(|a: String| a@) =~= Seq::<Seq<char>>::empty());
    }
    while i < n
        invariant
            start <= i <= n,
            n == s@.len(),
            spec_split_nul(s@) == spec_split_acc(
                s@.skip(i as int),
                s@.subrange(start as int, i as int),
                args@.map_values(|a: String| a@),
            ),
        decreases n - i,
    {
        let ghost rest = s@.skip(i as int);
        let ghost cur = s@.subrange(start as int, i as int);
        let ghost acc = args@.map_values(|a: String| a@);
        proof {
            assert(rest[0] == s@[i as int]);
            assert(rest.skip(1) =~= s@.skip(i as int + 1));
        }
        let c = s.get_char(i);
        if c == '\u{0}' {
            if i > start {
                let piece = s.substring_char(start, i).to_owned();
                args.push(piece);
                proof {
                    assert(args@.map_values(|a: String| a@) =~= acc.push(cur));
                }
            }
            proof {
                assert(s@.subrange(i as int + 1, i as int + 1) =~= Seq::<char>::empty());
            }
            start = i + 1;
        } else {
            proof {
                assert(cur.push(s@[i as int]) =~= s@.subrange(start as int, i as int + 1));
            }
        }
        i += 1;
    }
    let ghost cur = s@.subrange(start as int, n as int);
    proof {
        assert(s@.skip(n as int).len() == 0);
    }
    if n > start {
        let ghost acc = args@.map_values(|a: String| a@);
        let piece = s.substring_char(start, n).to_owned();
        args.push(piece);
        proof {
            assert(args@.map_values(|a: String| a@) =~= acc.push(cur));
        }
    }
    args
}

} // verus!
