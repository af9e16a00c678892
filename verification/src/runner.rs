//! Commands for the program to run.

use vstd::prelude::*;

use crate::config::string_views;
use crate::error::Error;
use crate::text::concat;

verus! {

/// A program with its arguments and the extra environment it runs with.
#[derive(Debug, Clone, PartialEq, Eq)]
pub struct CommandLine {
    pub program: String,
    pub args: Vec<String>,
    pub envs: Vec<(String, String)>,
}

/// The views of environment pairs.
pub open spec fn pair_views(v: Seq<(String, String)>) -> Seq<(Seq<char>, Seq<char>)> {
    Seq::new(v.len(), |i: int| (v[i].0@, v[i].1@))
}

/// A command line as the contracts see it.
pub open spec fn command_is(
    c: CommandLine,
    program: Seq<char>,
    args: Seq<Seq<char>>,
    envs: Seq<(Seq<char>, Seq<char>)>,
) -> bool {
    &&& c.program@ == program
    &&& string_views(c.args@) == args
    &&& pair_views(c.envs@) == envs
}

/// Appends a string to a list.
pub fn push_str(v: &mut Vec<String>, s: &str)
    ensures
        string_views(final(v)@) == string_views(old(v)@).push(s@),
{
    let t = s.to_string();
    v.push(t);
    assert(string_views(v@) =~= string_views(old(v)@).push(s@));
}

/// Appends an environment pair to a list.
pub fn push_pair(v: &mut Vec<(String, String)>, k: &str, val: &str)
    ensures
        pair_views(final(v)@) == pair_views(old(v)@).push((k@, val@)),
{
    let p = (k.to_string(), val.to_string());
    v.push(p);
    assert(pair_views(v@) =~= pair_views(old(v)@).push((k@, val@)));
}


/// The line echoed before running a command: "$ program arg1 arg2 ...".
pub open spec fn echo_spec(program: Seq<char>, args: Seq<Seq<char>>) -> Seq<char> {
    "$ "@ + program + " "@ + space_join(args)
}

/// The arguments joined by single spaces.
pub open spec fn space_join(args: Seq<Seq<char>>) -> Seq<char>
    decreases args.len(),
{
    if args.len() == 0 {
        Seq::empty()
    } else if args.len() == 1 {
        args[0]
    } else {
        space_join(args.drop_last()) + " "@ + args.last()
    }
}

pub fn command_echo(c: &CommandLine) -> (s: String)
    ensures
        s@ == echo_spec(c.program@, string_views(c.args@)),
{
    let a = crate::text::concat("$ ", c.program.as_str());
    let mut s = crate::text::concat(a.as_str(), " ");
    let ghost head = s@;
    let ghost es = string_views(c.args@);
    let mut i: usize = 0;
    while i < c.args.len()
        invariant
            i <= c.args.len(),
            es == string_views(c.args@),
            s@ == head + space_join(es.take(i as int)),
        decreases c.args.len() - i,
    {
        assert(es.take(i + 1).drop_last() =~= es.take(i as int));
        if i > 0 {
            s.append(" ");
        }
        s.append(c.args[i].as_str());
        proof {
            if i == 0 {
                assert(es.take(1) =~= seq![es[0]]);
            }
        }
        i = i + 1;
        assert(s@ =~= head + space_join(es.take(i as int)));
    }
    assert(es.take(i as int) =~= es);
    s
}

/// The exit code reported for a command: its own, or -1 when it had none
/// (ended by a signal).
pub open spec fn exit_code_spec(code: Option<i32>) -> int {
    match code {
        Some(c) => c as int,
        None => -1,
    }
}

/// The outcome of a finished command: success, or the command error with
/// the program's name and its exit code.
pub fn exit_outcome(program: &str, success: bool, code: Option<i32>) -> (r: Result<(), Error>)
    ensures
        success ==> r is Ok,
        !success ==> (r matches Err(Error::Command { cmd, code: c }) && cmd@ == program@ && c
            == exit_code_spec(code)),
{
    if success {
        Ok(())
    } else {
        let c: i32 = match code {
            Some(c) => c,
            None => -1,
        };
        Err(Error::Command { cmd: program.to_string(), code: c })
    }
}

/// The message when a program cannot be started.
pub open spec fn start_failure_spec(program: Seq<char>, reason: Seq<char>) -> Seq<char> {
    "failed to start `"@ + program + "`: "@ + reason
}

/// The error when a program cannot be started, with the system's reason.
pub fn start_failure(program: &str, reason: &str) -> (e: Error)
    ensures
        e matches Error::Msg(m) && m@ == start_failure_spec(program@, reason@),
{
    let a = concat("failed to start `", program);
    let b = concat(a.as_str(), "`: ");
    Error::msg(concat(b.as_str(), reason))
}

} // verus!
