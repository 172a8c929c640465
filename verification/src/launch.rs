//! Opening a folder, snap-in, program or URI without a lingering console:
//! `cmd.exe /C start "" /B <target>`.

use vstd::prelude::*;

use crate::text::{push_str, string_of};

verus! {

/// The `cmd.exe` arguments that launch `target` detached.
pub open spec fn start_args_view(target: Seq<char>) -> Seq<Seq<char>> {
    seq!["/C"@, "start"@, ""@, "/B"@, target]
}

/// The `cmd.exe` arguments that launch `target` detached.
pub fn start_detached_args(target: &str) -> (r: Vec<String>)
    ensures
        r.deep_view() == start_args_view(target@),
{
    let mut r: Vec<String> = Vec::new();
    r.push(string_of("/C"));
    r.push(string_of("start"));
    r.push(string_of(""));
    r.push(string_of("/B"));
    r.push(string_of(target));
    assert(r.deep_view() =~= start_args_view(target@));
    r
}

/// The outcome of launching `target`: `launched` is `Ok(exit status success)`
/// or the error text of a process that could not be spawned.
pub open spec fn start_result_view(target: Seq<char>, launched: Result<bool, Seq<char>>) -> Result<
    (),
    Seq<char>,
> {
    match launched {
        Ok(true) => Ok(()),
        Ok(false) => Err("failed to open '"@ + target + "'"@),
        Err(e) => Err(e),
    }
}

/// The views of a `Result` with string error.
pub open spec fn result_view<T>(r: Result<T, String>) -> Result<T, Seq<char>> {
    match r {
        Ok(v) => Ok(v),
        Err(e) => Err(e@),
    }
}

/// The views of a `Result` of strings.
pub open spec fn text_result_view(r: Result<String, String>) -> Result<Seq<char>, Seq<char>> {
    match r {
        Ok(v) => Ok(v@),
        Err(e) => Err(e@),
    }
}

/// Judging a detached launch of `target` from how the process went.
pub fn start_detached(target: &str, launched: Result<bool, String>) -> (r: Result<(), String>)
    ensures
        result_view(r) == start_result_view(target@, result_view(launched)),
{
    match launched {
        Ok(true) => Ok(()),
        Ok(false) => {
            let mut s = String::new();
            push_str(&mut s, "failed to open '");
            push_str(&mut s, target);
            push_str(&mut s, "'");
            assert(s@ =~= "failed to open '"@ + target@ + "'"@);
            Err(s)
        },
        Err(e) => Err(e),
    }
}

} // verus!
