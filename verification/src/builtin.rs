//! Classification of command names into the fixed set of builtins.

use vstd::prelude::*;
use crate::strutil::str_eq;

verus! {

/// The closed set of commands the interpreter implements itself.
#[derive(Clone, Copy, PartialEq, Eq, Structural, Debug)]
pub enum Builtin {
    Cd,
    Echo,
    Exit,
    Pwd,
    Type,
}

/// Which builtin, if any, a command name denotes.
pub open spec fn builtin_of(name: Seq<char>) -> Option<Builtin> {
    if name == "cd"@ {
        Some(Builtin::Cd)
    } else if name == "echo"@ {
        Some(Builtin::Echo)
    } else if name == "exit"@ {
        Some(Builtin::Exit)
    } else if name == "pwd"@ {
        Some(Builtin::Pwd)
    } else if name == "type"@ {
        Some(Builtin::Type)
    } else {
        None
    }
}

/// Looks a command name up in the fixed builtin table.
pub fn is_builtin(name: &str) -> (r: Option<Builtin>)
    ensures
        r == builtin_of(name@),
{
    if str_eq(name, "cd") {
        Some(Builtin::Cd)
    } else if str_eq(name, "echo") {
        Some(Builtin::Echo)
    } else if str_eq(name, "exit") {
        Some(Builtin::Exit)
    } else if str_eq(name, "pwd") {
        Some(Builtin::Pwd)
    } else if str_eq(name, "type") {
        Some(Builtin::Type)
    } else {
        None
    }
}

} // verus!
