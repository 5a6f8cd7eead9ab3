//! The interpreter state and the meaning of one command.
//!
//! `Shell` tracks the search path, the home directory, and the current
//! directory. `Shell::exec` interprets one parsed command: it updates the
//! state where the command asks for it and returns the single action the
//! surrounding program must perform — print a line, change the operating
//! system's working directory, spawn a program, exit, or nothing.

use vstd::prelude::*;
use crate::builtin::{builtin_of, is_builtin, Builtin};
use crate::paths::{
    join_path, join_spec, lemma_join_ends_with_name, resolve_dotted, resolve_dotted_spec,
};
use crate::strutil::{concat2, concat3};
use crate::tokenizer::Command;
use std::path::Path;

verus! {

/// The interpreter's state: the search path, the home directory, and the
/// tracked current directory. Only the current directory ever changes.
pub struct Shell {
    pub path: Vec<String>,
    pub home: String,
    pub current_dir: String,
}

/// What the surrounding program must do after one command is interpreted.
#[derive(Debug)]
pub enum ExecAction {
    /// Write the line to standard output, followed by a newline.
    Print(String),
    /// Terminate the process with status 0.
    Exit,
    /// Ask the operating system to change its working directory to the
    /// target; the tracked directory was already updated, and a refusal
    /// here is fatal.
    ChangeDir(String),
    /// Ask the operating system to change its working directory to the
    /// target, then report the outcome back through `Shell::cd_finish`.
    TryChangeDir(String),
    /// Spawn the program with the arguments and forward its standard
    /// output.
    RunProgram(String, Vec<String>),
    /// Nothing to do.
    NoOp,
}

/// The error line for a failed change of directory.
pub open spec fn cd_fail_msg(target: Seq<char>) -> Seq<char> {
    "cd: "@ + target + ": No such file or directory"@
}

/// The line for a command name that is neither a builtin nor on the path.
pub open spec fn not_found_msg(name: Seq<char>) -> Seq<char> {
    name + ": command not found"@
}

/// The line `type` prints for a builtin name.
pub open spec fn type_builtin_msg(name: Seq<char>) -> Seq<char> {
    name + " is a shell builtin"@
}

/// The line `type` prints for a name found on the search path.
pub open spec fn type_path_msg(name: Seq<char>, path: Seq<char>) -> Seq<char> {
    name + " is "@ + path
}

/// The line `type` prints for a name it cannot place.
pub open spec fn type_not_found_msg(name: Seq<char>) -> Seq<char> {
    name + ": not found"@
}

/// The arguments joined with single spaces, as `echo` prints them.
pub open spec fn join_spaces(args: Seq<Seq<char>>) -> Seq<char>
    decreases args.len(),
{
    if args.len() == 0 {
        Seq::empty()
    } else if args.len() == 1 {
        args[0]
    } else {
        join_spaces(args.drop_last()) + seq![' '] + args.last()
    }
}

/// Joins the arguments with single spaces.
pub fn join_with_spaces(args: &Vec<String>) -> (r: String)
    ensures
        r@ == join_spaces(args.deep_view()),
{
    let mut r = String::new();
    if args.len() == 0 {
        return r;
    }
    r.append(args[0].as_str());
    let mut i: usize = 1;
    while i < args.len()
        invariant
            1 <= i <= args@.len(),
            r@ == join_spaces(args.deep_view().take(i as int)),
        decreases args@.len() - i,
    {
        let ghost pre = args.deep_view().take(i as int);
        r.append(" ");
        r.append(args[i].as_str());
        proof {
            reveal_strlit(" ");
            let now = args.deep_view().take(i as int + 1);
            assert(now.drop_last() =~= pre);
            assert(" "@ =~= seq![' ']);
            assert(now.len() >= 2);
        }
        i = i + 1;
    }
    proof {
        assert(args.deep_view().take(args@.len() as int) =~= args.deep_view());
    }
    r
}

/// What a `cd` command does: with no argument it asks for an operand; `~`
/// alone goes to the home directory; a longer `~` argument is deliberately
/// not resolved and does nothing; a dotted argument is resolved against
/// the tracked directory segment by segment; anything else is tried as a
/// literal target, to be committed or reported through `cd_finish`.
pub open spec fn cd_post(pre: Shell, post: Shell, args: Seq<Seq<char>>, r: ExecAction) -> bool {
    if args.len() == 0 {
        post == pre && (r matches ExecAction::Print(line) && line@ == "cd: missing operand"@)
    } else {
        let a = args[0];
        if a.len() > 0 && a[0] == '~' {
            if a.len() == 1 {
                post.path == pre.path && post.home == pre.home && post.current_dir@ == pre.home@
                    && (r matches ExecAction::ChangeDir(t) && t@ == pre.home@)
            } else {
                post == pre && r is NoOp
            }
        } else if a.len() > 0 && a[0] == '.' {
            post.path == pre.path && post.home == pre.home && post.current_dir@
                == resolve_dotted_spec(pre.current_dir@, a) && (r matches ExecAction::ChangeDir(t)
                && t@ == post.current_dir@)
        } else {
            post == pre && (r matches ExecAction::TryChangeDir(t) && t@ == a)
        }
    }
}

/// What a `type` command prints: an operand is required; a builtin name is
/// said to be a builtin; otherwise the name is reported with the search
/// path candidate it resolved to, or as not found.
pub open spec fn type_post(pre: Shell, args: Seq<Seq<char>>, r: ExecAction) -> bool {
    if args.len() == 0 {
        r matches ExecAction::Print(line) && line@ == "type: missing operand"@
    } else {
        let a = args[0];
        if builtin_of(a) is Some {
            r matches ExecAction::Print(line) && line@ == type_builtin_msg(a)
        } else {
            r matches ExecAction::Print(line) && ((exists|i: int|
                0 <= i < pre.path@.len() && line@ == type_path_msg(
                    a,
                    join_spec(pre.path@[i]@, a),
                )) || line@ == type_not_found_msg(a))
        }
    }
}

/// What running an external command yields: either the program is some
/// search path candidate for the name, run with the command's arguments,
/// or the name is reported as not found.
pub open spec fn run_post(pre: Shell, cmd: Command, r: ExecAction) -> bool {
    (r matches ExecAction::RunProgram(prog, args) && args == cmd.args && (exists|i: int|
        0 <= i < pre.path@.len() && prog@ == join_spec(pre.path@[i]@, cmd.name@))) || (
    r matches ExecAction::Print(line) && line@ == not_found_msg(cmd.name@))
}

/// Everything `Shell::exec` promises: how the state after the call and the
/// returned action relate to the state before and to the command.
pub open spec fn exec_post(pre: Shell, post: Shell, cmd: Command, r: ExecAction) -> bool {
    let name = cmd.name@;
    let args = cmd.args.deep_view();
    match builtin_of(name) {
        Some(Builtin::Cd) => cd_post(pre, post, args, r),
        Some(Builtin::Echo) => post == pre && (r matches ExecAction::Print(line) && line@
            == join_spaces(args)),
        Some(Builtin::Exit) => post == pre && r is Exit,
        Some(Builtin::Pwd) => post == pre && (r matches ExecAction::Print(line) && line@
            == pre.current_dir@),
        Some(Builtin::Type) => post == pre && type_post(pre, args, r),
        None => if name.len() == 0 {
            post == pre && r is NoOp
        } else {
            post == pre && run_post(pre, cmd, r)
        },
    }
}

/// Relies on std::path::Path::exists: whether the path names an existing
/// filesystem entry. The answer is the filesystem's and is not modeled;
/// callers state only what holds of every outcome.
#[verifier::external_body]
fn path_exists(p: &str) -> bool {
    Path::new(p).exists()
}

impl Shell {
    /// A shell over the given search path, home directory, and initial
    /// current directory.
    pub fn new(path: Vec<String>, home: String, current_dir: String) -> (s: Shell)
        ensures
            s.path == path,
            s.home == home,
            s.current_dir == current_dir,
    {
        Shell { path, home, current_dir }
    }

    /// The first search-path entry joined with `name` that names an
    /// existing filesystem entry, if any. Which candidate exists is the
    /// filesystem's say; whatever comes back is some entry joined with
    /// the name, and an empty search path resolves nothing.
    pub fn in_path(&self, name: &str) -> (r: Option<String>)
        ensures
            r matches Some(p) ==> exists|i: int|
                0 <= i < self.path@.len() && p@ == join_spec(self.path@[i]@, name@),
            self.path@.len() == 0 ==> r is None,
    {
        let mut i: usize = 0;
        while i < self.path.len()
            invariant
                i <= self.path@.len(),
            decreases self.path@.len() - i,
        {
            let cand = join_path(self.path[i].as_str(), name);
            if path_exists(cand.as_str()) {
                proof {
                    assert(cand@ == join_spec(self.path@[i as int]@, name@));
                }
                return Some(cand);
            }
            i = i + 1;
        }
        None
    }

    /// Interprets the `cd` builtin, updating the tracked directory where
    /// the outcome does not depend on the operating system.
    fn exec_cd(&mut self, command: &Command) -> (r: ExecAction)
        ensures
            cd_post(*old(self), *final(self), command.args.deep_view(), r),
    {
        if command.args.len() == 0 {
            return ExecAction::Print(String::from_str("cd: missing operand"));
        }
        let a = &command.args[0];
        let n = a.as_str().unicode_len();
        if n > 0 && a.as_str().get_char(0) == '~' {
            if n == 1 {
                self.current_dir = self.home.clone();
                ExecAction::ChangeDir(self.home.clone())
            } else {
                ExecAction::NoOp
            }
        } else if n > 0 && a.as_str().get_char(0) == '.' {
            let target = resolve_dotted(self.current_dir.as_str(), a.as_str());
            self.current_dir = target.clone();
            ExecAction::ChangeDir(target)
        } else {
            ExecAction::TryChangeDir(a.clone())
        }
    }

    /// Interprets the `type` builtin.
    fn exec_type(&self, command: &Command) -> (r: ExecAction)
        ensures
            type_post(*self, command.args.deep_view(), r),
    {
        if command.args.len() == 0 {
            return ExecAction::Print(String::from_str("type: missing operand"));
        }
        let a = &command.args[0];
        if is_builtin(a.as_str()).is_some() {
            ExecAction::Print(concat2(a.as_str(), " is a shell builtin"))
        } else {
            match self.in_path(a.as_str()) {
                Some(entry) => {
                    let line = concat3(a.as_str(), " is ", entry.as_str());
                    proof {
                        let i = choose|i: int|
                            0 <= i < self.path@.len() && entry@ == join_spec(
                                self.path@[i]@,
                                a@,
                            );
                        assert(line@ == type_path_msg(a@, join_spec(self.path@[i]@, a@)));
                    }
                    ExecAction::Print(line)
                },
                None => ExecAction::Print(concat2(a.as_str(), ": not found")),
            }
        }
    }

    /// Interprets one command: runs the builtin it names, or resolves an
    /// external program on the search path, and returns the action the
    /// surrounding program must perform.
    pub fn exec(&mut self, command: Command) -> (r: ExecAction)
        ensures
            exec_post(*old(self), *final(self), command, r),
    {
        match is_builtin(command.name.as_str()) {
            Some(Builtin::Cd) => self.exec_cd(&command),
            Some(Builtin::Echo) => ExecAction::Print(join_with_spaces(&command.args)),
            Some(Builtin::Exit) => ExecAction::Exit,
            Some(Builtin::Pwd) => ExecAction::Print(self.current_dir.clone()),
            Some(Builtin::Type) => self.exec_type(&command),
            None => {
                if command.name.as_str().is_empty() {
                    ExecAction::NoOp
                } else {
                    match self.in_path(command.name.as_str()) {
                        Some(entry) => ExecAction::RunProgram(entry, command.args),
                        None => ExecAction::Print(
                            concat2(command.name.as_str(), ": command not found"),
                        ),
                    }
                }
            },
        }
    }

    /// Commits or reports an attempted literal `cd`: `changed` says
    /// whether the operating system accepted the target. On success the
    /// tracked directory becomes the target and there is nothing to
    /// print; on failure the state stays exactly as it was and the error
    /// line to print is returned.
    pub fn cd_finish(&mut self, target: &String, changed: bool) -> (msg: Option<String>)
        ensures
            changed ==> final(self).path == old(self).path && final(self).home == old(self).home
                && final(self).current_dir == *target && msg is None,
            !changed ==> *final(self) == *old(self) && (msg matches Some(line) && line@
                == cd_fail_msg(target@)),
    {
        if changed {
            self.current_dir = target.clone();
            None
        } else {
            Some(concat3("cd: ", target.as_str(), ": No such file or directory"))
        }
    }
}

/// The path that `type` reports for a resolvable non-builtin name ends
/// with that name: whenever the report is not the not-found line, its last
/// characters are the queried name itself.
pub proof fn lemma_type_report_ends_with_name(pre: Shell, args: Seq<Seq<char>>, r: ExecAction)
    requires
        type_post(pre, args, r),
        args.len() > 0,
        builtin_of(args[0]) is None,
        r matches ExecAction::Print(line) && line@ != type_not_found_msg(args[0]),
    ensures
        r matches ExecAction::Print(line) && line@.len() >= args[0].len() && line@.skip(
            line@.len() - args[0].len(),
        ) == args[0],
{
    let a = args[0];
    match r {
        ExecAction::Print(printed) => {
            let i = choose|i: int|
                0 <= i < pre.path@.len() && printed@ == type_path_msg(
                    a,
                    join_spec(pre.path@[i]@, a),
                );
            let p = join_spec(pre.path@[i]@, a);
            lemma_join_ends_with_name(pre.path@[i]@, a);
            assert(printed@.skip(printed@.len() - a.len()) =~= p.skip(p.len() - a.len()));
        },
        _ => {},
    }
}

/// Printing the working directory is idempotent: two `pwd` commands with
/// nothing between them print the same line, and the state after both is
/// the state before either.
pub proof fn lemma_pwd_idempotent(
    s0: Shell,
    s1: Shell,
    s2: Shell,
    cmd: Command,
    r1: ExecAction,
    r2: ExecAction,
)
    requires
        builtin_of(cmd.name@) == Some(Builtin::Pwd),
        exec_post(s0, s1, cmd, r1),
        exec_post(s1, s2, cmd, r2),
    ensures
        s2 == s0,
        r1 matches ExecAction::Print(l1) && r2 matches ExecAction::Print(l2) && l1@ == l2@,
{
}

} // verus!
