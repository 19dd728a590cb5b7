//! Commands as values: which program to run, where, and with which
//! arguments. Running them is left to the caller.

use vstd::prelude::*;
use crate::paths::ProjectPath;

verus! {

/// One argument of a command: literal text, or a place in the project tree.
#[derive(Debug, Clone)]
pub enum Argument {
    Text(String),
    Path(ProjectPath),
}

/// What an argument stands for.
pub enum ArgumentView {
    Text(Seq<char>),
    Path(Seq<Seq<char>>),
}

impl View for Argument {
    type V = ArgumentView;

    open spec fn view(&self) -> ArgumentView {
        match self {
            Argument::Text(text) => ArgumentView::Text(text@),
            Argument::Path(path) => ArgumentView::Path(path@),
        }
    }
}

/// A command that is ready to run: the program, the directory to run it in
/// (`None` for the directory that the caller is in), and its arguments in
/// order.
#[derive(Debug, Clone)]
pub struct Invocation {
    pub exe: String,
    pub dir: Option<ProjectPath>,
    pub args: Vec<Argument>,
}

/// What an invocation stands for.
pub struct InvocationView {
    pub exe: Seq<char>,
    pub dir: Option<Seq<Seq<char>>>,
    pub args: Seq<ArgumentView>,
}

impl View for Invocation {
    type V = InvocationView;

    open spec fn view(&self) -> InvocationView {
        InvocationView {
            exe: self.exe@,
            dir: match self.dir {
                Some(dir) => Some(dir@),
                None => None,
            },
            args: Seq::new(self.args.len() as nat, |i: int| self.args[i]@),
        }
    }
}

impl Invocation {
    /// The program `exe`, to be run where the caller is, with no arguments
    /// yet.
    pub fn new(exe: &str) -> (cmd: Invocation)
        ensures
            cmd@.exe == exe@,
            cmd@.dir == None::<Seq<Seq<char>>>,
            cmd@.args == Seq::<ArgumentView>::empty(),
    {
        let cmd = Invocation { exe: String::from_str(exe), dir: None, args: Vec::new() };
        assert(cmd@.args =~= Seq::<ArgumentView>::empty());
        cmd
    }

    /// The same command with the text `text` as one more argument.
    pub fn arg(self, text: &str) -> (cmd: Invocation)
        ensures
            cmd@.exe == self@.exe,
            cmd@.dir == self@.dir,
            cmd@.args == self@.args.push(ArgumentView::Text(text@)),
    {
        let ghost before = self@.args;
        let mut args = self.args;
        args.push(Argument::Text(String::from_str(text)));
        let cmd = Invocation { exe: self.exe, dir: self.dir, args };
        assert(cmd@.args =~= before.push(ArgumentView::Text(text@)));
        cmd
    }

    /// The same command with the place `path` as one more argument.
    pub fn arg_path(self, path: ProjectPath) -> (cmd: Invocation)
        ensures
            cmd@.exe == self@.exe,
            cmd@.dir == self@.dir,
            cmd@.args == self@.args.push(ArgumentView::Path(path@)),
    {
        let ghost before = self@.args;
        let ghost place = path@;
        let mut args = self.args;
        args.push(Argument::Path(path));
        let cmd = Invocation { exe: self.exe, dir: self.dir, args };
        assert(cmd@.args =~= before.push(ArgumentView::Path(place)));
        cmd
    }
}

/// The program `exe`, to be run in `dir`, with no arguments yet.
pub fn cmd_in_dir(exe: &str, dir: ProjectPath) -> (cmd: Invocation)
    ensures
        cmd@.exe == exe@,
        cmd@.dir == Some(dir@),
        cmd@.args == Seq::<ArgumentView>::empty(),
{
    let cmd = Invocation { exe: String::from_str(exe), dir: Some(dir), args: Vec::new() };
    assert(cmd@.args =~= Seq::<ArgumentView>::empty());
    cmd
}

/// How a finished command is judged.
#[derive(Debug, Clone, PartialEq, Eq)]
pub enum RunError {
    /// The program could not be started.
    SpawnFailed,
    /// The program ran and reported failure; `status` is its exit status as
    /// the system words it.
    Failed { status: String },
}

/// How a command is judged by what became of it.
pub open spec fn verdict(status: Option<(bool, String)>) -> Result<(), RunError> {
    match status {
        None => Err(RunError::SpawnFailed),
        Some((true, _)) => Ok(()),
        Some((false, text)) => Err(RunError::Failed { status: text }),
    }
}

/// Judges a command by what became of it: `status` is `None` where the
/// program could not be started, else whether it reported success and its
/// exit status as the system words it.
pub fn run(status: Option<(bool, String)>) -> (result: Result<(), RunError>)
    ensures
        result == verdict(status),
{
    match status {
        None => Err(RunError::SpawnFailed),
        Some((true, _)) => Ok(()),
        Some((false, text)) => Err(RunError::Failed { status: text }),
    }
}

} // verus!
