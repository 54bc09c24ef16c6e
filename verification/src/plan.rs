//! The action language of step plans: external commands to run, files to
//! write or append, and literal patches to apply.  A step body is compiled
//! to a list of actions; the driver executes them in order.

use vstd::prelude::*;
use vstd::string::StringExecFns;
use crate::patcher::{Replacement, ReplacementV};

verus! {

/// An external command: a program name and its argument list.
pub struct Command {
    pub program: String,
    pub args: Vec<String>,
}

/// Mathematical view of a command.
pub struct CommandV {
    pub program: Seq<char>,
    pub args: Seq<Seq<char>>,
}

impl View for Command {
    type V = CommandV;

    open spec fn view(&self) -> CommandV {
        CommandV { program: self.program@, args: self.args.deep_view() }
    }
}

impl DeepView for Command {
    type V = CommandV;

    open spec fn deep_view(&self) -> CommandV {
        self.view()
    }
}

impl Command {
    /// A command with no arguments yet.
    pub fn new(program: &str) -> (r: Command)
        ensures
            r@ == (CommandV { program: program@, args: Seq::empty() }),
    {
        let r = Command { program: program.to_owned(), args: Vec::new() };
        proof {
            assert(r.args.deep_view() =~= Seq::<Seq<char>>::empty());
        }
        r
    }

    /// Append one literal argument.
    pub fn arg(self, a: &str) -> (r: Command)
        ensures
            r@.program == self@.program,
            r@.args == self@.args.push(a@),
    {
        let mut c = self;
        c.args.push(a.to_owned());
        proof {
            assert(c.args.deep_view() =~= self.args.deep_view().push(a@));
        }
        c
    }

    /// Append one owned argument.
    pub fn arg_string(self, a: String) -> (r: Command)
        ensures
            r@.program == self@.program,
            r@.args == self@.args.push(a@),
    {
        let ghost av = a@;
        let mut c = self;
        c.args.push(a);
        proof {
            assert(c.args.deep_view() =~= self.args.deep_view().push(av));
        }
        c
    }
}

/// One unit of external work inside a step.
pub enum Action {
    /// Run a command; a non-zero exit is the step's failure.
    Run(Command),
    /// Run a command and write its captured standard output to the file.
    CaptureToFile(Command, String),
    /// Read the file, apply the replacements in order, write it back.
    Patch(String, Vec<Replacement>),
    /// Write the file with exactly this content.
    WriteFile(String, String),
    /// Append this content, followed by a line break, to the file.
    AppendToFile(String, String),
}

/// Mathematical view of an action.
pub enum ActionV {
    Run(CommandV),
    CaptureToFile(CommandV, Seq<char>),
    Patch(Seq<char>, Seq<ReplacementV>),
    WriteFile(Seq<char>, Seq<char>),
    AppendToFile(Seq<char>, Seq<char>),
}

impl View for Action {
    type V = ActionV;

    open spec fn view(&self) -> ActionV {
        match self {
            Action::Run(c) => ActionV::Run(c@),
            Action::CaptureToFile(c, path) => ActionV::CaptureToFile(c@, path@),
            Action::Patch(path, rs) => ActionV::Patch(path@, rs.deep_view()),
            Action::WriteFile(path, content) => ActionV::WriteFile(path@, content@),
            Action::AppendToFile(path, content) => ActionV::AppendToFile(path@, content@),
        }
    }
}

impl DeepView for Action {
    type V = ActionV;

    open spec fn deep_view(&self) -> ActionV {
        self.view()
    }
}

/// The view of a whole plan.
pub open spec fn plan_view(actions: Seq<Action>) -> Seq<ActionV> {
    actions.map_values(|a: Action| a@)
}

/// Failure of an external command: the non-zero exit code it returned.
#[derive(Clone, Copy, PartialEq, Eq, Structural, Debug)]
pub struct CommandFailure {
    pub exit_code: i32,
}

/// Classify a finished command's exit code: zero is success, any other
/// value is a failure carrying that code.
pub fn exit_outcome(exit_code: i32) -> (r: Result<(), CommandFailure>)
    ensures
        r is Ok <==> exit_code == 0,
        r matches Err(f) ==> f.exit_code == exit_code,
{
    if exit_code == 0 {
        Ok(())
    } else {
        Err(CommandFailure { exit_code })
    }
}

/// A device path under `/dev/`.
pub fn dev_path(name: &str) -> (r: String)
    ensures
        r@ == "/dev/"@ + name@,
{
    let mut out = "/dev/".to_owned();
    out.append(name);
    out
}

// ---------------------------------------------------------------------------
// Specification-level constructors
// ---------------------------------------------------------------------------

pub open spec fn runv(program: Seq<char>, args: Seq<Seq<char>>) -> ActionV {
    ActionV::Run(CommandV { program, args })
}

pub open spec fn capturev(program: Seq<char>, args: Seq<Seq<char>>, path: Seq<char>) -> ActionV {
    ActionV::CaptureToFile(CommandV { program, args }, path)
}

pub open spec fn patchv(path: Seq<char>, rs: Seq<ReplacementV>) -> ActionV {
    ActionV::Patch(path, rs)
}

pub open spec fn writev(path: Seq<char>, content: Seq<char>) -> ActionV {
    ActionV::WriteFile(path, content)
}

pub open spec fn appendv(path: Seq<char>, content: Seq<char>) -> ActionV {
    ActionV::AppendToFile(path, content)
}

pub open spec fn rv(from: Seq<char>, to: Seq<char>) -> ReplacementV {
    ReplacementV { from, to }
}

// ---------------------------------------------------------------------------
// Executable constructors
// ---------------------------------------------------------------------------

/// Wrap a finished command as a run action.
pub fn run_action(c: Command) -> (r: Action)
    ensures
        r@ == ActionV::Run(c@),
{
    Action::Run(c)
}

pub fn run0(p: &str) -> (r: Action)
    ensures
        r@ == runv(p@, Seq::empty()),
{
    Action::Run(Command::new(p))
}

pub fn run1(p: &str, a1: &str) -> (r: Action)
    ensures
        r@ == runv(p@, seq![a1@]),
{
    let c = Command::new(p).arg(a1);
    proof {
        assert(c@.args =~= seq![a1@]);
    }
    Action::Run(c)
}

pub fn run2(p: &str, a1: &str, a2: &str) -> (r: Action)
    ensures
        r@ == runv(p@, seq![a1@, a2@]),
{
    let c = Command::new(p).arg(a1).arg(a2);
    proof {
        assert(c@.args =~= seq![a1@, a2@]);
    }
    Action::Run(c)
}

pub fn run3(p: &str, a1: &str, a2: &str, a3: &str) -> (r: Action)
    ensures
        r@ == runv(p@, seq![a1@, a2@, a3@]),
{
    let c = Command::new(p).arg(a1).arg(a2).arg(a3);
    proof {
        assert(c@.args =~= seq![a1@, a2@, a3@]);
    }
    Action::Run(c)
}

pub fn run4(p: &str, a1: &str, a2: &str, a3: &str, a4: &str) -> (r: Action)
    ensures
        r@ == runv(p@, seq![a1@, a2@, a3@, a4@]),
{
    let c = Command::new(p).arg(a1).arg(a2).arg(a3).arg(a4);
    proof {
        assert(c@.args =~= seq![a1@, a2@, a3@, a4@]);
    }
    Action::Run(c)
}

pub fn run5(p: &str, a1: &str, a2: &str, a3: &str, a4: &str, a5: &str) -> (r: Action)
    ensures
        r@ == runv(p@, seq![a1@, a2@, a3@, a4@, a5@]),
{
    let c = Command::new(p).arg(a1).arg(a2).arg(a3).arg(a4).arg(a5);
    proof {
        assert(c@.args =~= seq![a1@, a2@, a3@, a4@, a5@]);
    }
    Action::Run(c)
}

/// A patch action with one replacement.
pub fn patch1(path: &str, r1: Replacement) -> (r: Action)
    ensures
        r@ == patchv(path@, seq![r1@]),
{
    let ghost r1v = r1@;
    let mut rs: Vec<Replacement> = Vec::new();
    rs.push(r1);
    proof {
        assert(rs.deep_view() =~= seq![r1v]);
    }
    Action::Patch(path.to_owned(), rs)
}

/// A patch action with two replacements.
pub fn patch2(path: &str, r1: Replacement, r2: Replacement) -> (r: Action)
    ensures
        r@ == patchv(path@, seq![r1@, r2@]),
{
    let ghost r1v = r1@;
    let ghost r2v = r2@;
    let mut rs: Vec<Replacement> = Vec::new();
    rs.push(r1);
    rs.push(r2);
    proof {
        assert(rs.deep_view() =~= seq![r1v, r2v]);
    }
    Action::Patch(path.to_owned(), rs)
}

/// A patch action with three replacements.
pub fn patch3(path: &str, r1: Replacement, r2: Replacement, r3: Replacement) -> (r: Action)
    ensures
        r@ == patchv(path@, seq![r1@, r2@, r3@]),
{
    let ghost r1v = r1@;
    let ghost r2v = r2@;
    let ghost r3v = r3@;
    let mut rs: Vec<Replacement> = Vec::new();
    rs.push(r1);
    rs.push(r2);
    rs.push(r3);
    proof {
        assert(rs.deep_view() =~= seq![r1v, r2v, r3v]);
    }
    Action::Patch(path.to_owned(), rs)
}

/// A write-file action.
pub fn write_action(path: &str, content: String) -> (r: Action)
    ensures
        r@ == writev(path@, content@),
{
    Action::WriteFile(path.to_owned(), content)
}

/// An append-to-file action.
pub fn append_action(path: &str, content: String) -> (r: Action)
    ensures
        r@ == appendv(path@, content@),
{
    Action::AppendToFile(path.to_owned(), content)
}

} // verus!
