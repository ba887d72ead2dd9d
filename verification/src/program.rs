//! External programs and the command lines that run them.

pub mod location;

use crate::text::texts;
use vstd::prelude::*;

verus! {

/// An external program that this library knows how to drive.
pub trait Program {
    /// The name under which the program is looked up.
    spec fn spec_executable_name() -> Seq<char>;

    /// The name under which the program is looked up.
    fn executable_name() -> (r: &'static str)
        ensures
            r@ == Self::spec_executable_name(),
    ;
}

/// A program and the arguments to run it with.
#[derive(Debug, PartialEq, Eq)]
pub struct CommandLine {
    pub program: String,
    pub args: Vec<String>,
}

/// A `CommandLine` over sequences of characters.
pub struct CommandLineView {
    pub program: Seq<char>,
    pub args: Seq<Seq<char>>,
}

impl View for CommandLine {
    type V = CommandLineView;

    open spec fn view(&self) -> CommandLineView {
        CommandLineView { program: self.program@, args: texts(self.args@) }
    }
}

/// A program that did not run to a successful end.
#[derive(Clone, Debug, PartialEq, Eq)]
pub struct RunFailure {
    /// The program that was run.
    pub program: String,
    /// The arguments that it was run with.
    pub args: Vec<String>,
    /// The code that the program exited with, if it exited by itself.
    pub exit_code: Option<i32>,
    /// What the program wrote about its failure.
    pub diagnostics: String,
}

/// A `RunFailure` over sequences of characters.
pub struct RunFailureView {
    pub program: Seq<char>,
    pub args: Seq<Seq<char>>,
    pub exit_code: Option<i32>,
    pub diagnostics: Seq<char>,
}

impl View for RunFailure {
    type V = RunFailureView;

    open spec fn view(&self) -> RunFailureView {
        RunFailureView {
            program: self.program@,
            args: texts(self.args@),
            exit_code: self.exit_code,
            diagnostics: self.diagnostics@,
        }
    }
}

impl CommandLineView {
    /// How a run of this command line is judged: it succeeded where the
    /// program exited with the code 0. Any other end is a failure that
    /// carries the command line, the code and what the program wrote.
    pub open spec fn run_ok(self, exit_code: Option<i32>, diagnostics: Seq<char>) -> Result<
        (),
        RunFailureView,
    > {
        if exit_code == Some(0i32) {
            Ok(())
        } else {
            Err(
                RunFailureView { program: self.program, args: self.args, exit_code, diagnostics },
            )
        }
    }
}

/// The result of judging a run, over sequences of characters.
pub open spec fn run_result_view(r: Result<(), RunFailure>) -> Result<(), RunFailureView> {
    match r {
        Ok(()) => Ok(()),
        Err(e) => Err(e@),
    }
}

impl CommandLine {
    /// Judges a run of this command line that has ended.
    ///
    /// `exit_code` is the code that the program exited with, or `None` where
    /// something else ended it. `diagnostics` is what it wrote about a
    /// failure. Only an exit with the code 0 is a success.
    pub fn run_ok(&self, exit_code: Option<i32>, diagnostics: &str) -> (r: Result<(), RunFailure>)
        ensures
            run_result_view(r) == self@.run_ok(exit_code, diagnostics@),
    {
        match exit_code {
            Some(0) => Ok(()),
            _ => Err(
                RunFailure {
                    program: self.program.clone(),
                    args: self.args.clone(),
                    exit_code,
                    diagnostics: diagnostics.to_owned(),
                },
            ),
        }
    }

    /// The command line that runs `program` without arguments.
    pub fn new(program: &str) -> (r: CommandLine)
        ensures
            r@ == (CommandLineView { program: program@, args: Seq::empty() }),
    {
        let r = CommandLine { program: program.to_owned(), args: Vec::new() };
        assert(texts(r.args@) =~= Seq::empty());
        r
    }

    /// Adds one argument at the end.
    pub fn arg(&mut self, arg: &str)
        ensures
            final(self)@.program == old(self)@.program,
            final(self)@.args == old(self)@.args.push(arg@),
    {
        self.args.push(arg.to_owned());
        assert(texts(self.args@) =~= texts(old(self).args@).push(arg@));
    }

    /// Adds the arguments `args` at the end, in their order.
    pub fn args(&mut self, args: &Vec<String>)
        ensures
            final(self)@.program == old(self)@.program,
            final(self)@.args == old(self)@.args + texts(args@),
    {
        let mut i: usize = 0;
        while i < args.len()
            invariant
                i <= args.len(),
                self.program == old(self).program,
                texts(self.args@) == texts(old(self).args@) + texts(args@.take(i as int)),
            decreases args.len() - i,
        {
            let ghost before = self.args@;
            self.args.push(args[i].clone());
            assert(texts(self.args@) =~= texts(before).push(args@[i as int]@));
            assert(args@.take(i + 1) =~= args@.take(i as int).push(args@[i as int]));
            assert(texts(args@.take(i + 1)) =~= texts(args@.take(i as int)).push(args@[i as int]@));
            i += 1;
        }
        assert(args@.take(i as int) =~= args@);
    }
}

} // verus!
