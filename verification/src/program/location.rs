//! Where a program is installed.

use crate::program::{CommandLine, CommandLineView, Program};
use std::marker::PhantomData;
use vstd::prelude::*;

verus! {

/// The path to the executable of the program `P`.
#[derive(Debug)]
pub struct Location<P> {
    executable_path: String,
    phantom_data: PhantomData<P>,
}

impl<P> View for Location<P> {
    type V = Seq<char>;

    /// The path to the executable.
    closed spec fn view(&self) -> Seq<char> {
        self.executable_path@
    }
}

impl<P> Clone for Location<P> {
    fn clone(&self) -> (r: Self)
        ensures
            r@ == self@,
    {
        Location { executable_path: self.executable_path.clone(), phantom_data: PhantomData }
    }
}

impl<P> AsRef<str> for Location<P> {
    /// The path to the executable.
    fn as_ref(&self) -> (r: &str)
        ensures
            r@ == self@,
    {
        self.executable_path.as_str()
    }
}

impl<P: Program> Location<P> {
    /// The location of the program `P` at `path`.
    pub fn new(path: &str) -> (r: Self)
        ensures
            r@ == path@,
    {
        Self { executable_path: path.to_owned(), phantom_data: PhantomData }
    }

    /// The command line that runs the program at this location without arguments.
    pub fn cmd(&self) -> (r: CommandLine)
        ensures
            r@ == (CommandLineView { program: self@, args: Seq::empty() }),
    {
        CommandLine::new(self.executable_path.as_str())
    }
}

} // verus!
