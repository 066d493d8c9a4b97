//! A command as a record: the program, its arguments, what is added to its
//! environment, the directory it runs in and how its output is treated.
//! Whoever runs it changes nothing of the caller's own environment or
//! working directory.

use crate::text::{copy_all, copy_text, text_of, texts};
use crate::utils::{Stdout, StdoutView};
use vstd::prelude::*;
use vstd::string::*;

verus! {

/// One command to run.
#[derive(Debug, Clone, PartialEq, Eq)]
pub struct Invocation {
    pub program: String,
    pub args: Vec<String>,
    /// Variables set for the command alone, by name and value.
    pub env: Vec<(String, String)>,
    /// The directory the command runs in; none is the caller's own.
    pub dir: Option<String>,
    pub stdout: Stdout,
}

/// The model of an [`Invocation`].
pub struct InvocationView {
    pub program: Seq<char>,
    pub args: Seq<Seq<char>>,
    pub env: Seq<(Seq<char>, Seq<char>)>,
    pub dir: Option<Seq<char>>,
    pub stdout: StdoutView,
}

/// The texts of a list of pairs of strings, in order.
pub open spec fn pairs(items: Seq<(String, String)>) -> Seq<(Seq<char>, Seq<char>)> {
    Seq::new(items.len(), |i: int| (items[i].0@, items[i].1@))
}

impl View for Invocation {
    type V = InvocationView;

    open spec fn view(&self) -> InvocationView {
        InvocationView {
            program: self.program@,
            args: texts(self.args@),
            env: pairs(self.env@),
            dir: text_of(self.dir),
            stdout: self.stdout@,
        }
    }
}

/// The models of a list of invocations, in order.
pub open spec fn invocations(items: Seq<Invocation>) -> Seq<InvocationView> {
    Seq::new(items.len(), |i: int| items[i]@)
}

/// A command run in the caller's directory and environment, writing to the
/// console itself.
pub open spec fn plain(program: Seq<char>, args: Seq<Seq<char>>) -> InvocationView {
    InvocationView {
        program,
        args,
        env: Seq::empty(),
        dir: None,
        stdout: StdoutView::Inherit,
    }
}

/// A copy of a treatment of output.
pub fn copy_stdout(mode: &Stdout) -> (out: Stdout)
    ensures
        out@ == mode@,
{
    match mode {
        Stdout::Inherit => Stdout::Inherit,
        Stdout::Capture => Stdout::Capture,
        Stdout::Redact(secret) => Stdout::Redact(secret.clone()),
    }
}

impl Invocation {
    /// The command `program args`, run in the caller's directory and
    /// environment, writing to the console itself.
    pub fn new(program: &str, args: Vec<String>) -> (out: Invocation)
        ensures
            out@ == plain(program@, texts(args@)),
    {
        let out = Invocation {
            program: program.to_owned(),
            args,
            env: Vec::new(),
            dir: None,
            stdout: Stdout::Inherit,
        };
        proof {
            assert(pairs(out.env@) =~= Seq::empty());
        }
        out
    }

    /// A copy of the command.
    pub fn copy(&self) -> (out: Invocation)
        ensures
            out@ == self@,
    {
        let n: usize = self.env.len();
        let mut env: Vec<(String, String)> = Vec::new();
        let mut k: usize = 0;
        while k < n
            invariant
                n == self.env@.len(),
                k <= n,
                env@.len() == k,
                forall|j: int|
                    0 <= j < k ==> env@[j].0@ == self.env@[j].0@ && env@[j].1@ == self.env@[j].1@,
            decreases n - k,
        {
            env.push((self.env[k].0.clone(), self.env[k].1.clone()));
            k += 1;
        }
        proof {
            assert(pairs(env@) =~= pairs(self.env@));
        }
        Invocation {
            program: self.program.clone(),
            args: copy_all(self.args.as_slice()),
            env,
            dir: copy_text(&self.dir),
            stdout: copy_stdout(&self.stdout),
        }
    }
}

} // verus!
