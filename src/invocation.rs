//! A compiler invocation: the program to run and its arguments, in order.
use vstd::prelude::*;

use vstd::string::StringExecFns;

verus! {

/// The text of each string of a sequence.
pub open spec fn texts(v: Seq<String>) -> Seq<Seq<char>> {
    v.map_values(|s: String| s@)
}

/// A command line that runs a compiler.
#[derive(Clone, Debug, PartialEq, Eq)]
pub struct Invocation {
    /// The path of the executable to run.
    pub program: String,
    /// The arguments handed to it, in order.
    pub args: Vec<String>,
}

impl Invocation {
    /// The text of each argument.
    pub open spec fn arg_texts(&self) -> Seq<Seq<char>> {
        texts(self.args@)
    }

    /// An invocation of `program` with no arguments.
    pub fn new(program: String) -> (r: Invocation)
        ensures
            r.program == program,
            r.args@.len() == 0,
    {
        Invocation { program, args: Vec::new() }
    }

    /// Appends one argument.
    pub fn arg(&mut self, a: &str)
        ensures
            final(self).program == old(self).program,
            final(self).args@ == old(self).args@.push(final(self).args@.last()),
            final(self).args@.last()@ == a@,
    {
        self.args.push(String::from_str(a));
    }

    /// Appends a copy of each argument of `more`, in order.
    pub fn args_from(&mut self, more: &Vec<String>)
        ensures
            final(self).program == old(self).program,
            final(self).args@ == old(self).args@ + more@,
    {
        push_all(&mut self.args, more);
    }
}

/// Appends a copy of each string of `src` to `dst`, in order.
pub fn push_all(dst: &mut Vec<String>, src: &Vec<String>)
    ensures
        final(dst)@ == old(dst)@ + src@,
{
    let ghost start = dst@;
    let mut i: usize = 0;
    while i < src.len()
        invariant
            i <= src@.len(),
            dst@ == start + src@.subrange(0, i as int),
        decreases src@.len() - i,
    {
        dst.push(src[i].clone());
        i += 1;
    }
    assert(src@.subrange(0, i as int) == src@);
}

} // verus!
