//! Trial compilation: picking the first of several source variants that the
//! compiler accepts.
use vstd::prelude::*;

use crate::invocation::{texts, Invocation};
use vstd::string::StringExecFns;

verus! {

/// The words of a string, as split at whitespace.
pub uninterp spec fn whitespace_words(s: Seq<char>) -> Seq<Seq<char>>;

/// Relies on str::split_whitespace, to break a flag string into flags.
#[verifier::external_body]
fn split_words(s: &str) -> (r: Vec<String>)
    ensures
        texts(r@) == whitespace_words(s@),
{
    s.split_whitespace().map(|w| w.to_string()).collect()
}

/// The flags of an optional flag string; none when it is absent.
pub open spec fn flag_words(flags: Option<String>) -> Seq<Seq<char>> {
    match flags {
        Some(f) => whitespace_words(f@),
        None => seq![],
    }
}

/// The source of a variant: `<source_dir>/<stem><tag>.c`.
pub open spec fn variant_source(source_dir: Seq<char>, stem: Seq<char>, tag: Seq<char>) -> Seq<
    char,
> {
    source_dir + "/"@ + stem + tag + ".c"@
}

/// The binary of a variant: `<bin_dir>/<stem><tag>`.
pub open spec fn variant_binary(bin_dir: Seq<char>, stem: Seq<char>, tag: Seq<char>) -> Seq<char> {
    bin_dir + "/"@ + stem + tag
}

/// Appends the words of an optional flag string to `cmd`.
fn add_flag_words(cmd: &mut Invocation, flags: &Option<String>)
    ensures
        final(cmd).program == old(cmd).program,
        final(cmd).arg_texts() == old(cmd).arg_texts() + flag_words(*flags),
{
    match flags {
        Some(f) => {
            let words = split_words(f.as_str());
            cmd.args_from(&words);
        },
        None => {},
    }
    assert(cmd.arg_texts() =~= old(cmd).arg_texts() + flag_words(*flags));
}

/// The command that compiles one variant: `cmd` (the prepared and customised
/// compiler command) followed by the source, `-o` and the binary, then the
/// words of the compile flags and of the link flags.
pub fn variant_invocation(
    cmd: Invocation,
    stem: &str,
    tag: &str,
    source_dir: &str,
    bin_dir: &str,
    cflags: &Option<String>,
    ldflags: &Option<String>,
) -> (r: Invocation)
    ensures
        r.program == cmd.program,
        r.arg_texts() == cmd.arg_texts() + seq![
            variant_source(source_dir@, stem@, tag@),
            "-o"@,
            variant_binary(bin_dir@, stem@, tag@),
        ] + flag_words(*cflags) + flag_words(*ldflags),
{
    let mut source = String::from_str(source_dir);
    source.append("/");
    source.append(stem);
    source.append(tag);
    source.append(".c");
    let mut binary = String::from_str(bin_dir);
    binary.append("/");
    binary.append(stem);
    binary.append(tag);
    let mut r = cmd;
    let ghost base = r.arg_texts();
    r.arg(source.as_str());
    r.arg("-o");
    r.arg(binary.as_str());
    assert(r.arg_texts() =~= base + seq![
        variant_source(source_dir@, stem@, tag@),
        "-o"@,
        variant_binary(bin_dir@, stem@, tag@),
    ]);
    add_flag_words(&mut r, cflags);
    add_flag_words(&mut r, ldflags);
    r
}

/// Whether the trials are over: one succeeded, or every stem was tried.
pub fn trials_finished(stem_count: usize, outcomes: &Vec<bool>) -> (r: bool)
    ensures
        r == (outcomes@.len() >= stem_count || exists|i: int|
            0 <= i < outcomes@.len() && outcomes@[i]),
{
    if outcomes.len() >= stem_count {
        return true;
    }
    let mut i: usize = 0;
    while i < outcomes.len()
        invariant
            i <= outcomes@.len(),
            forall|j: int| 0 <= j < i ==> !outcomes@[j],
        decreases outcomes@.len() - i,
    {
        if outcomes[i] {
            return true;
        }
        i += 1;
    }
    false
}

/// The stem of the first variant that compiled, given the outcomes of the
/// trials that ran (`outcomes[i]` for `stems[i]`, tried in order).
pub fn select_compiling_variant(stems: &Vec<String>, outcomes: &Vec<bool>) -> (r: Option<String>)
    requires
        outcomes@.len() <= stems@.len(),
    ensures
        r is Some <==> exists|i: int| 0 <= i < outcomes@.len() && outcomes@[i],
        r is Some ==> exists|i: int|
            0 <= i < outcomes@.len() && outcomes@[i] && r->0 == stems@[i] && forall|j: int|
                0 <= j < i ==> !outcomes@[j],
{
    let mut i: usize = 0;
    while i < outcomes.len()
        invariant
            i <= outcomes@.len() <= stems@.len(),
            forall|j: int| 0 <= j < i ==> !outcomes@[j],
        decreases outcomes@.len() - i,
    {
        if outcomes[i] {
            return Some(stems[i].clone());
        }
        i += 1;
    }
    None
}

} // verus!
