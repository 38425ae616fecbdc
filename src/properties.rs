//! Properties known about a C (or C++) compiler, and the record of which
//! language standards it was seen to accept.
use vstd::prelude::*;

use crate::invocation::{texts, Invocation};
use vstd::string::StringExecFns;

verus! {

/// Describes the command-line dialect of the C (or C++) compiler, if known.
#[derive(Copy, Clone, Debug, Hash, PartialEq, Eq, Structural)]
#[non_exhaustive]
pub enum CCFlavour {
    /// The dialect is not known, or could not be detected.
    Unknown,
    /// The dialect matches POSIX cc (such as gcc or clang).
    Cc,
    /// The dialect matches Microsoft cl.exe.
    Cl,
}

impl Default for CCFlavour {
    fn default() -> (r: CCFlavour)
        ensures
            r == CCFlavour::Unknown,
    {
        CCFlavour::Unknown
    }
}

/// Versions of the C (or C++) standards that a compiler may support.
#[derive(Copy, Clone, Debug, Hash, PartialEq, Eq, Structural)]
#[non_exhaustive]
pub enum CStandard {
    /// ANSI C (C89)
    C89,
    /// ISO C 95
    C95,
    /// ISO C 99
    C99,
    /// ISO C 11
    C11,
    /// ISO C 18
    C18,
    /// ISO C 2x
    C2x,
    /// ISO C++98
    Cxx98,
    /// ISO C++03
    Cxx03,
    /// ISO C++11
    Cxx11,
    /// ISO C++14
    Cxx14,
    /// ISO C++17
    Cxx17,
    /// ISO C++20
    Cxx20,
    /// ISO C++23
    Cxx2x,
    /// GNU C 89
    Gnu89,
    /// GNU C 95
    Gnu95,
    /// GNU C 99
    Gnu99,
    /// GNU C 11
    Gnu11,
    /// GNU C 18
    Gnu18,
    /// GNU C 2x
    Gnu2x,
    /// GNU C++ 98
    Gxx98,
    /// GNU C++ 03
    Gxx03,
    /// GNU C++ 11
    Gxx11,
    /// GNU C++ 14
    Gxx14,
    /// GNU C++ 17
    Gxx17,
    /// GNU C++ 20
    Gxx20,
    /// GNU C++ 23
    Gxx2x,
}

/// How many standards the probe tries.
pub const PROBE_COUNT: usize = 26;

/// The standards in the order in which the probe tries them: the ISO
/// standards first, then the GNU dialects, each family in chronological order.
pub open spec fn probe_order() -> Seq<CStandard> {
    seq![
        CStandard::C89,
        CStandard::C95,
        CStandard::C99,
        CStandard::C11,
        CStandard::C18,
        CStandard::C2x,
        CStandard::Cxx98,
        CStandard::Cxx03,
        CStandard::Cxx11,
        CStandard::Cxx14,
        CStandard::Cxx17,
        CStandard::Cxx20,
        CStandard::Cxx2x,
        CStandard::Gnu89,
        CStandard::Gnu95,
        CStandard::Gnu99,
        CStandard::Gnu11,
        CStandard::Gnu18,
        CStandard::Gnu2x,
        CStandard::Gxx98,
        CStandard::Gxx03,
        CStandard::Gxx11,
        CStandard::Gxx14,
        CStandard::Gxx17,
        CStandard::Gxx20,
        CStandard::Gxx2x,
    ]
}

/// Where a standard stands in `probe_order`.
pub open spec fn standard_index(s: CStandard) -> nat {
    match s {
        CStandard::C89 => 0,
        CStandard::C95 => 1,
        CStandard::C99 => 2,
        CStandard::C11 => 3,
        CStandard::C18 => 4,
        CStandard::C2x => 5,
        CStandard::Cxx98 => 6,
        CStandard::Cxx03 => 7,
        CStandard::Cxx11 => 8,
        CStandard::Cxx14 => 9,
        CStandard::Cxx17 => 10,
        CStandard::Cxx20 => 11,
        CStandard::Cxx2x => 12,
        CStandard::Gnu89 => 13,
        CStandard::Gnu95 => 14,
        CStandard::Gnu99 => 15,
        CStandard::Gnu11 => 16,
        CStandard::Gnu18 => 17,
        CStandard::Gnu2x => 18,
        CStandard::Gxx98 => 19,
        CStandard::Gxx03 => 20,
        CStandard::Gxx11 => 21,
        CStandard::Gxx14 => 22,
        CStandard::Gxx17 => 23,
        CStandard::Gxx20 => 24,
        CStandard::Gxx2x => 25,
    }
}

/// The text that follows `-std=` to ask for a standard.
pub open spec fn flag_text(s: CStandard) -> Seq<char> {
    match s {
        CStandard::C89 => "c89"@,
        CStandard::C95 => "c95"@,
        CStandard::C99 => "c99"@,
        CStandard::C11 => "c11"@,
        CStandard::C18 => "c18"@,
        CStandard::C2x => "c2x"@,
        CStandard::Cxx98 => "c++98"@,
        CStandard::Cxx03 => "c++03"@,
        CStandard::Cxx11 => "c++11"@,
        CStandard::Cxx14 => "c++14"@,
        CStandard::Cxx17 => "c++17"@,
        CStandard::Cxx20 => "c++20"@,
        CStandard::Cxx2x => "c++2x"@,
        CStandard::Gnu89 => "gnu89"@,
        CStandard::Gnu95 => "gnu95"@,
        CStandard::Gnu99 => "gnu99"@,
        CStandard::Gnu11 => "gnu11"@,
        CStandard::Gnu18 => "gnu18"@,
        CStandard::Gnu2x => "gnu2x"@,
        CStandard::Gxx98 => "g++98"@,
        CStandard::Gxx03 => "g++03"@,
        CStandard::Gxx11 => "g++11"@,
        CStandard::Gxx14 => "g++14"@,
        CStandard::Gxx17 => "g++17"@,
        CStandard::Gxx20 => "g++20"@,
        CStandard::Gxx2x => "g++2x"@,
    }
}

impl CStandard {
    /// The text that follows `-std=` to ask the compiler for this standard.
    pub fn flag(self) -> (r: &'static str)
        ensures
            r@ == flag_text(self),
    {
        match self {
            CStandard::C89 => "c89",
            CStandard::C95 => "c95",
            CStandard::C99 => "c99",
            CStandard::C11 => "c11",
            CStandard::C18 => "c18",
            CStandard::C2x => "c2x",
            CStandard::Cxx98 => "c++98",
            CStandard::Cxx03 => "c++03",
            CStandard::Cxx11 => "c++11",
            CStandard::Cxx14 => "c++14",
            CStandard::Cxx17 => "c++17",
            CStandard::Cxx20 => "c++20",
            CStandard::Cxx2x => "c++2x",
            CStandard::Gnu89 => "gnu89",
            CStandard::Gnu95 => "gnu95",
            CStandard::Gnu99 => "gnu99",
            CStandard::Gnu11 => "gnu11",
            CStandard::Gnu18 => "gnu18",
            CStandard::Gnu2x => "gnu2x",
            CStandard::Gxx98 => "g++98",
            CStandard::Gxx03 => "g++03",
            CStandard::Gxx11 => "g++11",
            CStandard::Gxx14 => "g++14",
            CStandard::Gxx17 => "g++17",
            CStandard::Gxx20 => "g++20",
            CStandard::Gxx2x => "g++2x",
        }
    }
}

/// The standard that the probe tries at position `i`.
pub fn probe_standard(i: usize) -> (r: CStandard)
    requires
        i < PROBE_COUNT,
    ensures
        r == probe_order()[i as int],
{
    match i {
        0 => CStandard::C89,
        1 => CStandard::C95,
        2 => CStandard::C99,
        3 => CStandard::C11,
        4 => CStandard::C18,
        5 => CStandard::C2x,
        6 => CStandard::Cxx98,
        7 => CStandard::Cxx03,
        8 => CStandard::Cxx11,
        9 => CStandard::Cxx14,
        10 => CStandard::Cxx17,
        11 => CStandard::Cxx20,
        12 => CStandard::Cxx2x,
        13 => CStandard::Gnu89,
        14 => CStandard::Gnu95,
        15 => CStandard::Gnu99,
        16 => CStandard::Gnu11,
        17 => CStandard::Gnu18,
        18 => CStandard::Gnu2x,
        19 => CStandard::Gxx98,
        20 => CStandard::Gxx03,
        21 => CStandard::Gxx11,
        22 => CStandard::Gxx14,
        23 => CStandard::Gxx17,
        24 => CStandard::Gxx20,
        _ => CStandard::Gxx2x,
    }
}

/// Relies on target_tuples::OwnedTarget, carried unread as the target that the
/// compiler produces code for.
#[verifier::external_type_specification]
#[verifier::external_body]
pub struct ExOwnedTarget(target_tuples::OwnedTarget);

/// Properties of the C (or C++) compiler.
#[derive(Clone, Debug, Hash, PartialEq, Eq, Default)]
pub struct CCompilerProperties {
    /// Absolute path to the compiler.
    pub path: String,
    /// Options that immediately follow the path on every invocation.
    pub extra_opts: Vec<String>,
    /// Flags passed to the compiler for the compile step.
    pub compile_flags: Vec<String>,
    /// Flags passed to the compiler for the link step, empty when it does not link.
    pub ld_flags: Vec<String>,
    /// The target that the compiler produces code for, if known.
    pub target: Option<target_tuples::OwnedTarget>,
    /// The command-line dialect of the compiler.
    pub flavour: CCFlavour,
    /// The standards that the compiler was seen to accept, in probe order.
    pub standard: Vec<CStandard>,
}

/// The standards recorded by a probe whose first `acc.len()` trials came out
/// as `acc` says (`true`: the compiler accepted the flag), in probe order.
pub open spec fn accepted_standards(acc: Seq<bool>) -> Seq<CStandard>
    decreases acc.len(),
{
    if acc.len() == 0 {
        seq![]
    } else {
        let before = accepted_standards(acc.drop_last());
        if acc.last() {
            before.push(probe_order()[acc.len() - 1])
        } else {
            before
        }
    }
}

/// Each position of the probe order holds the standard whose index it is.
proof fn lemma_probe_order_indexed(i: int)
    requires
        0 <= i < PROBE_COUNT,
    ensures
        standard_index(probe_order()[i]) == i,
{
    assert(probe_order().len() == PROBE_COUNT);
}

/// Every standard recorded after `acc.len()` trials stands in the probe order
/// before position `acc.len()`.
proof fn lemma_accepted_below(acc: Seq<bool>)
    requires
        acc.len() <= PROBE_COUNT,
    ensures
        forall|k: int|
            0 <= k < accepted_standards(acc).len() ==> standard_index(
                #[trigger] accepted_standards(acc)[k],
            ) < acc.len(),
    decreases acc.len(),
{
    if acc.len() > 0 {
        let before = accepted_standards(acc.drop_last());
        lemma_accepted_below(acc.drop_last());
        lemma_probe_order_indexed(acc.len() - 1);
        if acc.last() {
            let after = before.push(probe_order()[acc.len() - 1]);
            assert forall|k: int| 0 <= k < after.len() implies standard_index(
                #[trigger] after[k],
            ) < acc.len() by {
                if k < before.len() {
                    assert(after[k] == before[k]);
                }
            }
        }
    }
}

/// One probe run records no standard twice.
proof fn lemma_accepted_distinct(acc: Seq<bool>)
    requires
        acc.len() <= PROBE_COUNT,
    ensures
        accepted_standards(acc).no_duplicates(),
    decreases acc.len(),
{
    if acc.len() > 0 {
        let before = accepted_standards(acc.drop_last());
        lemma_accepted_distinct(acc.drop_last());
        lemma_accepted_below(acc.drop_last());
        lemma_probe_order_indexed(acc.len() - 1);
        if acc.last() {
            let s = probe_order()[acc.len() - 1];
            assert forall|j: int, k: int|
                0 <= j < k < before.push(s).len() implies before.push(s)[j] != before.push(
                    s,
                )[k] by {
                if k == before.len() {
                    assert(standard_index(before[j]) < acc.len() - 1);
                }
            }
        }
    }
}

/// A probe keeps every standard recorded before it, in place, and the
/// standards it adds are distinct from one another.
pub proof fn lemma_probe_keeps_and_never_repeats(before: Seq<CStandard>, acc: Seq<bool>)
    requires
        acc.len() <= PROBE_COUNT,
    ensures
        (before + accepted_standards(acc)).subrange(0, before.len() as int) == before,
        forall|s: CStandard| before.contains(s) ==> (before + accepted_standards(acc)).contains(s),
        accepted_standards(acc).no_duplicates(),
{
    lemma_accepted_distinct(acc);
    let after = before + accepted_standards(acc);
    assert(after.subrange(0, before.len() as int) =~= before);
    assert forall|s: CStandard| before.contains(s) implies after.contains(s) by {
        let j = choose|j: int| 0 <= j < before.len() && before[j] == s;
        assert(after[j] == s);
    }
}

/// The arguments of the trial of `standard` on `test_file`: the extra options,
/// the compile flags, `-c`, `-std=<flag>` and the file.
pub open spec fn probe_arg_texts(
    props: CCompilerProperties,
    standard: CStandard,
    test_file: Seq<char>,
) -> Seq<Seq<char>> {
    texts(props.extra_opts@) + texts(props.compile_flags@) + seq![
        "-c"@,
        "-std="@ + flag_text(standard),
        test_file,
    ]
}

/// The command that tries whether the compiler at `props.path` accepts
/// `standard` when it compiles `test_file`.
pub fn probe_invocation(props: &CCompilerProperties, standard: CStandard, test_file: &str) -> (r:
    Invocation)
    ensures
        r.program@ == props.path@,
        r.arg_texts() == probe_arg_texts(*props, standard, test_file@),
{
    let mut cmd = Invocation::new(props.path.clone());
    cmd.args_from(&props.extra_opts);
    cmd.args_from(&props.compile_flags);
    cmd.arg("-c");
    let mut std_arg = String::from_str("-std=");
    std_arg.append(standard.flag());
    cmd.arg(std_arg.as_str());
    cmd.arg(test_file);
    assert(cmd.arg_texts() =~= probe_arg_texts(*props, standard, test_file@));
    cmd
}

/// Records the outcome of a probe: the dialect is taken to be POSIX cc, and
/// each standard whose trial succeeded (`accepted[i]` for the standard at
/// position `i` of the probe order) is appended, in probe order. A probe cut
/// short hands over the outcomes of the trials that ran.
pub fn populate_properties(properties: &mut CCompilerProperties, accepted: &Vec<bool>)
    requires
        accepted@.len() <= PROBE_COUNT,
    ensures
        final(properties).flavour == CCFlavour::Cc,
        final(properties).standard@ == old(properties).standard@ + accepted_standards(accepted@),
        final(properties).path == old(properties).path,
        final(properties).extra_opts == old(properties).extra_opts,
        final(properties).compile_flags == old(properties).compile_flags,
        final(properties).ld_flags == old(properties).ld_flags,
        final(properties).target == old(properties).target,
{
    properties.flavour = CCFlavour::Cc;
    let ghost start = properties.standard@;
    let mut i: usize = 0;
    while i < accepted.len()
        invariant
            i <= accepted@.len() <= PROBE_COUNT,
            properties.standard@ == start + accepted_standards(accepted@.subrange(0, i as int)),
            properties.flavour == CCFlavour::Cc,
            properties.path == old(properties).path,
            properties.extra_opts == old(properties).extra_opts,
            properties.compile_flags == old(properties).compile_flags,
            properties.ld_flags == old(properties).ld_flags,
            properties.target == old(properties).target,
        decreases accepted@.len() - i,
    {
        proof {
            assert(accepted@.subrange(0, i + 1).drop_last() =~= accepted@.subrange(0, i as int));
        }
        if accepted[i] {
            properties.standard.push(probe_standard(i));
        }
        i += 1;
    }
    assert(accepted@.subrange(0, i as int) =~= accepted@);
}

/// The name of the scratch file that the probe compiles.
pub const PROBE_FILE_NAME: &'static str = "test.c";

/// The text of the scratch file: an empty `main`.
pub fn probe_source() -> (r: &'static str)
    ensures
        r@ == "int main(){}\n"@,
{
    "int main(){}\n"
}

/// What came of one attempt to create the scratch file exclusively.
#[derive(Copy, Clone, Debug, PartialEq, Eq, Structural)]
pub enum CreateOutcome {
    /// The file was created, and this probe alone holds it.
    Created,
    /// The file exists: another probe is using the same directory.
    AlreadyExists,
    /// Any other failure.
    Failed,
}

/// What a probe does next about the scratch file.
#[derive(Copy, Clone, Debug, PartialEq, Eq, Structural)]
pub enum CreateStep {
    /// Write the file and go on to the trials.
    Write,
    /// Wait a moment, then try to create it again.
    Retry,
    /// Give up and hand the failure to the caller.
    Abort,
}

/// The next step after an attempt to create the scratch file: a file held by
/// another probe is waited for, never reported as an error; any other failure
/// ends the probe.
pub fn next_create_step(outcome: CreateOutcome) -> (r: CreateStep)
    ensures
        r == match outcome {
            CreateOutcome::Created => CreateStep::Write,
            CreateOutcome::AlreadyExists => CreateStep::Retry,
            CreateOutcome::Failed => CreateStep::Abort,
        },
{
    match outcome {
        CreateOutcome::Created => CreateStep::Write,
        CreateOutcome::AlreadyExists => CreateStep::Retry,
        CreateOutcome::Failed => CreateStep::Abort,
    }
}

} // verus!
