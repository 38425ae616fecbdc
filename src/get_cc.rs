//! Finding the C compiler, and preparing a command that runs it for the
//! configured target.
use vstd::prelude::*;

use crate::invocation::{texts, Invocation};
use vstd::string::{StrSliceExecFns, StringExecFns};

verus! {

/// What the surroundings tell about the compiler to use: an explicit compiler
/// (`CC`), and the platforms that the build runs on (`HOST`) and produces
/// code for (`TARGET`).
#[derive(Clone, Debug, PartialEq, Eq, Default)]
pub struct CcEnv {
    /// An explicit compiler: an absolute path, or a name to look up.
    pub cc: Option<String>,
    /// The platform that the build runs on, if known.
    pub host: Option<String>,
    /// The platform that the build produces code for, if known.
    pub target: Option<String>,
}

/// The target when the build cross-compiles for it: both platforms are known
/// and they differ.
pub open spec fn cross_target(env: CcEnv) -> Option<Seq<char>> {
    if env.host is Some && env.target is Some && env.host->0@ != env.target->0@ {
        Some(env.target->0@)
    } else {
        None
    }
}

/// The target that a command must be told of: one is configured, and it is
/// not the host.
pub open spec fn configured_target(env: CcEnv) -> Option<Seq<char>> {
    if env.target is Some && (env.host is None || env.host->0@ != env.target->0@) {
        Some(env.target->0@)
    } else {
        None
    }
}

/// The names under which the compiler is looked for, in order of preference.
pub open spec fn candidate_texts(env: CcEnv) -> Seq<Seq<char>> {
    match cross_target(env) {
        Some(t) => seq![t + "-cc"@, "clang"@, "lccc"@, t + "-gcc"@],
        None => seq!["cc"@, "clang"@, "lccc"@, "gcc"@],
    }
}

/// `p` is a prefix of `s`.
pub open spec fn is_prefix_of(p: Seq<char>, s: Seq<char>) -> bool {
    p.len() <= s.len() && s.subrange(0, p.len() as int) == p
}

/// The target to name on the command line of a compiler whose file name is
/// `file_name`: none where the file name already starts with it.
pub open spec fn target_to_inject(env: CcEnv, file_name: Option<Seq<char>>) -> Option<Seq<char>> {
    match configured_target(env) {
        Some(t) => if file_name is Some && is_prefix_of(t, file_name->0) {
            None
        } else {
            Some(t)
        },
        None => None,
    }
}

/// The arguments that name the target on such a command line.
pub open spec fn target_args(env: CcEnv, file_name: Option<Seq<char>>) -> Seq<Seq<char>> {
    match target_to_inject(env, file_name) {
        Some(t) => seq!["--target"@, t],
        None => seq![],
    }
}

/// The text of an optional string.
pub open spec fn opt_text(o: Option<String>) -> Option<Seq<char>> {
    match o {
        Some(s) => Some(s@),
        None => None,
    }
}

/// Whether a path is absolute on this platform.
pub uninterp spec fn is_absolute_path(p: Seq<char>) -> bool;

/// The last component of a path, if it has one that is a name.
pub uninterp spec fn path_file_name(p: Seq<char>) -> Option<Seq<char>>;

/// Relies on std::path::Path::is_absolute, to tell whether a path is absolute.
#[verifier::external_body]
fn path_is_absolute(p: &str) -> (r: bool)
    ensures
        r == is_absolute_path(p@),
{
    std::path::Path::new(p).is_absolute()
}

/// Relies on std::path::Path::file_name, for the last component of a path.
#[verifier::external_body]
fn file_name_of(p: &str) -> (r: Option<String>)
    ensures
        r is Some == path_file_name(p@) is Some,
        r is Some ==> r->0@ == path_file_name(p@)->0,
{
    std::path::Path::new(p).file_name().map(|n| n.to_string_lossy().into_owned())
}

/// Whether `prefix` begins `s`.
fn text_starts_with(s: &str, prefix: &str) -> (r: bool)
    ensures
        r == is_prefix_of(prefix@, s@),
{
    let n = prefix.unicode_len();
    if n > s.unicode_len() {
        return false;
    }
    let mut i: usize = 0;
    while i < n
        invariant
            n == prefix@.len() <= s@.len(),
            i <= n,
            s@.subrange(0, i as int) == prefix@.subrange(0, i as int),
        decreases n - i,
    {
        if s.get_char(i) != prefix.get_char(i) {
            assert(s@.subrange(0, n as int)[i as int] != prefix@[i as int]);
            return false;
        }
        assert(s@.subrange(0, i + 1) =~= s@.subrange(0, i as int).push(s@[i as int]));
        assert(prefix@.subrange(0, i + 1) =~= prefix@.subrange(0, i as int).push(prefix@[i as int]));
        i += 1;
    }
    assert(prefix@.subrange(0, n as int) =~= prefix@);
    true
}

/// Relies on which::which, which looks an executable up by name on the
/// search path (or checks a path given with its directory). What it finds
/// depends on the file system, so nothing is stated of it.
#[verifier::external_body]
fn which_path(name: &str) -> (r: Option<String>) {
    match which::which(name) {
        Ok(p) => Some(p.to_string_lossy().into_owned()),
        Err(_) => None,
    }
}

/// The names under which the compiler is looked for, in order: when
/// cross-compiling `<target>-cc`, `clang`, `lccc`, `<target>-gcc`; otherwise
/// `cc`, `clang`, `lccc`, `gcc`.
pub fn candidate_names(env: &CcEnv) -> (r: Vec<String>)
    ensures
        texts(r@) == candidate_texts(*env),
{
    let cross: Option<&String> = match (&env.host, &env.target) {
        (Some(h), Some(t)) => if *h != *t {
            Some(t)
        } else {
            None
        },
        _ => None,
    };
    let mut names: Vec<String> = Vec::new();
    match cross {
        Some(t) => {
            let mut cc = t.clone();
            cc.append("-cc");
            let mut gcc = t.clone();
            gcc.append("-gcc");
            names.push(cc);
            names.push(String::from_str("clang"));
            names.push(String::from_str("lccc"));
            names.push(gcc);
        },
        None => {
            names.push(String::from_str("cc"));
            names.push(String::from_str("clang"));
            names.push(String::from_str("lccc"));
            names.push(String::from_str("gcc"));
        },
    }
    assert(texts(names@) =~= candidate_texts(*env));
    names
}

/// When cross-compiling, the first name looked for is the target followed by
/// `-cc`, ahead of every name that does not carry the target.
pub proof fn lemma_cross_candidates_target_first(env: CcEnv)
    requires
        cross_target(env) is Some,
    ensures
        candidate_texts(env)[0] == cross_target(env)->0 + "-cc"@,
        is_prefix_of(cross_target(env)->0, candidate_texts(env)[0]),
{
    let t = cross_target(env)->0;
    assert((t + "-cc"@).subrange(0, t.len() as int) =~= t);
}

/// The first lookup that found something, if any.
pub open spec fn first_found(found: Seq<Option<String>>) -> Option<String>
    decreases found.len(),
{
    if found.len() == 0 {
        None
    } else if found[0] is Some {
        found[0]
    } else {
        first_found(found.drop_first())
    }
}

/// A search over `name_count` names that stopped where it should: each lookup
/// but the last found nothing, and the last found something or was the one
/// of the last name.
pub open spec fn search_stopped(name_count: nat, found: Seq<Option<String>>) -> bool {
    &&& found.len() <= name_count
    &&& forall|j: int| 0 <= j < found.len() - 1 ==> (#[trigger] found[j]) is None
    &&& found.len() == name_count || (found.len() > 0 && found.last() is Some)
}

/// The names that a discovery looks up, in order, stopping at the first that
/// is found: none for an absolute explicit compiler, its own name for another
/// explicit compiler, and `candidate_texts` without one.
pub open spec fn lookup_names(env: CcEnv) -> Seq<Seq<char>> {
    match env.cc {
        Some(cc) => if is_absolute_path(cc@) {
            seq![]
        } else {
            seq![cc@]
        },
        None => candidate_texts(env),
    }
}

/// `found` holds what the lookups of a whole discovery returned: the lookup
/// at position `i` is that of `lookup_names(env)[i]`.
pub open spec fn discovery_trace(env: CcEnv, found: Seq<Option<String>>) -> bool {
    search_stopped(lookup_names(env).len(), found)
}

/// What a discovery returns, given what its lookups returned: an absolute
/// explicit compiler as it is, and otherwise the first lookup that found
/// something.
pub open spec fn discovery_outcome(env: CcEnv, found: Seq<Option<String>>) -> Option<String> {
    if env.cc is Some && is_absolute_path(env.cc->0@) {
        env.cc
    } else {
        first_found(found)
    }
}

/// Whether a search over `name_count` names is over: a lookup found
/// something, or every name was looked up.
pub fn lookups_finished(name_count: usize, found: &Vec<Option<String>>) -> (r: bool)
    ensures
        r == (found@.len() >= name_count || exists|i: int|
            0 <= i < found@.len() && found@[i] is Some),
{
    if found.len() >= name_count {
        return true;
    }
    let mut i: usize = 0;
    while i < found.len()
        invariant
            i <= found@.len(),
            forall|j: int| 0 <= j < i ==> found@[j] is None,
        decreases found@.len() - i,
    {
        if found[i].is_some() {
            return true;
        }
        i += 1;
    }
    false
}

/// The first of the lookups, in order, that found something.
pub fn select_found(found: &Vec<Option<String>>) -> (r: Option<String>)
    ensures
        r == first_found(found@),
{
    let mut i: usize = 0;
    assert(found@.subrange(0, found@.len() as int) =~= found@);
    while i < found.len()
        invariant
            i <= found@.len(),
            first_found(found@) == first_found(found@.subrange(i as int, found@.len() as int)),
        decreases found@.len() - i,
    {
        proof {
            assert(found@.subrange(i as int, found@.len() as int).drop_first() =~= found@.subrange(
                i + 1,
                found@.len() as int,
            ));
        }
        match &found[i] {
            Some(p) => {
                return Some(p.clone());
            },
            None => {},
        }
        i += 1;
    }
    None
}

/// The names that a discovery looks up, as `lookup_names` gives them.
fn lookup_list(env: &CcEnv) -> (r: Vec<String>)
    ensures
        texts(r@) == lookup_names(*env),
{
    match &env.cc {
        Some(cc) => {
            let mut names: Vec<String> = Vec::new();
            if !path_is_absolute(cc.as_str()) {
                names.push(cc.clone());
            }
            assert(texts(names@) =~= lookup_names(*env));
            names
        },
        None => candidate_names(env),
    }
}

/// The name that a discovery looks up next, given what its lookups so far
/// returned (`found[i]` for `lookup_names(env)[i]`): the next of
/// `lookup_names`, or `None` once one was found or all were looked up.
pub fn next_lookup(env: &CcEnv, found: &Vec<Option<String>>) -> (r: Option<String>)
    ensures
        r is None <==> (found@.len() >= lookup_names(*env).len() || exists|i: int|
            0 <= i < found@.len() && found@[i] is Some),
        r is Some ==> r->0@ == lookup_names(*env)[found@.len() as int],
{
    let names = lookup_list(env);
    if lookups_finished(names.len(), found) {
        None
    } else {
        Some(names[found.len()].clone())
    }
}

/// What a discovery returns, given what its lookups returned.
pub fn discovery_result(env: &CcEnv, found: &Vec<Option<String>>) -> (r: Option<String>)
    ensures
        r == discovery_outcome(*env, found@),
{
    match &env.cc {
        Some(cc) => {
            if path_is_absolute(cc.as_str()) {
                return Some(cc.clone());
            }
        },
        None => {},
    }
    select_found(found)
}

/// Finds the compiler. An explicit compiler is used as it is when its path is
/// absolute, and looked up otherwise, with no other name tried. Without one,
/// the names of `candidate_names` are looked up in order until one is found;
/// the first found is used, and `None` comes when none is. Each lookup is of
/// the name that `next_lookup` gives.
pub fn find_cc(env: &CcEnv) -> (r: Option<String>)
    ensures
        env.cc is Some && is_absolute_path(env.cc->0@) ==> r == env.cc,
        exists|found: Seq<Option<String>>|
            #[trigger] discovery_trace(*env, found) && r == discovery_outcome(*env, found),
{
    let mut found: Vec<Option<String>> = Vec::new();
    loop
        invariant
            found@.len() <= lookup_names(*env).len(),
            forall|j: int| 0 <= j < found@.len() - 1 ==> (#[trigger] found@[j]) is None,
            found@.len() > 0 && found@.last() is None ==> forall|j: int|
                0 <= j < found@.len() ==> (#[trigger] found@[j]) is None,
        ensures
            found@.len() <= lookup_names(*env).len(),
            forall|j: int| 0 <= j < found@.len() - 1 ==> (#[trigger] found@[j]) is None,
            found@.len() >= lookup_names(*env).len() || exists|i: int|
                0 <= i < found@.len() && found@[i] is Some,
        decreases lookup_names(*env).len() - found@.len(),
    {
        match next_lookup(env, &found) {
            Some(name) => {
                let hit = which_path(name.as_str());
                found.push(hit);
            },
            None => {
                break ;
            },
        }
    }
    proof {
        if found@.len() < lookup_names(*env).len() {
            let i = choose|i: int| 0 <= i < found@.len() && found@[i] is Some;
            assert(i == found@.len() - 1);
        }
    }
    assert(discovery_trace(*env, found@));
    discovery_result(env, &found)
}

/// The target to name on the command line of a compiler whose file name is
/// `file_name`, if any.
pub fn injected_target(env: &CcEnv, file_name: &Option<String>) -> (r: Option<String>)
    ensures
        r is Some == target_to_inject(*env, opt_text(*file_name)) is Some,
        r is Some ==> r->0@ == target_to_inject(*env, opt_text(*file_name))->0,
{
    match &env.target {
        Some(t) => {
            let differs = match &env.host {
                Some(h) => *h != *t,
                None => true,
            };
            if !differs {
                return None;
            }
            match file_name {
                Some(n) => {
                    if text_starts_with(n.as_str(), t.as_str()) {
                        None
                    } else {
                        Some(t.clone())
                    }
                },
                None => Some(t.clone()),
            }
        },
        None => None,
    }
}

/// The target is named at most once: a compiler whose file name already
/// starts with the configured target gets no `--target`, and any other gets
/// exactly `--target <target>`.
pub proof fn lemma_target_named_once(env: CcEnv, file_name: Option<Seq<char>>)
    requires
        configured_target(env) is Some,
    ensures
        file_name is Some && is_prefix_of(configured_target(env)->0, file_name->0) ==> target_args(
            env,
            file_name,
        ) == Seq::<Seq<char>>::empty(),
        !(file_name is Some && is_prefix_of(configured_target(env)->0, file_name->0))
            ==> target_args(env, file_name) == seq!["--target"@, configured_target(env)->0],
{
}

/// Names the target on the command line `cmd` of the compiler at `path` when
/// the build cross-compiles: appends `--target <target>`, unless the file name
/// of the compiler already starts with the target.
pub fn add_cc_target(cmd: &mut Invocation, env: &CcEnv, path: &str)
    ensures
        final(cmd).program == old(cmd).program,
        final(cmd).arg_texts() == old(cmd).arg_texts() + target_args(*env, path_file_name(path@)),
{
    let name = file_name_of(path);
    assert(opt_text(name) == path_file_name(path@));
    match injected_target(env, &name) {
        Some(t) => {
            cmd.arg("--target");
            cmd.arg(t.as_str());
        },
        None => {},
    }
    assert(cmd.arg_texts() =~= old(cmd).arg_texts() + target_args(*env, path_file_name(path@)));
}

/// The command that runs the compiler found at `found`, with the target named
/// on it as `add_cc_target` does; `None` where no compiler was found.
pub fn command_for(env: &CcEnv, found: Option<String>) -> (r: Option<Invocation>)
    ensures
        r is Some <==> found is Some,
        r is Some ==> r->0.program == found->0 && r->0.arg_texts() == target_args(
            *env,
            path_file_name(found->0@),
        ),
{
    match found {
        Some(path) => {
            let mut cmd = Invocation::new(path.clone());
            assert(cmd.arg_texts() =~= seq![]);
            add_cc_target(&mut cmd, env, path.as_str());
            assert(cmd.arg_texts() =~= target_args(*env, path_file_name(path@)));
            Some(cmd)
        },
        None => None,
    }
}

/// A command that runs the compiler that `find_cc` finds, with the target
/// named on it as `add_cc_target` does; `None` where no compiler is found.
pub fn prepare_cc(env: &CcEnv) -> (r: Option<Invocation>)
    ensures
        env.cc is Some && is_absolute_path(env.cc->0@) ==> r is Some && r->0.program
            == env.cc->0,
        exists|found: Seq<Option<String>>|
            #[trigger] discovery_trace(*env, found) && match discovery_outcome(*env, found) {
                Some(p) => r is Some && r->0.program == p && r->0.arg_texts() == target_args(
                    *env,
                    path_file_name(p@),
                ),
                None => r is None,
            },
{
    let found_cc = find_cc(env);
    let ghost trace = choose|f: Seq<Option<String>>|
        #[trigger] discovery_trace(*env, f) && found_cc == discovery_outcome(*env, f);
    assert(discovery_trace(*env, trace));
    command_for(env, found_cc)
}

} // verus!
