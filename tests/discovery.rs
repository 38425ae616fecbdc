use cdetect::get_cc::{
    add_cc_target, candidate_names, command_for, discovery_result, find_cc, injected_target,
    lookups_finished, next_lookup, prepare_cc, select_found, CcEnv,
};
use cdetect::invocation::Invocation;

fn env(cc: Option<&str>, host: Option<&str>, target: Option<&str>) -> CcEnv {
    CcEnv {
        cc: cc.map(|s| s.to_string()),
        host: host.map(|s| s.to_string()),
        target: target.map(|s| s.to_string()),
    }
}

fn strings(v: &[&str]) -> Vec<String> {
    v.iter().map(|s| s.to_string()).collect()
}

#[test]
fn absolute_override_is_used_as_it_is() {
    let e = env(Some("/no/such/dir/my-cc"), Some("x86_64-linux-gnu"), Some("aarch64-linux-gnu"));
    assert_eq!(find_cc(&e), Some("/no/such/dir/my-cc".to_string()));
}

#[test]
fn unresolvable_override_finds_nothing() {
    let e = env(Some("no-such-compiler-name-at-all"), None, None);
    assert_eq!(find_cc(&e), None);
}

#[test]
fn cross_candidates_put_the_target_first() {
    let e = env(None, Some("x86_64-linux-gnu"), Some("aarch64-linux-gnu"));
    assert_eq!(
        candidate_names(&e),
        strings(&["aarch64-linux-gnu-cc", "clang", "lccc", "aarch64-linux-gnu-gcc"])
    );
}

#[test]
fn native_candidates() {
    let same = env(None, Some("x86_64-linux-gnu"), Some("x86_64-linux-gnu"));
    assert_eq!(candidate_names(&same), strings(&["cc", "clang", "lccc", "gcc"]));
    let none = env(None, None, None);
    assert_eq!(candidate_names(&none), strings(&["cc", "clang", "lccc", "gcc"]));
    let host_unknown = env(None, None, Some("aarch64-linux-gnu"));
    assert_eq!(candidate_names(&host_unknown), strings(&["cc", "clang", "lccc", "gcc"]));
}

#[test]
fn target_flag_added_for_an_untagged_compiler() {
    let e = env(None, Some("x86_64-linux-gnu"), Some("aarch64-linux-gnu"));
    let mut cmd = Invocation::new("/usr/bin/clang".to_string());
    add_cc_target(&mut cmd, &e, "/usr/bin/clang");
    assert_eq!(cmd.program, "/usr/bin/clang");
    assert_eq!(cmd.args, strings(&["--target", "aarch64-linux-gnu"]));
}

#[test]
fn target_flag_not_repeated_for_a_tagged_compiler() {
    let e = env(None, Some("x86_64-linux-gnu"), Some("aarch64-linux-gnu"));
    let mut cmd = Invocation::new("/usr/bin/aarch64-linux-gnu-gcc".to_string());
    cmd.arg("-v");
    add_cc_target(&mut cmd, &e, "/usr/bin/aarch64-linux-gnu-gcc");
    assert_eq!(cmd.args, strings(&["-v"]));
}

#[test]
fn target_flag_absent_when_native() {
    let e = env(None, Some("x86_64-linux-gnu"), Some("x86_64-linux-gnu"));
    let mut cmd = Invocation::new("/usr/bin/cc".to_string());
    add_cc_target(&mut cmd, &e, "/usr/bin/cc");
    assert!(cmd.args.is_empty());
    let no_target = env(None, Some("x86_64-linux-gnu"), None);
    add_cc_target(&mut cmd, &no_target, "/usr/bin/cc");
    assert!(cmd.args.is_empty());
}

#[test]
fn target_flag_added_when_host_unknown() {
    let e = env(None, None, Some("aarch64-linux-gnu"));
    let mut cmd = Invocation::new("/usr/bin/cc".to_string());
    add_cc_target(&mut cmd, &e, "/usr/bin/cc");
    assert_eq!(cmd.args, strings(&["--target", "aarch64-linux-gnu"]));
}

#[test]
fn injected_target_by_file_name() {
    let e = env(None, Some("x86_64-linux-gnu"), Some("aarch64-linux-gnu"));
    assert_eq!(injected_target(&e, &None), Some("aarch64-linux-gnu".to_string()));
    assert_eq!(
        injected_target(&e, &Some("aarch64-linux-gnu-cc".to_string())),
        None
    );
    assert_eq!(
        injected_target(&e, &Some("gcc".to_string())),
        Some("aarch64-linux-gnu".to_string())
    );
}

#[test]
fn prepared_command_for_an_absolute_override() {
    let e = env(Some("/opt/cross/bin/cc"), Some("x86_64-linux-gnu"), Some("riscv64gc-unknown-linux-gnu"));
    let cmd = prepare_cc(&e).expect("an absolute override is always used");
    assert_eq!(cmd.program, "/opt/cross/bin/cc");
    assert_eq!(cmd.args, strings(&["--target", "riscv64gc-unknown-linux-gnu"]));
}

fn found(v: &[Option<&str>]) -> Vec<Option<String>> {
    v.iter().map(|o| o.map(|s| s.to_string())).collect()
}

#[test]
fn first_found_compiler_is_used() {
    let f = found(&[None, Some("/usr/bin/clang"), Some("/usr/bin/lccc")]);
    assert_eq!(select_found(&f), Some("/usr/bin/clang".to_string()));
    let tagged = found(&[Some("/usr/bin/aarch64-linux-gnu-cc"), Some("/usr/bin/clang")]);
    assert_eq!(select_found(&tagged), Some("/usr/bin/aarch64-linux-gnu-cc".to_string()));
}

#[test]
fn nothing_found_gives_none() {
    assert_eq!(select_found(&found(&[None, None, None, None])), None);
    assert_eq!(select_found(&found(&[])), None);
}

#[test]
fn search_stops_at_the_first_hit() {
    assert!(!lookups_finished(4, &found(&[])));
    assert!(!lookups_finished(4, &found(&[None, None])));
    assert!(lookups_finished(4, &found(&[None, Some("/usr/bin/clang")])));
    assert!(lookups_finished(4, &found(&[None, None, None, None])));
    assert!(lookups_finished(0, &found(&[])));
}

#[test]
fn lookups_follow_the_cross_candidates() {
    let e = env(None, Some("x86_64-linux-gnu"), Some("aarch64-linux-gnu"));
    assert_eq!(next_lookup(&e, &found(&[])), Some("aarch64-linux-gnu-cc".to_string()));
    assert_eq!(next_lookup(&e, &found(&[None])), Some("clang".to_string()));
    assert_eq!(next_lookup(&e, &found(&[None, None, None])), Some("aarch64-linux-gnu-gcc".to_string()));
    assert_eq!(next_lookup(&e, &found(&[None, None, None, None])), None);
    assert_eq!(next_lookup(&e, &found(&[Some("/usr/bin/aarch64-linux-gnu-cc")])), None);
}

#[test]
fn lookups_follow_the_native_candidates_when_host_unknown() {
    let e = env(None, None, Some("aarch64-linux-gnu"));
    assert_eq!(next_lookup(&e, &found(&[])), Some("cc".to_string()));
    assert_eq!(next_lookup(&e, &found(&[None, None, None])), Some("gcc".to_string()));
}

#[test]
fn relative_override_is_the_only_lookup() {
    let e = env(Some("my-cc"), Some("x86_64-linux-gnu"), Some("aarch64-linux-gnu"));
    assert_eq!(next_lookup(&e, &found(&[])), Some("my-cc".to_string()));
    assert_eq!(next_lookup(&e, &found(&[None])), None);
    assert_eq!(discovery_result(&e, &found(&[None])), None);
    assert_eq!(
        discovery_result(&e, &found(&[Some("/opt/bin/my-cc")])),
        Some("/opt/bin/my-cc".to_string())
    );
}

#[test]
fn absolute_override_needs_no_lookup() {
    let e = env(Some("/opt/bin/my-cc"), None, None);
    assert_eq!(next_lookup(&e, &found(&[])), None);
    assert_eq!(discovery_result(&e, &found(&[])), Some("/opt/bin/my-cc".to_string()));
}

#[test]
fn search_result_is_the_first_hit() {
    let e = env(None, Some("x86_64-linux-gnu"), Some("x86_64-linux-gnu"));
    assert_eq!(
        discovery_result(&e, &found(&[None, None, Some("/usr/bin/lccc")])),
        Some("/usr/bin/lccc".to_string())
    );
    assert_eq!(discovery_result(&e, &found(&[None, None, None, None])), None);
}

#[test]
fn command_for_the_found_compiler() {
    let e = env(None, Some("x86_64-linux-gnu"), Some("aarch64-linux-gnu"));
    assert!(command_for(&e, None).is_none());
    let cmd = command_for(&e, Some("/usr/bin/clang".to_string())).unwrap();
    assert_eq!(cmd.program, "/usr/bin/clang");
    assert_eq!(cmd.args, strings(&["--target", "aarch64-linux-gnu"]));
    let tagged = command_for(&e, Some("/usr/bin/aarch64-linux-gnu-cc".to_string())).unwrap();
    assert!(tagged.args.is_empty());
}
