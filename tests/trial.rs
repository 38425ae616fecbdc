use cdetect::invocation::Invocation;
use cdetect::trial::{select_compiling_variant, trials_finished, variant_invocation};

fn strings(v: &[&str]) -> Vec<String> {
    v.iter().map(|s| s.to_string()).collect()
}

#[test]
fn second_variant_wins_when_only_it_compiles() {
    let stems = strings(&["a", "b"]);
    let outcomes = vec![false, true];
    assert!(!trials_finished(stems.len(), &outcomes[..1].to_vec()));
    assert!(trials_finished(stems.len(), &outcomes));
    assert_eq!(select_compiling_variant(&stems, &outcomes), Some("b".to_string()));
}

#[test]
fn first_success_stops_the_trials() {
    let stems = strings(&["a", "b", "c"]);
    assert!(trials_finished(stems.len(), &vec![true]));
    assert_eq!(select_compiling_variant(&stems, &vec![true]), Some("a".to_string()));
}

#[test]
fn no_candidates_means_no_trial() {
    let stems: Vec<String> = Vec::new();
    assert!(trials_finished(0, &vec![]));
    assert_eq!(select_compiling_variant(&stems, &vec![]), None);
}

#[test]
fn every_variant_failing_gives_none() {
    let stems = strings(&["a", "b"]);
    assert!(trials_finished(2, &vec![false, false]));
    assert_eq!(select_compiling_variant(&stems, &vec![false, false]), None);
}

#[test]
fn variant_command_line() {
    let mut base = Invocation::new("/usr/bin/cc".to_string());
    base.arg("-DX");
    let cmd = variant_invocation(
        base,
        "atomic",
        "_probe",
        "/src/dir",
        "/out/bin",
        &Some("  -O2\t-Wall ".to_string()),
        &Some("-lm".to_string()),
    );
    assert_eq!(cmd.program, "/usr/bin/cc");
    assert_eq!(
        cmd.args,
        strings(&[
            "-DX",
            "/src/dir/atomic_probe.c",
            "-o",
            "/out/bin/atomic_probe",
            "-O2",
            "-Wall",
            "-lm"
        ])
    );
}

#[test]
fn variant_command_line_without_flags() {
    let cmd = variant_invocation(
        Invocation::new("cc".to_string()),
        "a",
        "",
        "s",
        "b",
        &None,
        &Some("   ".to_string()),
    );
    assert_eq!(cmd.args, strings(&["s/a.c", "-o", "b/a"]));
}
