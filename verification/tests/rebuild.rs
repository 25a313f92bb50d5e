use selfbuild::{
    rebuild, rebuild_edition, rebuild_edition_args, CompilerInvocation, Idle, LogLevel, Rebuild, Rebuilding,
    Respawning, RustEdition,
};

fn strings(items: &[&str]) -> Vec<String> {
    items.iter().map(|s| s.to_string()).collect()
}

fn idle_of(state: Rebuild) -> Idle {
    match state {
        Rebuild::Idle(idle) => idle,
        other => panic!("expected Idle, got {:?}", other),
    }
}

fn rebuilding_of(state: Rebuild) -> Rebuilding {
    match state {
        Rebuild::Rebuilding(rebuilding) => rebuilding,
        other => panic!("expected Rebuilding, got {:?}", other),
    }
}

fn respawning_of(state: Rebuild) -> Respawning {
    match state {
        Rebuild::Respawning(respawning) => respawning,
        other => panic!("expected Respawning, got {:?}", other),
    }
}

#[test]
fn no_arguments_hand_control_back() {
    assert_eq!(rebuild(None, strings(&["main.rs"])), Rebuild::ReturnToCaller);
    assert_eq!(rebuild_edition(None, RustEdition::R2021, strings(&["main.rs"])), Rebuild::ReturnToCaller);
    assert_eq!(
        rebuild_edition_args(None, RustEdition::R2018, strings(&["main.rs"]), vec![("-g".to_string(), None)]),
        Rebuild::ReturnToCaller
    );
}

#[test]
fn no_arguments_and_no_sources_hand_control_back() {
    assert_eq!(rebuild(None, vec![]), Rebuild::ReturnToCaller);
}

#[test]
fn handing_back_neither_exits_nor_logs() {
    let state = rebuild(None, strings(&["main.rs"]));
    assert_eq!(state.exit_code(), None);
    assert_eq!(state.notice(), None);
}

#[test]
fn rebuild_uses_the_newest_edition_and_optimizes() {
    let idle = idle_of(rebuild(Some("./prog".to_string()), strings(&["prog.rs", "util.rs"])));
    assert_eq!(idle.artifact, "./prog");
    assert_eq!(idle.edition, RustEdition::R2024);
    assert_eq!(idle.sources, strings(&["prog.rs", "util.rs"]));
    assert_eq!(idle.flags, vec![("-O".to_string(), None)]);
}

#[test]
fn rebuild_edition_keeps_the_edition_and_optimizes() {
    let idle = idle_of(rebuild_edition(Some("./prog".to_string()), RustEdition::R2018, strings(&["prog.rs"])));
    assert_eq!(idle.artifact, "./prog");
    assert_eq!(idle.edition, RustEdition::R2018);
    assert_eq!(idle.sources, strings(&["prog.rs"]));
    assert_eq!(idle.flags, vec![("-O".to_string(), None)]);
}

#[test]
fn rebuild_edition_args_keeps_the_flags() {
    let flags = vec![("-C".to_string(), Some("opt-level=1".to_string())), ("-g".to_string(), None)];
    let idle = idle_of(rebuild_edition_args(
        Some("./prog".to_string()),
        RustEdition::R2021,
        strings(&["prog.rs"]),
        flags.clone(),
    ));
    assert_eq!(idle.edition, RustEdition::R2021);
    assert_eq!(idle.flags, flags);
}

#[test]
fn rebuild_edition_args_without_flags_has_none() {
    let idle = idle_of(rebuild_edition_args(Some("p".to_string()), RustEdition::R2024, strings(&["p.rs"]), vec![]));
    assert_eq!(idle.flags, vec![]);
    let rebuilding = rebuilding_of(idle.on_mod_times(None, &[None]));
    assert_eq!(rebuilding.invocation.args(), strings(&["--edition", "2024", "-o", "p", "p.rs"]));
}

#[test]
fn idle_neither_exits_nor_logs() {
    let state = rebuild(Some("./prog".to_string()), strings(&["prog.rs"]));
    assert_eq!(state.exit_code(), None);
    assert_eq!(state.notice(), None);
}

#[test]
fn fresh_artifact_hands_control_back() {
    let idle = idle_of(rebuild(Some("./prog".to_string()), strings(&["prog.rs", "util.rs"])));
    assert_eq!(idle.on_mod_times(Some(10), &[Some(10), Some(9)]), Rebuild::ReturnToCaller);
}

#[test]
fn fresh_artifact_without_sources_hands_control_back() {
    let idle = idle_of(rebuild(Some("./prog".to_string()), vec![]));
    assert_eq!(idle.on_mod_times(Some(10), &[]), Rebuild::ReturnToCaller);
}

#[test]
fn stale_artifact_is_compiled_from_the_primary_source_only() {
    let idle = idle_of(rebuild(Some("a.bin".to_string()), strings(&["main.x", "lib.x"])));
    let state = idle.on_mod_times(Some(100), &[Some(101), Some(99)]);
    assert_eq!(state.exit_code(), None);
    assert_eq!(state.notice(), None);
    let rebuilding = rebuilding_of(state);
    assert_eq!(
        rebuilding.invocation,
        CompilerInvocation {
            flags: vec![("-O".to_string(), None)],
            edition: RustEdition::R2024,
            output: "a.bin".to_string(),
            input: "main.x".to_string(),
        }
    );
    let args = rebuilding.invocation.args();
    assert_eq!(args, strings(&["-O", "--edition", "2024", "-o", "a.bin", "main.x"]));
    assert!(!args.contains(&"lib.x".to_string()));
}

#[test]
fn stale_secondary_source_still_compiles_the_primary_one() {
    let idle = idle_of(rebuild_edition(Some("a.bin".to_string()), RustEdition::R2021, strings(&["main.x", "lib.x"])));
    let rebuilding = rebuilding_of(idle.on_mod_times(Some(100), &[Some(99), Some(101)]));
    assert_eq!(rebuilding.invocation.input, "main.x");
    assert_eq!(rebuilding.invocation.output, "a.bin");
    assert_eq!(rebuilding.invocation.args(), strings(&["-O", "--edition", "2021", "-o", "a.bin", "main.x"]));
}

#[test]
fn missing_artifact_is_compiled() {
    let idle = idle_of(rebuild(Some("a.bin".to_string()), strings(&["main.x"])));
    let rebuilding = rebuilding_of(idle.on_mod_times(None, &[Some(5)]));
    assert_eq!(rebuilding.invocation.output, "a.bin");
}

#[test]
fn unreadable_source_is_compiled() {
    let idle = idle_of(rebuild(Some("a.bin".to_string()), strings(&["main.x"])));
    let rebuilding = rebuilding_of(idle.on_mod_times(Some(5), &[None]));
    assert_eq!(rebuilding.invocation.input, "main.x");
}

#[test]
fn caller_flags_come_before_the_fixed_tail() {
    let idle = idle_of(rebuild_edition_args(
        Some("tool".to_string()),
        RustEdition::R2018,
        strings(&["tool.rs", "more.rs"]),
        vec![("-C".to_string(), Some("opt-level=2".to_string())), ("-g".to_string(), None)],
    ));
    let rebuilding = rebuilding_of(idle.on_mod_times(None, &[None, None]));
    assert_eq!(
        rebuilding.invocation.args(),
        strings(&["-C", "opt-level=2", "-g", "--edition", "2018", "-o", "tool", "tool.rs"])
    );
}

#[test]
fn failed_compile_ends_with_code_one_and_an_error_line() {
    let idle = idle_of(rebuild(Some("a.bin".to_string()), strings(&["main.x"])));
    let rebuilding = rebuilding_of(idle.on_mod_times(None, &[Some(1)]));
    let state = rebuilding.on_compiled(false, strings(&["--flag", "value"]));
    assert_eq!(state, Rebuild::TerminatedFailure);
    assert_eq!(state.exit_code(), Some(1));
    assert_eq!(state.notice(), Some((LogLevel::ERROR, "Build failed")));
}

#[test]
fn failed_compile_spawns_no_child() {
    let idle = idle_of(rebuild(Some("a.bin".to_string()), strings(&["main.x"])));
    let rebuilding = rebuilding_of(idle.on_mod_times(None, &[Some(1)]));
    let state = rebuilding.on_compiled(false, vec![]);
    assert!(!matches!(state, Rebuild::Respawning(_)));
    assert!(!matches!(state, Rebuild::Rebuilding(_)));
}

#[test]
fn successful_compile_runs_the_artifact_with_the_remaining_arguments() {
    let idle = idle_of(rebuild(Some("./a.bin".to_string()), strings(&["main.x"])));
    let rebuilding = rebuilding_of(idle.on_mod_times(Some(1), &[Some(2)]));
    let state = rebuilding.on_compiled(true, strings(&["--verbose", "input.txt", "--verbose"]));
    assert_eq!(state.exit_code(), None);
    assert_eq!(state.notice(), Some((LogLevel::INFO, "Build successful")));
    let respawning = respawning_of(state);
    assert_eq!(respawning.program, "./a.bin");
    assert_eq!(respawning.args, strings(&["--verbose", "input.txt", "--verbose"]));
}

#[test]
fn successful_compile_without_remaining_arguments() {
    let idle = idle_of(rebuild(Some("./a.bin".to_string()), strings(&["main.x"])));
    let rebuilding = rebuilding_of(idle.on_mod_times(Some(1), &[Some(2)]));
    let respawning = respawning_of(rebuilding.on_compiled(true, vec![]));
    assert_eq!(respawning.program, "./a.bin");
    assert_eq!(respawning.args, Vec::<String>::new());
}

#[test]
fn child_exit_code_is_not_passed_on() {
    for code in [Some(0), Some(1), Some(3), Some(-1), Some(i32::MAX), None] {
        let respawning = Respawning { program: "./a.bin".to_string(), args: vec![] };
        let state = respawning.on_exit(code);
        assert_eq!(state, Rebuild::TerminatedSuccess);
        assert_eq!(state.exit_code(), Some(0));
        assert_eq!(state.notice(), None);
    }
}

#[test]
fn whole_run_from_stale_artifact_to_success() {
    let state = rebuild(Some("prog".to_string()), strings(&["prog.rs"]));
    let state = idle_of(state).on_mod_times(Some(7), &[Some(8)]);
    let state = rebuilding_of(state).on_compiled(true, strings(&["x"]));
    let state = respawning_of(state).on_exit(Some(42));
    assert_eq!(state, Rebuild::TerminatedSuccess);
    assert_eq!(state.exit_code(), Some(0));
}
