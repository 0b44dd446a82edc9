use droidmole::childgate::ChildGate;
use droidmole::handoff::{
    agent_exec_argv, agent_path, format_pid, handoff_confirmation, is_handoff_confirmed,
    original_init_path, HANDOFF_CONFIRM,
};
use droidmole::identity::{is_zygote_exec, split_cmdline};
use droidmole::logger::{configure, level_name, render_line, LogLevel};

#[test]
fn handoff_confirmation_is_one_byte_of_123() {
    assert_eq!(handoff_confirmation(), vec![123u8]);
    assert_eq!(HANDOFF_CONFIRM, 123);
    assert!(is_handoff_confirmed(123));
    assert!(!is_handoff_confirmed(0));
    assert!(!is_handoff_confirmed(122));
    assert!(!is_handoff_confirmed(124));
}

#[test]
fn handoff_rendezvous_round_trip() {
    // The tracing side writes exactly one byte; the boot-continuation side
    // reads one byte and proceeds only if it is the confirmation value.
    let written = handoff_confirmation();
    assert_eq!(written.len(), 1);
    let observed = written[0];
    assert!(is_handoff_confirmed(observed));
}

#[test]
fn agent_is_started_with_decimal_pid_argument() {
    let argv = agent_exec_argv(60);
    assert_eq!(argv.len(), 2);
    assert_eq!(argv[0], "/data/local/tmp/device-agent");
    assert_eq!(argv[1], "60");
    assert_eq!(agent_path(), "/data/local/tmp/device-agent");
    assert_eq!(original_init_path(), "/original-init");
}

#[test]
fn pids_format_in_decimal() {
    assert_eq!(format_pid(0), "0");
    assert_eq!(format_pid(7), "7");
    assert_eq!(format_pid(10), "10");
    assert_eq!(format_pid(60), "60");
    assert_eq!(format_pid(1234567890), "1234567890");
    assert_eq!(format_pid(u64::MAX), "18446744073709551615");
}

#[test]
fn zygote_identity_requires_path_and_flag() {
    let exe = String::from("/system/bin/app_process64");
    let args = vec![String::from("app_process64"), String::from("-Xzygote")];
    assert!(is_zygote_exec(&exe, &args));

    let other_exe = String::from("/system/bin/sh");
    assert!(!is_zygote_exec(&other_exe, &args));

    let short_args = vec![String::from("app_process64")];
    assert!(!is_zygote_exec(&exe, &short_args));

    let wrong_flag = vec![String::from("app_process64"), String::from("--zygote")];
    assert!(!is_zygote_exec(&exe, &wrong_flag));

    // The flag must be the first argument after the program name.
    let flag_first = vec![String::from("-Xzygote"), String::from("app_process64")];
    assert!(!is_zygote_exec(&exe, &flag_first));
}

#[test]
fn cmdline_splits_on_nul_and_drops_empties() {
    assert_eq!(
        split_cmdline("app_process64\0-Xzygote\0"),
        vec![String::from("app_process64"), String::from("-Xzygote")]
    );
    assert_eq!(split_cmdline(""), Vec::<String>::new());
    assert_eq!(split_cmdline("\0\0"), Vec::<String>::new());
    assert_eq!(split_cmdline("a\0\0b"), vec![String::from("a"), String::from("b")]);
    assert_eq!(split_cmdline("a\0b"), vec![String::from("a"), String::from("b")]);
    assert_eq!(split_cmdline("lone"), vec![String::from("lone")]);
}

#[test]
fn sink_admits_info_and_above_only() {
    let c = configure();
    assert_eq!(c.max_level, LogLevel::Debug);
    assert_eq!(c.sink_threshold, LogLevel::Info);
    assert!(c.enabled(LogLevel::Error));
    assert!(c.enabled(LogLevel::Warn));
    assert!(c.enabled(LogLevel::Info));
    assert!(!c.enabled(LogLevel::Debug));
    assert!(!c.enabled(LogLevel::Trace));
}

#[test]
fn records_render_as_module_level_message() {
    assert_eq!(render_line("tracer", LogLevel::Info, "Found zygote"), "[tracer][INFO] Found zygote");
    let c = configure();
    assert_eq!(
        c.render("tracer", LogLevel::Warn, "late detach"),
        Some(String::from("[tracer][WARN] late detach"))
    );
    assert_eq!(c.render("tracer", LogLevel::Debug, "hidden"), None);
    assert_eq!(level_name(LogLevel::Error), "ERROR");
    assert_eq!(level_name(LogLevel::Trace), "TRACE");
}

#[test]
fn child_gate_admits_each_pid_once() {
    let mut gate = ChildGate::new();
    assert!(gate.claim(70));
    assert!(!gate.claim(70));
    assert!(gate.claim(71));
    assert!(!gate.claim(70));
    assert!(!gate.claim(71));
}
