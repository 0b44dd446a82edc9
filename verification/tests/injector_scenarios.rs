use droidmole::injector::{InjectorAction, InjectorPhase, SyscallInjector};
use droidmole::registers::{RegisterSnapshot, INTERRUPTED_RETURN, INVALID_SYSCALL};

const SYS_POLL: u64 = 7;
const SYS_READ: u64 = 0;

fn scanning_injector(target: u64) -> SyscallInjector {
    let mut inj = SyscallInjector::new(target);
    assert_eq!(inj.phase, InjectorPhase::Seizing);
    inj.on_seized();
    assert_eq!(inj.phase, InjectorPhase::Resuming);
    inj.on_resumed();
    assert_eq!(inj.phase, InjectorPhase::Scanning);
    inj
}

#[test]
fn poll_stop_triggers_injection_sequence() {
    let mut inj = scanning_injector(60);

    let regs = RegisterSnapshot { syscall_number: SYS_POLL, return_value: 2 };
    let a = inj.on_syscall_stop(&regs);
    assert_eq!(
        a,
        InjectorAction::RewriteAndAwaitReturn {
            pid: 60,
            regs: RegisterSnapshot { syscall_number: INVALID_SYSCALL, return_value: 2 },
        }
    );
    assert_eq!(inj.phase, InjectorPhase::Injecting);

    let after = RegisterSnapshot { syscall_number: INVALID_SYSCALL, return_value: 38 };
    let a = inj.on_injection_return(&after);
    assert_eq!(
        a,
        InjectorAction::CompleteInjection {
            pid: 60,
            regs: RegisterSnapshot {
                syscall_number: INVALID_SYSCALL,
                return_value: INTERRUPTED_RETURN,
            },
        }
    );
    assert_eq!(inj.phase, InjectorPhase::Done);
}

#[test]
fn read_stop_does_not_trigger_injection() {
    let mut inj = scanning_injector(60);
    let regs = RegisterSnapshot { syscall_number: SYS_READ, return_value: 0 };
    let a = inj.on_syscall_stop(&regs);
    assert_eq!(a, InjectorAction::ResumeScan { pid: 60, signal: None });
    assert_eq!(inj.phase, InjectorPhase::Scanning);
}

#[test]
fn exactly_one_injection_per_run() {
    let mut inj = scanning_injector(60);
    let poll = RegisterSnapshot { syscall_number: SYS_POLL, return_value: 0 };
    inj.on_syscall_stop(&poll);
    inj.on_injection_return(&poll);
    assert_eq!(inj.phase, InjectorPhase::Done);

    // After the one injection the machine never re-enters scanning: another
    // qualifying stop asks for nothing.
    let a = inj.on_syscall_stop(&poll);
    assert_eq!(a, InjectorAction::Idle);
    assert_eq!(inj.phase, InjectorPhase::Done);
    assert_eq!(inj.on_lifecycle_stop(60), InjectorAction::Idle);
    assert_eq!(inj.on_signal_stop(60, 19), InjectorAction::Idle);
}

#[test]
fn lifecycle_and_signal_stops_resume_scan() {
    let mut inj = scanning_injector(60);
    assert_eq!(
        inj.on_lifecycle_stop(60),
        InjectorAction::ResumeScan { pid: 60, signal: None }
    );
    assert_eq!(
        inj.on_signal_stop(60, 19),
        InjectorAction::ResumeScan { pid: 60, signal: Some(19) }
    );
    assert_eq!(inj.phase, InjectorPhase::Scanning);
}

#[test]
fn register_rewrites_touch_one_field_each() {
    let mut regs = RegisterSnapshot { syscall_number: 23, return_value: 5 };
    regs.invalidate_syscall();
    assert_eq!(regs.syscall_number, u64::MAX);
    assert_eq!(regs.return_value, 5);
    regs.fake_interrupted_return();
    assert_eq!(regs.syscall_number, u64::MAX);
    assert_eq!(regs.return_value, 0xffff_ffff_ffff_fffc);
    // The faked return value is -EINTR in two's complement.
    assert_eq!(regs.return_value as i64, -4);
}
