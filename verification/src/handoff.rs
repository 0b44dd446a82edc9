//! The handoff from the init-side tracker to the target-side agent.
//!
//! The tracker's fork runs a one-shot sequence: change the filesystem root
//! back to the real system root, materialize the agent's executable at a
//! fixed world-executable path, and replace the process image with it,
//! passing the target's pid in decimal as the sole argument. Separately, a
//! one-directional single-byte rendezvous keeps the boot-continuation
//! process from resuming the original boot sequence until the tracing side
//! confirms, by one byte of a fixed value, that tracing has started.

use vstd::prelude::*;

verus! {

/// The one byte the tracing side sends once its seize call has succeeded;
/// the boot-continuation side proceeds only after observing it.
pub const HANDOFF_CONFIRM: u8 = 123;

/// True exactly for the byte that confirms tracing has started.
pub fn is_handoff_confirmed(b: u8) -> (r: bool)
    ensures
        r == (b == HANDOFF_CONFIRM),
{
    b == HANDOFF_CONFIRM
}

/// The single-byte confirmation message the tracing side writes.
pub fn handoff_confirmation() -> (v: Vec<u8>)
    ensures
        v@ == seq![HANDOFF_CONFIRM],
{
    let mut v: Vec<u8> = Vec::new();
    v.push(HANDOFF_CONFIRM);
    assert(v@ =~= seq![HANDOFF_CONFIRM]);
    v
}

/// The fixed, world-executable path the agent is written to and started
/// from.
pub open spec fn spec_agent_path() -> Seq<char> {
    "/data/local/tmp/device-agent"@
}

/// The path the agent executable is unpacked to.
pub fn agent_path() -> (r: &'static str)
    ensures
        r@ == spec_agent_path(),
{
    "/data/local/tmp/device-agent"
}

/// The executable the boot-continuation side hands control to once tracing
/// is confirmed.
pub fn original_init_path() -> (r: &'static str)
    ensures
        r@ == "/original-init"@,
{
    "/original-init"
}

/// The decimal digit characters.
pub open spec fn spec_decimal_digit(d: nat) -> char {
    if d == 0 {
        '0'
    } else if d == 1 {
        '1'
    } else if d == 2 {
        '2'
    } else if d == 3 {
        '3'
    } else if d == 4 {
        '4'
    } else if d == 5 {
        '5'
    } else if d == 6 {
        '6'
    } else if d == 7 {
        '7'
    } else if d == 8 {
        '8'
    } else {
        '9'
    }
}

/// The decimal notation of a number, most significant digit first, with no
/// leading zero except for zero itself.
pub open spec fn spec_decimal(n: nat) -> Seq<char>
    decreases n,
{
    if n < 10 {
        seq![spec_decimal_digit(n)]
    } else {
        spec_decimal(n / 10).push(spec_decimal_digit(n % 10))
    }
}

/// One decimal digit as text.
fn digit_str(d: u64) -> (r: &'static str)
    requires
        d < 10,
    ensures
        r@ == seq![spec_decimal_digit(d as nat)],
{
    proof {
        reveal_strlit("0");
        reveal_strlit("1");
        reveal_strlit("2");
        reveal_strlit("3");
        reveal_strlit("4");
        reveal_strlit("5");
        reveal_strlit("6");
        reveal_strlit("7");
        reveal_strlit("8");
        reveal_strlit("9");
    }
    let r = if d == 0 {
        "0"
    } else if d == 1 {
        "1"
    } else if d == 2 {
        "2"
    } else if d == 3 {
        "3"
    } else if d == 4 {
        "4"
    } else if d == 5 {
        "5"
    } else if d == 6 {
        "6"
    } else if d == 7 {
        "7"
    } else if d == 8 {
        "8"
    } else {
        "9"
    };
    proof {
        assert(r@ =~= seq![spec_decimal_digit(d as nat)]);
    }
    r
}

/// Renders a pid in decimal, as it is passed to the agent on its command
/// line.
pub fn format_pid(n: u64) -> (r: String)
    ensures
        r@ == spec_decimal(n as nat),
    decreases n,
{
    if n < 10 {
        String::from_str(digit_str(n))
    } else {
        proof {
            assert(n as nat / 10 == (n / 10) as nat);
            assert((n / 10) < n) by (nonlinear_arith)
                requires
                    n >= 10,
            ;
        }
        let mut s = format_pid(n / 10);
        s.append(digit_str(n % 10));
        proof {
            assert(s@ =~= spec_decimal(n as nat / 10).push(spec_decimal_digit(n as nat % 10)));
        }
        s
    }
}

/// The argument list the agent is started with: its own path, then the
/// target pid in decimal.
pub fn agent_exec_argv(pid: u64) -> (argv: Vec<String>)
    ensures
        argv@.len() == 2,
        argv@[0]@ == spec_agent_path(),
        argv@[1]@ == spec_decimal(pid as nat),
{
    let mut argv: Vec<String> = Vec::new();
    argv.push(String::from_str(agent_path()));
    argv.push(format_pid(pid));
    argv
}

} // verus!
