//! Starting and stopping the throttling helper: its command line, and the
//! process its termination signal goes to.

use vstd::prelude::*;
use vstd::string::StringExecFns;

verus! {

/// Program that throttles a process when started with its identifier.
pub const THROTTLE_TOOL: &'static str = "cpulimit";

/// The share of one CPU, in percent, that the monitored process keeps while throttled.
pub const CPU_LIMIT_PERCENT: u32 = 10;

/// The decimal digit for a number below ten.
pub open spec fn digit(d: nat) -> char
    recommends
        d < 10,
{
    if d == 0 {
        '0'
    } else if d == 1 {
        '1'
    } else if d == 2 {
        '2'
    } else if d == 3 {
        '3'
    } else if d == 4 {
        '4'
    } else if d == 5 {
        '5'
    } else if d == 6 {
        '6'
    } else if d == 7 {
        '7'
    } else if d == 8 {
        '8'
    } else {
        '9'
    }
}

/// A number written in decimal, without sign, padding or leading zeros.
pub open spec fn decimal(n: nat) -> Seq<char>
    decreases n,
{
    if n < 10 {
        seq![digit(n)]
    } else {
        decimal(n / 10).push(digit(n % 10))
    }
}

/// The arguments the helper is started with: the process to throttle after
/// `-p`, the limit in percent after `-l`.
pub open spec fn throttle_arguments(target: u32, limit: u32) -> Seq<Seq<char>> {
    seq![seq!['-', 'p'], decimal(target as nat), seq!['-', 'l'], decimal(limit as nat)]
}

/// A command line: the program and its arguments, in order.
#[derive(Clone, Debug)]
pub struct ThrottleCommand {
    pub program: String,
    pub arguments: Vec<String>,
}

fn digit_str(d: u32) -> (s: &'static str)
    requires
        d < 10,
    ensures
        s@ == seq![digit(d as nat)],
{
    proof {
        reveal_strlit("0");
        reveal_strlit("1");
        reveal_strlit("2");
        reveal_strlit("3");
        reveal_strlit("4");
        reveal_strlit("5");
        reveal_strlit("6");
        reveal_strlit("7");
        reveal_strlit("8");
        reveal_strlit("9");
    }
    let s = if d == 0 {
        "0"
    } else if d == 1 {
        "1"
    } else if d == 2 {
        "2"
    } else if d == 3 {
        "3"
    } else if d == 4 {
        "4"
    } else if d == 5 {
        "5"
    } else if d == 6 {
        "6"
    } else if d == 7 {
        "7"
    } else if d == 8 {
        "8"
    } else {
        "9"
    };
    assert(s@ =~= seq![digit(d as nat)]);
    s
}

fn push_decimal(out: &mut String, n: u32)
    ensures
        final(out)@ == old(out)@ + decimal(n as nat),
    decreases n,
{
    if n >= 10 {
        push_decimal(out, n / 10);
    }
    out.append(digit_str(n % 10));
    assert(out@ =~= old(out)@ + decimal(n as nat));
}

/// Writes a number in decimal.
pub fn decimal_string(n: u32) -> (s: String)
    ensures
        s@ == decimal(n as nat),
{
    let mut s = String::new();
    push_decimal(&mut s, n);
    assert(s@ =~= decimal(n as nat));
    s
}

/// The command line that throttles the process `target` to `limit` percent.
pub fn throttle_command(target: u32, limit: u32) -> (command: ThrottleCommand)
    ensures
        command.program@ == THROTTLE_TOOL@,
        command.arguments.deep_view() == throttle_arguments(target, limit),
{
    proof {
        reveal_strlit("-p");
        reveal_strlit("-l");
    }
    let mut arguments: Vec<String> = Vec::new();
    arguments.push(String::from_str("-p"));
    arguments.push(decimal_string(target));
    arguments.push(String::from_str("-l"));
    arguments.push(decimal_string(limit));
    assert(arguments.deep_view() =~= throttle_arguments(target, limit)) by {
        assert(arguments[0]@ =~= seq!['-', 'p']);
        assert(arguments[2]@ =~= seq!['-', 'l']);
    }
    ThrottleCommand { program: String::from_str(THROTTLE_TOOL), arguments }
}

/// The process to signal in order to terminate the helper `child`.
///
/// A signal sent to an identifier that is not positive goes to a whole group
/// of processes, so the helper is only signalled where its identifier, read
/// as a signed number, is positive.
pub fn signal_target(child: u32) -> (target: Option<i32>)
    ensures
        target is Some <==> 0 < child <= i32::MAX,
        target matches Some(pid) ==> pid == child,
{
    if child == 0 || child > 0x7fff_ffff {
        None
    } else {
        Some(child as i32)
    }
}

} // verus!
