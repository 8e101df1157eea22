//! What the caller is told when an operation on a service has ended.

use crate::orchestrator::Plan;
use crate::supervisor::{Conclusion, RetryBudget};
use vstd::prelude::*;
use vstd::string::StringExecFns;

verus! {

/// The character of a decimal digit.
pub open spec fn digit(d: nat) -> char {
    if d == 0 {
        '0'
    } else if d == 1 {
        '1'
    } else if d == 2 {
        '2'
    } else if d == 3 {
        '3'
    } else if d == 4 {
        '4'
    } else if d == 5 {
        '5'
    } else if d == 6 {
        '6'
    } else if d == 7 {
        '7'
    } else if d == 8 {
        '8'
    } else {
        '9'
    }
}

/// The decimal numeral of a number, without leading zeros.
pub open spec fn decimal(n: nat) -> Seq<char>
    decreases n,
{
    if n < 10 {
        seq![digit(n)]
    } else {
        decimal(n / 10).push(digit(n % 10))
    }
}

/// The message for a conclusion, if it is a failure: a refused spawn names the
/// process and the cause, a timeout names the process and the bound.
pub open spec fn spec_failure_message(
    name: Seq<char>,
    conclusion: Conclusion,
    budget: RetryBudget,
    cause: Seq<char>,
) -> Option<Seq<char>> {
    match conclusion {
        Conclusion::SpawnFailed => Some(name + ": "@ + cause),
        Conclusion::InputUnavailable => Some(name + ": Failed to open stdin"@),
        Conclusion::TimedOut => Some(
            "启动进程失败： "@ + name + " （"@ + decimal(budget.total_wait())
                + "s 内检测不到进程）"@,
        ),
        _ => None,
    }
}

/// What a completed plan is acknowledged with.
pub open spec fn spec_acknowledgement(plan: Plan) -> Seq<char> {
    match plan {
        Plan::StopAll => "1"@,
        Plan::StartAll => "iNodeClient服务启动成功"@,
    }
}

fn digit_text(d: u128) -> (text: &'static str)
    requires
        d < 10,
    ensures
        text@ == seq![digit(d as nat)],
{
    proof {
        reveal_strlit("0");
        reveal_strlit("1");
        reveal_strlit("2");
        reveal_strlit("3");
        reveal_strlit("4");
        reveal_strlit("5");
        reveal_strlit("6");
        reveal_strlit("7");
        reveal_strlit("8");
        reveal_strlit("9");
    }
    let text = if d == 0 {
        "0"
    } else if d == 1 {
        "1"
    } else if d == 2 {
        "2"
    } else if d == 3 {
        "3"
    } else if d == 4 {
        "4"
    } else if d == 5 {
        "5"
    } else if d == 6 {
        "6"
    } else if d == 7 {
        "7"
    } else if d == 8 {
        "8"
    } else {
        "9"
    };
    assert(text@ =~= seq![digit(d as nat)]);
    text
}

/// Writes a number in decimal.
pub fn decimal_text(n: u128) -> (text: String)
    ensures
        text@ == decimal(n as nat),
    decreases n,
{
    if n < 10 {
        String::from_str(digit_text(n))
    } else {
        let text = decimal_text(n / 10).concat(digit_text(n % 10));
        assert(text@ =~= decimal(n as nat));
        text
    }
}

/// The longest time in seconds that polling under a budget sleeps.
pub fn budget_seconds(budget: RetryBudget) -> (seconds: u128)
    ensures
        seconds == budget.total_wait(),
{
    let interval: u128 = budget.interval_seconds as u128;
    let attempts: u128 = budget.max_attempts as u128;
    assert(interval * attempts <= 0xffff_ffff_ffff_ffff * 0xffff_ffff) by (nonlinear_arith)
        requires
            0 <= interval <= 0xffff_ffff_ffff_ffff,
            0 <= attempts <= 0xffff_ffff,
    ;
    interval * attempts
}

/// Describes a failed operation on the process `name`; `cause` is what the
/// operating system said of a refused spawn. A success has no message.
pub fn failure_message(
    name: &str,
    conclusion: Conclusion,
    budget: RetryBudget,
    cause: &str,
) -> (message: Option<String>)
    ensures
        match message {
            Some(text) => spec_failure_message(name@, conclusion, budget, cause@) == Some(text@),
            None => spec_failure_message(name@, conclusion, budget, cause@) is None,
        },
{
    match conclusion {
        Conclusion::SpawnFailed => Some(String::from_str(name).concat(": ").concat(cause)),
        Conclusion::InputUnavailable => Some(
            String::from_str(name).concat(": Failed to open stdin"),
        ),
        Conclusion::TimedOut => {
            let seconds = decimal_text(budget_seconds(budget));
            Some(
                String::from_str("启动进程失败： ").concat(name).concat(" （").concat(
                    seconds.as_str(),
                ).concat("s 内检测不到进程）"),
            )
        },
        _ => None,
    }
}

/// What the caller receives when a plan has succeeded.
pub fn acknowledgement(plan: Plan) -> (text: &'static str)
    ensures
        text@ == spec_acknowledgement(plan),
{
    match plan {
        Plan::StopAll => "1",
        Plan::StartAll => "iNodeClient服务启动成功",
    }
}

} // verus!
