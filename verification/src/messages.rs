//! The one-line messages the helper emits, built and pinned down
//! character by character.

use vstd::prelude::*;

verus! {

/// The character for a single decimal digit.
pub open spec fn digit_char(d: nat) -> char {
    if d == 0 {
        '0'
    } else if d == 1 {
        '1'
    } else if d == 2 {
        '2'
    } else if d == 3 {
        '3'
    } else if d == 4 {
        '4'
    } else if d == 5 {
        '5'
    } else if d == 6 {
        '6'
    } else if d == 7 {
        '7'
    } else if d == 8 {
        '8'
    } else {
        '9'
    }
}

/// The decimal representation of a natural number, most significant
/// digit first, with no leading zeros (a single `0` for zero).
pub open spec fn dec_rep(n: nat) -> Seq<char>
    decreases n,
{
    if n < 10 {
        seq![digit_char(n)]
    } else {
        dec_rep(n / 10).push(digit_char(n % 10))
    }
}

/// The message reporting that no other instance runs.
pub open spec fn stopped_message(app: Seq<char>) -> Seq<char> {
    app + " is stopped!"@
}

/// The message reporting a running instance, naming its process id.
pub open spec fn running_message(pid: u32, name: Seq<char>) -> Seq<char> {
    "<"@ + dec_rep(pid as nat) + "> \""@ + name + "\" is running."@
}

/// The line announcing that one matching process is being terminated.
pub open spec fn stopping_message(pid: u32, name: Seq<char>) -> Seq<char> {
    "<"@ + dec_rep(pid as nat) + "> \""@ + name + "\" is stopping..."@
}

/// The usage line, naming the four supported keywords.
pub open spec fn help_text(app: Seq<char>) -> Seq<char> {
    "Help: ./"@ + app + " status | start | stop | daemon"@
}

/// The one-character string for a decimal digit.
fn digit_string(d: u32) -> (s: String)
    requires
        d < 10,
    ensures
        s@ == seq![digit_char(d as nat)],
{
    let s = if d == 0 {
        String::from_str("0")
    } else if d == 1 {
        String::from_str("1")
    } else if d == 2 {
        String::from_str("2")
    } else if d == 3 {
        String::from_str("3")
    } else if d == 4 {
        String::from_str("4")
    } else if d == 5 {
        String::from_str("5")
    } else if d == 6 {
        String::from_str("6")
    } else if d == 7 {
        String::from_str("7")
    } else if d == 8 {
        String::from_str("8")
    } else {
        String::from_str("9")
    };
    proof {
        reveal_strlit("0");
        reveal_strlit("1");
        reveal_strlit("2");
        reveal_strlit("3");
        reveal_strlit("4");
        reveal_strlit("5");
        reveal_strlit("6");
        reveal_strlit("7");
        reveal_strlit("8");
        reveal_strlit("9");
        assert(s@ =~= seq![digit_char(d as nat)]);
    }
    s
}

/// Renders a number in decimal, exactly as `dec_rep` describes it.
pub fn u32_to_string(n: u32) -> (s: String)
    ensures
        s@ == dec_rep(n as nat),
    decreases n,
{
    if n < 10 {
        digit_string(n)
    } else {
        let p = u32_to_string(n / 10);
        let d = digit_string(n % 10);
        let r = p.concat(d.as_str());
        proof {
            assert(r@ =~= dec_rep(n as nat));
        }
        r
    }
}

/// Builds the stopped-instance report.
pub fn build_stopped_message(app: &str) -> (s: String)
    ensures
        s@ == stopped_message(app@),
{
    String::from_str(app).concat(" is stopped!")
}

/// Builds the running-instance report for the process found.
pub fn build_running_message(pid: u32, name: &str) -> (s: String)
    ensures
        s@ == running_message(pid, name@),
{
    let num = u32_to_string(pid);
    String::from_str("<").concat(num.as_str()).concat("> \"").concat(name).concat(
        "\" is running.",
    )
}

/// Builds the line announcing one termination request.
pub fn build_stopping_message(pid: u32, name: &str) -> (s: String)
    ensures
        s@ == stopping_message(pid, name@),
{
    let num = u32_to_string(pid);
    String::from_str("<").concat(num.as_str()).concat("> \"").concat(name).concat(
        "\" is stopping...",
    )
}

/// Builds the usage line.
pub fn help_message(app: &str) -> (s: String)
    ensures
        s@ == help_text(app@),
{
    String::from_str("Help: ./").concat(app).concat(" status | start | stop | daemon")
}

} // verus!
