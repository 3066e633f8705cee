//! Notification text for the output sink.
//!
//! The sink consumes an unstructured text stream: plain lines for the child's
//! standard output, lines prefixed with a warning glyph for its standard
//! error, and sentinel completion lines. Each builder here is specified
//! against a spec-level description of the exact character sequence.

use vstd::prelude::*;

verus! {

/// Diagnostic sent when the Kotlin compiler cannot be located under any
/// strategy; it suggests installation remedies per supported platform.
pub open spec fn not_found_note() -> Seq<char> {
    "❌ Kotlin compiler not found!\n\nPlease install Kotlin:\n• macOS: brew install kotlin\n• Linux: sudo snap install kotlin --classic\n• Or via SDKMAN: sdk install kotlin\n"@
}

pub fn not_found_message() -> (r: String)
    ensures
        r@ == not_found_note(),
{
    String::from_str(
        "❌ Kotlin compiler not found!\n\nPlease install Kotlin:\n• macOS: brew install kotlin\n• Linux: sudo snap install kotlin --classic\n• Or via SDKMAN: sdk install kotlin\n",
    )
}

/// A line of the child's standard output, forwarded as-is with a newline.
pub open spec fn stdout_note(line: Seq<char>) -> Seq<char> {
    line + "\n"@
}

pub fn stdout_message(line: &str) -> (r: String)
    ensures
        r@ == stdout_note(line@),
{
    String::from_str(line).concat("\n")
}

/// A line of the child's standard error, tagged with a warning glyph so the
/// sink can tell the two channels apart.
pub open spec fn stderr_note(line: Seq<char>) -> Seq<char> {
    "⚠️ "@ + line + "\n"@
}

pub fn stderr_message(line: &str) -> (r: String)
    ensures
        r@ == stderr_note(line@),
{
    String::from_str("⚠️ ").concat(line).concat("\n")
}

/// Completion line for a child process that exited with status zero.
pub open spec fn success_note() -> Seq<char> {
    "\n✅ Execution completed\n"@
}

pub fn success_message() -> (r: String)
    ensures
        r@ == success_note(),
{
    String::from_str("\n✅ Execution completed\n")
}

/// The decimal digit character for `d`.
pub open spec fn digit_char(d: nat) -> char {
    if d == 0 {
        '0'
    } else if d == 1 {
        '1'
    } else if d == 2 {
        '2'
    } else if d == 3 {
        '3'
    } else if d == 4 {
        '4'
    } else if d == 5 {
        '5'
    } else if d == 6 {
        '6'
    } else if d == 7 {
        '7'
    } else if d == 8 {
        '8'
    } else {
        '9'
    }
}

/// Decimal digits of a non-negative number, most significant first.
pub open spec fn decimal_digits(n: nat) -> Seq<char>
    decreases n,
{
    if n < 10 {
        seq![digit_char(n)]
    } else {
        decimal_digits(n / 10) + seq![digit_char(n % 10)]
    }
}

/// Decimal rendering of an integer, with a leading minus sign when negative.
pub open spec fn decimal(n: int) -> Seq<char> {
    if n < 0 {
        seq!['-'] + decimal_digits((-n) as nat)
    } else {
        decimal_digits(n as nat)
    }
}

fn digit_str(d: u64) -> (r: &'static str)
    requires
        d < 10,
    ensures
        r@ == seq![digit_char(d as nat)],
{
    proof {
        reveal_strlit("0");
        reveal_strlit("1");
        reveal_strlit("2");
        reveal_strlit("3");
        reveal_strlit("4");
        reveal_strlit("5");
        reveal_strlit("6");
        reveal_strlit("7");
        reveal_strlit("8");
        reveal_strlit("9");
    }
    let r = if d == 0 {
        "0"
    } else if d == 1 {
        "1"
    } else if d == 2 {
        "2"
    } else if d == 3 {
        "3"
    } else if d == 4 {
        "4"
    } else if d == 5 {
        "5"
    } else if d == 6 {
        "6"
    } else if d == 7 {
        "7"
    } else if d == 8 {
        "8"
    } else {
        "9"
    };
    proof {
        assert(r@ =~= seq![digit_char(d as nat)]);
    }
    r
}

fn decimal_digits_u64(n: u64) -> (r: String)
    ensures
        r@ == decimal_digits(n as nat),
    decreases n,
{
    if n < 10 {
        String::from_str(digit_str(n))
    } else {
        decimal_digits_u64(n / 10).concat(digit_str(n % 10))
    }
}

/// Decimal rendering of an exit code.
pub fn decimal_i32(n: i32) -> (r: String)
    ensures
        r@ == decimal(n as int),
{
    if n < 0 {
        let magnitude: u64 = (-(n as i64)) as u64;
        let r = String::from_str("-").concat(decimal_digits_u64(magnitude).as_str());
        proof {
            reveal_strlit("-");
            assert("-"@ =~= seq!['-']);
            assert(r@ =~= decimal(n as int));
        }
        r
    } else {
        decimal_digits_u64(n as u64)
    }
}

/// Completion line for a child process that exited with a nonzero status.
pub open spec fn exit_failure_note(code: int) -> Seq<char> {
    "\n❌ Process exited with: exit status: "@ + decimal(code) + "\n"@
}

pub fn exit_failure_message(code: i32) -> (r: String)
    ensures
        r@ == exit_failure_note(code as int),
{
    String::from_str("\n❌ Process exited with: exit status: ").concat(
        decimal_i32(code).as_str(),
    ).concat("\n")
}

/// Diagnostic for a tool process that could not be started, carrying the
/// operating system's error text.
pub open spec fn spawn_error_note(reason: Seq<char>) -> Seq<char> {
    "❌ Failed to start kotlinc: "@ + reason + "\n"@
}

pub fn spawn_error_message(reason: &str) -> (r: String)
    ensures
        r@ == spawn_error_note(reason@),
{
    String::from_str("❌ Failed to start kotlinc: ").concat(reason).concat("\n")
}

/// Diagnostic for a script file that could not be created or written.
pub open spec fn file_error_note(reason: Seq<char>) -> Seq<char> {
    "❌ Failed to prepare script file: "@ + reason + "\n"@
}

pub fn file_error_message(reason: &str) -> (r: String)
    ensures
        r@ == file_error_note(reason@),
{
    String::from_str("❌ Failed to prepare script file: ").concat(reason).concat("\n")
}

/// Diagnostic for a failure while waiting on the child process.
pub open spec fn wait_error_note(reason: Seq<char>) -> Seq<char> {
    "\n❌ Failed to wait on process: "@ + reason + "\n"@
}

pub fn wait_error_message(reason: &str) -> (r: String)
    ensures
        r@ == wait_error_note(reason@),
{
    String::from_str("\n❌ Failed to wait on process: ").concat(reason).concat("\n")
}

} // verus!
