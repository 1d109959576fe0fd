//! The prover, as the coordinator drives it: a program that is started for
//! one block and prints the block's proof.

use vstd::prelude::*;
use vstd::string::StringExecFns;
use crate::structs::Proofs;

verus! {

/// The program that computes a proof.
pub const PROVER_PROGRAM: &'static str = "./prover_cmd";

/// The environment variable that tells the program the block's number.
pub const BLOCK_NUM: &'static str = "BLOCK_NUM";

/// What a failed run of the prover is reported as.
pub const PROVER_FAILED: &'static str = "poof";

/// The character of a decimal digit.
pub open spec fn digit(d: int) -> char {
    if d == 0 {
        '0'
    } else if d == 1 {
        '1'
    } else if d == 2 {
        '2'
    } else if d == 3 {
        '3'
    } else if d == 4 {
        '4'
    } else if d == 5 {
        '5'
    } else if d == 6 {
        '6'
    } else if d == 7 {
        '7'
    } else if d == 8 {
        '8'
    } else {
        '9'
    }
}

/// The decimal numeral of `n`, without leading zeros.
pub open spec fn decimal(n: nat) -> Seq<char>
    decreases n,
{
    if n < 10 {
        seq![digit(n as int)]
    } else {
        decimal(n / 10).push(digit((n % 10) as int))
    }
}

/// The numeral of one digit.
fn digit_str(d: u64) -> (s: &'static str)
    requires
        d < 10,
    ensures
        s@ == seq![digit(d as int)],
{
    proof {
        reveal_strlit("0");
        reveal_strlit("1");
        reveal_strlit("2");
        reveal_strlit("3");
        reveal_strlit("4");
        reveal_strlit("5");
        reveal_strlit("6");
        reveal_strlit("7");
        reveal_strlit("8");
        reveal_strlit("9");
    }
    let s = if d == 0 {
        "0"
    } else if d == 1 {
        "1"
    } else if d == 2 {
        "2"
    } else if d == 3 {
        "3"
    } else if d == 4 {
        "4"
    } else if d == 5 {
        "5"
    } else if d == 6 {
        "6"
    } else if d == 7 {
        "7"
    } else if d == 8 {
        "8"
    } else {
        "9"
    };
    s
}

/// Appends the decimal numeral of `n`.
fn push_decimal(out: &mut String, n: u64)
    ensures
        final(out)@ == old(out)@ + decimal(n as nat),
    decreases n,
{
    if n >= 10 {
        push_decimal(out, n / 10);
    }
    out.append(digit_str(n % 10));
}

/// The decimal numeral of `n`.
pub fn decimal_string(n: u64) -> (s: String)
    ensures
        s@ == decimal(n as nat),
{
    let mut s = String::new();
    push_decimal(&mut s, n);
    s
}

/// How to start the prover: a program, and one variable of its environment.
#[derive(Clone, Debug, PartialEq, Eq)]
pub struct ProverCommand {
    pub program: String,
    pub variable: String,
    pub value: String,
    /// Whether the program's error output goes where the coordinator's goes.
    pub inherit_stderr: bool,
    /// Whether the program is killed when nobody waits for it any more.
    pub kill_on_drop: bool,
}

/// How to start the prover for the block of the given number.
pub fn prover_command(block_num: u64) -> (command: ProverCommand)
    ensures
        command.program@ == PROVER_PROGRAM@,
        command.variable@ == BLOCK_NUM@,
        command.value@ == decimal(block_num as nat),
        command.inherit_stderr,
        command.kill_on_drop,
{
    ProverCommand {
        program: String::from_str(PROVER_PROGRAM),
        variable: String::from_str(BLOCK_NUM),
        value: decimal_string(block_num),
        inherit_stderr: true,
        kill_on_drop: true,
    }
}

/// How a run of the prover ended.
#[derive(Clone, Debug, PartialEq, Eq)]
pub struct ProverOutput {
    /// Whether the program exited with success.
    pub success: bool,
    /// The proof that the program printed, if what it printed is one.
    pub proofs: Option<Proofs>,
}

/// The proof that a run of the prover gave. The run failed if the program
/// did not exit with success, or if it printed no proof.
pub fn request_proof(output: ProverOutput) -> (result: Result<Proofs, String>)
    ensures
        match result {
            Ok(proofs) => output.success && output.proofs == Some(proofs),
            Err(reason) => (!output.success || output.proofs is None) && reason@ == PROVER_FAILED@,
        },
{
    if !output.success {
        return Err(String::from_str(PROVER_FAILED));
    }
    match output.proofs {
        Some(proofs) => Ok(proofs),
        None => Err(String::from_str(PROVER_FAILED)),
    }
}

} // verus!
