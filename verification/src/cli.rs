//! Validation of a command-line invocation: the operation word and the
//! argument count, before any file is touched.

use vstd::prelude::*;
use vstd::string::StringExecFns;

verus! {

/// The two operations the tool performs.
#[derive(Clone, Copy, PartialEq, Eq, Structural, Debug)]
pub enum Operation {
    Compress,
    Decompress,
}

/// Why an invocation was rejected before any file was touched.
#[derive(Clone, Copy, PartialEq, Eq, Structural, Debug)]
pub enum CliError {
    /// The command line did not hold exactly three arguments after the
    /// program name.
    WrongArgCount,
    /// The operation argument was neither `compress` nor `decompress`.
    UnknownOperation,
}

/// A validated invocation: the operation and the two file paths.
pub struct Plan {
    pub op: Operation,
    pub input: String,
    pub output: String,
}

/// Recognises the operation word: exactly `compress` or `decompress`,
/// anything else is rejected.
pub fn parse_operation(s: &String) -> (r: Option<Operation>)
    ensures
        r == Some(Operation::Compress) <==> s@ == "compress"@,
        r == Some(Operation::Decompress) <==> s@ == "decompress"@,
        r is None <==> (s@ != "compress"@ && s@ != "decompress"@),
{
    proof {
        reveal_strlit("compress");
        reveal_strlit("decompress");
        assert("compress"@.len() == 8);
        assert("decompress"@.len() == 10);
    }
    let compress_word: String = "compress".to_owned();
    let decompress_word: String = "decompress".to_owned();
    if *s == compress_word {
        Some(Operation::Compress)
    } else if *s == decompress_word {
        Some(Operation::Decompress)
    } else {
        None
    }
}

/// Validates a full argument vector (program name first). It accepts exactly
/// four entries whose second is a known operation word, and says which check
/// failed otherwise.
pub fn plan_invocation(args: &Vec<String>) -> (r: Result<Plan, CliError>)
    ensures
        r == Err::<Plan, CliError>(CliError::WrongArgCount) <==> args@.len() != 4,
        r == Err::<Plan, CliError>(CliError::UnknownOperation) <==> (args@.len() == 4
            && args@[1]@ != "compress"@ && args@[1]@ != "decompress"@),
        r is Ok <==> (args@.len() == 4 && (args@[1]@ == "compress"@
            || args@[1]@ == "decompress"@)),
        r matches Ok(plan) ==> {
            &&& plan.op == Operation::Compress <==> args@[1]@ == "compress"@
            &&& plan.op == Operation::Decompress <==> args@[1]@ == "decompress"@
            &&& plan.input@ == args@[2]@
            &&& plan.output@ == args@[3]@
        },
{
    if args.len() != 4 {
        return Err(CliError::WrongArgCount);
    }
    match parse_operation(&args[1]) {
        Some(op) => Ok(Plan { op, input: args[2].clone(), output: args[3].clone() }),
        None => Err(CliError::UnknownOperation),
    }
}

/// The usage line printed when the argument count is wrong.
pub fn usage_message(program: &String) -> (r: String)
    ensures
        r@ == "Usage: "@ + program@ + " [compress|decompress] [input_file] [output_file]"@,
{
    let mut r: String = "Usage: ".to_owned();
    r.append(program.as_str());
    r.append(" [compress|decompress] [input_file] [output_file]");
    proof {
        assert(r@ =~= "Usage: "@ + program@
            + " [compress|decompress] [input_file] [output_file]"@);
    }
    r
}

} // verus!
