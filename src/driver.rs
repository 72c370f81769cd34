use vstd::prelude::*;
use crate::code::ContractCode;
use crate::compare::ComparisonResult;

verus! {

/// The settings under which random modules are generated: every host
/// function is offered as an import.
#[derive(Debug, Default, Clone, Copy)]
pub struct ModuleConfig {}

/// Looks for an exported function without parameters to use as an entry
/// point. No export is scanned: callers name the entry point themselves.
pub fn find_entry_point(contract: &ContractCode) -> (r: Option<String>)
    ensures
        r is None,
{
    None
}

/// The command line was not of a form that any mode accepts.
#[derive(PartialEq, Eq, Structural, Clone, Copy, Debug)]
pub enum UsageError {
    /// The number of arguments, the program name included.
    WrongArgumentCount(usize),
}

/// What a differential run asks for: the file of bytecode, the entry point,
/// and the argument, if any.
#[derive(Debug)]
pub struct DifferentialRequest {
    pub wasm_path: String,
    pub method_name: String,
    pub argument: Option<String>,
}

/// Reads the command line of the precompile mode, `<program> <wasm-file>`.
pub fn parse_precompile_args(args: &Vec<String>) -> (r: Result<String, UsageError>)
    ensures
        args.len() == 2 ==> (r matches Ok(p) && p@ == args@[1]@),
        args.len() != 2 ==> r == Err::<String, UsageError>(UsageError::WrongArgumentCount(args.len())),
{
    if args.len() != 2 {
        return Err(UsageError::WrongArgumentCount(args.len()));
    }
    Ok(args[1].clone())
}

/// Reads the command line of the differential mode,
/// `<program> <wasm-file> <entry-point> [argument]`.
pub fn parse_differential_args(args: &Vec<String>) -> (r: Result<DifferentialRequest, UsageError>)
    ensures
        args.len() != 3 && args.len() != 4 ==> r == Err::<DifferentialRequest, UsageError>(
            UsageError::WrongArgumentCount(args.len()),
        ),
        args.len() == 3 || args.len() == 4 ==> (r matches Ok(q) && q.wasm_path@ == args@[1]@
            && q.method_name@ == args@[2]@),
        args.len() == 3 ==> (r matches Ok(q) && q.argument is None),
        args.len() == 4 ==> (r matches Ok(q) && q.argument matches Some(a) && a@ == args@[3]@),
{
    if args.len() != 3 && args.len() != 4 {
        return Err(UsageError::WrongArgumentCount(args.len()));
    }
    let argument = if args.len() == 4 {
        Some(args[3].clone())
    } else {
        None
    };
    Ok(DifferentialRequest { wasm_path: args[1].clone(), method_name: args[2].clone(), argument })
}

/// The exit status that a comparison result maps to: zero for agreement
/// only.
pub fn exit_code_for(result: ComparisonResult) -> (r: i32)
    ensures
        r == 0 <==> result == ComparisonResult::Agreement,
        result is Mismatch ==> r == 1,
        result == ComparisonResult::PartialFailure ==> r == 2,
{
    match result {
        ComparisonResult::Agreement => 0,
        ComparisonResult::Mismatch { .. } => 1,
        ComparisonResult::PartialFailure => 2,
    }
}

} // verus!
