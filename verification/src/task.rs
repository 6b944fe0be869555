use vstd::prelude::*;
use vstd::string::StringExecFns;
use crate::dispatcher::TaskKind;
use crate::errors::MapReduceError;

verus! {

/// The stages of a worker's synchronous setup, in order. A failure at any
/// stage terminates that worker before it processes any task; the other
/// workers are independent and keep running.
#[derive(Clone, Copy, PartialEq, Eq, Structural)]
pub enum SetupStage {
    /// Creating the isolated interpreter instance.
    CreateInterpreter,
    /// Evaluating the user's script source.
    EvalScript,
    /// Extracting the `map` callable from the script's result.
    GetMapFunction,
    /// Extracting the `reduce` callable from the script's result.
    GetReduceFunction,
}

/// The description a worker attaches to a setup failure at each stage.
pub open spec fn spec_setup_description(stage: SetupStage) -> Seq<char> {
    match stage {
        SetupStage::CreateInterpreter => "failed to create an interpreter for the worker"@,
        SetupStage::EvalScript => "failed to evaluate the map-reduce script"@,
        SetupStage::GetMapFunction => "failed to get the `map` function from the script"@,
        SetupStage::GetReduceFunction => "failed to get the `reduce` function from the script"@,
    }
}

/// The error a worker reports when its setup fails at `stage`; `cause` is
/// the interpreter's own report.
pub fn setup_failure(stage: SetupStage, cause: String) -> (e: MapReduceError)
    ensures
        e matches MapReduceError::WorkerSetup { description, cause: c } && description@
            == spec_setup_description(stage) && c == cause,
{
    let description: String = match stage {
        SetupStage::CreateInterpreter => String::from_str(
            "failed to create an interpreter for the worker",
        ),
        SetupStage::EvalScript => String::from_str("failed to evaluate the map-reduce script"),
        SetupStage::GetMapFunction => String::from_str(
            "failed to get the `map` function from the script",
        ),
        SetupStage::GetReduceFunction => String::from_str(
            "failed to get the `reduce` function from the script",
        ),
    };
    MapReduceError::WorkerSetup { description, cause }
}

/// Classify one task invocation inside a worker: a success is the output to
/// forward on the output channel, a failure is fatal for the run and carries
/// which kind of call failed.
pub fn call_outcome<R>(kind: TaskKind, result: Result<R, String>) -> (out: Result<
    R,
    MapReduceError,
>)
    ensures
        out == (match result {
            Result::Ok(v) => Result::<R, MapReduceError>::Ok(v),
            Result::Err(cause) => Result::<R, MapReduceError>::Err(
                match kind {
                    TaskKind::MapVertex => MapReduceError::MapCall { cause },
                    TaskKind::ReducePair => MapReduceError::ReduceCall { cause },
                },
            ),
        }),
{
    match result {
        Result::Ok(v) => Result::Ok(v),
        Result::Err(cause) => Result::Err(
            match kind {
                TaskKind::MapVertex => MapReduceError::MapCall { cause },
                TaskKind::ReducePair => MapReduceError::ReduceCall { cause },
            },
        ),
    }
}

} // verus!
