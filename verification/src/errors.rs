use vstd::prelude::*;

verus! {

/// Why a map-reduce run failed.
///
/// Every variant carries the interpreter's own report as plain text; the
/// core never inspects it, it only routes it to the caller.
pub enum MapReduceError {
    /// A worker failed before processing any task: creating its interpreter,
    /// evaluating the script, or extracting the `map` / `reduce` callables.
    WorkerSetup { description: String, cause: String },
    /// A `map` invocation failed inside a worker.
    MapCall { cause: String },
    /// A `reduce` invocation failed inside a worker.
    ReduceCall { cause: String },
}

impl MapReduceError {
    /// The interpreter report carried by this error.
    pub fn cause(&self) -> (r: &String)
        ensures
            r@ == self.spec_cause(),
    {
        match self {
            MapReduceError::WorkerSetup { cause, .. } => cause,
            MapReduceError::MapCall { cause } => cause,
            MapReduceError::ReduceCall { cause } => cause,
        }
    }

    pub open spec fn spec_cause(self) -> Seq<char> {
        match self {
            MapReduceError::WorkerSetup { cause, .. } => cause@,
            MapReduceError::MapCall { cause } => cause@,
            MapReduceError::ReduceCall { cause } => cause@,
        }
    }
}

} // verus!
