//! The pipeline's failure taxonomy. Every failure is fatal and aborts the
//! pipeline; no failure is retried.

use vstd::prelude::*;

use crate::cmd::concat3;

verus! {

/// Why a pipeline run aborted.
#[derive(Debug)]
pub enum PipelineError {
    /// An external tool exited non-zero; its captured stderr is attached.
    Execution { program: String, stderr: String },
    /// A resource could not be acquired: no free loop device, or its path
    /// could not be parsed from the tool's output.
    ResourceAcquisition { what: String },
    /// A precondition of an installation step does not hold, such as an
    /// ambiguous or missing kernel-module version directory.
    Precondition { what: String },
    /// An unsupported or malformed argument, found before any resource is
    /// touched.
    Argument { what: String },
}

/// The mathematical value of a failure.
#[verifier::ext_equal]
pub enum PipelineErrorModel {
    Execution { program: Seq<char>, stderr: Seq<char> },
    ResourceAcquisition { what: Seq<char> },
    Precondition { what: Seq<char> },
    Argument { what: Seq<char> },
}

impl View for PipelineError {
    type V = PipelineErrorModel;

    open spec fn view(&self) -> PipelineErrorModel {
        match self {
            PipelineError::Execution { program, stderr } => PipelineErrorModel::Execution {
                program: program@,
                stderr: stderr@,
            },
            PipelineError::ResourceAcquisition { what } => PipelineErrorModel::ResourceAcquisition {
                what: what@,
            },
            PipelineError::Precondition { what } => PipelineErrorModel::Precondition { what: what@ },
            PipelineError::Argument { what } => PipelineErrorModel::Argument { what: what@ },
        }
    }
}

/// The one-line report of a failure.
pub open spec fn error_message(e: PipelineErrorModel) -> Seq<char> {
    match e {
        PipelineErrorModel::Execution { program, stderr } => "command failed: "@ + program
            + "\n"@ + stderr,
        PipelineErrorModel::ResourceAcquisition { what } => "could not acquire resource: "@
            + what,
        PipelineErrorModel::Precondition { what } => "precondition violated: "@ + what,
        PipelineErrorModel::Argument { what } => "bad argument: "@ + what,
    }
}

impl PipelineError {
    /// The report shown to the operator, identifying the failing command and
    /// its captured diagnostic output.
    pub fn message(&self) -> (r: String)
        ensures
            r@ == error_message(self@),
    {
        match self {
            PipelineError::Execution { program, stderr } => concat3(
                "command failed: ",
                program.as_str(),
                "\n",
            ).concat(stderr.as_str()),
            PipelineError::ResourceAcquisition { what } => crate::cmd::concat2(
                "could not acquire resource: ",
                what.as_str(),
            ),
            PipelineError::Precondition { what } => crate::cmd::concat2(
                "precondition violated: ",
                what.as_str(),
            ),
            PipelineError::Argument { what } => crate::cmd::concat2(
                "bad argument: ",
                what.as_str(),
            ),
        }
    }
}

/// A captured invocation outcome handed back by the driver: the exit status
/// and both output streams of one spawned tool.
#[derive(Debug)]
pub struct ExecOutcome {
    pub success: bool,
    pub stdout: Vec<u8>,
    pub stderr: Vec<u8>,
}

/// Maps a captured outcome to the pipeline's verdict on it: the stdout on
/// success, and an execution failure carrying the decoded stderr otherwise.
pub fn classify_outcome(program: &String, outcome: ExecOutcome) -> (r: Result<
    Vec<u8>,
    PipelineError,
>)
    ensures
        outcome.success ==> r is Ok && r->Ok_0@ == outcome.stdout@,
        !outcome.success ==> r is Err && r->Err_0@ == (PipelineErrorModel::Execution {
            program: program@,
            stderr: crate::text::decoded_output(outcome.stderr@),
        }),
{
    if outcome.success {
        Ok(outcome.stdout)
    } else {
        let stderr = crate::text::output_stderr_string(&outcome.stderr);
        Err(PipelineError::Execution { program: program.clone(), stderr })
    }
}

} // verus!
