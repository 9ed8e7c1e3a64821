use vstd::prelude::*;
use vstd::string::StringExecFns;
use crate::progress::SectorPlottingProgress;

verus! {

/// The step of a job that failed.
#[derive(Clone, Copy, Debug, PartialEq, Eq, Structural)]
pub enum FailedStage {
    /// No downloading permit could be had: the semaphore was closed.
    Admission,
    /// The job could not be handed to the background tasks.
    Dispatch,
    Download,
    Encode,
}

/// The words that open the message of a failure at `stage`.
pub open spec fn message_head(stage: FailedStage) -> Seq<char> {
    match stage {
        FailedStage::Admission => "Failed to acquire downloading permit: "@,
        FailedStage::Dispatch => "Failed to send plotting task: "@,
        FailedStage::Download => "Failed to download sector: "@,
        FailedStage::Encode => "Failed to encode sector: "@,
    }
}

/// The message of a failure at `stage` whose cause reads `detail`.
pub fn error_message(stage: FailedStage, detail: &str) -> (r: String)
    ensures
        r@ == message_head(stage) + detail@,
{
    let head = match stage {
        FailedStage::Admission => "Failed to acquire downloading permit: ",
        FailedStage::Dispatch => "Failed to send plotting task: ",
        FailedStage::Download => "Failed to download sector: ",
        FailedStage::Encode => "Failed to encode sector: ",
    };
    let mut r = String::from_str(head);
    r.append(detail);
    r
}

/// The `Error` notification of a failure at `stage` whose cause reads `detail`.
pub fn failure<P>(stage: FailedStage, detail: &str) -> (r: SectorPlottingProgress<P>)
    ensures
        r matches SectorPlottingProgress::Error { error } && error@ == message_head(stage) + detail@,
{
    SectorPlottingProgress::Error { error: error_message(stage, detail) }
}

} // verus!
