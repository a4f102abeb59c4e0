//! The capture of one screenshot, step by step.
//!
//! [`begin_capture`] checks the source and names the first thing to do; the
//! caller performs each [`CaptureAction`] and hands back how it went, until
//! the session finishes. Nothing on disk is touched before the source has
//! passed the temp-and-cache policy, and a failed cleanup of the source never
//! fails a capture whose artifact was written.
use vstd::prelude::*;
use crate::capture::{decoded_size, plan_capture, render_artifact, renders, starts_as_jpeg, CapturePlan};
use crate::error::{CodecStep, IoStep, Policy, ReportError};
use crate::naming::{all_taken, artifact_name, date_dir_text, is_first_free, stem_text, LocalStamp};
use crate::paths::{joined_path, policy_outcome, PathProbe, OUTPUT_DIR_NAME};

verus! {

/// What the caller is to do next.
#[derive(Debug)]
pub enum CaptureAction {
    /// Create this directory and its missing parents.
    CreateDir(String),
    /// List the names of the entries of this directory.
    ListDir(String),
    /// Read the whole file at this path.
    ReadFile(String),
    /// Write these bytes to a new file at this path.
    WriteFile(String, Vec<u8>),
    /// Remove the file at this path.
    RemoveFile(String),
    /// The capture is over, with the path of the artifact or the failure.
    Finish(Result<String, ReportError>),
}

/// How the caller's last action went.
#[derive(Debug)]
pub enum StepOutcome {
    /// A directory was created, a file written or removed.
    Done,
    /// The names of a directory's entries.
    Listed(Vec<String>),
    /// The contents of a file.
    Read(Vec<u8>),
    /// The action failed; the reason.
    Failed(String),
}

/// Where a capture stands.
#[derive(Clone, Copy, Debug, PartialEq, Eq, Structural)]
pub enum CaptureStage {
    OutputDir,
    DateDir,
    Listing,
    Reading,
    Writing,
    Cleanup,
    Finished,
}

/// Whether a capture at `stage` takes `outcome` as the answer to its last action.
pub open spec fn accepts(stage: CaptureStage, outcome: StepOutcome) -> bool {
    match stage {
        CaptureStage::Listing => outcome is Listed || outcome is Failed,
        CaptureStage::Reading => outcome is Read || outcome is Failed,
        CaptureStage::Finished => false,
        _ => outcome is Done || outcome is Failed,
    }
}

/// One capture in progress.
pub struct CaptureSession {
    stage: CaptureStage,
    plan: Option<CapturePlan>,
    dest: String,
}

impl CaptureSession {
    /// Where the capture stands.
    pub closed spec fn stage_spec(&self) -> CaptureStage {
        self.stage
    }

    /// The plan of the capture, once its source was admitted.
    pub closed spec fn plan_spec(&self) -> Option<CapturePlan> {
        self.plan
    }

    /// The path chosen for the artifact, once the day's directory was listed.
    pub closed spec fn dest_spec(&self) -> Seq<char> {
        self.dest@
    }

    /// Only a capture with an admitted source goes on.
    pub open spec fn wf(&self) -> bool {
        self.stage_spec() != CaptureStage::Finished ==> self.plan_spec() is Some
    }

    /// Where the capture stands.
    pub fn stage(&self) -> (r: CaptureStage)
        ensures
            r == self.stage_spec(),
    {
        self.stage
    }

    /// Whether the capture takes `outcome` as the answer to its last action.
    pub fn accepts(&self, outcome: &StepOutcome) -> (r: bool)
        ensures
            r == accepts(self.stage_spec(), *outcome),
    {
        match (self.stage, outcome) {
            (CaptureStage::Finished, _) => false,
            (_, StepOutcome::Failed(_)) => true,
            (CaptureStage::Listing, StepOutcome::Listed(_)) => true,
            (CaptureStage::Reading, StepOutcome::Read(_)) => true,
            (CaptureStage::Listing, _) => false,
            (CaptureStage::Reading, _) => false,
            (_, StepOutcome::Done) => true,
            _ => false,
        }
    }

    fn finish(&mut self, result: Result<String, ReportError>) -> (a: CaptureAction)
        ensures
            final(self).stage_spec() == CaptureStage::Finished,
            final(self).plan_spec() == old(self).plan_spec(),
            final(self).dest_spec() == old(self).dest_spec(),
            a == CaptureAction::Finish(result),
    {
        self.stage = CaptureStage::Finished;
        CaptureAction::Finish(result)
    }

    /// Takes the outcome of the last action and names the next one.
    pub fn step(&mut self, outcome: StepOutcome) -> (a: CaptureAction)
        requires
            old(self).wf(),
            accepts(old(self).stage_spec(), outcome),
        ensures
            final(self).wf(),
            final(self).plan_spec() == old(self).plan_spec(),
            ({
                let plan = old(self).plan_spec()->Some_0;
                let next = final(self).stage_spec();
                match (old(self).stage_spec(), outcome) {
                    (CaptureStage::OutputDir, StepOutcome::Done) => next == CaptureStage::DateDir
                        && a is CreateDir && a->CreateDir_0@ == plan.date_dir_spec(),
                    (CaptureStage::OutputDir, StepOutcome::Failed(d)) => next
                        == CaptureStage::Finished && a == CaptureAction::Finish(
                        Err(ReportError::Io(IoStep::CreateOutputDir, d)),
                    ),
                    (CaptureStage::DateDir, StepOutcome::Done) => next == CaptureStage::Listing
                        && a is ListDir && a->ListDir_0@ == plan.date_dir_spec(),
                    (CaptureStage::DateDir, StepOutcome::Failed(d)) => next
                        == CaptureStage::Finished && a == CaptureAction::Finish(
                        Err(ReportError::Io(IoStep::CreateDateDir, d)),
                    ),
                    (CaptureStage::Listing, StepOutcome::Listed(names)) => if all_taken(
                        plan.stem_spec(),
                        names@,
                    ) {
                        next == CaptureStage::Finished && a == CaptureAction::Finish(
                            Err(ReportError::SequenceExhausted),
                        )
                    } else {
                        &&& next == CaptureStage::Reading
                        &&& a is ReadFile && a->ReadFile_0@ == plan.source_spec()
                        &&& exists|n: nat|
                            is_first_free(plan.stem_spec(), names@, n) && final(self).dest_spec()
                                == joined_path(
                                plan.date_dir_spec(),
                                #[trigger] artifact_name(plan.stem_spec(), n),
                            )
                    },
                    (CaptureStage::Listing, StepOutcome::Failed(d)) => next
                        == CaptureStage::Finished && a == CaptureAction::Finish(
                        Err(ReportError::Io(IoStep::ListDateDir, d)),
                    ),
                    (CaptureStage::Reading, StepOutcome::Read(bytes)) => {
                        &&& final(self).dest_spec() == old(self).dest_spec()
                        &&& if renders(bytes@) {
                            &&& next == CaptureStage::Writing
                            &&& a is WriteFile
                            &&& a->WriteFile_0@ == old(self).dest_spec()
                            &&& starts_as_jpeg(a->WriteFile_1@)
                        } else if decoded_size(bytes@) is None {
                            next == CaptureStage::Finished && a matches CaptureAction::Finish(
                                Err(ReportError::Codec(CodecStep::Decode, _)),
                            )
                        } else {
                            next == CaptureStage::Finished && a matches CaptureAction::Finish(
                                Err(ReportError::Codec(CodecStep::Encode, _)),
                            )
                        }
                    },
                    (CaptureStage::Reading, StepOutcome::Failed(d)) => next
                        == CaptureStage::Finished && a == CaptureAction::Finish(
                        Err(ReportError::Codec(CodecStep::Decode, d)),
                    ),
                    (CaptureStage::Writing, StepOutcome::Done) => next == CaptureStage::Cleanup
                        && a is RemoveFile && a->RemoveFile_0@ == plan.source_spec()
                        && final(self).dest_spec() == old(self).dest_spec(),
                    (CaptureStage::Writing, StepOutcome::Failed(d)) => next
                        == CaptureStage::Finished && a == CaptureAction::Finish(
                        Err(ReportError::Io(IoStep::CreateArtifact, d)),
                    ),
                    (CaptureStage::Cleanup, _) => next == CaptureStage::Finished && a is Finish
                        && a->Finish_0 is Ok && a->Finish_0->Ok_0@ == old(self).dest_spec(),
                    _ => false,
                }
            }),
    {
        match self.stage {
            CaptureStage::OutputDir => match outcome {
                StepOutcome::Failed(d) => self.finish(Err(ReportError::Io(IoStep::CreateOutputDir, d))),
                _ => {
                    self.stage = CaptureStage::DateDir;
                    let plan = self.plan.as_ref().unwrap();
                    CaptureAction::CreateDir(String::from_str(plan.date_dir()))
                },
            },
            CaptureStage::DateDir => match outcome {
                StepOutcome::Failed(d) => self.finish(Err(ReportError::Io(IoStep::CreateDateDir, d))),
                _ => {
                    self.stage = CaptureStage::Listing;
                    let plan = self.plan.as_ref().unwrap();
                    CaptureAction::ListDir(String::from_str(plan.date_dir()))
                },
            },
            CaptureStage::Listing => match outcome {
                StepOutcome::Listed(names) => {
                    let chosen = self.plan.as_ref().unwrap().artifact_path(&names);
                    match chosen {
                        Ok(dest) => {
                            self.dest = dest;
                            self.stage = CaptureStage::Reading;
                            let plan = self.plan.as_ref().unwrap();
                            CaptureAction::ReadFile(String::from_str(plan.source()))
                        },
                        Err(e) => self.finish(Err(e)),
                    }
                },
                StepOutcome::Failed(d) => self.finish(Err(ReportError::Io(IoStep::ListDateDir, d))),
                _ => self.finish(Err(ReportError::SequenceExhausted)),
            },
            CaptureStage::Reading => match outcome {
                StepOutcome::Read(bytes) => match render_artifact(bytes.as_slice()) {
                    Ok(artifact) => {
                        self.stage = CaptureStage::Writing;
                        CaptureAction::WriteFile(self.dest.clone(), artifact.jpeg)
                    },
                    Err(e) => self.finish(Err(e)),
                },
                StepOutcome::Failed(d) => self.finish(Err(ReportError::Codec(CodecStep::Decode, d))),
                _ => self.finish(Err(ReportError::SequenceExhausted)),
            },
            CaptureStage::Writing => match outcome {
                StepOutcome::Failed(d) => self.finish(Err(ReportError::Io(IoStep::CreateArtifact, d))),
                _ => {
                    self.stage = CaptureStage::Cleanup;
                    let plan = self.plan.as_ref().unwrap();
                    CaptureAction::RemoveFile(String::from_str(plan.source()))
                },
            },
            _ => {
                let dest = self.dest.clone();
                self.finish(Ok(dest))
            },
        }
    }
}

/// Starts the capture of the raw screenshot at the probed `source` at local
/// time `now`, given the temp-and-cache allow-list `roots` and the user's
/// pictures directory where it is known. A source that the policy refuses
/// ends the capture at once.
pub fn begin_capture(
    source: PathProbe,
    roots: &Vec<String>,
    pictures: Option<String>,
    now: &LocalStamp,
) -> (r: (CaptureSession, CaptureAction))
    ensures
        r.0.wf(),
        match policy_outcome(Policy::TempAndCache, source, roots@) {
            Err(e) => r.0.stage_spec() == CaptureStage::Finished && r.1 == CaptureAction::Finish(
                Err(e),
            ),
            Ok(_) => match pictures {
                None => r.0.stage_spec() == CaptureStage::Finished && r.1 == CaptureAction::Finish(
                    Err(ReportError::PicturesDirUnknown),
                ),
                Some(p) => {
                    let plan = r.0.plan_spec()->Some_0;
                    &&& r.0.stage_spec() == CaptureStage::OutputDir
                    &&& r.0.plan_spec() is Some
                    &&& plan.source_spec() == policy_outcome(
                        Policy::TempAndCache,
                        source,
                        roots@,
                    )->Ok_0@
                    &&& plan.output_dir_spec() == joined_path(p@, OUTPUT_DIR_NAME@)
                    &&& plan.date_dir_spec() == joined_path(
                        joined_path(p@, OUTPUT_DIR_NAME@),
                        date_dir_text(*now),
                    )
                    &&& plan.stem_spec() == stem_text(*now)
                    &&& r.1 is CreateDir
                    &&& r.1->CreateDir_0@ == plan.output_dir_spec()
                },
            },
        },
{
    match plan_capture(source, roots, pictures, now) {
        Ok(plan) => {
            let first = String::from_str(plan.output_dir());
            (
                CaptureSession { stage: CaptureStage::OutputDir, plan: Some(plan), dest: String::new() },
                CaptureAction::CreateDir(first),
            )
        },
        Err(e) => (
            CaptureSession { stage: CaptureStage::Finished, plan: None, dest: String::new() },
            CaptureAction::Finish(Err(e)),
        ),
    }
}

/// A source that does not resolve to a path under the temp-and-cache
/// allow-list, a symlink included, is refused as a path of that policy. By
/// the contract of [`begin_capture`] its capture is then finished from the
/// start, and a finished capture takes no outcome: it never asks for a
/// directory, a write or a removal.
pub proof fn lemma_refused_capture_writes_nothing(source: PathProbe, roots: Seq<String>)
    requires
        !(source matches PathProbe::Resolved(c) && crate::paths::admitted(c@, roots)),
    ensures
        policy_outcome(Policy::TempAndCache, source, roots) matches Err(
            ReportError::PathRejected(Policy::TempAndCache, _),
        ),
        forall|o: StepOutcome| !accepts(CaptureStage::Finished, o),
{
}

} // verus!
