//! Compiling an assembled LaTeX text into PDF bytes.
//!
//! One compilation runs in a fresh, uniquely named scratch workspace: the
//! source is written there, the external toolchain runs against it in
//! non-interactive mode, and the workspace is removed again on every exit
//! path, success or failure, before the outcome is delivered. The
//! filesystem and subprocess work happens outside the library, which
//! dictates each next step and decides the outcome through [`CompileJob`].

use vstd::prelude::*;

use crate::errors::ApiError;
use crate::upload::fresh_document_id;

verus! {

/// The LaTeX-to-PDF compiler of the pipeline.
pub struct PdfService;

impl PdfService {
    /// A compiler handle.
    pub fn new() -> PdfService {
        PdfService
    }

    /// The argument list of the external toolchain: non-interactive batch
    /// mode, output into the scratch workspace, then the source path.
    pub fn pdflatex_args(&self, workspace: &str, source: &str) -> (args: Vec<String>)
        ensures
            args@.len() == 4,
            args@[0]@ == "-interaction=nonstopmode"@,
            args@[1]@ == "-output-directory"@,
            args@[2]@ == workspace@,
            args@[3]@ == source@,
    {
        let mut args: Vec<String> = Vec::new();
        args.push(String::from_str("-interaction=nonstopmode"));
        args.push(String::from_str("-output-directory"));
        args.push(String::from_str(workspace));
        args.push(String::from_str(source));
        args
    }

    /// A fresh name for one compilation's scratch workspace: the service's
    /// prefix followed by a newly drawn 36-character identifier.
    pub fn fresh_scratch_name(&self) -> (name: String)
        ensures
            name@.len() == "noteforge-"@.len() + 36,
            "noteforge-"@.is_prefix_of(name@),
    {
        let mut name = String::from_str("noteforge-");
        let id = fresh_document_id();
        name.append(id.as_str());
        proof {
            assert(name@.subrange(0, "noteforge-"@.len() as int) =~= "noteforge-"@);
        }
        name
    }
}

/// Where one compilation stands.
pub enum CompilePhase {
    /// Nothing exists on disk yet.
    Start,
    /// The scratch workspace exists and is still empty.
    Allocated,
    /// The source file stands in the workspace.
    SourceReady,
    /// The outcome is decided, but the workspace still exists and must be
    /// removed before anything is delivered.
    CleaningUp,
    /// The workspace is gone; the outcome may be delivered.
    Swept,
}

/// What the surrounding runner must do next.
#[derive(PartialEq, Eq, Structural, Debug)]
pub enum CompileAction {
    /// Create the scratch workspace.
    CreateWorkspace,
    /// Write the LaTeX source into the workspace.
    WriteSource,
    /// Run the external toolchain against the source.
    RunTool,
    /// Remove the scratch workspace.
    RemoveWorkspace,
    /// Hand the decided outcome to the caller.
    Deliver,
}

/// The action asked for in each phase: the workspace is built up step by
/// step, and once an outcome is decided while the workspace exists, its
/// removal is the only next step; delivery comes last.
pub open spec fn spec_next_action(phase: CompilePhase) -> CompileAction {
    match phase {
        CompilePhase::Start => CompileAction::CreateWorkspace,
        CompilePhase::Allocated => CompileAction::WriteSource,
        CompilePhase::SourceReady => CompileAction::RunTool,
        CompilePhase::CleaningUp => CompileAction::RemoveWorkspace,
        CompilePhase::Swept => CompileAction::Deliver,
    }
}

/// One compilation of one LaTeX text, driven to completion step by step.
///
/// The runner repeatedly asks for the next action, performs it, and
/// reports what happened; the job decides the phase and the outcome. Its
/// contracts force every run, failed or not, through the removal of the
/// scratch workspace before the outcome can be delivered.
pub struct CompileJob {
    phase: CompilePhase,
    outcome: Option<Result<Vec<u8>, ApiError>>,
}

impl CompileJob {
    /// The job's phase.
    pub closed spec fn phase(&self) -> CompilePhase {
        self.phase
    }

    /// The decided outcome, present from the moment the run's fate is known.
    pub closed spec fn outcome_spec(&self) -> Option<Result<Vec<u8>, ApiError>> {
        self.outcome
    }

    /// The job's invariant: an outcome exists exactly once the run's fate
    /// is decided.
    pub closed spec fn wf(&self) -> bool {
        match self.phase {
            CompilePhase::Start => self.outcome is None,
            CompilePhase::Allocated => self.outcome is None,
            CompilePhase::SourceReady => self.outcome is None,
            CompilePhase::CleaningUp => self.outcome is Some,
            CompilePhase::Swept => self.outcome is Some,
        }
    }

    /// Opens a compilation; nothing exists on disk yet.
    pub fn new() -> (job: CompileJob)
        ensures
            job.wf(),
            job.phase() is Start,
    {
        CompileJob { phase: CompilePhase::Start, outcome: None }
    }

    /// What the runner must do next.
    pub fn next_action(&self) -> (action: CompileAction)
        ensures
            action == spec_next_action(self.phase()),
    {
        match self.phase {
            CompilePhase::Start => CompileAction::CreateWorkspace,
            CompilePhase::Allocated => CompileAction::WriteSource,
            CompilePhase::SourceReady => CompileAction::RunTool,
            CompilePhase::CleaningUp => CompileAction::RemoveWorkspace,
            CompilePhase::Swept => CompileAction::Deliver,
        }
    }

    /// Records whether the scratch workspace could be created. When it
    /// could not, nothing exists on disk, so the run is already swept and
    /// fails with a compile-class error.
    pub fn workspace_created(&mut self, ok: bool)
        requires
            old(self).wf(),
            old(self).phase() is Start,
        ensures
            final(self).wf(),
            ok ==> final(self).phase() is Allocated,
            !ok ==> (final(self).phase() is Swept && (final(self).outcome_spec()
                matches Some(outcome) && outcome matches Err(error) && error is LaTeXError)),
    {
        if ok {
            self.phase = CompilePhase::Allocated;
        } else {
            self.phase = CompilePhase::Swept;
            self.outcome = Some(
                Err(ApiError::LaTeXError(String::from_str("Failed to create temp dir"))),
            );
        }
    }

    /// Records whether the LaTeX source could be written into the
    /// workspace. A failure decides the run against the caller, but the
    /// workspace exists and must still be removed first.
    pub fn source_written(&mut self, ok: bool)
        requires
            old(self).wf(),
            old(self).phase() is Allocated,
        ensures
            final(self).wf(),
            ok ==> final(self).phase() is SourceReady,
            !ok ==> (final(self).phase() is CleaningUp && (final(self).outcome_spec()
                matches Some(outcome) && outcome matches Err(error) && error is LaTeXError)),
    {
        if ok {
            self.phase = CompilePhase::SourceReady;
        } else {
            self.phase = CompilePhase::CleaningUp;
            self.outcome = Some(
                Err(ApiError::LaTeXError(String::from_str("Failed to write LaTeX file"))),
            );
        }
    }

    /// Records how the external toolchain ended: its exit state, the PDF
    /// bytes if it produced the output artifact, and its captured
    /// diagnostic output. The run succeeds exactly when the toolchain
    /// exited cleanly and the artifact exists; every failure carries a
    /// compile-class error holding the diagnostics. Either way the
    /// workspace must be removed next.
    pub fn tool_finished(&mut self, exit_ok: bool, pdf: Option<Vec<u8>>, log: &String)
        requires
            old(self).wf(),
            old(self).phase() is SourceReady,
        ensures
            final(self).wf(),
            final(self).phase() is CleaningUp,
            final(self).outcome_spec() matches Some(outcome) && {
                &&& outcome is Ok <==> (exit_ok && pdf is Some)
                &&& (exit_ok && pdf is Some) ==> outcome->Ok_0 == pdf->0
                &&& !(exit_ok && pdf is Some) ==> outcome->Err_0 is LaTeXError
                &&& !exit_ok ==> (outcome matches Err(error) && error matches ApiError::LaTeXError(
                    message,
                ) && message@ == "PDF generation failed: "@ + log@)
            },
    {
        self.phase = CompilePhase::CleaningUp;
        if !exit_ok {
            let message = String::from_str("PDF generation failed: ").concat(log.as_str());
            self.outcome = Some(Err(ApiError::LaTeXError(message)));
        } else {
            match pdf {
                Some(bytes) => {
                    self.outcome = Some(Ok(bytes));
                },
                None => {
                    self.outcome = Some(
                        Err(ApiError::LaTeXError(String::from_str("Failed to read PDF file"))),
                    );
                },
            }
        }
    }

    /// Records that the scratch workspace has been removed.
    pub fn workspace_removed(&mut self)
        requires
            old(self).wf(),
            old(self).phase() is CleaningUp,
        ensures
            final(self).wf(),
            final(self).phase() is Swept,
            final(self).outcome_spec() == old(self).outcome_spec(),
    {
        self.phase = CompilePhase::Swept;
    }

    /// Hands out the decided outcome; only a swept job, one whose scratch
    /// workspace no longer exists, can deliver.
    pub fn deliver(self) -> (outcome: Result<Vec<u8>, ApiError>)
        requires
            self.wf(),
            self.phase() is Swept,
        ensures
            Some(outcome) == self.outcome_spec(),
    {
        match self.outcome {
            Some(outcome) => outcome,
            None => {
                // wf and the swept phase rule this arm out.
                proof {
                    assert(false);
                }
                Err(ApiError::LaTeXError(String::new()))
            },
        }
    }
}

/// A compilation never leaves its scratch workspace behind: the outcome is
/// delivered only in the swept phase, and from the phase where an outcome
/// exists beside a live workspace the one next action is the workspace's
/// removal.
pub proof fn lemma_no_residual_workspace(phase: CompilePhase)
    ensures
        spec_next_action(phase) is Deliver ==> phase is Swept,
        phase is CleaningUp ==> spec_next_action(phase) is RemoveWorkspace,
{
}

} // verus!
