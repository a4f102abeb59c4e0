//! The analysis of one artifact, step by step.
//!
//! [`begin_analysis`] checks the image and names the first thing to do; the
//! caller performs each [`AnalysisAction`] and hands back how it went, until
//! the session finishes. No request exists before the image has passed the
//! artifact-root policy, and the result counts only once it is kept on disk.
use vstd::prelude::*;
use crate::analysis::{
    authorize_image, body_text, build_request, check_status, data_url, interpret_reply, mime_of,
    prompt_text, reply_outcome, status_outcome, AnalysisRequest, AuthorizedImage, ProviderReply,
};
use crate::context::ContextInfo;
use crate::credentials::{get_vercel_api_key, SecretLookup};
use crate::error::{IoStep, NetworkStep, Policy, ReportError, SerializationStep};
use crate::paths::{artifact_outcome, sidecar_of, PathProbe};

verus! {

/// What the caller is to do next.
pub enum AnalysisAction {
    /// Look the credential up in the credential store.
    LookUpSecret,
    /// Take a snapshot of the ambient context; a lookup that fails leaves
    /// its field empty.
    CollectContext,
    /// Read the whole image at this path.
    ReadFile(String),
    /// Post this request.
    Send(AnalysisRequest),
    /// Parse this response body as the provider's envelope.
    ParseReply(String),
    /// Keep the result, stamped with the present time, at this path.
    StoreResult { path: String, model: String, context: ContextInfo, analysis: String },
    /// The analysis is over, with its text or the failure.
    Finish(Result<String, ReportError>),
}

/// How the caller's last action went.
pub enum AnalysisOutcome {
    Secret(SecretLookup),
    Context(ContextInfo),
    Read(Vec<u8>),
    ReadFailed(String),
    /// The status and body of the response.
    Response(u16, String),
    NetworkFailed(NetworkStep, String),
    Parsed(ProviderReply),
    ParseFailed(String),
    Stored,
    EncodeFailed(String),
    WriteFailed(String),
}

/// Where an analysis stands.
#[derive(Clone, Copy, Debug, PartialEq, Eq, Structural)]
pub enum AnalysisStage {
    Secret,
    Context,
    Reading,
    Sending,
    Parsing,
    Storing,
    Finished,
}

/// Whether an analysis at `stage` takes `outcome` as the answer to its last action.
pub open spec fn accepts(stage: AnalysisStage, outcome: AnalysisOutcome) -> bool {
    match stage {
        AnalysisStage::Secret => outcome is Secret,
        AnalysisStage::Context => outcome is Context,
        AnalysisStage::Reading => outcome is Read || outcome is ReadFailed,
        AnalysisStage::Sending => outcome is Response || outcome is NetworkFailed,
        AnalysisStage::Parsing => outcome is Parsed || outcome is ParseFailed,
        AnalysisStage::Storing => outcome is Stored || outcome is EncodeFailed || outcome is WriteFailed,
        AnalysisStage::Finished => false,
    }
}

/// Whether a request can carry `n` bytes once they are encoded.
pub open spec fn encodable(n: nat) -> bool {
    (n + 2) / 3 * 4 <= usize::MAX
}

/// One analysis in progress.
pub struct AnalysisSession {
    stage: AnalysisStage,
    image: Option<AuthorizedImage>,
    model: String,
    prompt: String,
    api_key: String,
    context: Option<ContextInfo>,
    text: String,
}

impl AnalysisSession {
    /// Where the analysis stands.
    pub closed spec fn stage_spec(&self) -> AnalysisStage {
        self.stage
    }

    /// The admitted image, once its path passed the policy.
    pub closed spec fn image_spec(&self) -> Option<AuthorizedImage> {
        self.image
    }

    /// The model asked for.
    pub closed spec fn model_spec(&self) -> Seq<char> {
        self.model@
    }

    /// The user's prompt.
    pub closed spec fn prompt_spec(&self) -> Seq<char> {
        self.prompt@
    }

    /// The credential, once looked up.
    pub closed spec fn api_key_spec(&self) -> Seq<char> {
        self.api_key@
    }

    /// The ambient context, from its snapshot until it is stored.
    pub closed spec fn context_spec(&self) -> Option<ContextInfo> {
        self.context
    }

    /// The analysis text, once the reply was read.
    pub closed spec fn text_spec(&self) -> Seq<char> {
        self.text@
    }

    /// Only an analysis of an admitted image goes on.
    pub open spec fn wf(&self) -> bool {
        &&& self.stage_spec() != AnalysisStage::Finished ==> self.image_spec() is Some
        &&& (self.stage_spec() == AnalysisStage::Reading || self.stage_spec()
            == AnalysisStage::Sending || self.stage_spec() == AnalysisStage::Parsing)
            ==> self.context_spec() is Some
    }

    /// Where the analysis stands.
    pub fn stage(&self) -> (r: AnalysisStage)
        ensures
            r == self.stage_spec(),
    {
        self.stage
    }

    /// Whether the analysis takes `outcome` as the answer to its last action.
    pub fn accepts(&self, outcome: &AnalysisOutcome) -> (r: bool)
        ensures
            r == accepts(self.stage_spec(), *outcome),
    {
        match (self.stage, outcome) {
            (AnalysisStage::Secret, AnalysisOutcome::Secret(_)) => true,
            (AnalysisStage::Context, AnalysisOutcome::Context(_)) => true,
            (AnalysisStage::Reading, AnalysisOutcome::Read(_)) => true,
            (AnalysisStage::Reading, AnalysisOutcome::ReadFailed(_)) => true,
            (AnalysisStage::Sending, AnalysisOutcome::Response(_, _)) => true,
            (AnalysisStage::Sending, AnalysisOutcome::NetworkFailed(_, _)) => true,
            (AnalysisStage::Parsing, AnalysisOutcome::Parsed(_)) => true,
            (AnalysisStage::Parsing, AnalysisOutcome::ParseFailed(_)) => true,
            (AnalysisStage::Storing, AnalysisOutcome::Stored) => true,
            (AnalysisStage::Storing, AnalysisOutcome::EncodeFailed(_)) => true,
            (AnalysisStage::Storing, AnalysisOutcome::WriteFailed(_)) => true,
            _ => false,
        }
    }

    fn finish(&mut self, result: Result<String, ReportError>) -> (a: AnalysisAction)
        ensures
            final(self).stage_spec() == AnalysisStage::Finished,
            final(self).image_spec() == old(self).image_spec(),
            final(self).model_spec() == old(self).model_spec(),
            final(self).prompt_spec() == old(self).prompt_spec(),
            final(self).context_spec() == old(self).context_spec(),
            a == AnalysisAction::Finish(result),
    {
        self.stage = AnalysisStage::Finished;
        AnalysisAction::Finish(result)
    }

    /// Takes the outcome of the last action and names the next one.
    pub fn step(&mut self, outcome: AnalysisOutcome) -> (a: AnalysisAction)
        requires
            old(self).wf(),
            accepts(old(self).stage_spec(), outcome),
        ensures
            final(self).wf(),
            final(self).image_spec() == old(self).image_spec(),
            final(self).model_spec() == old(self).model_spec(),
            final(self).prompt_spec() == old(self).prompt_spec(),
            ({
                let image = old(self).image_spec()->Some_0;
                let next = final(self).stage_spec();
                match (old(self).stage_spec(), outcome) {
                    (AnalysisStage::Secret, AnalysisOutcome::Secret(lookup)) => match lookup {
                        SecretLookup::Found(k) => {
                            &&& next == AnalysisStage::Context
                            &&& final(self).api_key_spec() == k@
                            &&& final(self).context_spec() == old(self).context_spec()
                            &&& a == AnalysisAction::CollectContext
                        },
                        _ => next == AnalysisStage::Finished && a is Finish && a->Finish_0
                            == get_outcome(lookup),
                    },
                    (AnalysisStage::Context, AnalysisOutcome::Context(info)) => {
                        &&& next == AnalysisStage::Reading
                        &&& final(self).api_key_spec() == old(self).api_key_spec()
                        &&& final(self).context_spec() == Some(info)
                        &&& a is ReadFile && a->ReadFile_0@ == image.path_spec()
                    },
                    (AnalysisStage::Reading, AnalysisOutcome::Read(bytes)) => final(self).context_spec()
                        == old(self).context_spec() && if encodable(
                        bytes@.len(),
                    ) {
                        &&& next == AnalysisStage::Sending
                        &&& a is Send
                        &&& a->Send_0.url_spec() == crate::analysis::ENDPOINT@
                        &&& a->Send_0.authorization_spec() == "Bearer "@ + old(self).api_key_spec()
                        &&& a->Send_0.body_spec() == body_text(
                            old(self).model_spec(),
                            prompt_text(old(self).prompt_spec(), old(self).context_spec()->Some_0),
                            data_url(mime_of(image.path_spec()), bytes@),
                        )
                    } else {
                        next == AnalysisStage::Finished && a is Finish && a->Finish_0 is Err
                            && a->Finish_0->Err_0 matches ReportError::Io(IoStep::ReadImage, _)
                    },
                    (AnalysisStage::Reading, AnalysisOutcome::ReadFailed(d)) => next
                        == AnalysisStage::Finished && a == AnalysisAction::Finish(
                        Err(ReportError::Io(IoStep::ReadImage, d)),
                    ),
                    (AnalysisStage::Sending, AnalysisOutcome::Response(status, body)) => final(self).context_spec()
                        == old(self).context_spec() && match status_outcome(status, body) {
                        Ok(b) => next == AnalysisStage::Parsing && a == AnalysisAction::ParseReply(b),
                        Err(e) => next == AnalysisStage::Finished && a == AnalysisAction::Finish(Err(e)),
                    },
                    (AnalysisStage::Sending, AnalysisOutcome::NetworkFailed(s, d)) => next
                        == AnalysisStage::Finished && a == AnalysisAction::Finish(
                        Err(ReportError::Network(s, d)),
                    ),
                    (AnalysisStage::Parsing, AnalysisOutcome::Parsed(reply)) => match reply_outcome(reply) {
                        Ok(t) => {
                            &&& next == AnalysisStage::Storing
                            &&& final(self).text_spec() == t@
                            &&& a is StoreResult
                            &&& a->path@ == sidecar_of(image.path_spec())
                            &&& a->model@ == old(self).model_spec()
                            &&& a->context == old(self).context_spec()->Some_0
                            &&& a->analysis@ == t@
                        },
                        Err(e) => next == AnalysisStage::Finished && a == AnalysisAction::Finish(Err(e)),
                    },
                    (AnalysisStage::Parsing, AnalysisOutcome::ParseFailed(d)) => next
                        == AnalysisStage::Finished && a == AnalysisAction::Finish(
                        Err(ReportError::Serialization(SerializationStep::ParseReply, d)),
                    ),
                    (AnalysisStage::Storing, AnalysisOutcome::Stored) => next
                        == AnalysisStage::Finished && a is Finish && a->Finish_0 is Ok
                        && a->Finish_0->Ok_0@ == old(self).text_spec(),
                    (AnalysisStage::Storing, AnalysisOutcome::EncodeFailed(d)) => next
                        == AnalysisStage::Finished && a == AnalysisAction::Finish(
                        Err(ReportError::Serialization(SerializationStep::EncodeSidecar, d)),
                    ),
                    (AnalysisStage::Storing, AnalysisOutcome::WriteFailed(d)) => next
                        == AnalysisStage::Finished && a == AnalysisAction::Finish(
                        Err(ReportError::Io(IoStep::WriteSidecar, d)),
                    ),
                    _ => false,
                }
            }),
    {
        match outcome {
            AnalysisOutcome::Secret(lookup) => match get_vercel_api_key(lookup) {
                Ok(k) => {
                    self.api_key = k;
                    self.stage = AnalysisStage::Context;
                    AnalysisAction::CollectContext
                },
                Err(e) => self.finish(Err(e)),
            },
            AnalysisOutcome::Context(info) => {
                self.context = Some(info);
                self.stage = AnalysisStage::Reading;
                let image = self.image.as_ref().unwrap();
                AnalysisAction::ReadFile(String::from_str(image.path()))
            },
            AnalysisOutcome::Read(bytes) => {
                let n = bytes.len();
                let groups: usize = n / 3 + if n % 3 > 0 {
                    1usize
                } else {
                    0usize
                };
                assert(groups == (n + 2) / 3);
                assert(groups <= usize::MAX / 4 <==> groups * 4 <= usize::MAX) by (nonlinear_arith)
                    requires
                        groups >= 0,
                ;
                if groups > usize::MAX / 4 {
                    return self.finish(
                        Err(ReportError::Io(IoStep::ReadImage, String::from_str("画像が大きすぎます"))),
                    );
                }
                let image = self.image.as_ref().unwrap();
                let context = self.context.as_ref().unwrap();
                let request = build_request(
                    image,
                    bytes.as_slice(),
                    self.api_key.as_str(),
                    self.model.as_str(),
                    self.prompt.as_str(),
                    context,
                );
                self.stage = AnalysisStage::Sending;
                AnalysisAction::Send(request)
            },
            AnalysisOutcome::ReadFailed(d) => self.finish(Err(ReportError::Io(IoStep::ReadImage, d))),
            AnalysisOutcome::Response(status, body) => match check_status(status, body) {
                Ok(b) => {
                    self.stage = AnalysisStage::Parsing;
                    AnalysisAction::ParseReply(b)
                },
                Err(e) => self.finish(Err(e)),
            },
            AnalysisOutcome::NetworkFailed(s, d) => self.finish(Err(ReportError::Network(s, d))),
            AnalysisOutcome::Parsed(reply) => match interpret_reply(reply) {
                Ok(t) => {
                    let image = self.image.as_ref().unwrap();
                    let path = image.sidecar_path();
                    let context = self.context.take().unwrap();
                    self.text = t.clone();
                    self.stage = AnalysisStage::Storing;
                    AnalysisAction::StoreResult { path, model: self.model.clone(), context, analysis: t }
                },
                Err(e) => self.finish(Err(e)),
            },
            AnalysisOutcome::ParseFailed(d) => self.finish(
                Err(ReportError::Serialization(SerializationStep::ParseReply, d)),
            ),
            AnalysisOutcome::Stored => {
                let t = self.text.clone();
                self.finish(Ok(t))
            },
            AnalysisOutcome::EncodeFailed(d) => self.finish(
                Err(ReportError::Serialization(SerializationStep::EncodeSidecar, d)),
            ),
            AnalysisOutcome::WriteFailed(d) => self.finish(Err(ReportError::Io(IoStep::WriteSidecar, d))),
        }
    }
}

/// What a failed credential lookup ends an analysis with.
pub open spec fn get_outcome(lookup: SecretLookup) -> Result<String, ReportError> {
    match lookup {
        SecretLookup::Found(k) => Ok(k),
        SecretLookup::Missing => Err(ReportError::CredentialMissing),
        SecretLookup::Failed(d) => Err(ReportError::CredentialStore(d)),
    }
}

/// Starts the analysis of the probed image with `model` and `prompt`, given
/// the application's output tree `artifact_root` where the pictures
/// directory is known. An image that the policy refuses ends the analysis
/// at once.
pub fn begin_analysis(
    image: PathProbe,
    artifact_root: Option<String>,
    model: String,
    prompt: String,
) -> (r: (AnalysisSession, AnalysisAction))
    ensures
        r.0.wf(),
        r.0.model_spec() == model@,
        r.0.prompt_spec() == prompt@,
        match artifact_outcome(image, artifact_root) {
            Err(e) => r.0.stage_spec() == AnalysisStage::Finished && r.1 == AnalysisAction::Finish(
                Err(e),
            ),
            Ok(p) => r.0.stage_spec() == AnalysisStage::Secret && r.1 == AnalysisAction::LookUpSecret
                && r.0.image_spec()->Some_0.path_spec() == p@,
        },
{
    match authorize_image(image, artifact_root) {
        Ok(img) => (
            AnalysisSession {
                stage: AnalysisStage::Secret,
                image: Some(img),
                model,
                prompt,
                api_key: String::new(),
                context: None,
                text: String::new(),
            },
            AnalysisAction::LookUpSecret,
        ),
        Err(e) => (
            AnalysisSession {
                stage: AnalysisStage::Finished,
                image: None,
                model,
                prompt,
                api_key: String::new(),
                context: None,
                text: String::new(),
            },
            AnalysisAction::Finish(Err(e)),
        ),
    }
}

/// An image outside the application's own output tree is refused as a path
/// of the artifact-root policy. By the contract of [`begin_analysis`] its
/// analysis is then finished from the start, and a finished analysis takes
/// no outcome: it never asks for the credential, the file, or a request to
/// be sent.
pub proof fn lemma_foreign_image_sends_nothing(image: PathProbe, root: String)
    requires
        !(image matches PathProbe::Resolved(c) && crate::paths::within(c@, root@)),
    ensures
        artifact_outcome(image, Some(root)) matches Err(
            ReportError::PathRejected(Policy::ArtifactRoot, _),
        ),
        forall|o: AnalysisOutcome| !accepts(AnalysisStage::Finished, o),
{
    match image {
        PathProbe::Resolved(c) => {
            if crate::paths::admitted(c@, seq![root]) {
                let i = choose|i: int|
                    0 <= i < 1 && crate::paths::within(c@, #[trigger] seq![root][i]@);
                assert(seq![root][i] == root);
            }
        },
        _ => {},
    }
}

} // verus!
