//! One mint job: the steps an artifact goes through from its sequence number
//! to its registered identity.
//!
//! A job computes what it can itself: the traits and the document. Everything
//! else is work done elsewhere: rendering, uploads, polling, registration.
//! For that work the job says what is to be done next, and takes what
//! happened as an event. It moves forward one step at a time and never back;
//! a failure at any step ends it.

use crate::codec::{base64_url_bytes, base64_url_decode};
use crate::configuration::Settings;
use crate::nft::arweave::{ArweaveError, Status};
use crate::nft::config::{catalog_fault, check_catalog, Config, ConfigError, ConfigView};
use crate::nft::identity::{
    identity_request, validate, validation, Address, IdentityRecord, IdentityRequest,
    IdentityRequestView, ValidationError,
};
use crate::nft::metadata::{assembled, create_metadata, patch_image, patched, NFTMetadata};
use crate::nft::selector::{select, selection, RandomizationError};
use crate::text::{decimal, decimal_text};
use vstd::prelude::*;

verus! {

/// The steps of a job, in their order.
#[derive(Debug, Clone, Copy, PartialEq, Eq, Structural)]
pub enum Step {
    Validation,
    Metadata,
    Art,
    ImageUpload,
    MetadataUpload,
    Registration,
    Announcement,
}

/// Why a job failed.
#[derive(Debug, Clone, Copy, PartialEq, Eq, Structural)]
pub enum Cause {
    /// The identity could never be registered.
    Identity(ValidationError),
    /// No trait could be drawn for a group.
    Randomization(RandomizationError),
    /// The catalog and the assets do not fit together.
    Config(ConfigError),
    /// The compositing tool failed.
    Render,
    /// The storage network failed for good.
    Upload,
    /// The one who polls gave up waiting for a confirmation.
    Timeout,
    /// The registration was not accepted.
    Submission,
    /// The job was abandoned.
    Abandoned,
}

impl Step {
    /// The name of the step, as a failure is reported under.
    pub fn name(&self) -> (r: &'static str)
        ensures
            r@ == match *self {
                Step::Validation => "validation"@,
                Step::Metadata => "metadata"@,
                Step::Art => "art"@,
                Step::ImageUpload => "image upload"@,
                Step::MetadataUpload => "metadata upload"@,
                Step::Registration => "registration"@,
                Step::Announcement => "announcement"@,
            },
    {
        match self {
            Step::Validation => "validation",
            Step::Metadata => "metadata",
            Step::Art => "art",
            Step::ImageUpload => "image upload",
            Step::MetadataUpload => "metadata upload",
            Step::Registration => "registration",
            Step::Announcement => "announcement",
        }
    }
}

impl Cause {
    /// The category of the cause, as a failure is reported under: no more is
    /// told of a failure than its step and this.
    pub fn category(&self) -> (r: &'static str)
        ensures
            r@ == match *self {
                Cause::Identity(_) => "IdentityError"@,
                Cause::Submission => "IdentityError"@,
                Cause::Randomization(_) => "RandomizationError"@,
                Cause::Config(_) => "ConfigError"@,
                Cause::Render => "RenderError"@,
                Cause::Upload => "UploadError"@,
                Cause::Timeout => "UploadError"@,
                Cause::Abandoned => "Abandoned"@,
            },
    {
        match self {
            Cause::Identity(_) => "IdentityError",
            Cause::Submission => "IdentityError",
            Cause::Randomization(_) => "RandomizationError",
            Cause::Config(_) => "ConfigError",
            Cause::Render => "RenderError",
            Cause::Upload => "UploadError",
            Cause::Timeout => "UploadError",
            Cause::Abandoned => "Abandoned",
        }
    }
}

/// Where a job stands, with what it has produced so far.
#[derive(Debug, PartialEq, Eq)]
pub enum JobState {
    SequenceAssigned,
    MetadataGenerated { metadata: NFTMetadata },
    ArtRendered { metadata: NFTMetadata, image_path: String },
    ImageUploaded { metadata: NFTMetadata, image: String },
    MetadataPatched { metadata: NFTMetadata, image: String },
    MetadataUploaded { image: String, document: String },
    IdentityCreated { image: String, document: String, identity: IdentityRecord },
    Complete { image: String, document: String, identity: IdentityRecord },
    /// The job failed at `step`. `orphan` is the content identifier of the
    /// image, if the network had accepted it: it stays published.
    Failed { step: Step, cause: Cause, orphan: Option<String> },
}

/// What happened to the work a job asked for.
#[derive(Debug)]
pub enum JobEvent {
    /// The image was composed and stands at this path.
    ArtRendered { image_path: String },
    /// A layer that must be there was not.
    LayerMissing(ConfigError),
    /// The compositing tool failed.
    RenderFailed,
    /// The network accepted the upload under this content identifier.
    Submitted { id: String },
    /// The upload could not be submitted.
    UploadFailed,
    /// The network was asked about the image and answered, or failed to.
    Polled(Result<Status, ArweaveError>),
    /// The one who polls gives up.
    TimedOut,
    /// The identity was registered.
    Registered(IdentityRecord),
    /// The registration was not accepted.
    RegistrationFailed,
    /// The completion was announced.
    Announced,
    /// The job is given up.
    Abandoned,
}

/// What is to be done next for a job.
#[derive(Debug, Clone, Copy, PartialEq, Eq, Structural)]
pub enum JobAction {
    /// Select the traits and assemble the document.
    GenerateMetadata,
    /// Compose the image.
    RenderArt,
    /// Publish the image.
    UploadImage,
    /// Ask whether the image is confirmed.
    PollImage,
    /// Publish the document.
    UploadMetadata,
    /// Register the identity.
    RegisterIdentity,
    /// Announce the completion.
    Announce,
    /// Nothing: the job has ended.
    Nothing,
}

/// A mint job for one requester.
#[derive(Debug, PartialEq, Eq)]
pub struct VerusNFT {
    pub user_id: u64,
    pub vrsc_address: Address,
    pub sequence: u64,
    pub edition: String,
    /// Whether the identity is to be registered on the test network.
    pub testnet: bool,
    /// Whether the namespace of the series is known to the network.
    pub namespace_resolves: bool,
    pub state: JobState,
}

/// The step that is under way in `state`.
pub open spec fn current_step(state: JobState) -> Step {
    match state {
        JobState::SequenceAssigned => Step::Metadata,
        JobState::MetadataGenerated { .. } => Step::Art,
        JobState::ArtRendered { .. } => Step::ImageUpload,
        JobState::ImageUploaded { .. } => Step::ImageUpload,
        JobState::MetadataPatched { .. } => Step::MetadataUpload,
        JobState::MetadataUploaded { .. } => Step::Registration,
        JobState::IdentityCreated { .. } => Step::Announcement,
        JobState::Complete { .. } => Step::Announcement,
        JobState::Failed { step, .. } => step,
    }
}

/// Whether a job in `state` has ended.
pub open spec fn ended(state: JobState) -> bool {
    state is Complete || state is Failed
}

/// What is to be done next in `state`.
pub open spec fn action_in(state: JobState) -> JobAction {
    match state {
        JobState::SequenceAssigned => JobAction::GenerateMetadata,
        JobState::MetadataGenerated { .. } => JobAction::RenderArt,
        JobState::ArtRendered { .. } => JobAction::UploadImage,
        JobState::ImageUploaded { .. } => JobAction::PollImage,
        JobState::MetadataPatched { .. } => JobAction::UploadMetadata,
        JobState::MetadataUploaded { .. } => JobAction::RegisterIdentity,
        JobState::IdentityCreated { .. } => JobAction::Announce,
        JobState::Complete { .. } => JobAction::Nothing,
        JobState::Failed { .. } => JobAction::Nothing,
    }
}

/// The state that follows `state` on `event`.
///
/// Each state takes the outcome of the work it asked for and nothing else:
/// any other event leaves it as it is. While the image is polled, an answer
/// of pending and an error that may pass change nothing; only a confirmation
/// moves the job on, and only a lasting error, the poller's giving up or
/// abandonment fails it. A job that is abandoned before its end fails at the
/// step under way. A job that has ended stays as it is.
pub open spec fn next_state(state: JobState, event: JobEvent) -> JobState {
    if ended(state) {
        state
    } else if event is Abandoned {
        failed(state, current_step(state), Cause::Abandoned)
    } else {
        match (state, event) {
            (JobState::MetadataGenerated { metadata }, JobEvent::ArtRendered { image_path }) => {
                JobState::ArtRendered { metadata, image_path }
            },
            (JobState::MetadataGenerated { .. }, JobEvent::LayerMissing(e)) => {
                failed(state, Step::Art, Cause::Config(e))
            },
            (JobState::MetadataGenerated { .. }, JobEvent::RenderFailed) => {
                failed(state, Step::Art, Cause::Render)
            },
            (JobState::ArtRendered { metadata, .. }, JobEvent::Submitted { id }) => {
                JobState::ImageUploaded { metadata, image: id }
            },
            (JobState::ArtRendered { .. }, JobEvent::UploadFailed) => {
                failed(state, Step::ImageUpload, Cause::Upload)
            },
            (JobState::ImageUploaded { metadata, image }, JobEvent::Polled(answer)) => {
                match answer {
                    Ok(Status::Confirmed(_)) => JobState::MetadataPatched {
                        metadata: patched(metadata, image),
                        image,
                    },
                    Ok(Status::Pending) => state,
                    Err(e) => if e.kind.transient() {
                        state
                    } else {
                        failed(state, Step::ImageUpload, Cause::Upload)
                    },
                }
            },
            (JobState::ImageUploaded { .. }, JobEvent::TimedOut) => {
                failed(state, Step::ImageUpload, Cause::Timeout)
            },
            (JobState::MetadataPatched { image, .. }, JobEvent::Submitted { id }) => {
                if base64_url_bytes(id@) is Some {
                    JobState::MetadataUploaded { image, document: id }
                } else {
                    failed(
                        state,
                        Step::Registration,
                        Cause::Identity(ValidationError::UndecodableContent),
                    )
                }
            },
            (JobState::MetadataPatched { .. }, JobEvent::UploadFailed) => {
                failed(state, Step::MetadataUpload, Cause::Upload)
            },
            (JobState::MetadataUploaded { image, document }, JobEvent::Registered(identity)) => {
                JobState::IdentityCreated { image, document, identity }
            },
            (JobState::MetadataUploaded { .. }, JobEvent::RegistrationFailed) => {
                failed(state, Step::Registration, Cause::Submission)
            },
            (JobState::IdentityCreated { image, document, identity }, JobEvent::Announced) => {
                JobState::Complete { image, document, identity }
            },
            _ => state,
        }
    }
}

/// The failed state that a job in `state` comes to at `step` for `cause`;
/// the image stays published if the network had accepted it.
pub open spec fn failed(state: JobState, step: Step, cause: Cause) -> JobState {
    JobState::Failed { step, cause, orphan: image_of(state) }
}

/// The request for the identity of an artifact, as far as it is known before
/// the document is published: without a content map.
pub open spec fn early_request(
    sequence: u64,
    edition: Seq<char>,
    address: Address,
    testnet: bool,
) -> IdentityRequestView {
    IdentityRequestView {
        name: decimal_text(sequence as nat),
        namespace: edition,
        address: address.text@,
        address_testnet: address.testnet,
        content_map: Seq::empty(),
        testnet,
    }
}

impl VerusNFT {
    /// A job that has its sequence number and nothing else yet.
    pub fn new(
        user_id: u64,
        vrsc_address: Address,
        sequence: u64,
        edition: String,
        testnet: bool,
        namespace_resolves: bool,
    ) -> (job: VerusNFT)
        ensures
            job == (VerusNFT {
                user_id,
                vrsc_address,
                sequence,
                edition,
                testnet,
                namespace_resolves,
                state: JobState::SequenceAssigned,
            }),
    {
        VerusNFT {
            user_id,
            vrsc_address,
            sequence,
            edition,
            testnet,
            namespace_resolves,
            state: JobState::SequenceAssigned,
        }
    }

    /// What validation finds of the identity this job will ask for, before
    /// anything is published.
    pub open spec fn early_validation(&self) -> Result<(), ValidationError> {
        validation(
            early_request(self.sequence, self.edition@, self.vrsc_address, self.testnet),
            self.namespace_resolves,
        )
    }

    /// Whether `after` is this job once its metadata has been generated from
    /// `config`: failed if its identity could never be registered, if the
    /// catalog is at fault, or if no trait could be drawn for a group; else
    /// holding the document assembled from the traits selected with the
    /// requester's number as the seed.
    pub open spec fn metadata_generated(&self, config: ConfigView, after: VerusNFT) -> bool {
        &&& after.user_id == self.user_id
        &&& after.vrsc_address == self.vrsc_address
        &&& after.sequence == self.sequence
        &&& after.edition == self.edition
        &&& after.testnet == self.testnet
        &&& after.namespace_resolves == self.namespace_resolves
        &&& if !(self.state is SequenceAssigned) {
            after.state == self.state
        } else {
            match self.early_validation() {
                Err(e) => after.state == JobState::Failed {
                    step: Step::Validation,
                    cause: Cause::Identity(e),
                    orphan: None,
                },
                Ok(_) => match catalog_fault(config) {
                    Some(e) => after.state == JobState::Failed {
                        step: Step::Metadata,
                        cause: Cause::Config(e),
                        orphan: None,
                    },
                    None => match selection(config, self.user_id) {
                        Err(e) => after.state == JobState::Failed {
                            step: Step::Metadata,
                            cause: Cause::Randomization(e),
                            orphan: None,
                        },
                        Ok(traits) => after.state matches JobState::MetadataGenerated { metadata }
                            && metadata@ == assembled(self.user_id, self.sequence, traits, config),
                    },
                },
            }
        }
    }

    /// Validates the identity the job will ask for, selects the traits with
    /// the requester's number as the seed, and assembles the document.
    ///
    /// Validation comes first: a job whose identity could never be registered
    /// fails before anything is rendered or published.
    pub fn generate_metadata(self, config: &Config) -> (job: VerusNFT)
        ensures
            self.metadata_generated(config@, job),
    {
        let mut job = self;
        match job.state {
            JobState::SequenceAssigned => {
                let request = IdentityRequest {
                    name: decimal(job.sequence),
                    namespace: job.edition.clone(),
                    address: Address {
                        text: job.vrsc_address.text.clone(),
                        testnet: job.vrsc_address.testnet,
                    },
                    content_map: Vec::new(),
                    testnet: job.testnet,
                };
                assert(request@.content_map =~= Seq::<(Seq<char>, Seq<char>)>::empty());
                match validate(&request, job.namespace_resolves) {
                    Err(e) => {
                        job.state = JobState::Failed {
                            step: Step::Validation,
                            cause: Cause::Identity(e),
                            orphan: None,
                        };
                    },
                    Ok(_) => match check_catalog(config) {
                        Err(e) => {
                            job.state = JobState::Failed {
                                step: Step::Metadata,
                                cause: Cause::Config(e),
                                orphan: None,
                            };
                        },
                        Ok(_) => match select(config, job.user_id) {
                            Err(e) => {
                                job.state = JobState::Failed {
                                    step: Step::Metadata,
                                    cause: Cause::Randomization(e),
                                    orphan: None,
                                };
                            },
                            Ok(traits) => {
                                let metadata = create_metadata(
                                    job.user_id,
                                    job.sequence,
                                    traits,
                                    config,
                                );
                                job.state = JobState::MetadataGenerated { metadata };
                            },
                        },
                    },
                }
            },
            _ => {},
        }
        job
    }

    /// Starts a job for `user_id` under the number `sequence`, for the series
    /// and the network that `app_config` names, and generates its metadata.
    pub fn generate(
        user_id: u64,
        vrsc_address: Address,
        sequence: u64,
        namespace_resolves: bool,
        app_config: &Settings,
        config: &Config,
    ) -> (job: VerusNFT)
        ensures
            (VerusNFT {
                user_id,
                vrsc_address,
                sequence,
                edition: app_config.application.series,
                testnet: app_config.application.testnet,
                namespace_resolves,
                state: JobState::SequenceAssigned,
            }).metadata_generated(config@, job),
    {
        VerusNFT::new(
            user_id,
            vrsc_address,
            sequence,
            app_config.application.series.clone(),
            app_config.application.testnet,
            namespace_resolves,
        ).generate_metadata(config)
    }

    /// The job after `event`.
    pub fn advance(self, event: JobEvent) -> (job: VerusNFT)
        ensures
            job == (VerusNFT { state: next_state(self.state, event), ..self }),
    {
        let mut job = self;
        job.state = step_state(job.state, event);
        job
    }

    /// What is to be done next.
    pub fn action(&self) -> (action: JobAction)
        ensures
            action == action_in(self.state),
    {
        match &self.state {
            JobState::SequenceAssigned => JobAction::GenerateMetadata,
            JobState::MetadataGenerated { .. } => JobAction::RenderArt,
            JobState::ArtRendered { .. } => JobAction::UploadImage,
            JobState::ImageUploaded { .. } => JobAction::PollImage,
            JobState::MetadataPatched { .. } => JobAction::UploadMetadata,
            JobState::MetadataUploaded { .. } => JobAction::RegisterIdentity,
            JobState::IdentityCreated { .. } => JobAction::Announce,
            JobState::Complete { .. } => JobAction::Nothing,
            JobState::Failed { .. } => JobAction::Nothing,
        }
    }

    /// Whether the job has ended, complete or failed.
    pub fn is_ended(&self) -> (r: bool)
        ensures
            r == ended(self.state),
    {
        match &self.state {
            JobState::Complete { .. } => true,
            JobState::Failed { .. } => true,
            _ => false,
        }
    }

    /// The failing step and the cause, if the job has failed.
    pub fn failure(&self) -> (r: Option<(Step, Cause)>)
        ensures
            r == match self.state {
                JobState::Failed { step, cause, .. } => Some((step, cause)),
                _ => None::<(Step, Cause)>,
            },
    {
        match &self.state {
            JobState::Failed { step, cause, .. } => Some((*step, *cause)),
            _ => None,
        }
    }

    /// The content identifier of an image that a failed job leaves published.
    pub fn orphan(&self) -> (r: Option<&String>)
        ensures
            r == match self.state {
                JobState::Failed { orphan: Some(image), .. } => Some(&image),
                _ => None::<&String>,
            },
    {
        match &self.state {
            JobState::Failed { orphan: Some(image), .. } => Some(image),
            _ => None,
        }
    }

    /// A new job for the requester of this one, under the number `sequence`.
    ///
    /// Only a failed job is tried again, and only under a number later than
    /// its own. The new job starts from the beginning: nothing that the
    /// failed one produced or published is taken over.
    pub fn retry(&self, sequence: u64) -> (r: Option<VerusNFT>)
        ensures
            r is Some <==> self.state is Failed && sequence > self.sequence,
            r matches Some(job) ==> job == (VerusNFT {
                sequence,
                state: JobState::SequenceAssigned,
                ..*self
            }),
    {
        match &self.state {
            JobState::Failed { .. } => {
                if sequence > self.sequence {
                    Some(
                        VerusNFT {
                            user_id: self.user_id,
                            vrsc_address: Address {
                                text: self.vrsc_address.text.clone(),
                                testnet: self.vrsc_address.testnet,
                            },
                            sequence,
                            edition: self.edition.clone(),
                            testnet: self.testnet,
                            namespace_resolves: self.namespace_resolves,
                            state: JobState::SequenceAssigned,
                        },
                    )
                } else {
                    None
                }
            },
            _ => None,
        }
    }

    /// What a job that has its identity has produced: the content identifier
    /// of the image, that of the document, and the identity. `None` before
    /// the registration and for a failed job.
    pub fn completion(&self) -> (r: Option<(&String, &String, &IdentityRecord)>)
        ensures
            r == match self.state {
                JobState::IdentityCreated { image, document, identity } => Some(
                    (&image, &document, &identity),
                ),
                JobState::Complete { image, document, identity } => Some(
                    (&image, &document, &identity),
                ),
                _ => None::<(&String, &String, &IdentityRecord)>,
            },
    {
        match &self.state {
            JobState::IdentityCreated { image, document, identity } => Some(
                (image, document, identity),
            ),
            JobState::Complete { image, document, identity } => Some((image, document, identity)),
            _ => None,
        }
    }

    /// The request to register the identity with, once the document is
    /// published: `None` before that and after the registration.
    pub fn registration_request(&self) -> (r: Option<IdentityRequest>)
        ensures
            match self.state {
                JobState::MetadataUploaded { document, .. } => match base64_url_bytes(document@) {
                    Some(_) => r matches Some(request) && identity_request_of(
                        self.sequence,
                        self.edition@,
                        self.vrsc_address,
                        document@,
                        self.testnet,
                    ) == Some(request@),
                    None => r is None,
                },
                _ => r is None,
            },
    {
        match &self.state {
            JobState::MetadataUploaded { document, .. } => {
                let address = Address {
                    text: self.vrsc_address.text.clone(),
                    testnet: self.vrsc_address.testnet,
                };
                match identity_request(
                    self.sequence,
                    self.edition.as_str(),
                    address,
                    document.as_str(),
                    self.testnet,
                ) {
                    Ok(request) => Some(request),
                    Err(_) => None,
                }
            },
            _ => None,
        }
    }
}

/// The request for the identity of the artifact with number `sequence`, once
/// its document is published under `content_id`.
pub open spec fn identity_request_of(
    sequence: u64,
    edition: Seq<char>,
    address: Address,
    content_id: Seq<char>,
    testnet: bool,
) -> Option<IdentityRequestView> {
    match base64_url_bytes(content_id) {
        Some(bytes) => Some(
            IdentityRequestView {
                name: decimal_text(sequence as nat),
                namespace: edition,
                address: address.text@,
                address_testnet: address.testnet,
                content_map: seq![
                    (crate::nft::identity::metadata_key_text(), crate::codec::hex_text(bytes)),
                ],
                testnet,
            },
        ),
        None => None,
    }
}

/// The state that follows `state` on `event`.
pub fn step_state(state: JobState, event: JobEvent) -> (r: JobState)
    ensures
        r == next_state(state, event),
{
    match (state, event) {
        (JobState::Complete { image, document, identity }, _) => JobState::Complete {
            image,
            document,
            identity,
        },
        (JobState::Failed { step, cause, orphan }, _) => JobState::Failed { step, cause, orphan },
        (JobState::SequenceAssigned, JobEvent::Abandoned) => JobState::Failed {
            step: Step::Metadata,
            cause: Cause::Abandoned,
            orphan: None,
        },
        (JobState::MetadataGenerated { .. }, JobEvent::Abandoned) => JobState::Failed {
            step: Step::Art,
            cause: Cause::Abandoned,
            orphan: None,
        },
        (JobState::ArtRendered { .. }, JobEvent::Abandoned) => JobState::Failed {
            step: Step::ImageUpload,
            cause: Cause::Abandoned,
            orphan: None,
        },
        (JobState::ImageUploaded { image, .. }, JobEvent::Abandoned) => JobState::Failed {
            step: Step::ImageUpload,
            cause: Cause::Abandoned,
            orphan: Some(image),
        },
        (JobState::MetadataPatched { image, .. }, JobEvent::Abandoned) => JobState::Failed {
            step: Step::MetadataUpload,
            cause: Cause::Abandoned,
            orphan: Some(image),
        },
        (JobState::MetadataUploaded { image, .. }, JobEvent::Abandoned) => JobState::Failed {
            step: Step::Registration,
            cause: Cause::Abandoned,
            orphan: Some(image),
        },
        (JobState::IdentityCreated { image, .. }, JobEvent::Abandoned) => JobState::Failed {
            step: Step::Announcement,
            cause: Cause::Abandoned,
            orphan: Some(image),
        },
        (JobState::MetadataGenerated { metadata }, JobEvent::ArtRendered { image_path }) => {
            JobState::ArtRendered { metadata, image_path }
        },
        (JobState::MetadataGenerated { .. }, JobEvent::LayerMissing(e)) => JobState::Failed {
            step: Step::Art,
            cause: Cause::Config(e),
            orphan: None,
        },
        (JobState::MetadataGenerated { .. }, JobEvent::RenderFailed) => JobState::Failed {
            step: Step::Art,
            cause: Cause::Render,
            orphan: None,
        },
        (JobState::ArtRendered { metadata, .. }, JobEvent::Submitted { id }) => {
            JobState::ImageUploaded { metadata, image: id }
        },
        (JobState::ArtRendered { .. }, JobEvent::UploadFailed) => JobState::Failed {
            step: Step::ImageUpload,
            cause: Cause::Upload,
            orphan: None,
        },
        (JobState::ImageUploaded { metadata, image }, JobEvent::Polled(answer)) => {
            match answer {
                Ok(Status::Confirmed(_)) => {
                    let reference = image.clone();
                    JobState::MetadataPatched { metadata: patch_image(metadata, reference), image }
                },
                Ok(Status::Pending) => JobState::ImageUploaded { metadata, image },
                Err(e) => if e.kind.is_transient() {
                    JobState::ImageUploaded { metadata, image }
                } else {
                    JobState::Failed {
                        step: Step::ImageUpload,
                        cause: Cause::Upload,
                        orphan: Some(image),
                    }
                },
            }
        },
        (JobState::ImageUploaded { image, .. }, JobEvent::TimedOut) => JobState::Failed {
            step: Step::ImageUpload,
            cause: Cause::Timeout,
            orphan: Some(image),
        },
        (JobState::MetadataPatched { image, .. }, JobEvent::Submitted { id }) => {
            match base64_url_decode(id.as_str()) {
                Ok(_) => JobState::MetadataUploaded { image, document: id },
                Err(_) => JobState::Failed {
                    step: Step::Registration,
                    cause: Cause::Identity(ValidationError::UndecodableContent),
                    orphan: Some(image),
                },
            }
        },
        (JobState::MetadataPatched { image, .. }, JobEvent::UploadFailed) => JobState::Failed {
            step: Step::MetadataUpload,
            cause: Cause::Upload,
            orphan: Some(image),
        },
        (JobState::MetadataUploaded { image, document }, JobEvent::Registered(identity)) => {
            JobState::IdentityCreated { image, document, identity }
        },
        (JobState::MetadataUploaded { image, .. }, JobEvent::RegistrationFailed) => {
            JobState::Failed {
                step: Step::Registration,
                cause: Cause::Submission,
                orphan: Some(image),
            }
        },
        (JobState::IdentityCreated { image, document, identity }, JobEvent::Announced) => {
            JobState::Complete { image, document, identity }
        },
        (state, _) => state,
    }
}

/// The state after each of `events` in turn.
pub open spec fn run(state: JobState, events: Seq<JobEvent>) -> JobState
    decreases events.len(),
{
    if events.len() == 0 {
        state
    } else {
        next_state(run(state, events.drop_last()), events.last())
    }
}

/// Whether `event` is an answer to a poll that settles nothing: the upload is
/// pending, or the question failed in a way that may pass.
pub open spec fn inconclusive(event: JobEvent) -> bool {
    event matches JobEvent::Polled(answer) && match answer {
        Ok(Status::Pending) => true,
        Ok(Status::Confirmed(_)) => false,
        Err(e) => e.kind.transient(),
    }
}

/// How far a state is along the steps of a job.
pub open spec fn rank(state: JobState) -> nat {
    match state {
        JobState::SequenceAssigned => 0,
        JobState::MetadataGenerated { .. } => 1,
        JobState::ArtRendered { .. } => 2,
        JobState::ImageUploaded { .. } => 3,
        JobState::MetadataPatched { .. } => 4,
        JobState::MetadataUploaded { .. } => 5,
        JobState::IdentityCreated { .. } => 6,
        JobState::Complete { .. } => 7,
        JobState::Failed { .. } => 8,
    }
}

/// The content identifier of the image, from the state on in which it is
/// known.
pub open spec fn image_of(state: JobState) -> Option<String> {
    match state {
        JobState::ImageUploaded { image, .. } => Some(image),
        JobState::MetadataPatched { image, .. } => Some(image),
        JobState::MetadataUploaded { image, .. } => Some(image),
        JobState::IdentityCreated { image, .. } => Some(image),
        JobState::Complete { image, .. } => Some(image),
        _ => None,
    }
}

/// Upload-pending resilience: however often the network answers that the
/// image is pending, or fails to answer in a way that may pass, the job stays
/// where it is, with the image uploaded. It does not fail.
pub proof fn lemma_pending_image_stays_uploaded(state: JobState, events: Seq<JobEvent>)
    requires
        state is ImageUploaded,
        forall|i: int| 0 <= i < events.len() ==> inconclusive(#[trigger] events[i]),
    ensures
        run(state, events) == state,
    decreases events.len(),
{
    if events.len() > 0 {
        let before = events.drop_last();
        assert forall|i: int| 0 <= i < before.len() implies inconclusive(#[trigger] before[i]) by {
            assert(before[i] == events[i]);
        }
        lemma_pending_image_stays_uploaded(state, before);
        assert(inconclusive(events[events.len() - 1]));
    }
}

/// A job with its image uploaded leaves that state in four ways only: on a
/// confirmation, with the document patched; and failed, on a lasting error
/// of the network, when the poller gives up, or when it is abandoned.
pub proof fn lemma_leaving_image_uploaded(state: JobState, event: JobEvent)
    requires
        state is ImageUploaded,
        next_state(state, event) != state,
    ensures
        match next_state(state, event) {
            JobState::MetadataPatched { metadata, image } => {
                &&& event matches JobEvent::Polled(Ok(Status::Confirmed(_)))
                &&& Some(image) == image_of(state)
                &&& metadata.image == image
            },
            JobState::Failed { step, cause, orphan } => {
                &&& step == Step::ImageUpload
                &&& orphan == image_of(state)
                &&& cause == Cause::Timeout <==> event is TimedOut
                &&& cause == Cause::Abandoned <==> event is Abandoned
                &&& cause == Cause::Upload <==> (event matches JobEvent::Polled(Err(e))
                    && !e.kind.transient())
            },
            _ => false,
        },
{
}

/// A job that has ended, complete or failed, stays as it is and asks for
/// nothing more.
pub proof fn lemma_ended_is_final(state: JobState, events: Seq<JobEvent>)
    requires
        ended(state),
    ensures
        run(state, events) == state,
        action_in(run(state, events)) == JobAction::Nothing,
    decreases events.len(),
{
    if events.len() > 0 {
        lemma_ended_is_final(state, events.drop_last());
    }
}

/// A job moves forward one step at a time: an event leaves it where it is,
/// takes it to the next state, or fails it.
pub proof fn lemma_one_step_at_a_time(state: JobState, event: JobEvent)
    ensures
        next_state(state, event) == state || rank(next_state(state, event)) == rank(state) + 1 || (
        next_state(state, event) is Failed),
        next_state(state, event) matches JobState::Failed { step, .. } ==> state is Failed || step
            == current_step(state) || (state is MetadataPatched && step == Step::Registration),
{
}

/// A job asks for an upload only once its art is rendered, and so only after
/// its metadata was generated, which validation precedes.
pub proof fn lemma_uploads_follow_rendering(state: JobState)
    ensures
        action_in(state) == JobAction::UploadImage <==> state is ArtRendered,
        action_in(state) == JobAction::UploadMetadata <==> state is MetadataPatched,
        action_in(state) == JobAction::RegisterIdentity <==> state is MetadataUploaded,
{
}

/// Once the image is published, its content identifier stays the same to the
/// end of the job.
pub proof fn lemma_image_is_kept(state: JobState, events: Seq<JobEvent>)
    requires
        image_of(state) is Some,
    ensures
        run(state, events) is Failed || image_of(run(state, events)) == image_of(state),
    decreases events.len(),
{
    if events.len() > 0 {
        lemma_image_is_kept(state, events.drop_last());
        let before = run(state, events.drop_last());
        if before is Failed {
            assert(next_state(before, events.last()) == before);
        }
    }
}

/// Failure isolation: a job that fails before the network has accepted its
/// image leaves nothing published; one that fails afterwards leaves the image,
/// under the content identifier it was accepted with.
pub proof fn lemma_failure_leaves_what_was_published(state: JobState, event: JobEvent)
    requires
        !(state is Failed),
        next_state(state, event) is Failed,
    ensures
        next_state(state, event)->Failed_orphan == image_of(state),
        rank(state) <= 2 ==> next_state(state, event)->Failed_orphan is None,
        3 <= rank(state) <= 6 ==> next_state(state, event)->Failed_orphan is Some,
{
}

/// A fault of the catalog or the assets, a failed draw and a failed
/// rendering end a job before anything is published: a job that an event
/// fails for one of these leaves no image behind.
pub proof fn lemma_fatal_before_publish(state: JobState, event: JobEvent)
    requires
        !(state is Failed),
        next_state(state, event) matches JobState::Failed { cause, .. } && (cause is Config
            || cause is Randomization || cause is Render),
    ensures
        next_state(state, event)->Failed_orphan is None,
        rank(state) <= 2,
{
}

} // verus!
