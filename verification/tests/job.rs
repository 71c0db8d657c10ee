use verusnft::configuration::{ApplicationSettings, DatabaseSettings, Settings};
use verusnft::nft::config::ConfigError;
use verusnft::nft::arweave::{ArweaveError, ErrorKind, Status};
use verusnft::nft::config::{Attribute, Config, Entry, Group};
use verusnft::nft::identity::{Address, IdentityRecord, ValidationError};
use verusnft::nft::metadata::{create_metadata, patch_image};
use verusnft::nft::mint::{step_state, Cause, JobAction, JobEvent, JobState, Step, VerusNFT};
use verusnft::nft::selector::{select, RandomizationError};

const DOCUMENT_ID: &str = "AAECAwQFBgcICQoLDA0ODxAREhMUFRYXGBkaGxwdHh8";

fn series(eye_weight: u64) -> Config {
    Config {
        name: "Goofy Gecko".to_string(),
        identity: "geckotest".to_string(),
        description: "A gecko of its own".to_string(),
        attributes: vec![
            Group {
                name: "background".to_string(),
                entries: vec![
                    Entry { key: "blue".to_string(), attribute: Attribute::Standard(1_000_000) },
                    Entry { key: "red".to_string(), attribute: Attribute::Standard(1_000_000) },
                ],
            },
            Group {
                name: "eyes".to_string(),
                entries: vec![Entry {
                    key: "normal".to_string(),
                    attribute: Attribute::Standard(eye_weight),
                }],
            },
        ],
    }
}

fn address(testnet: bool) -> Address {
    Address { text: "RVcxxLdedtLvysS4vXZitd3TXe6AjU5WEz".to_string(), testnet }
}

fn settings(testnet: bool) -> Settings {
    Settings {
        database: DatabaseSettings {
            username: "gecko".to_string(),
            password: "SECRET-REDACTED".to_string(),
            port: 5432,
            host: "localhost".to_string(),
            database_name: "mint".to_string(),
        },
        application: ApplicationSettings {
            assets_dir: "assets".to_string(),
            output_dir: "generated".to_string(),
            trace_level: "debug".to_string(),
            enable_tracing: true,
            discord: "token".to_string(),
            discord_guild_id: "1".to_string(),
            sequence_start: 7000,
            series: "geckotest".to_string(),
            ardrive_wallet_location: "wallet.json".to_string(),
            testnet,
        },
    }
}

fn started() -> VerusNFT {
    VerusNFT::generate(42, address(true), 7001, true, &settings(true), &series(1))
}

fn record() -> IdentityRecord {
    IdentityRecord { name: "7001".to_string(), registration_ref: "registration".to_string() }
}

fn pending() -> JobEvent {
    JobEvent::Polled(Ok(Status::Pending))
}

fn not_confirmed() -> JobEvent {
    JobEvent::Polled(Err(ArweaveError { kind: ErrorKind::NotConfirmed }))
}

fn image_uploaded() -> VerusNFT {
    started()
        .advance(JobEvent::ArtRendered { image_path: "generated/42.png".to_string() })
        .advance(JobEvent::Submitted { id: "image-id".to_string() })
}

fn every_event() -> Vec<JobEvent> {
    vec![
        JobEvent::ArtRendered { image_path: "p".to_string() },
        JobEvent::LayerMissing(ConfigError::MissingLayer { index: 0 }),
        JobEvent::RenderFailed,
        JobEvent::Submitted { id: DOCUMENT_ID.to_string() },
        JobEvent::UploadFailed,
        pending(),
        not_confirmed(),
        JobEvent::Polled(Ok(Status::Confirmed(1))),
        JobEvent::Polled(Err(ArweaveError { kind: ErrorKind::NoData })),
        JobEvent::TimedOut,
        JobEvent::Registered(record()),
        JobEvent::RegistrationFailed,
        JobEvent::Announced,
        JobEvent::Abandoned,
    ]
}

#[test]
fn a_new_job_has_its_number_and_nothing_else() {
    let job = VerusNFT::new(42, address(true), 7001, "geckotest".to_string(), true, true);
    assert_eq!(job.state, JobState::SequenceAssigned);
    assert_eq!(job.action(), JobAction::GenerateMetadata);
    assert_eq!(job.user_id, 42);
    assert_eq!(job.sequence, 7001);
    assert_eq!(job.edition, "geckotest");
    assert!(!job.is_ended());
    assert_eq!(job.failure(), None);
    assert_eq!(job.registration_request(), None);
}

#[test]
fn generating_metadata_selects_with_the_requester_as_seed_and_assembles() {
    let traits = select(&series(1), 42).unwrap();
    let expected = create_metadata(42, 7001, traits, &series(1));
    let job = started();
    assert_eq!(job.state, JobState::MetadataGenerated { metadata: expected });
    assert_eq!(job.action(), JobAction::RenderArt);
}

#[test]
fn metadata_is_generated_once() {
    let job = started();
    let again = started().generate_metadata(&series(5));
    assert_eq!(again, job);
}

#[test]
fn a_job_walks_through_every_step_to_completion() {
    let job = started();
    let metadata = match &job.state {
        JobState::MetadataGenerated { metadata } => metadata.clone(),
        other => panic!("{:?}", other),
    };
    let job = job.advance(JobEvent::ArtRendered { image_path: "generated/42.png".to_string() });
    assert_eq!(
        job.state,
        JobState::ArtRendered {
            metadata: metadata.clone(),
            image_path: "generated/42.png".to_string()
        }
    );
    assert_eq!(job.action(), JobAction::UploadImage);
    let job = job.advance(JobEvent::Submitted { id: "image-id".to_string() });
    assert_eq!(
        job.state,
        JobState::ImageUploaded { metadata: metadata.clone(), image: "image-id".to_string() }
    );
    assert_eq!(job.action(), JobAction::PollImage);
    let job = job.advance(JobEvent::Polled(Ok(Status::Confirmed(2))));
    assert_eq!(
        job.state,
        JobState::MetadataPatched {
            metadata: patch_image(metadata, "image-id".to_string()),
            image: "image-id".to_string()
        }
    );
    assert_eq!(job.action(), JobAction::UploadMetadata);
    let job = job.advance(JobEvent::Submitted { id: DOCUMENT_ID.to_string() });
    assert_eq!(
        job.state,
        JobState::MetadataUploaded {
            image: "image-id".to_string(),
            document: DOCUMENT_ID.to_string()
        }
    );
    assert_eq!(job.action(), JobAction::RegisterIdentity);
    let request = job.registration_request().unwrap();
    assert_eq!(request.name, "7001");
    assert_eq!(request.namespace, "geckotest");
    assert_eq!(request.address, address(true));
    assert!(request.testnet);
    assert_eq!(
        request.content_map,
        vec![(
            "9a55eaaad7bacc9f37a449e315ff32fedc07b126".to_string(),
            "000102030405060708090a0b0c0d0e0f101112131415161718191a1b1c1d1e1f".to_string()
        )]
    );
    let job = job.advance(JobEvent::Registered(record()));
    assert_eq!(
        job.state,
        JobState::IdentityCreated {
            image: "image-id".to_string(),
            document: DOCUMENT_ID.to_string(),
            identity: record()
        }
    );
    assert_eq!(job.action(), JobAction::Announce);
    assert!(!job.is_ended());
    let job = job.advance(JobEvent::Announced);
    assert_eq!(
        job.state,
        JobState::Complete {
            image: "image-id".to_string(),
            document: DOCUMENT_ID.to_string(),
            identity: record()
        }
    );
    assert_eq!(job.action(), JobAction::Nothing);
    assert!(job.is_ended());
    assert_eq!(job.failure(), None);
}

#[test]
fn a_pending_image_keeps_the_job_where_it_is() {
    let mut job = image_uploaded();
    for round in 0..100 {
        job = job.advance(if round % 3 == 0 { not_confirmed() } else { pending() });
        assert_eq!(job, image_uploaded());
        assert_eq!(job.action(), JobAction::PollImage);
    }
    let job = job.advance(JobEvent::Polled(Ok(Status::Confirmed(1))));
    assert!(matches!(job.state, JobState::MetadataPatched { .. }));
}

#[test]
fn a_pending_image_fails_only_when_the_poller_gives_up() {
    let job = image_uploaded().advance(pending()).advance(pending()).advance(JobEvent::TimedOut);
    assert_eq!(job.failure(), Some((Step::ImageUpload, Cause::Timeout)));
    assert!(job.is_ended());
}

#[test]
fn a_lasting_error_of_the_network_fails_the_image_upload() {
    for kind in [ErrorKind::NoData, ErrorKind::InvalidJson("shape".to_string())] {
        let job = image_uploaded().advance(JobEvent::Polled(Err(ArweaveError { kind })));
        assert_eq!(job.failure(), Some((Step::ImageUpload, Cause::Upload)));
    }
}

#[test]
fn a_job_whose_identity_cannot_be_registered_fails_before_anything_is_published() {
    let wrong_network =
        VerusNFT::generate(42, address(false), 7001, true, &settings(true), &series(1));
    assert_eq!(
        wrong_network.failure(),
        Some((Step::Validation, Cause::Identity(ValidationError::WrongNetwork)))
    );
    let unresolved =
        VerusNFT::generate(42, address(true), 7001, false, &settings(true), &series(0));
    assert_eq!(
        unresolved.failure(),
        Some((Step::Validation, Cause::Identity(ValidationError::UnresolvedNamespace)))
    );
    let mut job = wrong_network;
    for event in every_event() {
        job = job.advance(event);
        assert_eq!(job.action(), JobAction::Nothing);
    }
}

#[test]
fn a_job_without_a_selection_fails_at_its_metadata() {
    let job =
        VerusNFT::generate(42, address(true), 7001, true, &settings(true), &series(0));
    assert_eq!(
        job.failure(),
        Some((
            Step::Metadata,
            Cause::Randomization(RandomizationError::NoPositiveWeight { group: 1 })
        ))
    );
    assert_eq!(job.action(), JobAction::Nothing);
}

#[test]
fn a_job_with_a_faulty_catalog_fails_at_its_metadata() {
    let mut faulty = series(1);
    faulty.attributes.push(Group { name: "eyes".to_string(), entries: Vec::new() });
    let job = VerusNFT::generate(42, address(true), 7001, true, &settings(true), &faulty);
    assert_eq!(
        job.failure(),
        Some((Step::Metadata, Cause::Config(ConfigError::DuplicateGroup { group: 2 })))
    );
    let unregistrable =
        VerusNFT::generate(42, address(false), 7001, true, &settings(true), &faulty);
    assert_eq!(
        unregistrable.failure(),
        Some((Step::Validation, Cause::Identity(ValidationError::WrongNetwork)))
    );
}

#[test]
fn rendering_can_fail_in_two_ways() {
    assert_eq!(
        started().advance(JobEvent::RenderFailed).failure(),
        Some((Step::Art, Cause::Render))
    );
    assert_eq!(
        started()
            .advance(JobEvent::LayerMissing(ConfigError::MissingLayer { index: 1 }))
            .failure(),
        Some((Step::Art, Cause::Config(ConfigError::MissingLayer { index: 1 })))
    );
}

#[test]
fn an_upload_that_is_not_accepted_fails_its_step() {
    let rendered =
        started().advance(JobEvent::ArtRendered { image_path: "generated/42.png".to_string() });
    assert_eq!(
        rendered.advance(JobEvent::UploadFailed).failure(),
        Some((Step::ImageUpload, Cause::Upload))
    );
    let patched = image_uploaded().advance(JobEvent::Polled(Ok(Status::Confirmed(1))));
    assert_eq!(
        patched.advance(JobEvent::UploadFailed).failure(),
        Some((Step::MetadataUpload, Cause::Upload))
    );
}

#[test]
fn a_document_identifier_that_does_not_decode_fails_the_registration() {
    let patched = image_uploaded().advance(JobEvent::Polled(Ok(Status::Confirmed(1))));
    let job = patched.advance(JobEvent::Submitted { id: "not base64!".to_string() });
    assert_eq!(
        job.failure(),
        Some((Step::Registration, Cause::Identity(ValidationError::UndecodableContent)))
    );
}

#[test]
fn a_registration_that_is_not_accepted_fails_the_job() {
    let job = image_uploaded()
        .advance(JobEvent::Polled(Ok(Status::Confirmed(1))))
        .advance(JobEvent::Submitted { id: DOCUMENT_ID.to_string() })
        .advance(JobEvent::RegistrationFailed);
    assert_eq!(job.failure(), Some((Step::Registration, Cause::Submission)));
}

#[test]
fn an_abandoned_job_fails_at_the_step_under_way() {
    let created = VerusNFT::new(42, address(true), 7001, "geckotest".to_string(), true, true);
    assert_eq!(
        created.advance(JobEvent::Abandoned).failure(),
        Some((Step::Metadata, Cause::Abandoned))
    );
    assert_eq!(
        started().advance(JobEvent::Abandoned).failure(),
        Some((Step::Art, Cause::Abandoned))
    );
    assert_eq!(
        image_uploaded().advance(JobEvent::Abandoned).failure(),
        Some((Step::ImageUpload, Cause::Abandoned))
    );
}

#[test]
fn an_event_that_does_not_fit_the_state_changes_nothing() {
    let job = started()
        .advance(JobEvent::Submitted { id: "early".to_string() })
        .advance(JobEvent::Polled(Ok(Status::Confirmed(1))))
        .advance(JobEvent::TimedOut)
        .advance(JobEvent::Registered(record()))
        .advance(JobEvent::Announced)
        .advance(JobEvent::UploadFailed)
        .advance(JobEvent::RegistrationFailed);
    assert_eq!(job, started());
}

#[test]
fn a_job_that_has_ended_stays_as_it_is() {
    let failed = started().advance(JobEvent::RenderFailed);
    let complete = image_uploaded()
        .advance(JobEvent::Polled(Ok(Status::Confirmed(1))))
        .advance(JobEvent::Submitted { id: DOCUMENT_ID.to_string() })
        .advance(JobEvent::Registered(record()))
        .advance(JobEvent::Announced);
    assert!(complete.is_ended());
    let mut a = started().advance(JobEvent::RenderFailed);
    let mut b = image_uploaded()
        .advance(JobEvent::Polled(Ok(Status::Confirmed(1))))
        .advance(JobEvent::Submitted { id: DOCUMENT_ID.to_string() })
        .advance(JobEvent::Registered(record()))
        .advance(JobEvent::Announced);
    for event in every_event() {
        a = a.advance(event);
        assert_eq!(a, failed);
    }
    for event in every_event() {
        b = b.advance(event);
        assert_eq!(b, complete);
    }
}

#[test]
fn a_job_is_made_for_the_series_and_the_network_of_the_settings() {
    let job = VerusNFT::generate(42, address(false), 7001, true, &settings(false), &series(1));
    assert_eq!(job.edition, "geckotest");
    assert!(!job.testnet);
    assert!(job.namespace_resolves);
    assert!(matches!(job.state, JobState::MetadataGenerated { .. }));
}

#[test]
fn a_failure_is_reported_by_step_and_category() {
    let names: Vec<&str> = [
        Step::Validation,
        Step::Metadata,
        Step::Art,
        Step::ImageUpload,
        Step::MetadataUpload,
        Step::Registration,
        Step::Announcement,
    ]
    .iter()
    .map(|s| s.name())
    .collect();
    assert_eq!(
        names,
        vec![
            "validation",
            "metadata",
            "art",
            "image upload",
            "metadata upload",
            "registration",
            "announcement"
        ]
    );
    assert_eq!(Cause::Identity(ValidationError::EmptyName).category(), "IdentityError");
    assert_eq!(Cause::Submission.category(), "IdentityError");
    assert_eq!(
        Cause::Randomization(RandomizationError::EmptyTable { group: 0 }).category(),
        "RandomizationError"
    );
    assert_eq!(Cause::Config(ConfigError::MissingLayer { index: 0 }).category(), "ConfigError");
    assert_eq!(Cause::Render.category(), "RenderError");
    assert_eq!(Cause::Upload.category(), "UploadError");
    assert_eq!(Cause::Timeout.category(), "UploadError");
    assert_eq!(Cause::Abandoned.category(), "Abandoned");
}

#[test]
fn a_job_with_its_identity_tells_what_it_produced() {
    let job = image_uploaded()
        .advance(JobEvent::Polled(Ok(Status::Confirmed(1))))
        .advance(JobEvent::Submitted { id: DOCUMENT_ID.to_string() });
    assert_eq!(job.completion(), None);
    let job = job.advance(JobEvent::Registered(record()));
    assert_eq!(
        job.completion(),
        Some((&"image-id".to_string(), &DOCUMENT_ID.to_string(), &record()))
    );
    let job = job.advance(JobEvent::Announced);
    assert_eq!(
        job.completion(),
        Some((&"image-id".to_string(), &DOCUMENT_ID.to_string(), &record()))
    );
    assert_eq!(started().advance(JobEvent::RenderFailed).completion(), None);
}

#[test]
fn a_failed_job_is_tried_again_from_the_start_under_a_later_number() {
    let failed = image_uploaded().advance(JobEvent::TimedOut);
    let again = failed.retry(7002).unwrap();
    assert_eq!(
        again,
        VerusNFT::new(42, address(true), 7002, "geckotest".to_string(), true, true)
    );
    assert_eq!(again.action(), JobAction::GenerateMetadata);
    assert_eq!(failed.retry(7001), None);
    assert_eq!(failed.retry(7000), None);
}

#[test]
fn a_job_that_has_not_failed_is_not_tried_again() {
    assert_eq!(started().retry(7002), None);
    assert_eq!(image_uploaded().retry(7002), None);
    let complete = image_uploaded()
        .advance(JobEvent::Polled(Ok(Status::Confirmed(1))))
        .advance(JobEvent::Submitted { id: DOCUMENT_ID.to_string() })
        .advance(JobEvent::Registered(record()))
        .advance(JobEvent::Announced);
    assert_eq!(complete.retry(7002), None);
}

#[test]
fn a_job_that_fails_after_its_image_was_accepted_leaves_the_image_published() {
    assert_eq!(started().advance(JobEvent::RenderFailed).orphan(), None);
    let rendered =
        started().advance(JobEvent::ArtRendered { image_path: "generated/42.png".to_string() });
    assert_eq!(rendered.advance(JobEvent::UploadFailed).orphan(), None);
    assert_eq!(image_uploaded().orphan(), None);
    assert_eq!(image_uploaded().advance(JobEvent::TimedOut).orphan(), Some(&"image-id".to_string()));
    let patched = image_uploaded().advance(JobEvent::Polled(Ok(Status::Confirmed(1))));
    assert_eq!(patched.advance(JobEvent::UploadFailed).orphan(), Some(&"image-id".to_string()));
    let uploaded = image_uploaded()
        .advance(JobEvent::Polled(Ok(Status::Confirmed(1))))
        .advance(JobEvent::Submitted { id: DOCUMENT_ID.to_string() });
    assert_eq!(
        uploaded.advance(JobEvent::RegistrationFailed).orphan(),
        Some(&"image-id".to_string())
    );
}

#[test]
fn a_state_steps_as_its_job_does() {
    assert_eq!(
        step_state(JobState::SequenceAssigned, JobEvent::Announced),
        JobState::SequenceAssigned
    );
    assert_eq!(
        step_state(JobState::SequenceAssigned, JobEvent::Abandoned),
        JobState::Failed { step: Step::Metadata, cause: Cause::Abandoned, orphan: None }
    );
}
