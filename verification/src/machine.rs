//! The run itself, as a state machine. The flow is strictly linear:
//! configuration, note, media path, upload, insert, exit — and any
//! failure moves straight to the terminal failure stage, from which no
//! step exists. The application performs each requested action and hands
//! the outcome back as an event; every decision in between is made, and
//! verified, here.

use vstd::prelude::*;
use vstd::string::*;
use crate::clock::now_utc_string;
use crate::config::{first_missing, var_name_spec, Config, ConfigKey, EnvValues};
use crate::entry::JournalEntry;
use crate::response::{
    is_json, parse_upload_response, str_field_of, u64_field_of, ResponseError,
};
use crate::text::{ends_with, strip_quotes, strip_quotes_spec, trim, trim_spec};
use crate::upload::{build_upload_request, upload_url_spec, UploadRequest};

verus! {

/// Why a run ended without persisting anything: one variant per failure
/// stage of the pipeline. Every failure is fatal; none is recovered.
#[derive(Clone, Copy, PartialEq, Eq, Structural, Debug)]
pub enum RunError {
    /// A required environment variable is absent.
    Configuration { key: ConfigKey },
    /// A terminal line read failed.
    Input,
    /// The media file could not be read; no request was sent.
    FileAccess,
    /// The upload POST failed in transport.
    UploadTransport,
    /// The upload response body was unusable.
    UploadResponse { error: ResponseError },
    /// The database connection or insert failed.
    Persistence,
}

/// The diagnostic a failure is reported with: it names the failing stage,
/// and for a missing configuration value the variable itself.
pub open spec fn message_spec(e: RunError) -> Seq<char> {
    match e {
        RunError::Configuration { key } => "missing required environment variable "@
            + var_name_spec(key),
        RunError::Input => "could not read the input line"@,
        RunError::FileAccess => "could not read the media file"@,
        RunError::UploadTransport => "media upload request failed"@,
        RunError::UploadResponse { error: ResponseError::NotJson } =>
            "upload response was not valid JSON"@,
        RunError::UploadResponse { error: ResponseError::MissingSecureUrl } =>
            "upload response carried no secure_url"@,
        RunError::Persistence => "could not insert the record into the database"@,
    }
}

impl RunError {
    /// Render the diagnostic for this failure.
    pub fn message(&self) -> (r: String)
        ensures
            r@ == message_spec(*self),
    {
        match self {
            RunError::Configuration { key } => {
                let mut m = String::from_str("missing required environment variable ");
                m.append(key.var_name());
                m
            },
            RunError::Input => String::from_str("could not read the input line"),
            RunError::FileAccess => String::from_str("could not read the media file"),
            RunError::UploadTransport => String::from_str("media upload request failed"),
            RunError::UploadResponse { error: ResponseError::NotJson } => String::from_str(
                "upload response was not valid JSON",
            ),
            RunError::UploadResponse { error: ResponseError::MissingSecureUrl } => String::from_str(
                "upload response carried no secure_url",
            ),
            RunError::Persistence => String::from_str(
                "could not insert the record into the database",
            ),
        }
    }
}

/// Where a run stands: which outside interaction it awaits, or how it
/// ended.
pub enum Stage {
    /// Awaiting the six environment values.
    AwaitEnv,
    /// Awaiting the note line.
    AwaitText { config: Config },
    /// Awaiting the media-path line.
    AwaitMedia { config: Config, text: String },
    /// Awaiting the outcome of the upload POST.
    AwaitUpload { config: Config, text: String },
    /// Awaiting the outcome of the database insert.
    AwaitInsert,
    /// The record is persisted and success reported.
    Done,
    /// The run ended at a failure; nothing more happens.
    Failed { error: RunError },
}

/// A whole run: the UTC timestamp captured when it began — once, before
/// any network work — and the stage it stands in.
pub struct RunState {
    pub created_at: String,
    pub stage: Stage,
}

/// What the outside world handed back for the interaction a stage awaits.
pub enum Event {
    /// The six environment variables, each present or absent.
    EnvLoaded { values: EnvValues },
    /// The note line, or `None` where the read failed.
    TextLine { line: Option<String> },
    /// The media-path line, or `None` where the read failed.
    MediaLine { line: Option<String> },
    /// The media file could not be read; no request went out.
    UploadFileUnreadable,
    /// The upload POST failed in transport.
    UploadTransportFailed,
    /// The upload POST returned this body.
    UploadResponded { body: String },
    /// Whether the database insert succeeded.
    InsertFinished { ok: bool },
}

/// What the application must do next.
pub enum Action {
    /// Read the six environment variables.
    ReadEnv,
    /// Prompt for and read the note line.
    PromptText,
    /// Prompt for and read the media-path line.
    PromptMedia,
    /// Send the multipart upload POST the request describes.
    Upload { request: UploadRequest },
    /// Insert the record into the configured collection.
    Insert { config: Config, entry: JournalEntry },
    /// Report success; the run is over.
    ReportSuccess,
    /// Report the failure; the run is over, nothing was persisted.
    ReportFailure { error: RunError },
}

/// The event shape each stage awaits. `Done` and `Failed` await nothing:
/// an exited run cannot be stepped again.
pub open spec fn expects(stage: Stage, event: Event) -> bool {
    match (stage, event) {
        (Stage::AwaitEnv, Event::EnvLoaded { .. }) => true,
        (Stage::AwaitText { .. }, Event::TextLine { .. }) => true,
        (Stage::AwaitMedia { .. }, Event::MediaLine { .. }) => true,
        (Stage::AwaitUpload { .. }, Event::UploadFileUnreadable) => true,
        (Stage::AwaitUpload { .. }, Event::UploadTransportFailed) => true,
        (Stage::AwaitUpload { .. }, Event::UploadResponded { .. }) => true,
        (Stage::AwaitInsert, Event::InsertFinished { .. }) => true,
        _ => false,
    }
}

/// The run ended at `error`: the stage records it and the action reports
/// it.
pub open spec fn failed_with(post: RunState, action: Action, error: RunError) -> bool {
    &&& post.stage == (Stage::Failed { error })
    &&& action == (Action::ReportFailure { error })
}

/// The full transition relation of a run: what [`step`] returns for each
/// stage and event it accepts. Spelled out as a relation so that
/// properties of whole runs can be stated and proved over it.
pub open spec fn step_rel(pre: RunState, event: Event, post: RunState, action: Action) -> bool {
    &&& post.created_at@ == pre.created_at@
    &&& match (pre.stage, event) {
        (Stage::AwaitEnv, Event::EnvLoaded { values }) => match first_missing(values) {
            Some(key) => failed_with(post, action, RunError::Configuration { key }),
            None => {
                &&& post.stage matches Stage::AwaitText { config } && {
                    &&& values.mongo_uri == Some(config.mongo_uri)
                    &&& values.mongo_db == Some(config.mongo_db)
                    &&& values.mongo_collection == Some(config.mongo_collection)
                    &&& values.cloudinary_id == Some(config.cloudinary_id)
                    &&& values.cloudinary_api_key == Some(config.cloudinary_api_key)
                    &&& values.cloudinary_preset == Some(config.cloudinary_preset)
                }
                &&& action is PromptText
            },
        },
        (Stage::AwaitText { config }, Event::TextLine { line }) => match line {
            None => failed_with(post, action, RunError::Input),
            Some(l) => {
                &&& post.stage matches Stage::AwaitMedia { config: c, text } && c == config
                    && text@ == trim_spec(l@)
                &&& action is PromptMedia
            },
        },
        (Stage::AwaitMedia { config, text }, Event::MediaLine { line }) => match line {
            None => failed_with(post, action, RunError::Input),
            Some(l) => {
                &&& post.stage matches Stage::AwaitUpload { config: c, text: t } && c == config
                    && t == text
                &&& action matches Action::Upload { request } && {
                    let path = strip_quotes_spec(trim_spec(l@));
                    &&& request.url@ == upload_url_spec(config.cloudinary_id@, path)
                    &&& request.api_key@ == config.cloudinary_api_key@
                    &&& request.upload_preset@ == config.cloudinary_preset@
                    &&& request.file_path@ == path
                }
            },
        },
        (Stage::AwaitUpload { config, text }, Event::UploadFileUnreadable) => failed_with(
            post,
            action,
            RunError::FileAccess,
        ),
        (Stage::AwaitUpload { config, text }, Event::UploadTransportFailed) => failed_with(
            post,
            action,
            RunError::UploadTransport,
        ),
        (Stage::AwaitUpload { config, text }, Event::UploadResponded { body }) => {
            if !is_json(body@) {
                failed_with(post, action, RunError::UploadResponse { error: ResponseError::NotJson })
            } else if str_field_of(body@, "secure_url"@) is None {
                failed_with(
                    post,
                    action,
                    RunError::UploadResponse { error: ResponseError::MissingSecureUrl },
                )
            } else {
                &&& post.stage is AwaitInsert
                &&& action matches Action::Insert { config: c, entry } && c == config && {
                    &&& entry.text == text
                    &&& Some(entry.media_url@) == str_field_of(body@, "secure_url"@)
                    &&& entry.width == u64_field_of(body@, "width"@)
                    &&& entry.height == u64_field_of(body@, "height"@)
                    &&& entry.created_at@ == pre.created_at@
                }
            }
        },
        (Stage::AwaitInsert, Event::InsertFinished { ok }) => {
            if ok {
                post.stage is Done && action is ReportSuccess
            } else {
                failed_with(post, action, RunError::Persistence)
            }
        },
        _ => false,
    }
}

/// End the run at `error`.
fn fail(created_at: String, error: RunError) -> (r: (RunState, Action))
    ensures
        r.0.created_at@ == created_at@,
        failed_with(r.0, r.1, error),
{
    (RunState { created_at, stage: Stage::Failed { error } }, Action::ReportFailure { error })
}

/// Start a run: capture the UTC timestamp, once, before anything else,
/// and ask the application for the environment values. The timestamp's
/// value is the clock's, so only its shape is promised: a nonempty UTC
/// rendering.
pub fn begin_run() -> (r: (RunState, Action))
    ensures
        r.0.stage is AwaitEnv,
        r.1 is ReadEnv,
        r.0.created_at@.len() > 0,
        ends_with(r.0.created_at@, " UTC"@),
{
    (RunState::at(now_utc_string()), Action::ReadEnv)
}

impl RunState {
    /// A run begun at the given timestamp, awaiting the environment.
    pub fn at(created_at: String) -> (r: RunState)
        ensures
            r.created_at == created_at,
            r.stage is AwaitEnv,
    {
        RunState { created_at, stage: Stage::AwaitEnv }
    }
}

/// Advance the run by one interaction: from the stage it stood in and the
/// event the application handed back, to the next stage and the action
/// the application must perform next. The relation [`step_rel`] states
/// the whole transition, including that the run's timestamp is never
/// recaptured.
pub fn step(s: RunState, event: Event) -> (r: (RunState, Action))
    requires
        expects(s.stage, event),
    ensures
        step_rel(s, event, r.0, r.1),
{
    let RunState { created_at, stage } = s;
    match (stage, event) {
        (Stage::AwaitEnv, Event::EnvLoaded { values }) => match Config::from_values(values) {
            Err(key) => fail(created_at, RunError::Configuration { key }),
            Ok(config) => (
                RunState { created_at, stage: Stage::AwaitText { config } },
                Action::PromptText,
            ),
        },
        (Stage::AwaitText { config }, Event::TextLine { line }) => match line {
            None => fail(created_at, RunError::Input),
            Some(l) => {
                let text = trim(l.as_str());
                (
                    RunState { created_at, stage: Stage::AwaitMedia { config, text } },
                    Action::PromptMedia,
                )
            },
        },
        (Stage::AwaitMedia { config, text }, Event::MediaLine { line }) => match line {
            None => fail(created_at, RunError::Input),
            Some(l) => {
                let trimmed = trim(l.as_str());
                let path = strip_quotes(trimmed.as_str());
                let request = build_upload_request(&config, path);
                (
                    RunState { created_at, stage: Stage::AwaitUpload { config, text } },
                    Action::Upload { request },
                )
            },
        },
        (Stage::AwaitUpload { config, text }, Event::UploadFileUnreadable) => fail(
            created_at,
            RunError::FileAccess,
        ),
        (Stage::AwaitUpload { config, text }, Event::UploadTransportFailed) => fail(
            created_at,
            RunError::UploadTransport,
        ),
        (Stage::AwaitUpload { config, text }, Event::UploadResponded { body }) => {
            match parse_upload_response(body.as_str()) {
                Err(e) => fail(created_at, RunError::UploadResponse { error: e }),
                Ok(upload) => {
                    let stamp = created_at.clone();
                    let entry = JournalEntry::assemble(text, upload, stamp);
                    (
                        RunState { created_at, stage: Stage::AwaitInsert },
                        Action::Insert { config, entry },
                    )
                },
            }
        },
        (Stage::AwaitInsert, Event::InsertFinished { ok }) => {
            if ok {
                (RunState { created_at, stage: Stage::Done }, Action::ReportSuccess)
            } else {
                fail(created_at, RunError::Persistence)
            }
        },
        _ => vstd::pervasive::unreached(),
    }
}

/// A missing environment variable ends the run at the very first step:
/// the stage that learns of it reports a configuration failure naming a
/// key, and in particular neither an upload nor an insert is requested —
/// no network work happens before the configuration is complete.
pub proof fn lemma_config_failure_halts(pre: RunState, event: Event, post: RunState, action: Action)
    requires
        step_rel(pre, event, post, action),
        pre.stage is AwaitEnv,
        event matches Event::EnvLoaded { values } && first_missing(values) is Some,
    ensures
        post.stage matches Stage::Failed { error } && error matches RunError::Configuration { .. },
        action matches Action::ReportFailure { .. },
        !(action is Upload),
        !(action is Insert),
{
}

/// From the initial stage no network action can come out of a step: it
/// either asks for the note prompt or reports a failure.
pub proof fn lemma_no_network_before_config(
    pre: RunState,
    event: Event,
    post: RunState,
    action: Action,
)
    requires
        step_rel(pre, event, post, action),
        pre.stage is AwaitEnv,
    ensures
        action is PromptText || action matches Action::ReportFailure { .. },
        !(action is Upload),
        !(action is Insert),
{
}

/// `Done` and `Failed` are terminal: they accept no event, so an exited
/// run — successful or failed — cannot act again.
pub proof fn lemma_exit_is_terminal(stage: Stage, event: Event)
    requires
        stage is Done || stage is Failed,
    ensures
        !expects(stage, event),
{
}

/// An unusable upload response — a body that is not JSON, or JSON without
/// a string `secure_url` — ends the run with an upload-response failure;
/// in particular no insert is requested, so nothing is persisted.
pub proof fn lemma_bad_response_no_insert(
    pre: RunState,
    event: Event,
    post: RunState,
    action: Action,
)
    requires
        step_rel(pre, event, post, action),
        pre.stage is AwaitUpload,
        event matches Event::UploadResponded { body } && (!is_json(body@) || str_field_of(
            body@,
            "secure_url"@,
        ) is None),
    ensures
        post.stage matches Stage::Failed { error } && error matches RunError::UploadResponse {
            ..
        },
        action matches Action::ReportFailure { .. },
        !(action is Insert),
{
}

/// An insert is requested only by the step that consumes a usable upload
/// response, and that step moves the run to the insert-wait stage.
pub proof fn lemma_insert_only_after_upload(
    pre: RunState,
    event: Event,
    post: RunState,
    action: Action,
)
    requires
        step_rel(pre, event, post, action),
        action is Insert,
    ensures
        pre.stage is AwaitUpload,
        event matches Event::UploadResponded { .. },
        post.stage is AwaitInsert,
{
}

/// After the insert-wait stage a run only finishes — it reaches `Done` or
/// `Failed`, never an earlier stage — so no second insert can follow the
/// first: each run persists at most one record.
pub proof fn lemma_after_insert_only_exit(
    pre: RunState,
    event: Event,
    post: RunState,
    action: Action,
)
    requires
        step_rel(pre, event, post, action),
        pre.stage is AwaitInsert,
    ensures
        post.stage is Done || post.stage is Failed,
        !(action is Insert),
        !(action is Upload),
{
}

/// A run that reaches its insert persists exactly the record it promised:
/// over the four steps leading there, the inserted entry's text is the
/// trimmed note line, its media URL is the upload response's `secure_url`
/// verbatim, its dimensions are the response's, and its timestamp is the
/// one captured when the run began.
pub proof fn lemma_successful_run_record(
    s0: RunState,
    values: EnvValues,
    s1: RunState,
    a1: Action,
    note: String,
    s2: RunState,
    a2: Action,
    media: String,
    s3: RunState,
    a3: Action,
    body: String,
    s4: RunState,
    a4: Action,
)
    requires
        s0.stage is AwaitEnv,
        step_rel(s0, Event::EnvLoaded { values }, s1, a1),
        step_rel(s1, Event::TextLine { line: Some(note) }, s2, a2),
        step_rel(s2, Event::MediaLine { line: Some(media) }, s3, a3),
        step_rel(s3, Event::UploadResponded { body }, s4, a4),
        a4 is Insert,
    ensures
        a4 matches Action::Insert { entry, .. } && {
            &&& entry.text@ == trim_spec(note@)
            &&& Some(entry.media_url@) == str_field_of(body@, "secure_url"@)
            &&& entry.width == u64_field_of(body@, "width"@)
            &&& entry.height == u64_field_of(body@, "height"@)
            &&& entry.created_at@ == s0.created_at@
        },
{
}

} // verus!
