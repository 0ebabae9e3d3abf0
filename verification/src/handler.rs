//! The request handler, as the decisions around one upload.
//!
//! `hello` takes a request from received to ready for upload, or refuses it.
//! The caller performs the planned upload once and hands its outcome to
//! `respond`, which gives the response.

use vstd::prelude::*;
use vstd::string::*;
use vstd::utf8::*;
use crate::client::{flag_view, resolution, resolve_client, try_resolve_client, ClientConfig};
use crate::upload::{upload_request, upload_spec, UploadRequest, UploadRequestView};
use crate::validate::{byte_len, text_view, validate, validation, ValidationError, MAX_TEXT_LEN};

verus! {

/// Name of the setting that, set to anything, selects the mock backend.
pub const MOCK_KEY: &'static str = "AWS_MOCK_FLAG";

/// Name of the setting that holds the bucket name.
pub const BUCKET_NAME_KEY: &'static str = "BUCKET_NAME";

/// Name of the setting that decides between emulator and cloud.
pub const LOCAL_KEY: &'static str = "LOCAL_FLAG";

/// Message of every successful response.
pub const MSG_SUCCEEDED: &'static str = "Succeeded.";

/// A request: one optional text.
#[derive(Clone, Debug, PartialEq, Eq)]
pub struct CustomEvent {
    pub text_body: Option<String>,
}

/// A response: one message.
#[derive(Clone, Debug, PartialEq, Eq)]
pub struct CustomOutput {
    pub message: String,
}

/// The settings a request is handled under, as they were read.
#[derive(Debug, PartialEq, Eq)]
pub struct Environment {
    /// The value of `MOCK_KEY`, where it is set.
    pub mock_flag: Option<String>,
    /// The value of `BUCKET_NAME_KEY`, or the text of the failure to read it.
    pub bucket_name: Result<String, String>,
    /// The value of `LOCAL_KEY`, where it is set.
    pub local_flag: Option<String>,
}

/// Why a request got no response.
#[derive(Clone, Debug, PartialEq, Eq)]
pub enum HandlerError {
    /// The text body was refused.
    Validation(ValidationError),
    /// The bucket name could not be read; the text is that of the failure.
    Configuration(String),
    /// The upload failed; the text is that of the failure.
    Transport(String),
}

/// An accepted request, ready for its upload.
#[derive(Clone, Debug, PartialEq, Eq)]
pub struct UploadPlan {
    /// The backend to send the request to.
    pub client: ClientConfig,
    /// The one request to send.
    pub request: UploadRequest,
}

/// The environment as mathematical data.
pub struct EnvironmentView {
    pub mock_flag: Option<Seq<char>>,
    pub bucket_name: Result<Seq<char>, Seq<char>>,
    pub local_flag: Option<Seq<char>>,
}

/// A handler failure as mathematical data.
pub enum HandlerErrorView {
    Validation(ValidationError),
    Configuration(Seq<char>),
    Transport(Seq<char>),
}

/// An upload plan as mathematical data.
pub struct UploadPlanView {
    pub client: ClientConfig,
    pub request: UploadRequestView,
}

impl View for CustomEvent {
    type V = Option<Seq<char>>;

    open spec fn view(&self) -> Option<Seq<char>> {
        text_view(self.text_body)
    }
}

impl View for CustomOutput {
    type V = Seq<char>;

    open spec fn view(&self) -> Seq<char> {
        self.message@
    }
}

impl View for Environment {
    type V = EnvironmentView;

    open spec fn view(&self) -> EnvironmentView {
        EnvironmentView {
            mock_flag: flag_view(self.mock_flag),
            bucket_name: match self.bucket_name {
                Ok(name) => Ok(name@),
                Err(reason) => Err(reason@),
            },
            local_flag: flag_view(self.local_flag),
        }
    }
}

impl View for HandlerError {
    type V = HandlerErrorView;

    open spec fn view(&self) -> HandlerErrorView {
        match self {
            HandlerError::Validation(e) => HandlerErrorView::Validation(*e),
            HandlerError::Configuration(reason) => HandlerErrorView::Configuration(reason@),
            HandlerError::Transport(reason) => HandlerErrorView::Transport(reason@),
        }
    }
}

impl View for UploadPlan {
    type V = UploadPlanView;

    open spec fn view(&self) -> UploadPlanView {
        UploadPlanView { client: self.client, request: self.request@ }
    }
}

impl HandlerErrorView {
    /// The text a failure is reported with: the bracketed message of a
    /// validation failure, and the underlying text of any other, unchanged.
    pub open spec fn message(self) -> Seq<char> {
        match self {
            HandlerErrorView::Validation(e) => e.message_spec(),
            HandlerErrorView::Configuration(reason) => reason,
            HandlerErrorView::Transport(reason) => reason,
        }
    }
}

impl HandlerError {
    /// The text this failure is reported with.
    pub fn message(&self) -> (m: String)
        ensures
            m@ == self@.message(),
    {
        match self {
            HandlerError::Validation(e) => e.message(),
            HandlerError::Configuration(reason) => reason.clone(),
            HandlerError::Transport(reason) => reason.clone(),
        }
    }
}

/// Whether the handler is defined on a request: an accepted text needs a
/// backend, so one of the two flags must then be set.
pub open spec fn can_handle(event: Option<Seq<char>>, env: EnvironmentView) -> bool {
    validation(event) is Ok ==> resolution(env.mock_flag, env.local_flag) is Some
}

/// What the handler decides before the upload. A refused text fails first;
/// then a bucket name that could not be read fails with its own text;
/// otherwise the plan is one upload of the text to that bucket through the
/// backend the flags select.
pub open spec fn plan(event: Option<Seq<char>>, env: EnvironmentView) -> Result<
    UploadPlanView,
    HandlerErrorView,
> {
    match validation(event) {
        Err(e) => Err(HandlerErrorView::Validation(e)),
        Ok(text) => match env.bucket_name {
            Err(reason) => Err(HandlerErrorView::Configuration(reason)),
            Ok(bucket) => Ok(
                UploadPlanView {
                    client: resolution(env.mock_flag, env.local_flag).unwrap(),
                    request: upload_spec(bucket, text),
                },
            ),
        },
    }
}

/// What the handler answers once the upload has been attempted: success
/// with the fixed message, or the upload's failure unchanged.
pub open spec fn response(uploaded: Result<(), Seq<char>>) -> Result<Seq<char>, HandlerErrorView> {
    match uploaded {
        Ok(_) => Ok(MSG_SUCCEEDED@),
        Err(reason) => Err(HandlerErrorView::Transport(reason)),
    }
}

/// The handler from request to response, given what the upload returns if
/// it is attempted.
pub open spec fn outcome(
    event: Option<Seq<char>>,
    env: EnvironmentView,
    uploaded: Result<(), Seq<char>>,
) -> Result<Seq<char>, HandlerErrorView> {
    match plan(event, env) {
        Err(e) => Err(e),
        Ok(_) => response(uploaded),
    }
}

/// The number of uploads the handler asks for: one for a plan, none for a
/// refusal.
pub open spec fn uploads(event: Option<Seq<char>>, env: EnvironmentView) -> nat {
    if plan(event, env) is Ok {
        1
    } else {
        0
    }
}

/// The view of a planning result.
pub open spec fn plan_view(res: Result<UploadPlan, HandlerError>) -> Result<
    UploadPlanView,
    HandlerErrorView,
> {
    match res {
        Ok(p) => Ok(p@),
        Err(e) => Err(e@),
    }
}

/// The view of an upload's outcome.
pub open spec fn uploaded_view(uploaded: Result<(), String>) -> Result<(), Seq<char>> {
    match uploaded {
        Ok(_) => Ok(()),
        Err(reason) => Err(reason@),
    }
}

/// The view of a response.
pub open spec fn response_view(res: Result<CustomOutput, HandlerError>) -> Result<
    Seq<char>,
    HandlerErrorView,
> {
    match res {
        Ok(out) => Ok(out@),
        Err(e) => Err(e@),
    }
}

/// Plans the upload of an accepted text through a chosen backend.
fn prepare(client: ClientConfig, text: String, bucket_name: &Result<String, String>) -> (res:
    Result<UploadPlan, HandlerError>)
    ensures
        plan_view(res) == (match *bucket_name {
            Err(reason) => Err::<UploadPlanView, HandlerErrorView>(
                HandlerErrorView::Configuration(reason@),
            ),
            Ok(bucket) => Ok(
                UploadPlanView { client: client, request: upload_spec(bucket@, text@) },
            ),
        }),
{
    match bucket_name {
        Err(reason) => Err(HandlerError::Configuration(reason.clone())),
        Ok(bucket) => Ok(
            UploadPlan { client: client, request: upload_request(bucket.clone(), text) },
        ),
    }
}

/// Handles a request up to its upload: validates the text, selects the
/// backend, reads the bucket name and plans the one upload.
pub fn hello(event: CustomEvent, env: &Environment) -> (res: Result<UploadPlan, HandlerError>)
    requires
        can_handle(event@, env@),
    ensures
        plan_view(res) == plan(event@, env@),
{
    match validate(event.text_body) {
        Err(e) => Err(HandlerError::Validation(e)),
        Ok(text) => {
            let client = resolve_client(&env.mock_flag, &env.local_flag);
            prepare(client, text, &env.bucket_name)
        },
    }
}

/// As `hello`, for any request and environment: `None` exactly where an
/// accepted text finds neither flag set.
pub fn try_hello(event: CustomEvent, env: &Environment) -> (res: Option<
    Result<UploadPlan, HandlerError>,
>)
    ensures
        res is Some <==> can_handle(event@, env@),
        res is Some ==> plan_view(res.unwrap()) == plan(event@, env@),
{
    match validate(event.text_body) {
        Err(e) => Some(Err(HandlerError::Validation(e))),
        Ok(text) => match try_resolve_client(&env.mock_flag, &env.local_flag) {
            None => None,
            Some(client) => Some(prepare(client, text, &env.bucket_name)),
        },
    }
}

/// Gives the response once the planned upload has been attempted.
pub fn respond(uploaded: Result<(), String>) -> (res: Result<CustomOutput, HandlerError>)
    ensures
        response_view(res) == response(uploaded_view(uploaded)),
{
    match uploaded {
        Ok(_) => Ok(CustomOutput { message: String::from_str(MSG_SUCCEEDED) }),
        Err(reason) => Err(HandlerError::Transport(reason)),
    }
}

/// A request without a text body fails with exactly
/// `[400] Empty text body.`, whatever the environment and whatever an upload
/// would have returned, and asks for no upload.
pub proof fn law_absent_body_is_refused(env: EnvironmentView, uploaded: Result<(), Seq<char>>)
    ensures
        can_handle(None, env),
        plan(None, env) == Err::<UploadPlanView, HandlerErrorView>(
            HandlerErrorView::Validation(ValidationError::EmptyBody),
        ),
        outcome(None, env, uploaded) is Err,
        outcome(None, env, uploaded)->Err_0.message() == "[400] Empty text body."@,
        uploads(None, env) == 0,
{
}

/// A text body of more than 100 bytes fails with exactly
/// `[400] Text body is too long (max: 100)`, whatever the environment and
/// whatever an upload would have returned, and asks for no upload.
pub proof fn law_long_body_is_refused(
    text: Seq<char>,
    env: EnvironmentView,
    uploaded: Result<(), Seq<char>>,
)
    requires
        byte_len(text) > MAX_TEXT_LEN,
    ensures
        can_handle(Some(text), env),
        plan(Some(text), env) == Err::<UploadPlanView, HandlerErrorView>(
            HandlerErrorView::Validation(ValidationError::TooLong),
        ),
        outcome(Some(text), env, uploaded) is Err,
        outcome(Some(text), env, uploaded)->Err_0.message()
            == "[400] Text body is too long (max: 100)"@,
        uploads(Some(text), env) == 0,
{
}

/// A text body of at most 100 bytes, with a backend selected and the bucket
/// name read, asks for exactly one upload, whose content is the bytes of the
/// text, whose key is `test.txt`, readable by everyone, in that bucket. Once
/// that upload has succeeded the response is `Succeeded.`; had it failed,
/// its failure is the handler's, unchanged.
pub proof fn law_short_body_is_stored(
    text: Seq<char>,
    env: EnvironmentView,
    bucket: Seq<char>,
    failure: Seq<char>,
)
    requires
        byte_len(text) <= MAX_TEXT_LEN,
        resolution(env.mock_flag, env.local_flag) is Some,
        env.bucket_name == Ok::<Seq<char>, Seq<char>>(bucket),
    ensures
        can_handle(Some(text), env),
        plan(Some(text), env) is Ok,
        uploads(Some(text), env) == 1,
        plan(Some(text), env)->Ok_0.request.body == encode_utf8(text),
        plan(Some(text), env)->Ok_0.request.bucket == bucket,
        plan(Some(text), env)->Ok_0.request.key == "test.txt"@,
        plan(Some(text), env)->Ok_0.request.acl == "public-read"@,
        Some(plan(Some(text), env)->Ok_0.client) == resolution(env.mock_flag, env.local_flag),
        outcome(Some(text), env, Ok(())) == Ok::<Seq<char>, HandlerErrorView>("Succeeded."@),
        outcome(Some(text), env, Err(failure)) == Err::<Seq<char>, HandlerErrorView>(
            HandlerErrorView::Transport(failure),
        ),
        HandlerErrorView::Transport(failure).message() == failure,
{
}

/// An accepted text whose bucket name could not be read fails with the
/// text of that failure, unchanged, and asks for no upload.
pub proof fn law_missing_bucket_is_reported(
    text: Seq<char>,
    env: EnvironmentView,
    reason: Seq<char>,
    uploaded: Result<(), Seq<char>>,
)
    requires
        byte_len(text) <= MAX_TEXT_LEN,
        env.bucket_name == Err::<Seq<char>, Seq<char>>(reason),
    ensures
        outcome(Some(text), env, uploaded) is Err,
        outcome(Some(text), env, uploaded)->Err_0.message() == reason,
        uploads(Some(text), env) == 0,
{
}

} // verus!
