//! The requests that go to the controller, and how its answers are read.
//!
//! Nothing here sends anything: a `Request` says what is to be sent, and the
//! functions that read an answer take the text that came back.

use vstd::prelude::*;
use vstd::string::StringExecFns;
use crate::app::{Application, ApplicationView};
use crate::error::{Error, ErrorView};
use crate::json::{json_document, json_keys, json_member, parse_json};

verus! {

/// Whether lifecycle hooks are forced during a synchronisation.
#[derive(Debug)]
pub struct Hook {
    pub force: bool,
}

/// How a synchronisation is carried out.
#[derive(Debug)]
pub struct Strategy {
    pub hook: Hook,
}

/// The body of a synchronisation request.
#[derive(Debug)]
pub struct SyncRequest {
    pub revision: String,
    pub prune: bool,
    pub dry_run: bool,
    pub strategy: Strategy,
}

/// What a `SyncRequest` is in contracts.
pub struct SyncRequestView {
    pub revision: Seq<char>,
    pub prune: bool,
    pub dry_run: bool,
    pub force: bool,
}

impl View for SyncRequest {
    type V = SyncRequestView;

    open spec fn view(&self) -> SyncRequestView {
        SyncRequestView {
            revision: self.revision@,
            prune: self.prune,
            dry_run: self.dry_run,
            force: self.strategy.hook.force,
        }
    }
}

/// The one synchronisation policy that is ever requested: the latest
/// revision, nothing pruned, no trial run, no hook forced.
pub open spec fn fixed_sync_request() -> SyncRequestView {
    SyncRequestView { revision: "HEAD"@, prune: false, dry_run: false, force: false }
}

impl SyncRequest {
    /// The fixed synchronisation request.
    pub fn new() -> (request: SyncRequest)
        ensures
            request@ == fixed_sync_request(),
    {
        SyncRequest {
            revision: "HEAD".to_owned(),
            prune: false,
            dry_run: false,
            strategy: Strategy { hook: Hook { force: false } },
        }
    }
}

/// The HTTP method of a request.
#[derive(Debug, Clone, Copy, PartialEq, Eq, Structural)]
pub enum Method {
    Get,
    Put,
    Post,
}

/// What a request carries as its JSON body.
#[derive(Debug)]
pub enum Payload {
    /// No body.
    Empty,
    /// An application document, which replaces the one the controller holds.
    Document(Application),
    /// A synchronisation request.
    Sync(SyncRequest),
}

/// What a `Payload` is in contracts.
pub enum PayloadView {
    Empty,
    Document(ApplicationView),
    Sync(SyncRequestView),
}

impl View for Payload {
    type V = PayloadView;

    open spec fn view(&self) -> PayloadView {
        match self {
            Payload::Empty => PayloadView::Empty,
            Payload::Document(application) => PayloadView::Document(application@),
            Payload::Sync(request) => PayloadView::Sync(request@),
        }
    }
}

/// One request to the controller. It is sent as JSON and authenticated by
/// the bearer token.
#[derive(Debug)]
pub struct Request {
    pub method: Method,
    pub url: String,
    pub token: String,
    pub payload: Payload,
}

/// What a `Request` is in contracts.
pub struct RequestView {
    pub method: Method,
    pub url: Seq<char>,
    pub token: Seq<char>,
    pub payload: PayloadView,
}

impl View for Request {
    type V = RequestView;

    open spec fn view(&self) -> RequestView {
        RequestView {
            method: self.method,
            url: self.url@,
            token: self.token@,
            payload: self.payload@,
        }
    }
}

/// The address of an application's document under a controller's address.
pub open spec fn application_url(address: Seq<char>, app_name: Seq<char>) -> Seq<char> {
    address + "/api/v1/applications/"@ + app_name
}

/// The address that takes the synchronisation requests of an application.
pub open spec fn sync_url(address: Seq<char>, app_name: Seq<char>) -> Seq<char> {
    application_url(address, app_name) + "/sync"@
}

/// Where the controller is and how to authenticate to it.
#[derive(Debug)]
pub struct BuildApi {
    address: String,
    token: String,
    debug: bool,
}

/// What a `BuildApi` is in contracts.
pub struct BuildApiView {
    pub address: Seq<char>,
    pub token: Seq<char>,
    pub debug: bool,
}

impl BuildApiView {
    /// The request that fetches the document of an application.
    pub open spec fn get_application(self, app_name: Seq<char>) -> RequestView {
        RequestView {
            method: Method::Get,
            url: application_url(self.address, app_name),
            token: self.token,
            payload: PayloadView::Empty,
        }
    }

    /// The request that replaces the document of an application.
    pub open spec fn update_application(
        self,
        app_name: Seq<char>,
        application: ApplicationView,
    ) -> RequestView {
        RequestView {
            method: Method::Put,
            url: application_url(self.address, app_name),
            token: self.token,
            payload: PayloadView::Document(application),
        }
    }

    /// The request that asks for a synchronisation of an application.
    pub open spec fn sync(self, app_name: Seq<char>) -> RequestView {
        RequestView {
            method: Method::Post,
            url: sync_url(self.address, app_name),
            token: self.token,
            payload: PayloadView::Sync(fixed_sync_request()),
        }
    }
}

impl View for BuildApi {
    type V = BuildApiView;

    closed spec fn view(&self) -> BuildApiView {
        BuildApiView { address: self.address@, token: self.token@, debug: self.debug }
    }
}

impl BuildApi {
    /// An API for the controller at `address`, authenticated by `token`.
    pub fn new(address: String, token: String, debug: bool) -> (api: BuildApi)
        ensures
            api@ == (BuildApiView { address: address@, token: token@, debug }),
    {
        BuildApi { address, token, debug }
    }

    /// Whether answers are to be logged in full.
    pub fn debug(&self) -> (debug: bool)
        ensures
            debug == self@.debug,
    {
        self.debug
    }

    fn url_of(&self, app_name: &str) -> (url: String)
        ensures
            url@ == application_url(self@.address, app_name@),
    {
        self.address.clone().concat("/api/v1/applications/").concat(app_name)
    }

    /// The request that fetches the document of the application `app_name`.
    pub fn get_application(&self, app_name: &str) -> (request: Request)
        ensures
            request@ == self@.get_application(app_name@),
    {
        Request {
            method: Method::Get,
            url: self.url_of(app_name),
            token: self.token.clone(),
            payload: Payload::Empty,
        }
    }

    /// The request that puts `application` in the place of the document that
    /// the controller holds for `app_name`.
    pub fn update_application(&self, app_name: &str, application: Application) -> (request: Request)
        ensures
            request@ == self@.update_application(app_name@, application@),
    {
        Request {
            method: Method::Put,
            url: self.url_of(app_name),
            token: self.token.clone(),
            payload: Payload::Document(application),
        }
    }

    /// The request that asks the controller to synchronise `app_name`, with
    /// the fixed synchronisation policy.
    pub fn sync(&self, app_name: &str) -> (request: Request)
        ensures
            request@ == self@.sync(app_name@),
    {
        Request {
            method: Method::Post,
            url: self.url_of(app_name).concat("/sync"),
            token: self.token.clone(),
            payload: Payload::Sync(SyncRequest::new()),
        }
    }
}

/// Whether a text is an error payload: a JSON value with a member `error`.
pub open spec fn is_error_payload(text: Seq<char>) -> bool {
    match json_document(text) {
        Some(value) => json_keys(value).contains("error"@),
        None => false,
    }
}

/// Whether the answer `text` is an error payload.
pub fn reports_error(text: &str) -> (reported: bool)
    ensures
        reported == is_error_payload(text@),
{
    match parse_json(text) {
        Some(value) => json_member(&value, "error").is_some(),
        None => false,
    }
}

/// What a decoding attempt gave, as it stands in contracts.
pub open spec fn decoded_view(decoded: Result<Application, String>) -> Result<
    ApplicationView,
    Seq<char>,
> {
    match decoded {
        Ok(application) => Ok(application@),
        Err(account) => Err(account@),
    }
}

/// What the answer to a fetch amounts to: an error payload is the error,
/// whatever else it holds; any other text is worth what decoding it gave.
pub open spec fn fetched(
    error_reported: bool,
    text: Seq<char>,
    decoded: Result<ApplicationView, Seq<char>>,
) -> Result<ApplicationView, ErrorView> {
    if error_reported {
        Err(ErrorView::Other(text))
    } else {
        match decoded {
            Ok(application) => Ok(application),
            Err(account) => Err(ErrorView::Serde(account)),
        }
    }
}

/// A fetch result as it stands in contracts.
pub open spec fn fetch_view(result: Result<Application, Error>) -> Result<
    ApplicationView,
    ErrorView,
> {
    match result {
        Ok(application) => Ok(application@),
        Err(error) => Err(error@),
    }
}

/// Settles the answer to a fetch, given whether its text is an error
/// payload and what decoding the text as an application document gave.
pub fn settle_application(
    error_reported: bool,
    text: String,
    decoded: Result<Application, String>,
) -> (result: Result<Application, Error>)
    ensures
        fetch_view(result) == fetched(error_reported, text@, decoded_view(decoded)),
{
    if error_reported {
        Err(Error::Other(text))
    } else {
        match decoded {
            Ok(application) => Ok(application),
            Err(account) => Err(Error::Serde(account)),
        }
    }
}

/// Reads the answer to a fetch: `text` is the body that came back and
/// `decoded` what decoding it as an application document gave.
pub fn read_application(text: String, decoded: Result<Application, String>) -> (result: Result<
    Application,
    Error,
>)
    ensures
        fetch_view(result) == fetched(is_error_payload(text@), text@, decoded_view(decoded)),
{
    let error_reported = reports_error(text.as_str());
    settle_application(error_reported, text, decoded)
}

} // verus!
