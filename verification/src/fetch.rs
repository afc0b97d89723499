//! Retrieval of an application from the applications service: which call
//! comes next, and what the answers amount to. The caller owns the
//! connection; it makes each call and hands the answer back.

use crate::application::{
    parse_url, url_parse, uuid_text, uuid_to_text, Application, ApplicationModel,
};
use crate::rdn::{rdn_check, ApplicationRDN, ApplicationRDNErrors};
use url::Url;
use uuid::Uuid;
use vstd::prelude::*;
use vstd::string::*;

verus! {

/// The name of the applications service, and of its interface.
pub const DBUS_STANDARD_VOXELS_APPLICATIONS_SERVICE: &'static str = "voxels.applications";

/// The object of the service that answers, mounted as `/get`.
pub const DBUS_STANDARD_VOXELS_APPLICATIONS_GET_PATH: &'static str = "get";

/// The method that answers with the name.
pub const DBUS_STANDARD_VOXELS_APPLICATIONS_RDN_METHOD: &'static str = "rdn";

/// The method that answers with the homepage.
pub const DBUS_STANDARD_VOXELS_APPLICATIONS_HOMEPAGE_METHOD: &'static str = "homepage";

/// The method that answers with the description.
pub const DBUS_STANDARD_VOXELS_APPLICATIONS_DESCRIPTION_METHOD: &'static str = "description";

/// The method that answers with the role tag.
pub const DBUS_STANDARD_VOXELS_APPLICATIONS_TYPE_METHOD: &'static str = "type";

/// How long each call may take, in seconds.
pub const CALL_TIMEOUT_SECONDS: u64 = 2;

/// The calls that the service answers, in the order in which they are made.
#[derive(Debug, Clone, Copy, PartialEq, Eq, Structural)]
pub enum Method {
    Rdn,
    Description,
    Homepage,
    Type,
}

/// The name of a method on the bus.
pub open spec fn method_name(method: Method) -> Seq<char> {
    match method {
        Method::Rdn => DBUS_STANDARD_VOXELS_APPLICATIONS_RDN_METHOD@,
        Method::Description => DBUS_STANDARD_VOXELS_APPLICATIONS_DESCRIPTION_METHOD@,
        Method::Homepage => DBUS_STANDARD_VOXELS_APPLICATIONS_HOMEPAGE_METHOD@,
        Method::Type => DBUS_STANDARD_VOXELS_APPLICATIONS_TYPE_METHOD@,
    }
}

/// The call that follows `method`, if one does.
pub open spec fn method_after(method: Method) -> Option<Method> {
    match method {
        Method::Rdn => Some(Method::Description),
        Method::Description => Some(Method::Homepage),
        Method::Homepage => Some(Method::Type),
        Method::Type => None,
    }
}

impl Method {
    /// The name of the method on the bus.
    pub fn name(&self) -> (name: &'static str)
        ensures
            name@ == method_name(*self),
    {
        match self {
            Method::Rdn => DBUS_STANDARD_VOXELS_APPLICATIONS_RDN_METHOD,
            Method::Description => DBUS_STANDARD_VOXELS_APPLICATIONS_DESCRIPTION_METHOD,
            Method::Homepage => DBUS_STANDARD_VOXELS_APPLICATIONS_HOMEPAGE_METHOD,
            Method::Type => DBUS_STANDARD_VOXELS_APPLICATIONS_TYPE_METHOD,
        }
    }

    /// The call that follows this one, if one does.
    pub fn next(&self) -> (next: Option<Method>)
        ensures
            next == method_after(*self),
    {
        match self {
            Method::Rdn => Some(Method::Description),
            Method::Description => Some(Method::Homepage),
            Method::Homepage => Some(Method::Type),
            Method::Type => None,
        }
    }
}

/// Why a retrieval failed.
#[derive(Debug, Clone, Copy, PartialEq, Eq)]
pub enum RetrievalError {
    /// The connection to the bus could not be opened.
    Connection,
    /// This call failed or timed out.
    Call(Method),
    /// The service answered `rdn` with a text that is no valid name.
    InvalidRDN(ApplicationRDNErrors),
    /// The service answered `homepage` with a text that is no URL.
    InvalidHomepage(url::ParseError),
}

/// What came of one call.
#[derive(Debug, Clone, PartialEq, Eq)]
pub enum Reply {
    /// The string that the service returned.
    Returned(String),
    /// The call failed, or took longer than `CALL_TIMEOUT_SECONDS`.
    Failed,
}

/// A retrieval between two calls: the instance asked for, the call that is
/// out, and the answers so far.
#[derive(Debug)]
pub struct Fetch {
    pub id: Uuid,
    pub pending: Method,
    pub rdn: String,
    pub description: String,
    pub homepage: String,
}

/// `Fetch` as a mathematical value.
pub struct FetchModel {
    pub id: Uuid,
    pub pending: Method,
    pub rdn: Seq<char>,
    pub description: Seq<char>,
    pub homepage: Seq<char>,
}

impl View for Fetch {
    type V = FetchModel;

    open spec fn view(&self) -> FetchModel {
        FetchModel {
            id: self.id,
            pending: self.pending,
            rdn: self.rdn@,
            description: self.description@,
            homepage: self.homepage@,
        }
    }
}

/// What the caller does next.
#[derive(Debug)]
pub enum Progress {
    /// Make this call with this one argument, and come back with the answer.
    Call { state: Fetch, method: Method, argument: String },
    /// Stop the watcher, release the connection, and return this.
    Finish(Result<Application, RetrievalError>),
}

/// `Progress` as a mathematical value.
pub enum ProgressModel {
    Call { state: FetchModel, method: Method, argument: Seq<char> },
    Finish(Result<ApplicationModel, RetrievalError>),
}

/// The outcome of a retrieval as a mathematical value.
pub open spec fn outcome_model(outcome: Result<Application, RetrievalError>) -> Result<
    ApplicationModel,
    RetrievalError,
> {
    match outcome {
        Ok(app) => Ok(app@),
        Err(e) => Err(e),
    }
}

impl View for Progress {
    type V = ProgressModel;

    open spec fn view(&self) -> ProgressModel {
        match self {
            Progress::Call { state, method, argument } => ProgressModel::Call {
                state: state@,
                method: *method,
                argument: argument@,
            },
            Progress::Finish(outcome) => ProgressModel::Finish(outcome_model(*outcome)),
        }
    }
}

/// The application that the answers amount to, `homepage` being what the
/// homepage text parsed to. The name is checked first. The role stays absent.
pub open spec fn assembled(
    id: Uuid,
    rdn: Seq<char>,
    description: Seq<char>,
    homepage: Result<Url, url::ParseError>,
) -> Result<ApplicationModel, RetrievalError> {
    match rdn_check(rdn) {
        Some(e) => Err(RetrievalError::InvalidRDN(e)),
        None => match homepage {
            Err(e) => Err(RetrievalError::InvalidHomepage(e)),
            Ok(url) => Ok(
                ApplicationModel {
                    rdn,
                    id,
                    homepage: Some(url),
                    description: Some(description),
                    app_type: None,
                },
            ),
        },
    }
}

/// The first step: with a connection the `rdn` call, without one the end.
pub open spec fn first_step(id: Uuid, connected: bool) -> ProgressModel {
    if connected {
        ProgressModel::Call {
            state: FetchModel {
                id,
                pending: Method::Rdn,
                rdn: Seq::empty(),
                description: Seq::empty(),
                homepage: Seq::empty(),
            },
            method: Method::Rdn,
            argument: uuid_text(id),
        }
    } else {
        ProgressModel::Finish(Err(RetrievalError::Connection))
    }
}

/// `state` with the answer `text` to its pending call.
pub open spec fn with_answer(state: FetchModel, text: Seq<char>) -> FetchModel {
    match state.pending {
        Method::Rdn => FetchModel { rdn: text, ..state },
        Method::Description => FetchModel { description: text, ..state },
        Method::Homepage => FetchModel { homepage: text, ..state },
        Method::Type => state,
    }
}

/// The step after an answer. A failed call ends the retrieval with that call
/// as the error. An answer is kept and the next call made, with the instance
/// id as its argument; after the last one the answers are assembled.
pub open spec fn next_step(state: FetchModel, reply: Option<Seq<char>>) -> ProgressModel {
    match reply {
        None => ProgressModel::Finish(Err(RetrievalError::Call(state.pending))),
        Some(text) => {
            let kept = with_answer(state, text);
            match method_after(state.pending) {
                Some(method) => ProgressModel::Call {
                    state: FetchModel { pending: method, ..kept },
                    method,
                    argument: uuid_text(state.id),
                },
                None => ProgressModel::Finish(
                    assembled(kept.id, kept.rdn, kept.description, url_parse(kept.homepage)),
                ),
            }
        },
    }
}

/// The text that a reply holds, `None` for a failed call.
pub open spec fn reply_model(reply: Reply) -> Option<Seq<char>> {
    match reply {
        Reply::Returned(text) => Some(text@),
        Reply::Failed => None,
    }
}

/// Assembles the application from the answers, `homepage` being what
/// `Url::parse` made of the homepage text.
pub fn assemble(
    id: Uuid,
    rdn: &str,
    description: String,
    homepage: Result<Url, url::ParseError>,
) -> (outcome: Result<Application, RetrievalError>)
    ensures
        outcome_model(outcome) == assembled(id, rdn@, description@, homepage),
{
    let rdn = match ApplicationRDN::new(rdn) {
        Ok(rdn) => rdn,
        Err(e) => { return Err(RetrievalError::InvalidRDN(e)); },
    };
    match homepage {
        Err(e) => Err(RetrievalError::InvalidHomepage(e)),
        Ok(url) => Ok(Application::new(rdn, id, Some(url), Some(description), None)),
    }
}

impl Fetch {
    /// Begins the retrieval of the application with instance `id`.
    /// `connected` says whether the connection to the bus was opened.
    pub fn start(id: Uuid, connected: bool) -> (progress: Progress)
        ensures
            progress@ == first_step(id, connected),
    {
        if !connected {
            return Progress::Finish(Err(RetrievalError::Connection));
        }
        let argument = uuid_to_text(&id);
        let state = Fetch {
            id,
            pending: Method::Rdn,
            rdn: String::new(),
            description: String::new(),
            homepage: String::new(),
        };
        Progress::Call { state, method: Method::Rdn, argument }
    }

    /// Takes the answer to the pending call and says what comes next.
    pub fn advance(self, reply: Reply) -> (progress: Progress)
        ensures
            progress@ == next_step(self@, reply_model(reply)),
    {
        let text = match reply {
            Reply::Returned(text) => text,
            Reply::Failed => { return Progress::Finish(Err(RetrievalError::Call(self.pending))); },
        };
        match self.pending {
            Method::Rdn => {
                let argument = uuid_to_text(&self.id);
                let state = Fetch {
                    id: self.id,
                    pending: Method::Description,
                    rdn: text,
                    description: self.description,
                    homepage: self.homepage,
                };
                Progress::Call { state, method: Method::Description, argument }
            },
            Method::Description => {
                let argument = uuid_to_text(&self.id);
                let state = Fetch {
                    id: self.id,
                    pending: Method::Homepage,
                    rdn: self.rdn,
                    description: text,
                    homepage: self.homepage,
                };
                Progress::Call { state, method: Method::Homepage, argument }
            },
            Method::Homepage => {
                let argument = uuid_to_text(&self.id);
                let state = Fetch {
                    id: self.id,
                    pending: Method::Type,
                    rdn: self.rdn,
                    description: self.description,
                    homepage: text,
                };
                Progress::Call { state, method: Method::Type, argument }
            },
            Method::Type => {
                let homepage = parse_url(self.homepage.as_str());
                Progress::Finish(assemble(self.id, self.rdn.as_str(), self.description, homepage))
            },
        }
    }
}

/// What ends the watch over the connection.
#[derive(Debug, Clone, Copy, PartialEq, Eq, Structural)]
pub enum WatcherEvent {
    /// The connection's I/O ended on its own.
    ConnectionLost,
    /// The retrieval is over and cancelled the watch.
    Cancelled,
}

impl WatcherEvent {
    /// Whether the watcher reports the loss to the caller before it exits:
    /// only where the connection was lost, never on cancellation.
    pub fn reports_loss(&self) -> (report: bool)
        ensures
            report == (*self == WatcherEvent::ConnectionLost),
    {
        match self {
            WatcherEvent::ConnectionLost => true,
            WatcherEvent::Cancelled => false,
        }
    }
}

} // verus!
