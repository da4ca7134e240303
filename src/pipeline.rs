//! The operation pipeline. A request is run as a sequence of filesystem calls that
//! the owner performs one at a time, handing each result back; the run then gives the
//! status text to show and whether the file view must be refreshed.
use vstd::prelude::*;
use crate::paths::{join, joined, texts};
use crate::text::{decimal, decimal_text};

verus! {

/// A request of the user interface. A `Delete` that reaches the pipeline is a
/// confirmed one.
#[derive(Clone, Debug, PartialEq, Eq)]
pub enum FileOperationRequest {
    Delete(Vec<String>),
    CreateDirectory { parent: String, name: String },
    Rename { from: String, to: String },
    Properties(Vec<String>),
}

pub enum RequestModel {
    Delete(Seq<Seq<char>>),
    CreateDirectory { parent: Seq<char>, name: Seq<char> },
    Rename { from: Seq<char>, to: Seq<char> },
    Properties(Seq<Seq<char>>),
}

impl View for FileOperationRequest {
    type V = RequestModel;

    open spec fn view(&self) -> RequestModel {
        match self {
            FileOperationRequest::Delete(p) => RequestModel::Delete(texts(p@)),
            FileOperationRequest::CreateDirectory { parent, name } => RequestModel::CreateDirectory {
                parent: parent@,
                name: name@,
            },
            FileOperationRequest::Rename { from, to } => RequestModel::Rename { from: from@, to: to@ },
            FileOperationRequest::Properties(p) => RequestModel::Properties(texts(p@)),
        }
    }
}

/// A call to the filesystem collaborator.
#[derive(Clone, Debug, PartialEq, Eq)]
pub enum FsCall {
    CreateDirectory(String),
    Rename { from: String, to: String },
    /// Removes a file, or a directory with everything in it.
    Delete(String),
}

pub enum CallModel {
    CreateDirectory(Seq<char>),
    Rename(Seq<char>, Seq<char>),
    Delete(Seq<char>),
}

impl View for FsCall {
    type V = CallModel;

    open spec fn view(&self) -> CallModel {
        match self {
            FsCall::CreateDirectory(p) => CallModel::CreateDirectory(p@),
            FsCall::Rename { from, to } => CallModel::Rename(from@, to@),
            FsCall::Delete(p) => CallModel::Delete(p@),
        }
    }
}

/// The calls that a request makes when every one of them succeeds, in order.
pub open spec fn planned_calls(r: RequestModel) -> Seq<CallModel> {
    match r {
        RequestModel::Delete(paths) => paths.map_values(|p: Seq<char>| CallModel::Delete(p)),
        RequestModel::CreateDirectory { parent, name } => seq![CallModel::CreateDirectory(joined(parent, name))],
        RequestModel::Rename { from, to } => seq![CallModel::Rename(from, to)],
        RequestModel::Properties(_) => seq![],
    }
}

/// The state of a run: the request, how many calls succeeded, and the first error.
pub struct RunModel {
    pub request: RequestModel,
    pub done: nat,
    pub failure: Option<Seq<char>>,
}

impl RunModel {
    pub open spec fn wf(self) -> bool {
        self.done <= planned_calls(self.request).len()
    }

    /// The call to perform next: none once a call has failed, or all were made.
    pub open spec fn next_call(self) -> Option<CallModel> {
        if self.failure is None && self.done < planned_calls(self.request).len() {
            Some(planned_calls(self.request)[self.done as int])
        } else {
            None
        }
    }

    pub open spec fn finished(self) -> bool {
        self.next_call() is None
    }

    /// The status text once the run is finished.
    pub open spec fn status(self) -> Seq<char> {
        match self.failure {
            Some(e) => "Error: "@ + e,
            None => match self.request {
                RequestModel::Delete(paths) => "Deleted "@ + decimal_text(paths.len()) + " item(s)"@,
                RequestModel::CreateDirectory { parent, name } => "Created directory '"@ + name + "'"@,
                RequestModel::Rename { .. } => "Renamed successfully"@,
                RequestModel::Properties(_) => "Properties functionality available via right-click"@,
            },
        }
    }

    /// Whether the file view is refreshed once the run is finished: always after a
    /// deletion, since some entries may be gone; after a creation or a rename only on
    /// success; never for properties.
    pub open spec fn refresh(self) -> bool {
        match self.request {
            RequestModel::Delete(_) => true,
            RequestModel::Properties(_) => false,
            _ => self.failure is None,
        }
    }
}

/// The name of a folder made by the new-folder action at `secs` seconds since the
/// Unix epoch.
pub open spec fn new_folder_name_text(secs: u64) -> Seq<char> {
    "New Folder "@ + decimal_text(secs as nat)
}

/// The request of the new-folder action: a folder named after the time, in `parent`.
pub fn new_folder_request(parent: String, secs: u64) -> (r: FileOperationRequest)
    ensures
        r@ == (RequestModel::CreateDirectory { parent: parent@, name: new_folder_name_text(secs) }),
{
    let mut name = String::from_str("New Folder ");
    let digits = decimal(secs);
    name.append(digits.as_str());
    FileOperationRequest::CreateDirectory { parent, name }
}

/// What a finished run leaves to show.
#[derive(Clone, Debug, PartialEq, Eq)]
pub struct Outcome {
    pub status: String,
    pub refresh: bool,
}

pub struct OperationRun {
    request: FileOperationRequest,
    done: usize,
    failure: Option<String>,
}

impl View for OperationRun {
    type V = RunModel;

    closed spec fn view(&self) -> RunModel {
        RunModel {
            request: self.request@,
            done: self.done as nat,
            failure: match self.failure {
                Some(e) => Some(e@),
                None => None,
            },
        }
    }
}

impl OperationRun {
    pub fn start(request: FileOperationRequest) -> (r: OperationRun)
        ensures
            r@ == (RunModel { request: request@, done: 0, failure: None }),
            r@.wf(),
    {
        OperationRun { request, done: 0, failure: None }
    }

    /// The filesystem call to perform next, if any.
    pub fn next_call(&self) -> (r: Option<FsCall>)
        requires
            self@.wf(),
        ensures
            match r {
                Some(c) => self@.next_call() == Some(c@),
                None => self@.next_call() is None,
            },
    {
        if self.failure.is_some() {
            return None;
        }
        match &self.request {
            FileOperationRequest::Delete(paths) => {
                if self.done < paths.len() {
                    Some(FsCall::Delete(paths[self.done].clone()))
                } else {
                    None
                }
            },
            FileOperationRequest::CreateDirectory { parent, name } => {
                if self.done == 0 {
                    Some(FsCall::CreateDirectory(join(parent, name)))
                } else {
                    None
                }
            },
            FileOperationRequest::Rename { from, to } => {
                if self.done == 0 {
                    Some(FsCall::Rename { from: from.clone(), to: to.clone() })
                } else {
                    None
                }
            },
            FileOperationRequest::Properties(_) => None,
        }
    }

    /// Hands back the result of the call that `next_call` gave.
    pub fn record(&mut self, result: Result<(), String>)
        requires
            old(self)@.wf(),
            !old(self)@.finished(),
        ensures
            final(self)@.wf(),
            final(self)@ == (match result {
                Ok(()) => RunModel { done: old(self)@.done + 1, ..old(self)@ },
                Err(e) => RunModel { failure: Some(e@), ..old(self)@ },
            }),
    {
        // The number of planned calls, as a machine integer: it bounds `done`.
        let planned: usize = match &self.request {
            FileOperationRequest::Delete(p) => p.len(),
            FileOperationRequest::Properties(_) => 0,
            _ => 1,
        };
        assert(planned == planned_calls(self@.request).len());
        match result {
            Ok(()) => {
                self.done = self.done + 1;
            },
            Err(e) => {
                self.failure = Some(e);
            },
        }
    }

    /// The status text and the refresh decision of a finished run.
    pub fn outcome(&self) -> (r: Outcome)
        requires
            self@.wf(),
            self@.finished(),
        ensures
            r.status@ == self@.status(),
            r.refresh == self@.refresh(),
    {
        let status = match &self.failure {
            Some(e) => {
                let mut s = String::from_str("Error: ");
                s.append(e.as_str());
                s
            },
            None => match &self.request {
                FileOperationRequest::Delete(paths) => {
                    let mut s = String::from_str("Deleted ");
                    let count = decimal(paths.len() as u64);
                    s.append(count.as_str());
                    s.append(" item(s)");
                    s
                },
                FileOperationRequest::CreateDirectory { name, .. } => {
                    let mut s = String::from_str("Created directory '");
                    s.append(name.as_str());
                    s.append("'");
                    s
                },
                FileOperationRequest::Rename { .. } => String::from_str("Renamed successfully"),
                FileOperationRequest::Properties(_) => String::from_str(
                    "Properties functionality available via right-click",
                ),
            },
        };
        let refresh = match &self.request {
            FileOperationRequest::Delete(_) => true,
            FileOperationRequest::Properties(_) => false,
            _ => self.failure.is_none(),
        };
        Outcome { status, refresh }
    }
}

} // verus!
