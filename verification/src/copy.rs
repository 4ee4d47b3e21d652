//! The monitor of a copy that the server carries out on its own.
//!
//! A copy is started by one request, which the server answers with the URL
//! of a monitor. Polling that URL tells how far the copy is. Once it has
//! completed or failed there is nothing more to ask, and the monitor refuses
//! to be polled.

use crate::error::{Error, MissingPart, MisuseError, ProtocolError};
use crate::resource::{DriveItem, ErrorObject};
use vstd::prelude::*;
use vstd::string::StringExecFns;

verus! {

/// How far a copy is. `P` is the type in which the percentage is held; the
/// monitor hands it on as it came and never looks at it.
#[derive(Debug, PartialEq)]
pub enum CopyStatus<P> {
    /// The server has not begun.
    NotStarted,
    /// The server is copying. The percentage need not grow from one poll to
    /// the next.
    InProgress { percentage: P },
    /// The copy is made; this is the new item.
    Completed { item: DriveItem },
    /// The copy failed, for this reason.
    Failed { error: ErrorObject },
}

impl<P> CopyStatus<P> {
    /// Whether the copy has come to an end, well or badly.
    pub open spec fn is_terminal(&self) -> bool {
        self is Completed || self is Failed
    }

    /// Whether the copy has come to an end, well or badly.
    pub fn is_finished(&self) -> (r: bool)
        ensures
            r == self.is_terminal(),
    {
        match self {
            CopyStatus::NotStarted => false,
            CopyStatus::InProgress { .. } => false,
            CopyStatus::Completed { .. } => true,
            CopyStatus::Failed { .. } => true,
        }
    }
}

/// What the monitor URL answers: the status by its name, and the members
/// that go with it.
#[derive(Debug, PartialEq)]
pub struct MonitorReport<P> {
    /// One of `notStarted`, `inProgress`, `completed` and `failed`.
    pub status: String,
    /// How far the copy is, for `inProgress`.
    pub percentage: Option<P>,
    /// The new item, for `completed`.
    pub item: Option<DriveItem>,
    /// The reason, for `failed`.
    pub error: Option<ErrorObject>,
}

/// The status that a report tells. A report with a status name that is not
/// known, or without the member that its status needs, tells none.
pub open spec fn status_of<P>(report: MonitorReport<P>) -> Result<CopyStatus<P>, ProtocolError> {
    if report.status@ == "notStarted"@ {
        Ok(CopyStatus::NotStarted)
    } else if report.status@ == "inProgress"@ {
        match report.percentage {
            Some(percentage) => Ok(CopyStatus::InProgress { percentage }),
            None => Err(ProtocolError::Missing { what: MissingPart::Percentage }),
        }
    } else if report.status@ == "completed"@ {
        match report.item {
            Some(item) => Ok(CopyStatus::Completed { item }),
            None => Err(ProtocolError::Missing { what: MissingPart::Item }),
        }
    } else if report.status@ == "failed"@ {
        match report.error {
            Some(error) => Ok(CopyStatus::Failed { error }),
            None => Err(ProtocolError::Missing { what: MissingPart::Error }),
        }
    } else {
        Err(ProtocolError::UnknownStatus { status: report.status })
    }
}

/// Reads the status that a report tells.
pub fn read_status<P>(report: MonitorReport<P>) -> (r: Result<CopyStatus<P>, ProtocolError>)
    ensures
        r == status_of(report),
{
    let MonitorReport { status, percentage, item, error } = report;
    if status == String::from_str("notStarted") {
        Ok(CopyStatus::NotStarted)
    } else if status == String::from_str("inProgress") {
        match percentage {
            Some(percentage) => Ok(CopyStatus::InProgress { percentage }),
            None => Err(ProtocolError::Missing { what: MissingPart::Percentage }),
        }
    } else if status == String::from_str("completed") {
        match item {
            Some(item) => Ok(CopyStatus::Completed { item }),
            None => Err(ProtocolError::Missing { what: MissingPart::Item }),
        }
    } else if status == String::from_str("failed") {
        match error {
            Some(error) => Ok(CopyStatus::Failed { error }),
            None => Err(ProtocolError::Missing { what: MissingPart::Error }),
        }
    } else {
        Err(ProtocolError::UnknownStatus { status })
    }
}

/// A monitor, as the protocol sees it.
pub struct CopyProgressMonitorView<P> {
    /// The URL to poll.
    pub monitor_url: Seq<char>,
    /// The status that the last successful poll told.
    pub status: CopyStatus<P>,
}

impl<P> CopyProgressMonitorView<P> {
    /// What a poll is to request: the monitor URL, unless the copy has come
    /// to an end.
    pub open spec fn poll_target(self) -> Result<Seq<char>, Error> {
        if self.status.is_terminal() {
            Err(Error::Misuse(MisuseError::MonitorFinished))
        } else {
            Ok(self.monitor_url)
        }
    }

    /// What a poll returns for the `outcome` of its request.
    pub open spec fn poll_result(self, outcome: Result<MonitorReport<P>, Error>) -> Result<(), Error> {
        if self.status.is_terminal() {
            Err(Error::Misuse(MisuseError::MonitorFinished))
        } else {
            match outcome {
                Err(e) => Err(e),
                Ok(report) => match status_of(report) {
                    Err(e) => Err(Error::Protocol(e)),
                    Ok(_) => Ok(()),
                },
            }
        }
    }

    /// The monitor after a poll with the `outcome` of its request: with the
    /// status that the report tells, or unchanged where the poll fails.
    pub open spec fn after_poll(self, outcome: Result<MonitorReport<P>, Error>) -> Self {
        if self.status.is_terminal() {
            self
        } else {
            match outcome {
                Err(_) => self,
                Ok(report) => match status_of(report) {
                    Err(_) => self,
                    Ok(status) => CopyProgressMonitorView { status, ..self },
                },
            }
        }
    }
}

/// The monitor of one copy.
#[derive(Debug)]
pub struct CopyProgressMonitor<P> {
    monitor_url: String,
    status: CopyStatus<P>,
}

impl<P> View for CopyProgressMonitor<P> {
    type V = CopyProgressMonitorView<P>;

    closed spec fn view(&self) -> CopyProgressMonitorView<P> {
        CopyProgressMonitorView { monitor_url: self.monitor_url@, status: self.status }
    }
}

impl<P> CopyProgressMonitor<P> {
    /// The monitor of a copy that was just started, from the URL that the
    /// server gave for it.
    pub fn new(monitor_url: String) -> (monitor: Self)
        ensures
            monitor@ == (CopyProgressMonitorView::<P> {
                monitor_url: monitor_url@,
                status: CopyStatus::NotStarted,
            }),
    {
        CopyProgressMonitor { monitor_url, status: CopyStatus::NotStarted }
    }

    /// Takes the outcome of the request that starts a copy: the monitor URL
    /// that the response names, if it names one. A failed request gives its
    /// error, and a response without the URL a protocol error.
    pub fn start_response(outcome: Result<Option<String>, Error>) -> (r: Result<Self, Error>)
        ensures
            match outcome {
                Err(e) => r == Err::<Self, Error>(e),
                Ok(None) => r == Err::<Self, Error>(
                    Error::Protocol(ProtocolError::Missing { what: MissingPart::MonitorUrl }),
                ),
                Ok(Some(url)) => r matches Ok(monitor) && monitor@ == (CopyProgressMonitorView::<P> {
                    monitor_url: url@,
                    status: CopyStatus::NotStarted,
                }),
            },
    {
        match outcome {
            Err(e) => Err(e),
            Ok(None) => Err(Error::Protocol(ProtocolError::Missing { what: MissingPart::MonitorUrl })),
            Ok(Some(url)) => Ok(CopyProgressMonitor::new(url)),
        }
    }

    /// The URL to poll.
    pub fn monitor_url(&self) -> (url: &str)
        ensures
            url@ == self@.monitor_url,
    {
        self.monitor_url.as_str()
    }

    /// The status that the last successful poll told; `NotStarted` before
    /// the first.
    pub fn status(&self) -> (status: &CopyStatus<P>)
        ensures
            *status == self@.status,
    {
        &self.status
    }

    /// Says what to request for a poll: the monitor URL as the server gave
    /// it. Once the copy has completed or failed, a poll is a misuse.
    pub fn poll_request(&self) -> (r: Result<&str, Error>)
        ensures
            match self@.poll_target() {
                Err(e) => r == Err::<&str, Error>(e),
                Ok(url) => r matches Ok(target) && target@ == url,
            },
    {
        if self.status.is_finished() {
            Err(Error::Misuse(MisuseError::MonitorFinished))
        } else {
            Ok(self.monitor_url.as_str())
        }
    }

    /// Takes the outcome of a poll's request, and stores the status that the
    /// report tells. Where the result is an error the monitor is unchanged.
    pub fn poll_response(&mut self, outcome: Result<MonitorReport<P>, Error>) -> (r: Result<(), Error>)
        ensures
            r == old(self)@.poll_result(outcome),
            final(self)@ == old(self)@.after_poll(outcome),
    {
        if self.status.is_finished() {
            return Err(Error::Misuse(MisuseError::MonitorFinished));
        }
        let report = match outcome {
            Err(e) => {
                return Err(e);
            },
            Ok(report) => report,
        };
        match read_status(report) {
            Err(e) => Err(Error::Protocol(e)),
            Ok(status) => {
                self.status = status;
                Ok(())
            },
        }
    }
}

/// A monitor that has seen the copy complete or fail refuses the next poll,
/// before any request is made.
pub proof fn lemma_poll_after_end_refused<P>(
    monitor: CopyProgressMonitorView<P>,
    outcome: Result<MonitorReport<P>, Error>,
)
    requires
        monitor.after_poll(outcome).status.is_terminal(),
    ensures
        monitor.after_poll(outcome).poll_target() == Err::<Seq<char>, Error>(
            Error::Misuse(MisuseError::MonitorFinished),
        ),
{
}

/// The end is final: whatever a request might bring, a monitor that has seen
/// the copy complete or fail stays as it is, and answers with a misuse error.
pub proof fn lemma_end_is_final<P>(
    monitor: CopyProgressMonitorView<P>,
    outcome: Result<MonitorReport<P>, Error>,
)
    requires
        monitor.status.is_terminal(),
    ensures
        monitor.after_poll(outcome) == monitor,
        monitor.poll_result(outcome) == Err::<(), Error>(Error::Misuse(MisuseError::MonitorFinished)),
{
}

/// A poll moves the monitor only where it succeeds: after an error of any
/// kind the monitor is as it was, with the last status it was told. The same
/// outcome then gives the same error.
pub proof fn lemma_failed_poll_changes_nothing<P>(
    monitor: CopyProgressMonitorView<P>,
    outcome: Result<MonitorReport<P>, Error>,
)
    requires
        monitor.poll_result(outcome) is Err,
    ensures
        monitor.after_poll(outcome) == monitor,
        monitor.after_poll(outcome).poll_result(outcome) == monitor.poll_result(outcome),
{
}

/// A monitor polls the URL it was made with, whatever the polls bring.
pub proof fn lemma_poll_keeps_url<P>(
    monitor: CopyProgressMonitorView<P>,
    outcome: Result<MonitorReport<P>, Error>,
)
    ensures
        monitor.after_poll(outcome).monitor_url == monitor.monitor_url,
{
}

} // verus!
