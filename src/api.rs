use vstd::prelude::*;
use vstd::string::*;
use crate::models::Status;
use crate::text::str_eq;

verus! {

/// Outcome of a request to start a watcher.
#[derive(Clone, Copy, Debug, PartialEq, Eq, Structural)]
pub enum WatcherStartStatus {
    AlreadyRunning,
    CurrentlyUpdating,
    Starting,
    InErrorState,
    NotFound,
    InternalError,
}

/// Description of a WatcherStartStatus.
pub open spec fn start_status_text(s: WatcherStartStatus) -> Seq<char> {
    match s {
        WatcherStartStatus::AlreadyRunning => "Watcher is already running."@,
        WatcherStartStatus::CurrentlyUpdating => "Watcher is updating so it cannot be started."@,
        WatcherStartStatus::Starting => "Watcher is starting."@,
        WatcherStartStatus::InErrorState => "Watcher is in an error state and cannot be stopped."@,
        WatcherStartStatus::NotFound => "Watcher not found."@,
        WatcherStartStatus::InternalError => "Watcher encountered an internal error."@,
    }
}

impl WatcherStartStatus {
    /// Outcome of a start request for a watcher in `status`: only a ready
    /// watcher starts (its deployment is scaled to one replica and its target
    /// becomes running).
    pub fn for_status(status: Status) -> (r: Self)
        ensures
            r == match status {
                Status::Running => WatcherStartStatus::AlreadyRunning,
                Status::Pending => WatcherStartStatus::CurrentlyUpdating,
                Status::Error => WatcherStartStatus::InErrorState,
                Status::Ready => WatcherStartStatus::Starting,
            },
    {
        match status {
            Status::Running => WatcherStartStatus::AlreadyRunning,
            Status::Pending => WatcherStartStatus::CurrentlyUpdating,
            Status::Error => WatcherStartStatus::InErrorState,
            Status::Ready => WatcherStartStatus::Starting,
        }
    }

    /// Human-readable description.
    pub fn message(&self) -> (r: String)
        ensures
            r@ == start_status_text(*self),
    {
        match self {
            WatcherStartStatus::AlreadyRunning => String::from_str("Watcher is already running."),
            WatcherStartStatus::CurrentlyUpdating => String::from_str(
                "Watcher is updating so it cannot be started.",
            ),
            WatcherStartStatus::Starting => String::from_str("Watcher is starting."),
            WatcherStartStatus::InErrorState => String::from_str(
                "Watcher is in an error state and cannot be stopped.",
            ),
            WatcherStartStatus::NotFound => String::from_str("Watcher not found."),
            WatcherStartStatus::InternalError => String::from_str(
                "Watcher encountered an internal error.",
            ),
        }
    }
}

/// Outcome of a request to stop a watcher.
#[derive(Clone, Copy, Debug, PartialEq, Eq, Structural)]
pub enum WatcherStopStatus {
    AlreadyStopped,
    CurrentlyUpdating,
    Stopping,
    InErrorState,
    NotFound,
    InternalError,
}

/// Description of a WatcherStopStatus.
pub open spec fn stop_status_text(s: WatcherStopStatus) -> Seq<char> {
    match s {
        WatcherStopStatus::AlreadyStopped => "Watcher is already stopped."@,
        WatcherStopStatus::CurrentlyUpdating => "Watcher is updating so it cannot be stopped."@,
        WatcherStopStatus::Stopping => "Watcher is stopping."@,
        WatcherStopStatus::InErrorState => "Watcher is in an error state and cannot be stopped."@,
        WatcherStopStatus::NotFound => "Watcher not found."@,
        WatcherStopStatus::InternalError => "Watcher encountered an internal error."@,
    }
}

impl WatcherStopStatus {
    /// Outcome of a stop request for a watcher in `status`: only a running
    /// watcher stops (its deployment is scaled to zero replicas and its
    /// target becomes ready).
    pub fn for_status(status: Status) -> (r: Self)
        ensures
            r == match status {
                Status::Ready => WatcherStopStatus::AlreadyStopped,
                Status::Pending => WatcherStopStatus::CurrentlyUpdating,
                Status::Error => WatcherStopStatus::InErrorState,
                Status::Running => WatcherStopStatus::Stopping,
            },
    {
        match status {
            Status::Ready => WatcherStopStatus::AlreadyStopped,
            Status::Pending => WatcherStopStatus::CurrentlyUpdating,
            Status::Error => WatcherStopStatus::InErrorState,
            Status::Running => WatcherStopStatus::Stopping,
        }
    }

    /// Human-readable description.
    pub fn message(&self) -> (r: String)
        ensures
            r@ == stop_status_text(*self),
    {
        match self {
            WatcherStopStatus::AlreadyStopped => String::from_str("Watcher is already stopped."),
            WatcherStopStatus::CurrentlyUpdating => String::from_str(
                "Watcher is updating so it cannot be stopped.",
            ),
            WatcherStopStatus::Stopping => String::from_str("Watcher is stopping."),
            WatcherStopStatus::InErrorState => String::from_str(
                "Watcher is in an error state and cannot be stopped.",
            ),
            WatcherStopStatus::NotFound => String::from_str("Watcher not found."),
            WatcherStopStatus::InternalError => String::from_str(
                "Watcher encountered an internal error.",
            ),
        }
    }
}

/// An API error carrying a message.
#[derive(Clone, Debug)]
pub struct ErrorResponse {
    pub message: String,
}

impl ErrorResponse {
    pub fn new(message: &str) -> (r: Self)
        ensures
            r.message@ == message@,
    {
        ErrorResponse { message: message.to_owned() }
    }
}

/// Marker for a request that failed inside the service.
#[derive(Clone, Copy, Debug, PartialEq, Eq, Structural)]
pub struct InternalError;

impl Status {
    /// Parses the lower-case name of a status.
    pub fn from_str(s: &str) -> (r: Result<Status, ()>)
        ensures
            r == if s@ == "running"@ {
                Ok::<Status, ()>(Status::Running)
            } else if s@ == "pending"@ {
                Ok(Status::Pending)
            } else if s@ == "ready"@ {
                Ok(Status::Ready)
            } else if s@ == "error"@ {
                Ok(Status::Error)
            } else {
                Err(())
            },
    {
        if str_eq(s, "running") {
            Ok(Status::Running)
        } else if str_eq(s, "pending") {
            Ok(Status::Pending)
        } else if str_eq(s, "ready") {
            Ok(Status::Ready)
        } else if str_eq(s, "error") {
            Ok(Status::Error)
        } else {
            Err(())
        }
    }

    /// Capitalised name of the status.
    pub fn to_string(&self) -> (r: String)
        ensures
            r@ == match *self {
                Status::Running => "Running"@,
                Status::Pending => "Pending"@,
                Status::Ready => "Ready"@,
                Status::Error => "Error"@,
            },
    {
        match self {
            Status::Running => String::from_str("Running"),
            Status::Pending => String::from_str("Pending"),
            Status::Ready => String::from_str("Ready"),
            Status::Error => String::from_str("Error"),
        }
    }
}

/// What the status of a watcher is derived from: the status its deployment
/// is labelled to reach (`None` when the label is missing or unreadable),
/// and, when the deployment reports a status, its available replicas.
#[derive(Clone, Copy, Debug)]
pub struct DeploymentState {
    pub target_status: Option<Status>,
    pub reported: Option<Option<i32>>,
}

/// Status of a watcher whose deployment is in state `d`: running when
/// replicas are available, ready when none are; pending when that differs
/// from the target between running and ready; an error otherwise.
pub open spec fn derived_status(d: DeploymentState) -> Status {
    match d.reported {
        None => Status::Error,
        Some(replicas) => {
            let deployed = match replicas {
                Some(n) => if n > 0 { Status::Running } else { Status::Ready },
                None => Status::Ready,
            };
            let target = match d.target_status {
                Some(t) => t,
                None => Status::Error,
            };
            if deployed == target {
                deployed
            } else if target == Status::Running || target == Status::Ready {
                Status::Pending
            } else {
                Status::Error
            }
        },
    }
}

/// Reads the status of a watcher from what backs it.
pub trait WatcherStatus {
    fn get_watcher_status(&self) -> Status;
}

impl WatcherStatus for DeploymentState {
    fn get_watcher_status(&self) -> (r: Status)
        ensures
            r == derived_status(*self),
    {
        let target = match self.target_status {
            Some(t) => t,
            None => Status::Error,
        };
        match self.reported {
            None => Status::Error,
            Some(replicas) => {
                let available = match replicas {
                    Some(n) => n,
                    None => 0,
                };
                let deployed = if available > 0 {
                    Status::Running
                } else {
                    Status::Ready
                };
                match (deployed, target) {
                    (Status::Running, Status::Running) => Status::Running,
                    (Status::Ready, Status::Ready) => Status::Ready,
                    (Status::Ready, Status::Running) => Status::Pending,
                    (Status::Running, Status::Ready) => Status::Pending,
                    (_, _) => Status::Error,
                }
            },
        }
    }
}

} // verus!
