//! What the daemon and its clients decide: the requests a client can send,
//! the checks before a profile is started or stopped, the report of a
//! configuration reload, and how a client reads a reply. Sockets, processes
//! and the running engines are the caller's part.
use vstd::prelude::*;
use vstd::string::*;

use crate::config::{profile_named, Profile};
use crate::config::profile_index;
use crate::text::{dec_str, push_dec, str_eq};

verus! {

/// Connection state to the daemon.
#[derive(Debug, Clone, Copy, PartialEq, Eq, Structural)]
pub enum DaemonConnectionState {
    /// Not connected to daemon
    Disconnected,
    /// Attempting to connect
    Connecting,
    /// Connected to daemon
    Connected,
    /// Daemon unavailable (not running or failed to connect)
    Unavailable,
}

/// How a connection state is shown.
pub open spec fn connection_state_text(s: DaemonConnectionState) -> Seq<char> {
    match s {
        DaemonConnectionState::Disconnected => "Disconnected"@,
        DaemonConnectionState::Connecting => "Connecting..."@,
        DaemonConnectionState::Connected => "Connected"@,
        DaemonConnectionState::Unavailable => "Unavailable"@,
    }
}

impl DaemonConnectionState {
    /// The state as shown to the user.
    pub fn to_string(&self) -> (r: String)
        ensures
            r@ == connection_state_text(*self),
    {
        match self {
            DaemonConnectionState::Disconnected => String::from_str("Disconnected"),
            DaemonConnectionState::Connecting => String::from_str("Connecting..."),
            DaemonConnectionState::Connected => String::from_str("Connected"),
            DaemonConnectionState::Unavailable => String::from_str("Unavailable"),
        }
    }
}

/// Request from a client to the daemon.
#[derive(Debug)]
pub enum IpcRequest {
    /// Ping the daemon to check if it's alive
    Ping,
    /// Get daemon status
    Status,
    /// Start a profile by name
    StartProfile { name: String },
    /// Stop a profile by name
    StopProfile { name: String },
    /// Get list of running profiles
    ListRunning,
    /// Reload configuration
    ReloadConfig,
    /// Shutdown the daemon
    Shutdown,
}

impl Clone for IpcRequest {
    fn clone(&self) -> (r: Self)
        ensures
            r == *self,
    {
        match self {
            IpcRequest::Ping => IpcRequest::Ping,
            IpcRequest::Status => IpcRequest::Status,
            IpcRequest::StartProfile { name } => IpcRequest::StartProfile { name: name.clone() },
            IpcRequest::StopProfile { name } => IpcRequest::StopProfile { name: name.clone() },
            IpcRequest::ListRunning => IpcRequest::ListRunning,
            IpcRequest::ReloadConfig => IpcRequest::ReloadConfig,
            IpcRequest::Shutdown => IpcRequest::Shutdown,
        }
    }
}

impl IpcRequest {
    /// Whether the request asks the daemon to shut down, after which the
    /// connection is closed.
    pub fn is_shutdown(&self) -> (r: bool)
        ensures
            r == (*self is Shutdown),
    {
        match self {
            IpcRequest::Shutdown => true,
            _ => false,
        }
    }
}

/// `Profile '<name>'<rest>`.
pub open spec fn profile_says(name: Seq<char>, rest: Seq<char>) -> Seq<char> {
    "Profile '"@ + name + "'"@ + rest
}

fn profile_message(name: &str, rest: &str) -> (r: String)
    ensures
        r@ == profile_says(name@, rest@),
{
    let mut s = String::from_str("Profile '");
    s.append(name);
    s.append("'");
    s.append(rest);
    s
}

/// The list holds the text.
pub open spec fn has_text(names: Seq<String>, name: Seq<char>) -> bool {
    exists|i: int| 0 <= i < names.len() && (#[trigger] names[i])@ == name
}

fn contains_name(names: &Vec<String>, name: &str) -> (r: bool)
    ensures
        r == has_text(names@, name@),
{
    let mut i: usize = 0;
    while i < names.len()
        invariant
            0 <= i <= names@.len(),
            forall|j: int| 0 <= j < i ==> (#[trigger] names@[j])@ != name@,
        decreases names@.len() - i,
    {
        if str_eq(names[i].as_str(), name) {
            return true;
        }
        i = i + 1;
    }
    false
}

/// The checks before a profile is started: it must not be running yet, and
/// the configuration must hold it. Gives the profile to start.
pub fn check_start<'a>(running: &Vec<String>, profiles: &'a Vec<Profile>, name: &str) -> (r:
    Result<&'a Profile, String>)
    ensures
        match r {
            Ok(p) => !has_text(running@, name@) && profile_named(profiles@, name@) == Some(*p),
            Err(e) => if has_text(running@, name@) {
                e@ == profile_says(name@, " is already running"@)
            } else {
                profile_named(profiles@, name@) is None && e@ == profile_says(
                    name@,
                    " not found"@,
                )
            },
        },
{
    if contains_name(running, name) {
        return Err(profile_message(name, " is already running"));
    }
    match profile_index(profiles, name) {
        Some(i) => Ok(&profiles[i]),
        None => Err(profile_message(name, " not found")),
    }
}

/// The reply to a profile that was started.
pub fn started_message(name: &str) -> (r: String)
    ensures
        r@ == profile_says(name@, " started"@),
{
    profile_message(name, " started")
}

/// The reply when the engine for a profile could not be created.
pub fn engine_failed_message(error: &str) -> (r: String)
    ensures
        r@ == "Failed to create engine: "@ + error@,
{
    let mut s = String::from_str("Failed to create engine: ");
    s.append(error);
    s
}

/// The reply to a request to stop a profile, running or not.
pub fn stop_reply(is_running: bool, name: &str) -> (r: Result<String, String>)
    ensures
        match r {
            Ok(m) => is_running && m@ == "Stopping profile '"@ + name@ + "'"@,
            Err(e) => !is_running && e@ == profile_says(name@, " is not running"@),
        },
{
    if is_running {
        let mut s = String::from_str("Stopping profile '");
        s.append(name);
        s.append("'");
        Ok(s)
    } else {
        Err(profile_message(name, " is not running"))
    }
}

/// The reply to a shutdown request.
pub fn shutdown_message() -> (r: String)
    ensures
        r@ == "Daemon shutting down"@,
{
    String::from_str("Daemon shutting down")
}

/// The error kept when the configuration file could not be read again.
pub fn reload_failure_message(error: &str) -> (r: String)
    ensures
        r@ == "Config reload failed: "@ + error@ + ". Old configuration retained."@,
{
    let mut s = String::from_str("Config reload failed: ");
    s.append(error);
    s.append(". Old configuration retained.");
    s
}

/// How many profiles were started again.
pub open spec fn restarted_count(outcomes: Seq<Option<String>>) -> nat
    decreases outcomes.len(),
{
    if outcomes.len() == 0 {
        0
    } else {
        restarted_count(outcomes.drop_last()) + if outcomes.last() is None {
            1nat
        } else {
            0nat
        }
    }
}

/// `<name>: <error>` for each profile that could not be started again, in
/// order.
pub open spec fn restart_failures(names: Seq<String>, outcomes: Seq<Option<String>>) -> Seq<
    Seq<char>,
>
    decreases outcomes.len(),
{
    if outcomes.len() == 0 {
        Seq::empty()
    } else {
        let n = (outcomes.len() - 1) as int;
        let rest = restart_failures(names, outcomes.drop_last());
        match outcomes.last() {
            Some(e) => rest.push(names[n]@ + ": "@ + e@),
            None => rest,
        }
    }
}

/// The parts joined with `sep` between them.
pub open spec fn joined(parts: Seq<Seq<char>>, sep: Seq<char>) -> Seq<char>
    decreases parts.len(),
{
    if parts.len() == 0 {
        Seq::empty()
    } else if parts.len() == 1 {
        parts[0]
    } else {
        joined(parts.drop_last(), sep) + sep + parts.last()
    }
}

/// The message after a reload: how the file was read, then how many of the
/// profiles that were running are running again and which failed.
pub open spec fn reload_text(
    names: Seq<String>,
    reload_error: Option<Seq<char>>,
    outcomes: Seq<Option<String>>,
) -> Seq<char> {
    let head = match reload_error {
        Some(e) => "Config reload failed (keeping old config): "@ + e + ". "@,
        None => "Configuration reloaded successfully. "@,
    };
    let failures = restart_failures(names, outcomes);
    let done = dec_str(restarted_count(outcomes));
    head + if names.len() == 0 {
        "No profiles were running."@
    } else if failures.len() == 0 {
        "Restarted "@ + done + " profile(s)."@
    } else {
        "Restarted "@ + done + "/"@ + dec_str(names.len()) + " profile(s). Failed: "@ + joined(
            failures,
            ", "@,
        )
    }
}

/// The report of a configuration reload. `names` are the profiles that were
/// running before it, `outcomes` says for each whether it started again
/// (`None`) or with what error it failed. The reload counts as failed only
/// when the file could not be read and none of the profiles came back.
pub fn reload_report(
    names: &Vec<String>,
    reload_error: Option<&str>,
    outcomes: &Vec<Option<String>>,
) -> (r: Result<String, String>)
    requires
        names@.len() == outcomes@.len(),
    ensures
        ({
            let text = reload_text(
                names@,
                match reload_error {
                    Some(e) => Some(e@),
                    None => None,
                },
                outcomes@,
            );
            if reload_error is Some && restarted_count(outcomes@) == 0 && names@.len() > 0 {
                r matches Err(m) && m@ == text
            } else {
                r matches Ok(m) && m@ == text
            }
        }),
{
    let mut message = match reload_error {
        Some(e) => {
            let mut s = String::from_str("Config reload failed (keeping old config): ");
            s.append(e);
            s.append(". ");
            s
        },
        None => String::from_str("Configuration reloaded successfully. "),
    };
    let ghost head = message@;
    // Count the restarts and gather the failures.
    let mut restarted: usize = 0;
    let mut failures = String::new();
    let mut failure_count: usize = 0;
    let mut i: usize = 0;
    while i < outcomes.len()
        invariant
            0 <= i <= outcomes@.len(),
            names@.len() == outcomes@.len(),
            restarted == restarted_count(outcomes@.take(i as int)),
            restarted <= i,
            failure_count <= i,
            failure_count == restart_failures(names@, outcomes@.take(i as int)).len(),
            failures@ == joined(restart_failures(names@, outcomes@.take(i as int)), ", "@),
        decreases outcomes@.len() - i,
    {
        proof {
            assert(outcomes@.take(i + 1).drop_last() =~= outcomes@.take(i as int));
            assert(outcomes@.take(i + 1).last() == outcomes@[i as int]);
            assert(outcomes@.take(i + 1).len() - 1 == i);
        }
        match &outcomes[i] {
            Some(e) => {
                let ghost before = restart_failures(names@, outcomes@.take(i as int));
                if failure_count > 0 {
                    failures.append(", ");
                }
                failures.append(names[i].as_str());
                failures.append(": ");
                failures.append(e.as_str());
                failure_count = failure_count + 1;
                proof {
                    let after = restart_failures(names@, outcomes@.take(i + 1));
                    assert(after == before.push(names@[i as int]@ + ": "@ + e@));
                    assert(after.drop_last() =~= before);
                    assert(failures@ =~= joined(after, ", "@));
                }
            },
            None => {
                restarted = restarted + 1;
            },
        }
        i = i + 1;
    }
    proof {
        assert(outcomes@.take(outcomes@.len() as int) =~= outcomes@);
    }
    if names.len() == 0 {
        message.append("No profiles were running.");
    } else if failure_count == 0 {
        message.append("Restarted ");
        push_dec(&mut message, restarted as u64);
        message.append(" profile(s).");
    } else {
        message.append("Restarted ");
        push_dec(&mut message, restarted as u64);
        message.append("/");
        push_dec(&mut message, names.len() as u64);
        message.append(" profile(s). Failed: ");
        message.append(failures.as_str());
    }
    if reload_error.is_some() && restarted == 0 && names.len() > 0 {
        Err(message)
    } else {
        Ok(message)
    }
}

/// A reply that carries a message, as a client reads it.
#[derive(Debug)]
pub enum MessageReply {
    /// The daemon did what was asked
    Done { message: String },
    /// The daemon refused
    Refused { message: String },
    /// Any other reply
    Other,
}

/// What a client makes of a reply to a request that is answered with a
/// message: the message, as success or as error, and an error for anything
/// else.
pub fn reply_outcome(reply: MessageReply) -> (r: Result<String, String>)
    ensures
        match reply {
            MessageReply::Done { message } => r == Ok::<String, String>(message),
            MessageReply::Refused { message } => r == Err::<String, String>(message),
            MessageReply::Other => r matches Err(e) && e@ == "Unexpected response"@,
        },
{
    match reply {
        MessageReply::Done { message } => Ok(message),
        MessageReply::Refused { message } => Err(message),
        MessageReply::Other => Err(String::from_str("Unexpected response")),
    }
}

/// The error a client reports when a request could not be carried out:
/// `<what> request failed: <error>`.
pub fn request_failed_message(what: &str, error: &str) -> (r: String)
    ensures
        r@ == what@ + " request failed: "@ + error@,
{
    let mut s = String::from_str(what);
    s.append(" request failed: ");
    s.append(error);
    s
}

/// What a reload does next while it waits for the stopped engines.
#[derive(Debug, Clone, Copy, PartialEq, Eq, Structural)]
pub enum ReloadWait {
    /// Every engine has stopped: go on with the reload
    AllStopped,
    /// Five seconds have passed: go on without waiting longer
    TimedOut,
    /// Look again after a tenth of a second
    Wait,
}

/// The wait before a reload goes on, given how many engines still run and
/// how many nanoseconds it has waited: it waits at most five seconds.
pub fn reload_wait(still_running: usize, waited_ns: u128) -> (r: ReloadWait)
    ensures
        r == if still_running == 0 {
            ReloadWait::AllStopped
        } else if waited_ns > 5_000_000_000 {
            ReloadWait::TimedOut
        } else {
            ReloadWait::Wait
        },
{
    if still_running == 0 {
        ReloadWait::AllStopped
    } else if waited_ns > 5_000_000_000 {
        ReloadWait::TimedOut
    } else {
        ReloadWait::Wait
    }
}

} // verus!
