//! Watching over the proxy from the companion: what each request of the user
//! interface asks of the proxy process, and what is reported back.

use vstd::prelude::*;
use vstd::string::StringExecFns;
use crate::paths::components;
use crate::text::{decimal, push_decimal, text_of};

verus! {

/// What the user interface asks for.
#[derive(Debug, Clone, Copy, PartialEq, Eq, Structural)]
pub enum Message {
    /// Start the proxy unless it runs already.
    Startup,
    /// Stop the proxy.
    Shutdown,
    /// Find out whether the proxy runs.
    Refresh,
    /// Start the proxy with the system. Not available yet.
    RegisterAutoStart,
    /// No longer start the proxy with the system. Not available yet.
    RemoveAutoStart,
}

/// What is known about the proxy.
#[derive(Debug, Clone, Copy, PartialEq, Eq, Structural)]
pub struct Response {
    pub is_proxy_running: bool,
    pub is_autostart_enabled: bool,
}

/// Whether a request is one that can be served.
pub open spec fn is_served(message: Message) -> bool {
    message == Message::Startup || message == Message::Shutdown || message == Message::Refresh
}

/// Whether serving a request begins with asking the proxy if it runs.
pub open spec fn probes(message: Message) -> bool {
    message == Message::Startup || message == Message::Refresh
}

/// Whether the proxy process is to be started: on a start-up request that
/// found no proxy running.
pub open spec fn starts(message: Message, running: bool) -> bool {
    message == Message::Startup && !running
}

/// The answer to a request. `running` is what the probe found, if one was
/// made, and `start_error` is the error of starting the process, if it was
/// started and that failed.
pub open spec fn answer(message: Message, running: bool, start_error: Option<Seq<char>>) -> Result<
    Response,
    Seq<char>,
> {
    match message {
        Message::Refresh => Ok(Response { is_proxy_running: running, is_autostart_enabled: false }),
        Message::Startup => if running {
            Ok(Response { is_proxy_running: true, is_autostart_enabled: false })
        } else {
            match start_error {
                Some(error) => Err(error),
                None => Ok(Response { is_proxy_running: false, is_autostart_enabled: false }),
            }
        },
        _ => Ok(Response { is_proxy_running: false, is_autostart_enabled: false }),
    }
}

/// The address under which a local proxy answers on `path`.
pub open spec fn local_url(port: u16, path: Seq<char>) -> Seq<char> {
    "http://localhost:"@ + decimal(port as nat) + path
}

/// The arguments that the proxy process is started with.
pub open spec fn daemon_arguments(port: u16, log_directory: Seq<char>) -> Seq<Seq<char>> {
    seq![
        "--retry-attempts"@,
        "3"@,
        "--port"@,
        decimal(port as nat),
        "--log-directory"@,
        log_directory,
        "--daemonize"@,
    ]
}

/// Tells whether serving `message` begins with a probe.
pub fn needs_probe(message: Message) -> (probe: bool)
    ensures
        probe == probes(message),
{
    match message {
        Message::Startup => true,
        Message::Refresh => true,
        _ => false,
    }
}

/// Tells whether the proxy process is to be started.
pub fn needs_start(message: Message, running: bool) -> (start: bool)
    ensures
        start == starts(message, running),
{
    match message {
        Message::Startup => !running,
        _ => false,
    }
}

/// The answer to a request that can be served: see [`answer`].
pub fn respond(message: Message, running: bool, start_error: Option<String>) -> (result: Result<
    Response,
    String,
>)
    requires
        is_served(message),
    ensures
        match result {
            Ok(response) => answer(message, running, text_of(start_error)) == Ok::<
                Response,
                Seq<char>,
            >(response),
            Err(error) => answer(message, running, text_of(start_error)) == Err::<
                Response,
                Seq<char>,
            >(error@),
        },
{
    match message {
        Message::Refresh => Ok(Response { is_proxy_running: running, is_autostart_enabled: false }),
        Message::Startup => {
            if running {
                Ok(Response { is_proxy_running: true, is_autostart_enabled: false })
            } else {
                match start_error {
                    Some(error) => Err(error),
                    None => Ok(Response { is_proxy_running: false, is_autostart_enabled: false }),
                }
            }
        },
        _ => Ok(Response { is_proxy_running: false, is_autostart_enabled: false }),
    }
}

/// The address that tells whether the proxy on `port` runs.
pub fn health_check_url(port: u16) -> (url: String)
    ensures
        url@ == local_url(port, "/health_check"@),
{
    let mut url = String::from_str("http://localhost:");
    push_decimal(&mut url, port as usize);
    url.append("/health_check");
    url
}

/// The address that stops the proxy on `port`.
pub fn shutdown_url(port: u16) -> (url: String)
    ensures
        url@ == local_url(port, "/shutdown"@),
{
    let mut url = String::from_str("http://localhost:");
    push_decimal(&mut url, port as usize);
    url.append("/shutdown");
    url
}

/// The arguments to start the proxy process with: three attempts, the port,
/// the directory for its log, and detached from the terminal.
pub fn start_proxy_daemon(port: u16, log_directory: &str) -> (arguments: Vec<String>)
    ensures
        components(arguments@) == daemon_arguments(port, log_directory@),
{
    let mut arguments: Vec<String> = Vec::new();
    arguments.push(String::from_str("--retry-attempts"));
    arguments.push(String::from_str("3"));
    arguments.push(String::from_str("--port"));
    let mut number = String::new();
    push_decimal(&mut number, port as usize);
    assert(number@ =~= decimal(port as nat));
    arguments.push(number);
    arguments.push(String::from_str("--log-directory"));
    arguments.push(String::from_str(log_directory));
    arguments.push(String::from_str("--daemonize"));
    assert(components(arguments@) =~= daemon_arguments(port, log_directory@));
    arguments
}

impl Response {
    /// Takes in what the control thread reported, if anything: a report
    /// replaces what was known, an error is handed on and leaves it as it
    /// was.
    pub fn update(&mut self, received: Option<Result<Response, String>>) -> (result: Result<
        (),
        String,
    >)
        ensures
            match received {
                Some(Ok(response)) => result is Ok && *final(self) == response,
                Some(Err(error)) => result == Err::<(), String>(error) && *final(self) == *old(
                    self,
                ),
                None => result is Ok && *final(self) == *old(self),
            },
    {
        match received {
            Some(Ok(response)) => {
                *self = response;
                Ok(())
            },
            Some(Err(error)) => Err(error),
            None => Ok(()),
        }
    }
}

} // verus!
