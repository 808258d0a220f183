//! The configuration that a watcher runs under: which program to look for and
//! which endpoint to tell about it.

use vstd::prelude::*;

verus! {

/// The character sequences of a list of strings, in order.
pub open spec fn texts(strings: Seq<String>) -> Seq<Seq<char>> {
    strings.map_values(|s: String| s@)
}

/// Seconds between two looks at the process table where a configuration
/// names no interval of its own.
pub const DEFAULT_POLL_INTERVAL_SECONDS: u64 = 1;

/// Why a configuration was turned down.
#[derive(Clone, Copy, Debug, PartialEq, Eq, Structural)]
pub enum ConfigError {
    /// The process name was empty.
    EmptyProcessName,
}

/// The program to look for: its name and the arguments it must have been
/// started with. The name is never empty.
#[derive(Debug)]
pub struct ProcessSpec {
    name: String,
    required_arguments: Vec<String>,
}

/// What a [`ProcessSpec`] says, as plain sequences.
pub struct ProcessSpecView {
    pub name: Seq<char>,
    pub required_arguments: Seq<Seq<char>>,
}

impl View for ProcessSpec {
    type V = ProcessSpecView;

    closed spec fn view(&self) -> ProcessSpecView {
        ProcessSpecView {
            name: self.name@,
            required_arguments: texts(self.required_arguments@),
        }
    }
}

impl ProcessSpec {
    #[verifier::type_invariant]
    spec fn name_is_given(self) -> bool {
        self.name@.len() > 0
    }

    /// Describes the program to look for, or reports an empty name.
    ///
    /// The arguments are kept in the order given; an empty list asks for
    /// nothing beyond the name.
    pub fn new(name: String, required_arguments: Vec<String>) -> (result: Result<
        ProcessSpec,
        ConfigError,
    >)
        ensures
            result is Ok <==> name@.len() > 0,
            result matches Ok(spec) ==> spec@.name == name@ && spec@.required_arguments == texts(
                required_arguments@,
            ),
            result matches Err(e) ==> e == ConfigError::EmptyProcessName,
    {
        if name.as_str().is_empty() {
            Err(ConfigError::EmptyProcessName)
        } else {
            Ok(ProcessSpec { name, required_arguments })
        }
    }

    /// The name that a process must carry.
    pub fn name(&self) -> (name: &String)
        ensures
            name@ == self@.name,
            name@.len() > 0,
    {
        proof {
            use_type_invariant(self);
        }
        &self.name
    }

    /// The arguments that a process must have been started with.
    pub fn required_arguments(&self) -> (arguments: &Vec<String>)
        ensures
            texts(arguments@) == self@.required_arguments,
    {
        &self.required_arguments
    }
}

/// The endpoint to notify: a host, written as `address` or `address:number`,
/// and one path for each direction of change.
#[derive(Debug)]
pub struct RemoteSpec {
    pub host: String,
    pub on_path: String,
    pub off_path: String,
}

/// What a [`RemoteSpec`] says, as plain sequences.
pub struct RemoteSpecView {
    pub host: Seq<char>,
    pub on_path: Seq<char>,
    pub off_path: Seq<char>,
}

impl View for RemoteSpec {
    type V = RemoteSpecView;

    open spec fn view(&self) -> RemoteSpecView {
        RemoteSpecView { host: self.host@, on_path: self.on_path@, off_path: self.off_path@ }
    }
}

impl RemoteSpec {
    /// A remote endpoint from its three parts.
    pub fn new(host: String, on_path: String, off_path: String) -> (remote: RemoteSpec)
        ensures
            remote@.host == host@,
            remote@.on_path == on_path@,
            remote@.off_path == off_path@,
    {
        RemoteSpec { host, on_path, off_path }
    }
}

/// Everything a watcher needs to know. It is read once and never changed.
#[derive(Debug)]
pub struct Config {
    pub process: ProcessSpec,
    pub remote: RemoteSpec,
    /// Seconds to wait between two looks at the process table.
    pub poll_interval_seconds: u64,
    /// Whether each watch cycle opens by announcing "off".
    pub notify_on_start: bool,
}

/// What a [`Config`] says, as plain values.
pub struct ConfigView {
    pub process: ProcessSpecView,
    pub remote: RemoteSpecView,
    pub poll_interval_seconds: u64,
    pub notify_on_start: bool,
}

impl View for Config {
    type V = ConfigView;

    open spec fn view(&self) -> ConfigView {
        ConfigView {
            process: self.process@,
            remote: self.remote@,
            poll_interval_seconds: self.poll_interval_seconds,
            notify_on_start: self.notify_on_start,
        }
    }
}

impl Config {
    /// A configuration that stays silent until the first real transition.
    pub fn new(process: ProcessSpec, remote: RemoteSpec, poll_interval_seconds: u64) -> (config:
        Config)
        ensures
            config@.process == process@,
            config@.remote == remote@,
            config@.poll_interval_seconds == poll_interval_seconds,
            !config@.notify_on_start,
    {
        Config { process, remote, poll_interval_seconds, notify_on_start: false }
    }

    /// The same configuration with the startup announcement switched on or off.
    pub fn with_notify_on_start(self, notify_on_start: bool) -> (config: Config)
        ensures
            config@.process == self@.process,
            config@.remote == self@.remote,
            config@.poll_interval_seconds == self@.poll_interval_seconds,
            config@.notify_on_start == notify_on_start,
    {
        Config {
            process: self.process,
            remote: self.remote,
            poll_interval_seconds: self.poll_interval_seconds,
            notify_on_start,
        }
    }
}

} // verus!
