//! The fixed settings of the bridge and the two that the process arguments
//! may override.

use vstd::prelude::*;
use vstd::string::StringExecFns;

verus! {

/// Topic on which commands for the agent arrive.
pub const COMMAND_TOPIC: &'static str = "agent/command";

/// Topic on which the agent's answers and events leave.
pub const RESPONSE_TOPIC: &'static str = "agent/response";

/// Name under which the bridge presents itself to the broker.
pub const CLIENT_ID: &'static str = "agent2mqtt";

/// Scheme that precedes the broker's host in its address.
pub const BROKER_SCHEME: &'static str = "mqtt://";

/// Port that follows the broker's host in its address.
pub const BROKER_PORT_SUFFIX: &'static str = ":1883";

/// Broker address used when no host is given.
pub const DEFAULT_BROKER_URI: &'static str = "mqtt://localhost:1883";

/// Local channel path used when none is given.
pub const DEFAULT_CHANNEL_PATH: &'static str = "/tmp/miio_agent.socket";

/// Seconds between keep-alive probes on the broker connection.
pub const KEEP_ALIVE_SECS: u64 = 20;

/// Milliseconds between two attempts to connect, on either side.
pub const RETRY_DELAY_MS: u64 = 500;

/// Bytes offered to each read from the local channel.
pub const READ_BUFFER_SIZE: usize = 4096;

/// Address of the broker for a host, or the default address without one.
pub open spec fn broker_uri_of(host: Option<Seq<char>>) -> Seq<char> {
    match host {
        Some(host) => BROKER_SCHEME@ + host + BROKER_PORT_SUFFIX@,
        None => DEFAULT_BROKER_URI@,
    }
}

/// Path of the local channel: the one given, or the default.
pub open spec fn channel_path_of(path: Option<Seq<char>>) -> Seq<char> {
    match path {
        Some(path) => path,
        None => DEFAULT_CHANNEL_PATH@,
    }
}

/// The argument at `index` of a process's argument list, if it has one.
pub open spec fn argument(args: Seq<Seq<char>>, index: int) -> Option<Seq<char>> {
    if 0 <= index < args.len() {
        Some(args[index])
    } else {
        None
    }
}

/// The argument list as sequences of characters.
pub open spec fn arguments(args: Seq<String>) -> Seq<Seq<char>> {
    args.map_values(|a: String| a@)
}

/// Builds the broker's address from an optional host.
pub fn broker_uri(host: Option<&str>) -> (uri: String)
    ensures
        uri@ == broker_uri_of(
            match host {
                Some(h) => Some(h@),
                None => None,
            },
        ),
{
    match host {
        Some(host) => {
            let mut uri = String::from_str(BROKER_SCHEME);
            uri.append(host);
            uri.append(BROKER_PORT_SUFFIX);
            uri
        },
        None => String::from_str(DEFAULT_BROKER_URI),
    }
}

/// Chooses the local channel's path from an optional override.
pub fn channel_path(path: Option<&str>) -> (chosen: String)
    ensures
        chosen@ == channel_path_of(
            match path {
                Some(p) => Some(p@),
                None => None,
            },
        ),
{
    match path {
        Some(path) => String::from_str(path),
        None => String::from_str(DEFAULT_CHANNEL_PATH),
    }
}

/// Where the bridge connects: resolved once at startup.
#[derive(Clone, Debug, PartialEq, Eq)]
pub struct Settings {
    broker_uri: String,
    client_id: String,
    channel_path: String,
}

/// Mathematical content of [`Settings`].
pub struct SettingsView {
    pub broker_uri: Seq<char>,
    pub client_id: Seq<char>,
    pub channel_path: Seq<char>,
}

impl View for Settings {
    type V = SettingsView;

    closed spec fn view(&self) -> SettingsView {
        SettingsView {
            broker_uri: self.broker_uri@,
            client_id: self.client_id@,
            channel_path: self.channel_path@,
        }
    }
}

impl Settings {
    /// Reads the settings from a process's argument list, program name
    /// first. The argument after the program name is the broker's host, the
    /// one after it the local channel's path; further arguments are not read.
    pub fn from_args(args: &Vec<String>) -> (settings: Settings)
        ensures
            settings@ == (SettingsView {
                broker_uri: broker_uri_of(argument(arguments(args@), 1)),
                client_id: CLIENT_ID@,
                channel_path: channel_path_of(argument(arguments(args@), 2)),
            }),
    {
        let host = if args.len() > 1 {
            Some(args[1].as_str())
        } else {
            None
        };
        let path = if args.len() > 2 {
            Some(args[2].as_str())
        } else {
            None
        };
        Settings {
            broker_uri: broker_uri(host),
            client_id: String::from_str(CLIENT_ID),
            channel_path: channel_path(path),
        }
    }

    /// The address of the broker.
    pub fn broker_uri(&self) -> (uri: &str)
        ensures
            uri@ == self@.broker_uri,
    {
        self.broker_uri.as_str()
    }

    /// The name under which the bridge presents itself to the broker.
    pub fn client_id(&self) -> (id: &str)
        ensures
            id@ == self@.client_id,
    {
        self.client_id.as_str()
    }

    /// The path of the local channel.
    pub fn channel_path(&self) -> (path: &str)
        ensures
            path@ == self@.channel_path,
    {
        self.channel_path.as_str()
    }
}

/// Without a host the bridge connects to the broker on this machine: the
/// default address is the one built for the host `localhost`.
pub proof fn default_broker_is_localhost()
    ensures
        broker_uri_of(None) == broker_uri_of(Some("localhost"@)),
{
    reveal_strlit("mqtt://");
    reveal_strlit(":1883");
    reveal_strlit("localhost");
    reveal_strlit("mqtt://localhost:1883");
    assert(DEFAULT_BROKER_URI@ =~= BROKER_SCHEME@ + "localhost"@ + BROKER_PORT_SUFFIX@);
}

} // verus!
