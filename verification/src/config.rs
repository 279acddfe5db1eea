//! Process configuration: the admin tool's path, the server address, and
//! the configured hubs. Supplied externally and immutable for the process
//! lifetime; absent entries fall back to fixed defaults.

use vstd::prelude::*;
use vstd::string::StringExecFns;

verus! {

/// One configured hub: its name and an optional admin credential, both
/// forwarded to the admin tool.
#[derive(Clone, PartialEq, Debug)]
pub struct Hub {
    pub name: Option<String>,
    pub password: Option<String>,
}

/// The mathematical model of a hub entry.
pub ghost struct HubEntryView {
    pub name: Option<Seq<char>>,
    pub password: Option<Seq<char>>,
}

impl View for Hub {
    type V = HubEntryView;

    open spec fn view(&self) -> HubEntryView {
        HubEntryView {
            name: match self.name {
                Some(n) => Some(n@),
                None => None,
            },
            password: match self.password {
                Some(p) => Some(p@),
                None => None,
            },
        }
    }
}

impl DeepView for Hub {
    type V = HubEntryView;

    open spec fn deep_view(&self) -> HubEntryView {
        self.view()
    }
}

/// The name a hub entry is addressed and labeled by; an entry without one
/// reads as the empty name.
pub open spec fn spec_display_name(h: HubEntryView) -> Seq<char> {
    match h.name {
        Some(n) => n,
        None => Seq::empty(),
    }
}

/// The credential forwarded for a hub; an entry without one forwards the
/// empty secret.
pub open spec fn spec_secret(h: HubEntryView) -> Seq<char> {
    match h.password {
        Some(p) => p,
        None => Seq::empty(),
    }
}

impl Hub {
    /// The name this hub is addressed and labeled by.
    pub fn display_name(&self) -> (r: String)
        ensures
            r@ == spec_display_name(self@),
    {
        match &self.name {
            Some(n) => n.clone(),
            None => String::new(),
        }
    }

    /// The credential forwarded to the admin tool for this hub.
    pub fn secret(&self) -> (r: String)
        ensures
            r@ == spec_secret(self@),
    {
        match &self.password {
            Some(p) => p.clone(),
            None => String::new(),
        }
    }
}

/// Per-process settings: the admin tool's path, the server address, and
/// the hubs to scrape.
#[derive(PartialEq, Debug)]
pub struct Config {
    pub vpncmd: Option<String>,
    pub server: Option<String>,
    pub hubs: Vec<Hub>,
}

/// The mathematical model of a configuration.
pub ghost struct ConfigView {
    pub vpncmd: Option<Seq<char>>,
    pub server: Option<Seq<char>>,
    pub hubs: Seq<HubEntryView>,
}

impl View for Config {
    type V = ConfigView;

    open spec fn view(&self) -> ConfigView {
        ConfigView {
            vpncmd: match self.vpncmd {
                Some(p) => Some(p@),
                None => None,
            },
            server: match self.server {
                Some(s) => Some(s@),
                None => None,
            },
            hubs: self.hubs.deep_view(),
        }
    }
}

/// The admin tool a configuration runs; by default the tool is found by
/// its plain name.
pub open spec fn spec_command_path(c: ConfigView) -> Seq<char> {
    match c.vpncmd {
        Some(p) => p,
        None => "vpncmd"@,
    }
}

/// The server a configuration addresses; the local host by default.
pub open spec fn spec_server_address(c: ConfigView) -> Seq<char> {
    match c.server {
        Some(s) => s,
        None => "localhost"@,
    }
}

impl Config {
    /// The path of the admin tool to run.
    pub fn command_path(&self) -> (r: String)
        ensures
            r@ == spec_command_path(self@),
    {
        match &self.vpncmd {
            Some(p) => p.clone(),
            None => String::from_str("vpncmd"),
        }
    }

    /// The address of the server to administer.
    pub fn server_address(&self) -> (r: String)
        ensures
            r@ == spec_server_address(self@),
    {
        match &self.server {
            Some(s) => s.clone(),
            None => String::from_str("localhost"),
        }
    }
}

/// The process's command-line options: where to listen, where the
/// configuration file lies, and whether to chatter.
#[derive(PartialEq, Debug)]
pub struct Opt {
    pub listen_address: String,
    pub config: String,
    pub verbose: bool,
}

} // verus!
