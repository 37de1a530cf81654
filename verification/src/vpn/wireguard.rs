//! The decisions of the WireGuard tunnel's manager: which commands
//! bring the tunnel up and down, and what their outcome means. Running
//! the commands is left to the caller.

use vstd::prelude::*;
use crate::config::WireGuardConfig;
use crate::errors::HvtError;
use crate::text::{contains_text, has_text, joined, texts};

verus! {

/// The manager of one WireGuard tunnel.
#[derive(Debug)]
pub struct WireGuardManager {
    interface_name: String,
    config_path: String,
    connected: bool,
    is_windows: bool,
}

/// The mathematical content of a `WireGuardManager`.
pub struct ManagerModel {
    pub interface_name: Seq<char>,
    pub config_path: Seq<char>,
    pub connected: bool,
    pub is_windows: bool,
}

impl View for WireGuardManager {
    type V = ManagerModel;

    closed spec fn view(&self) -> ManagerModel {
        ManagerModel {
            interface_name: self.interface_name@,
            config_path: self.config_path@,
            connected: self.connected,
            is_windows: self.is_windows,
        }
    }
}

/// The message of the failure to bring the tunnel up.
pub open spec fn up_failure(is_windows: bool, stderr: Seq<char>) -> Seq<char> {
    if is_windows {
        "Failed to install WireGuard tunnel: "@ + stderr
    } else {
        "Failed to bring up WireGuard interface: "@ + stderr
    }
}

/// The tunnel counts as up although the command failed: it was there
/// already.
pub open spec fn was_up_already(is_windows: bool, stderr: Seq<char>) -> bool {
    contains_text(stderr, "already exists"@) || (is_windows && contains_text(
        stderr,
        "already installed"@,
    ))
}

/// The tunnel counts as down although the command failed: it was not
/// there.
pub open spec fn was_down_already(is_windows: bool, stderr: Seq<char>) -> bool {
    if is_windows {
        contains_text(stderr, "does not exist"@) || contains_text(stderr, "not found"@)
    } else {
        contains_text(stderr, "does not exist"@) || contains_text(stderr, "Cannot find device"@)
    }
}

/// The warning about a tunnel that could not be brought down.
pub open spec fn down_failure(is_windows: bool, stderr: Seq<char>) -> Seq<char> {
    if is_windows {
        "Failed to uninstall WireGuard tunnel: "@ + stderr
    } else {
        "Failed to bring down WireGuard interface: "@ + stderr
    }
}

/// The command that brings the tunnel up, program first.
pub open spec fn up_words(m: ManagerModel) -> Seq<Seq<char>> {
    if m.is_windows {
        seq!["wireguard.exe"@, "/installtunnelservice"@, m.config_path]
    } else {
        seq!["sudo"@, "wg-quick"@, "up"@, m.config_path]
    }
}

/// The command that brings the tunnel down, program first.
pub open spec fn down_words(m: ManagerModel) -> Seq<Seq<char>> {
    if m.is_windows {
        seq!["wireguard.exe"@, "/uninstalltunnelservice"@, m.interface_name]
    } else {
        seq!["sudo"@, "wg-quick"@, "down"@, m.config_path]
    }
}

/// The command that tells whether the tunnel's interface is there,
/// program first.
pub open spec fn query_words(m: ManagerModel) -> Seq<Seq<char>> {
    if m.is_windows {
        seq!["sc"@, "query"@, "WireGuardTunnel$"@ + m.interface_name]
    } else {
        seq!["sudo"@, "wg"@, "show"@, m.interface_name]
    }
}

/// The command that tests the network through the tunnel, program
/// first.
pub open spec fn ping_words(is_windows: bool) -> Seq<Seq<char>> {
    if is_windows {
        seq!["ping"@, "-n"@, "1"@, "-w"@, "5000"@, "1.1.1.1"@]
    } else {
        seq!["ping"@, "-c"@, "1"@, "-W"@, "5"@, "1.1.1.1"@]
    }
}

/// Makes a list of words.
fn words(first: &str, second: &str, third: &str) -> (r: Vec<String>)
    ensures
        texts(r@) == seq![first@, second@, third@],
{
    let mut r: Vec<String> = Vec::new();
    r.push(String::from_str(first));
    r.push(String::from_str(second));
    r.push(String::from_str(third));
    assert(texts(r@) =~= seq![first@, second@, third@]);
    r
}

/// Adds a word to a list of words.
fn with_word(list: Vec<String>, word: &str) -> (r: Vec<String>)
    ensures
        texts(r@) == texts(list@).push(word@),
{
    let mut r = list;
    r.push(String::from_str(word));
    assert(texts(r@) =~= texts(list@).push(word@));
    r
}

impl WireGuardManager {
    /// Creates a manager from the configuration. The interface is
    /// named as the configuration says, else by `config_stem`, the name
    /// of the configuration file without its extension; with neither,
    /// the path is refused. The configuration file has to exist.
    pub fn new(
        config: &WireGuardConfig,
        config_stem: Option<String>,
        config_exists: bool,
        is_windows: bool,
    ) -> (r: Result<Self, HvtError>)
        ensures
            match r {
                Ok(m) => {
                    &&& config_exists
                    &&& m@.config_path == config.config_path@
                    &&& !m@.connected
                    &&& m@.is_windows == is_windows
                    &&& match (config.interface_name, config_stem) {
                        (Some(name), _) => m@.interface_name == name@,
                        (None, Some(stem)) => m@.interface_name == stem@,
                        (None, None) => false,
                    }
                },
                Err(e) => match (config.interface_name, config_stem) {
                    (None, None) => e matches HvtError::Generic(msg) && msg@
                        == "Invalid WireGuard config path"@,
                    _ => !config_exists && (e matches HvtError::Generic(msg) && msg@
                        == "WireGuard config file not found: "@ + config.config_path@),
                },
            },
    {
        let interface_name = match &config.interface_name {
            Some(name) => name.clone(),
            None => match config_stem {
                Some(stem) => stem,
                None => {
                    return Err(
                        HvtError::Generic(String::from_str("Invalid WireGuard config path")),
                    );
                },
            },
        };
        if !config_exists {
            return Err(
                HvtError::Generic(
                    joined("WireGuard config file not found: ", config.config_path.as_str()),
                ),
            );
        }
        Ok(
            WireGuardManager {
                interface_name,
                config_path: config.config_path.clone(),
                connected: false,
                is_windows,
            },
        )
    }

    /// The connection status.
    pub fn is_connected(&self) -> (r: bool)
        ensures
            r == self@.connected,
    {
        self.connected
    }

    /// The interface's name.
    pub fn interface_name(&self) -> (r: &str)
        ensures
            r@ == self@.interface_name,
    {
        self.interface_name.as_str()
    }

    /// The path of the configuration file.
    pub fn config_path(&self) -> (r: &str)
        ensures
            r@ == self@.config_path,
    {
        self.config_path.as_str()
    }

    /// The command that tells whether the interface is there already.
    pub fn interface_query(&self) -> (r: Vec<String>)
        ensures
            texts(r@) == query_words(self@),
    {
        if self.is_windows {
            let service = joined("WireGuardTunnel$", self.interface_name.as_str());
            words("sc", "query", service.as_str())
        } else {
            with_word(words("sudo", "wg", "show"), self.interface_name.as_str())
        }
    }

    /// The command that brings the tunnel up.
    pub fn up_command(&self) -> (r: Vec<String>)
        ensures
            texts(r@) == up_words(self@),
    {
        if self.is_windows {
            words("wireguard.exe", "/installtunnelservice", self.config_path.as_str())
        } else {
            with_word(words("sudo", "wg-quick", "up"), self.config_path.as_str())
        }
    }

    /// The command that brings the tunnel down.
    pub fn down_command(&self) -> (r: Vec<String>)
        ensures
            texts(r@) == down_words(self@),
    {
        if self.is_windows {
            words("wireguard.exe", "/uninstalltunnelservice", self.interface_name.as_str())
        } else {
            with_word(words("sudo", "wg-quick", "down"), self.config_path.as_str())
        }
    }

    /// The command that tests the network through the tunnel.
    pub fn connectivity_command(&self) -> (r: Vec<String>)
        ensures
            texts(r@) == ping_words(self@.is_windows),
    {
        if self.is_windows {
            with_word(
                with_word(with_word(words("ping", "-n", "1"), "-w"), "5000"),
                "1.1.1.1",
            )
        } else {
            with_word(with_word(with_word(words("ping", "-c", "1"), "-W"), "5"), "1.1.1.1")
        }
    }

    /// Judges the command that brings the tunnel up: it succeeded, or
    /// it failed because the tunnel was there already; any other
    /// failure is an error that quotes what the command wrote.
    pub fn judge_up(&self, success: bool, stderr: &str) -> (r: Result<(), HvtError>)
        ensures
            match r {
                Ok(_) => success || was_up_already(self@.is_windows, stderr@),
                Err(e) => !success && !was_up_already(self@.is_windows, stderr@) && (
                e matches HvtError::Generic(msg) && msg@ == up_failure(self@.is_windows, stderr@)),
            },
    {
        if success {
            return Ok(());
        }
        if has_text(stderr, "already exists") {
            return Ok(());
        }
        if self.is_windows {
            if has_text(stderr, "already installed") {
                return Ok(());
            }
            Err(HvtError::Generic(joined("Failed to install WireGuard tunnel: ", stderr)))
        } else {
            Err(HvtError::Generic(joined("Failed to bring up WireGuard interface: ", stderr)))
        }
    }

    /// Judges the command that brings the tunnel down. A failure is no
    /// error: where the tunnel was not there it is passed over, else
    /// it is worth the warning that is returned.
    pub fn down_warning(&self, success: bool, stderr: &str) -> (r: Option<String>)
        ensures
            match r {
                Some(w) => !success && !was_down_already(self@.is_windows, stderr@) && w@
                    == down_failure(self@.is_windows, stderr@),
                None => success || was_down_already(self@.is_windows, stderr@),
            },
    {
        if success || has_text(stderr, "does not exist") {
            return None;
        }
        if self.is_windows {
            if has_text(stderr, "not found") {
                return None;
            }
            Some(joined("Failed to uninstall WireGuard tunnel: ", stderr))
        } else {
            if has_text(stderr, "Cannot find device") {
                return None;
            }
            Some(joined("Failed to bring down WireGuard interface: ", stderr))
        }
    }

    /// Whether the tunnel has to be brought up: it is not connected.
    pub fn needs_connect(&self) -> (r: bool)
        ensures
            r == !self@.connected,
    {
        !self.connected
    }

    /// Records that the tunnel is up.
    pub fn mark_connected(&mut self)
        ensures
            final(self)@ == (ManagerModel { connected: true, ..old(self)@ }),
    {
        self.connected = true;
    }

    /// Records the outcome of bringing the tunnel down. A manager that
    /// is not connected stays as it is, whatever the outcome says. A
    /// connected one is disconnected where the command could be run,
    /// and stays connected with the error where it could not.
    pub fn disconnect(&mut self, teardown: Result<(), HvtError>) -> (r: Result<(), HvtError>)
        ensures
            !old(self)@.connected ==> r is Ok && final(self)@ == old(self)@,
            old(self)@.connected && teardown is Ok ==> r is Ok && final(self)@ == (ManagerModel {
                connected: false,
                ..old(self)@
            }),
            old(self)@.connected && teardown is Err ==> r == teardown && final(self)@ == old(
                self,
            )@,
    {
        if !self.connected {
            return Ok(());
        }
        match teardown {
            Ok(_) => {
                self.connected = false;
                Ok(())
            },
            Err(e) => Err(e),
        }
    }
}

} // verus!
