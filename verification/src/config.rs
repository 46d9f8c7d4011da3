//! The daemon's settings.

use vstd::prelude::*;
use vstd::string::*;

use crate::text;

verus! {

/// The daemon's settings.
pub struct Config {
    /// Where the daemon's state is kept.
    pub state_dir: Option<String>,
    /// The address to listen on.
    pub rpc_listen: Option<String>,
}

/// The settings as a mathematical value.
#[verifier::ext_equal]
pub struct ConfigView {
    pub state_dir: Option<Seq<char>>,
    pub rpc_listen: Option<Seq<char>>,
}

impl View for Config {
    type V = ConfigView;

    open spec fn view(&self) -> ConfigView {
        ConfigView {
            state_dir: text::opt_text(self.state_dir),
            rpc_listen: text::opt_text(self.rpc_listen),
        }
    }
}

impl ConfigView {
    /// The settings of a daemon that was given none.
    pub open spec fn preset() -> ConfigView {
        ConfigView { state_dir: Some("./state"@), rpc_listen: Some("127.0.0.1:9388"@) }
    }

    /// Where the daemon's state is kept.
    pub open spec fn state_dir_or_preset(self) -> Seq<char> {
        match self.state_dir {
            Some(dir) => dir,
            None => "./state"@,
        }
    }

    /// The address to listen on.
    pub open spec fn rpc_listen_or_preset(self) -> Seq<char> {
        match self.rpc_listen {
            Some(addr) => addr,
            None => "127.0.0.1:9388"@,
        }
    }
}

impl Default for Config {
    fn default() -> (r: Config)
        ensures
            r@ == ConfigView::preset(),
    {
        Config {
            state_dir: Some("./state".to_owned()),
            rpc_listen: Some("127.0.0.1:9388".to_owned()),
        }
    }
}

/// The place of the settings file, given what the environment says of it.
pub fn config_path(named: Option<String>) -> (r: String)
    ensures
        r@ == (match text::opt_text(named) {
            Some(path) => path,
            None => "chatterd.toml"@,
        }),
{
    match named {
        Some(path) => path,
        None => "chatterd.toml".to_owned(),
    }
}

impl Config {
    /// The settings that were read, or the preset ones where the file could not be read
    /// or made no sense.
    pub fn load(read: Option<Config>) -> (r: Config)
        ensures
            r@ == (match read {
                Some(config) => config@,
                None => ConfigView::preset(),
            }),
    {
        match read {
            Some(config) => config,
            None => Config::default(),
        }
    }

    /// Where the daemon's state is kept.
    pub fn state_dir(&self) -> (r: String)
        ensures
            r@ == self@.state_dir_or_preset(),
    {
        match &self.state_dir {
            Some(dir) => dir.clone(),
            None => "./state".to_owned(),
        }
    }

    /// The address to listen on.
    pub fn rpc_listen(&self) -> (r: String)
        ensures
            r@ == self@.rpc_listen_or_preset(),
    {
        match &self.rpc_listen {
            Some(addr) => addr.clone(),
            None => "127.0.0.1:9388".to_owned(),
        }
    }
}

} // verus!
