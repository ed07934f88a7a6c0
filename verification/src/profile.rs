use vstd::prelude::*;

verus! {

/// A database that can be installed on the remote host.
#[derive(Debug, Clone, Copy, PartialEq, Eq, Structural)]
pub enum Database {
    Postgres,
    Redis,
    MongoDB,
}

/// An AI agent that can be installed on the remote host.
#[derive(Debug, Clone, Copy, PartialEq, Eq, Structural)]
pub enum AiAgent {
    Hermes,
    OpenClaw,
}

/// A reverse proxy that can be installed on the remote host.
#[derive(Debug, Clone, Copy, PartialEq, Eq, Structural)]
pub enum ReverseProxy {
    Caddy,
    Nginx,
}

/// Something the deployment pipeline knows how to set up.
#[derive(Debug, Clone, Copy, PartialEq, Eq, Structural)]
pub enum DeploymentTarget {
    Hardening,
    Database(Database),
    AiAgent(AiAgent),
    ReverseProxy(ReverseProxy),
    DockerCompose,
    Binary,
}

/// A saved SSH connection profile.
#[derive(Debug, Clone, PartialEq, Eq)]
pub struct Profile {
    pub name: String,
    pub host: String,
    pub port: u16,
    pub username: String,
    pub key_path: String,
}

/// The mathematical value of a [`Profile`].
pub struct ProfileView {
    pub name: Seq<char>,
    pub host: Seq<char>,
    pub port: u16,
    pub username: Seq<char>,
    pub key_path: Seq<char>,
}

impl View for Profile {
    type V = ProfileView;

    open spec fn view(&self) -> ProfileView {
        ProfileView {
            name: self.name@,
            host: self.host@,
            port: self.port,
            username: self.username@,
            key_path: self.key_path@,
        }
    }
}

impl DeepView for Profile {
    type V = ProfileView;

    open spec fn deep_view(&self) -> ProfileView {
        self@
    }
}

/// The default key file under a home directory: `{home}/.ssh/id_rsa`.
pub open spec fn default_key_path(home: Seq<char>) -> Seq<char> {
    home + "/.ssh/id_rsa"@
}

/// The profile that a blank entry starts from, given the value of `$HOME`
/// (the empty string where it is unset): no name, no host, port 22, user
/// `root` and the key `{home}/.ssh/id_rsa`.
pub open spec fn blank_profile(home: Seq<char>) -> ProfileView {
    ProfileView {
        name: Seq::empty(),
        host: Seq::empty(),
        port: 22,
        username: "root"@,
        key_path: default_key_path(home),
    }
}

impl Profile {
    /// A blank profile for the home directory `home` (`""` when `$HOME` is
    /// unset): port 22, user `root`, key `{home}/.ssh/id_rsa`.
    pub fn blank(home: &str) -> (p: Profile)
        ensures
            p@ == blank_profile(home@),
    {
        Profile {
            name: String::new(),
            host: String::new(),
            port: 22,
            username: String::from_str("root"),
            key_path: String::from_str(home).concat("/.ssh/id_rsa"),
        }
    }

    /// A copy of the profile, field by field.
    pub fn duplicate(&self) -> (p: Profile)
        ensures
            p@ == self@,
    {
        Profile {
            name: self.name.clone(),
            host: self.host.clone(),
            port: self.port,
            username: self.username.clone(),
            key_path: self.key_path.clone(),
        }
    }
}

/// A named set of deployment targets.
#[derive(Debug, Clone, PartialEq, Eq)]
pub struct Preset {
    pub name: String,
    pub targets: Vec<DeploymentTarget>,
}

/// The mathematical value of a [`Preset`].
pub struct PresetView {
    pub name: Seq<char>,
    pub targets: Seq<DeploymentTarget>,
}

impl View for Preset {
    type V = PresetView;

    open spec fn view(&self) -> PresetView {
        PresetView { name: self.name@, targets: self.targets@ }
    }
}

impl DeepView for Preset {
    type V = PresetView;

    open spec fn deep_view(&self) -> PresetView {
        self@
    }
}

} // verus!
