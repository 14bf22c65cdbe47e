//! What the relay reads of a bundle's configuration: the bundle's name and its
//! members, each with the transport it is reached through, and the relay-wide
//! user sessions. Reading and parsing the configuration files is the host's;
//! the relay's decisions are taken on these values.
use vstd::prelude::*;
use vstd::string::*;

use crate::identity::global_suffix;
use crate::ordering::Named;
use crate::text::{ends_with, has_no, lacks, seq_ends_with};

verus! {

/// The transport a configured session is reached through.
#[derive(Clone, Copy, Debug, PartialEq, Eq, Structural)]
pub enum SessionType {
    Tmux,
    Acp,
    Pty,
    Ui,
    Pubsub,
}

pub open spec fn session_type_name(session_type: SessionType) -> Seq<char> {
    match session_type {
        SessionType::Tmux => "tmux"@,
        SessionType::Acp => "acp"@,
        SessionType::Pty => "pty"@,
        SessionType::Ui => "ui"@,
        SessionType::Pubsub => "pubsub"@,
    }
}

impl SessionType {
    /// The session type's wire name.
    pub fn as_str(self) -> (name: &'static str)
        ensures
            name@ == session_type_name(self),
    {
        match self {
            SessionType::Tmux => "tmux",
            SessionType::Acp => "acp",
            SessionType::Pty => "pty",
            SessionType::Ui => "ui",
            SessionType::Pubsub => "pubsub",
        }
    }
}

/// One configured member of a bundle.
#[derive(Debug)]
pub struct BundleMember {
    pub id: String,
    /// The display name, when one is configured.
    pub name: Option<String>,
    pub target: SessionType,
}

/// A bundle: its name and its configured members.
pub struct BundleConfiguration {
    pub bundle_name: String,
    pub members: Vec<BundleMember>,
}

/// One relay-wide session declared in the users configuration.
pub struct UserSession {
    pub id: String,
    pub session_type: SessionType,
}

/// The users configuration: the relay-wide sessions it declares.
pub struct UsersConfiguration {
    pub sessions: Vec<UserSession>,
}

pub struct MemberView {
    pub id: Seq<char>,
    pub target: SessionType,
}

impl View for BundleMember {
    type V = MemberView;

    open spec fn view(&self) -> MemberView {
        MemberView { id: self.id@, target: self.target }
    }
}

impl View for UserSession {
    type V = MemberView;

    open spec fn view(&self) -> MemberView {
        MemberView { id: self.id@, target: self.session_type }
    }
}

/// An optional name, as text.
pub open spec fn name_view(name: Option<String>) -> Option<Seq<char>> {
    match name {
        None => None,
        Some(n) => Some(n@),
    }
}

/// A relay-wide UI session the authorization configuration declares.
pub struct UiSession {
    pub id: String,
    pub display_name: Option<String>,
}

impl BundleConfiguration {
    /// What a loaded bundle configuration holds: a non-empty bundle name with
    /// no `@`, and member ids that are non-empty and not themselves relay-wide
    /// (`@GLOBAL`), so each member's canonical id is `member@bundle`.
    pub open spec fn well_formed(&self) -> bool {
        &&& self.bundle_name@.len() > 0
        &&& lacks(self.bundle_name@, '@')
        &&& forall|j: int|
            0 <= j < self.members@.len() ==> (#[trigger] self.members@[j]).id@.len() > 0
                && !seq_ends_with(self.members@[j].id@, global_suffix())
    }

    /// Whether this configuration is well formed.
    pub fn is_well_formed(&self) -> (wf: bool)
        ensures
            wf == self.well_formed(),
    {
        if self.bundle_name.unicode_len() == 0 || !has_no(self.bundle_name.as_str(), '@') {
            return false;
        }
        let suffix = "@GLOBAL";
        proof {
            reveal_strlit("@GLOBAL");
        }
        assert(suffix@ == global_suffix());
        let mut i: usize = 0;
        while i < self.members.len()
            invariant
                i <= self.members@.len(),
                suffix@ == global_suffix(),
                forall|j: int|
                    0 <= j < i ==> (#[trigger] self.members@[j]).id@.len() > 0 && !seq_ends_with(
                        self.members@[j].id@,
                        global_suffix(),
                    ),
            decreases self.members@.len() - i,
        {
            let id = self.members[i].id.as_str();
            if id.unicode_len() == 0 || ends_with(id, suffix) {
                return false;
            }
            i = i + 1;
        }
        true
    }

    pub open spec fn members_view(&self) -> Seq<MemberView> {
        self.members@.map_values(|m: BundleMember| m@)
    }
}

impl UsersConfiguration {
    pub open spec fn sessions_view(&self) -> Seq<MemberView> {
        self.sessions@.map_values(|s: UserSession| s@)
    }
}

/// Why a configuration could not be loaded; the host maps what its reader
/// reports into these.
pub enum ConfigurationError {
    UnknownBundle { bundle_name: String, path: String },
    InvalidConfiguration { path: String, message: String },
    InvalidGroupName { path: String, group_name: String },
    ReservedGroupName { path: String, group_name: String },
    AmbiguousSender { working_directory: String, matches: Vec<String> },
    UnreadableConfigurationLayer { path: String, cause: String },
    Io { context: String, cause: String },
}

impl Named for BundleMember {
    open spec fn name_view(&self) -> Seq<char> {
        self.id@
    }

    fn name(&self) -> (name: &str) {
        self.id.as_str()
    }
}

impl BundleMember {
    /// A copy of this member.
    pub fn copy(&self) -> (copy: Self)
        ensures
            copy@ == self@,
            name_view(copy.name) == name_view(self.name),
    {
        BundleMember {
            id: self.id.clone(),
            name: match &self.name {
                None => None,
                Some(n) => Some(n.clone()),
            },
            target: self.target,
        }
    }
}

} // verus!
