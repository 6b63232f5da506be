//! The decisions of the Git synchronisation engine.
//!
//! Git itself (opening the repository, fetching, merging, pushing) is run
//! by the program around this library. What to do with what Git reports is
//! decided here: which credentials to offer, whether a pull fast-forwards
//! or merges, how a conflict is resolved, whether there is anything to
//! commit or push, and the order of the steps of a smart sync.

use vstd::prelude::*;
use vstd::string::*;
use crate::errors::Error;
use crate::text::{
    chars_of, concat, duplicate_bytes, same_text, string_from_chars, to_lowercase,
    unicode_lowercase,
};

verus! {

/// The remote's name unless the environment overrides it.
pub const DEFAULT_REMOTE: &'static str = "origin";

/// The branch's name unless the environment overrides it.
pub const DEFAULT_BRANCH: &'static str = "main";

/// The author's name unless the environment gives one.
pub const DEFAULT_AUTHOR: &'static str = "SecureFox";

/// The user that SSH logs in as unless the challenge names one.
pub const DEFAULT_SSH_USER: &'static str = "git";

/// The message of the commit that a smart sync makes.
pub const AUTO_SYNC_MESSAGE: &'static str = "Auto sync";

// ---------------------------------------------------------------------------
// Names
// ---------------------------------------------------------------------------

/// What a repository is synchronised under: its directory, and the names
/// of the remote and of the branch.
#[derive(Debug, Clone)]
pub struct GitSync {
    /// The directory of the repository: the vault directory.
    pub repo_path: String,
    pub remote_name: String,
    pub branch_name: String,
}

/// The ref that tracks the remote branch:
/// `refs/remotes/<remote>/<branch>`.
pub open spec fn tracking_ref_text(remote: Seq<char>, branch: Seq<char>) -> Seq<char> {
    "refs/remotes/"@ + remote + seq!['/'] + branch
}

/// The ref of the local branch: `refs/heads/<branch>`.
pub open spec fn head_ref_text(branch: Seq<char>) -> Seq<char> {
    "refs/heads/"@ + branch
}

/// The refspec of a push: the local branch onto the remote branch of the
/// same name.
pub open spec fn push_refspec_text(branch: Seq<char>) -> Seq<char> {
    head_ref_text(branch) + seq![':'] + head_ref_text(branch)
}

impl GitSync {
    /// The synchronisation of the repository in `path`, under the names
    /// that the environment gives (`SECUREFOX_REMOTE`, `SECUREFOX_BRANCH`),
    /// or else `origin` and `main`.
    pub fn init(path: &str, remote_override: Option<String>, branch_override: Option<String>) -> (r:
        Self)
        ensures
            r.repo_path@ == path@,
            r.remote_name@ == match remote_override {
                Some(name) => name@,
                None => DEFAULT_REMOTE@,
            },
            r.branch_name@ == match branch_override {
                Some(name) => name@,
                None => DEFAULT_BRANCH@,
            },
    {
        GitSync {
            repo_path: String::from_str(path),
            remote_name: match remote_override {
                Some(name) => name,
                None => String::from_str(DEFAULT_REMOTE),
            },
            branch_name: match branch_override {
                Some(name) => name,
                None => String::from_str(DEFAULT_BRANCH),
            },
        }
    }

    /// The ref that tracks the remote branch.
    pub fn tracking_ref(&self) -> (r: String)
        ensures
            r@ == tracking_ref_text(self.remote_name@, self.branch_name@),
    {
        let mut text = concat(&chars_of("refs/remotes/"), &chars_of(self.remote_name.as_str()));
        text.push('/');
        let full = concat(&text, &chars_of(self.branch_name.as_str()));
        assert(full@ =~= tracking_ref_text(self.remote_name@, self.branch_name@));
        string_from_chars(&full)
    }

    /// The ref of the local branch.
    pub fn head_ref(&self) -> (r: String)
        ensures
            r@ == head_ref_text(self.branch_name@),
    {
        string_from_chars(&concat(&chars_of("refs/heads/"), &chars_of(self.branch_name.as_str())))
    }

    /// The refspec of a push.
    pub fn push_refspec(&self) -> (r: String)
        ensures
            r@ == push_refspec_text(self.branch_name@),
    {
        let head = concat(&chars_of("refs/heads/"), &chars_of(self.branch_name.as_str()));
        let text = concat(&head, &chars_of(":"));
        proof {
            reveal_strlit(":");
            assert(":"@ =~= seq![':']);
        }
        let full = concat(&text, &head);
        string_from_chars(&full)
    }

    /// Whether the branch that HEAD points to must be renamed before a
    /// push: it has a name, and the name is not the configured one.
    pub fn must_rename(&self, current_branch: Option<&str>) -> (r: bool)
        ensures
            r == (current_branch matches Some(name) && name@ != self.branch_name@),
    {
        match current_branch {
            Some(name) => !same_text(name, self.branch_name.as_str()),
            None => false,
        }
    }
}

/// Who signs a commit.
#[derive(Debug, Clone)]
pub struct Author {
    pub name: String,
    pub email: String,
}

/// The author's name: `GIT_AUTHOR_NAME`, or else `USER`, or else
/// `SecureFox`.
pub open spec fn author_name(git_author_name: Option<Seq<char>>, user: Option<Seq<char>>) -> Seq<
    char,
> {
    match git_author_name {
        Some(name) => name,
        None => match user {
            Some(name) => name,
            None => DEFAULT_AUTHOR@,
        },
    }
}

/// The author's address: `GIT_AUTHOR_EMAIL`, or else the name in small
/// letters at `securefox.local`.
pub open spec fn author_email(name: Seq<char>, git_author_email: Option<Seq<char>>) -> Seq<char> {
    match git_author_email {
        Some(email) => email,
        None => unicode_lowercase(name) + "@securefox.local"@,
    }
}

impl Author {
    /// The author of a commit, from what the environment gives.
    pub fn resolve(
        git_author_name: Option<String>,
        user: Option<String>,
        git_author_email: Option<String>,
    ) -> (r: Self)
        ensures
            r.name@ == author_name(git_author_name.deep_view(), user.deep_view()),
            r.email@ == author_email(r.name@, git_author_email.deep_view()),
    {
        let name = match git_author_name {
            Some(name) => name,
            None => match user {
                Some(name) => name,
                None => String::from_str(DEFAULT_AUTHOR),
            },
        };
        let email = match git_author_email {
            Some(email) => email,
            None => {
                let lower = to_lowercase(name.as_str());
                string_from_chars(
                    &concat(&chars_of(lower.as_str()), &chars_of("@securefox.local")),
                )
            },
        };
        Author { name, email }
    }
}

// ---------------------------------------------------------------------------
// Credentials
// ---------------------------------------------------------------------------

/// What an authentication challenge allows.
#[derive(Debug, Clone, Copy, PartialEq, Eq, Structural)]
pub struct CredentialRequest {
    pub ssh_key: bool,
    pub user_pass_plaintext: bool,
}

/// The SSH key pairs that are tried, in this order.
#[derive(Debug, Clone, Copy, PartialEq, Eq, Structural)]
pub enum SshKey {
    Ed25519,
    Rsa,
    Ecdsa,
}

/// Which SSH private keys exist in `~/.ssh`.
#[derive(Debug, Clone, Copy, PartialEq, Eq, Structural)]
pub struct SshKeysPresent {
    pub ed25519: bool,
    pub rsa: bool,
    pub ecdsa: bool,
}

/// The credentials to answer a challenge with.
#[derive(Debug, Clone)]
pub enum Credential {
    /// A key pair from `~/.ssh`.
    SshKeyPair { username: String, key: SshKey },
    /// Whatever the SSH agent holds.
    SshAgent { username: String },
    /// A user name and password from the environment.
    UserPass { username: String, password: String },
    /// The default credentials.
    Default,
}

/// The mathematical content of a `Credential`.
pub ghost enum CredentialView {
    SshKeyPair { username: Seq<char>, key: SshKey },
    SshAgent { username: Seq<char> },
    UserPass { username: Seq<char>, password: Seq<char> },
    Default,
}

impl DeepView for Credential {
    type V = CredentialView;

    open spec fn deep_view(&self) -> CredentialView {
        match self {
            Credential::SshKeyPair { username, key } => CredentialView::SshKeyPair {
                username: username@,
                key: *key,
            },
            Credential::SshAgent { username } => CredentialView::SshAgent { username: username@ },
            Credential::UserPass { username, password } => CredentialView::UserPass {
                username: username@,
                password: password@,
            },
            Credential::Default => CredentialView::Default,
        }
    }
}

impl SshKey {
    /// The file name of the private key in `~/.ssh`.
    pub fn private_file(&self) -> (r: &'static str)
        ensures
            r@ == match *self {
                SshKey::Ed25519 => "id_ed25519"@,
                SshKey::Rsa => "id_rsa"@,
                SshKey::Ecdsa => "id_ecdsa"@,
            },
    {
        match self {
            SshKey::Ed25519 => "id_ed25519",
            SshKey::Rsa => "id_rsa",
            SshKey::Ecdsa => "id_ecdsa",
        }
    }

    /// The file name of the public key in `~/.ssh`.
    pub fn public_file(&self) -> (r: &'static str)
        ensures
            r@ == match *self {
                SshKey::Ed25519 => "id_ed25519.pub"@,
                SshKey::Rsa => "id_rsa.pub"@,
                SshKey::Ecdsa => "id_ecdsa.pub"@,
            },
    {
        match self {
            SshKey::Ed25519 => "id_ed25519.pub",
            SshKey::Rsa => "id_rsa.pub",
            SshKey::Ecdsa => "id_ecdsa.pub",
        }
    }
}

/// The first key pair that exists, in the order Ed25519, RSA, ECDSA.
pub open spec fn preferred_key(present: SshKeysPresent) -> Option<SshKey> {
    if present.ed25519 {
        Some(SshKey::Ed25519)
    } else if present.rsa {
        Some(SshKey::Rsa)
    } else if present.ecdsa {
        Some(SshKey::Ecdsa)
    } else {
        None
    }
}

/// The credentials for a challenge, where there are any to choose.
///
/// A challenge that takes SSH keys gets the first key pair that exists, or
/// the SSH agent; the user is the one the challenge names, or `git`. Any
/// other challenge that takes a user name and password gets the ones from
/// the environment if both are set. Everything else gets the default
/// credentials. `None` stands for the one failure: SSH keys are asked for
/// and the home directory is unknown.
pub open spec fn chosen_credential(
    request: CredentialRequest,
    username: Option<Seq<char>>,
    home_known: bool,
    present: SshKeysPresent,
    env_user: Option<Seq<char>>,
    env_password: Option<Seq<char>>,
) -> Option<CredentialView> {
    if request.ssh_key {
        if !home_known {
            None
        } else {
            let user = match username {
                Some(name) => name,
                None => DEFAULT_SSH_USER@,
            };
            match preferred_key(present) {
                Some(key) => Some(CredentialView::SshKeyPair { username: user, key }),
                None => Some(CredentialView::SshAgent { username: user }),
            }
        }
    } else if request.user_pass_plaintext && env_user is Some && env_password is Some {
        Some(CredentialView::UserPass { username: env_user->0, password: env_password->0 })
    } else {
        Some(CredentialView::Default)
    }
}

impl GitSync {
    /// Chooses the credentials to answer an authentication challenge with.
    ///
    /// `username` is the user the challenge names; `home_known` says whether
    /// the home directory could be found and `present` which private keys exist
    /// in its `.ssh`; `env_user` and `env_password` are `GIT_USERNAME` and
    /// `GIT_PASSWORD`.
    pub fn get_credentials(
        &self,
        request: CredentialRequest,
        username: Option<&str>,
        home_known: bool,
        present: SshKeysPresent,
        env_user: Option<String>,
        env_password: Option<String>,
    ) -> (r: Result<Credential, Error>)
        ensures
            match r {
                Ok(c) => chosen_credential(
                    request,
                    match username {
                        Some(name) => Some(name@),
                        None => None,
                    },
                    home_known,
                    present,
                    env_user.deep_view(),
                    env_password.deep_view(),
                ) == Some(c.deep_view()),
                Err(e) => request.ssh_key && !home_known && e is Git,
            },
    {
        if request.ssh_key {
            if !home_known {
                return Err(Error::Git(String::from_str("Could not find home directory")));
            }
            let user = match username {
                Some(name) => String::from_str(name),
                None => String::from_str(DEFAULT_SSH_USER),
            };
            if present.ed25519 {
                return Ok(Credential::SshKeyPair { username: user, key: SshKey::Ed25519 });
            }
            if present.rsa {
                return Ok(Credential::SshKeyPair { username: user, key: SshKey::Rsa });
            }
            if present.ecdsa {
                return Ok(Credential::SshKeyPair { username: user, key: SshKey::Ecdsa });
            }
            return Ok(Credential::SshAgent { username: user });
        }
        if request.user_pass_plaintext {
            match (env_user, env_password) {
                (Some(username), Some(password)) => {
                    return Ok(Credential::UserPass { username, password });
                },
                _ => {},
            }
        }
        Ok(Credential::Default)
    }
}

// ---------------------------------------------------------------------------
// Opening the repository and naming the remote
// ---------------------------------------------------------------------------

/// How the repository is got hold of.
#[derive(Debug, Clone, Copy, PartialEq, Eq, Structural)]
pub enum OpenStep {
    /// The directory holds a repository: open it.
    Open,
    /// It holds none: make a fresh one in place.
    Init,
}

/// How the remote gets its URL.
#[derive(Debug, Clone, Copy, PartialEq, Eq, Structural)]
pub enum RemoteStep {
    /// The remote exists: change its URL.
    SetUrl,
    /// It does not: create it with the URL.
    Create,
}

impl GitSync {
    /// How the repository is got hold of, given whether the directory holds
    /// a `.git`.
    pub fn open_step(git_dir_exists: bool) -> (r: OpenStep)
        ensures
            r == if git_dir_exists {
                OpenStep::Open
            } else {
                OpenStep::Init
            },
    {
        if git_dir_exists {
            OpenStep::Open
        } else {
            OpenStep::Init
        }
    }

    /// How the remote gets its URL, given whether a remote of the
    /// configured name exists.
    pub fn set_remote(&self, remote_exists: bool) -> (r: RemoteStep)
        ensures
            r == if remote_exists {
                RemoteStep::SetUrl
            } else {
                RemoteStep::Create
            },
    {
        if remote_exists {
            RemoteStep::SetUrl
        } else {
            RemoteStep::Create
        }
    }

    /// Whether a commit is followed by a push: only where a remote is
    /// configured.
    pub fn auto_commit_push(&self, remote_url: Option<&str>) -> (r: bool)
        ensures
            r == (remote_url is Some),
    {
        remote_url.is_some()
    }

    /// Whether there is anything to pull from: only where a remote is
    /// configured.
    pub fn auto_pull_merge(&self, remote_url: Option<&str>) -> (r: bool)
        ensures
            r == (remote_url is Some),
    {
        remote_url.is_some()
    }

    /// The next step of a push.
    ///
    /// A repository without a head commit first gets an initial commit; a
    /// branch that is not called as configured is renamed; then the branch
    /// is pushed onto the remote branch of the same name. After each of
    /// the first two steps the caller looks again and asks again.
    pub fn push(&self, has_head: bool, current_branch: Option<&str>) -> (r: PushStep)
        ensures
            r.deep_view() == if !has_head {
                PushStepView::InitialCommit
            } else if current_branch matches Some(name) && name@ != self.branch_name@ {
                PushStepView::RenameBranch
            } else {
                PushStepView::Push { refspec: push_refspec_text(self.branch_name@) }
            },
    {
        if !has_head {
            PushStep::InitialCommit
        } else if self.must_rename(current_branch) {
            PushStep::RenameBranch
        } else {
            PushStep::Push { refspec: self.push_refspec() }
        }
    }
}

/// A step of a push.
#[derive(Debug, Clone)]
pub enum PushStep {
    /// Commit everything with the message `Initial commit`.
    InitialCommit,
    /// Rename the current branch to the configured name.
    RenameBranch,
    /// Push with this refspec.
    Push { refspec: String },
}

/// The mathematical content of a `PushStep`.
pub ghost enum PushStepView {
    InitialCommit,
    RenameBranch,
    Push { refspec: Seq<char> },
}

impl DeepView for PushStep {
    type V = PushStepView;

    open spec fn deep_view(&self) -> PushStepView {
        match self {
            PushStep::InitialCommit => PushStepView::InitialCommit,
            PushStep::RenameBranch => PushStepView::RenameBranch,
            PushStep::Push { refspec } => PushStepView::Push { refspec: refspec@ },
        }
    }
}

// ---------------------------------------------------------------------------
// Committing, pulling and merging
// ---------------------------------------------------------------------------

/// The message of the first commit of a repository.
pub const INITIAL_COMMIT_MESSAGE: &'static str = "Initial commit";

/// The message of a merge commit.
pub const MERGE_MESSAGE: &'static str = "Merge remote changes";

/// What an automatic commit does.
#[derive(Debug, Clone, Copy, PartialEq, Eq, Structural)]
pub enum CommitStep {
    /// The tree is the parent's tree: there is nothing to commit.
    Nothing,
    /// There is no commit yet: make the first one, without a parent.
    Initial,
    /// Commit the tree on top of the current head.
    OnHead,
}

impl GitSync {
    /// What an automatic commit does, given the identifier of the tree that
    /// was just written from the index and the identifier of the tree of the
    /// head commit, if there is a head commit.
    pub fn auto_commit(&self, tree_id: &str, head_tree_id: Option<&str>) -> (r: CommitStep)
        ensures
            r == match head_tree_id {
                None => CommitStep::Initial,
                Some(parent) => if parent@ == tree_id@ {
                    CommitStep::Nothing
                } else {
                    CommitStep::OnHead
                },
            },
    {
        match head_tree_id {
            None => CommitStep::Initial,
            Some(parent) => {
                if same_text(parent, tree_id) {
                    CommitStep::Nothing
                } else {
                    CommitStep::OnHead
                }
            },
        }
    }
}

/// What Git's merge analysis says of the fetched commit.
#[derive(Debug, Clone, Copy, PartialEq, Eq, Structural)]
pub struct MergeAnalysis {
    pub up_to_date: bool,
    pub fast_forward: bool,
}

/// How a pull brings the fetched commit in.
#[derive(Debug, Clone, Copy, PartialEq, Eq, Structural)]
pub enum PullStep {
    /// The local branch already holds the fetched commit.
    Nothing,
    /// Move the branch to the fetched commit and check it out.
    FastForward,
    /// Merge the three trees (base, ours, theirs) and commit the result
    /// with both parents.
    Merge,
}

impl GitSync {
    /// How a pull brings the fetched commit in: nothing where the branch is up
    /// to date, a fast-forward where that is possible, a three-way merge
    /// otherwise.
    pub fn pull(&self, analysis: MergeAnalysis) -> (r: PullStep)
        ensures
            r == if analysis.up_to_date {
                PullStep::Nothing
            } else if analysis.fast_forward {
                PullStep::FastForward
            } else {
                PullStep::Merge
            },
    {
        if analysis.up_to_date {
            PullStep::Nothing
        } else if analysis.fast_forward {
            PullStep::FastForward
        } else {
            PullStep::Merge
        }
    }
}

/// A path on which the two sides of a merge disagree, with the blob of the
/// common base, of the local side and of the remote side, each where the
/// side has the path.
#[derive(Debug, Clone)]
pub struct Conflict {
    pub path: String,
    pub base: Option<Vec<u8>>,
    pub ours: Option<Vec<u8>>,
    pub theirs: Option<Vec<u8>>,
}

/// A path and the blob that the merged index gets for it.
#[derive(Debug, Clone)]
pub struct Resolution {
    pub path: String,
    pub blob: Vec<u8>,
}

/// The mathematical content of a `Conflict`.
pub ghost struct ConflictView {
    pub path: Seq<char>,
    pub base: Option<Seq<u8>>,
    pub ours: Option<Seq<u8>>,
    pub theirs: Option<Seq<u8>>,
}

/// The mathematical content of a `Resolution`.
pub ghost struct ResolutionView {
    pub path: Seq<char>,
    pub blob: Seq<u8>,
}

impl DeepView for Conflict {
    type V = ConflictView;

    open spec fn deep_view(&self) -> ConflictView {
        ConflictView {
            path: self.path@,
            base: self.base.deep_view(),
            ours: self.ours.deep_view(),
            theirs: self.theirs.deep_view(),
        }
    }
}

impl DeepView for Resolution {
    type V = ResolutionView;

    open spec fn deep_view(&self) -> ResolutionView {
        ResolutionView { path: self.path@, blob: self.blob@ }
    }
}

/// The blob chosen for a conflict: always the remote side's. A path that
/// the remote side does not have gets none.
pub open spec fn resolved(conflict: ConflictView) -> Option<Seq<u8>> {
    conflict.theirs
}

/// What the merged index gets for the conflicts, in their order: for each
/// path that the remote side has, the remote side's blob.
pub open spec fn resolutions(conflicts: Seq<ConflictView>) -> Seq<ResolutionView>
    decreases conflicts.len(),
{
    if conflicts.len() == 0 {
        Seq::empty()
    } else {
        let front = resolutions(conflicts.drop_last());
        match resolved(conflicts.last()) {
            Some(blob) => front.push(ResolutionView { path: conflicts.last().path, blob }),
            None => front,
        }
    }
}

/// Resolves one conflict: the remote side wins, whatever the base and the
/// local side hold.
pub fn resolve_conflict(conflict: &Conflict) -> (r: Option<Vec<u8>>)
    ensures
        r.deep_view() == resolved(conflict.deep_view()),
{
    match &conflict.theirs {
        Some(blob) => Some(duplicate_bytes(blob)),
        None => None,
    }
}

impl GitSync {
    /// Resolves the conflicts of a merge: what to add to the merged index.
    pub fn resolve_conflicts(&self, conflicts: &Vec<Conflict>) -> (r: Vec<Resolution>)
        ensures
            r.deep_view() == resolutions(conflicts.deep_view()),
    {
        let mut r: Vec<Resolution> = Vec::new();
        let mut i: usize = 0;
        assert(conflicts.deep_view().take(0) =~= Seq::empty());
        assert(r.deep_view() =~= Seq::empty());
        while i < conflicts.len()
            invariant
                i <= conflicts.len(),
                r.deep_view() == resolutions(conflicts.deep_view().take(i as int)),
            decreases conflicts.len() - i,
        {
            let ghost before = r.deep_view();
            assert(conflicts.deep_view().take(i + 1).drop_last() =~= conflicts.deep_view().take(
                i as int,
            ));
            assert(conflicts.deep_view().take(i + 1).last() == conflicts[i as int].deep_view());
            match resolve_conflict(&conflicts[i]) {
                Some(blob) => {
                    assert(blob@ =~= blob.deep_view());
                    let resolution = Resolution { path: conflicts[i].path.clone(), blob };
                    r.push(resolution);
                    assert(r.deep_view() =~= before.push(resolution.deep_view()));
                },
                None => {},
            }
            i = i + 1;
        }
        assert(conflicts.deep_view().take(conflicts.len() as int) =~= conflicts.deep_view());
        r
    }
}

// ---------------------------------------------------------------------------
// Ahead and behind
// ---------------------------------------------------------------------------

/// Where the local branch and the tracked remote branch stand.
#[derive(Debug, Clone)]
pub struct BranchState {
    /// The commit that HEAD points to, if there is one.
    pub head: Option<String>,
    /// Whether the remote is configured.
    pub has_remote: bool,
    /// The commit that the tracking ref points to, if the ref exists.
    pub remote_tip: Option<String>,
}

/// How many commits each side has that the other lacks.
#[derive(Debug, Clone, Copy, PartialEq, Eq, Structural)]
pub struct AheadBehind {
    pub ahead: usize,
    pub behind: usize,
}

/// Whether the two branches can differ at all: both point to a commit, the
/// remote is configured, and the commits are not the same. Only then is
/// the commit graph worth walking.
pub open spec fn may_differ(state: BranchState) -> bool {
    state.has_remote && state.head is Some && state.remote_tip is Some && state.head->0@
        != state.remote_tip->0@
}

/// Whether there are local changes: the working tree has a status entry, or
/// the local branch is strictly ahead of the tracked remote branch.
pub open spec fn local_changes(
    status_entries: usize,
    state: BranchState,
    graph: Option<AheadBehind>,
) -> bool {
    status_entries > 0 || (may_differ(state) && (graph matches Some(g) && g.ahead > 0))
}

/// Whether the remote has updates: the tracked remote branch is strictly
/// ahead of the local branch.
pub open spec fn remote_updates(state: BranchState, graph: Option<AheadBehind>) -> bool {
    may_differ(state) && (graph matches Some(g) && g.behind > 0)
}

impl BranchState {
    /// Whether the two branches can differ at all.
    pub fn can_differ(&self) -> (r: bool)
        ensures
            r == may_differ(*self),
    {
        if !self.has_remote {
            return false;
        }
        match (&self.head, &self.remote_tip) {
            (Some(head), Some(tip)) => !same_text(head.as_str(), tip.as_str()),
            _ => false,
        }
    }
}

impl GitSync {
    /// Whether there are local changes, uncommitted or unpushed.
    ///
    /// `status_entries` counts the entries of the working tree's status;
    /// `graph` is what walking the commit graph gave, if it was walked and
    /// gave anything.
    pub fn has_local_changes(&self, status_entries: usize, state: &BranchState, graph: Option<AheadBehind>) -> (r:
        bool)
        ensures
            r == local_changes(status_entries, *state, graph),
    {
        if status_entries > 0 {
            return true;
        }
        if !state.can_differ() {
            return false;
        }
        match graph {
            Some(g) => g.ahead > 0,
            None => false,
        }
    }
}

impl GitSync {
    /// Whether the remote has updates, after a fetch.
    pub fn has_remote_updates(&self, state: &BranchState, graph: Option<AheadBehind>) -> (r: bool)
        ensures
            r == remote_updates(*state, graph),
    {
        if !state.can_differ() {
            return false;
        }
        match graph {
            Some(g) => g.behind > 0,
            None => false,
        }
    }
}

// ---------------------------------------------------------------------------
// Smart sync
// ---------------------------------------------------------------------------

/// What a smart sync did.
#[derive(Debug, Clone, Copy, PartialEq, Eq, Structural)]
pub struct SmartSyncResult {
    pub pulled: bool,
    pub pushed: bool,
    pub already_up_to_date: bool,
}

impl Default for SmartSyncResult {
    fn default() -> (r: Self)
        ensures
            r == (SmartSyncResult { pulled: false, pushed: false, already_up_to_date: false }),
    {
        SmartSyncResult { pulled: false, pushed: false, already_up_to_date: false }
    }
}

/// Where a smart sync stands.
#[derive(Debug, Clone, Copy, PartialEq, Eq, Structural)]
pub enum SyncStage {
    /// Nothing was done yet.
    Idle,
    /// A fetch is under way.
    Fetching,
    /// A pull is under way.
    Pulling,
    /// The working tree and the branches are being inspected.
    Inspecting,
    /// A commit is under way.
    Committing,
    /// A push is under way.
    Pushing,
    /// The sync is over.
    Finished,
}

/// What the caller is to do next.
#[derive(Debug, Clone, Copy, PartialEq, Eq, Structural)]
pub enum SyncAction {
    /// Fetch, then report whether the remote has updates.
    Fetch,
    /// Pull: fast-forward if possible, else merge.
    Pull,
    /// Report whether there are local changes, uncommitted or unpushed.
    Inspect,
    /// Commit everything with the message `Auto sync`.
    Commit,
    /// Push.
    Push,
    /// Nothing more: the result is final.
    Finish,
}

/// What the caller reports back.
#[derive(Debug, Clone, Copy, PartialEq, Eq, Structural)]
pub enum SyncEvent {
    /// The sync begins; `has_remote` says whether a remote is configured.
    Begin { has_remote: bool },
    /// The fetch is done; `remote_updates` says whether the tracked remote
    /// branch is now strictly ahead of the local branch.
    Fetched { remote_updates: bool },
    /// The pull is done.
    Pulled,
    /// The inspection is done; `local_changes` says whether the working
    /// tree is dirty or the local branch strictly ahead.
    Inspected { local_changes: bool },
    /// The commit is done.
    Committed,
    /// The push is done.
    Pushed,
}

/// A smart sync in progress: its stage and what it did so far.
#[derive(Debug, Clone, Copy, PartialEq, Eq, Structural)]
pub struct SmartSync {
    pub stage: SyncStage,
    pub result: SmartSyncResult,
}

/// The sync after an event, and what the caller does next.
///
/// Without a remote the sync ends at once, up to date. Otherwise: fetch;
/// pull if the remote has updates, and note that all was up to date if it
/// has none; inspect; if there are local changes, commit and push. An event
/// that the stage does not wait for ends the sync with what was done so
/// far.
pub open spec fn sync_step(sync: SmartSync, event: SyncEvent) -> (SmartSync, SyncAction) {
    let r = sync.result;
    match (sync.stage, event) {
        (SyncStage::Idle, SyncEvent::Begin { has_remote }) => if has_remote {
            (SmartSync { stage: SyncStage::Fetching, result: r }, SyncAction::Fetch)
        } else {
            (
                SmartSync {
                    stage: SyncStage::Finished,
                    result: SmartSyncResult { already_up_to_date: true, ..r },
                },
                SyncAction::Finish,
            )
        },
        (SyncStage::Fetching, SyncEvent::Fetched { remote_updates }) => if remote_updates {
            (SmartSync { stage: SyncStage::Pulling, result: r }, SyncAction::Pull)
        } else {
            (
                SmartSync {
                    stage: SyncStage::Inspecting,
                    result: SmartSyncResult { already_up_to_date: true, ..r },
                },
                SyncAction::Inspect,
            )
        },
        (SyncStage::Pulling, SyncEvent::Pulled) => (
            SmartSync { stage: SyncStage::Inspecting, result: SmartSyncResult { pulled: true, ..r } },
            SyncAction::Inspect,
        ),
        (SyncStage::Inspecting, SyncEvent::Inspected { local_changes }) => if local_changes {
            (SmartSync { stage: SyncStage::Committing, result: r }, SyncAction::Commit)
        } else {
            (SmartSync { stage: SyncStage::Finished, result: r }, SyncAction::Finish)
        },
        (SyncStage::Committing, SyncEvent::Committed) => (
            SmartSync { stage: SyncStage::Pushing, result: r },
            SyncAction::Push,
        ),
        (SyncStage::Pushing, SyncEvent::Pushed) => (
            SmartSync { stage: SyncStage::Finished, result: SmartSyncResult { pushed: true, ..r } },
            SyncAction::Finish,
        ),
        _ => (SmartSync { stage: SyncStage::Finished, result: r }, SyncAction::Finish),
    }
}

/// What a smart sync reports, given whether a remote is configured,
/// whether it has updates after the fetch, and whether there are local
/// changes once the updates are pulled.
pub open spec fn sync_outcome(has_remote: bool, remote_updates: bool, local_changes: bool) -> SmartSyncResult {
    if !has_remote {
        SmartSyncResult { pulled: false, pushed: false, already_up_to_date: true }
    } else {
        SmartSyncResult {
            pulled: remote_updates,
            pushed: local_changes,
            already_up_to_date: !remote_updates,
        }
    }
}

/// A new sync, with nothing done.
pub open spec fn idle_sync() -> SmartSync {
    SmartSync {
        stage: SyncStage::Idle,
        result: SmartSyncResult { pulled: false, pushed: false, already_up_to_date: false },
    }
}

impl SmartSync {
    /// A new sync, with nothing done.
    pub fn new() -> (r: Self)
        ensures
            r == idle_sync(),
    {
        SmartSync { stage: SyncStage::Idle, result: SmartSyncResult::default() }
    }

    /// Takes an event and says what to do next.
    pub fn step(&mut self, event: SyncEvent) -> (action: SyncAction)
        ensures
            (*final(self), action) == sync_step(*old(self), event),
    {
        let (next, action) = advance(*self, event);
        *self = next;
        action
    }

    /// Whether the sync is over.
    pub fn is_finished(&self) -> (r: bool)
        ensures
            r == (self.stage == SyncStage::Finished),
    {
        match self.stage {
            SyncStage::Finished => true,
            _ => false,
        }
    }
}

impl GitSync {
    /// One step of a smart sync: the sync after `event`, and what the caller
    /// is to do next.
    pub fn smart_sync(&self, sync: SmartSync, event: SyncEvent) -> (r: (SmartSync, SyncAction))
        ensures
            r == sync_step(sync, event),
    {
        advance(sync, event)
    }
}

/// One step of a smart sync: the sync after `event`, and what the caller is
/// to do next.
pub fn advance(sync: SmartSync, event: SyncEvent) -> (r: (SmartSync, SyncAction))
    ensures
        r == sync_step(sync, event),
{
    let result = sync.result;
    let finished = (SmartSync { stage: SyncStage::Finished, result }, SyncAction::Finish);
    match sync.stage {
        SyncStage::Idle => match event {
            SyncEvent::Begin { has_remote } => {
                if has_remote {
                    (SmartSync { stage: SyncStage::Fetching, result }, SyncAction::Fetch)
                } else {
                    (
                        SmartSync {
                            stage: SyncStage::Finished,
                            result: SmartSyncResult {
                                pulled: result.pulled,
                                pushed: result.pushed,
                                already_up_to_date: true,
                            },
                        },
                        SyncAction::Finish,
                    )
                }
            },
            _ => finished,
        },
        SyncStage::Fetching => match event {
            SyncEvent::Fetched { remote_updates } => {
                if remote_updates {
                    (SmartSync { stage: SyncStage::Pulling, result }, SyncAction::Pull)
                } else {
                    (
                        SmartSync {
                            stage: SyncStage::Inspecting,
                            result: SmartSyncResult {
                                pulled: result.pulled,
                                pushed: result.pushed,
                                already_up_to_date: true,
                            },
                        },
                        SyncAction::Inspect,
                    )
                }
            },
            _ => finished,
        },
        SyncStage::Pulling => match event {
            SyncEvent::Pulled => (
                SmartSync {
                    stage: SyncStage::Inspecting,
                    result: SmartSyncResult {
                        pulled: true,
                        pushed: result.pushed,
                        already_up_to_date: result.already_up_to_date,
                    },
                },
                SyncAction::Inspect,
            ),
            _ => finished,
        },
        SyncStage::Inspecting => match event {
            SyncEvent::Inspected { local_changes } => {
                if local_changes {
                    (SmartSync { stage: SyncStage::Committing, result }, SyncAction::Commit)
                } else {
                    finished
                }
            },
            _ => finished,
        },
        SyncStage::Committing => match event {
            SyncEvent::Committed => (
                SmartSync { stage: SyncStage::Pushing, result },
                SyncAction::Push,
            ),
            _ => finished,
        },
        SyncStage::Pushing => match event {
            SyncEvent::Pushed => (
                SmartSync {
                    stage: SyncStage::Finished,
                    result: SmartSyncResult {
                        pulled: result.pulled,
                        pushed: true,
                        already_up_to_date: result.already_up_to_date,
                    },
                },
                SyncAction::Finish,
            ),
            _ => finished,
        },
        SyncStage::Finished => finished,
    }
}

/// The event that truthfully answers `action` in a repository whose remote
/// has updates or not after the fetch, and that has local changes or not
/// once the updates are pulled.
pub open spec fn answer(action: SyncAction, remote_updates: bool, local_changes: bool) -> SyncEvent {
    match action {
        SyncAction::Fetch => SyncEvent::Fetched { remote_updates },
        SyncAction::Pull => SyncEvent::Pulled,
        SyncAction::Inspect => SyncEvent::Inspected { local_changes },
        SyncAction::Commit => SyncEvent::Committed,
        SyncAction::Push => SyncEvent::Pushed,
        SyncAction::Finish => SyncEvent::Pushed,
    }
}

/// The sync after at most `fuel` more rounds in which the caller does what
/// it is told and reports back truthfully.
pub open spec fn run_sync(
    sync: SmartSync,
    action: SyncAction,
    remote_updates: bool,
    local_changes: bool,
    fuel: nat,
) -> SmartSync
    decreases fuel,
{
    if fuel == 0 || action == SyncAction::Finish {
        sync
    } else {
        let (next, next_action) = sync_step(sync, answer(action, remote_updates, local_changes));
        run_sync(next, next_action, remote_updates, local_changes, (fuel - 1) as nat)
    }
}

/// A smart sync whose steps are carried out faithfully ends within five
/// rounds, and reports: pulled exactly if the remote had updates, up to
/// date exactly if it had none, pushed exactly if there were local changes.
/// Without a remote it does nothing and reports that all is up to date.
pub proof fn lemma_smart_sync_outcome(has_remote: bool, remote_updates: bool, local_changes: bool)
    ensures
        ({
            let (first, action) = sync_step(idle_sync(), SyncEvent::Begin { has_remote });
            let end = run_sync(first, action, remote_updates, local_changes, 5);
            end.stage == SyncStage::Finished && end.result == sync_outcome(
                has_remote,
                remote_updates,
                local_changes,
            )
        }),
{
    reveal_with_fuel(run_sync, 6);
}

} // verus!
