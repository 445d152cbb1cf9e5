//! `git clone`: what to clone and where, the flags, and what they make of
//! the transfer.

use vstd::prelude::*;
use vstd::string::*;
use vstd::utf8::{decode_utf8, valid_utf8};
use crate::backend::{decode_strict, std_channel, tokio_channel};
use crate::channel::ChannelHelper;
use crate::error::{ErrorKind, GitError, GitErrorView};
use crate::refnames::{forced_tracking_refspec, forced_tracking_refspec_of};
use crate::repository::GitRepository;
use crate::sideband::ProgressMessage;
use crate::text::{
    copy_texts,
    last_segment,
    last_segment_of,
    strip_suffix_of,
    texts,
    without_suffix,
};

verus! {

/// Specifies details for a `git clone` operation.
pub struct CloneConfig {
    pub(crate) clone_dir_name: String,
    pub(crate) custom_name: bool,
    pub(crate) parent_path: std::path::PathBuf,
    pub(crate) url: String,
    pub(crate) flags: CloneFlagsInternal,
    pub(crate) sender: Option<ChannelHelper>,
}

/// Internal representation of clone flags, not intended for direct public
/// use.
pub(crate) struct CloneFlagsInternal {
    pub(crate) branch: Option<String>,
    pub(crate) depth: Option<usize>,
    pub(crate) single_branch: bool,
    pub(crate) bare: bool,
    pub(crate) recursive: Option<Vec<String>>,
}

/// Represents flags that can be applied to a `git clone` command.
pub enum CloneFlags {
    /// Corresponds to `--branch` or `-b`. `Some(branch_name)` specifies the
    /// branch to checkout. `None` uses the remote's default branch.
    ///
    /// Defaults to `None`.
    Branch(Option<String>),
    /// Corresponds to `--depth <depth>`. `Some(n)` creates a shallow clone
    /// with a history truncated to `n` commits. `None` implies a full clone.
    ///
    /// Defaults to `None`.
    Depth(Option<usize>),
    /// Corresponds to `--single-branch`. `true` clones only the history
    /// leading to the tip of a single branch (either the one specified by
    /// `--branch` or the remote's default). `false` clones all branches.
    ///
    /// Defaults to `false`.
    SingleBranch(bool),
    /// Corresponds to `--bare`. `true` creates a bare Git repository (no
    /// working directory). `false` creates a standard repository.
    ///
    /// Defaults to `false`.
    Bare(bool),
    /// Corresponds to `--recursive` or `--recurse-submodules[=<pathspec>]`.
    /// `Some(pathspecs)` initializes submodules matching the pathspecs. An
    /// empty vector initializes all submodules. `None` does not initialize
    /// submodules.
    ///
    /// Defaults to `None`.
    Recursive(Option<Vec<String>>),
}

/// A flag as plain values.
pub enum CloneFlagsView {
    Branch(Option<Seq<char>>),
    Depth(Option<usize>),
    SingleBranch(bool),
    Bare(bool),
    Recursive(Option<Seq<Seq<char>>>),
}

impl View for CloneFlags {
    type V = CloneFlagsView;

    open spec fn view(&self) -> CloneFlagsView {
        match self {
            CloneFlags::Branch(branch) => CloneFlagsView::Branch(
                match branch {
                    Some(branch) => Some(branch@),
                    None => None,
                },
            ),
            CloneFlags::Depth(depth) => CloneFlagsView::Depth(*depth),
            CloneFlags::SingleBranch(single) => CloneFlagsView::SingleBranch(*single),
            CloneFlags::Bare(bare) => CloneFlagsView::Bare(*bare),
            CloneFlags::Recursive(paths) => CloneFlagsView::Recursive(
                match paths {
                    Some(paths) => Some(texts(paths@)),
                    None => None,
                },
            ),
        }
    }
}

/// A clone's configuration as plain values.
pub struct CloneConfigView {
    pub url: Seq<char>,
    /// The directory's name as it was set or derived, before `.git` is added
    /// for a bare clone.
    pub clone_dir_name: Seq<char>,
    /// Whether the directory's name was set rather than derived from the
    /// URL.
    pub custom_name: bool,
    pub parent_path: std::path::PathBuf,
    pub branch: Option<Seq<char>>,
    pub depth: Option<usize>,
    pub single_branch: bool,
    pub bare: bool,
    pub recursive: Option<Seq<Seq<char>>>,
    /// Whether a channel for progress was asked for.
    pub progress: bool,
}

impl View for CloneConfig {
    type V = CloneConfigView;

    closed spec fn view(&self) -> CloneConfigView {
        CloneConfigView {
            url: self.url@,
            clone_dir_name: self.clone_dir_name@,
            custom_name: self.custom_name,
            parent_path: self.parent_path,
            branch: match self.flags.branch {
                Some(branch) => Some(branch@),
                None => None,
            },
            depth: self.flags.depth,
            single_branch: self.flags.single_branch,
            bare: self.flags.bare,
            recursive: match self.flags.recursive {
                Some(paths) => Some(texts(paths@)),
                None => None,
            },
            progress: self.sender is Some,
        }
    }
}

/// The name of the directory that a clone of `url` goes to: what follows the
/// last `/`, without a `.git` at its end.
pub open spec fn directory_of(url: Seq<char>) -> Seq<char> {
    without_suffix(last_segment(url, '/'), ".git"@)
}

/// The configuration with one flag set.
pub open spec fn with_flag(c: CloneConfigView, flag: CloneFlagsView) -> CloneConfigView {
    match flag {
        CloneFlagsView::Branch(branch) => CloneConfigView { branch, ..c },
        CloneFlagsView::Depth(depth) => CloneConfigView { depth, ..c },
        CloneFlagsView::SingleBranch(single_branch) => CloneConfigView { single_branch, ..c },
        CloneFlagsView::Bare(bare) => CloneConfigView { bare, ..c },
        CloneFlagsView::Recursive(recursive) => CloneConfigView { recursive, ..c },
    }
}

/// The directory's name that the clone is made in: for a bare clone the name
/// that was derived from the URL, with `.git` behind it. A name that was
/// set is taken as it is, bare clone or not.
pub open spec fn directory_name(c: CloneConfigView) -> Seq<char> {
    if c.bare && !c.custom_name {
        c.clone_dir_name + ".git"@
    } else {
        c.clone_dir_name
    }
}

impl CloneConfig {
    /// Creates a new `CloneConfig` with the repository URL and the parent
    /// directory for the clone.
    ///
    /// A new directory, named after the repository (e.g., "gittwo" from
    /// "https://github.com/psomani16k/gittwo.git"), will be created inside
    /// `parent_dir`. The repository will be cloned into this new directory.
    pub fn new(url: String, parent_dir: std::path::PathBuf) -> (config: Self)
        ensures
            config@ == (CloneConfigView {
                url: url@,
                clone_dir_name: directory_of(url@),
                custom_name: false,
                parent_path: parent_dir,
                branch: None,
                depth: None,
                single_branch: false,
                bare: false,
                recursive: None,
                progress: false,
            }),
    {
        let last = last_segment_of(url.as_str(), '/');
        let name = String::from_str(strip_suffix_of(last, ".git"));
        CloneConfig {
            clone_dir_name: name,
            custom_name: false,
            parent_path: parent_dir,
            url,
            flags: CloneFlagsInternal {
                branch: None,
                depth: None,
                single_branch: false,
                bare: false,
                recursive: None,
            },
            sender: None,
        }
    }

    /// Returns the URL of the repository to be cloned.
    pub fn get_url(&self) -> (url: &str)
        ensures
            url@ == self@.url,
    {
        self.url.as_str()
    }

    /// Returns the receiver end of a multi-producer, single-consumer (mpsc)
    /// channel. This channel is used to receive progress updates during the
    /// clone operation, similar to Git CLI output, with an associated index
    /// of each line.
    ///
    /// Progress is sent only once a receiver was made by this call, and is
    /// then sent whether or not it is received.
    pub fn get_update_channel(&mut self) -> (receiver: std::sync::mpsc::Receiver<(usize, String)>)
        ensures
            final(self)@ == (CloneConfigView { progress: true, ..old(self)@ }),
    {
        let (sender, receiver) = std_channel();
        self.sender = Some(ChannelHelper::StdChannel(sender));
        receiver
    }

    /// As `get_update_channel`, with an unbounded channel of tokio.
    pub fn get_tokio_update_channel(&mut self) -> (receiver: tokio::sync::mpsc::UnboundedReceiver<
        (usize, String),
    >)
        ensures
            final(self)@ == (CloneConfigView { progress: true, ..old(self)@ }),
    {
        let (sender, receiver) = tokio_channel();
        self.sender = Some(ChannelHelper::TokioChannel(sender));
        receiver
    }

    /// The sending half of the channel for progress, if one was asked for.
    pub fn sender(&self) -> (sender: &Option<ChannelHelper>)
        ensures
            sender is Some <==> self@.progress,
    {
        &self.sender
    }

    /// Returns the parent directory where the repository will be cloned.
    pub fn get_parent_path(&self) -> (path: &std::path::PathBuf)
        ensures
            *path == self@.parent_path,
    {
        &self.parent_path
    }

    /// Returns the name of the directory for the cloned repository.
    /// The full path will be `parent_path/clone_dir_name/`.
    pub fn get_clone_dir_name(&self) -> (name: String)
        ensures
            name@ == directory_name(self@),
    {
        let mut dir = self.clone_dir_name.clone();
        if self.flags.bare && !self.custom_name {
            dir.append(".git");
        }
        dir
    }

    /// Sets a custom name for the directory where the repository will be
    /// cloned. This overrides the default name derived from the repository
    /// URL.
    pub fn custom_clone_directory(&mut self, dir: String)
        ensures
            final(self)@ == (CloneConfigView {
                clone_dir_name: dir@,
                custom_name: true,
                ..old(self)@
            }),
    {
        self.clone_dir_name = dir;
        self.custom_name = true;
    }

    /// Configures a specific flag for the `git clone` operation.
    pub fn add_flag(&mut self, flag: CloneFlags) -> (config: &Self)
        ensures
            final(self)@ == with_flag(old(self)@, flag@),
            config@ == final(self)@,
    {
        match flag {
            CloneFlags::Branch(branch) => self.flags.branch = branch,
            CloneFlags::Depth(depth) => self.flags.depth = depth,
            CloneFlags::SingleBranch(single) => self.flags.single_branch = single,
            CloneFlags::Bare(bare) => self.flags.bare = bare,
            CloneFlags::Recursive(rec) => self.flags.recursive = rec,
        }
        self
    }
}

/// The branch that a remote calls its default, by what it advertises as its
/// HEAD: what follows the last `/` of the reference's name, and `main` where
/// the name is no valid UTF-8.
pub open spec fn default_branch(advertised: Seq<u8>) -> Seq<char> {
    if valid_utf8(advertised) {
        last_segment(decode_utf8(advertised), '/')
    } else {
        "main"@
    }
}

/// The remote's default branch, by the name of the reference that it
/// advertises as its HEAD.
pub fn default_branch_name(advertised: Vec<u8>) -> (branch: String)
    ensures
        branch@ == default_branch(advertised@),
{
    match decode_strict(advertised) {
        Ok(name) => String::from_str(last_segment_of(name.as_str(), '/')),
        Err(_) => String::from_str("main"),
    }
}

/// Which submodules a clone brings along.
#[derive(Clone, Debug, PartialEq, Eq)]
pub enum Submodules {
    /// None.
    Skip,
    /// Every one; that one of them fails is passed over.
    All,
    /// Those at the paths, in order; one that is not found or fails is
    /// passed over.
    Paths(Vec<String>),
}

/// A choice of submodules as plain values.
pub enum SubmodulesView {
    Skip,
    All,
    Paths(Seq<Seq<char>>),
}

impl View for Submodules {
    type V = SubmodulesView;

    open spec fn view(&self) -> SubmodulesView {
        match self {
            Submodules::Skip => SubmodulesView::Skip,
            Submodules::All => SubmodulesView::All,
            Submodules::Paths(paths) => SubmodulesView::Paths(texts(paths@)),
        }
    }
}

/// What a clone does, settled before the transfer begins.
#[derive(Clone, Debug, PartialEq, Eq)]
pub struct ClonePlan {
    /// Where to clone from.
    pub url: String,
    /// The name of the directory under the parent path.
    pub directory: String,
    /// The branch to check out.
    pub branch: String,
    /// To how many commits the history is cut, if it is cut.
    pub depth: Option<i32>,
    /// Whether the backend's way with tags stands; if not, no tag is
    /// downloaded on its own account.
    pub default_tags: bool,
    /// The one refspec that the remote `origin` is created with, in place of
    /// the backend's.
    pub refspec: Option<String>,
    /// Whether the repository has no working tree.
    pub bare: bool,
    pub submodules: Submodules,
    /// The line that announces the clone, with its index, where progress
    /// was asked for. It is the first line on the channel, before the
    /// transfer begins.
    pub announcement: Option<ProgressMessage>,
}

/// A plan as plain values.
pub struct ClonePlanView {
    pub url: Seq<char>,
    pub directory: Seq<char>,
    pub branch: Seq<char>,
    pub depth: Option<i32>,
    pub default_tags: bool,
    pub refspec: Option<Seq<char>>,
    pub bare: bool,
    pub submodules: SubmodulesView,
    pub announcement: Option<(nat, Seq<char>)>,
}

impl View for ClonePlan {
    type V = ClonePlanView;

    open spec fn view(&self) -> ClonePlanView {
        ClonePlanView {
            url: self.url@,
            directory: self.directory@,
            branch: self.branch@,
            depth: self.depth,
            default_tags: self.default_tags,
            refspec: match self.refspec {
                Some(refspec) => Some(refspec@),
                None => None,
            },
            bare: self.bare,
            submodules: self.submodules@,
            announcement: match self.announcement {
                Some(line) => Some(line@),
                None => None,
            },
        }
    }
}

/// The branch that a clone checks out: the one that the flag names, else
/// the remote's default.
pub open spec fn clone_branch(c: CloneConfigView, default_branch: Seq<char>) -> Seq<char> {
    match c.branch {
        Some(branch) => branch,
        None => default_branch,
    }
}

/// Whether a clone fetches the one branch only: with a depth, and with the
/// single-branch flag.
pub open spec fn narrowed(c: CloneConfigView) -> bool {
    c.depth is Some || c.single_branch
}

/// The index of the line that announces a clone. It lies before the first
/// index of the remote side's text and before those of the transfer.
pub const ANNOUNCEMENT_INDEX: usize = 0;

/// The line that announces a clone into `directory`, with its index.
pub open spec fn announcement(directory: Seq<char>) -> (nat, Seq<char>) {
    (ANNOUNCEMENT_INDEX as nat, "Cloning into '"@ + directory + "'..."@)
}

/// The line that announces a clone into `directory`, with its index.
pub fn announce(directory: &str) -> (line: ProgressMessage)
    ensures
        line@ == announcement(directory@),
        line.index == ANNOUNCEMENT_INDEX,
{
    let mut text = String::from_str("Cloning into '");
    text.append(directory);
    text.append("'...");
    ProgressMessage { index: ANNOUNCEMENT_INDEX, text }
}

/// The plan of a clone, by its configuration and the remote's default
/// branch.
///
/// The branch flag goes before the remote's default. A depth cuts the
/// history, as a 32-bit number, and a depth or the single-branch flag leave
/// the tags out and fetch the one branch only, into the tracking branch of
/// `origin`. An empty list of submodule paths means every submodule.
pub open spec fn plan_of(c: CloneConfigView, default_branch: Seq<char>) -> ClonePlanView {
    let branch = clone_branch(c, default_branch);
    ClonePlanView {
        url: c.url,
        directory: directory_name(c),
        branch,
        depth: match c.depth {
            Some(depth) => Some(depth as i32),
            None => None,
        },
        default_tags: !narrowed(c),
        refspec: if narrowed(c) {
            Some(forced_tracking_refspec("origin"@, branch))
        } else {
            None
        },
        bare: c.bare,
        submodules: match c.recursive {
            None => SubmodulesView::Skip,
            Some(paths) => if paths.len() == 0 {
                SubmodulesView::All
            } else {
                SubmodulesView::Paths(paths)
            },
        },
        announcement: if c.progress {
            Some(announcement(directory_name(c)))
        } else {
            None
        },
    }
}

/// The error of a clone through a handle that has a repository.
pub open spec fn clone_on_populated() -> GitErrorView {
    GitErrorView {
        kind: ErrorKind::Conflict,
        message: "git_clone() called on a pre-existing repository."@,
    }
}

impl CloneConfig {
    /// The plan of this clone, given the remote's default branch.
    pub fn plan(&self, default_branch: &str) -> (plan: ClonePlan)
        ensures
            plan@ == plan_of(self@, default_branch@),
    {
        let branch = match &self.flags.branch {
            Some(branch) => branch.clone(),
            None => String::from_str(default_branch),
        };
        let narrowed = self.flags.depth.is_some() || self.flags.single_branch;
        let depth = match self.flags.depth {
            Some(depth) => Some(#[verifier::truncate] (depth as i32)),
            None => None,
        };
        let refspec = if narrowed {
            Some(forced_tracking_refspec_of("origin", branch.as_str()))
        } else {
            None
        };
        let submodules = match &self.flags.recursive {
            None => Submodules::Skip,
            Some(paths) => if paths.len() == 0 {
                Submodules::All
            } else {
                Submodules::Paths(copy_texts(paths))
            },
        };
        let directory = self.get_clone_dir_name();
        let announcement = if self.sender.is_some() {
            Some(announce(directory.as_str()))
        } else {
            None
        };
        ClonePlan {
            url: self.url.clone(),
            directory,
            branch,
            depth,
            default_tags: !narrowed,
            refspec,
            bare: self.flags.bare,
            submodules,
            announcement,
        }
    }
}

impl GitRepository {
    /// Begins a clone: a handle that has a repository is refused, and is
    /// left as it is.
    pub fn begin_clone(&self) -> (r: Result<(), GitError>)
        ensures
            r is Ok <==> !self.populated(),
            r matches Err(e) ==> e@ == clone_on_populated(),
    {
        if self.is_valid() {
            return Err(
                GitError::new(
                    ErrorKind::Conflict,
                    "git_clone() called on a pre-existing repository.",
                ),
            );
        }
        Ok(())
    }
}

/// A depth that a 32-bit number holds is kept as it is.
pub proof fn lemma_depth_kept(c: CloneConfigView, default_branch: Seq<char>)
    requires
        c.depth matches Some(depth) && depth <= i32::MAX,
    ensures
        plan_of(c, default_branch).depth == Some(c.depth.unwrap() as i32),
        plan_of(c, default_branch).depth.unwrap() == c.depth.unwrap(),
        !plan_of(c, default_branch).default_tags,
        plan_of(c, default_branch).refspec is Some,
{
}

} // verus!
