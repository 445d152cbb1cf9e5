//! `git init`: where the repository is created, and how.

use vstd::prelude::*;
use vstd::string::*;
use crate::error::{ErrorKind, GitError, GitErrorView};
use crate::repository::GitRepository;

verus! {

/// Specifies a `git init`: the directory, and the flags.
pub struct InitConfig {
    dir: std::path::PathBuf,
    flags: InitFlagsInternal,
}

pub(crate) struct InitFlagsInternal {
    initial_branch: Option<String>,
    bare: bool,
    separate_git_dir: Option<std::path::PathBuf>,
}

/// The flags of a `git init`.
pub enum InitFlags {
    /// `--initial-branch`: the name of the first branch; `None` for the
    /// backend's.
    InitialBranch(Option<String>),
    /// `--bare`: a repository without a working tree.
    Bare(bool),
    /// `--separate-git-dir`: the other directory of the two that the
    /// repository and its working tree take.
    SeparateGitDir(std::path::PathBuf),
}

/// An init's configuration as plain values.
pub struct InitConfigView {
    pub dir: std::path::PathBuf,
    pub initial_branch: Option<Seq<char>>,
    pub bare: bool,
    pub separate_git_dir: Option<std::path::PathBuf>,
}

impl View for InitConfig {
    type V = InitConfigView;

    closed spec fn view(&self) -> InitConfigView {
        InitConfigView {
            dir: self.dir,
            initial_branch: match self.flags.initial_branch {
                Some(branch) => Some(branch@),
                None => None,
            },
            bare: self.flags.bare,
            separate_git_dir: self.flags.separate_git_dir,
        }
    }
}

/// What the backend is asked to create.
pub struct InitPlan {
    /// Where the repository is created.
    pub dir: std::path::PathBuf,
    pub bare: bool,
    /// The name of the first branch, where one is set.
    pub initial_head: Option<String>,
    /// The working tree's directory, where it is another than `dir`.
    pub workdir_path: Option<std::path::PathBuf>,
}

/// The error of an init through a handle that has a repository.
pub open spec fn init_on_populated() -> GitErrorView {
    GitErrorView {
        kind: ErrorKind::Conflict,
        message: "git_init() called on a pre-existing repository."@,
    }
}

impl InitConfig {
    pub fn new(dir: std::path::PathBuf) -> (config: Self)
        ensures
            config@ == (InitConfigView {
                dir,
                initial_branch: None,
                bare: false,
                separate_git_dir: None,
            }),
    {
        InitConfig {
            dir,
            flags: InitFlagsInternal { initial_branch: None, bare: false, separate_git_dir: None },
        }
    }

    pub fn get_dir(&self) -> (dir: &std::path::PathBuf)
        ensures
            *dir == self@.dir,
    {
        &self.dir
    }

    pub fn set_dir(&mut self, dir: std::path::PathBuf)
        ensures
            final(self)@ == (InitConfigView { dir, ..old(self)@ }),
    {
        self.dir = dir;
    }

    pub fn add_flag(&mut self, flag: InitFlags) -> (config: &Self)
        ensures
            final(self)@ == match flag {
                InitFlags::InitialBranch(branch) => InitConfigView {
                    initial_branch: match branch {
                        Some(branch) => Some(branch@),
                        None => None,
                    },
                    ..old(self)@
                },
                InitFlags::Bare(bare) => InitConfigView { bare, ..old(self)@ },
                InitFlags::SeparateGitDir(path) => InitConfigView {
                    separate_git_dir: Some(path),
                    ..old(self)@
                },
            },
            config@ == final(self)@,
    {
        match flag {
            InitFlags::InitialBranch(branch) => self.flags.initial_branch = branch,
            InitFlags::Bare(bare) => self.flags.bare = bare,
            InitFlags::SeparateGitDir(path) => self.flags.separate_git_dir = Some(path),
        };
        self
    }

    /// What the backend is asked to create.
    pub fn plan(self) -> (plan: InitPlan)
        ensures
            plan.dir == self@.dir,
            plan.bare == self@.bare,
            plan.workdir_path == self@.separate_git_dir,
            match plan.initial_head {
                Some(head) => self@.initial_branch == Some(head@),
                None => self@.initial_branch is None,
            },
    {
        let InitConfig { dir, flags } = self;
        let InitFlagsInternal { initial_branch, bare, separate_git_dir } = flags;
        InitPlan { dir, bare, initial_head: initial_branch, workdir_path: separate_git_dir }
    }
}

impl GitRepository {
    /// Begins an init: what the backend is asked to create. A handle that
    /// has a repository is refused, and keeps it.
    pub fn begin_init(&self, config: InitConfig) -> (r: Result<InitPlan, GitError>)
        ensures
            r is Ok <==> !self.populated(),
            r matches Ok(plan) ==> {
                &&& plan.dir == config@.dir
                &&& plan.bare == config@.bare
                &&& plan.workdir_path == config@.separate_git_dir
                &&& match plan.initial_head {
                    Some(head) => config@.initial_branch == Some(head@),
                    None => config@.initial_branch is None,
                }
            },
            r matches Err(e) ==> e@ == init_on_populated(),
    {
        if self.is_valid() {
            return Err(
                GitError::new(
                    ErrorKind::Conflict,
                    "git_init() called on a pre-existing repository.",
                ),
            );
        }
        Ok(config.plan())
    }
}

} // verus!
