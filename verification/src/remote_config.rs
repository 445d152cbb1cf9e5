//! `git remote`: adding a remote, removing one, and setting the branch that
//! a remote's HEAD stands for.

use vstd::prelude::*;
use vstd::string::*;
use crate::backend::{debug_quoted, debug_text};
use crate::error::{missing_repository, ErrorKind, GitError, GitErrorView};
use crate::refnames::{forced_tracking_refspec, forced_tracking_refspec_of};
use crate::repository::GitRepository;
use crate::text::texts;

verus! {

/// A struct used to specify various details about the `git remote` command.
pub struct RemoteConfig {
    subcommand: Option<RemoteSubCommand>,
    flags: RemoteFlagsInternal,
}

#[derive(Debug, Clone)]
pub enum RemoteSubCommand {
    /// Set the `add` subcommand to the RemoteConfig.
    /// Takes two String inputs of remote name and remote url in this order.
    Add(String, String),
    /// Set the `remove` subcommand to the RemoteConfig.
    /// Takes the name of the remote to be removed as the input.
    Remove(String),
    /// Set the `set-head` subcommand to the RemoteConfig.
    /// Takes two inputs of remote name and an optional branch in this order.
    /// Without a branch and without the delete flag nothing is done.
    SetHead(String, Option<String>),
}

pub(crate) struct RemoteFlagsInternal {
    track: Option<Vec<String>>,
    delete: bool,
}

#[derive(Clone, Debug)]
pub enum RemoteFlags {
    /// `-t <branch>` or `--track <branch>` flag for `git remote add`.
    /// Pass in all the branch names into the vector for tracking.
    Track(Vec<String>),
    /// `-d` or `--delete` flag for `git remote set-head`.
    /// Pass in true to set the flag and false to unset it.
    /// Defaults to false.
    Delete(bool),
}

/// A subcommand as plain values.
pub enum SubCommandView {
    Add(Seq<char>, Seq<char>),
    Remove(Seq<char>),
    SetHead(Seq<char>, Option<Seq<char>>),
}

impl View for RemoteSubCommand {
    type V = SubCommandView;

    open spec fn view(&self) -> SubCommandView {
        match self {
            RemoteSubCommand::Add(name, url) => SubCommandView::Add(name@, url@),
            RemoteSubCommand::Remove(name) => SubCommandView::Remove(name@),
            RemoteSubCommand::SetHead(name, branch) => SubCommandView::SetHead(
                name@,
                match branch {
                    Some(branch) => Some(branch@),
                    None => None,
                },
            ),
        }
    }
}

/// A flag as plain values.
pub enum RemoteFlagsView {
    Track(Seq<Seq<char>>),
    Delete(bool),
}

impl View for RemoteFlags {
    type V = RemoteFlagsView;

    open spec fn view(&self) -> RemoteFlagsView {
        match self {
            RemoteFlags::Track(branches) => RemoteFlagsView::Track(texts(branches@)),
            RemoteFlags::Delete(delete) => RemoteFlagsView::Delete(*delete),
        }
    }
}

/// A configuration as plain values.
pub struct RemoteConfigView {
    pub subcommand: Option<SubCommandView>,
    pub track: Option<Seq<Seq<char>>>,
    pub delete: bool,
}

impl View for RemoteConfig {
    type V = RemoteConfigView;

    closed spec fn view(&self) -> RemoteConfigView {
        RemoteConfigView {
            subcommand: match self.subcommand {
                Some(subcommand) => Some(subcommand@),
                None => None,
            },
            track: match self.flags.track {
                Some(branches) => Some(texts(branches@)),
                None => None,
            },
            delete: self.flags.delete,
        }
    }
}

/// The items of a list as `{:?}` writes them: each between double quotes,
/// with a comma and a blank between two.
pub open spec fn debug_items(items: Seq<Seq<char>>) -> Seq<char>
    decreases items.len(),
{
    if items.len() == 0 {
        Seq::empty()
    } else if items.len() == 1 {
        debug_text(items[0])
    } else {
        debug_items(items.drop_last()) + ", "@ + debug_text(items.last())
    }
}

/// A flag as it is written in a message.
pub open spec fn flag_text(flag: RemoteFlagsView) -> Seq<char> {
    match flag {
        RemoteFlagsView::Track(branches) => "--track ["@ + debug_items(branches) + "]"@,
        RemoteFlagsView::Delete(delete) => "--delete "@ + if delete {
            "true"@
        } else {
            "false"@
        },
    }
}

/// A subcommand, or the lack of one, as `{:?}` writes it.
pub open spec fn subcommand_text(subcommand: Option<SubCommandView>) -> Seq<char> {
    match subcommand {
        None => "None"@,
        Some(SubCommandView::Add(name, url)) => "Some(Add("@ + debug_text(name) + ", "@
            + debug_text(url) + "))"@,
        Some(SubCommandView::Remove(name)) => "Some(Remove("@ + debug_text(name) + "))"@,
        Some(SubCommandView::SetHead(name, None)) => "Some(SetHead("@ + debug_text(name)
            + ", None))"@,
        Some(SubCommandView::SetHead(name, Some(branch))) => "Some(SetHead("@ + debug_text(name)
            + ", Some("@ + debug_text(branch) + ")))"@,
    }
}

/// The error of a flag that the subcommand does not take.
pub open spec fn no_such_flag(flag: RemoteFlagsView, subcommand: Option<SubCommandView>)
    -> GitErrorView {
    GitErrorView {
        kind: ErrorKind::Invalid,
        message: "No flag '"@ + flag_text(flag) + "' for subcommand '"@ + subcommand_text(
            subcommand,
        ) + "'."@,
    }
}

/// Whether the subcommand takes the flag: `add` takes `--track`, `set-head`
/// takes `--delete`, and nothing else goes together.
pub open spec fn takes_flag(subcommand: Option<SubCommandView>, flag: RemoteFlagsView) -> bool {
    match subcommand {
        Some(SubCommandView::Add(_, _)) => flag is Track,
        Some(SubCommandView::SetHead(_, _)) => flag is Delete,
        _ => false,
    }
}

/// The configuration with a flag that its subcommand takes.
pub open spec fn with_remote_flag(c: RemoteConfigView, flag: RemoteFlagsView) -> RemoteConfigView {
    match flag {
        RemoteFlagsView::Track(branches) => RemoteConfigView { track: Some(branches), ..c },
        RemoteFlagsView::Delete(delete) => RemoteConfigView { delete, ..c },
    }
}

/// A flag as it is written in a message.
pub fn flag_text_of(flag: &RemoteFlags) -> (text: String)
    ensures
        text@ == flag_text(flag@),
{
    match flag {
        RemoteFlags::Track(branches) => {
            let mut text = String::from_str("--track [");
            let ghost head = text@;
            let mut i: usize = 0;
            proof {
                assert(texts(branches@).take(0) =~= Seq::empty());
            }
            while i < branches.len()
                invariant
                    i <= branches@.len(),
                    head == "--track ["@,
                    text@ == head + debug_items(texts(branches@).take(i as int)),
                decreases branches@.len() - i,
            {
                if i > 0 {
                    text.append(", ");
                }
                let quoted = debug_quoted(branches[i].as_str());
                text.append(quoted.as_str());
                proof {
                    let all = texts(branches@);
                    assert(all.take(i + 1).drop_last() =~= all.take(i as int));
                    assert(all.take(i + 1).last() == branches@[i as int]@);
                    assert(text@ =~= head + debug_items(all.take(i + 1)));
                }
                i = i + 1;
            }
            proof {
                assert(texts(branches@).take(i as int) =~= texts(branches@));
            }
            text.append("]");
            text
        },
        RemoteFlags::Delete(delete) => {
            let mut text = String::from_str("--delete ");
            if *delete {
                text.append("true");
            } else {
                text.append("false");
            }
            text
        },
    }
}

impl RemoteFlags {
    /// The flag as it is written in a message: `--track` with the list of
    /// the branches, or `--delete` with `true` or `false`.
    pub fn to_string(&self) -> (text: String)
        ensures
            text@ == flag_text(self@),
    {
        flag_text_of(self)
    }
}

/// A subcommand, or the lack of one, as `{:?}` writes it.
pub fn subcommand_text_of(subcommand: &Option<RemoteSubCommand>) -> (text: String)
    ensures
        text@ == subcommand_text(
            match subcommand {
                Some(subcommand) => Some(subcommand@),
                None => None,
            },
        ),
{
    match subcommand {
        None => String::from_str("None"),
        Some(RemoteSubCommand::Add(name, url)) => {
            let mut text = String::from_str("Some(Add(");
            text.append(debug_quoted(name.as_str()).as_str());
            text.append(", ");
            text.append(debug_quoted(url.as_str()).as_str());
            text.append("))");
            text
        },
        Some(RemoteSubCommand::Remove(name)) => {
            let mut text = String::from_str("Some(Remove(");
            text.append(debug_quoted(name.as_str()).as_str());
            text.append("))");
            text
        },
        Some(RemoteSubCommand::SetHead(name, None)) => {
            let mut text = String::from_str("Some(SetHead(");
            text.append(debug_quoted(name.as_str()).as_str());
            text.append(", None))");
            text
        },
        Some(RemoteSubCommand::SetHead(name, Some(branch))) => {
            let mut text = String::from_str("Some(SetHead(");
            text.append(debug_quoted(name.as_str()).as_str());
            text.append(", Some(");
            text.append(debug_quoted(branch.as_str()).as_str());
            text.append(")))");
            text
        },
    }
}

impl RemoteConfig {
    /// Creates a RemoteConfig object with the passed subcommand.
    pub fn new(subcommand: Option<RemoteSubCommand>) -> (config: Self)
        ensures
            config@ == (RemoteConfigView {
                subcommand: match subcommand {
                    Some(subcommand) => Some(subcommand@),
                    None => None,
                },
                track: None,
                delete: false,
            }),
    {
        RemoteConfig { subcommand, flags: RemoteFlagsInternal { track: None, delete: false } }
    }

    /// Set a subcommand to the config.
    /// Pass `Option::None` to unset any previously set subcommands.
    ///
    /// Setting a subcommand resets any flags applied previously.
    pub fn set_subcommand(&mut self, subcommand: Option<RemoteSubCommand>)
        ensures
            final(self)@ == (RemoteConfigView {
                subcommand: match subcommand {
                    Some(subcommand) => Some(subcommand@),
                    None => None,
                },
                track: None,
                delete: false,
            }),
    {
        self.subcommand = subcommand;
        self.flags = RemoteFlagsInternal { track: None, delete: false };
    }

    /// Whether a subcommand is set.
    pub fn has_subcommand(&self) -> (has: bool)
        ensures
            has == (self@.subcommand is Some),
    {
        self.subcommand.is_some()
    }

    /// Set a flag to the config.
    /// Sets the flag if it is valid for a given subcommand, else returns an
    /// error and leaves the config as it is.
    pub fn add_flag(&mut self, flag: RemoteFlags) -> (r: Result<(), GitError>)
        ensures
            r is Ok <==> takes_flag(old(self)@.subcommand, flag@),
            r is Ok ==> final(self)@ == with_remote_flag(old(self)@, flag@),
            r matches Err(e) ==> final(self)@ == old(self)@ && e@ == no_such_flag(
                flag@,
                old(self)@.subcommand,
            ),
    {
        let takes = match &self.subcommand {
            Some(RemoteSubCommand::Add(_, _)) => match &flag {
                RemoteFlags::Track(_) => true,
                _ => false,
            },
            Some(RemoteSubCommand::SetHead(_, _)) => match &flag {
                RemoteFlags::Delete(_) => true,
                _ => false,
            },
            _ => false,
        };
        if !takes {
            let mut message = String::from_str("No flag '");
            message.append(flag_text_of(&flag).as_str());
            message.append("' for subcommand '");
            message.append(subcommand_text_of(&self.subcommand).as_str());
            message.append("'.");
            return Err(GitError { kind: ErrorKind::Invalid, message });
        }
        match flag {
            RemoteFlags::Track(tracking_branches) => {
                self.flags.track = Some(tracking_branches);
            },
            RemoteFlags::Delete(delete) => {
                self.flags.delete = delete;
            },
        }
        Ok(())
    }
}

/// One thing that `git remote` has the backend do.
#[derive(Clone, Debug, PartialEq, Eq)]
pub enum RemoteAction {
    /// Add the remote, with the backend's fetch refspec.
    Create { name: String, url: String },
    /// Remove every value of the configuration's entry `key`.
    ClearEntry { key: String },
    /// Add a fetch refspec to the remote.
    AddFetch { remote: String, refspec: String },
    /// Remove the remote and what belongs to it.
    Remove { name: String },
    /// Make `name` a symbolic reference to `target`, in place of whatever
    /// has that name, with `log` as the reflog's message.
    SetSymbolic { name: String, target: String, log: String },
    /// Delete the reference if there is one.
    DeleteReference { name: String },
}

/// An action as plain values.
pub enum RemoteActionView {
    Create { name: Seq<char>, url: Seq<char> },
    ClearEntry { key: Seq<char> },
    AddFetch { remote: Seq<char>, refspec: Seq<char> },
    Remove { name: Seq<char> },
    SetSymbolic { name: Seq<char>, target: Seq<char>, log: Seq<char> },
    DeleteReference { name: Seq<char> },
}

impl View for RemoteAction {
    type V = RemoteActionView;

    open spec fn view(&self) -> RemoteActionView {
        match self {
            RemoteAction::Create { name, url } => RemoteActionView::Create {
                name: name@,
                url: url@,
            },
            RemoteAction::ClearEntry { key } => RemoteActionView::ClearEntry { key: key@ },
            RemoteAction::AddFetch { remote, refspec } => RemoteActionView::AddFetch {
                remote: remote@,
                refspec: refspec@,
            },
            RemoteAction::Remove { name } => RemoteActionView::Remove { name: name@ },
            RemoteAction::SetSymbolic { name, target, log } => RemoteActionView::SetSymbolic {
                name: name@,
                target: target@,
                log: log@,
            },
            RemoteAction::DeleteReference { name } => RemoteActionView::DeleteReference {
                name: name@,
            },
        }
    }
}

/// The actions of a list as plain values.
pub open spec fn action_views(actions: Seq<RemoteAction>) -> Seq<RemoteActionView> {
    Seq::new(actions.len(), |i: int| actions[i]@)
}

/// The key of a remote's fetch refspecs in the configuration.
pub open spec fn fetch_key(remote: Seq<char>) -> Seq<char> {
    "remote."@ + remote + ".fetch"@
}

/// The reference that stands for a remote's HEAD.
pub open spec fn remote_head(remote: Seq<char>) -> Seq<char> {
    "refs/remote/"@ + remote + "/HEAD"@
}

/// The reference of a remote's branch that its HEAD is pointed at.
pub open spec fn remote_head_target(remote: Seq<char>, branch: Seq<char>) -> Seq<char> {
    "refs/remote/"@ + remote + "/"@ + branch
}

/// The fetch refspecs of the tracked branches, one for each, in order.
pub open spec fn track_actions(remote: Seq<char>, branches: Seq<Seq<char>>) -> Seq<
    RemoteActionView,
> {
    Seq::new(
        branches.len(),
        |i: int|
            RemoteActionView::AddFetch {
                remote,
                refspec: forced_tracking_refspec(remote, branches[i]),
            },
    )
}

/// What a subcommand has the backend do, in order; any step that fails
/// ends the command.
///
/// `add` adds the remote; with `--track` its fetch refspecs are then
/// replaced by one for each tracked branch. `remove` removes the remote.
/// `set-head` without `--delete` points the remote's HEAD at the branch, if
/// one is given; with `--delete` it deletes the remote's HEAD, if there is
/// one.
pub open spec fn remote_plan(
    subcommand: SubCommandView,
    track: Option<Seq<Seq<char>>>,
    delete: bool,
) -> Seq<RemoteActionView> {
    match subcommand {
        SubCommandView::Add(name, url) => seq![RemoteActionView::Create { name, url }] + (
        match track {
            Some(branches) => seq![RemoteActionView::ClearEntry { key: fetch_key(name) }]
                + track_actions(name, branches),
            None => Seq::empty(),
        }),
        SubCommandView::Remove(name) => seq![RemoteActionView::Remove { name }],
        SubCommandView::SetHead(remote, branch) => if !delete && branch is Some {
            seq![
                RemoteActionView::SetSymbolic {
                    name: remote_head(remote),
                    target: remote_head_target(remote, branch.unwrap()),
                    log: "set remote HEAD"@,
                },
            ]
        } else if delete {
            seq![RemoteActionView::DeleteReference { name: remote_head(remote) }]
        } else {
            Seq::empty()
        },
    }
}

impl RemoteConfig {
    /// What the command has the backend do, in order. A configuration
    /// without a subcommand has no plan.
    pub fn plan(&self) -> (actions: Vec<RemoteAction>)
        requires
            self@.subcommand is Some,
        ensures
            action_views(actions@) == remote_plan(
                self@.subcommand.unwrap(),
                self@.track,
                self@.delete,
            ),
    {
        let mut actions: Vec<RemoteAction> = Vec::new();
        match &self.subcommand {
            Some(RemoteSubCommand::Add(name, url)) => {
                actions.push(RemoteAction::Create { name: name.clone(), url: url.clone() });
                match &self.flags.track {
                    Some(branches) => {
                        let mut key = String::from_str("remote.");
                        key.append(name.as_str());
                        key.append(".fetch");
                        actions.push(RemoteAction::ClearEntry { key });
                        let mut i: usize = 0;
                        while i < branches.len()
                            invariant
                                i <= branches@.len(),
                                actions@.len() == 2 + i,
                                actions@[0]@ == (RemoteActionView::Create {
                                    name: name@,
                                    url: url@,
                                }),
                                actions@[1]@ == (RemoteActionView::ClearEntry {
                                    key: fetch_key(name@),
                                }),
                                forall|j: int|
                                    0 <= j < i ==> (#[trigger] actions@[2 + j])@ == (
                                    RemoteActionView::AddFetch {
                                        remote: name@,
                                        refspec: forced_tracking_refspec(name@, branches@[j]@),
                                    }),
                            decreases branches@.len() - i,
                        {
                            let refspec = forced_tracking_refspec_of(
                                name.as_str(),
                                branches[i].as_str(),
                            );
                            actions.push(RemoteAction::AddFetch { remote: name.clone(), refspec });
                            i = i + 1;
                        }
                        proof {
                            let expected = remote_plan(
                                self@.subcommand.unwrap(),
                                self@.track,
                                self@.delete,
                            );
                            assert(expected.len() == actions@.len());
                            assert forall|j: int| 0 <= j < actions@.len() implies action_views(
                                actions@,
                            )[j] == expected[j] by {
                                if j >= 2 {
                                    assert(actions@[2 + (j - 2)]@ == expected[j]);
                                }
                            }
                            assert(action_views(actions@) =~= expected);
                        }
                    },
                    None => {
                        assert(action_views(actions@) =~= remote_plan(
                            self@.subcommand.unwrap(),
                            self@.track,
                            self@.delete,
                        ));
                    },
                }
            },
            Some(RemoteSubCommand::Remove(name)) => {
                actions.push(RemoteAction::Remove { name: name.clone() });
                assert(action_views(actions@) =~= remote_plan(
                    self@.subcommand.unwrap(),
                    self@.track,
                    self@.delete,
                ));
            },
            Some(RemoteSubCommand::SetHead(remote, branch)) => {
                let mut name = String::from_str("refs/remote/");
                name.append(remote.as_str());
                name.append("/HEAD");
                match branch {
                    Some(branch) if !self.flags.delete => {
                        let mut target = String::from_str("refs/remote/");
                        target.append(remote.as_str());
                        target.append("/");
                        target.append(branch.as_str());
                        actions.push(
                            RemoteAction::SetSymbolic {
                                name,
                                target,
                                log: String::from_str("set remote HEAD"),
                            },
                        );
                    },
                    _ => {
                        if self.flags.delete {
                            actions.push(RemoteAction::DeleteReference { name });
                        }
                    },
                }
                assert(action_views(actions@) =~= remote_plan(
                    self@.subcommand.unwrap(),
                    self@.track,
                    self@.delete,
                ));
            },
            None => {},
        }
        actions
    }
}

impl GitRepository {
    /// Begins a `git remote`: what the backend is to do, in order. A handle
    /// without a repository is refused. Listing the remotes, which is what
    /// the command does without a subcommand, is not provided.
    pub fn begin_remote(&self, config: &RemoteConfig) -> (r: Result<Vec<RemoteAction>, GitError>)
        requires
            self.populated() ==> config@.subcommand is Some,
        ensures
            r is Ok <==> self.populated(),
            r matches Ok(actions) ==> action_views(actions@) == remote_plan(
                config@.subcommand.unwrap(),
                config@.track,
                config@.delete,
            ),
            r matches Err(e) ==> e@ == missing_repository(),
    {
        if !self.is_valid() {
            return Err(GitError::missing_repository());
        }
        Ok(config.plan())
    }
}

} // verus!
