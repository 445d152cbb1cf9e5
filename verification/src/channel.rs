//! The channel on which progress is delivered to whoever asked for it.

use vstd::prelude::*;
use vstd::string::*;
use crate::backend::{std_send, tokio_send};

verus! {

/// The sending half of a progress channel, of std or of tokio.
pub enum ChannelHelper {
    StdChannel(std::sync::mpsc::Sender<(usize, String)>),
    TokioChannel(tokio::sync::mpsc::UnboundedSender<(usize, String)>),
}

impl ChannelHelper {
    /// Hands a line with its index to the channel, without waiting, and
    /// tells whether the channel took it. A channel whose receiving half is
    /// gone takes nothing; the line is then dropped, which is no error.
    pub fn send(&self, message: (usize, String)) -> bool {
        match self {
            ChannelHelper::StdChannel(sender) => std_send(sender, message),
            ChannelHelper::TokioChannel(sender) => tokio_send(sender, message),
        }
    }
}

/// Hands a line to the channel if there is one, and tells whether a channel
/// took it. Without a channel nothing is sent.
pub fn deliver(channel: &Option<ChannelHelper>, message: (usize, String)) -> (taken: bool)
    ensures
        channel is None ==> !taken,
{
    match channel {
        Some(channel) => channel.send(message),
        None => false,
    }
}

} // verus!
