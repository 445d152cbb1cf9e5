//! Configuration-driven commands over a git backend: the decisions of each
//! command are made here, on plain values, and are verified.

pub mod add_config;
pub mod backend;
pub mod channel;
pub mod checkout_config;
pub mod clone_config;
pub mod clone_progress;
pub mod commit_config;
pub mod credentials;
pub mod error;
pub mod fetch_config;
pub mod init_config;
pub mod progress;
pub mod pull_config;
pub mod push_config;
pub mod refnames;
pub mod remote_config;
pub mod repository;
pub mod resolution;
pub mod resolve;
pub mod restore_config;
pub mod sideband;
pub mod status;
pub mod text;
pub mod units;

pub use crate::add_config::{AddConfig, AddFlags};
pub use crate::checkout_config::{CheckoutConfig, CheckoutFlags};
pub use crate::clone_config::{CloneConfig, CloneFlags};
pub use crate::commit_config::{CommitConfig, CommitFlags};
pub use crate::credentials::CredType;
pub use crate::fetch_config::{FetchConfig, FetchFlags};
pub use crate::init_config::{InitConfig, InitFlags};
pub use crate::push_config::{PushConfig, PushFlags};
pub use crate::remote_config::{RemoteConfig, RemoteFlags, RemoteSubCommand};
pub use crate::repository::GitRepository;
