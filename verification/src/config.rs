//! The configuration that the engine runs with.

use crate::error::ConsensusError;
use crate::primitives::PoCGenesisConfiguration;
use std::sync::Arc;
use vstd::prelude::*;

verus! {

/// Errors of the node's client.
#[derive(Clone, Debug, PartialEq, Eq)]
pub enum ClientError {
    /// The runtime has no API of the version that the engine speaks.
    VersionInvalid(&'static str),
    /// An error of the node, as its text.
    Node(String),
    /// An error of the engine or of an importer.
    Consensus(ConsensusError),
}

/// A slot duration. Create with `get_or_compute`.
#[derive(Clone, Copy, Debug, PartialEq, Eq)]
pub struct Config {
    /// The configuration of the chain.
    pub genesis: PoCGenesisConfiguration,
}

/// Getting the configuration, in progress.
#[derive(Debug, PartialEq, Eq)]
pub enum ConfigState {
    /// The runtime is asked, at genesis, whether it has version one of the API.
    AskApi,
    /// The runtime is asked, at genesis, for the configuration.
    AskConfiguration,
    /// There is a configuration, or there is none to be had.
    Done(Result<Config, ClientError>),
}

impl Config {
    /// Either fetch the slot duration from disk or compute it from the genesis state. `stored` is
    /// what is on disk, if anything is: only where nothing is, is the runtime asked.
    pub fn get_or_compute(stored: Result<Option<PoCGenesisConfiguration>, ClientError>) -> (r:
        ConfigState)
        ensures
            r == after_disk(stored),
    {
        match stored {
            Ok(Some(genesis)) => ConfigState::Done(Ok(Config { genesis })),
            Ok(None) => ConfigState::AskApi,
            Err(e) => ConfigState::Done(Err(e)),
        }
    }

    /// The runtime is asked for the configuration only if it has version one of the API.
    /// `has_api_v1` is what it answered when it was asked for that.
    pub fn check_api(has_api_v1: Result<bool, String>) -> (r: ConfigState)
        ensures
            r == after_api(has_api_v1),
    {
        match has_api_v1 {
            Ok(supported) => if supported {
                ConfigState::AskConfiguration
            } else {
                ConfigState::Done(
                    Err(ClientError::VersionInvalid("Unsupported or invalid PoCApi version")),
                )
            },
            Err(text) => ConfigState::Done(Err(ClientError::Node(text))),
        }
    }

    /// Takes the configuration that the runtime answered with.
    pub fn computed(configuration: Result<PoCGenesisConfiguration, String>) -> (r: ConfigState)
        ensures
            r == after_configuration(configuration),
    {
        match configuration {
            Ok(genesis) => ConfigState::Done(Ok(Config { genesis })),
            Err(text) => ConfigState::Done(Err(ClientError::Node(text))),
        }
    }

    /// Get the inner slot duration, in milliseconds.
    pub fn slot_duration(&self) -> (r: u64)
        ensures
            r == self.genesis.slot_duration,
    {
        self.genesis.slot_duration
    }
}

impl core::ops::Deref for Config {
    type Target = PoCGenesisConfiguration;

    fn deref(&self) -> (r: &PoCGenesisConfiguration)
        ensures
            *r == self.genesis,
    {
        &self.genesis
    }
}

/// The state once the disk was looked at.
pub open spec fn after_disk(
    stored: Result<Option<PoCGenesisConfiguration>, ClientError>,
) -> ConfigState {
    match stored {
        Ok(Some(genesis)) => ConfigState::Done(Ok(Config { genesis })),
        Ok(None) => ConfigState::AskApi,
        Err(e) => ConfigState::Done(Err(e)),
    }
}

/// The state once the runtime was asked for its version of the API.
pub open spec fn after_api(has_api_v1: Result<bool, String>) -> ConfigState {
    match has_api_v1 {
        Ok(true) => ConfigState::AskConfiguration,
        Ok(false) => ConfigState::Done(
            Err(ClientError::VersionInvalid("Unsupported or invalid PoCApi version")),
        ),
        Err(text) => ConfigState::Done(Err(ClientError::Node(text))),
    }
}

/// The state once the runtime was asked for the configuration.
pub open spec fn after_configuration(
    configuration: Result<PoCGenesisConfiguration, String>,
) -> ConfigState {
    match configuration {
        Ok(genesis) => ConfigState::Done(Ok(Config { genesis })),
        Err(text) => ConfigState::Done(Err(ClientError::Node(text))),
    }
}

/// What the node answers while the configuration is got, if it is asked.
pub struct ConfigAnswers {
    /// What is on disk.
    pub stored: Result<Option<PoCGenesisConfiguration>, ClientError>,
    /// Whether the runtime has version one of the API.
    pub has_api_v1: Result<bool, String>,
    /// The configuration that the runtime has.
    pub configuration: Result<PoCGenesisConfiguration, String>,
}

/// How getting the configuration goes: the questions that the runtime is asked, in their order,
/// and what it comes to.
pub open spec fn config_run(state: ConfigState, answers: ConfigAnswers) -> (
    Seq<ConfigState>,
    Result<Config, ClientError>,
)
    decreases
            match state {
                ConfigState::AskApi => 2nat,
                ConfigState::AskConfiguration => 1nat,
                ConfigState::Done(_) => 0nat,
            },
{
    match state {
        ConfigState::AskApi => {
            let (asked, result) = config_run(after_api(answers.has_api_v1), answers);
            (seq![state] + asked, result)
        },
        ConfigState::AskConfiguration => {
            let (asked, result) = config_run(after_configuration(answers.configuration), answers);
            (seq![state] + asked, result)
        },
        ConfigState::Done(result) => (Seq::empty(), result),
    }
}

/// What is on disk comes first: where there is a configuration, or the disk fails, the runtime is
/// asked nothing. Else the runtime is asked for its version, and for the configuration only if the
/// version is right. The first failure is what is answered.
pub proof fn law_disk_then_version_then_configuration(answers: ConfigAnswers)
    ensures
        config_run(after_disk(answers.stored), answers) == (match (
            answers.stored,
            answers.has_api_v1,
            answers.configuration,
        ) {
            (Ok(Some(genesis)), _, _) => (
                Seq::<ConfigState>::empty(),
                Ok::<Config, ClientError>(Config { genesis }),
            ),
            (Err(e), _, _) => (Seq::<ConfigState>::empty(), Err::<Config, ClientError>(e)),
            (Ok(None), Err(text), _) => (
                seq![ConfigState::AskApi],
                Err::<Config, ClientError>(ClientError::Node(text)),
            ),
            (Ok(None), Ok(false), _) => (
                seq![ConfigState::AskApi],
                Err::<Config, ClientError>(
                    ClientError::VersionInvalid("Unsupported or invalid PoCApi version"),
                ),
            ),
            (Ok(None), Ok(true), Err(text)) => (
                seq![ConfigState::AskApi, ConfigState::AskConfiguration],
                Err::<Config, ClientError>(ClientError::Node(text)),
            ),
            (Ok(None), Ok(true), Ok(genesis)) => (
                seq![ConfigState::AskApi, ConfigState::AskConfiguration],
                Ok::<Config, ClientError>(Config { genesis }),
            ),
        }),
{
    reveal_with_fuel(config_run, 3);
    let (asked, _) = config_run(after_disk(answers.stored), answers);
    if answers.stored matches Ok(None) {
        if answers.has_api_v1 matches Ok(true) {
            assert(asked =~= seq![ConfigState::AskApi, ConfigState::AskConfiguration]);
        } else {
            assert(asked =~= seq![ConfigState::AskApi]);
        }
    }
}

/// State that must be shared between the import queue and the authoring logic. `T` is the tree
/// of epoch changes.
pub struct PoCLink<T> {
    /// The tree of epoch changes.
    pub epoch_changes: Arc<T>,
    /// The configuration.
    pub config: Config,
}

/// A link can be cloned. Both hold the same tree.
impl<T> Clone for PoCLink<T> {
    fn clone(&self) -> (r: Self)
        ensures
            r.epoch_changes == self.epoch_changes,
            r.config == self.config,
    {
        PoCLink { epoch_changes: self.epoch_changes.clone(), config: self.config }
    }
}

impl<T> PoCLink<T> {
    /// Links the tree of epoch changes and the configuration.
    pub fn new(epoch_changes: Arc<T>, config: Config) -> (r: PoCLink<T>)
        ensures
            r.epoch_changes == epoch_changes,
            r.config == config,
    {
        PoCLink { epoch_changes, config }
    }

    /// Get the epoch changes of this link.
    pub fn epoch_changes(&self) -> (r: &Arc<T>)
        ensures
            *r == self.epoch_changes,
    {
        &self.epoch_changes
    }

    /// Get the config of this link.
    pub fn config(&self) -> (r: &Config)
        ensures
            *r == self.config,
    {
        &self.config
    }
}

} // verus!
