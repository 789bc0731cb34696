//! The configuration a session is started with, and the rules it must meet.

use vstd::prelude::*;
use crate::score::Score;

verus! {

/// How stored vectors are scored against a query vector. Whatever the
/// choice, a higher score means a closer match: the two distances are turned
/// into scores by `1 / (1 + distance)`.
#[derive(Clone, Copy, Debug, PartialEq, Eq, Structural)]
pub enum RankingStrategy {
    Cosine,
    Euclidean,
    Manhattan,
    Dot,
}

/// Which embedding model to load. The library checks it and hands it on
/// unchanged.
#[derive(Clone, Debug)]
pub struct EmbedAnythingConfig {
    pub model_architecture: String,
    pub model_id: String,
    pub revision: Option<String>,
    pub batch_size: Option<usize>,
}

/// Everything a session needs to start.
#[derive(Clone, Debug)]
pub struct GlobalConfig {
    pub db_file_path: String,
    pub ranking: RankingStrategy,
    pub embedding: EmbedAnythingConfig,
    pub threshold: Score,
    pub limit: u32,
}

/// Why a configuration is turned down.
#[derive(Clone, Copy, Debug, PartialEq, Eq, Structural)]
pub enum ConfigError {
    /// The text could not be read as a configuration at all.
    Malformed,
    /// The threshold is an infinity or not a number.
    ThresholdNotFinite,
    /// The threshold is finite but lies outside zero to one.
    ThresholdOutOfRange,
    /// The limit is zero.
    ZeroLimit,
    /// A batch size is given and is zero.
    ZeroBatchSize,
}

impl EmbedAnythingConfig {
    /// A batch size, where one is given, is positive.
    pub open spec fn valid(&self) -> bool {
        self.batch_size != Some(0usize)
    }
}

impl GlobalConfig {
    /// The first rule that the configuration breaks, if any. The rules are
    /// tried in the order of the fields they concern.
    pub open spec fn defect(&self) -> Option<ConfigError> {
        if !self.threshold.finite() {
            Some(ConfigError::ThresholdNotFinite)
        } else if !self.threshold.unit() {
            Some(ConfigError::ThresholdOutOfRange)
        } else if self.limit == 0 {
            Some(ConfigError::ZeroLimit)
        } else if !self.embedding.valid() {
            Some(ConfigError::ZeroBatchSize)
        } else {
            None
        }
    }

    /// The configuration breaks no rule.
    pub open spec fn valid(&self) -> bool {
        self.defect() is None
    }

    /// Checks the configuration against the rules.
    pub fn validate(&self) -> (outcome: Result<(), ConfigError>)
        ensures
            match self.defect() {
                Some(error) => outcome == Err::<(), ConfigError>(error),
                None => outcome is Ok,
            },
    {
        if !self.threshold.is_finite() {
            return Err(ConfigError::ThresholdNotFinite);
        }
        if !self.threshold.in_unit_interval() {
            return Err(ConfigError::ThresholdOutOfRange);
        }
        if self.limit == 0 {
            return Err(ConfigError::ZeroLimit);
        }
        match self.embedding.batch_size {
            Some(size) => {
                if size == 0 {
                    return Err(ConfigError::ZeroBatchSize);
                }
            },
            None => {},
        }
        Ok(())
    }
}

/// A valid configuration has a finite threshold from zero to one, room for
/// at least one result, and no empty batch.
pub proof fn valid_means(config: GlobalConfig)
    ensures
        config.valid() <==> (config.threshold.finite() && config.threshold.unit() && config.limit
            > 0 && config.embedding.batch_size != Some(0usize)),
{
}

} // verus!
