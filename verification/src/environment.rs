//! Process environment configuration.
//!
//! The process driver reads the configuration values from its environment and
//! hands them in as plain strings; this type only carries them.

use vstd::prelude::*;

verus! {

/// The configuration the process runs under: where the database and the queue
/// store live.
pub struct LovedEnvironment {
    pub database_url: String,
    pub redis_url: String,
}

impl Default for LovedEnvironment {
    /// An environment with both addresses empty, to be initialized.
    fn default() -> (env: Self)
        ensures
            env.database_url@ == Seq::<char>::empty(),
            env.redis_url@ == Seq::<char>::empty(),
    {
        LovedEnvironment { database_url: String::new(), redis_url: String::new() }
    }
}

impl Clone for LovedEnvironment {
    fn clone(&self) -> (other: Self)
        ensures
            other.database_url@ == self.database_url@,
            other.redis_url@ == self.redis_url@,
    {
        LovedEnvironment {
            database_url: self.database_url.clone(),
            redis_url: self.redis_url.clone(),
        }
    }
}

impl LovedEnvironment {
    /// An environment initialized with the given addresses.
    pub fn new(database_url: String, redis_url: String) -> (env: LovedEnvironment)
        ensures
            env.database_url@ == database_url@,
            env.redis_url@ == redis_url@,
    {
        let mut env = LovedEnvironment::default();
        env.initialize(database_url, redis_url);
        env
    }

    /// Stores the given addresses, replacing whatever was held before.
    pub fn initialize(&mut self, database_url: String, redis_url: String)
        ensures
            final(self).database_url@ == database_url@,
            final(self).redis_url@ == redis_url@,
    {
        self.database_url = database_url;
        self.redis_url = redis_url;
    }
}

} // verus!
