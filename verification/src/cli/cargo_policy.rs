//! The policy under which Cargo is run.

use crate::text::texts;
use vstd::prelude::*;

verus! {

/// How Cargo may reach the network and its lock file, and what else is handed to it.
#[derive(Debug, PartialEq, Eq)]
pub struct CargoPolicy {
    /// Whether the network is off limits.
    pub offline: bool,
    /// Whether the lock file must not change.
    pub locked: bool,
    /// Whether both hold.
    pub frozen: bool,
    /// Further arguments.
    pub extra_args: Vec<String>,
}

impl CargoPolicy {
    /// The policy of explicit flags. A frozen one is offline and locked too.
    pub fn explicit(offline: bool, locked: bool, frozen: bool, extra_args: Vec<String>) -> (policy: Self)
        ensures
            policy == (CargoPolicy { offline: offline || frozen, locked: locked || frozen, frozen, extra_args }),
    {
        let mut policy = CargoPolicy { offline, locked, frozen, extra_args };
        policy.normalize();
        policy
    }

    /// The policy of resolved flags, with the arguments of the command line. The environment's arguments only count
    /// where the command line has none.
    pub fn from_sources(
        offline: bool,
        locked: bool,
        frozen: bool,
        cli_cargo_args: Vec<String>,
        cli_passthrough_args: Vec<String>,
        env_cargo_args: Vec<String>,
    ) -> (policy: Self)
        ensures
            policy.offline == (offline || frozen),
            policy.locked == (locked || frozen),
            policy.frozen == frozen,
            texts(policy.extra_args@) == if cli_cargo_args@.len() + cli_passthrough_args@.len() == 0 {
                texts(env_cargo_args@)
            } else {
                texts(cli_cargo_args@) + texts(cli_passthrough_args@)
            },
    {
        let ghost own = cli_cargo_args@;
        let mut given: Vec<String> = cli_cargo_args;
        let mut passed: Vec<String> = cli_passthrough_args;
        given.append(&mut passed);
        proof {
            assert(texts(given@) =~= texts(own) + texts(cli_passthrough_args@));
        }
        let extra_args: Vec<String> = if given.len() == 0 {
            env_cargo_args
        } else {
            given
        };
        CargoPolicy::explicit(offline, locked, frozen, extra_args)
    }

    /// Draws the consequences of a frozen policy.
    fn normalize(&mut self)
        ensures
            *final(self) == (CargoPolicy {
                offline: old(self).offline || old(self).frozen,
                locked: old(self).locked || old(self).frozen,
                ..*old(self)
            }),
    {
        if self.frozen {
            self.offline = true;
            self.locked = true;
        }
    }
}

} // verus!
