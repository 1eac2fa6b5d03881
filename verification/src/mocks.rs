//! In-memory collaborators of the core: the agent registry that names
//! registered agents, and the uptime oracle that reports a lifetime score.
//! The negotiation ledger and the escrow depend on them only through these
//! interfaces; an empty name or a low score makes an agent ineligible.

use std::collections::HashMap;

use vstd::prelude::*;

use crate::types::{BoardError, LifetimeInfo};

verus! {

broadcast use vstd::std_specs::hash::group_hash_axioms;

/// The agent registry: one name per registered agent account.
pub struct BondRegistryMock {
    pub owner: u64,
    pub names: HashMap<u64, Vec<u8>>,
}

impl BondRegistryMock {
    /// The registered name of an agent; empty when unregistered.
    pub open spec fn name_of(self, agent: u64) -> Seq<u8> {
        if self.names@.contains_key(agent) {
            self.names@[agent]@
        } else {
            Seq::empty()
        }
    }

    /// An agent counts as registered exactly when its name is nonempty.
    pub open spec fn registered(self, agent: u64) -> bool {
        self.name_of(agent).len() > 0
    }

    pub fn init(caller: u64) -> (r: BondRegistryMock)
        ensures
            r.owner == caller,
            forall|a: u64| !r.registered(a),
    {
        BondRegistryMock { owner: caller, names: HashMap::new() }
    }

    /// Owner-only: records an agent's name.
    pub fn set_agent_name(&mut self, caller: u64, agent: u64, name: Vec<u8>) -> (r: Result<
        (),
        BoardError,
    >)
        ensures
            match r {
                Ok(_) => {
                    &&& caller == old(self).owner
                    &&& final(self).owner == old(self).owner
                    &&& final(self).names@ == old(self).names@.insert(agent, name)
                },
                Err(e) => {
                    &&& caller != old(self).owner
                    &&& e == BoardError::Unauthorized
                    &&& *final(self) == *old(self)
                },
            },
    {
        if caller != self.owner {
            return Err(BoardError::Unauthorized);
        }
        self.names.insert(agent, name);
        Ok(())
    }

    /// The agent's recorded name; an empty buffer when none is recorded.
    pub fn get_agent_name(&self, agent: u64) -> (r: Vec<u8>)
        ensures
            r@ == self.name_of(agent),
    {
        match self.names.get(&agent) {
            Some(name) => crate::types::clone_bytes(name),
            None => Vec::new(),
        }
    }
}

/// The uptime oracle: a lifetime record per agent; all-zero when unknown.
pub struct UptimeMock {
    pub owner: u64,
    pub infos: HashMap<u64, LifetimeInfo>,
}

impl UptimeMock {
    /// The oracle's record for an agent; all zeros when none is set.
    pub open spec fn info_of(self, agent: u64) -> LifetimeInfo {
        if self.infos@.contains_key(agent) {
            self.infos@[agent]
        } else {
            LifetimeInfo {
                total_heartbeats: 0,
                lifetime_score: 0,
                time_since_last: 0,
                time_remaining: 0,
            }
        }
    }

    /// The lifetime score the oracle reports for an agent.
    pub open spec fn score_of(self, agent: u64) -> u64 {
        self.info_of(agent).lifetime_score
    }

    pub fn init(caller: u64) -> (r: UptimeMock)
        ensures
            r.owner == caller,
            forall|a: u64| r.score_of(a) == 0,
    {
        UptimeMock { owner: caller, infos: HashMap::new() }
    }

    /// Owner-only: records an agent's lifetime data.
    pub fn set_lifetime_info(
        &mut self,
        caller: u64,
        agent: u64,
        total_heartbeats: u64,
        lifetime_score: u64,
        time_since_last: u64,
        time_remaining: u64,
    ) -> (r: Result<(), BoardError>)
        ensures
            match r {
                Ok(_) => {
                    &&& caller == old(self).owner
                    &&& final(self).owner == old(self).owner
                    &&& final(self).infos@ == old(self).infos@.insert(
                        agent,
                        LifetimeInfo {
                            total_heartbeats,
                            lifetime_score,
                            time_since_last,
                            time_remaining,
                        },
                    )
                },
                Err(e) => {
                    &&& caller != old(self).owner
                    &&& e == BoardError::Unauthorized
                    &&& *final(self) == *old(self)
                },
            },
    {
        if caller != self.owner {
            return Err(BoardError::Unauthorized);
        }
        let info = LifetimeInfo { total_heartbeats, lifetime_score, time_since_last, time_remaining };
        self.infos.insert(agent, info);
        Ok(())
    }

    /// The agent's lifetime record as the tuple `(heartbeats, score,
    /// time since last, time remaining)`; zeros when none is recorded.
    pub fn get_lifetime_info(&self, agent: u64) -> (r: (u64, u64, u64, u64))
        ensures
            r.0 == self.info_of(agent).total_heartbeats,
            r.1 == self.info_of(agent).lifetime_score,
            r.2 == self.info_of(agent).time_since_last,
            r.3 == self.info_of(agent).time_remaining,
    {
        match self.infos.get(&agent) {
            Some(info) => (
                info.total_heartbeats,
                info.lifetime_score,
                info.time_since_last,
                info.time_remaining,
            ),
            None => (0, 0, 0, 0),
        }
    }
}

/// An agent is eligible at a threshold when it is registered and its
/// lifetime score reaches the threshold. Queries that return nothing count
/// as ineligibility, never as success.
pub open spec fn eligible(
    registry: BondRegistryMock,
    oracle: UptimeMock,
    agent: u64,
    min_uptime: u64,
) -> bool {
    registry.registered(agent) && oracle.score_of(agent) >= min_uptime
}

} // verus!
