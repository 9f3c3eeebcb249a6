//! The fixed set of agents, their activity states and the pipeline order that
//! links each agent to the one it takes work from.

use vstd::prelude::*;

verus! {

/// One stage of the five-stage pipeline.
#[derive(Debug, Clone, Copy, PartialEq, Eq, Hash, Structural)]
pub enum Agent {
    Translator,
    Orchestrator,
    Engineer,
    Designer,
    Asic,
}

/// Whether an agent is currently at work.
#[derive(Debug, Clone, Copy, PartialEq, Eq, Structural)]
pub enum AgentState {
    Idle,
    Active,
}

impl Default for AgentState {
    fn default() -> (state: AgentState)
        ensures
            state == AgentState::Idle,
    {
        AgentState::Idle
    }
}

impl Agent {
    /// The agents in pipeline order.
    pub open spec fn roster() -> Seq<Agent> {
        seq![Agent::Translator, Agent::Orchestrator, Agent::Engineer, Agent::Designer, Agent::Asic]
    }

    /// The display name of the agent.
    pub open spec fn label(self) -> Seq<char> {
        match self {
            Agent::Translator => "Translator"@,
            Agent::Orchestrator => "Orchestrator"@,
            Agent::Engineer => "Engineer"@,
            Agent::Designer => "Designer"@,
            Agent::Asic => "ASICs"@,
        }
    }

    /// The agent that hands work to this one.  The translator starts the
    /// pipeline and has none.
    pub open spec fn upstream(self) -> Option<Agent> {
        match self {
            Agent::Translator => None,
            Agent::Orchestrator => Some(Agent::Translator),
            Agent::Engineer => Some(Agent::Orchestrator),
            Agent::Designer => Some(Agent::Engineer),
            Agent::Asic => Some(Agent::Designer),
        }
    }

    /// The communication edge that lights up when this agent starts: from its
    /// predecessor to itself.
    pub open spec fn inbound(self) -> Option<(Agent, Agent)> {
        match self.upstream() {
            Some(from) => Some((from, self)),
            None => None,
        }
    }

    /// All agents, in pipeline order.
    pub fn all() -> (agents: &'static [Agent])
        ensures
            agents@ == Agent::roster(),
    {
        let agents: &'static [Agent] = &[
            Agent::Translator,
            Agent::Orchestrator,
            Agent::Engineer,
            Agent::Designer,
            Agent::Asic,
        ];
        agents
    }

    /// The display name of the agent.
    pub fn name(&self) -> (name: &'static str)
        ensures
            name@ == self.label(),
    {
        match self {
            Agent::Translator => "Translator",
            Agent::Orchestrator => "Orchestrator",
            Agent::Engineer => "Engineer",
            Agent::Designer => "Designer",
            Agent::Asic => "ASICs",
        }
    }

    /// The agent that hands work to this one, if any.
    pub fn predecessor(&self) -> (from: Option<Agent>)
        ensures
            from == self.upstream(),
    {
        match self {
            Agent::Translator => None,
            Agent::Orchestrator => Some(Agent::Translator),
            Agent::Engineer => Some(Agent::Orchestrator),
            Agent::Designer => Some(Agent::Engineer),
            Agent::Asic => Some(Agent::Designer),
        }
    }

    /// The edge from the agent's predecessor to the agent, if it has one.
    pub fn inbound_edge(&self) -> (edge: Option<(Agent, Agent)>)
        ensures
            edge == self.inbound(),
    {
        match self.predecessor() {
            Some(from) => Some((from, *self)),
            None => None,
        }
    }
}

/// The roster names every agent exactly once.
pub proof fn lemma_roster_complete(agent: Agent)
    ensures
        exists|i: int| 0 <= i < Agent::roster().len() && Agent::roster()[i] == agent,
        forall|i: int, j: int|
            0 <= i < j < Agent::roster().len() ==> Agent::roster()[i] != Agent::roster()[j],
{
    let r = Agent::roster();
    match agent {
        Agent::Translator => assert(r[0] == agent),
        Agent::Orchestrator => assert(r[1] == agent),
        Agent::Engineer => assert(r[2] == agent),
        Agent::Designer => assert(r[3] == agent),
        Agent::Asic => assert(r[4] == agent),
    }
}

/// Following predecessors from any agent reaches the translator: the pipeline
/// is a single chain without a cycle.
pub proof fn lemma_pipeline_is_a_chain(agent: Agent)
    ensures
        agent.upstream() != Some(agent),
        agent.upstream() is None <==> agent == Agent::Translator,
        forall|other: Agent| other.upstream() == agent.upstream() ==> other == agent,
{
}

/// One value for each agent.
#[derive(Debug, Clone, Copy)]
pub struct AgentMap<T> {
    pub translator: T,
    pub orchestrator: T,
    pub engineer: T,
    pub designer: T,
    pub asic: T,
}

impl<T> AgentMap<T> {
    /// The value held for `agent`.
    pub open spec fn at(self, agent: Agent) -> T {
        match agent {
            Agent::Translator => self.translator,
            Agent::Orchestrator => self.orchestrator,
            Agent::Engineer => self.engineer,
            Agent::Designer => self.designer,
            Agent::Asic => self.asic,
        }
    }

    /// The map that holds `value` for `agent` and agrees with `self` elsewhere.
    pub open spec fn with(self, agent: Agent, value: T) -> AgentMap<T> {
        match agent {
            Agent::Translator => AgentMap { translator: value, ..self },
            Agent::Orchestrator => AgentMap { orchestrator: value, ..self },
            Agent::Engineer => AgentMap { engineer: value, ..self },
            Agent::Designer => AgentMap { designer: value, ..self },
            Agent::Asic => AgentMap { asic: value, ..self },
        }
    }

    /// The value held for `agent`.  Every agent has one.
    pub fn get(&self, agent: &Agent) -> (value: Option<&T>)
        ensures
            value == Some(&self.at(*agent)),
    {
        match agent {
            Agent::Translator => Some(&self.translator),
            Agent::Orchestrator => Some(&self.orchestrator),
            Agent::Engineer => Some(&self.engineer),
            Agent::Designer => Some(&self.designer),
            Agent::Asic => Some(&self.asic),
        }
    }

    /// Replaces the value held for `agent`.
    pub fn insert(&mut self, agent: Agent, value: T)
        ensures
            *final(self) == old(self).with(agent, value),
    {
        match agent {
            Agent::Translator => self.translator = value,
            Agent::Orchestrator => self.orchestrator = value,
            Agent::Engineer => self.engineer = value,
            Agent::Designer => self.designer = value,
            Agent::Asic => self.asic = value,
        }
    }
}

impl<T: Copy> AgentMap<T> {
    /// The map that holds `value` for every agent.
    pub open spec fn uniform(value: T) -> AgentMap<T> {
        AgentMap {
            translator: value,
            orchestrator: value,
            engineer: value,
            designer: value,
            asic: value,
        }
    }

    /// A map that holds `value` for every agent.
    pub fn filled(value: T) -> (map: AgentMap<T>)
        ensures
            map == AgentMap::uniform(value),
    {
        AgentMap {
            translator: value,
            orchestrator: value,
            engineer: value,
            designer: value,
            asic: value,
        }
    }
}

/// `with` changes the value of one agent and of no other.
pub proof fn lemma_with_at<T>(map: AgentMap<T>, agent: Agent, value: T, other: Agent)
    ensures
        map.with(agent, value).at(other) == if other == agent {
            value
        } else {
            map.at(other)
        },
{
}

} // verus!
