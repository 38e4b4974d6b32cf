//! The managing agent: normalizes the user's request into the project
//! description, registers the specialized agents in order, and runs each of
//! them on the shared document, aborting the whole run on the first failure.

use vstd::prelude::*;

use crate::agent_architect::AgentSolutionArchitect;
use crate::agent_backend::AgentBackendDeveloper;
use crate::agent_traits::{FactSheet, SpecialFunctions};
use crate::ai_functions::convert_user_input_to_goal;
use crate::basic_agent::{AgentState, BasicAgent};
use crate::general::ai_task_request;
use crate::ports::{PipelineError, PipelineFailure, Ports};

verus! {

/// The closed set of agents a run can register, in dispatch form.
#[derive(Debug)]
pub enum PipelineAgent {
    Architect(AgentSolutionArchitect),
    Backend(AgentBackendDeveloper),
}

impl SpecialFunctions for PipelineAgent {
    fn get_attributes_from_agent(&self) -> &BasicAgent {
        match self {
            PipelineAgent::Architect(a) => a.get_attributes_from_agent(),
            PipelineAgent::Backend(b) => b.get_attributes_from_agent(),
        }
    }
}

/// The role label of a registered agent.
pub open spec fn agent_position(agent: PipelineAgent) -> Seq<char> {
    match agent {
        PipelineAgent::Architect(a) => a.attributes.position@,
        PipelineAgent::Backend(b) => b.attributes.position@,
    }
}

/// The agent that owns the document and drives the pipeline.
#[derive(Debug)]
pub struct ManagingAgent {
    pub attributes: BasicAgent,
    pub fact_sheet: FactSheet,
    pub agents: Vec<PipelineAgent>,
}

impl ManagingAgent {
    /// Creates the run: one gateway call (with the usual single retry)
    /// normalizes the raw request into the document's description; every
    /// other document field starts unset and the registry starts empty.
    pub fn new<G: Ports>(user_request: String, ports: &mut G) -> (r: Result<
        ManagingAgent,
        PipelineError,
    >)
        ensures
            r matches Ok(agent) ==> {
                &&& agent.attributes.state == AgentState::Discovery
                &&& agent.attributes.position@ == "Project Manager"@
                &&& agent.attributes.objective@
                    == "Manages agents who are building an excellent website for the user."@
                &&& agent.attributes.memory@.len() == 0
                &&& agent.fact_sheet.project_scope is None
                &&& agent.fact_sheet.external_urls is None
                &&& agent.fact_sheet.backend_code is None
                &&& agent.fact_sheet.api_endpoint_schema is None
                &&& agent.agents@.len() == 0
            },
            r is Err ==> r->Err_0 is ModelUnavailable,
    {
        let attributes: BasicAgent = BasicAgent::new(
            String::from_str("Manages agents who are building an excellent website for the user."),
            String::from_str("Project Manager"),
        );
        let project_description = match ai_task_request(
            ports,
            user_request,
            convert_user_input_to_goal,
        ) {
            Ok(t) => t,
            Err(e) => {
                return Err(e);
            },
        };
        let fact_sheet = FactSheet {
            project_description,
            project_scope: None,
            external_urls: None,
            backend_code: None,
            api_endpoint_schema: None,
        };
        Ok(ManagingAgent { attributes, fact_sheet, agents: Vec::new() })
    }

    /// Appends one agent to the registry; registry order is execution order.
    pub fn add_agent(&mut self, agent: PipelineAgent)
        ensures
            final(self).agents@ == old(self).agents@.push(agent),
            final(self).fact_sheet == old(self).fact_sheet,
            final(self).attributes == old(self).attributes,
    {
        self.agents.push(agent);
    }

    /// Registers the pipeline's agents: the solutions architect, then the
    /// backend developer, appended in this order and nothing else — each
    /// fresh in `Discovery` with its fixed role and objective and an empty
    /// memory log.
    pub fn create_agents(&mut self)
        ensures
            final(self).agents@.len() == old(self).agents@.len() + 2,
            forall|i: int|
                0 <= i < old(self).agents@.len() ==> final(self).agents@[i] == old(self).agents@[i],
            final(self).agents@[final(self).agents@.len() - 2] matches PipelineAgent::Architect(a)
                && a.attributes.state == AgentState::Discovery && a.attributes.position@
                == "Solutions architect"@ && a.attributes.objective@
                == "Gathers information and design solutions for website development"@
                && a.attributes.memory@.len() == 0,
            final(self).agents@[final(self).agents@.len() - 1] matches PipelineAgent::Backend(b)
                && b.attributes.state == AgentState::Discovery && b.attributes.position@
                == "Backend developer"@ && b.attributes.objective@
                == "Develops backend code for webserver and json database"@
                && b.attributes.memory@.len() == 0 && b.bug_errors is None && b.bug_count == 0
                && b.max_repair_attempts == crate::agent_backend::DEFAULT_MAX_REPAIR_ATTEMPTS,
            final(self).fact_sheet == old(self).fact_sheet,
            final(self).attributes == old(self).attributes,
    {
        self.add_agent(PipelineAgent::Architect(AgentSolutionArchitect::new()));
        self.add_agent(PipelineAgent::Backend(AgentBackendDeveloper::new()));
    }

    /// Registers the agents and runs each on the shared document in registry
    /// order. The first failing agent aborts the whole run, with the role of
    /// a registered agent — for a run that started with an empty registry,
    /// the architect's or the backend developer's — attached; on a clean run
    /// that started with an empty registry the document carries a scope and
    /// generated backend code.
    pub fn execute_project<G: Ports>(&mut self, ports: &mut G) -> (r: Result<(), PipelineFailure>)
        ensures
            final(self).fact_sheet.project_description == old(self).fact_sheet.project_description,
            r is Ok && old(self).agents@.len() == 0 ==> final(self).fact_sheet.project_scope is Some && final(self).fact_sheet.backend_code is Some,
            r matches Err(f) ==> exists|i: int|
                0 <= i < final(self).agents@.len() && f.agent_role@ == agent_position(
                    #[trigger] final(self).agents@[i],
                ),
            r matches Err(f) ==> (old(self).agents@.len() == 0 ==> f.agent_role@
                == "Solutions architect"@ || f.agent_role@ == "Backend developer"@),
    {
        self.create_agents();
        let mut idx: usize = 0;
        while idx < self.agents.len()
            invariant
                idx <= self.agents@.len(),
                self.fact_sheet.project_description == old(self).fact_sheet.project_description,
                old(self).agents@.len() == 0 ==> self.agents@.len() == 2,
                old(self).agents@.len() == 0 && idx == 0 ==> (self.agents@[0]
                    matches PipelineAgent::Architect(a) && a.attributes.state
                    == AgentState::Discovery && a.attributes.position@ == "Solutions architect"@),
                old(self).agents@.len() == 0 && idx <= 1 ==> (self.agents@[1]
                    matches PipelineAgent::Backend(b) && b.attributes.state
                    == AgentState::Discovery && b.attributes.position@ == "Backend developer"@),
                old(self).agents@.len() == 0 && idx >= 1
                    ==> self.fact_sheet.project_scope is Some,
                old(self).agents@.len() == 0 && idx >= 2
                    ==> self.fact_sheet.backend_code is Some,
            decreases self.agents@.len() - idx,
        {
            let agent = self.agents.remove(idx);
            match agent {
                PipelineAgent::Architect(mut a) => {
                    let result = a.execute(&mut self.fact_sheet, ports);
                    let role = a.attributes.position.clone();
                    self.agents.insert(idx, PipelineAgent::Architect(a));
                    match result {
                        Ok(()) => {},
                        Err(e) => {
                            proof {
                                assert(agent_position(self.agents@[idx as int]) == role@);
                            }
                            return Err(PipelineFailure { agent_role: role, error: e });
                        },
                    }
                },
                PipelineAgent::Backend(mut b) => {
                    let result = b.execute(&mut self.fact_sheet, ports);
                    let role = b.attributes.position.clone();
                    self.agents.insert(idx, PipelineAgent::Backend(b));
                    match result {
                        Ok(()) => {},
                        Err(e) => {
                            proof {
                                assert(agent_position(self.agents@[idx as int]) == role@);
                            }
                            return Err(PipelineFailure { agent_role: role, error: e });
                        },
                    }
                },
            }
            idx += 1;
        }
        Ok(())
    }
}

} // verus!
