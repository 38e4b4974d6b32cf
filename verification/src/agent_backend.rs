//! The backend developer: generates or repairs backend code, holds at the
//! human safety gate before anything is built, and turns the build
//! verifier's records into the accumulated error log that drives the bounded
//! repair loop.

use vstd::prelude::*;

use crate::agent_traits::{FactSheet, SpecialFunctions};
use crate::ai_functions::{
    print_backend_webserver_code, print_fixed_code, print_improved_webserver_code,
    print_rest_api_endpoints,
};
use crate::basic_agent::{state_rank, AgentState, BasicAgent};
use crate::codec::{diag_error_rendered, error_count_of, lemma_diag_take_step, line_views, rendered_concat};
use crate::general::{ai_task_request, contains_code_fence, has_code_fence};
use crate::ports::{PipelineError, Ports};

verus! {

/// How many repair passes a run may take after its first generation pass.
pub const DEFAULT_MAX_REPAIR_ATTEMPTS: u8 = 2;

/// The accumulated error log as text: the log's content, or nothing while no
/// error has been recorded yet.
pub open spec fn bug_log(bug_errors: Option<String>) -> Seq<char> {
    match bug_errors {
        Some(s) => s@,
        None => Seq::empty(),
    }
}

/// How many repair passes are still allowed. Re-entering `Working` spends
/// one, which bounds the repair loop.
pub open spec fn repair_budget(bug_count: u8, max_repair_attempts: u8) -> int {
    if bug_count <= max_repair_attempts {
        max_repair_attempts - bug_count
    } else {
        0
    }
}

/// The agent that develops the backend code.
#[derive(Debug)]
pub struct AgentBackendDeveloper {
    pub attributes: BasicAgent,
    pub bug_errors: Option<String>,
    pub bug_count: u8,
    pub max_repair_attempts: u8,
}

impl AgentBackendDeveloper {
    pub fn new() -> (agent: AgentBackendDeveloper)
        ensures
            agent.attributes.state == AgentState::Discovery,
            agent.attributes.position@ == "Backend developer"@,
            agent.attributes.objective@ == "Develops backend code for webserver and json database"@,
            agent.attributes.memory@.len() == 0,
            agent.bug_errors is None,
            agent.bug_count == 0,
            agent.max_repair_attempts == DEFAULT_MAX_REPAIR_ATTEMPTS,
    {
        let attributes: BasicAgent = BasicAgent::new(
            String::from_str("Develops backend code for webserver and json database"),
            String::from_str("Backend developer"),
        );
        AgentBackendDeveloper {
            attributes,
            bug_errors: None,
            bug_count: 0,
            max_repair_attempts: DEFAULT_MAX_REPAIR_ATTEMPTS,
        }
    }

    /// First generation pass: seeds the model with the code template and the
    /// project description, rejects replies that embed code fences, persists
    /// the code and stores it in the document.
    fn call_initial_backend_code<G: Ports>(
        &mut self,
        factsheet: &mut FactSheet,
        ports: &mut G,
    ) -> (r: Result<(), PipelineError>)
        ensures
            r is Ok ==> final(factsheet).backend_code is Some && !has_code_fence(
                final(factsheet).backend_code->0@,
            ),
            r is Err ==> final(factsheet).backend_code == old(factsheet).backend_code,
            final(factsheet).project_description == old(factsheet).project_description,
            final(factsheet).project_scope == old(factsheet).project_scope,
            final(factsheet).external_urls == old(factsheet).external_urls,
            final(factsheet).api_endpoint_schema == old(factsheet).api_endpoint_schema,
            *final(self) == *old(self),
    {
        let code_template: String = ports.read_code_template();
        let mut msg_context = String::from_str("CODE TEMPLATE: ");
        msg_context.append(code_template.as_str());
        msg_context.append("\n PROJECT DESCRIPTION: ");
        msg_context.append(factsheet.project_description.as_str());
        msg_context.append("\n");
        let ai_response = match ai_task_request(ports, msg_context, print_backend_webserver_code) {
            Ok(t) => t,
            Err(e) => {
                return Err(e);
            },
        };
        if contains_code_fence(ai_response.as_str()) {
            return Err(PipelineError::ResponseFormat);
        }
        ports.save_code(&ai_response);
        factsheet.backend_code = Some(ai_response);
        Ok(())
    }

    /// Later clean generation pass: seeds the model with the prior generated
    /// code and the project description, with the same fence check, persist
    /// and store as the first pass.
    fn call_improved_backend_code<G: Ports>(
        &mut self,
        factsheet: &mut FactSheet,
        ports: &mut G,
    ) -> (r: Result<(), PipelineError>)
        ensures
            r is Ok ==> final(factsheet).backend_code is Some && !has_code_fence(
                final(factsheet).backend_code->0@,
            ),
            r is Err ==> final(factsheet).backend_code == old(factsheet).backend_code,
            final(factsheet).project_description == old(factsheet).project_description,
            final(factsheet).project_scope == old(factsheet).project_scope,
            final(factsheet).external_urls == old(factsheet).external_urls,
            final(factsheet).api_endpoint_schema == old(factsheet).api_endpoint_schema,
            *final(self) == *old(self),
    {
        let prior_code: String = match &factsheet.backend_code {
            Some(c) => c.clone(),
            None => String::new(),
        };
        let mut msg_context = String::from_str("CODE TEMPLATE: ");
        msg_context.append(prior_code.as_str());
        msg_context.append("\n PROJECT DESCRIPTION: ");
        msg_context.append(factsheet.project_description.as_str());
        msg_context.append("\n");
        let ai_response = match ai_task_request(ports, msg_context, print_improved_webserver_code) {
            Ok(t) => t,
            Err(e) => {
                return Err(e);
            },
        };
        if contains_code_fence(ai_response.as_str()) {
            return Err(PipelineError::ResponseFormat);
        }
        ports.save_code(&ai_response);
        factsheet.backend_code = Some(ai_response);
        Ok(())
    }

    /// Repair pass: seeds the model with the broken code and the accumulated
    /// error log, with the same fence check, persist and store.
    fn call_fix_code_bugs<G: Ports>(&mut self, factsheet: &mut FactSheet, ports: &mut G) -> (r:
        Result<(), PipelineError>)
        ensures
            r is Ok ==> final(factsheet).backend_code is Some && !has_code_fence(
                final(factsheet).backend_code->0@,
            ),
            r is Err ==> final(factsheet).backend_code == old(factsheet).backend_code,
            final(factsheet).project_description == old(factsheet).project_description,
            final(factsheet).project_scope == old(factsheet).project_scope,
            final(factsheet).external_urls == old(factsheet).external_urls,
            final(factsheet).api_endpoint_schema == old(factsheet).api_endpoint_schema,
            *final(self) == *old(self),
    {
        let broken_code: String = match &factsheet.backend_code {
            Some(c) => c.clone(),
            None => String::new(),
        };
        let errors: String = match &self.bug_errors {
            Some(e) => e.clone(),
            None => String::new(),
        };
        let mut msg_context = String::from_str("BROKEN_CODE: ");
        msg_context.append(broken_code.as_str());
        msg_context.append("\n ERROR_BUGS: ");
        msg_context.append(errors.as_str());
        msg_context.append(
            "\n THIS FUNCTION ONLY OUTPUTS CODE. JUST OUTPUT THE CODE. DO NOT PUT CODE IN CODE BLOCKS!",
        );
        let ai_response = match ai_task_request(ports, msg_context, print_fixed_code) {
            Ok(t) => t,
            Err(e) => {
                return Err(e);
            },
        };
        if contains_code_fence(ai_response.as_str()) {
            return Err(PipelineError::ResponseFormat);
        }
        ports.save_code(&ai_response);
        factsheet.backend_code = Some(ai_response);
        Ok(())
    }

    /// Asks the model for the REST endpoint schema of the generated code and
    /// hands its raw reply back. The schema-extraction stage has no consumer
    /// yet; the call is kept for future ones.
    pub fn call_rest_api_endpoints<G: Ports>(
        &mut self,
        factsheet: &mut FactSheet,
        ports: &mut G,
    ) -> (r: Result<String, PipelineError>)
        ensures
            *final(factsheet) == *old(factsheet),
            *final(self) == *old(self),
    {
        let backend_code: String = match &factsheet.backend_code {
            Some(c) => c.clone(),
            None => String::new(),
        };
        let mut msg_context = String::from_str("CODE_INPUT: ");
        msg_context.append(backend_code.as_str());
        msg_context.append("\n");
        ai_task_request(ports, msg_context, print_rest_api_endpoints)
    }

    /// Applies the operator's answer at the safety gate: a decline finishes
    /// the run directly, touching neither the error log nor the bug count,
    /// and nothing may be built; a confirmation changes nothing and lets the
    /// build proceed.
    pub fn handle_gate_decision(&mut self, confirmed: bool) -> (proceed: bool)
        ensures
            proceed == confirmed,
            !confirmed ==> final(self).attributes.state == AgentState::Finished,
            confirmed ==> final(self).attributes.state == old(self).attributes.state,
            final(self).bug_errors == old(self).bug_errors,
            final(self).bug_count == old(self).bug_count,
            final(self).max_repair_attempts == old(self).max_repair_attempts,
            final(self).attributes.position == old(self).attributes.position,
            final(self).attributes.objective == old(self).attributes.objective,
            final(self).attributes.memory == old(self).attributes.memory,
    {
        if !confirmed {
            self.attributes.update_state(AgentState::Finished);
            false
        } else {
            true
        }
    }

    /// Folds one batch of build-verifier records into the agent: counts the
    /// error-level compiler messages and appends exactly their rendered
    /// texts, in input order, to the accumulated error log. A batch without
    /// errors leaves the log untouched.
    pub fn process_build_report(&mut self, lines: &Vec<String>) -> (error_count: usize)
        ensures
            error_count as int == error_count_of(line_views(lines@)),
            bug_log(final(self).bug_errors) == bug_log(old(self).bug_errors) + rendered_concat(
                line_views(lines@),
            ),
            error_count == 0 ==> final(self).bug_errors == old(self).bug_errors,
            final(self).attributes == old(self).attributes,
            final(self).bug_count == old(self).bug_count,
            final(self).max_repair_attempts == old(self).max_repair_attempts,
    {
        let mut error_count: usize = 0;
        let mut i: usize = 0;
        while i < lines.len()
            invariant
                i <= lines@.len(),
                error_count <= i,
                error_count as int == error_count_of(line_views(lines@).take(i as int)),
                bug_log(self.bug_errors) == bug_log(old(self).bug_errors) + rendered_concat(
                    line_views(lines@).take(i as int),
                ),
                error_count == 0 ==> self.bug_errors == old(self).bug_errors,
                self.attributes == old(self).attributes,
                self.bug_count == old(self).bug_count,
                self.max_repair_attempts == old(self).max_repair_attempts,
            decreases lines@.len() - i,
        {
            match diag_error_rendered(lines[i].as_str()) {
                Some(rendered) => {
                    error_count += 1;
                    let mut acc: String = match &self.bug_errors {
                        Some(s) => s.clone(),
                        None => String::new(),
                    };
                    acc.append(rendered.as_str());
                    self.bug_errors = Some(acc);
                },
                None => {},
            }
            proof {
                lemma_diag_take_step(line_views(lines@), i as int);
                assert(bug_log(self.bug_errors) =~= bug_log(old(self).bug_errors)
                    + rendered_concat(line_views(lines@).take(i + 1)));
            }
            i += 1;
        }
        proof {
            assert(line_views(lines@).take(lines@.len() as int) =~= line_views(lines@));
        }
        error_count
    }

    /// Runs the backend developer's state machine to completion: a
    /// generation or repair pass in `Working`, then the safety gate and the
    /// build in `UnitTesting`; build errors re-enter `Working` while the
    /// repair budget lasts. The error log only ever grows, and any
    /// unrecognized state falls through to `Finished`.
    pub fn execute<G: Ports>(&mut self, factsheet: &mut FactSheet, ports: &mut G) -> (r: Result<
        (),
        PipelineError,
    >)
        ensures
            r is Ok ==> final(self).attributes.state == AgentState::Finished,
            r is Ok && (old(self).attributes.state == AgentState::Discovery || old(
                self,
            ).attributes.state == AgentState::Working) ==> final(factsheet).backend_code is Some,
            bug_log(old(self).bug_errors).is_prefix_of(bug_log(final(self).bug_errors)),
            old(self).attributes.state == AgentState::Finished ==> r is Ok && *final(factsheet)
                == *old(factsheet) && *final(self) == *old(self),
            final(factsheet).project_description == old(factsheet).project_description,
            final(factsheet).project_scope == old(factsheet).project_scope,
            final(factsheet).external_urls == old(factsheet).external_urls,
            final(factsheet).api_endpoint_schema == old(factsheet).api_endpoint_schema,
            final(self).attributes.position == old(self).attributes.position,
            final(self).attributes.objective == old(self).attributes.objective,
            final(self).attributes.memory == old(self).attributes.memory,
            final(self).max_repair_attempts == old(self).max_repair_attempts,
    {
        while self.attributes.state != AgentState::Finished
            invariant
                factsheet.project_description == old(factsheet).project_description,
                factsheet.project_scope == old(factsheet).project_scope,
                factsheet.external_urls == old(factsheet).external_urls,
                factsheet.api_endpoint_schema == old(factsheet).api_endpoint_schema,
                self.attributes.position == old(self).attributes.position,
                self.attributes.objective == old(self).attributes.objective,
                self.attributes.memory == old(self).attributes.memory,
                self.max_repair_attempts == old(self).max_repair_attempts,
                old(self).attributes.state == AgentState::Finished ==> self.attributes.state
                    == AgentState::Finished && *factsheet == *old(factsheet) && *self == *old(self),
                bug_log(old(self).bug_errors).is_prefix_of(bug_log(self.bug_errors)),
                (old(self).attributes.state == AgentState::Discovery || old(
                    self,
                ).attributes.state == AgentState::Working) ==> (self.attributes.state
                    == AgentState::Discovery || self.attributes.state == AgentState::Working
                    || factsheet.backend_code is Some),
            decreases
                repair_budget(self.bug_count, self.max_repair_attempts),
                state_rank(self.attributes.state),
        {
            match self.attributes.state {
                AgentState::Discovery => {
                    self.attributes.update_state(AgentState::Working);
                },
                AgentState::Working => {
                    let outcome = if self.bug_count == 0 {
                        if factsheet.backend_code.is_none() {
                            self.call_initial_backend_code(factsheet, ports)
                        } else {
                            self.call_improved_backend_code(factsheet, ports)
                        }
                    } else {
                        self.call_fix_code_bugs(factsheet, ports)
                    };
                    match outcome {
                        Ok(()) => {},
                        Err(e) => {
                            return Err(e);
                        },
                    }
                    self.attributes.update_state(AgentState::UnitTesting);
                },
                AgentState::UnitTesting => {
                    let confirmed = ports.confirm_safe();
                    let proceed = self.handle_gate_decision(confirmed);
                    if proceed {
                        let lines = ports.run_build();
                        let error_count = self.process_build_report(&lines);
                        if error_count > 0 && self.bug_count < self.max_repair_attempts {
                            self.bug_count = self.bug_count + 1;
                            self.attributes.update_state(AgentState::Working);
                        } else {
                            self.attributes.update_state(AgentState::Finished);
                        }
                    }
                },
                _ => {
                    self.attributes.update_state(AgentState::Finished);
                },
            }
        }
        Ok(())
    }
}

impl SpecialFunctions for AgentBackendDeveloper {
    fn get_attributes_from_agent(&self) -> &BasicAgent {
        &self.attributes
    }
}

} // verus!
