//! The solutions architect: discovers the project scope, gathers candidate
//! external URLs when the scope asks for them, and keeps only the URLs whose
//! reachability probe succeeded.

use vstd::prelude::*;

use crate::agent_traits::{FactSheet, ProjectScope, SpecialFunctions};
use crate::ai_functions::{print_project_scope, print_site_urls};
use crate::basic_agent::{state_rank, AgentState, BasicAgent};
use crate::codec::decode_project_scope;
use crate::codec::decode_url_list;
use crate::general::ai_task_request;
use crate::ports::{PipelineError, Ports};

verus! {

/// A probe outcome that lets its URL stay: an HTTP 200 status.
pub open spec fn keep_status(status: Option<u16>) -> bool {
    status == Some(200u16)
}

/// The candidate URLs whose probe succeeded, in candidate order.
pub open spec fn filter_reachable(urls: Seq<String>, statuses: Seq<Option<u16>>) -> Seq<String>
    recommends
        urls.len() == statuses.len(),
    decreases urls.len(),
{
    if urls.len() == 0 || statuses.len() == 0 {
        Seq::empty()
    } else {
        filter_reachable(urls.drop_last(), statuses.drop_last()) + (if keep_status(
            statuses.last(),
        ) {
            seq![urls.last()]
        } else {
            Seq::empty()
        })
    }
}

proof fn lemma_filter_reachable_take_step(urls: Seq<String>, statuses: Seq<Option<u16>>, i: int)
    requires
        urls.len() == statuses.len(),
        0 <= i < urls.len(),
    ensures
        filter_reachable(urls.take(i + 1), statuses.take(i + 1)) == filter_reachable(
            urls.take(i),
            statuses.take(i),
        ) + (if keep_status(statuses[i]) {
            seq![urls[i]]
        } else {
            Seq::<String>::empty()
        }),
{
    assert(urls.take(i + 1).drop_last() =~= urls.take(i));
    assert(statuses.take(i + 1).drop_last() =~= statuses.take(i));
    assert(urls.take(i + 1).last() == urls[i]);
    assert(statuses.take(i + 1).last() == statuses[i]);
}

/// When every probe fails, the filtered list is empty — though still a list,
/// never an absent one.
pub proof fn lemma_all_unreachable_filtered_empty(urls: Seq<String>, statuses: Seq<Option<u16>>)
    requires
        urls.len() == statuses.len(),
        forall|i: int| 0 <= i < statuses.len() ==> !keep_status(#[trigger] statuses[i]),
    ensures
        filter_reachable(urls, statuses) == Seq::<String>::empty(),
    decreases urls.len(),
{
    if urls.len() > 0 {
        assert(!keep_status(statuses[statuses.len() - 1]));
        lemma_all_unreachable_filtered_empty(urls.drop_last(), statuses.drop_last());
        assert(filter_reachable(urls, statuses) =~= Seq::<String>::empty());
    }
}

/// Every URL the filter keeps stood among the candidates: a URL excluded by
/// its probe never reappears in the validated list.
pub proof fn lemma_filter_reachable_subset(urls: Seq<String>, statuses: Seq<Option<u16>>)
    requires
        urls.len() == statuses.len(),
    ensures
        forall|i: int|
            0 <= i < filter_reachable(urls, statuses).len() ==> urls.contains(
                #[trigger] filter_reachable(urls, statuses)[i],
            ),
    decreases urls.len(),
{
    if urls.len() > 0 {
        lemma_filter_reachable_subset(urls.drop_last(), statuses.drop_last());
        assert forall|i: int| 0 <= i < filter_reachable(urls, statuses).len() implies urls.contains(
            #[trigger] filter_reachable(urls, statuses)[i],
        ) by {
            let prefix = filter_reachable(urls.drop_last(), statuses.drop_last());
            if i < prefix.len() {
                let x = prefix[i];
                let j = choose|j: int| 0 <= j < urls.drop_last().len() && urls.drop_last()[j] == x;
                assert(urls[j] == x);
            } else {
                assert(filter_reachable(urls, statuses)[i] == urls.last());
                assert(urls[urls.len() - 1] == urls.last());
            }
        }
    }
}

/// Applies the probe outcomes to the candidate list: the URL at each
/// position stays exactly when the status at that position is HTTP 200.
pub fn filter_urls_by_status(urls: &Vec<String>, statuses: &Vec<Option<u16>>) -> (r: Vec<String>)
    requires
        urls@.len() == statuses@.len(),
    ensures
        r@ == filter_reachable(urls@, statuses@),
{
    let mut r: Vec<String> = Vec::new();
    let mut i: usize = 0;
    while i < urls.len()
        invariant
            urls@.len() == statuses@.len(),
            i <= urls@.len(),
            r@ == filter_reachable(urls@.take(i as int), statuses@.take(i as int)),
        decreases urls@.len() - i,
    {
        let keep = match statuses[i] {
            Some(code) => code == 200,
            None => false,
        };
        if keep {
            r.push(urls[i].clone());
        }
        proof {
            lemma_filter_reachable_take_step(urls@, statuses@, i as int);
        }
        i += 1;
    }
    proof {
        assert(urls@.take(urls@.len() as int) =~= urls@);
        assert(statuses@.take(statuses@.len() as int) =~= statuses@);
    }
    r
}

/// The agent that gathers information and designs the solution.
#[derive(Debug)]
pub struct AgentSolutionArchitect {
    pub attributes: BasicAgent,
}

impl AgentSolutionArchitect {
    pub fn new() -> (agent: AgentSolutionArchitect)
        ensures
            agent.attributes.state == AgentState::Discovery,
            agent.attributes.position@ == "Solutions architect"@,
            agent.attributes.objective@
                == "Gathers information and design solutions for website development"@,
            agent.attributes.memory@.len() == 0,
    {
        let attributes: BasicAgent = BasicAgent::new(
            String::from_str(
                "Gathers information and design solutions for website development",
            ),
            String::from_str("Solutions architect"),
        );
        AgentSolutionArchitect { attributes }
    }

    /// Asks the model for the project scope and stores it in the document.
    fn retrieve_project_scope<G: Ports>(
        &mut self,
        factsheet: &mut FactSheet,
        ports: &mut G,
    ) -> (r: Result<ProjectScope, PipelineError>)
        ensures
            r matches Ok(scope) ==> final(factsheet).project_scope == Some(scope) && final(self).attributes.state == AgentState::Finished,
            r is Err ==> final(factsheet).project_scope == old(factsheet).project_scope && final(self).attributes.state == old(self).attributes.state,
            final(factsheet).project_description == old(factsheet).project_description,
            final(factsheet).external_urls == old(factsheet).external_urls,
            final(factsheet).backend_code == old(factsheet).backend_code,
            final(factsheet).api_endpoint_schema == old(factsheet).api_endpoint_schema,
            final(self).attributes.position == old(self).attributes.position,
            final(self).attributes.objective == old(self).attributes.objective,
            final(self).attributes.memory == old(self).attributes.memory,
    {
        let msg_context: String = factsheet.project_description.clone();
        let text = match ai_task_request(ports, msg_context, print_project_scope) {
            Ok(t) => t,
            Err(e) => {
                return Err(e);
            },
        };
        match decode_project_scope(text.as_str()) {
            Some(ai_response) => {
                factsheet.project_scope = Some(ai_response);
                self.attributes.update_state(AgentState::Finished);
                Ok(ai_response)
            },
            None => Err(PipelineError::ResponseFormat),
        }
    }

    /// Asks the model for candidate external URLs and stores them in the
    /// document for validation.
    fn retrieve_determine_external_urls<G: Ports>(
        &mut self,
        factsheet: &mut FactSheet,
        msg_context: String,
        ports: &mut G,
    ) -> (r: Result<(), PipelineError>)
        ensures
            r is Ok ==> final(factsheet).external_urls is Some && final(self).attributes.state
                == AgentState::UnitTesting,
            r is Err ==> final(factsheet).external_urls == old(factsheet).external_urls && final(self).attributes.state == old(self).attributes.state,
            final(factsheet).project_description == old(factsheet).project_description,
            final(factsheet).project_scope == old(factsheet).project_scope,
            final(factsheet).backend_code == old(factsheet).backend_code,
            final(factsheet).api_endpoint_schema == old(factsheet).api_endpoint_schema,
            final(self).attributes.position == old(self).attributes.position,
            final(self).attributes.objective == old(self).attributes.objective,
            final(self).attributes.memory == old(self).attributes.memory,
    {
        let text = match ai_task_request(ports, msg_context, print_site_urls) {
            Ok(t) => t,
            Err(e) => {
                return Err(e);
            },
        };
        match decode_url_list(text.as_str()) {
            Some(ai_response) => {
                factsheet.external_urls = Some(ai_response);
                self.attributes.update_state(AgentState::UnitTesting);
                Ok(())
            },
            None => Err(PipelineError::ResponseFormat),
        }
    }

    /// Runs the architect's state machine to completion. From `Discovery` it
    /// stores a scope; when that scope asks for external URLs it gathers and
    /// validates them, otherwise the URL list of the document is left
    /// untouched. The validation state always succeeds — no probe outcome is
    /// fatal — and any unrecognized state falls through to `Finished` with
    /// the document untouched.
    pub fn execute<G: Ports>(&mut self, factsheet: &mut FactSheet, ports: &mut G) -> (r: Result<
        (),
        PipelineError,
    >)
        ensures
            r is Ok ==> final(self).attributes.state == AgentState::Finished,
            r is Ok && old(self).attributes.state == AgentState::Discovery ==> final(factsheet).project_scope is Some,
            r is Ok && old(self).attributes.state == AgentState::Discovery && !(final(factsheet).project_scope->0.is_external_urls_required) ==> final(factsheet).external_urls == old(factsheet).external_urls,
            r is Ok && old(self).attributes.state == AgentState::Discovery && final(factsheet).project_scope->0.is_external_urls_required ==> final(factsheet).external_urls is Some,
            old(self).attributes.state == AgentState::UnitTesting ==> r is Ok && final(factsheet).external_urls is Some && final(factsheet).project_scope == old(factsheet).project_scope,
            old(self).attributes.state == AgentState::Working ==> r is Ok && final(factsheet).project_scope == old(factsheet).project_scope && final(factsheet).external_urls
                == old(factsheet).external_urls,
            old(self).attributes.state == AgentState::Finished ==> r is Ok && *final(factsheet)
                == *old(factsheet),
            final(factsheet).project_description == old(factsheet).project_description,
            final(factsheet).backend_code == old(factsheet).backend_code,
            final(factsheet).api_endpoint_schema == old(factsheet).api_endpoint_schema,
            final(self).attributes.position == old(self).attributes.position,
            final(self).attributes.objective == old(self).attributes.objective,
            final(self).attributes.memory == old(self).attributes.memory,
    {
        while self.attributes.state != AgentState::Finished
            invariant
                factsheet.project_description == old(factsheet).project_description,
                factsheet.backend_code == old(factsheet).backend_code,
                factsheet.api_endpoint_schema == old(factsheet).api_endpoint_schema,
                self.attributes.position == old(self).attributes.position,
                self.attributes.objective == old(self).attributes.objective,
                self.attributes.memory == old(self).attributes.memory,
                self.attributes.state == AgentState::Discovery ==> old(self).attributes.state
                    == AgentState::Discovery && factsheet.project_scope == old(factsheet).project_scope
                    && factsheet.external_urls == old(factsheet).external_urls,
                old(self).attributes.state == AgentState::Discovery && self.attributes.state == AgentState::UnitTesting
                    ==> factsheet.project_scope->0.is_external_urls_required,
                old(self).attributes.state == AgentState::Discovery && self.attributes.state != AgentState::Discovery
                    ==> factsheet.project_scope is Some && (
                factsheet.project_scope->0.is_external_urls_required
                    ==> factsheet.external_urls is Some) && (
                !factsheet.project_scope->0.is_external_urls_required ==> factsheet.external_urls
                    == old(factsheet).external_urls),
                old(self).attributes.state == AgentState::UnitTesting ==> (self.attributes.state
                    == AgentState::UnitTesting && *factsheet == *old(factsheet)) || (
                self.attributes.state == AgentState::Finished && factsheet.external_urls is Some
                    && factsheet.project_scope == old(factsheet).project_scope),
                old(self).attributes.state == AgentState::Working ==> (self.attributes.state
                    == AgentState::Working || self.attributes.state == AgentState::Finished)
                    && factsheet.project_scope == old(factsheet).project_scope
                    && factsheet.external_urls == old(factsheet).external_urls,
                old(self).attributes.state == AgentState::Finished ==> self.attributes.state
                    == AgentState::Finished && *factsheet == *old(factsheet),
            decreases state_rank(self.attributes.state),
        {
            match self.attributes.state {
                AgentState::Discovery => {
                    let project_scope = match self.retrieve_project_scope(factsheet, ports) {
                        Ok(s) => s,
                        Err(e) => {
                            return Err(e);
                        },
                    };
                    if project_scope.is_external_urls_required {
                        let msg_context = factsheet.project_description.clone();
                        match self.retrieve_determine_external_urls(factsheet, msg_context, ports) {
                            Ok(()) => {},
                            Err(e) => {
                                return Err(e);
                            },
                        }
                        self.attributes.update_state(AgentState::UnitTesting);
                    }
                },
                AgentState::UnitTesting => {
                    let urls: Vec<String> = match &factsheet.external_urls {
                        Some(u) => u.clone(),
                        None => Vec::new(),
                    };
                    let mut statuses: Vec<Option<u16>> = Vec::new();
                    let mut i: usize = 0;
                    while i < urls.len()
                        invariant
                            i <= urls@.len(),
                            statuses@.len() == i as int,
                        decreases urls@.len() - i,
                    {
                        let status = ports.probe_url(&urls[i]);
                        statuses.push(status);
                        i += 1;
                    }
                    let new_urls = filter_urls_by_status(&urls, &statuses);
                    factsheet.external_urls = Some(new_urls);
                    self.attributes.update_state(AgentState::Finished);
                },
                _ => {
                    self.attributes.update_state(AgentState::Finished);
                },
            }
        }
        Ok(())
    }
}

impl SpecialFunctions for AgentSolutionArchitect {
    fn get_attributes_from_agent(&self) -> &BasicAgent {
        &self.attributes
    }
}

} // verus!
