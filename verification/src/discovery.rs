//! Fact batches that register repositories and their resident agents in
//! the store at start-up. The identities themselves are start-up data held
//! by the caller; this module builds each registration's exact batch.

use vstd::prelude::*;
use crate::agency::status_predicate;
use crate::store::{quote_str, quoted, rdf_type_predicate, FactModel, Triple};

verus! {

pub open spec fn repository_subject(id: Seq<char>) -> Seq<char> {
    "http://swarm.os/repository/"@ + id
}

pub open spec fn agent_subject(id: Seq<char>) -> Seq<char> {
    "http://swarm.os/agent/"@ + id
}

pub open spec fn name_predicate() -> Seq<char> {
    "http://swarm.os/ontology/name"@
}

pub open spec fn short_name_predicate() -> Seq<char> {
    "http://swarm.os/ontology/shortName"@
}

pub open spec fn class_predicate() -> Seq<char> {
    "http://swarm.os/ontology/class"@
}

pub open spec fn has_population_predicate() -> Seq<char> {
    "http://swarm.os/ontology/hasPopulation"@
}

/// The batch registering one repository: its class, name, short name and
/// a STABLE status.
pub open spec fn repo_batch_model(id: Seq<char>, name: Seq<char>) -> Seq<FactModel> {
    seq![
        (repository_subject(id), rdf_type_predicate(), "http://swarm.os/ontology/Repository"@),
        (repository_subject(id), name_predicate(), quoted(name)),
        (repository_subject(id), short_name_predicate(), quoted(name)),
        (repository_subject(id), status_predicate(), quoted("STABLE"@)),
    ]
}

/// The batch registering one agent: its class facts, a Standby status, and
/// its membership in the repository's population.
pub open spec fn agent_batch_model(
    agent_id: Seq<char>,
    name: Seq<char>,
    class: Seq<char>,
    repo_id: Seq<char>,
) -> Seq<FactModel> {
    seq![
        (agent_subject(agent_id), rdf_type_predicate(), "http://swarm.os/ontology/Agent"@),
        (agent_subject(agent_id), name_predicate(), quoted(name)),
        (agent_subject(agent_id), short_name_predicate(), quoted(name)),
        (agent_subject(agent_id), class_predicate(), quoted(class)),
        (agent_subject(agent_id), status_predicate(), quoted("Standby"@)),
        (repository_subject(repo_id), has_population_predicate(), agent_subject(agent_id)),
    ]
}

/// Builds the registration batch for one repository.
pub fn repo_triples(id: &str, name: &str) -> (r: Vec<Triple>)
    ensures
        r@.map_values(|t: Triple| t@) == repo_batch_model(id@, name@),
{
    let subject = String::from_str("http://swarm.os/repository/").concat(id);
    let mut batch: Vec<Triple> = Vec::new();
    batch.push(
        Triple::new(
            subject.clone(),
            String::from_str("http://www.w3.org/1999/02/22-rdf-syntax-ns#type"),
            String::from_str("http://swarm.os/ontology/Repository"),
        ),
    );
    batch.push(
        Triple::new(subject.clone(), String::from_str("http://swarm.os/ontology/name"), quote_str(name)),
    );
    batch.push(
        Triple::new(
            subject.clone(),
            String::from_str("http://swarm.os/ontology/shortName"),
            quote_str(name),
        ),
    );
    batch.push(
        Triple::new(subject, String::from_str("http://swarm.os/ontology/status"), quote_str("STABLE")),
    );
    proof {
        assert(batch@.map_values(|t: Triple| t@) =~= repo_batch_model(id@, name@));
    }
    batch
}

/// Builds the registration batch for one agent of a repository.
pub fn agent_triples(agent_id: &str, name: &str, class: &str, repo_id: &str) -> (r: Vec<Triple>)
    ensures
        r@.map_values(|t: Triple| t@) == agent_batch_model(agent_id@, name@, class@, repo_id@),
{
    let subject = String::from_str("http://swarm.os/agent/").concat(agent_id);
    let repo_subject = String::from_str("http://swarm.os/repository/").concat(repo_id);
    let mut batch: Vec<Triple> = Vec::new();
    batch.push(
        Triple::new(
            subject.clone(),
            String::from_str("http://www.w3.org/1999/02/22-rdf-syntax-ns#type"),
            String::from_str("http://swarm.os/ontology/Agent"),
        ),
    );
    batch.push(
        Triple::new(subject.clone(), String::from_str("http://swarm.os/ontology/name"), quote_str(name)),
    );
    batch.push(
        Triple::new(
            subject.clone(),
            String::from_str("http://swarm.os/ontology/shortName"),
            quote_str(name),
        ),
    );
    batch.push(
        Triple::new(
            subject.clone(),
            String::from_str("http://swarm.os/ontology/class"),
            quote_str(class),
        ),
    );
    batch.push(
        Triple::new(
            subject.clone(),
            String::from_str("http://swarm.os/ontology/status"),
            quote_str("Standby"),
        ),
    );
    batch.push(
        Triple::new(
            repo_subject,
            String::from_str("http://swarm.os/ontology/hasPopulation"),
            subject,
        ),
    );
    proof {
        assert(batch@.map_values(|t: Triple| t@) =~= agent_batch_model(agent_id@, name@, class@, repo_id@));
    }
    batch
}

} // verus!
