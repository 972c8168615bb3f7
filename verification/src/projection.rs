//! Read-only projections of store contents for the aggregation endpoint:
//! the current operational status, the task list, and the repositories
//! with their resident agents. Pure functions of the query answers — the
//! endpoint around them only issues the queries and shapes the response.

use vstd::prelude::*;
use crate::rows::{clean_opt_model, clean_val, row_get, row_get_model, Row, RowModel};
use crate::text::{after_last_slash, after_last_slash_model, replace_dashes, replace_dashes_model};
use crate::wire::{parse_rows, rows_of_json};

verus! {

/// A bound value cleaned; a missing binding reads as empty.
pub open spec fn fetch_cleaned_model(row: RowModel, name: Seq<char>) -> Seq<char> {
    match row_get_model(row, name) {
        Some(v) => clean_opt_model(v),
        None => Seq::empty(),
    }
}

/// A bound value cleaned; a missing binding reads as the default.
pub open spec fn fetch_or_model(row: RowModel, name: Seq<char>, dflt: Seq<char>) -> Seq<char> {
    match row_get_model(row, name) {
        Some(v) => clean_opt_model(v),
        None => dflt,
    }
}

fn fetch_cleaned(row: &Row, name: &str) -> (r: String)
    ensures
        r@ == fetch_cleaned_model(row.deep_view(), name@),
{
    match row_get(row, name) {
        Some(v) => clean_val(&v),
        None => String::new(),
    }
}

fn fetch_or(row: &Row, name: &str, dflt: &str) -> (r: String)
    ensures
        r@ == fetch_or_model(row.deep_view(), name@, dflt@),
{
    match row_get(row, name) {
        Some(v) => clean_val(&v),
        None => String::from_str(dflt),
    }
}

/// The operational status projected from the status query's answer: the
/// last row's binding, `UNKNOWN` for a non-string binding, and the
/// OPERATIONAL default when the answer is malformed, empty or unbound.
pub open spec fn status_model(rows_opt: Option<Seq<RowModel>>) -> Seq<char> {
    match rows_opt {
        None => "OPERATIONAL"@,
        Some(rows) => {
            if rows.len() == 0 {
                "OPERATIONAL"@
            } else {
                match row_get_model(rows.last(), "status"@) {
                    Some(Some(s)) => s,
                    Some(None) => "UNKNOWN"@,
                    None => "OPERATIONAL"@,
                }
            }
        },
    }
}

/// Projects the operational status from the status query's answer text.
pub fn project_status(body: &str) -> (r: String)
    ensures
        r@ == status_model(rows_of_json(body@)),
{
    let rows = match parse_rows(body) {
        Some(rows) => rows,
        None => {
            return String::from_str("OPERATIONAL");
        },
    };
    if rows.len() == 0 {
        return String::from_str("OPERATIONAL");
    }
    let last = &rows[rows.len() - 1];
    proof {
        assert(rows.deep_view().last() == rows@[rows.len() - 1].deep_view());
    }
    match row_get(last, "status") {
        Some(Some(s)) => s,
        Some(None) => String::from_str("UNKNOWN"),
        None => String::from_str("OPERATIONAL"),
    }
}

/// One projected task: identifier, status and title.
pub struct TaskProjection {
    pub id: String,
    pub status: String,
    pub title: String,
}

impl View for TaskProjection {
    type V = (Seq<char>, Seq<char>, Seq<char>);

    open spec fn view(&self) -> (Seq<char>, Seq<char>, Seq<char>) {
        (self.id@, self.status@, self.title@)
    }
}

/// A task's title: its bound value cleaned, or, unbound, the tail of its
/// identifier with dashes read as spaces.
pub open spec fn task_title_model(row: RowModel, id: Seq<char>) -> Seq<char> {
    match row_get_model(row, "title"@) {
        Some(tv) => clean_opt_model(tv),
        None => replace_dashes_model(after_last_slash_model(id)),
    }
}

/// The tasks projected from the task query's answer: one per row binding
/// both an identifier and a state, in answer order.
pub open spec fn tasks_model(rows: Seq<RowModel>) -> Seq<(Seq<char>, Seq<char>, Seq<char>)>
    decreases rows.len(),
{
    if rows.len() == 0 {
        Seq::empty()
    } else {
        let rest = tasks_model(rows.drop_last());
        let row = rows.last();
        match (row_get_model(row, "id"@), row_get_model(row, "state"@)) {
            (Some(idv), Some(stv)) => {
                let id = clean_opt_model(idv);
                rest.push((id, clean_opt_model(stv), task_title_model(row, id)))
            },
            _ => rest,
        }
    }
}

/// Projects the task list from the task query's answer text; a malformed
/// answer projects no tasks.
pub fn project_tasks(body: &str) -> (r: Vec<TaskProjection>)
    ensures
        r@.map_values(|t: TaskProjection| t@) == match rows_of_json(body@) {
            Some(rows) => tasks_model(rows),
            None => Seq::<(Seq<char>, Seq<char>, Seq<char>)>::empty(),
        },
{
    let mut out: Vec<TaskProjection> = Vec::new();
    let rows = match parse_rows(body) {
        Some(rows) => rows,
        None => {
            proof {
                assert(out@.map_values(|t: TaskProjection| t@) =~= Seq::<
                    (Seq<char>, Seq<char>, Seq<char>),
                >::empty());
            }
            return out;
        },
    };
    let ghost r0 = rows.deep_view();
    let mut i: usize = 0;
    proof {
        assert(out@.map_values(|t: TaskProjection| t@) =~= tasks_model(r0.take(0)));
    }
    while i < rows.len()
        invariant
            0 <= i <= rows.len(),
            r0 == rows.deep_view(),
            r0.len() == rows.len(),
            out@.map_values(|t: TaskProjection| t@) == tasks_model(r0.take(i as int)),
        decreases rows.len() - i,
    {
        let ghost pre = out@.map_values(|t: TaskProjection| t@);
        proof {
            assert(r0.take(i + 1).drop_last() =~= r0.take(i as int));
            assert(r0.take(i + 1).last() == r0[i as int]);
            assert(r0[i as int] == rows@[i as int].deep_view());
        }
        let row = &rows[i];
        let idb = row_get(row, "id");
        let stb = row_get(row, "state");
        match (idb, stb) {
            (Some(idv), Some(stv)) => {
                let id = clean_val(&idv);
                let status = clean_val(&stv);
                let title = match row_get(row, "title") {
                    Some(tv) => clean_val(&tv),
                    None => {
                        let tail = after_last_slash(id.as_str());
                        replace_dashes(tail.as_str())
                    },
                };
                out.push(TaskProjection { id, status, title });
                proof {
                    assert(out@.map_values(|t: TaskProjection| t@) =~= pre.push(
                        tasks_model(r0.take(i + 1)).last(),
                    ));
                }
            },
            _ => {},
        }
        i += 1;
    }
    proof {
        assert(r0.take(rows.len() as int) =~= r0);
    }
    out
}

/// One repository grouped from the board query: identifier, name, and the
/// identifiers of its resident agents in first-seen order.
pub type RepoRow = (Seq<char>, Seq<char>, Seq<Seq<char>>);

/// One grouped agent: identifier, name, class, status and home repository
/// name, fixed at the agent's first-seen row.
pub type AgentRow = (Seq<char>, Seq<char>, Seq<char>, Seq<char>, Seq<char>);

pub open spec fn repo_present(repos: Seq<RepoRow>, id: Seq<char>) -> bool {
    exists|i: int| 0 <= i < repos.len() && (#[trigger] repos[i]).0 == id
}

pub open spec fn repo_at(repos: Seq<RepoRow>, id: Seq<char>) -> int {
    choose|i: int| 0 <= i < repos.len() && (#[trigger] repos[i]).0 == id
}

pub open spec fn agent_present(agents: Seq<AgentRow>, id: Seq<char>) -> bool {
    exists|i: int| 0 <= i < agents.len() && (#[trigger] agents[i]).0 == id
}

pub open spec fn repo_ids_unique(repos: Seq<RepoRow>) -> bool {
    forall|i: int, j: int|
        0 <= i < j < repos.len() ==> (#[trigger] repos[i]).0 != (#[trigger] repos[j]).0
}

/// Folds one answer row into the grouping: the row's repository is
/// registered at first sight under its first-seen name; the row's agent,
/// if bound, joins that repository's population once and is recorded once,
/// located at the repository name this row carries.
pub open spec fn board_fold(
    repos: Seq<RepoRow>,
    agents: Seq<AgentRow>,
    row: RowModel,
) -> (Seq<RepoRow>, Seq<AgentRow>) {
    let repo_id = fetch_cleaned_model(row, "repo"@);
    let repo_name = fetch_or_model(row, "repoName"@, "Unknown"@);
    let repos1 = if repo_present(repos, repo_id) {
        repos
    } else {
        repos.push((repo_id, repo_name, Seq::empty()))
    };
    let idx = repo_at(repos1, repo_id);
    match row_get_model(row, "agent"@) {
        None => (repos1, agents),
        Some(av) => {
            let aid = clean_opt_model(av);
            let entry = repos1[idx];
            let repos2 = if entry.2.contains(aid) {
                repos1
            } else {
                repos1.update(idx, (entry.0, entry.1, entry.2.push(aid)))
            };
            let agents2 = if agent_present(agents, aid) {
                agents
            } else {
                agents.push(
                    (
                        aid,
                        fetch_or_model(row, "agentName"@, "Agent"@),
                        fetch_or_model(row, "agentClass"@, "Commoner"@),
                        fetch_or_model(row, "agentStatus"@, "Standby"@),
                        repo_name,
                    ),
                )
            };
            (repos2, agents2)
        },
    }
}

/// The grouping after all answer rows, in row order.
pub open spec fn board_model(rows: Seq<RowModel>) -> (Seq<RepoRow>, Seq<AgentRow>)
    decreases rows.len(),
{
    if rows.len() == 0 {
        (Seq::empty(), Seq::empty())
    } else {
        let (repos, agents) = board_model(rows.drop_last());
        board_fold(repos, agents, rows.last())
    }
}

/// One projected repository, identifiers shortened to their tails.
pub struct RepoProjection {
    pub id: String,
    pub name: String,
    pub swarm: Vec<String>,
}

impl View for RepoProjection {
    type V = RepoRow;

    open spec fn view(&self) -> RepoRow {
        (self.id@, self.name@, self.swarm.deep_view())
    }
}

/// One projected agent, its identifier shortened to its tail.
pub struct AgentProjection {
    pub id: String,
    pub name: String,
    pub class_name: String,
    pub current_action: String,
    pub location: String,
}

impl View for AgentProjection {
    type V = AgentRow;

    open spec fn view(&self) -> AgentRow {
        (self.id@, self.name@, self.class_name@, self.current_action@, self.location@)
    }
}

/// The grouped repositories with each identifier cut to its tail.
pub open spec fn short_repos_model(repos: Seq<RepoRow>) -> Seq<RepoRow> {
    repos.map_values(
        |e: RepoRow|
            (
                after_last_slash_model(e.0),
                e.1,
                e.2.map_values(|a: Seq<char>| after_last_slash_model(a)),
            ),
    )
}

/// The grouped agents with each identifier cut to its tail.
pub open spec fn short_agents_model(agents: Seq<AgentRow>) -> Seq<AgentRow> {
    agents.map_values(|a: AgentRow| (after_last_slash_model(a.0), a.1, a.2, a.3, a.4))
}

fn contains_string(items: &Vec<String>, s: &String) -> (r: bool)
    ensures
        r == items.deep_view().contains(s@),
{
    let ghost iv = items.deep_view();
    let mut i: usize = 0;
    while i < items.len()
        invariant
            0 <= i <= items.len(),
            iv == items.deep_view(),
            iv.len() == items.len(),
            forall|j: int| 0 <= j < i ==> iv[j] != s@,
        decreases items.len() - i,
    {
        proof {
            assert(iv[i as int] == items@[i as int]@);
        }
        if items[i].eq(s) {
            proof {
                assert(iv.contains(s@));
            }
            return true;
        }
        i += 1;
    }
    proof {
        assert(!iv.contains(s@));
    }
    false
}

fn find_repo(repos: &Vec<RepoProjection>, id: &String) -> (r: Option<usize>)
    ensures
        r is Some <==> repo_present(repos@.map_values(|e: RepoProjection| e@), id@),
        r is Some ==> r.unwrap() < repos.len() && repos@.map_values(|e: RepoProjection| e@)[
            r.unwrap() as int].0 == id@,
{
    let ghost rv = repos@.map_values(|e: RepoProjection| e@);
    let mut i: usize = 0;
    while i < repos.len()
        invariant
            0 <= i <= repos.len(),
            rv == repos@.map_values(|e: RepoProjection| e@),
            rv.len() == repos.len(),
            forall|j: int| 0 <= j < i ==> (#[trigger] rv[j]).0 != id@,
        decreases repos.len() - i,
    {
        proof {
            assert(rv[i as int] == repos@[i as int]@);
        }
        if repos[i].id.eq(id) {
            proof {
                assert(rv[i as int].0 == id@);
                assert(repo_present(rv, id@));
            }
            return Some(i);
        }
        i += 1;
    }
    None
}

fn find_agent(agents: &Vec<AgentProjection>, id: &String) -> (r: bool)
    ensures
        r == agent_present(agents@.map_values(|a: AgentProjection| a@), id@),
{
    let ghost av = agents@.map_values(|a: AgentProjection| a@);
    let mut i: usize = 0;
    while i < agents.len()
        invariant
            0 <= i <= agents.len(),
            av == agents@.map_values(|a: AgentProjection| a@),
            av.len() == agents.len(),
            forall|j: int| 0 <= j < i ==> (#[trigger] av[j]).0 != id@,
        decreases agents.len() - i,
    {
        proof {
            assert(av[i as int] == agents@[i as int]@);
        }
        if agents[i].id.eq(id) {
            proof {
                assert(av[i as int].0 == id@);
                assert(agent_present(av, id@));
            }
            return true;
        }
        i += 1;
    }
    false
}

/// Groups the board query's answer rows into repositories and agents,
/// with every identifier still full; `project_board` shortens them.
fn group_board(rows: &Vec<Row>) -> (r: (Vec<RepoProjection>, Vec<AgentProjection>))
    ensures
        (
            r.0@.map_values(|e: RepoProjection| e@),
            r.1@.map_values(|a: AgentProjection| a@),
        ) == board_model(rows.deep_view()),
{
    let ghost r0 = rows.deep_view();
    let mut repos: Vec<RepoProjection> = Vec::new();
    let mut agents: Vec<AgentProjection> = Vec::new();
    proof {
        assert(repos@.map_values(|e: RepoProjection| e@) =~= Seq::<RepoRow>::empty());
        assert(agents@.map_values(|a: AgentProjection| a@) =~= Seq::<AgentRow>::empty());
    }
    let mut i: usize = 0;
    while i < rows.len()
        invariant
            0 <= i <= rows.len(),
            r0 == rows.deep_view(),
            r0.len() == rows.len(),
            (
                repos@.map_values(|e: RepoProjection| e@),
                agents@.map_values(|a: AgentProjection| a@),
            ) == board_model(r0.take(i as int)),
            repo_ids_unique(repos@.map_values(|e: RepoProjection| e@)),
        decreases rows.len() - i,
    {
        let ghost pre_repos = repos@.map_values(|e: RepoProjection| e@);
        let ghost pre_agents = agents@.map_values(|a: AgentProjection| a@);
        proof {
            assert(r0.take(i + 1).drop_last() =~= r0.take(i as int));
            assert(r0.take(i + 1).last() == r0[i as int]);
            assert(r0[i as int] == rows@[i as int].deep_view());
        }
        let row = &rows[i];
        let ghost rowm = r0[i as int];
        let repo_id = fetch_cleaned(row, "repo");
        let repo_name = fetch_or(row, "repoName", "Unknown");
        let idx: usize = match find_repo(&repos, &repo_id) {
            Some(found) => {
                proof {
                    let rv = repos@.map_values(|e: RepoProjection| e@);
                    let c = repo_at(rv, repo_id@);
                    assert(rv[c].0 == repo_id@);
                    assert(c == found as int);
                }
                found
            },
            None => {
                repos.push(RepoProjection { id: repo_id.clone(), name: repo_name.clone(), swarm: Vec::new() });
                proof {
                    let rv = repos@.map_values(|e: RepoProjection| e@);
                    assert(rv =~~= pre_repos.push(
                        (repo_id@, repo_name@, Seq::<Seq<char>>::empty()),
                    ));
                    assert(rv[pre_repos.len() as int].0 == repo_id@);
                    assert(repo_present(rv, repo_id@));
                    assert(forall|j: int|
                        0 <= j < pre_repos.len() ==> (#[trigger] rv[j]).0 != repo_id@);
                    let c = repo_at(rv, repo_id@);
                    assert(rv[c].0 == repo_id@);
                    assert(c == pre_repos.len() as int);
                    assert(repo_ids_unique(rv));
                }
                repos.len() - 1
            },
        };
        let ghost repos1 = repos@.map_values(|e: RepoProjection| e@);
        proof {
            assert(idx as int == repo_at(repos1, repo_id@));
        }
        match row_get(row, "agent") {
            None => {},
            Some(av) => {
                let aid = clean_val(&av);
                let member = contains_string(&repos[idx].swarm, &aid);
                proof {
                    assert(repos1[idx as int].2 == repos@[idx as int].swarm.deep_view());
                }
                if !member {
                    let mut entry = repos.remove(idx);
                    entry.swarm.push(aid.clone());
                    let ghost entry_new = entry@;
                    repos.insert(idx, entry);
                    proof {
                        let rv = repos@.map_values(|e: RepoProjection| e@);
                        let old_entry = repos1[idx as int];
                        assert(entry_new.0 == old_entry.0);
                        assert(entry_new.1 == old_entry.1);
                        assert(entry_new.2 =~~= old_entry.2.push(aid@));
                        assert(rv =~~= repos1.update(
                            idx as int,
                            (old_entry.0, old_entry.1, old_entry.2.push(aid@)),
                        ));
                        assert(repo_ids_unique(rv));
                    }
                }
                if !find_agent(&agents, &aid) {
                    let a_name = fetch_or(row, "agentName", "Agent");
                    let a_class = fetch_or(row, "agentClass", "Commoner");
                    let a_status = fetch_or(row, "agentStatus", "Standby");
                    agents.push(
                        AgentProjection {
                            id: aid,
                            name: a_name,
                            class_name: a_class,
                            current_action: a_status,
                            location: repo_name,
                        },
                    );
                    proof {
                        assert(agents@.map_values(|a: AgentProjection| a@) =~= pre_agents.push(
                            (
                                clean_opt_model(av.deep_view()),
                                fetch_or_model(rowm, "agentName"@, "Agent"@),
                                fetch_or_model(rowm, "agentClass"@, "Commoner"@),
                                fetch_or_model(rowm, "agentStatus"@, "Standby"@),
                                fetch_or_model(rowm, "repoName"@, "Unknown"@),
                            ),
                        ));
                    }
                }
            },
        }
        proof {
            assert((
                repos@.map_values(|e: RepoProjection| e@),
                agents@.map_values(|a: AgentProjection| a@),
            ) == board_fold(pre_repos, pre_agents, rowm));
        }
        i += 1;
    }
    proof {
        assert(r0.take(rows.len() as int) =~= r0);
    }
    (repos, agents)
}

/// Projects repositories and their populations from the board query's
/// answer text, identifiers shortened to their tails; a malformed answer
/// projects nothing.
pub fn project_board(body: &str) -> (r: (Vec<RepoProjection>, Vec<AgentProjection>))
    ensures
        (
            r.0@.map_values(|e: RepoProjection| e@),
            r.1@.map_values(|a: AgentProjection| a@),
        ) == match rows_of_json(body@) {
            Some(rows) => (
                short_repos_model(board_model(rows).0),
                short_agents_model(board_model(rows).1),
            ),
            None => (Seq::<RepoRow>::empty(), Seq::<AgentRow>::empty()),
        },
{
    let rows = match parse_rows(body) {
        Some(rows) => rows,
        None => {
            let r: (Vec<RepoProjection>, Vec<AgentProjection>) = (Vec::new(), Vec::new());
            proof {
                assert(r.0@.map_values(|e: RepoProjection| e@) =~= Seq::<RepoRow>::empty());
                assert(r.1@.map_values(|a: AgentProjection| a@) =~= Seq::<AgentRow>::empty());
            }
            return r;
        },
    };
    let (full_repos, full_agents) = group_board(&rows);
    let ghost frv = full_repos@.map_values(|e: RepoProjection| e@);
    let ghost fav = full_agents@.map_values(|a: AgentProjection| a@);
    let mut repos: Vec<RepoProjection> = Vec::new();
    let mut i: usize = 0;
    proof {
        assert(repos@.map_values(|e: RepoProjection| e@) =~= short_repos_model(frv.take(0)));
    }
    while i < full_repos.len()
        invariant
            0 <= i <= full_repos.len(),
            frv == full_repos@.map_values(|e: RepoProjection| e@),
            frv.len() == full_repos.len(),
            repos@.map_values(|e: RepoProjection| e@) == short_repos_model(frv.take(i as int)),
        decreases full_repos.len() - i,
    {
        let ghost pre = repos@.map_values(|e: RepoProjection| e@);
        let entry = &full_repos[i];
        let short_id = after_last_slash(entry.id.as_str());
        let mut swarm: Vec<String> = Vec::new();
        let ghost sv = entry.swarm.deep_view();
        let mut j: usize = 0;
        proof {
            assert(swarm.deep_view() =~= sv.take(0).map_values(
                |a: Seq<char>| after_last_slash_model(a),
            ));
        }
        while j < entry.swarm.len()
            invariant
                0 <= j <= entry.swarm.len(),
                sv == entry.swarm.deep_view(),
                sv.len() == entry.swarm.len(),
                swarm.deep_view() == sv.take(j as int).map_values(
                    |a: Seq<char>| after_last_slash_model(a),
                ),
            decreases entry.swarm.len() - j,
        {
            let ghost spre = swarm.deep_view();
            proof {
                assert(sv[j as int] == entry.swarm@[j as int]@);
            }
            swarm.push(after_last_slash(entry.swarm[j].as_str()));
            proof {
                assert(swarm.deep_view() =~= spre.push(after_last_slash_model(sv[j as int])));
                assert(sv.take(j + 1).map_values(|a: Seq<char>| after_last_slash_model(a)) =~= spre
                    .push(after_last_slash_model(sv[j as int])));
            }
            j += 1;
        }
        proof {
            assert(sv.take(entry.swarm.len() as int) =~= sv);
        }
        repos.push(RepoProjection { id: short_id, name: entry.name.clone(), swarm });
        proof {
            assert(frv[i as int] == full_repos@[i as int]@);
            assert(repos@.map_values(|e: RepoProjection| e@) =~= pre.push(
                (
                    after_last_slash_model(frv[i as int].0),
                    frv[i as int].1,
                    frv[i as int].2.map_values(|a: Seq<char>| after_last_slash_model(a)),
                ),
            ));
            assert(short_repos_model(frv.take(i + 1)) =~= pre.push(
                (
                    after_last_slash_model(frv[i as int].0),
                    frv[i as int].1,
                    frv[i as int].2.map_values(|a: Seq<char>| after_last_slash_model(a)),
                ),
            ));
        }
        i += 1;
    }
    proof {
        assert(frv.take(full_repos.len() as int) =~= frv);
    }
    let mut agents: Vec<AgentProjection> = Vec::new();
    let mut k: usize = 0;
    proof {
        assert(agents@.map_values(|a: AgentProjection| a@) =~= short_agents_model(fav.take(0)));
    }
    while k < full_agents.len()
        invariant
            0 <= k <= full_agents.len(),
            fav == full_agents@.map_values(|a: AgentProjection| a@),
            fav.len() == full_agents.len(),
            agents@.map_values(|a: AgentProjection| a@) == short_agents_model(fav.take(k as int)),
        decreases full_agents.len() - k,
    {
        let ghost pre = agents@.map_values(|a: AgentProjection| a@);
        let a = &full_agents[k];
        agents.push(
            AgentProjection {
                id: after_last_slash(a.id.as_str()),
                name: a.name.clone(),
                class_name: a.class_name.clone(),
                current_action: a.current_action.clone(),
                location: a.location.clone(),
            },
        );
        proof {
            assert(fav[k as int] == full_agents@[k as int]@);
            assert(agents@.map_values(|a: AgentProjection| a@) =~= pre.push(
                (after_last_slash_model(fav[k as int].0), fav[k as int].1, fav[k as int].2, fav[
                    k as int].3, fav[k as int].4),
            ));
            assert(short_agents_model(fav.take(k + 1)) =~= pre.push(
                (after_last_slash_model(fav[k as int].0), fav[k as int].1, fav[k as int].2, fav[
                    k as int].3, fav[k as int].4),
            ));
        }
        k += 1;
    }
    proof {
        assert(fav.take(full_agents.len() as int) =~= fav);
    }
    (repos, agents)
}

} // verus!
