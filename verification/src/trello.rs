//! The task-source ingester's decision logic.
//!
//! Each poll enumerates the board's lists, keeps the allow-listed ones,
//! and for every card in an interesting list decides by the (card id, list
//! name) dedup key whether to ingest a Task fact. A card seen again in the
//! same list is never re-ingested; the same card in a different
//! interesting list is — list moves become task-state transitions.

use vstd::prelude::*;
use crate::agency::{state_predicate, task_class, title_predicate};
use crate::store::{quote_str, quoted, rdf_type_predicate, FactModel, Triple};
use crate::text::str_eq;
use crate::wire::{named_items_of_json, parse_named_items};

verus! {

/// The fixed allow-list of board lists the ingester watches.
pub open spec fn interesting_list_model(name: Seq<char>) -> bool {
    name == "REQUIREMENTS"@ || name == "DESIGN"@ || name == "TODO"@ || name == "INBOX"@
}

/// Whether a board list is on the allow-list.
pub fn interesting_list(name: &str) -> (r: bool)
    ensures
        r == interesting_list_model(name@),
{
    str_eq(name, "REQUIREMENTS") || str_eq(name, "DESIGN") || str_eq(name, "TODO") || str_eq(
        name,
        "INBOX",
    )
}

/// The interesting (id, name) lists among a board answer's items, in
/// board order.
pub open spec fn interesting_items_model(items: Seq<(Seq<char>, Seq<char>)>) -> Seq<
    (Seq<char>, Seq<char>),
>
    decreases items.len(),
{
    if items.len() == 0 {
        Seq::empty()
    } else {
        let rest = interesting_items_model(items.drop_last());
        if interesting_list_model(items.last().1) {
            rest.push(items.last())
        } else {
            rest
        }
    }
}

/// Reads a board answer listing the board's lists and keeps the
/// interesting ones; `None` reports a malformed answer.
pub fn select_interesting_lists(body: &str) -> (r: Option<Vec<(String, String)>>)
    ensures
        match named_items_of_json(body@) {
            Some(items) => r is Some && r.unwrap().deep_view() == interesting_items_model(items),
            None => r is None,
        },
{
    let items = match parse_named_items(body) {
        Some(items) => items,
        None => {
            return None;
        },
    };
    let ghost i0 = items.deep_view();
    let mut out: Vec<(String, String)> = Vec::new();
    let mut i: usize = 0;
    while i < items.len()
        invariant
            0 <= i <= items.len(),
            i0 == items.deep_view(),
            i0.len() == items.len(),
            out.deep_view() == interesting_items_model(i0.take(i as int)),
        decreases items.len() - i,
    {
        let ghost pre = out.deep_view();
        proof {
            assert(i0.take(i + 1).drop_last() =~= i0.take(i as int));
            assert(i0.take(i + 1).last() == i0[i as int]);
            assert(i0[i as int] == items@[i as int].deep_view());
        }
        let item = &items[i];
        if interesting_list(item.1.as_str()) {
            out.push((item.0.clone(), item.1.clone()));
            proof {
                assert(out.deep_view() =~= pre.push((item.0@, item.1@)));
            }
        }
        i += 1;
    }
    proof {
        assert(i0.take(items.len() as int) =~= i0);
    }
    Some(out)
}

/// The subject naming the task created from a board card.
pub open spec fn card_subject(card_id: Seq<char>) -> Seq<char> {
    "http://swarm.os/trello/card/"@ + card_id
}

/// The ingest batch for a newly sighted card: a Task fact whose state is
/// the list's name and whose title is the card's name.
pub open spec fn card_batch_model(
    card_id: Seq<char>,
    card_name: Seq<char>,
    list_name: Seq<char>,
) -> Seq<FactModel> {
    seq![
        (card_subject(card_id), rdf_type_predicate(), task_class()),
        (card_subject(card_id), state_predicate(), quoted(list_name)),
        (card_subject(card_id), title_predicate(), quoted(card_name)),
    ]
}

/// The ingester's process-local memory of already-ingested (card id, list
/// name) pairs. Owned by the one polling loop; lost on restart.
pub struct DedupSet {
    seen: Vec<(String, String)>,
}

impl View for DedupSet {
    type V = Set<(Seq<char>, Seq<char>)>;

    closed spec fn view(&self) -> Set<(Seq<char>, Seq<char>)> {
        self.seen.deep_view().to_set()
    }
}

impl DedupSet {
    pub fn new() -> (r: DedupSet)
        ensures
            r@ == Set::<(Seq<char>, Seq<char>)>::empty(),
    {
        let r = DedupSet { seen: Vec::new() };
        proof {
            assert forall|k: (Seq<char>, Seq<char>)| !r@.contains(k) by {
                assert(!r.seen.deep_view().contains(k));
            }
            assert(r@ =~= Set::<(Seq<char>, Seq<char>)>::empty());
        }
        r
    }

    /// Whether this (card id, list name) pair has been ingested already.
    pub fn contains_key(&self, card_id: &str, list_name: &str) -> (r: bool)
        ensures
            r == self@.contains((card_id@, list_name@)),
    {
        let ghost sv = self.seen.deep_view();
        let ghost k = (card_id@, list_name@);
        let ck = String::from_str(card_id);
        let lk = String::from_str(list_name);
        let mut i: usize = 0;
        while i < self.seen.len()
            invariant
                0 <= i <= self.seen.len(),
                sv == self.seen.deep_view(),
                sv.len() == self.seen.len(),
                ck@ == card_id@,
                lk@ == list_name@,
                k == (card_id@, list_name@),
                forall|j: int| 0 <= j < i ==> sv[j] != k,
            decreases self.seen.len() - i,
        {
            proof {
                assert(sv[i as int] == (self.seen[i as int].0@, self.seen[i as int].1@));
            }
            if self.seen[i].0.eq(&ck) && self.seen[i].1.eq(&lk) {
                proof {
                    assert(sv.contains(k));
                }
                return true;
            }
            i += 1;
        }
        proof {
            assert(!sv.contains(k));
        }
        false
    }

    fn insert(&mut self, card_id: String, list_name: String)
        ensures
            final(self)@ == old(self)@.insert((card_id@, list_name@)),
    {
        let ghost pre = self.seen.deep_view();
        let ghost k = (card_id@, list_name@);
        self.seen.push((card_id, list_name));
        proof {
            assert(self.seen.deep_view() =~= pre.push(k));
            assert forall|x: (Seq<char>, Seq<char>)|
                self@.contains(x) == old(self)@.insert(k).contains(x) by {
                if pre.push(k).contains(x) {
                    let j = choose|j: int| 0 <= j < pre.push(k).len() && pre.push(k)[j] == x;
                    if j < pre.len() {
                        assert(pre.contains(x));
                    }
                }
                if pre.contains(x) {
                    let j = choose|j: int| 0 <= j < pre.len() && pre[j] == x;
                    assert(pre.push(k)[j] == x);
                    assert(pre.push(k).contains(x));
                }
                if x == k {
                    assert(pre.push(k)[pre.len() as int] == x);
                    assert(pre.push(k).contains(x));
                }
            }
            assert(self@ =~= old(self)@.insert(k));
        }
    }

    /// Decides one card sighting: a key not seen yet yields the card's
    /// ingest batch and is remembered; a key already seen yields nothing.
    pub fn process_card(&mut self, card_id: &str, card_name: &str, list_name: &str) -> (r: Option<
        Vec<Triple>,
    >)
        ensures
            r is Some <==> !old(self)@.contains((card_id@, list_name@)),
            final(self)@ == old(self)@.insert((card_id@, list_name@)),
            r is Some ==> r.unwrap()@.map_values(|t: Triple| t@) == card_batch_model(
                card_id@,
                card_name@,
                list_name@,
            ),
    {
        if self.contains_key(card_id, list_name) {
            proof {
                assert(old(self)@.insert((card_id@, list_name@)) =~= old(self)@);
            }
            return None;
        }
        let mut batch: Vec<Triple> = Vec::new();
        let subject = String::from_str("http://swarm.os/trello/card/").concat(card_id);
        batch.push(
            Triple::new(
                subject.clone(),
                String::from_str("http://www.w3.org/1999/02/22-rdf-syntax-ns#type"),
                String::from_str("http://swarm.os/ontology/Task"),
            ),
        );
        batch.push(
            Triple::new(
                subject.clone(),
                String::from_str("http://swarm.os/ontology/internalState"),
                quote_str(list_name),
            ),
        );
        batch.push(
            Triple::new(
                subject,
                String::from_str("http://swarm.os/ontology/title"),
                quote_str(card_name),
            ),
        );
        proof {
            assert(batch@.map_values(|t: Triple| t@) =~= card_batch_model(
                card_id@,
                card_name@,
                list_name@,
            ));
        }
        self.insert(String::from_str(card_id), String::from_str(list_name));
        Some(batch)
    }
}

/// The dedup state and per-card batches after working through `cards` of
/// one interesting list, in order.
pub open spec fn cards_fold_model(
    s: Set<(Seq<char>, Seq<char>)>,
    cards: Seq<(Seq<char>, Seq<char>)>,
    list_name: Seq<char>,
) -> (Set<(Seq<char>, Seq<char>)>, Seq<Seq<FactModel>>)
    decreases cards.len(),
{
    if cards.len() == 0 {
        (s, Seq::empty())
    } else {
        let (s1, batches) = cards_fold_model(s, cards.drop_last(), list_name);
        let card = cards.last();
        if s1.contains((card.0, list_name)) {
            (s1, batches)
        } else {
            (
                s1.insert((card.0, list_name)),
                batches.push(card_batch_model(card.0, card.1, list_name)),
            )
        }
    }
}

/// Works through one list's card answer: every card not yet seen under
/// this list yields one ingest batch and is remembered. `None` reports a
/// malformed answer and leaves the dedup state unchanged.
pub fn plan_card_ingests(body: &str, list_name: &str, dedup: &mut DedupSet) -> (r: Option<
    Vec<Vec<Triple>>,
>)
    ensures
        match named_items_of_json(body@) {
            Some(cards) => {
                &&& r is Some
                &&& (final(dedup)@, r.unwrap()@.map_values(
                    |b: Vec<Triple>| b@.map_values(|t: Triple| t@),
                )) == cards_fold_model(old(dedup)@, cards, list_name@)
            },
            None => r is None && final(dedup)@ == old(dedup)@,
        },
{
    let cards = match parse_named_items(body) {
        Some(cards) => cards,
        None => {
            return None;
        },
    };
    let ghost c0 = cards.deep_view();
    let ghost s0 = dedup@;
    let mut out: Vec<Vec<Triple>> = Vec::new();
    let mut i: usize = 0;
    while i < cards.len()
        invariant
            0 <= i <= cards.len(),
            c0 == cards.deep_view(),
            c0.len() == cards.len(),
            s0 == old(dedup)@,
            (dedup@, out@.map_values(|b: Vec<Triple>| b@.map_values(|t: Triple| t@)))
                == cards_fold_model(s0, c0.take(i as int), list_name@),
        decreases cards.len() - i,
    {
        let ghost pre_set = dedup@;
        let ghost pre_out = out@.map_values(|b: Vec<Triple>| b@.map_values(|t: Triple| t@));
        proof {
            assert(c0.take(i + 1).drop_last() =~= c0.take(i as int));
            assert(c0.take(i + 1).last() == c0[i as int]);
            assert(c0[i as int] == cards@[i as int].deep_view());
        }
        let card = &cards[i];
        match dedup.process_card(card.0.as_str(), card.1.as_str(), list_name) {
            Some(batch) => {
                out.push(batch);
                proof {
                    assert(out@.map_values(|b: Vec<Triple>| b@.map_values(|t: Triple| t@))
                        =~= pre_out.push(card_batch_model(card.0@, card.1@, list_name@)));
                }
            },
            None => {
                proof {
                    assert(dedup@ =~= pre_set);
                }
            },
        }
        i += 1;
    }
    proof {
        assert(c0.take(cards.len() as int) =~= c0);
    }
    Some(out)
}

/// Dedup idempotence: after any sighting of a (card id, list name) key the
/// dedup state contains that key, so by `process_card`'s contract a second
/// sighting of the same key within the process lifetime yields no second
/// ingest batch.
pub proof fn lemma_dedup_idempotent(
    s: Set<(Seq<char>, Seq<char>)>,
    card_id: Seq<char>,
    list_name: Seq<char>,
)
    ensures
        s.insert((card_id, list_name)).contains((card_id, list_name)),
{
}

/// List-move re-ingestion: a card already ingested under one list is still
/// unseen under a different list, so by `process_card`'s contract the move
/// yields a second ingest batch, whose state object carries the new list's
/// name and differs from the first batch's.
pub proof fn lemma_list_move_reingested(
    s: Set<(Seq<char>, Seq<char>)>,
    card_id: Seq<char>,
    card_name: Seq<char>,
    from_list: Seq<char>,
    to_list: Seq<char>,
)
    requires
        from_list != to_list,
        !s.contains((card_id, to_list)),
    ensures
        !s.insert((card_id, from_list)).contains((card_id, to_list)),
        card_batch_model(card_id, card_name, from_list)[1].2 == quoted(from_list),
        card_batch_model(card_id, card_name, to_list)[1].2 == quoted(to_list),
        quoted(from_list) != quoted(to_list),
{
    reveal_strlit("\"");
    assert("\""@.len() == 1);
    if quoted(from_list) == quoted(to_list) {
        assert(quoted(from_list).len() == 2 + from_list.len());
        assert(quoted(to_list).len() == 2 + to_list.len());
        assert(from_list.len() == to_list.len());
        assert forall|i: int| 0 <= i < from_list.len() implies from_list[i] == to_list[i] by {
            assert(quoted(from_list)[i + 1] == from_list[i]);
            assert(quoted(to_list)[i + 1] == to_list[i]);
        }
        assert(from_list =~= to_list);
    }
}

} // verus!
