//! Facts and a model of the fact store's write semantics.
//!
//! The store itself is an external service; every write this crate plans is
//! a batch of subject-predicate-object triples handed to it in one ingest
//! call. `StoreModel` captures the store's contract — a fact overwrites any
//! earlier fact with the same subject and predicate, last write wins — so
//! that the scheduler's guarantees can be stated and proved against it.

use vstd::prelude::*;

verus! {

/// A subject-predicate-object fact, the unit of every store write.
pub struct Triple {
    pub subject: String,
    pub predicate: String,
    pub object: String,
}

/// The mathematical shape of a fact.
pub type FactModel = (Seq<char>, Seq<char>, Seq<char>);

impl View for Triple {
    type V = FactModel;

    open spec fn view(&self) -> FactModel {
        (self.subject@, self.predicate@, self.object@)
    }
}

impl Triple {
    pub fn new(subject: String, predicate: String, object: String) -> (r: Triple)
        ensures
            r@ == (subject@, predicate@, object@),
    {
        Triple { subject, predicate, object }
    }

    pub fn duplicate(&self) -> (r: Triple)
        ensures
            r@ == self@,
    {
        Triple {
            subject: self.subject.clone(),
            predicate: self.predicate.clone(),
            object: self.object.clone(),
        }
    }
}

/// The rdf:type predicate, shared by every class-membership fact.
pub open spec fn rdf_type_predicate() -> Seq<char> {
    "http://www.w3.org/1999/02/22-rdf-syntax-ns#type"@
}

/// A string-literal object as the store encodes it: wrapped in quotes.
pub open spec fn quoted(s: Seq<char>) -> Seq<char> {
    "\""@ + s + "\""@
}

/// Wraps a value in the store's string-literal quotes.
pub fn quote_str(s: &str) -> (r: String)
    ensures
        r@ == quoted(s@),
{
    String::from_str("\"").concat(s).concat("\"")
}

/// The state the store reaches when the facts of `batch` are applied to `m`
/// in order, each overwriting the value at its (subject, predicate) key.
pub open spec fn store_apply(
    m: Map<(Seq<char>, Seq<char>), Seq<char>>,
    batch: Seq<FactModel>,
) -> Map<(Seq<char>, Seq<char>), Seq<char>>
    decreases batch.len(),
{
    if batch.len() == 0 {
        m
    } else {
        store_apply(m, batch.drop_last()).insert(
            (batch.last().0, batch.last().1),
            batch.last().2,
        )
    }
}

/// An in-memory model of the external fact store: the facts ingested so
/// far, in order. Its view is the resulting (subject, predicate) -> object
/// mapping under last-write-wins.
pub struct StoreModel {
    facts: Vec<Triple>,
}

impl View for StoreModel {
    type V = Map<(Seq<char>, Seq<char>), Seq<char>>;

    closed spec fn view(&self) -> Map<(Seq<char>, Seq<char>), Seq<char>> {
        store_apply(Map::empty(), self.facts@.map_values(|t: Triple| t@))
    }
}

proof fn lemma_apply_push(
    m: Map<(Seq<char>, Seq<char>), Seq<char>>,
    batch: Seq<FactModel>,
    t: FactModel,
)
    ensures
        store_apply(m, batch.push(t)) == store_apply(m, batch).insert((t.0, t.1), t.2),
{
    assert(batch.push(t).drop_last() =~= batch);
    assert(batch.push(t).last() == t);
}

proof fn lemma_apply_get_skip(facts: Seq<FactModel>, i: int, k: (Seq<char>, Seq<char>))
    requires
        0 <= i <= facts.len(),
        forall|j: int| i <= j < facts.len() ==> ((#[trigger] facts[j]).0, facts[j].1) != k,
    ensures
        store_apply(Map::empty(), facts).contains_key(k) == store_apply(
            Map::empty(),
            facts.take(i),
        ).contains_key(k),
        store_apply(Map::empty(), facts).contains_key(k) ==> store_apply(Map::empty(), facts)[k]
            == store_apply(Map::empty(), facts.take(i))[k],
    decreases facts.len() - i,
{
    if i < facts.len() {
        lemma_apply_get_skip(facts, i + 1, k);
        assert(facts.take(i + 1).drop_last() =~= facts.take(i));
        assert(facts.take(i + 1).last() == facts[i]);
    } else {
        assert(facts.take(i) =~= facts);
    }
}

impl StoreModel {
    pub fn empty() -> (r: StoreModel)
        ensures
            r@ == Map::<(Seq<char>, Seq<char>), Seq<char>>::empty(),
    {
        StoreModel { facts: Vec::new() }
    }

    /// Applies one ingest call: every fact of `batch`, in order, overwrites
    /// the object held at its (subject, predicate) key.
    pub fn ingest(&mut self, batch: &Vec<Triple>)
        ensures
            final(self)@ == store_apply(old(self)@, batch@.map_values(|t: Triple| t@)),
    {
        let ghost b0 = batch@.map_values(|t: Triple| t@);
        let mut i: usize = 0;
        while i < batch.len()
            invariant
                0 <= i <= batch.len(),
                b0 == batch@.map_values(|t: Triple| t@),
                self@ == store_apply(old(self)@, b0.take(i as int)),
            decreases batch.len() - i,
        {
            let ghost pre = self@;
            let t = batch[i].duplicate();
            proof {
                lemma_apply_push(Map::empty(), self.facts@.map_values(|t: Triple| t@), t@);
                assert(self.facts@.push(t).map_values(|t: Triple| t@) =~= self.facts@.map_values(
                    |t: Triple| t@,
                ).push(t@));
            }
            self.facts.push(t);
            proof {
                lemma_apply_push(old(self)@, b0.take(i as int), b0[i as int]);
                assert(b0.take(i as int).push(b0[i as int]) =~= b0.take(i + 1 as int));
                assert(self@ == pre.insert((b0[i as int].0, b0[i as int].1), b0[i as int].2));
            }
            i += 1;
        }
        proof {
            assert(b0.take(batch.len() as int) =~= b0);
        }
    }

    /// The object currently held at (subject, predicate), if any.
    pub fn value_of(&self, subject: &str, predicate: &str) -> (r: Option<String>)
        ensures
            r.deep_view() == if self@.contains_key((subject@, predicate@)) {
                Some(self@[(subject@, predicate@)])
            } else {
                None::<Seq<char>>
            },
    {
        let sk = String::from_str(subject);
        let pk = String::from_str(predicate);
        let ghost fs = self.facts@.map_values(|t: Triple| t@);
        let ghost k = (subject@, predicate@);
        let mut i: usize = self.facts.len();
        while i > 0
            invariant
                0 <= i <= self.facts.len(),
                sk@ == subject@,
                pk@ == predicate@,
                fs == self.facts@.map_values(|t: Triple| t@),
                fs.len() == self.facts.len(),
                k == (subject@, predicate@),
                self@ == store_apply(Map::empty(), fs),
                forall|j: int|
                    i <= j < fs.len() ==> ((#[trigger] fs[j]).0, fs[j].1) != (subject@, predicate@),
            decreases i,
        {
            let t = &self.facts[i - 1];
            proof {
                assert(fs[i - 1] == (t.subject@, t.predicate@, t.object@));
            }
            if t.subject.eq(&sk) && t.predicate.eq(&pk) {
                proof {
                    lemma_apply_get_skip(fs, i as int, k);
                    lemma_apply_push(Map::empty(), fs.take(i - 1), fs[i - 1]);
                    assert(fs.take(i - 1).push(fs[i - 1]) =~= fs.take(i as int));
                    assert((fs[i - 1].0, fs[i - 1].1) == k);
                }
                return Some(t.object.clone());
            }
            i -= 1;
        }
        proof {
            lemma_apply_get_skip(fs, 0, k);
            assert(fs.take(0) =~= Seq::<FactModel>::empty());
        }
        None
    }
}

} // verus!
