//! The connection registry: which outbound channel serves which logical
//! browser connection, and where an envelope is to be delivered.
use vstd::prelude::*;
use crate::envelope::{inspect, is_json, json_payload_string};

verus! {

/// One registered connection: its id, the browser it reported, and the
/// channel that reaches it.
#[derive(Debug, Clone)]
pub struct ConnectionRecord<C> {
    pub id: String,
    pub browser: Option<String>,
    pub channel: C,
}

/// The index of the record with id `id`, searching from the back.
pub open spec fn find<C>(recs: Seq<ConnectionRecord<C>>, id: Seq<char>) -> Option<int>
    decreases recs.len(),
{
    if recs.len() == 0 {
        None
    } else if recs.last().id@ == id {
        Some(recs.len() - 1)
    } else {
        find(recs.drop_last(), id)
    }
}

/// No two records share an id.
pub open spec fn ids_unique<C>(recs: Seq<ConnectionRecord<C>>) -> bool {
    forall|i: int, j: int| 0 <= i < j < recs.len() ==> recs[i].id@ != recs[j].id@
}

/// The records after `upsert(id, browser, channel)`: the record for `id` is
/// replaced in place, or a new one is appended.
pub open spec fn upserted<C>(recs: Seq<ConnectionRecord<C>>, rec: ConnectionRecord<C>) -> Seq<ConnectionRecord<C>> {
    match find(recs, rec.id@) {
        Some(i) => recs.update(i, rec),
        None => recs.push(rec),
    }
}

/// The records after `remove(id)`.
pub open spec fn removed<C>(recs: Seq<ConnectionRecord<C>>, id: Seq<char>) -> Seq<ConnectionRecord<C>> {
    match find(recs, id) {
        Some(i) => recs.remove(i),
        None => recs,
    }
}

/// The channels an envelope goes to: the one registered under its target, none
/// when the target is unknown, every channel when it names no target.
pub open spec fn route_spec<C>(recs: Seq<ConnectionRecord<C>>, target: Option<Seq<char>>) -> Seq<C> {
    match target {
        Some(id) => match find(recs, id) {
            Some(i) => seq![recs[i].channel],
            None => Seq::empty(),
        },
        None => Seq::new(recs.len(), |i: int| recs[i].channel),
    }
}

/// The view of an optional owned text.
pub open spec fn label_view(b: Option<String>) -> Option<Seq<char>> {
    match b {
        Some(t) => Some(t@),
        None => None,
    }
}

/// The ids and browser labels of the registered connections.
pub open spec fn snapshot_spec<C>(recs: Seq<ConnectionRecord<C>>) -> Seq<(Seq<char>, Option<Seq<char>>)> {
    Seq::new(recs.len(), |i: int| (recs[i].id@, label_view(recs[i].browser)))
}

/// The view of a list of (id, browser label) pairs.
pub open spec fn pairs_view(v: Seq<(String, Option<String>)>) -> Seq<(Seq<char>, Option<Seq<char>>)> {
    Seq::new(v.len(), |i: int| (v[i].0@, label_view(v[i].1)))
}

/// The values behind a list of references.
pub open spec fn deref_all<C>(v: Seq<&C>) -> Seq<C> {
    Seq::new(v.len(), |i: int| *v[i])
}

proof fn lemma_find<C>(recs: Seq<ConnectionRecord<C>>, id: Seq<char>)
    ensures
        find(recs, id) matches Some(i) ==> 0 <= i < recs.len() && recs[i].id@ == id,
        find(recs, id) is None ==> forall|k: int| 0 <= k < recs.len() ==> recs[k].id@ != id,
    decreases recs.len(),
{
    if recs.len() > 0 {
        lemma_find(recs.drop_last(), id);
        assert forall|k: int| 0 <= k < recs.len() - 1 implies recs.drop_last()[k] == recs[k] by {}
    }
}

proof fn lemma_find_unique<C>(recs: Seq<ConnectionRecord<C>>, id: Seq<char>, k: int)
    requires
        ids_unique(recs),
        0 <= k < recs.len(),
        recs[k].id@ == id,
    ensures
        find(recs, id) == Some(k),
{
    lemma_find(recs, id);
    if let Some(i) = find(recs, id) {
        assert(i == k);
    }
}

/// The live connections, keyed by connection id.
pub struct ConnectionRegistry<C> {
    records: Vec<ConnectionRecord<C>>,
}

impl<C> ConnectionRegistry<C> {
    /// The records, in order of registration.
    pub closed spec fn records(&self) -> Seq<ConnectionRecord<C>> {
        self.records@
    }

    /// The registry holds at most one record per id.
    pub open spec fn wf(&self) -> bool {
        ids_unique(self.records())
    }

    /// An empty registry.
    pub fn new() -> (r: ConnectionRegistry<C>)
        ensures
            r.wf(),
            r.records() == Seq::<ConnectionRecord<C>>::empty(),
    {
        ConnectionRegistry { records: Vec::new() }
    }

    /// The position of the record for `id`.
    fn position(&self, id: &str) -> (r: Option<usize>)
        ensures
            r matches Some(i) ==> find(self.records(), id@) == Some(i as int) && i
                < self.records().len(),
            r is None ==> find(self.records(), id@) is None,
    {
        let mut i: usize = self.records.len();
        assert(self.records@.take(i as int) =~= self.records@);
        proof {
            lemma_find(self.records@, id@);
        }
        while i > 0
            invariant
                i <= self.records@.len(),
                forall|k: int| i <= k < self.records@.len() ==> self.records@[k].id@ != id@,
                find(self.records@, id@) == find(self.records@.take(i as int), id@),
            decreases i,
        {
            let ghost prefix = self.records@.take(i as int);
            assert(prefix.drop_last() =~= self.records@.take(i - 1));
            if self.records[i - 1].id.as_str().to_owned().eq(&id.to_owned()) {
                return Some(i - 1);
            }
            i = i - 1;
        }
        assert(self.records@.take(0) =~= Seq::<ConnectionRecord<C>>::empty());
        None
    }

    /// Whether a connection is registered under `id`.
    pub fn contains(&self, id: &str) -> (r: bool)
        ensures
            r == find(self.records(), id@) is Some,
    {
        self.position(id).is_some()
    }

    /// Registers `channel` under `id`, replacing any earlier record for it.
    pub fn upsert(&mut self, id: String, browser: Option<String>, channel: C)
        requires
            old(self).wf(),
        ensures
            final(self).wf(),
            final(self).records() == upserted(
                old(self).records(),
                ConnectionRecord { id, browser, channel },
            ),
    {
        let ghost rec = ConnectionRecord { id, browser, channel };
        let ghost before = self.records@;
        let pos = self.position(id.as_str());
        let rec = ConnectionRecord { id, browser, channel };
        proof {
            lemma_find(before, rec.id@);
        }
        match pos {
            Some(i) => {
                self.records.set(i, rec);
            },
            None => {
                self.records.push(rec);
            },
        }
        assert(ids_unique(self.records@));
    }

    /// Forgets the record for `id`, if there is one.
    pub fn remove(&mut self, id: &str)
        requires
            old(self).wf(),
        ensures
            final(self).wf(),
            final(self).records() == removed(old(self).records(), id@),
    {
        let pos = self.position(id);
        if let Some(i) = pos {
            let ghost before = self.records@;
            self.records.remove(i);
            assert forall|a: int, b: int| 0 <= a < b < self.records@.len() implies self.records@[a].id@
                != self.records@[b].id@ by {
                let a0 = if a < i { a } else { a + 1 };
                let b0 = if b < i { b } else { b + 1 };
                assert(self.records@[a] == before[a0]);
                assert(self.records@[b] == before[b0]);
            }
        }
    }

    /// The channels an envelope addressed to `target` goes to.
    pub fn route(&self, target: Option<&str>) -> (r: Vec<&C>)
        ensures
            deref_all(r@) == route_spec(self.records(), crate::focus::opt_view(target)),
    {
        let mut out: Vec<&C> = Vec::new();
        match target {
            Some(id) => {
                if let Some(i) = self.position(id) {
                    out.push(&self.records[i].channel);
                }
            },
            None => {
                let mut i: usize = 0;
                while i < self.records.len()
                    invariant
                        i <= self.records@.len(),
                        out@.len() == i,
                        forall|k: int| 0 <= k < i ==> *out@[k] == self.records@[k].channel,
                    decreases self.records@.len() - i,
                {
                    out.push(&self.records[i].channel);
                    i = i + 1;
                }
            },
        }
        assert(deref_all(out@) =~= route_spec(self.records(), crate::focus::opt_view(target)));
        out
    }

    /// The channels an envelope text goes to: routed by its
    /// `payload.connectionId`, and to none when the text is not JSON.
    pub fn route_text(&self, text: &str) -> (r: Vec<&C>)
        ensures
            !is_json(text@) ==> r@.len() == 0,
            is_json(text@) ==> deref_all(r@) == route_spec(
                self.records(),
                json_payload_string(text@, "connectionId"@),
            ),
    {
        match inspect(text) {
            None => Vec::new(),
            Some(info) => {
                let target = match &info.connection_id {
                    Some(c) => Some(c.as_str()),
                    None => None,
                };
                self.route(target)
            },
        }
    }

    /// The target of a text the desktop shell sends: its
    /// `payload.connectionId` when it is JSON, none otherwise.
    pub open spec fn send_target(text: Seq<char>) -> Option<Seq<char>> {
        if is_json(text) {
            json_payload_string(text, "connectionId"@)
        } else {
            None
        }
    }

    /// The channels a text sent by the desktop shell goes to: routed by its
    /// `payload.connectionId`, and to every channel when it names none or is
    /// not JSON at all.
    pub fn route_send(&self, text: &str) -> (r: Vec<&C>)
        ensures
            deref_all(r@) == route_spec(self.records(), Self::send_target(text@)),
    {
        match inspect(text) {
            None => self.route(None),
            Some(info) => {
                let target = match &info.connection_id {
                    Some(c) => Some(c.as_str()),
                    None => None,
                };
                self.route(target)
            },
        }
    }

    /// The id and browser label of every registered connection.
    pub fn snapshot(&self) -> (r: Vec<(String, Option<String>)>)
        ensures
            pairs_view(r@) == snapshot_spec(self.records()),
    {
        let mut out: Vec<(String, Option<String>)> = Vec::new();
        let mut i: usize = 0;
        while i < self.records.len()
            invariant
                i <= self.records@.len(),
                out@.len() == i,
                forall|k: int|
                    0 <= k < i ==> out@[k].0@ == self.records@[k].id@ && label_view(out@[k].1)
                        == label_view(self.records@[k].browser),
            decreases self.records@.len() - i,
        {
            let rec = &self.records[i];
            let browser = match &rec.browser {
                Some(b) => Some(b.clone()),
                None => None,
            };
            out.push((rec.id.clone(), browser));
            i = i + 1;
        }
        assert(pairs_view(out@) =~= snapshot_spec(self.records@));
        out
    }
}


proof fn lemma_upserted_unique<C>(recs: Seq<ConnectionRecord<C>>, rec: ConnectionRecord<C>)
    requires
        ids_unique(recs),
    ensures
        ids_unique(upserted(recs, rec)),
        find(upserted(recs, rec), rec.id@) is Some,
{
    lemma_find(recs, rec.id@);
    let up = upserted(recs, rec);
    match find(recs, rec.id@) {
        Some(i) => {
            assert(up[i].id@ == rec.id@);
            lemma_find_unique(up, rec.id@, i);
        },
        None => {
            assert(up[recs.len() as int] == rec);
            lemma_find_unique(up, rec.id@, recs.len() as int);
        },
    }
}

proof fn lemma_removed_absent<C>(recs: Seq<ConnectionRecord<C>>, id: Seq<char>)
    requires
        ids_unique(recs),
    ensures
        forall|k: int| 0 <= k < removed(recs, id).len() ==> removed(recs, id)[k].id@ != id,
        find(removed(recs, id), id) is None,
{
    lemma_find(recs, id);
    let after = removed(recs, id);
    if let Some(i) = find(recs, id) {
        assert forall|k: int| 0 <= k < after.len() implies after[k].id@ != id by {
            if k < i {
                assert(after[k] == recs[k]);
            } else {
                assert(after[k] == recs[k + 1]);
            }
        }
    }
    lemma_find(after, id);
}

/// An envelope addressed to a registered connection goes to exactly one
/// channel: the one registered under that id.
pub proof fn route_to_registered<C>(reg: ConnectionRegistry<C>, id: Seq<char>, k: int)
    requires
        reg.wf(),
        0 <= k < reg.records().len(),
        reg.records()[k].id@ == id,
    ensures
        route_spec(reg.records(), Some(id)) == seq![reg.records()[k].channel],
{
    lemma_find_unique(reg.records(), id, k);
}

/// An envelope addressed to an id that is not registered goes nowhere.
pub proof fn route_to_unknown<C>(reg: ConnectionRegistry<C>, id: Seq<char>)
    requires
        forall|k: int| 0 <= k < reg.records().len() ==> reg.records()[k].id@ != id,
    ensures
        route_spec(reg.records(), Some(id)).len() == 0,
{
    lemma_find(reg.records(), id);
}

/// An envelope with no target goes to every registered channel, once each.
pub proof fn route_without_target<C>(reg: ConnectionRegistry<C>)
    ensures
        route_spec(reg.records(), None).len() == reg.records().len(),
        forall|k: int|
            0 <= k < reg.records().len() ==> route_spec(reg.records(), None)[k]
                == reg.records()[k].channel,
{
}

/// Registering a connection and then disconnecting it leaves it out of the
/// snapshot, and envelopes addressed to it afterwards go nowhere.
pub proof fn register_then_disconnect<C>(reg: ConnectionRegistry<C>, rec: ConnectionRecord<C>)
    requires
        reg.wf(),
    ensures
        ({
            let after = removed(upserted(reg.records(), rec), rec.id@);
            &&& forall|k: int| 0 <= k < snapshot_spec(after).len() ==> snapshot_spec(after)[k].0 != rec.id@
            &&& route_spec(after, Some(rec.id@)).len() == 0
        }),
{
    lemma_upserted_unique(reg.records(), rec);
    lemma_removed_absent(upserted(reg.records(), rec), rec.id@);
}

} // verus!
