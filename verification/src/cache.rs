//! The ticket cache: which title belongs to which ticket id.

use crate::wire::{list_under, listed};
use json::JsonValue;
use vstd::prelude::*;

verus! {

/// A work item of the tracker: its key and its title.
#[derive(Debug, PartialEq, Eq)]
pub struct Ticket {
    /// The key by which the tracker knows it: `ABC-123`.
    pub id: String,
    /// Its summary.
    pub title: String,
}

impl View for Ticket {
    type V = (Seq<char>, Seq<char>);

    open spec fn view(&self) -> (Seq<char>, Seq<char>) {
        (self.id@, self.title@)
    }
}

impl Ticket {
    /// The ticket with this id and this title.
    pub fn new(id: &str, title: &str) -> (r: Ticket)
        ensures
            r@ == (id@, title@),
    {
        Ticket { id: id.to_owned(), title: title.to_owned() }
    }

    /// A copy of the ticket.
    pub fn duplicate(&self) -> (r: Ticket)
        ensures
            r == *self,
    {
        Ticket { id: self.id.clone(), title: self.title.clone() }
    }
}

/// Keys with their texts, in order: ticket ids with their titles, or the
/// members of a JSON object.
pub type Pairs = Seq<(Seq<char>, Seq<char>)>;

/// A mapping from ticket id to title.
pub type Titles = Map<Seq<char>, Seq<char>>;

/// Whether no id occurs twice among `pairs`.
pub open spec fn distinct_ids(pairs: Pairs) -> bool {
    forall|i: int, j: int| 0 <= i < j < pairs.len() ==> pairs[i].0 != pairs[j].0
}

/// Whether `pairs[i]` is the entry for `id`.
pub open spec fn entry_at(pairs: Pairs, id: Seq<char>, i: int) -> bool {
    0 <= i < pairs.len() && pairs[i].0 == id
}

/// Whether `pairs` holds an entry for `id`.
pub open spec fn holds(pairs: Pairs, id: Seq<char>) -> bool {
    exists|i: int| entry_at(pairs, id, i)
}

/// The place of the entry for `id` among `pairs`.
pub open spec fn place_of(pairs: Pairs, id: Seq<char>) -> int {
    choose|i: int| entry_at(pairs, id, i)
}

/// The mapping from id to title that `pairs` lists.
pub open spec fn as_map(pairs: Pairs) -> Titles {
    Map::new(|id: Seq<char>| holds(pairs, id), |id: Seq<char>| pairs[place_of(pairs, id)].1)
}

/// `pairs` with `title` as the title of `id`: in the place of the entry that
/// `id` had, or as a new last entry.
pub open spec fn put(pairs: Pairs, id: Seq<char>, title: Seq<char>) -> Pairs {
    if holds(pairs, id) {
        pairs.update(place_of(pairs, id), (id, title))
    } else {
        pairs.push((id, title))
    }
}

/// `pairs` after each entry of `more` has been put into it, first to last.
pub open spec fn put_all(pairs: Pairs, more: Pairs) -> Pairs
    decreases more.len(),
{
    if more.len() == 0 {
        pairs
    } else {
        put(put_all(pairs, more.drop_last()), more.last().0, more.last().1)
    }
}

/// What a lookup of `id` in `map` finds.
pub open spec fn found(map: Titles, id: Seq<char>) -> Option<Seq<char>> {
    if map.contains_key(id) {
        Some(map[id])
    } else {
        None
    }
}

/// The persisted mapping with every entry of the fetched one written over it.
pub open spec fn merged(fetched: Titles, persisted: Titles) -> Titles {
    persisted.union_prefer_right(fetched)
}

/// With distinct ids, the entry for an id stands in one place only.
pub proof fn lemma_place_unique(pairs: Pairs, id: Seq<char>, i: int)
    requires
        distinct_ids(pairs),
        entry_at(pairs, id, i),
    ensures
        holds(pairs, id),
        place_of(pairs, id) == i,
        as_map(pairs).contains_key(id),
        as_map(pairs)[id] == pairs[i].1,
{
    let j = place_of(pairs, id);
    assert(entry_at(pairs, id, j));
    if i < j {
        assert(pairs[i].0 != pairs[j].0);
    } else if j < i {
        assert(pairs[j].0 != pairs[i].0);
    }
}

/// An entry for an id that has none yet comes last.
pub proof fn lemma_put_new(pairs: Pairs, id: Seq<char>, title: Seq<char>)
    requires
        forall|i: int| 0 <= i < pairs.len() ==> (#[trigger] pairs[i]).0 != id,
    ensures
        put(pairs, id, title) == pairs.push((id, title)),
{
    if holds(pairs, id) {
        let i = place_of(pairs, id);
        assert(entry_at(pairs, id, i));
        assert(pairs[i].0 != id);
    }
}

/// Putting an entry takes no id away.
pub proof fn lemma_put_keeps(pairs: Pairs, id: Seq<char>, title: Seq<char>, other: Seq<char>)
    requires
        holds(pairs, other),
    ensures
        holds(put(pairs, id, title), other),
{
    let i = place_of(pairs, other);
    assert(entry_at(pairs, other, i));
    if holds(pairs, id) {
        assert(entry_at(pairs, id, place_of(pairs, id)));
    }
    assert(entry_at(put(pairs, id, title), other, i));
}

/// Putting an entry keeps the ids distinct and writes the entry into the mapping.
pub proof fn lemma_put(pairs: Pairs, id: Seq<char>, title: Seq<char>)
    requires
        distinct_ids(pairs),
    ensures
        distinct_ids(put(pairs, id, title)),
        as_map(put(pairs, id, title)) == as_map(pairs).insert(id, title),
{
    let after = put(pairs, id, title);
    if holds(pairs, id) {
        let at = place_of(pairs, id);
        assert(entry_at(pairs, id, at));
        assert forall|i: int, j: int| 0 <= i < j < after.len() implies after[i].0 != after[j].0 by {
            assert(pairs[i].0 != pairs[j].0);
        }
        assert(entry_at(after, id, at));
    } else {
        assert forall|i: int, j: int| 0 <= i < j < after.len() implies after[i].0 != after[j].0 by {
            if j == pairs.len() {
                assert(!entry_at(pairs, id, i));
            } else {
                assert(pairs[i].0 != pairs[j].0);
            }
        }
        assert(entry_at(after, id, pairs.len() as int));
    }
    let want = as_map(pairs).insert(id, title);
    assert forall|k: Seq<char>| as_map(after).contains_key(k) <==> want.contains_key(k) by {
        if as_map(after).contains_key(k) {
            let i = place_of(after, k);
            assert(entry_at(after, k, i));
            if k != id {
                assert(entry_at(pairs, k, i));
            }
        }
        if want.contains_key(k) && k != id {
            let i = place_of(pairs, k);
            assert(entry_at(pairs, k, i));
            assert(entry_at(after, k, i));
        }
    }
    assert forall|k: Seq<char>| as_map(after).contains_key(k) implies as_map(after)[k]
        == want[k] by {
        let i = place_of(after, k);
        assert(entry_at(after, k, i));
        lemma_place_unique(after, k, i);
        if k != id {
            assert(entry_at(pairs, k, i));
            lemma_place_unique(pairs, k, i);
        }
    }
    assert(as_map(after) =~= want);
}

/// `map` after each entry of `more` has been written into it, first to last.
pub open spec fn insert_all(map: Titles, more: Pairs) -> Titles
    decreases more.len(),
{
    if more.len() == 0 {
        map
    } else {
        insert_all(map, more.drop_last()).insert(more.last().0, more.last().1)
    }
}

/// The mapping that a list of fetched entries amounts to: of two entries for
/// one id the later one counts.
pub open spec fn collected(more: Pairs) -> Titles {
    insert_all(Map::empty(), more)
}

/// Putting a list of entries keeps the ids distinct and writes each entry
/// into the mapping.
pub proof fn lemma_put_all(pairs: Pairs, more: Pairs)
    requires
        distinct_ids(pairs),
    ensures
        distinct_ids(put_all(pairs, more)),
        as_map(put_all(pairs, more)) == insert_all(as_map(pairs), more),
    decreases more.len(),
{
    if more.len() > 0 {
        lemma_put_all(pairs, more.drop_last());
        lemma_put(put_all(pairs, more.drop_last()), more.last().0, more.last().1);
    }
}

/// Writing entries into a mapping is writing what they amount to over it.
pub proof fn lemma_insert_all_is_union(map: Titles, more: Pairs)
    ensures
        insert_all(map, more) == map.union_prefer_right(collected(more)),
    decreases more.len(),
{
    if more.len() > 0 {
        lemma_insert_all_is_union(map, more.drop_last());
    }
    assert(insert_all(map, more) =~= map.union_prefer_right(collected(more)));
}

/// A list with distinct ids amounts to the mapping it lists.
pub proof fn lemma_distinct_collected(pairs: Pairs)
    requires
        distinct_ids(pairs),
    ensures
        as_map(pairs) == collected(pairs),
    decreases pairs.len(),
{
    if pairs.len() == 0 {
        assert(as_map(pairs) =~= Map::empty());
    } else {
        let front = pairs.drop_last();
        let last = pairs.last();
        lemma_distinct_collected(front);
        assert(!holds(front, last.0)) by {
            if holds(front, last.0) {
                let i = place_of(front, last.0);
                assert(entry_at(front, last.0, i));
                assert(pairs[i].0 != pairs[pairs.len() - 1].0);
            }
        }
        assert(put(front, last.0, last.1) =~= pairs);
        lemma_put(front, last.0, last.1);
    }
}

/// The pairs that a list of tickets stands for.
pub open spec fn pairs_of(tickets: Seq<Ticket>) -> Pairs {
    Seq::new(tickets.len(), |i: int| tickets[i]@)
}

/// Where the entry for `id` stands among `entries`, if there is one.
fn position(entries: &Vec<Ticket>, id: &str) -> (r: Option<usize>)
    requires
        distinct_ids(pairs_of(entries@)),
    ensures
        match r {
            Some(i) => entry_at(pairs_of(entries@), id@, i as int) && place_of(
                pairs_of(entries@),
                id@,
            ) == i,
            None => !holds(pairs_of(entries@), id@),
        },
{
    let wanted = id.to_owned();
    let mut i: usize = 0;
    while i < entries.len()
        invariant
            i <= entries.len(),
            wanted@ == id@,
            distinct_ids(pairs_of(entries@)),
            forall|j: int| 0 <= j < i ==> !entry_at(pairs_of(entries@), id@, j),
        decreases entries.len() - i,
    {
        if entries[i].id == wanted {
            proof {
                lemma_place_unique(pairs_of(entries@), id@, i as int);
            }
            return Some(i);
        }
        i += 1;
    }
    None
}

/// Ticket ids with their titles. No id occurs twice; entries keep the order
/// in which their ids first came in.
#[derive(Debug)]
pub struct TicketCache {
    entries: Vec<Ticket>,
}

impl View for TicketCache {
    type V = Titles;

    open spec fn view(&self) -> Titles {
        as_map(self.pairs())
    }
}

impl TicketCache {
    /// The entries, in order.
    pub closed spec fn pairs(&self) -> Pairs {
        pairs_of(self.entries@)
    }

    #[verifier::type_invariant]
    spec fn well_formed(&self) -> bool {
        distinct_ids(self.pairs())
    }

    /// The empty cache.
    pub fn new() -> (r: TicketCache)
        ensures
            r.pairs() == Pairs::empty(),
            r@ == Titles::empty(),
    {
        let r = TicketCache { entries: Vec::new() };
        assert(r.pairs() =~= Seq::empty());
        assert(r@ =~= Map::empty());
        r
    }

    /// How many tickets the cache holds.
    pub fn len(&self) -> (r: usize)
        ensures
            r == self.pairs().len(),
    {
        self.entries.len()
    }

    /// Whether the cache holds `id`.
    pub fn contains(&self, id: &str) -> (r: bool)
        ensures
            r == self@.contains_key(id@),
    {
        proof {
            use_type_invariant(self);
        }
        position(&self.entries, id).is_some()
    }

    /// The title cached for `id`.
    pub fn lookup(&self, id: &str) -> (r: Option<String>)
        ensures
            match r {
                Some(title) => found(self@, id@) == Some(title@),
                None => found(self@, id@) is None,
            },
    {
        proof {
            use_type_invariant(self);
        }
        match position(&self.entries, id) {
            Some(i) => {
                proof {
                    lemma_place_unique(self.pairs(), id@, i as int);
                }
                Some(self.entries[i].title.clone())
            },
            None => None,
        }
    }

    /// Makes `title` the title of `id`, whether or not the cache held `id`.
    pub fn insert(&mut self, id: String, title: String)
        ensures
            final(self).pairs() == put(old(self).pairs(), id@, title@),
            final(self)@ == old(self)@.insert(id@, title@),
    {
        proof {
            use_type_invariant(&*self);
            lemma_put(self.pairs(), id@, title@);
        }
        let ghost before = self.pairs();
        let mut entries: Vec<Ticket> = Vec::new();
        core::mem::swap(&mut self.entries, &mut entries);
        match position(&entries, id.as_str()) {
            Some(i) => {
                entries.set(i, Ticket { id, title });
            },
            None => {
                entries.push(Ticket { id, title });
            },
        }
        assert(pairs_of(entries@) =~= put(before, id@, title@));
        core::mem::swap(&mut self.entries, &mut entries);
    }

    /// The tickets of the cache, in order.
    pub fn tickets(&self) -> (r: Vec<Ticket>)
        ensures
            pairs_of(r@) == self.pairs(),
    {
        let mut out: Vec<Ticket> = Vec::new();
        let mut i: usize = 0;
        while i < self.entries.len()
            invariant
                i <= self.entries.len(),
                out@ == self.entries@.take(i as int),
            decreases self.entries.len() - i,
        {
            out.push(self.entries[i].duplicate());
            i += 1;
        }
        assert(out@ =~= self.entries@);
        out
    }
}

/// The cache that holds `tickets`: of two tickets with one id the later one
/// counts.
pub fn from_tickets(tickets: &Vec<Ticket>) -> (r: TicketCache)
    ensures
        r.pairs() == put_all(Seq::empty(), pairs_of(tickets@)),
        r@ == collected(pairs_of(tickets@)),
{
    let mut cache = TicketCache::new();
    let ghost all = pairs_of(tickets@);
    let mut i: usize = 0;
    while i < tickets.len()
        invariant
            i <= tickets.len(),
            all == pairs_of(tickets@),
            cache.pairs() == put_all(Seq::empty(), all.take(i as int)),
        decreases tickets.len() - i,
    {
        proof {
            assert(all.take(i + 1).drop_last() =~= all.take(i as int));
        }
        cache.insert(tickets[i].id.clone(), tickets[i].title.clone());
        i += 1;
    }
    proof {
        assert(all.take(i as int) =~= all);
        lemma_put_all(Seq::empty(), all);
        assert(as_map(Pairs::empty()) =~= Map::empty());
    }
    cache
}

/// The persisted cache with every fetched ticket written over it: a fetched
/// title replaces a persisted one, and the other persisted tickets stay.
pub fn merge(fetched: &TicketCache, persisted: TicketCache) -> (r: TicketCache)
    ensures
        r@ == merged(fetched@, persisted@),
        r.pairs() == put_all(persisted.pairs(), fetched.pairs()),
{
    proof {
        use_type_invariant(&persisted);
    }
    let mut cache = persisted;
    let ghost base = cache.pairs();
    let ghost all = fetched.pairs();
    let mut i: usize = 0;
    while i < fetched.entries.len()
        invariant
            i <= fetched.entries.len(),
            all == fetched.pairs(),
            cache.pairs() == put_all(base, all.take(i as int)),
        decreases fetched.entries.len() - i,
    {
        proof {
            assert(all.take(i + 1).drop_last() =~= all.take(i as int));
        }
        cache.insert(fetched.entries[i].id.clone(), fetched.entries[i].title.clone());
        i += 1;
    }
    proof {
        use_type_invariant(fetched);
        assert(all.take(i as int) =~= all);
        lemma_put_all(base, all);
        lemma_insert_all_is_union(as_map(base), all);
        lemma_distinct_collected(all);
    }
    cache
}

/// The tickets that the tracker's answer to the search for the user's
/// tickets lists: its `issues`, each with its `key` as id and the `summary`
/// among its `fields` as title.
pub open spec fn listed_pairs(response: JsonValue) -> Pairs {
    listed(response, "issues"@, "key"@, "fields"@, "summary"@)
}

/// Reads the tickets that `response` lists.
pub fn listed_tickets(response: &JsonValue) -> (r: Vec<Ticket>)
    ensures
        pairs_of(r@) == listed_pairs(*response),
{
    list_under(response, "issues", "key", "fields", "summary")
}

/// The tickets to choose from when a session begins: those that the
/// tracker's answer lists, written over the persisted cache.
pub fn get_own_tickets(response: &JsonValue, persisted: TicketCache) -> (r: TicketCache)
    ensures
        r@ == merged(collected(listed_pairs(*response)), persisted@),
        r.pairs() == put_all(persisted.pairs(), put_all(Seq::empty(), listed_pairs(*response))),
{
    let tickets = listed_tickets(response);
    let fetched = from_tickets(&tickets);
    merge(&fetched, persisted)
}

/// Where the fetched and the persisted mapping both hold an id, the merged
/// one has the fetched title; an id that only the persisted one holds keeps
/// its title; and the merged mapping holds no other ids.
pub proof fn law_merge_prefers_fetched(fetched: Titles, persisted: Titles, id: Seq<char>)
    ensures
        fetched.contains_key(id) ==> found(merged(fetched, persisted), id) == Some(fetched[id]),
        !fetched.contains_key(id) && persisted.contains_key(id) ==> found(
            merged(fetched, persisted),
            id,
        ) == Some(persisted[id]),
        !fetched.contains_key(id) && !persisted.contains_key(id) ==> found(
            merged(fetched, persisted),
            id,
        ) is None,
{
}

/// A lookup that follows an insert of the same id finds the inserted title,
/// whatever the cache held before.
pub proof fn law_insert_then_lookup(before: Titles, id: Seq<char>, title: Seq<char>)
    ensures
        found(before.insert(id, title), id) == Some(title),
{
}

/// A second insert of the same entry changes nothing.
pub proof fn law_insert_idempotent(before: Titles, id: Seq<char>, title: Seq<char>)
    ensures
        before.insert(id, title).insert(id, title) == before.insert(id, title),
{
    assert(before.insert(id, title).insert(id, title) =~= before.insert(id, title));
}

} // verus!
