//! Events of the network.

use vstd::prelude::*;

verus! {

/// An event of the network, as far as authority discovery tells events apart.
#[derive(Debug, PartialEq, Eq)]
pub enum Event<D> {
    /// An event of the distributed hash table.
    Dht(D),
    /// Any other event.
    Other,
}

/// What authority discovery takes of an event: what the distributed hash table
/// says, and nothing of other events.
pub open spec fn spec_dht_event<D>(event: Event<D>) -> Option<D> {
    match event {
        Event::Dht(said) => Some(said),
        Event::Other => None,
    }
}

/// What authority discovery takes of an event: what the distributed hash table
/// says, and nothing of other events.
pub fn dht_event<D>(event: Event<D>) -> (r: Option<D>)
    ensures
        r == spec_dht_event(event),
{
    match event {
        Event::Dht(said) => Some(said),
        Event::Other => None,
    }
}

/// What authority discovery hears of a run of events: what it takes of each, in
/// turn.
pub open spec fn heard<D>(events: Seq<Event<D>>) -> Seq<D>
    decreases events.len(),
{
    if events.len() == 0 {
        seq![]
    } else {
        match spec_dht_event(events.last()) {
            Some(said) => heard(events.drop_last()).push(said),
            None => heard(events.drop_last()),
        }
    }
}

/// Authority discovery hears everything that the distributed hash table says and
/// nothing else, in the order in which it is said: of a run of such events it hears
/// each, of a run of others nothing, and of two runs in turn what it hears of each.
pub proof fn law_discovery_hears_the_hash_table<D>(
    said: Seq<D>,
    others: nat,
    first: Seq<Event<D>>,
    second: Seq<Event<D>>,
)
    ensures
        heard(said.map_values(|word: D| Event::Dht(word))) == said,
        heard(Seq::new(others, |i: int| Event::<D>::Other)) == Seq::<D>::empty(),
        heard(first + second) == heard(first) + heard(second),
{
    lemma_heard_of_hash_table(said);
    lemma_heard_of_others::<D>(others);
    lemma_heard_in_turn(first, second);
}

/// Of events of the hash table, each is heard.
proof fn lemma_heard_of_hash_table<D>(said: Seq<D>)
    ensures
        heard(said.map_values(|word: D| Event::Dht(word))) == said,
    decreases said.len(),
{
    let events = said.map_values(|word: D| Event::Dht(word));
    if said.len() > 0 {
        lemma_heard_of_hash_table(said.drop_last());
        assert(events.drop_last() =~= said.drop_last().map_values(|word: D| Event::Dht(word)));
        assert(said.drop_last().push(said.last()) =~= said);
    }
}

/// Of other events, nothing is heard.
proof fn lemma_heard_of_others<D>(others: nat)
    ensures
        heard(Seq::new(others, |i: int| Event::<D>::Other)) == Seq::<D>::empty(),
    decreases others,
{
    let events = Seq::new(others, |i: int| Event::<D>::Other);
    if others > 0 {
        lemma_heard_of_others::<D>((others - 1) as nat);
        assert(events.drop_last() =~= Seq::new(
            (others - 1) as nat,
            |i: int| Event::<D>::Other,
        ));
    }
}

/// Of two runs of events in turn, what is heard of each is heard in turn.
proof fn lemma_heard_in_turn<D>(first: Seq<Event<D>>, second: Seq<Event<D>>)
    ensures
        heard(first + second) == heard(first) + heard(second),
    decreases second.len(),
{
    if second.len() == 0 {
        assert(first + second =~= first);
    } else {
        lemma_heard_in_turn(first, second.drop_last());
        assert((first + second).drop_last() =~= first + second.drop_last());
    }
}

} // verus!
