//! Ordered collections of key-value pairs as wire maps.
//!
//! A collection of pairs is written as a map with one entry per pair, in the
//! order of the collection. Nothing is merged and nothing is sorted: two pairs
//! with the same key are two entries. A map is read entry by entry, in the
//! order in which the wire gives them, into whatever the caller builds from
//! the pairs; no map is built in between.
use vstd::prelude::*;

verus! {

/// What a pass over a wire map hands to the collection being built for one
/// read of the wire: the entry read, or nothing at the end of the map and
/// after a failed read.
pub open spec fn yielded<K, V, E>(read: Result<Option<(K, V)>, E>) -> Option<(K, V)> {
    match read {
        Ok(entry) => entry,
        Err(_) => None,
    }
}

/// The failure that a pass remembers after one more read: the first one.
pub open spec fn remembered<K, V, E>(before: Option<E>, read: Result<Option<(K, V)>, E>) -> Option<
    E,
> {
    match before {
        Some(e) => Some(e),
        None => match read {
            Ok(_) => None,
            Err(e) => Some(e),
        },
    }
}

/// One pass over a wire map.
///
/// The collection under construction pulls pairs from the pass. A failed read
/// ends the pairs, so that construction comes to its end, and the pass keeps
/// the failure for [`MapIter::finish`].
pub struct MapIter<E> {
    failure: Option<E>,
}

impl<E> MapIter<E> {
    /// The first failure met so far.
    pub closed spec fn first_error(&self) -> Option<E> {
        self.failure
    }

    /// A pass that has read nothing yet.
    pub fn new() -> (pass: Self)
        ensures
            pass.first_error() is None,
    {
        MapIter { failure: None }
    }

    /// Takes one read of the wire map and gives what the collection gets for
    /// it. The first failure is kept; a later one does not replace it.
    pub fn next<K, V>(&mut self, read: Result<Option<(K, V)>, E>) -> (item: Option<(K, V)>)
        ensures
            item == yielded(read),
            final(self).first_error() == remembered(old(self).first_error(), read),
    {
        match read {
            Ok(entry) => entry,
            Err(e) => {
                if self.failure.is_none() {
                    self.failure = Some(e);
                }
                None
            },
        }
    }

    /// Ends the pass: the collection that was built, unless a read failed.
    /// Then the first failure is the result and the collection is dropped.
    pub fn finish<I>(self, built: I) -> (r: Result<I, E>)
        ensures
            r == match self.first_error() {
                Some(e) => Err::<I, E>(e),
                None => Ok::<I, E>(built),
            },
    {
        match self.failure {
            Some(e) => Err(e),
            None => Ok(built),
        }
    }
}

/// The bounds on the number of pairs still to come, from what the wire map
/// says is left: both bounds are that number where it is known, and nothing
/// is claimed where it is not.
pub fn size_hint(remaining: Option<usize>) -> (bounds: (usize, Option<usize>))
    ensures
        bounds == match remaining {
            Some(n) => (n, Some(n)),
            None => (0usize, None::<usize>),
        },
{
    match remaining {
        Some(n) => (n, Some(n)),
        None => (0, None),
    }
}

/// The two halves of a pair, each borrowed: the entry that a pair is written
/// as.
pub fn entry<'a, K, V>(pair: &'a (K, V)) -> (halves: (&'a K, &'a V))
    ensures
        *halves.0 == pair.0,
        *halves.1 == pair.1,
{
    (&pair.0, &pair.1)
}

/// The entries of the map that the collection `this` is written as: one for
/// each pair, in the order of the collection, with nothing merged, dropped or
/// moved.
pub fn serialize<'a, K, V>(this: &'a Vec<(K, V)>) -> (entries: Vec<(&'a K, &'a V)>)
    ensures
        entries@.len() == this@.len(),
        forall|i: int|
            0 <= i < this@.len() ==> *(#[trigger] entries@[i]).0 == this@[i].0 && *entries@[i].1
                == this@[i].1,
{
    let mut entries: Vec<(&'a K, &'a V)> = Vec::new();
    let mut at: usize = 0;
    while at < this.len()
        invariant
            at <= this@.len(),
            entries@.len() == at,
            forall|i: int|
                0 <= i < at ==> *(#[trigger] entries@[i]).0 == this@[i].0 && *entries@[i].1
                    == this@[i].1,
        decreases this@.len() - at,
    {
        entries.push(entry(&this[at]));
        at = at + 1;
    }
    entries
}

/// Whether read number `i` is the first that failed.
pub open spec fn fails_first_at<K, V, E>(reads: Seq<Result<(K, V), E>>, i: int) -> bool {
    &&& 0 <= i < reads.len()
    &&& reads[i] is Err
    &&& forall|j: int| 0 <= j < i ==> (#[trigger] reads[j]) is Ok
}

/// Whether every read gave an entry.
pub open spec fn all_read<K, V, E>(reads: Seq<Result<(K, V), E>>) -> bool {
    forall|i: int| 0 <= i < reads.len() ==> (#[trigger] reads[i]) is Ok
}

/// What reading a wire map comes to, where `reads` are the reads of its
/// entries in turn: every pair, in the order read, if no read failed, and
/// otherwise the failure of the first read that did.
pub open spec fn collected<K, V, E>(reads: Seq<Result<(K, V), E>>) -> Result<Seq<(K, V)>, E> {
    if all_read(reads) {
        Ok(Seq::new(reads.len(), |i: int| reads[i]->Ok_0))
    } else {
        Err(reads[choose|i: int| fails_first_at(reads, i)]->Err_0)
    }
}

/// A result with the collection in it replaced by its pairs in order.
pub open spec fn pairs_outcome<K, V, E>(r: Result<Vec<(K, V)>, E>) -> Result<Seq<(K, V)>, E> {
    match r {
        Ok(pairs) => Ok(pairs@),
        Err(e) => Err(e),
    }
}

/// At most one read is the first that failed.
pub proof fn lemma_first_failure_is_unique<K, V, E>(
    reads: Seq<Result<(K, V), E>>,
    i: int,
    j: int,
)
    requires
        fails_first_at(reads, i),
        fails_first_at(reads, j),
    ensures
        i == j,
{
    if i < j {
        assert(reads[i] is Ok);
    } else if j < i {
        assert(reads[j] is Ok);
    }
}

/// Reads a wire map into an ordered collection of its pairs, where `reads`
/// are the reads of its entries in turn.
///
/// The pairs keep the order in which they were read, and pairs with equal
/// keys are all kept. The first failed read ends the reading and is the
/// result, whatever was read before it.
pub fn deserialize<K, V, E>(reads: Vec<Result<(K, V), E>>) -> (r: Result<Vec<(K, V)>, E>)
    ensures
        pairs_outcome(r) == collected(reads@),
        r is Ok <==> all_read(reads@),
{
    let ghost all = reads@;
    let mut pass: MapIter<E> = MapIter::new();
    let mut built: Vec<(K, V)> = Vec::new();
    for read in it: reads
        invariant
            it.seq() == all,
            pass.first_error() is None,
            built@.len() == it.index(),
            forall|j: int| 0 <= j < it.index() ==> all[j] == Ok::<(K, V), E>(#[trigger] built@[j]),
    {
        let ghost at = it.index();
        let pulled = match read {
            Ok(pair) => pass.next(Ok(Some(pair))),
            Err(e) => pass.next(Err(e)),
        };
        match pulled {
            Some(pair) => {
                built.push(pair);
            },
            None => {
                proof {
                    assert(fails_first_at(all, at)) by {
                        assert forall|j: int| 0 <= j < at implies (#[trigger] all[j]) is Ok by {
                            assert(all[j] == Ok::<(K, V), E>(built@[j]));
                        }
                    }
                    first_failure_wins(all, at);
                }
                return pass.finish(built);
            },
        }
    }
    proof {
        assert(all_read(all)) by {
            assert forall|j: int| 0 <= j < all.len() implies (#[trigger] all[j]) is Ok by {
                assert(all[j] == Ok::<(K, V), E>(built@[j]));
            }
        }
        assert(built@ =~= Seq::new(all.len(), |i: int| all[i]->Ok_0));
    }
    pass.finish(built)
}

/// A collection of pairs comes back from the wire as it went: where each read
/// of the map gives the entry that was written at its place, reading yields
/// the pairs of the collection, equal keys and all, in their order.
pub proof fn pairs_round_trip<K, V, E>(pairs: Seq<(K, V)>, reads: Seq<Result<(K, V), E>>)
    requires
        reads.len() == pairs.len(),
        forall|i: int| 0 <= i < pairs.len() ==> reads[i] == Ok::<(K, V), E>(pairs[i]),
    ensures
        collected(reads) == Ok::<Seq<(K, V)>, E>(pairs),
{
    assert(all_read(reads));
    assert(Seq::new(reads.len(), |i: int| reads[i]->Ok_0) =~= pairs);
}

/// A failed read decides the outcome, and the first one does: whatever comes
/// after it on the wire, reading ends with its failure.
pub proof fn first_failure_wins<K, V, E>(reads: Seq<Result<(K, V), E>>, i: int)
    requires
        fails_first_at(reads, i),
    ensures
        collected(reads) == Err::<Seq<(K, V)>, E>(reads[i]->Err_0),
{
    assert(!all_read(reads)) by {
        assert(reads[i] is Err);
    }
    lemma_first_failure_is_unique(reads, i, choose|k: int| fails_first_at(reads, k));
}

} // verus!
