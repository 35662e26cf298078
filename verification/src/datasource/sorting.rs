//! The order in which data sources are read: by their keys, and among equal
//! keys in the order in which they were configured.

use crate::datasource::ds::DataSource;
use vstd::prelude::*;

verus! {

/// Whether no source comes before one with a smaller key.
pub open spec fn in_order(sources: Seq<DataSource>) -> bool {
    forall|i: int, j: int|
        0 <= i <= j < sources.len() ==> (#[trigger] sources[i]).key() <= (#[trigger] sources[j]).key()
}

/// The sources with the key `k`, in their order.
pub open spec fn with_key(sources: Seq<DataSource>, k: u8) -> Seq<DataSource> {
    sources.filter(|source: DataSource| source.key() == k)
}

/// Whether `sorted` holds the sources of `given` in order of their keys, the
/// sources of each key as they follow one another in `given`.
pub open spec fn is_sorting_of(sorted: Seq<DataSource>, given: Seq<DataSource>) -> bool {
    &&& in_order(sorted)
    &&& sorted.len() == given.len()
    &&& forall|k: u8| #[trigger] with_key(sorted, k) == with_key(given, k)
}

/// Putting `source` before the first of `sorted` whose key is not smaller
/// keeps the order, and puts `source` in front of the sources of its key.
proof fn lemma_insert(sorted: Seq<DataSource>, given: Seq<DataSource>, source: DataSource, at: int)
    requires
        is_sorting_of(sorted, given),
        0 <= at <= sorted.len(),
        forall|i: int| 0 <= i < at ==> (#[trigger] sorted[i]).key() < source.key(),
        forall|i: int| at <= i < sorted.len() ==> source.key() <= (#[trigger] sorted[i]).key(),
    ensures
        is_sorting_of(sorted.insert(at, source), seq![source] + given),
{
    let front = sorted.subrange(0, at);
    let back = sorted.subrange(at, sorted.len() as int);
    let one = seq![source];
    let next = sorted.insert(at, source);
    assert(next == front + one + back);
    assert(sorted == front + back);
    assert forall|k: u8| #[trigger] with_key(next, k) == with_key(one + given, k) by {
        let pred = |s: DataSource| s.key() == k;
        Seq::filter_distributes_over_add(front + one, back, pred);
        Seq::filter_distributes_over_add(front, one, pred);
        Seq::filter_distributes_over_add(front, back, pred);
        Seq::filter_distributes_over_add(one, given, pred);
        assert(with_key(sorted, k) == with_key(given, k));
        reveal_with_fuel(Seq::filter, 2);
        if source.key() == k {
            front.lemma_all_neg_filter_empty(pred);
        }
    }
}

/// Puts the sources in order of their keys; sources with the same key keep
/// the order they came in.
pub fn sort_sources(sources: Vec<DataSource>) -> (r: Vec<DataSource>)
    ensures
        is_sorting_of(r@, sources@),
{
    let ghost given = sources@;
    let mut rest = sources;
    let mut sorted: Vec<DataSource> = Vec::new();
    assert(given.skip(given.len() as int) == sorted@);
    while rest.len() > 0
        invariant
            rest@ == given.take(rest@.len() as int),
            rest@.len() <= given.len(),
            is_sorting_of(sorted@, given.skip(rest@.len() as int)),
        decreases rest.len(),
    {
        let ghost n = rest@.len();
        match rest.pop() {
            Some(source) => {
                let key: u8 = source.order_no();
                let mut at: usize = 0;
                while at < sorted.len() && sorted[at].order_no() < key
                    invariant
                        at <= sorted.len(),
                        key == source.key(),
                        forall|i: int| 0 <= i < at ==> (#[trigger] sorted@[i]).key() < key,
                    decreases sorted.len() - at,
                {
                    at += 1;
                }
                proof {
                    assert(seq![source] + given.skip(n as int) == given.skip(n - 1));
                    lemma_insert(sorted@, given.skip(n as int), source, at as int);
                }
                sorted.insert(at, source);
            },
            None => {},
        }
    }
    sorted
}

} // verus!
