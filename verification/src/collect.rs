//! Decoding in order: a run of items is taken one after another, and the
//! first that fails ends the run with its error.

use crate::error::Decoded;
use vstd::prelude::*;

verus! {

/// The first `count` items, where item `i` is `item(i)`: all their values
/// in order if none fails, else the error of the first that fails.
pub open spec fn collect<T>(item: spec_fn(int) -> Decoded<T>, count: nat) -> Decoded<Seq<T>>
    decreases count,
{
    if count == 0 {
        Ok(Seq::empty())
    } else {
        match collect(item, (count - 1) as nat) {
            Err(e) => Err(e),
            Ok(taken) => match item(count - 1) {
                Err(e) => Err(e),
                Ok(value) => Ok(taken.push(value)),
            },
        }
    }
}

/// Two runs one after the other: the values of both if both succeed, else
/// the error of the first that fails.
pub open spec fn followed_by<T>(
    first: Decoded<Seq<T>>,
    second: Decoded<Seq<T>>,
) -> Decoded<Seq<T>> {
    match first {
        Err(e) => Err(e),
        Ok(head) => match second {
            Err(e) => Err(e),
            Ok(tail) => Ok(head + tail),
        },
    }
}

/// A run that has failed stays failed, with the same error, however many
/// more items are asked for.
pub proof fn lemma_collect_stops<T>(
    item: spec_fn(int) -> Decoded<T>,
    failed: nat,
    count: nat,
)
    requires
        failed <= count,
        collect(item, failed) is Err,
    ensures
        collect(item, count) == collect(item, failed),
    decreases count,
{
    if count > failed {
        lemma_collect_stops(item, failed, (count - 1) as nat);
    }
}

/// A run succeeds exactly when each of its items does, and then holds the
/// value of each item at the item's place.
pub proof fn lemma_collect_all<T>(item: spec_fn(int) -> Decoded<T>, count: nat)
    ensures
        collect(item, count) is Ok <==> forall|i: int|
            0 <= i < count ==> (#[trigger] item(i)) is Ok,
        collect(item, count) matches Ok(taken) ==> taken.len() == count,
        collect(item, count) matches Ok(taken) ==> forall|i: int|
            0 <= i < count ==> item(i) == Decoded::<T>::Ok(#[trigger] taken[i]),
    decreases count,
{
    if count > 0 {
        lemma_collect_all(item, (count - 1) as nat);
    }
}

/// A run that fails does so with the error of its first failing item.
pub proof fn first_failure_decides<T>(
    item: spec_fn(int) -> Decoded<T>,
    count: nat,
    first: int,
)
    requires
        0 <= first < count,
        item(first) is Err,
        forall|i: int| 0 <= i < first ==> (#[trigger] item(i)) is Ok,
    ensures
        collect(item, count) == Decoded::<Seq<T>>::Err(item(first)->Err_0),
{
    lemma_collect_all(item, first as nat);
    lemma_collect_stops(item, (first + 1) as nat, count);
}

/// Runs whose items agree one by one agree as a whole.
pub proof fn lemma_collect_agrees<T>(
    left: spec_fn(int) -> Decoded<T>,
    right: spec_fn(int) -> Decoded<T>,
    count: nat,
)
    requires
        forall|i: int| 0 <= i < count ==> #[trigger] left(i) == right(i),
    ensures
        collect(left, count) == collect(right, count),
    decreases count,
{
    if count > 0 {
        lemma_collect_agrees(left, right, (count - 1) as nat);
    }
}

/// The error of a run that fails is the error of one of its items.
pub proof fn lemma_collect_error<T>(item: spec_fn(int) -> Decoded<T>, count: nat)
    requires
        collect(item, count) is Err,
    ensures
        exists|i: int|
            0 <= i < count && #[trigger] item(i) == Decoded::<T>::Err(
                collect(item, count)->Err_0,
            ),
    decreases count,
{
    if collect(item, (count - 1) as nat) is Err {
        lemma_collect_error(item, (count - 1) as nat);
    }
}

} // verus!
