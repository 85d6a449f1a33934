//! Runs of values on the wire: a count that the message gives, then that
//! many values, one behind the other.
//!
//! The specification of a run is stated once, over the reader and the writer
//! of a single value; drivers, camera names and camera sets are its
//! instances.

use vstd::prelude::*;
use crate::telemetry::udp::wire::{lemma_append_assoc, ParseError, Parsed};

verus! {

/// `count` values, each read by `read_one` from where the one before it
/// ended. The first value that cannot be read decides the error.
pub open spec fn spec_read_many<T>(
    input: Seq<u8>,
    count: nat,
    read_one: spec_fn(Seq<u8>) -> Parsed<T>,
) -> Parsed<Seq<T>>
    decreases count,
{
    if count == 0 {
        Ok((input, Seq::empty()))
    } else {
        match read_one(input) {
            Err(e) => Err(e),
            Ok((rest, first)) => match spec_read_many(rest, (count - 1) as nat, read_one) {
                Err(e) => Err(e),
                Ok((end, others)) => Ok((end, seq![first] + others)),
            },
        }
    }
}

/// The bytes of `items`, each written by `write_one`, one behind the other.
pub open spec fn bytes_many<T>(items: Seq<T>, write_one: spec_fn(T) -> Seq<u8>) -> Seq<u8>
    decreases items.len(),
{
    if items.len() == 0 {
        Seq::empty()
    } else {
        write_one(items[0]) + bytes_many(items.drop_first(), write_one)
    }
}

/// What reading the rest of a run yields, with the values `done` that were
/// read before in front of it.
pub open spec fn after<T>(done: Seq<T>, rest: Parsed<Seq<T>>) -> Parsed<Seq<T>> {
    match rest {
        Err(e) => Err(e),
        Ok((end, others)) => Ok((end, done + others)),
    }
}

/// Nothing read yet: the whole run is still to read.
pub proof fn lemma_read_many_start<T>(
    input: Seq<u8>,
    count: nat,
    read_one: spec_fn(Seq<u8>) -> Parsed<T>,
)
    ensures
        after(Seq::<T>::empty(), spec_read_many(input, count, read_one)) == spec_read_many(
            input,
            count,
            read_one,
        ),
{
    let whole = spec_read_many(input, count, read_one);
    if whole is Ok {
        assert(Seq::<T>::empty() + whole->Ok_0.1 =~= whole->Ok_0.1);
    }
}

/// One more value read: it moves from the run that is left to the values
/// that are done.
pub proof fn lemma_read_many_step<T>(
    done: Seq<T>,
    rest: Seq<u8>,
    next: Seq<u8>,
    item: T,
    left: nat,
    read_one: spec_fn(Seq<u8>) -> Parsed<T>,
)
    requires
        left > 0,
        read_one(rest) == Ok::<(Seq<u8>, T), ParseError>((next, item)),
    ensures
        after(done, spec_read_many(rest, left, read_one)) == after(
            done.push(item),
            spec_read_many(next, (left - 1) as nat, read_one),
        ),
{
    let tail = spec_read_many(next, (left - 1) as nat, read_one);
    if tail is Ok {
        assert(done + (seq![item] + tail->Ok_0.1) =~= done.push(item) + tail->Ok_0.1);
    }
}

/// A value that cannot be read ends the run with its error.
pub proof fn lemma_read_many_fail<T>(
    done: Seq<T>,
    rest: Seq<u8>,
    e: ParseError,
    left: nat,
    read_one: spec_fn(Seq<u8>) -> Parsed<T>,
)
    requires
        left > 0,
        read_one(rest) == Err::<(Seq<u8>, T), ParseError>(e),
    ensures
        after(done, spec_read_many(rest, left, read_one)) == Err::<(Seq<u8>, Seq<T>), ParseError>(
            e,
        ),
{
}

/// No value left to read: the run is the values that are done.
pub proof fn lemma_read_many_end<T>(
    done: Seq<T>,
    rest: Seq<u8>,
    read_one: spec_fn(Seq<u8>) -> Parsed<T>,
)
    ensures
        after(done, spec_read_many(rest, 0, read_one)) == Ok::<(Seq<u8>, Seq<T>), ParseError>(
            (rest, done),
        ),
{
    assert(done + Seq::<T>::empty() =~= done);
}

/// The bytes of a run with one more value at its end are the bytes of the
/// run with the bytes of that value at their end.
pub proof fn lemma_bytes_many_push<T>(items: Seq<T>, last: T, write_one: spec_fn(T) -> Seq<u8>)
    ensures
        bytes_many(items.push(last), write_one) == bytes_many(items, write_one) + write_one(last),
    decreases items.len(),
{
    if items.len() == 0 {
        assert(items.push(last).drop_first() =~= Seq::<T>::empty());
        assert(bytes_many(Seq::<T>::empty(), write_one) == Seq::<u8>::empty());
        assert(write_one(last) + Seq::<u8>::empty() =~= write_one(last));
        assert(Seq::<u8>::empty() + write_one(last) =~= write_one(last));
    } else {
        assert(items.push(last).drop_first() =~= items.drop_first().push(last));
        lemma_bytes_many_push(items.drop_first(), last, write_one);
        lemma_append_assoc(
            write_one(items[0]),
            bytes_many(items.drop_first(), write_one),
            write_one(last),
        );
    }
}

/// Whether `read_one` gives back every value of `items` that `write_one`
/// wrote, and leaves what stood behind it.
pub open spec fn inverts<T>(
    items: Seq<T>,
    read_one: spec_fn(Seq<u8>) -> Parsed<T>,
    write_one: spec_fn(T) -> Seq<u8>,
) -> bool {
    forall|i: int, tail: Seq<u8>|
        0 <= i < items.len() ==> #[trigger] read_one(write_one(items[i]) + tail) == Ok::<
            (Seq<u8>, T),
            ParseError,
        >((tail, items[i]))
}

/// A run written and read again is the same run, where that holds of each of
/// its values.
pub proof fn lemma_many_round_trip<T>(
    items: Seq<T>,
    tail: Seq<u8>,
    read_one: spec_fn(Seq<u8>) -> Parsed<T>,
    write_one: spec_fn(T) -> Seq<u8>,
)
    requires
        inverts(items, read_one, write_one),
    ensures
        spec_read_many(bytes_many(items, write_one) + tail, items.len(), read_one) == Ok::<
            (Seq<u8>, Seq<T>),
            ParseError,
        >((tail, items)),
    decreases items.len(),
{
    if items.len() == 0 {
        assert(bytes_many(items, write_one) + tail =~= tail);
        assert(items =~= Seq::<T>::empty());
    } else {
        let first = items[0];
        let others = items.drop_first();
        let behind = bytes_many(others, write_one) + tail;
        assert(inverts(others, read_one, write_one)) by {
            assert forall|i: int, t: Seq<u8>| 0 <= i < others.len() implies #[trigger] read_one(
                write_one(others[i]) + t,
            ) == Ok::<(Seq<u8>, T), ParseError>((t, others[i])) by {
                assert(others[i] == items[i + 1]);
            }
        }
        lemma_append_assoc(write_one(first), bytes_many(others, write_one), tail);
        assert(read_one(write_one(items[0]) + behind) == Ok::<(Seq<u8>, T), ParseError>(
            (behind, first),
        ));
        lemma_many_round_trip(others, tail, read_one, write_one);
        assert(seq![first] + others =~= items);
    }
}

} // verus!
