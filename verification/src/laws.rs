//! What holds of every resolution, stated over [`Resolve::resolves_to`].

use crate::error::Error;
use crate::lazy::AsyncProducer;
use crate::lazy::LazyValue;
use crate::lazy::SyncProducer;
use crate::render::alternate_fields;
use crate::render::str_debug;
use crate::resolve::settled;
use crate::resolve::Resolution;
use crate::resolve::Resolve;
use crate::result::Result;
use crate::value::Value;
use std::borrow::Cow;
use vstd::prelude::*;

verus! {

/// A raw value resolves to the data it wraps, borrowed, and to nothing else:
/// its resolution does not fail, does not suspend and runs no producer.
pub proof fn raw_resolves_to_its_data<T: Clone>(data: T, resolution: Resolution<'_, T>)
    ensures
        Value::Raw(data).resolves_to(resolution) <==> resolution == Resolution::Ready(
            Ok(Cow::Borrowed(&data)),
        ),
{
}

/// A lazy value resolves as the held [`LazyValue`] does, and in no other way.
pub proof fn lazy_resolves_as_held<T: Clone>(lazy: LazyValue<T>, resolution: Resolution<'_, T>)
    ensures
        Value::Lazy(lazy).resolves_to(resolution) <==> lazy.resolves_to(resolution),
{
}

/// Where the producer never fails, no resolution fails: each one is ready with
/// an owned value, and that value is one that a run of the producer may
/// yield. This holds of every resolution, however many came before it.
pub proof fn unfailing_producer_always_resolves<T: Clone>(
    producer: SyncProducer<T>,
    resolution: Resolution<'_, T>,
)
    requires
        forall|outcome: Result<T>| #[trigger] producer.yields(outcome) ==> outcome is Ok,
        LazyValue::Sync(producer).resolves_to(resolution),
    ensures
        resolution matches Resolution::Ready(Ok(Cow::Owned(value))) && producer.yields(Ok(value)),
{
}

/// A failure of the producer is the failure of the resolution, with the same
/// error.
pub proof fn failure_is_passed_on<T: Clone>(
    producer: SyncProducer<T>,
    error: Error,
    resolution: Resolution<'_, T>,
)
    requires
        forall|outcome: Result<T>| #[trigger]
            producer.yields(outcome) ==> outcome == Err::<T, Error>(error),
        LazyValue::Sync(producer).resolves_to(resolution),
    ensures
        resolution == Resolution::<T>::Ready(Err(error)),
{
}

/// A resolution of a synchronous producer is what [`crate::settle`] makes of
/// one of the producer's outcomes.
pub proof fn sync_resolution_is_settled_outcome<T: Clone>(
    producer: SyncProducer<T>,
    resolution: Resolution<'_, T>,
)
    ensures
        LazyValue::Sync(producer).resolves_to(resolution) <==> exists|outcome: Result<T>|
            #[trigger] producer.yields(outcome) && resolution == Resolution::Ready(
                settled::<T>(outcome),
            ),
{
}

/// An asynchronous producer suspends every resolution: `resolve` never ends
/// it, but hands out the operation to await. [`crate::settle`] then ends it
/// without a further suspension.
pub proof fn async_resolution_is_pending<T: Clone>(
    producer: AsyncProducer<T>,
    resolution: Resolution<'_, T>,
)
    requires
        LazyValue::Async(producer).resolves_to(resolution),
    ensures
        resolution is Pending,
{
}

/// The rendering of a holder written out: the variant's name, then the
/// placeholder in its `Debug` form between round brackets, on one line in the
/// plain layout and on a line of its own in the alternate one.
pub proof fn rendering_holds_name_and_placeholder<T>(lazy: LazyValue<T>)
    ensures
        lazy.spec_rendering(false) == lazy.spec_variant_name() + seq!['('] + str_debug(
            LazyValue::<T>::spec_placeholder(),
        ) + seq![')'],
        lazy.spec_rendering(true) == lazy.spec_variant_name() + seq!['(', '\n'] + seq![
            ' ',
            ' ',
            ' ',
            ' ',
        ] + str_debug(LazyValue::<T>::spec_placeholder()) + seq![',', '\n'] + seq![')'],
{
    let fields = seq![str_debug(LazyValue::<T>::spec_placeholder())];
    reveal_strlit("LazyValue::Sync");
    reveal_strlit("LazyValue::Async");
    assert(alternate_fields(fields.drop_last()) =~= Seq::<char>::empty());
    assert(alternate_fields(fields) =~= seq![' ', ' ', ' ', ' '] + fields.last() + seq![
        ',',
        '\n',
    ]);
}

/// Two holders are rendered alike, in either layout, exactly when they are
/// the same variant, whatever their producers are and whatever `T` is.
pub proof fn rendering_tells_the_variants_apart<T>(
    first: LazyValue<T>,
    second: LazyValue<T>,
    alternate: bool,
)
    ensures
        first.spec_rendering(alternate) == second.spec_rendering(alternate) <==> (first is Sync
            <==> second is Sync),
{
    reveal_strlit("LazyValue::Sync");
    reveal_strlit("LazyValue::Async");
    rendering_holds_name_and_placeholder(first);
    rendering_holds_name_and_placeholder(second);
    // The two names part at their twelfth character, and each rendering
    // begins with its name.
    assert(first.spec_rendering(alternate)[11] == first.spec_variant_name()[11]);
    assert(second.spec_rendering(alternate)[11] == second.spec_variant_name()[11]);
}

} // verus!
