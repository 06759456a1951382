//! Values that are produced anew each time they are resolved.

use crate::resolve::settle;
use crate::resolve::Resolution;
use crate::resolve::Resolve;
use crate::result::Result;
use futures::task::FutureObj;
use std::borrow::Cow;
use crate::render::add_field;
use crate::render::alternate;
use crate::render::begin_tuple;
use crate::render::finish_tuple;
use crate::render::sink_text;
use crate::render::str_debug;
use crate::render::tuple_text;
use std::fmt::Debug;
use std::fmt::Formatter;
use std::future::Future;
use std::sync::Arc;
use vstd::future::FutureAdditionalSpecFns;
use vstd::prelude::*;

verus! {

/// A computation that yields a value without suspending. A [`SyncProducer`]
/// holds its closure as an object of this trait, which hides the closure's
/// type.
trait Produce<T>: Send + Sync {
    /// Whether the computation may be run.
    spec fn callable(&self) -> bool;

    /// Whether a run may come to `outcome`.
    spec fn yields(&self, outcome: Result<T>) -> bool;

    /// Runs the computation once.
    fn produce(&self) -> (outcome: Result<T>)
        requires
            self.callable(),
        ensures
            self.yields(outcome),
    ;
}

impl<T, F> Produce<T> for F where F: Fn() -> Result<T> + Send + Sync {
    spec fn callable(&self) -> bool {
        call_requires(*self, ())
    }

    spec fn yields(&self, outcome: Result<T>) -> bool {
        call_ensures(*self, (), outcome)
    }

    fn produce(&self) -> (outcome: Result<T>) {
        self()
    }
}

/// A computation that hands out a suspending operation which, awaited, yields
/// a value. An [`AsyncProducer`] holds its closure as an object of this trait,
/// which hides the closure's type.
trait ProduceAsync<T>: Send + Sync {
    /// Whether the computation may be run.
    spec fn callable(&self) -> bool;

    /// Whether a run may hand out `pending`.
    spec fn hands_out(&self, pending: FutureObj<'static, Result<T>>) -> bool;

    /// Runs the computation once, up to its suspending operation.
    fn start(&self) -> (pending: FutureObj<'static, Result<T>>)
        requires
            self.callable(),
        ensures
            self.hands_out(pending),
    ;
}

impl<T, F> ProduceAsync<T> for F where F: Fn() -> FutureObj<'static, Result<T>> + Send + Sync {
    spec fn callable(&self) -> bool {
        call_requires(*self, ())
    }

    spec fn hands_out(&self, pending: FutureObj<'static, Result<T>>) -> bool {
        call_ensures(*self, (), pending)
    }

    fn start(&self) -> (pending: FutureObj<'static, Result<T>>) {
        self()
    }
}

/// `FutureObj::new` on the boxed operation: the same operation with its type
/// hidden. Polling the result polls the operation, so the result yields what
/// the operation yields.
#[verifier::external_body]
fn erase<T, Fut>(operation: Fut) -> (pending: FutureObj<'static, Result<T>>) where
    Fut: Future<Output = Result<T>> + Send + 'static,
    ensures
        pending@ == operation@,
{
    FutureObj::new(Box::new(operation))
}

/// A synchronous producer in shared ownership: a closure behind a reference
/// count, with its type hidden.
#[verifier::reject_recursive_types(T)]
pub struct SyncProducer<T> {
    shared: Arc<dyn Produce<T>>,
}

/// `Arc::new` on a closure, then held as a trait object: the closure moves
/// behind a reference count unchanged, so the producer may be run as the
/// closure may and yields what the closure yields.
#[verifier::external_body]
fn share_sync<T, F>(f: F) -> (producer: SyncProducer<T>) where
    F: Fn() -> Result<T> + Send + Sync + 'static,
    requires
        call_requires(f, ()),
    ensures
        producer.shared.callable(),
        forall|outcome: Result<T>|
            #![trigger producer.shared.yields(outcome)]
            #![trigger call_ensures(f, (), outcome)]
            producer.shared.yields(outcome) <==> call_ensures(f, (), outcome),
{
    SyncProducer { shared: Arc::new(f) }
}

/// `Arc::clone`: one more owner of the same closure.
#[verifier::external_body]
fn reshare_sync<T>(producer: &SyncProducer<T>) -> (other: SyncProducer<T>)
    ensures
        other == *producer,
{
    SyncProducer { shared: Arc::clone(&producer.shared) }
}

impl<T> SyncProducer<T> {
    #[verifier::type_invariant]
    spec fn inv(self) -> bool {
        self.shared.callable()
    }

    /// Whether one run of the closure may come to `outcome`.
    pub closed spec fn yields(&self, outcome: Result<T>) -> bool {
        self.shared.yields(outcome)
    }

    /// Puts a closure in shared ownership.
    pub fn new<F>(f: F) -> (producer: Self) where F: Fn() -> Result<T> + Send + Sync + 'static
        requires
            call_requires(f, ()),
        ensures
            forall|outcome: Result<T>|
                #![trigger producer.yields(outcome)]
                #![trigger call_ensures(f, (), outcome)]
                producer.yields(outcome) <==> call_ensures(f, (), outcome),
    {
        share_sync(f)
    }

    /// Runs the closure once.
    pub fn invoke(&self) -> (outcome: Result<T>)
        ensures
            self.yields(outcome),
    {
        proof {
            use_type_invariant(self);
        }
        self.shared.produce()
    }
}

impl<T> Clone for SyncProducer<T> {
    /// Another handle on the same closure.
    fn clone(&self) -> (other: Self)
        ensures
            other == *self,
    {
        reshare_sync(self)
    }
}

/// An asynchronous producer in shared ownership: a closure behind a reference
/// count, with its type and that of the operation it returns hidden.
#[verifier::reject_recursive_types(T)]
pub struct AsyncProducer<T> {
    shared: Arc<dyn ProduceAsync<T>>,
}

/// `Arc::new` on a closure, then held as a trait object: the closure moves
/// behind a reference count unchanged, so the producer may be run as the
/// closure may and hands out what the closure returns.
#[verifier::external_body]
fn share_async<T, F>(f: F) -> (producer: AsyncProducer<T>) where
    F: Fn() -> FutureObj<'static, Result<T>> + Send + Sync + 'static,
    requires
        call_requires(f, ()),
    ensures
        producer.shared.callable(),
        forall|pending: FutureObj<'static, Result<T>>|
            #![trigger producer.shared.hands_out(pending)]
            #![trigger call_ensures(f, (), pending)]
            producer.shared.hands_out(pending) <==> call_ensures(f, (), pending),
{
    AsyncProducer { shared: Arc::new(f) }
}

/// `Arc::clone`: one more owner of the same closure.
#[verifier::external_body]
fn reshare_async<T>(producer: &AsyncProducer<T>) -> (other: AsyncProducer<T>)
    ensures
        other == *producer,
{
    AsyncProducer { shared: Arc::clone(&producer.shared) }
}

impl<T> AsyncProducer<T> {
    #[verifier::type_invariant]
    spec fn inv(self) -> bool {
        self.shared.callable()
    }

    /// Whether one run of the producer may hand out `pending`.
    pub closed spec fn hands_out(&self, pending: FutureObj<'static, Result<T>>) -> bool {
        self.shared.hands_out(pending)
    }

    /// Puts a closure in shared ownership. Each run of the producer runs the
    /// closure once and hides the type of the operation it returned: what the
    /// producer hands out yields what that operation yields.
    pub fn new<F, Fut>(f: F) -> (producer: Self) where
        F: Fn() -> Fut + Send + Sync + 'static,
        Fut: Future<Output = Result<T>> + Send + 'static,
        requires
            call_requires(f, ()),
        ensures
            forall|pending: FutureObj<'static, Result<T>>| #[trigger]
                producer.hands_out(pending) ==> exists|operation: Fut| #[trigger]
                    call_ensures(f, (), operation) && pending@ == operation@,
    {
        let erasing = move || -> (pending: FutureObj<'static, Result<T>>)
            ensures
                exists|operation: Fut| #[trigger]
                    call_ensures(&f, (), operation) && pending@ == operation@,
            { erase(f()) };
        share_async(erasing)
    }

    /// Runs the producer once and hands out its operation, not yet awaited.
    pub fn start(&self) -> (pending: FutureObj<'static, Result<T>>)
        ensures
            self.hands_out(pending),
    {
        proof {
            use_type_invariant(self);
        }
        self.shared.start()
    }
}

impl<T> Clone for AsyncProducer<T> {
    /// Another handle on the same closure.
    fn clone(&self) -> (other: Self)
        ensures
            other == *self,
    {
        reshare_async(self)
    }
}

/// A value that is produced anew each time it is resolved: nothing of one
/// resolution is kept for the next.
#[verifier::reject_recursive_types(T)]
pub enum LazyValue<T> {
    /// The producer returns the value.
    Sync(SyncProducer<T>),
    /// The producer returns a suspending operation that yields the value.
    Async(AsyncProducer<T>),
}

impl<T> LazyValue<T> where T: Send + 'static {
    /// Creates a new `LazyValue` from a closure that returns the value.
    pub fn new<F>(f: F) -> (lazy: Self) where F: Fn() -> Result<T> + Send + Sync + 'static
        requires
            call_requires(f, ()),
        ensures
            lazy matches LazyValue::Sync(producer) && forall|outcome: Result<T>|
                #![trigger producer.yields(outcome)]
                #![trigger call_ensures(f, (), outcome)]
                producer.yields(outcome) <==> call_ensures(f, (), outcome),
    {
        LazyValue::Sync(SyncProducer::new(f))
    }

    /// Creates a new `LazyValue` from a closure that returns a future that
    /// resolves to the value.
    pub fn new_async<F, Fut>(f: F) -> (lazy: Self) where
        F: Fn() -> Fut + Send + Sync + 'static,
        Fut: Future<Output = Result<T>> + Send + 'static,
        requires
            call_requires(f, ()),
        ensures
            lazy matches LazyValue::Async(producer) && forall|
                pending: FutureObj<'static, Result<T>>,
            | #[trigger]
                producer.hands_out(pending) ==> exists|operation: Fut| #[trigger]
                    call_ensures(f, (), operation) && pending@ == operation@,
    {
        LazyValue::Async(AsyncProducer::new(f))
    }
}

impl<T> LazyValue<T> {
    /// The name under which the active variant is rendered.
    pub open spec fn spec_variant_name(&self) -> Seq<char> {
        match self {
            LazyValue::Sync(_) => "LazyValue::Sync"@,
            LazyValue::Async(_) => "LazyValue::Async"@,
        }
    }

    /// The name under which the active variant is rendered.
    pub fn variant_name(&self) -> (name: &'static str)
        ensures
            name@ == self.spec_variant_name(),
    {
        match self {
            LazyValue::Sync(_) => "LazyValue::Sync",
            LazyValue::Async(_) => "LazyValue::Async",
        }
    }

    /// The one field under which every variant is rendered: the producer
    /// itself cannot be inspected.
    pub open spec fn spec_placeholder() -> Seq<char> {
        "<closure>"@
    }

    /// The text as which the holder is rendered: a tuple of the variant's
    /// name and the placeholder, which is a string. It depends on the variant
    /// and the layout alone.
    pub open spec fn spec_rendering(&self, alternate: bool) -> Seq<char> {
        tuple_text(
            self.spec_variant_name(),
            seq![str_debug(Self::spec_placeholder())],
            alternate,
        )
    }
}

impl<T: Debug> Debug for LazyValue<T> {
    /// Renders the holder as a tuple of the variant's name and a placeholder,
    /// after what the sink has already taken and in the layout that the
    /// formatter asks for. Nothing of the producer or of `T` is rendered.
    /// Where the sink refuses a write, it is left with a beginning of the
    /// rendering.
    fn fmt(&self, f: &mut Formatter<'_>) -> (written: std::fmt::Result)
        ensures
            written is Ok ==> sink_text(*final(f)) == sink_text(*old(f)) + self.spec_rendering(
                alternate(*old(f)),
            ),
            exists|taken: Seq<char>|
                #![trigger sink_text(*old(f)) + taken]
                sink_text(*final(f)) == sink_text(*old(f)) + taken && taken.is_prefix_of(
                    self.spec_rendering(alternate(*old(f))),
                ),
            alternate(*final(f)) == alternate(*old(f)),
    {
        let mut tuple = begin_tuple(f, self.variant_name());
        add_field(&mut tuple, "<closure>");
        finish_tuple(tuple)
    }
}

impl<T> Clone for LazyValue<T> {
    /// Another handle on the same producer.
    fn clone(&self) -> (other: Self)
        ensures
            other == *self,
    {
        match self {
            LazyValue::Sync(producer) => LazyValue::Sync(producer.clone()),
            LazyValue::Async(producer) => LazyValue::Async(producer.clone()),
        }
    }
}

impl<T: Clone> Resolve<T> for LazyValue<T> {
    /// A synchronous producer is run and what it yields is settled at once; an
    /// asynchronous one is run up to its suspending operation, which is handed
    /// out.
    open spec fn resolves_to(&self, resolution: Resolution<'_, T>) -> bool {
        match self {
            LazyValue::Sync(producer) => match resolution {
                Resolution::Ready(Ok(Cow::Owned(value))) => producer.yields(Ok(value)),
                Resolution::Ready(Err(error)) => producer.yields(Err(error)),
                _ => false,
            },
            LazyValue::Async(producer) => resolution matches Resolution::Pending(pending)
                && producer.hands_out(pending),
        }
    }

    fn resolve(&self) -> (resolution: Resolution<'_, T>) {
        match self {
            LazyValue::Sync(producer) => Resolution::Ready(settle(producer.invoke())),
            LazyValue::Async(producer) => Resolution::Pending(producer.start()),
        }
    }
}

} // verus!
