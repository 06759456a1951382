use std::borrow::Cow;
use std::sync::atomic::AtomicUsize;
use std::sync::atomic::Ordering;
use std::sync::Arc;

use futures::executor::block_on;
use lazy_value::settle;
use lazy_value::Error;
use lazy_value::LazyValue;
use lazy_value::Resolution;
use lazy_value::Resolve;
use lazy_value::Value;

#[test]
fn test_raw() {
    let value = Value::Raw(42);
    match value.resolve() {
        Resolution::Ready(result) => assert_eq!(*result.unwrap(), 42),
        Resolution::Pending(_) => panic!("a raw value does not suspend"),
    }
}

#[test]
fn raw_resolves_to_the_held_data() {
    let value = Value::Raw(String::from("kept"));
    let held: &String = match &value {
        Value::Raw(data) => data,
        Value::Lazy(_) => panic!("built as raw"),
    };
    for _ in 0..3 {
        match value.resolve() {
            Resolution::Ready(Ok(Cow::Borrowed(data))) => {
                assert_eq!(data, "kept");
                assert!(std::ptr::eq(data, held));
            }
            _ => panic!("a raw value resolves to a reference"),
        }
    }
}

#[test]
fn lazy_resolves_as_the_held_value() {
    let count = Arc::new(AtomicUsize::new(0));
    let count_clone = count.clone();
    let value = Value::Lazy(LazyValue::new(move || {
        Ok(count_clone.fetch_add(1, Ordering::SeqCst) as u64 * 2)
    }));

    for expected in [0u64, 2, 4] {
        match value.resolve() {
            Resolution::Ready(Ok(Cow::Owned(data))) => assert_eq!(data, expected),
            _ => panic!("a synchronous producer yields an owned value"),
        }
    }
    assert_eq!(count.load(Ordering::SeqCst), 3);
}

#[test]
fn lazy_async_resolves_as_the_held_value() {
    let count = Arc::new(AtomicUsize::new(0));
    let count_clone = count.clone();
    let value = Value::Lazy(LazyValue::new_async(move || {
        let count_clone = count_clone.clone();
        async move {
            count_clone.fetch_add(1, Ordering::SeqCst);
            Ok::<_, Error>(vec![1u8, 2, 3])
        }
    }));

    match value.resolve() {
        Resolution::Pending(operation) => {
            let result = settle(block_on(operation)).unwrap();
            assert_eq!(result.as_ref(), &[1u8, 2, 3]);
        }
        Resolution::Ready(_) => panic!("an asynchronous producer suspends"),
    }
    assert_eq!(count.load(Ordering::SeqCst), 1);
}

#[test]
fn clone_of_raw_holds_equal_data() {
    let value = Value::Raw(vec![1, 2, 3]);
    let copy = value.clone();
    drop(value);
    match copy.resolve() {
        Resolution::Ready(result) => assert_eq!(*result.unwrap(), vec![1, 2, 3]),
        Resolution::Pending(_) => panic!("a raw value does not suspend"),
    }
}

#[test]
fn clone_of_lazy_shares_the_producer() {
    let count = Arc::new(AtomicUsize::new(0));
    let count_clone = count.clone();
    let value = Value::Lazy(LazyValue::new(move || {
        Ok(count_clone.fetch_add(1, Ordering::SeqCst))
    }));
    let copy = value.clone();
    assert!(matches!(copy, Value::Lazy(LazyValue::Sync(_))));
    assert!(matches!(value.resolve(), Resolution::Ready(Ok(Cow::Owned(0)))));
    assert!(matches!(copy.resolve(), Resolution::Ready(Ok(Cow::Owned(1)))));
    assert_eq!(count.load(Ordering::SeqCst), 2);
}

#[test]
fn debug_renders_the_variant() {
    assert_eq!(format!("{:?}", Value::Raw(42)), "Raw(42)");
    let lazy = Value::Lazy(LazyValue::new(|| Ok(42)));
    assert_eq!(format!("{:?}", lazy), "Lazy(LazyValue::Sync(\"<closure>\"))");
}

#[test]
fn debug_renders_the_held_value_inside_the_variant() {
    let lazy = Value::<i32>::Lazy(LazyValue::new(|| Ok(1)));
    assert_eq!(format!("{:?}", lazy), "Lazy(LazyValue::Sync(\"<closure>\"))");
    assert_eq!(
        format!("{:#?}", lazy),
        "Lazy(\n    LazyValue::Sync(\n        \"<closure>\",\n    ),\n)"
    );
}
