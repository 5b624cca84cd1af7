//! Working with optional values: unwrapping, defaults, and fallbacks.

use vstd::prelude::*;

verus! {

/// The fallback multiplier used when a value is absent.
pub const MULTIPLIER: i32 = 2;

/// Exercises the ways an optional value can be taken apart, checking each
/// result statically.
pub fn run() {
    let some_number: Option<i32> = Some(5);
    let some_string: Option<&str> = Some("hello");
    let n = some_number.unwrap();
    assert(n == 5);
    let s = some_string.unwrap();
    assert(s@ == "hello"@);

    // Present values come through unwrapping unchanged.
    let sum = 5 + some_number.unwrap();
    assert(sum == 10);

    // An absent value needs its type spelled out.
    let absent_number: Option<i32> = None;

    // A fallback value stands in for an absent one.
    let fallback = absent_number.unwrap_or(5);
    assert(fallback == 5);

    // So can a computed fallback.
    let computed = match absent_number {
        Some(v) => v,
        None => MULTIPLIER * 5,
    };
    assert(computed == 10);

    // Or the type's zero.
    let zero = absent_number.unwrap_or(0);
    assert(zero == 0);
}

} // verus!
