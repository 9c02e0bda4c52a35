//! A small library exercising ownership, move, copy, and borrow semantics
//! over one owned text buffer and one primitive numeric value.
//!
//! Each function demonstrates one rule: transferring ownership into a callee,
//! passing a copyable value, handing ownership to the caller, moving a value
//! through a call and back, reading through a shared borrow, and writing
//! through an exclusive borrow. The contracts pin down exactly what each step
//! returns or changes; printing the results is left to the surrounding
//! program.

use vstd::prelude::*;
use vstd::string::StrSliceExecFns;
use vstd::string::StringExecFns;

verus! {

/// The fixed suffix that the mutation steps append to an owned buffer.
pub open spec fn suffix() -> Seq<char> {
    ", world!"@
}

/// Takes ownership of `some_string` (the caller's binding is moved from and
/// no longer usable), appends the fixed suffix to the now-owned buffer, and
/// returns the result for printing. The buffer is released by whoever ends up
/// owning the returned value.
pub fn takes_ownership(some_string: String) -> (r: String)
    ensures
        r@ == some_string@ + suffix(),
{
    let mut owned = some_string;
    owned.append(", world!");
    owned
}

/// Receives a duplicate of `some_integer` and returns the value to be
/// printed. Because the argument is copied rather than moved, the caller's
/// binding stays valid and unchanged after the call.
pub fn makes_copy(some_integer: i32) -> (r: i32)
    ensures
        r == some_integer,
{
    some_integer
}

/// Allocates a fresh owned buffer and transfers ownership to the caller
/// through the return value; the caller's receiving binding becomes the sole
/// owner.
pub fn gives_ownership() -> (r: String)
    ensures
        r@ == "hello"@,
{
    String::from_str("hello")
}

/// Takes ownership of `a_string` and immediately transfers it back through
/// the return value: the content is exactly what was moved in, and a single
/// owner holds it throughout.
pub fn takes_and_gives_back(a_string: String) -> (r: String)
    ensures
        r == a_string,
{
    a_string
}

/// Reads the buffer through a shared borrow, without taking ownership, and
/// returns its exact character count; the owning binding remains valid and
/// untouched.
pub fn calculate_length(s: &String) -> (len: usize)
    ensures
        len == s@.len(),
{
    s.as_str().unicode_len()
}

/// Writes through an exclusive borrow: appends the fixed suffix to the
/// borrowed buffer exactly once, so the owning binding observes the mutation
/// after the call.
pub fn change_string(s: &mut String)
    ensures
        final(s)@ == old(s)@ + suffix(),
{
    s.append(", world!");
}

} // verus!
