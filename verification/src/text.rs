//! Character-level comparisons of string slices.
//!
//! A string is modelled by its view, the sequence of its characters.

use vstd::prelude::*;
use vstd::std_specs::iter::IteratorSpec;

verus! {

/// Whether `prefix` opens `text`, read character by character.
pub fn begins_with(text: &str, prefix: &str) -> (r: bool)
    ensures
        r == prefix@.is_prefix_of(text@),
{
    let mut rest = text.chars();
    let mut want = prefix.chars();
    let ghost mut done: int = 0;
    loop
        invariant
            0 <= done <= text@.len(),
            done <= prefix@.len(),
            rest.remaining() == text@.skip(done),
            want.remaining() == prefix@.skip(done),
            text@.take(done) == prefix@.take(done),
        decreases prefix@.len() - done,
    {
        match want.next() {
            None => {
                return true;
            },
            Some(w) => {
                match rest.next() {
                    None => {
                        return false;
                    },
                    Some(c) => {
                        if c != w {
                            return false;
                        }
                        proof {
                            done = done + 1;
                        }
                    },
                }
            },
        }
    }
}

/// Whether two string slices hold the same characters.
pub fn same_text(left: &str, right: &str) -> (r: bool)
    ensures
        r == (left@ == right@),
{
    let mut a = left.chars();
    let mut b = right.chars();
    let ghost mut done: int = 0;
    loop
        invariant
            0 <= done <= left@.len(),
            done <= right@.len(),
            a.remaining() == left@.skip(done),
            b.remaining() == right@.skip(done),
            left@.take(done) == right@.take(done),
        decreases left@.len() - done,
    {
        match a.next() {
            None => {
                let tail = b.next();
                proof {
                    assert(left@.skip(done).len() == 0);
                    assert(left@.take(done) =~= left@);
                    if tail.is_none() {
                        assert(right@.skip(done).len() == 0);
                        assert(right@.take(done) =~= right@);
                    } else {
                        assert(right@.skip(done).len() > 0);
                    }
                }
                return tail.is_none();
            },
            Some(x) => {
                match b.next() {
                    None => {
                        return false;
                    },
                    Some(y) => {
                        if x != y {
                            return false;
                        }
                        proof {
                            done = done + 1;
                        }
                    },
                }
            },
        }
    }
}

/// A string as Rust's `Debug` formatting writes it: between double quotes,
/// with the characters that need it escaped.
pub uninterp spec fn quoted(text: Seq<char>) -> Seq<char>;

/// Formats a string slice with std's `Debug`. The outcome is a function of
/// the characters alone, which is all the contract says of it.
#[verifier::external_body]
pub(crate) fn debug_quoted(text: &str) -> (r: String)
    ensures
        r@ == quoted(text@),
{
    format!("{:?}", text)
}

} // verus!
