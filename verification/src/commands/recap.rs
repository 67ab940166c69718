use vstd::prelude::*;

use crate::domain::consts::{DEFAULT_MSG_RECAP, MAX_MSG_RECAP};
use crate::text::{parse_usize, parsed_usize, trim, trimmed};

verus! {

/// How many messages `/recap` summarizes for its argument: the default when
/// the trimmed argument is empty or not a number, else the number brought
/// within `1..=MAX_MSG_RECAP`.
pub open spec fn recap_count(args: Seq<char>) -> usize {
    let t = trimmed(args);
    if t.len() == 0 {
        DEFAULT_MSG_RECAP
    } else {
        match parsed_usize(t) {
            Some(v) => if v < 1 {
                1
            } else if v > MAX_MSG_RECAP {
                MAX_MSG_RECAP
            } else {
                v
            },
            None => DEFAULT_MSG_RECAP,
        }
    }
}

/// How many messages `/recap` summarizes for its argument.
pub fn parse_count(args: String) -> (n: usize)
    ensures
        n == recap_count(args@),
        1 <= n <= MAX_MSG_RECAP,
{
    let t = trim(args.as_str());
    if t.is_empty() {
        DEFAULT_MSG_RECAP
    } else {
        match parse_usize(t) {
            Some(v) => if v < 1 {
                1
            } else if v > MAX_MSG_RECAP {
                MAX_MSG_RECAP
            } else {
                v
            },
            None => DEFAULT_MSG_RECAP,
        }
    }
}

} // verus!
