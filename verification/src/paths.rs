//! Paths as text.
//!
//! A path is held as text and joined with `/`, which every platform that this
//! library names accepts as a separator.

use vstd::prelude::*;
use crate::text::{to_chars, to_string};

verus! {

/// The separator that `join` puts between the parts of a path.
pub const SEPARATOR: char = '/';

/// `child` under `base`: a child that begins at the root stands for itself;
/// otherwise it follows the base, after a separator where the base does not
/// end in one.
pub open spec fn joined(base: Seq<char>, child: Seq<char>) -> Seq<char> {
    if child.len() > 0 && child[0] == SEPARATOR {
        child
    } else if base.len() == 0 || base.last() == SEPARATOR {
        base + child
    } else {
        base.push(SEPARATOR) + child
    }
}

/// The path of `child` under `base`.
pub fn join(base: &str, child: &str) -> (r: String)
    ensures
        r@ == joined(base@, child@),
{
    let b = to_chars(base);
    let c = to_chars(child);
    if c.len() > 0 && c[0] == SEPARATOR {
        return to_string(&c);
    }
    let mut out = b;
    let n = out.len();
    if n > 0 && out[n - 1] != SEPARATOR {
        out.push(SEPARATOR);
    }
    crate::text::append(&mut out, &c);
    to_string(&out)
}

/// The path of `child` under `base`, where there is a base.
pub open spec fn joined_opt(base: Option<Seq<char>>, child: Seq<char>) -> Option<Seq<char>> {
    match base {
        Some(b) => Some(joined(b, child)),
        None => None,
    }
}

} // verus!
