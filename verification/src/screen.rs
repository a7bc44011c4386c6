//! Types for the size of the terminal screen, and the logic that turns the
//! result of an operating-system size query into them.
//!
//! The query itself — asking the OS whether standard output is a terminal and
//! how large it is — is a syscall and lives outside this library. Callers
//! perform it and hand the outcome in as an `Option<(u16, u16)>`: `None` when
//! the output is not an interactive terminal or the query failed, otherwise
//! `Some((columns, rows))`.

use vstd::prelude::*;
use crate::decimal::dec_nat;
use crate::decimal::push_dec;

verus! {

/// Represents the width of a terminal, in columns.
#[derive(Debug, Clone, Copy, PartialEq, Eq, Structural)]
pub struct Width(pub u16);

/// Represents the height of a terminal, in rows.
#[derive(Debug, Clone, Copy, PartialEq, Eq, Structural)]
pub struct Height(pub u16);

impl Width {
    /// The width as decimal text.
    pub fn to_string(&self) -> (r: String)
        ensures
            r@ == dec_nat(self.0 as int),
    {
        let mut out = String::new();
        proof {
            Seq::<char>::add_empty_left(Seq::<char>::empty(), dec_nat(self.0 as int));
        }
        push_dec(&mut out, self.0);
        out
    }
}

impl Height {
    /// The height as decimal text.
    pub fn to_string(&self) -> (r: String)
        ensures
            r@ == dec_nat(self.0 as int),
    {
        let mut out = String::new();
        proof {
            Seq::<char>::add_empty_left(Seq::<char>::empty(), dec_nat(self.0 as int));
        }
        push_dec(&mut out, self.0);
        out
    }
}

/// Returns the terminal screen width (in columns), given the outcome of the
/// operating-system size query.
///
/// Returns `None` exactly when the query reported no size.
pub fn width(size: Option<(u16, u16)>) -> (r: Option<Width>)
    ensures
        match size {
            Some(wh) => r == Some(Width(wh.0)),
            None => r is None,
        },
{
    if let Some((w, _)) = size {
        Some(Width(w))
    } else {
        None
    }
}

/// Returns the terminal screen height (in rows), given the outcome of the
/// operating-system size query.
///
/// Returns `None` exactly when the query reported no size.
pub fn height(size: Option<(u16, u16)>) -> (r: Option<Height>)
    ensures
        match size {
            Some(wh) => r == Some(Height(wh.1)),
            None => r is None,
        },
{
    if let Some((_, h)) = size {
        Some(Height(h))
    } else {
        None
    }
}

} // verus!
