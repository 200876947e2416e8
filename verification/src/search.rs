//! Auxiliary state carried across a search-and-resume workflow: created when
//! a search-driven operator sequence begins, consumed when the search
//! resolves or is cancelled.

use vstd::prelude::*;

use crate::mode::Mode;
use crate::mode::Operator;

verus! {

/// Which way a search proceeds.
#[derive(Clone, Copy, Debug, PartialEq, Eq, Structural)]
pub enum Direction {
    Prev,
    Next,
}

impl Default for Direction {
    /// Searches proceed forward unless asked otherwise.
    fn default() -> (r: Self)
        ensures
            r == Direction::Next,
    {
        Direction::Next
    }
}

/// A selected span, recorded as plain buffer offsets; the host resolves its
/// anchor positions to offsets at the boundary.
#[derive(Clone, Copy, Debug, PartialEq, Eq, Structural)]
pub struct SelectionRange {
    pub start: usize,
    pub end: usize,
}

/// State stashed when a search interrupts an operator sequence, restored
/// when the search resolves.
#[derive(Clone, Debug)]
pub struct SearchState {
    pub direction: Direction,
    pub count: usize,
    pub initial_query: String,
    pub prior_selections: Vec<SelectionRange>,
    pub prior_operator: Option<Operator>,
    pub prior_mode: Mode,
}

impl Default for SearchState {
    /// A fresh search: forward, no count, empty query, nothing stashed.
    fn default() -> (r: Self)
        ensures
            r.direction == Direction::Next,
            r.count == 0,
            r.initial_query@ == Seq::<char>::empty(),
            r.prior_selections@ == Seq::<SelectionRange>::empty(),
            r.prior_operator is None,
            r.prior_mode == Mode::Normal,
    {
        SearchState {
            direction: Direction::Next,
            count: 0,
            initial_query: String::new(),
            prior_selections: Vec::new(),
            prior_operator: None,
            prior_mode: Mode::Normal,
        }
    }
}

} // verus!
