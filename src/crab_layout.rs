//! The layout policies the manager can run.
use vstd::prelude::*;

use crate::floating_layout::FloatingLayout;

verus! {

/// The policy that decides how windows are framed, placed and focused.
#[derive(Clone, Copy, Debug, PartialEq, Eq)]
pub enum CrabLayout {
    Floating(FloatingLayout),
}

} // verus!
