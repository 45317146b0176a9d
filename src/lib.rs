//! Extension methods for options, results and primitive integers.
use vstd::prelude::*;

mod sealed;

pub mod fallible;

pub use fallible::{OptionExt, ResultExt};

pub mod num;

pub use num::{Bounds, NumExt, SNumExt};
