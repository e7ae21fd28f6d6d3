//! Rewrites the visibility qualifier that leads a declaration's tokens.
use vstd::prelude::*;

pub mod tokens;
pub mod visibility;

pub use tokens::{Delimiter, Spacing, TokenTree};
pub use visibility::{remove_visibility, set_visibility};
