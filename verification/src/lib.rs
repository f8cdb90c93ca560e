//! Finding the web console page of a resource of a deployed stack.
//!
//! The user picks a stack from a list, then one of the stack's resources, and
//! gets the console path of that resource. This library holds what is decided
//! on the way:
//!
//! - [`resource`]: a resource and its record, the line that stands for it in
//!   the picker, written and read back;
//! - [`collection`]: a listing as a block of such lines;
//! - [`resolver`]: the console path of a resource, by a table of templates;
//! - [`selector`]: what the picker's report means;
//! - [`pipeline`]: the lookup as a state machine that is told of listings
//!   and picks and says what to do next;
//! - [`error`]: the ways in which a lookup fails;
//! - [`text`]: cutting a text at a separator and joining it again.
//!
//! Listing over the network and showing the picker are left to the caller.

pub mod collection;
pub mod error;
pub mod pipeline;
pub mod resolver;
pub mod resource;
pub mod selector;
pub mod text;
