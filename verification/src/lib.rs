//! Poll-level state machines of slim asynchronous combinators, with the
//! typestate helpers (`option_entry`, `three_states`) they are built on.
//!
//! A combinator here holds its own state and the user's synchronous
//! functions; a driver owns the underlying async iterator, the futures'
//! execution context and the loop of one poll. Within a poll the combinator
//! answers each event with the next [`poll::Step`] to take.

pub mod option_entry;
pub mod three_states;
pub mod poll;
pub mod assert_future;
pub mod async_slim_map;
pub mod and_then;
pub mod async_iter;
pub mod runs;
pub mod poll_runs;
pub mod mapped_runs;
pub mod calls;
pub mod progress;
pub mod hints;
