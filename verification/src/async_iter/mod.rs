//! Combinators over asynchronous iterators, one poll at a time.

pub mod map;
pub mod filter;
pub mod filter_map;
pub mod take_while;
pub mod map_while;
pub mod inspect;
pub mod scan;
pub mod skip_while;
pub mod fuse;
pub mod and_then;
pub mod or_else;
pub mod map_ok;
pub mod map_err;
pub mod inspect_ok;
pub mod err_into;
pub mod zip;
pub mod reduce_async;
pub mod map_async;
pub mod map_while_async;
pub mod filter_map_async;
pub mod and_then_async;
pub mod or_else_async;
pub mod scan_async;
pub mod states;
pub mod filter_async;
pub mod find_async;
pub mod take_while_async;
pub mod skip_while_async;
pub mod fold_async;
pub mod try_fold_async;
pub mod for_each_async;
pub mod try_for_each_async;
pub mod all_async;
pub mod any_async;
pub mod try_fold;
pub mod reduce;
pub mod all;
pub mod try_for_each;
pub mod flatten;
pub mod flat_map;
pub mod find_map_async;
pub mod map_ok_async;
pub mod map_err_async;
pub mod try_flatten;
pub mod flat_map_async;
pub mod getters;
