//! A fixed-size worker pool's scheduling core, with the small exercises that
//! accompany it: arithmetic helpers, text search, shapes, summaries and more.
//!
//! The pool's decisions live in [`pool::Dispatcher`]: which worker receives
//! which message, when a worker is busy or stopped, and when teardown is done.
//! Threads, locks and the jobs themselves are run by the program around it,
//! which also answers web requests as [`http`] routes them.
pub mod adder;
pub mod cacher;
pub mod coins;
pub mod colors;
pub mod generics;
pub mod http;
pub mod minigrep;
pub mod mybox;
pub mod operators;
pub mod ownership;
pub mod pool;
pub mod restaurant;
pub mod shapes;
pub mod shoes;
pub mod summary;
