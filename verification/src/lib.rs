//! Timing instrumentation for functions, as a transformation on source tokens.
//!
//! Given a function declaration and a small directive, the crate synthesizes a
//! replacement function that runs the function's own body, measures how long it
//! took and reports the duration through a sink chosen by the caller. Nothing is
//! measured here: the crate produces the code that measures.
//!
//! - [`unit`]: the four time units and the tokens that name them.
//! - [`directive`]: the arguments of a directive, and the unit and template that
//!   they stand for.
//! - [`target`]: the annotated item, and the parts of a function.
//! - [`synth`]: the replacement function, token by token.
//! - [`dispatch`]: the four entry points, one for each sink.
//! - [`error`]: the ways in which a transformation is refused.
//! - [`tokens`]: the token streams of `proc_macro2`, and what is assumed of them.

pub mod directive;
pub mod dispatch;
pub mod error;
pub mod synth;
pub mod target;
pub mod tokens;
pub mod unit;

pub use directive::{Directive, DirectiveArg};
pub use dispatch::{timer_log_debug, timer_log_info, timer_log_trace, timer_println, Sink};
pub use error::{ErrorSite, TimerError};
pub use synth::{builder, synthesize};
pub use target::{FunctionParts, SourceItem};
pub use unit::TimeUnit;
