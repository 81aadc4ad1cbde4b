//! What holds of every use of the library, whatever it is used on.
//!
//! The laws here are on what functions give back and what they ask to be done, not on how that is
//! worked out: `call_ensures(f, args, result)` says that `result` is a result of `f` on `args`.
pub mod animation;
pub mod effects;
pub mod loading;
pub mod messages;
pub mod node;
pub mod settings;
pub mod stack;
pub mod transition;
pub mod waiting;
