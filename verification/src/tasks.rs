//! What the tasks of the engine say to each other, what the task of one
//! account does with it, and what holds of that task over several commands.

pub mod backing;
pub mod command;
pub mod lifecycle;
pub mod worker;
