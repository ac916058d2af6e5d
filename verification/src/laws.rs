//! What holds of the operations, beyond what each of them says of itself.
pub mod commits;
pub mod editing;
pub mod found;
pub mod items;
pub mod libraries;
pub mod names;
pub mod placing;
pub mod probes;
pub mod reading;
pub mod sending;
pub mod shapes;
pub mod splices;
pub mod texts;
pub mod views;
