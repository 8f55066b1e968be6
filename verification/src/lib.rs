//! A lookup tool over a fixed creature dataset: the search, hydration and
//! view-state logic, with every function proved against its contract.

pub mod display;
pub mod hydrate;
pub mod matching;
pub mod pokemon;
pub mod render;
pub mod text;
