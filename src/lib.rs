//! Four small, independent building blocks: a pair that recombines fields of
//! two pairs, a filter over borrowed shoe records, a view that cycles over a
//! slice forever, and a helper that renders a labelled boolean connective.
pub mod pair;
pub mod shoes;
pub mod cycle;
pub mod logger;
