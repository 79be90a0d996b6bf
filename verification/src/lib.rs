//! Exact search for the best armor loadout under a weight budget.
//!
//! A catalog of armor pieces is split into four pools, one per body slot, and
//! the four-way product of the pools is searched for the combination with the
//! highest total of one chosen attribute whose total weight stays within the
//! budget. All values are fixed-point integers with one implied decimal digit.

pub mod armor;
pub mod catalog;
pub mod laws;
pub mod optimizer;
pub mod search;
pub mod table;
pub mod text;
