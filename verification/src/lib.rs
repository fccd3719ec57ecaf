//! Scoring of a single Riichi-Mahjong-style hand: the closed tile and yaku
//! catalogues, the decomposition of a sorted 14-tile hand into four groups
//! plus a pair, and the evaluation of which yaku the hand satisfies.

pub mod tile;
pub mod yaku;
pub mod sorting;
pub mod decompose;
pub mod player;
