//! Dice resolution for a 2d10 open-ended roll and the FEAT outcome table.
//!
//! `roll` draws dice and renders a roll's trace; `feat` classifies a final
//! total into a graded outcome; `tables` holds the smaller tables that sit
//! around a roll; `text` holds the decimal rendering that they share.

pub mod feat;
pub mod roll;
pub mod tables;
pub mod text;
