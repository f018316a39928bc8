//! A pre-built character generator for a fantasy tabletop role-playing
//! game: rolls the six core attributes, draws a kin, a profession and a
//! weakness uniformly at random, derives the secondary ratings, and
//! assembles the chosen profession template's skills, gear, coinage and
//! abilities into one internally consistent character aggregate.

pub mod attributes;
pub mod character;
pub mod derived;
pub mod dice;
pub mod gear;
pub mod kin;
pub mod profession;
pub mod skills;
pub mod weakness;
