//! Core rules of a terminal cookie-clicker idle game with casino side games.

pub mod blackjack;
pub mod cards;
pub mod casino;
pub mod chat;
pub mod catalog;
pub mod clock;
pub mod controls;
pub mod display;
pub mod history;
pub mod rng;
pub mod slots;
pub mod text;
pub mod wager;
pub mod roulette;
