//! Foxhole: the state core of a start page that groups labelled links into
//! named cards.
//!
//! - [`cards`] holds the data model: links, cards and the collection of cards,
//!   each with a view that the contracts speak of.
//! - [`store`] holds the actions on the collection and the reducer: from a
//!   snapshot and an action to the next snapshot, or to the position that the
//!   action names and the snapshot does not have.
//! - [`laws`] states what holds of the reducer for every snapshot and action.
//! - [`theme`] holds the colour theme and the global display state.
//! - [`startup`] says what the page starts with, given what was kept from the
//!   last visit.
//! - [`forms`] and [`controls`] decide what the forms and the buttons of the
//!   page ask of the store.
//!
//! Nothing here draws a page or touches storage. The page reads and writes;
//! it hands in plain values and acts on what it gets back.

pub mod cards;
pub mod controls;
pub mod forms;
pub mod laws;
pub mod startup;
pub mod store;
pub mod text;
pub mod theme;
