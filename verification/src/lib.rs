//! A terminal issue tracker: epics that own stories, kept in one document.
//!
//! The library holds the rules of the tracker. [`models`] defines the document,
//! [`db`] the store that keeps it consistent, [`navigator`] the stack of pages
//! that turns what the user asks for into changes of that stack and of the
//! store, and [`ui`] the pages, the lines they show and the questions they
//! ask. Reading the keyboard, writing to the terminal and keeping the document
//! in a file are left to the program around the library.
pub mod db;
pub mod io_utils;
pub mod models;
pub mod navigator;
pub mod ui;
