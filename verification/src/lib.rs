//! A minimal persistence layer over an embedded relational store: a generic
//! repository contract implemented for a todo entity and for a user entity.
//!
//! Each repository owns one store connection; the store's tables are modeled
//! row by row as mathematical sequences, and every operation is specified
//! against that model.

pub mod models;
pub mod repository;
