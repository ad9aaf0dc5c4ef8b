#![allow(unused_imports)]

pub mod acceptance_criterion;
pub mod backlog_item;
pub mod clock;
pub mod email;
pub mod epic;
pub mod helper;
pub mod interface;
pub mod processor;
pub mod product_backlog;
pub mod project;
pub mod repository;
pub mod sprint;
pub mod types;
pub mod user;
