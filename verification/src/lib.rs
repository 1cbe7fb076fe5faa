//! Session-based authentication core of a small web application.
//!
//! The crate decides whether a request is authenticated, verifies credentials
//! against stored password hashes, carries one-shot flash messages across a
//! redirect, and intercepts requests to protected routes before they
//! reach their handlers.
//! The user store and the per-request session are modelled as plain values so
//! that every decision over them is verified; the hosting web framework and
//! the relational store live outside this crate and hand values in and out.

pub mod admin_controller;
pub mod assets;
pub mod auth_controller;
pub mod form;
pub mod gate;
pub mod home_controller;
pub mod password;
pub mod response;
pub mod seeder;
pub mod session;
pub mod strutil;
pub mod user;
pub mod user_service;
