//! The rules of a small rolling-ball arena: a player rolls into scattered
//! objects and absorbs them, and a queue of notifications announces each
//! absorption, one at a time, holding and then fading.
//!
//! The crate holds the decisions only. The physics engine, the scene graph
//! and the screen stay with the caller, who hands in collision events and
//! contact geometry as plain values and carries out the commands that come
//! back.

pub mod attach;
pub mod collision;
pub mod contact;
pub mod entity;
pub mod input;
pub mod layout;
pub mod notification;
pub mod pipeline;
pub mod timer;
pub mod vector;
