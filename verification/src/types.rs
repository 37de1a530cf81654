//! Values shared by the parts that talk to the shop.

pub mod local;
