//! Control core of a small clock appliance: the action pipeline and its
//! controller, the refresh signal, the network time client, and the sky and
//! moon models, all over integers in fixed point.

pub mod board;
pub mod controller;
pub mod moon;
pub mod ntp;
pub mod sky;
pub mod tasks;
pub mod text;
pub mod time;
pub mod ui;
pub mod wifi;
