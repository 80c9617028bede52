//! Connection logic of a network gateway that forwards local sockets into a
//! virtual network.
pub mod addr;
pub mod api;
pub mod control;
pub mod error;
pub mod gateway;
pub mod model;
pub mod network;
pub mod probe;
pub mod pump;
pub mod table;
pub mod text;
