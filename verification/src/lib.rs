//! Client core for KNXnet/IP tunnelling: the frame codec, the datapoint
//! encodings and the sans-I/O state machine of one tunnelling channel.
//!
//! Every byte the library emits is given by a `bytes` specification function of
//! the value it stands for, and every decoder returns what the matching `parse`
//! function says. Time enters as a plain number of milliseconds that the host
//! reads from a monotonic clock of its choice.

pub mod address;
pub mod cemi;
pub mod dpt;
pub mod group_event;
pub mod knxnet;
pub mod octets;
pub mod text;
pub mod tunnel_connection;

