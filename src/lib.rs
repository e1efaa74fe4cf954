//! Topology-checked assembly of a small feed-forward neural network for
//! classifying flower measurements, with the shape rules of its matrix
//! operations and the one-hot encoding of its class labels.

pub mod flower;
pub mod shape;
pub mod network;
