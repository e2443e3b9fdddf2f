//! Backend selection and request-dispatch rules of a layer 4 / layer 7 load balancer.

pub mod algorithm;
pub mod config;
pub mod counters;
pub mod counting;
pub mod decimal;
pub mod document;
pub mod headers;
pub mod ip_hashing;
pub mod layer4;
pub mod layer7;
pub mod listener;
pub mod load_balancer;
pub mod round_robin;
pub mod scheduler;
pub mod server;
pub mod settings;
pub mod text;
pub mod uri;
pub mod weighted_round_robin;
pub mod weighted_rr;
