//! A networked key-value store in three parts: a concurrent in-memory store
//! mapping string keys to string values, the RPC service exposing Put, Get
//! and Delete over it, and the HTTP gateway that turns REST-style routes
//! into those calls and RPC outcomes into HTTP statuses and bodies.
pub mod grpc_service;
pub mod key_value_store;
pub mod rest_proxy;
