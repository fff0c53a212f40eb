//! A gateway for BOLT12 payments: conversion between invoices and the RPC
//! messages, and the decisions taken while serving a request.
pub mod codec;
pub mod invoice;
pub mod lifecycle;
pub mod payments;
pub mod rpc;
pub mod server;
pub mod service;
pub mod status;
pub mod tls;

pub use server::LNDKServer;
pub use tls::collect_tls_ips;
