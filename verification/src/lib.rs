//! Payment backends for a mint that sells search credits: conversion of
//! prices to invoice amounts, the pool of pending payment waits, the ledger
//! of what each quote cost and credits, and the decisions of the two
//! backends.

pub mod amount;
pub mod cdk_wallet;
pub mod cln;
pub mod config;
pub mod currency;
pub mod db;
pub mod invoice;
pub mod ledger;
pub mod payment;
pub mod pool;
