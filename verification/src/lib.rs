//! A verified "zap" dispatcher: splits one input asset in half and builds two
//! swap instructions for an external automated-market-maker contract, packaged
//! as a single outbound call descriptor with a fixed gas allowance.

pub mod account;
pub mod laws;
pub mod zap;
