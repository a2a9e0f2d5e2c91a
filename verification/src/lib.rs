//! Core of a proving orchestrator for a rollup-style chain.
//!
//! The pipeline ingests blocks from an upstream node, drives each block
//! through a multi-stage proving chain (execution artifact, inner proof,
//! recursive layout-bridge proof, settlement), memoizes every remote
//! checkpoint in a persistent stage-record store, and resumes after a crash
//! without paying for work it already finished.
//!
//! Each stage's decision core is a state machine over plain values: the
//! surrounding runtime performs the channel sends, remote calls and sleeps
//! that the machine asks for, and feeds the outcomes back in as events.

pub mod bridge;

pub mod felt;

pub mod ingestor;

pub mod jobs;

pub mod service;

pub mod settlement;

pub mod snos;

pub mod storage;

pub mod trace;
