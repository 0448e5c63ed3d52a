//! Verified core of a single-host sandbox supervisor for an online judge:
//! configuration validation, the guest initializer's plan, syscall-filter
//! policies and their installation, wait-status accounting, verdict
//! classification and log-record formatting.
//!
//! Process creation, file descriptors and the clock stay with the caller,
//! which performs the steps this library decides and hands back what the
//! kernel reported.

pub mod child;
pub mod config;
pub mod error;
pub mod logger;
pub mod runner;
pub mod seccomp;

pub use child::{child_steps, ChildStep, Rlimit};
pub use config::Config;
pub use error::ErrorCode;
pub use logger::{log_line, LogLevel};
pub use runner::{
    account, classify, plan_run, settle_interactor, LaunchPlan, ResourceUsage, RunResult, Start,
};
pub use seccomp::{
    policy_for, ArgCondition, FilterAction, FilterPolicy,
    FilterRule, SeccompRuleName,
};
