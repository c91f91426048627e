//! Parallel proof-of-work search over the 64-bit nonce space.
//!
//! A session splits the nonce space among a fixed number of workers
//! ([`nonce`]). Each worker hashes successive nonces against one challenge
//! ([`hasher`], [`digest`]), keeps the best difficulty it has seen and offers
//! each improvement to a tracker that all workers share ([`tracker`]). At
//! checkpoints it reads its clock ([`clock`]) and the tracker and asks the
//! cutoff policy whether it may stop ([`policy`], [`worker`]). When all
//! workers are done, the best of their results is the session's
//! ([`aggregate`]). A benchmark run counts every hash by difficulty instead
//! ([`histogram`]). What a mining session decides around the search is in
//! [`miner`].
//!
//! The library starts no threads. A caller runs [`worker::scan`] once per
//! worker, each on a thread of its choosing, and hands the results to
//! [`aggregate::select_best`].

pub mod aggregate;
pub mod clock;
pub mod digest;
pub mod hasher;
pub mod histogram;
pub mod miner;
pub mod nonce;
pub mod policy;
pub mod tracker;
pub mod worker;
