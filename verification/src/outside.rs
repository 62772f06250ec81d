//! The calls this library makes into other crates. Nothing in this file is
//! proved: each contract states what the called function is documented to do.

use crate::notification::CanonStateNotification;
use crate::primitives::{Address, B256};
use rand::Rng;
use revm::database::BundleState;
use tokio::sync::broadcast::{Receiver, Sender};
use vstd::prelude::*;

verus! {

/// The accumulated state changes of a run of blocks. Its contents are never
/// read here; the value is only carried along.
#[verifier::external_type_specification]
#[verifier::external_body]
pub struct ExBundleState(BundleState);

/// The sending half of a broadcast channel.
#[verifier::external_type_specification]
#[verifier::external_body]
#[verifier::reject_recursive_types(T)]
pub struct ExSender<T>(Sender<T>);

/// The receiving half of a broadcast channel.
#[verifier::external_type_specification]
#[verifier::external_body]
#[verifier::reject_recursive_types(T)]
pub struct ExReceiver<T>(Receiver<T>);

/// The addresses of the accounts that a bundle holds changes for.
pub uninterp spec fn bundle_accounts(bundle: BundleState) -> Set<Seq<u8>>;

/// The number of unread notifications that a channel was asked to hold when
/// it was made.
pub uninterp spec fn channel_limit(tx: Sender<CanonStateNotification>) -> nat;

/// The Keccak-256 digest of a byte string.
pub uninterp spec fn keccak256_digest(input: Seq<u8>) -> Seq<u8>;

/// Calls `revm::primitives::keccak256`. The digest is a function of the input
/// bytes alone.
#[verifier::external_body]
pub(crate) fn keccak256(input: &Vec<u8>) -> (digest: B256)
    ensures
        digest@ == keccak256_digest(input@),
{
    B256(revm::primitives::keccak256(input).0)
}

/// Calls `Rng::gen` on `rand::thread_rng()` for a block number. Nothing is
/// claimed of the number drawn.
#[verifier::external_body]
pub(crate) fn random_number() -> u64 {
    rand::thread_rng().gen::<u64>()
}

/// Calls `Rng::gen` on `rand::thread_rng()` for 32 bytes. Nothing is claimed
/// of the bytes drawn.
#[verifier::external_body]
pub(crate) fn random_hash() -> B256 {
    B256(rand::thread_rng().gen::<[u8; 32]>())
}

/// Calls `Rng::gen` on `rand::thread_rng()` for 20 bytes. Nothing is claimed
/// of the bytes drawn.
#[verifier::external_body]
pub(crate) fn random_address() -> Address {
    Address(rand::thread_rng().gen::<[u8; 20]>())
}

/// Calls `BundleState::default`, whose map of changed accounts is empty: the
/// bundle holds changes for no account.
#[verifier::external_body]
pub(crate) fn empty_bundle() -> (bundle: BundleState)
    ensures
        bundle_accounts(bundle) == Set::<Seq<u8>>::empty(),
{
    BundleState::default()
}

/// Calls `tokio::sync::broadcast::channel`, which panics on a capacity of
/// zero or above `usize::MAX / 2`. The sending half belongs to a channel
/// that was asked to hold `capacity` unread notifications; the channel may
/// hold more, since it rounds the number up to a power of two.
#[verifier::external_body]
pub(crate) fn channel(capacity: usize) -> (halves: (
    Sender<CanonStateNotification>,
    Receiver<CanonStateNotification>,
))
    requires
        0 < capacity <= usize::MAX / 2,
    ensures
        channel_limit(halves.0) == capacity,
{
    tokio::sync::broadcast::channel(capacity)
}

/// Calls `Sender::send` with `event` and tells whether it returned `Ok`. That
/// depends on whether a receiver of the channel is still alive, so nothing
/// is stated of the answer.
#[verifier::external_body]
pub(crate) fn send(tx: &Sender<CanonStateNotification>, event: CanonStateNotification) -> (delivered:
    bool) {
    tx.send(event).is_ok()
}

} // verus!
