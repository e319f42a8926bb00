//! Shared run-time state records.
use std::sync::atomic::AtomicBool;
use std::sync::Arc;
use vstd::prelude::*;

verus! {

/// Internal state for tracking playlist playback (not serializable)
pub struct PlaylistPlaybackState {
    pub playlist_id: String,
    pub current_item_index: usize,
    pub total_items: usize,
    pub is_playing: bool,
    pub loop_mode: bool,
    pub cancel: Arc<AtomicBool>,
}

/// Another handle on a shared flag.
///
/// Trusted: `Arc::clone` makes another pointer to the same allocation, as
/// its documentation states.
#[verifier::external_body]
pub(crate) fn share_flag(flag: &Arc<AtomicBool>) -> (r: Arc<AtomicBool>)
    ensures
        r == *flag,
{
    Arc::clone(flag)
}

} // verus!
