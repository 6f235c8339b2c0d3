use vstd::prelude::*;
use std::sync::{Arc, Mutex, MutexGuard};

verus! {

/// The TIA's sound registers as the audio mixer reads them.
#[derive(Clone, Copy, Debug)]
pub struct TiaAudioState {
    pub audc0: u8,
    pub audf0: u8,
    pub audv0: u8,
    pub audc1: u8,
    pub audf1: u8,
    pub audv1: u8,
    /// When true, the mixer plays a continuous beep to check the audio backend.
    pub test_beep: bool,
}

/// All channels silent, no test beep.
pub open spec fn silent_audio() -> TiaAudioState {
    TiaAudioState { audc0: 0, audf0: 0, audv0: 0, audc1: 0, audf1: 0, audv1: 0, test_beep: false }
}

impl Default for TiaAudioState {
    fn default() -> (r: Self)
        ensures
            r == silent_audio(),
    {
        Self { audc0: 0, audf0: 0, audv0: 0, audc1: 0, audf1: 0, audv1: 0, test_beep: false }
    }
}

#[verifier::external_type_specification]
#[verifier::external_body]
#[verifier::reject_recursive_types(T)]
pub struct ExMutex<T: ?Sized>(Mutex<T>);

/// The sound registers shared between the emulator and the audio thread.
pub type SharedAudioState = Arc<Mutex<TiaAudioState>>;

/// `std::sync::Mutex::new`. The lock's later contents are changed through
/// shared references, so nothing is stated of them.
#[verifier::external_body]
fn new_audio_mutex(s: TiaAudioState) -> Mutex<TiaAudioState> {
    Mutex::new(s)
}

#[verifier::external_type_specification]
#[verifier::external_body]
#[verifier::reject_recursive_types(T)]
pub struct ExMutexGuard<'a, T: ?Sized + 'a>(MutexGuard<'a, T>);

/// `std::sync::Mutex::lock`: the guard, or `None` when the lock is
/// poisoned. The lock is held until the guard is dropped.
#[verifier::external_body]
fn lock_shared<'a>(state: &'a SharedAudioState) -> Option<MutexGuard<'a, TiaAudioState>> {
    state.lock().ok()
}

/// `Deref` of the guard: a copy of the contents. What the lock holds depends
/// on the other threads that share it, so nothing is stated of the result.
#[verifier::external_body]
fn guard_get(g: &MutexGuard<TiaAudioState>) -> TiaAudioState {
    **g
}

/// `DerefMut` of the guard: the contents replaced by `s`.
#[verifier::external_body]
fn guard_set(g: &mut MutexGuard<TiaAudioState>, s: TiaAudioState) {
    **g = s;
}

/// A fresh shared state, all channels silent.
pub fn shared_audio_state() -> SharedAudioState {
    Arc::new(new_audio_mutex(TiaAudioState::default()))
}

/// The beep that the audio test plays: channel 0 on a square wave, channel 1 off.
pub open spec fn with_test_beep_s(s: TiaAudioState, enabled: bool) -> TiaAudioState {
    if enabled {
        TiaAudioState { test_beep: true, audc0: 0x04, audf0: 18, audv0: 12, audc1: 0, audf1: 0, audv1: 0 }
    } else {
        TiaAudioState { test_beep: false, ..s }
    }
}

/// Turn the test beep on (which also sets the beep's channel registers) or off.
pub fn with_test_beep(s: TiaAudioState, enabled: bool) -> (r: TiaAudioState)
    ensures
        r == with_test_beep_s(s, enabled),
{
    let mut s = s;
    s.test_beep = enabled;
    if enabled {
        s.audc0 = 0x04;
        s.audf0 = 18;
        s.audv0 = 12;
        s.audc1 = 0;
        s.audf1 = 0;
        s.audv1 = 0;
    }
    s
}

/// Turn the test beep of a shared state on or off (see `with_test_beep`).
pub fn set_test_beep(state: &SharedAudioState, enabled: bool) {
    if let Some(mut g) = lock_shared(state) {
        let s = guard_get(&g);
        guard_set(&mut g, with_test_beep(s, enabled));
    }
}

/// The mixer's state for the TIA's registers `regs`, keeping the test beep
/// setting of `current`.
pub fn mixer_update(current: TiaAudioState, regs: TiaAudioState) -> (r: TiaAudioState)
    ensures
        r == (TiaAudioState { test_beep: current.test_beep, ..regs }),
{
    TiaAudioState { test_beep: current.test_beep, ..regs }
}

/// One step of the noise channels' 32-bit shift register: the register
/// moves one bit to the right and bit 31 takes the parity of bits 0, 1, 21
/// and 31. A register that is not zero never becomes zero.
pub fn noise_step(n: u32) -> (r: u32)
    ensures
        r & 0x7fff_ffff == n >> 1,
        r >> 31 == (n ^ (n >> 1) ^ (n >> 21) ^ (n >> 31)) & 1,
        n != 0 ==> r != 0,
{
    let bit = (n ^ (n >> 1) ^ (n >> 21) ^ (n >> 31)) & 1;
    let r = (n >> 1) | (bit << 31);
    assert(r & 0x7fff_ffff == n >> 1 && r >> 31 == bit && (n != 0 ==> r != 0)) by (bit_vector)
        requires
            bit == (n ^ (n >> 1) ^ (n >> 21) ^ (n >> 31)) & 1,
            r == (n >> 1) | (bit << 31),
    ;
    r
}

/// Hand the TIA's sound registers to the mixer, keeping its test beep.
/// `handed` records every register state offered; the lock takes it unless
/// it is poisoned.
pub(crate) fn publish_audio(
    state: &SharedAudioState,
    regs: TiaAudioState,
    handed: &mut Ghost<Seq<TiaAudioState>>,
)
    ensures
        final(handed)@ == old(handed)@.push(regs),
{
    if let Some(mut g) = lock_shared(state) {
        let current = guard_get(&g);
        guard_set(&mut g, mixer_update(current, regs));
    }
    *handed = Ghost(handed@.push(regs));
}

} // verus!
