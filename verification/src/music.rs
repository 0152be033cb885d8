use vstd::prelude::*;

verus! {

/// Notes of the march heartbeat, played in a cycle.
pub const MARCH_NOTES: usize = 4;

/// Tracks the current beat of the iconic 4-note alien march.
pub struct MarchState {
    step: usize,
}

impl MarchState {
    #[verifier::type_invariant]
    spec fn inv(self) -> bool {
        self.step < MARCH_NOTES
    }

    /// The beat that plays next, in `0..4`.
    pub closed spec fn next_step(self) -> int {
        self.step as int
    }

    /// A march about to play its first beat.
    pub fn new() -> (march: MarchState)
        ensures
            march.next_step() == 0,
    {
        MarchState { step: 0 }
    }

    /// The beat that plays next.
    pub fn step(&self) -> (step: usize)
        ensures
            step == self.next_step(),
            step < MARCH_NOTES,
    {
        proof {
            use_type_invariant(self);
        }
        self.step
    }

    /// Back to beat 0, at the start of each wave.
    pub fn reset(&mut self)
        ensures
            final(self).next_step() == 0,
    {
        self.step = 0;
    }

    /// Plays one beat: returns the note to play and moves on to the next
    /// one of the cycle.
    pub fn beat(&mut self) -> (note: usize)
        ensures
            note == old(self).next_step(),
            note < MARCH_NOTES,
            final(self).next_step() == (old(self).next_step() + 1) % (MARCH_NOTES as int),
    {
        proof {
            use_type_invariant(&*self);
        }
        let note = self.step;
        self.step = (self.step + 1) % MARCH_NOTES;
        note
    }
}

/// The beat that follows `step`.
pub open spec fn following_step(step: int) -> int {
    (step + 1) % (MARCH_NOTES as int)
}

/// The beat reached from `step` after `k` beats.
pub open spec fn beats(step: int, k: nat) -> int
    decreases k,
{
    if k == 0 {
        step
    } else {
        following_step(beats(step, (k - 1) as nat))
    }
}

/// The march cycles through its notes in order: after `k` beats it is at
/// beat `(step + k) mod 4`, so every fourth beat repeats the same note.
pub proof fn lemma_march_cycles(step: int, k: nat)
    requires
        0 <= step < MARCH_NOTES,
    ensures
        beats(step, k) == (step + k) % (MARCH_NOTES as int),
        beats(step, 4) == step,
    decreases k,
{
    if k > 0 {
        lemma_march_cycles(step, (k - 1) as nat);
        vstd::arithmetic::div_mod::lemma_add_mod_noop(step + k - 1, 1, MARCH_NOTES as int);
    }
    assert(beats(step, 4) == step) by {
        reveal_with_fuel(beats, 5);
    }
}

} // verus!
