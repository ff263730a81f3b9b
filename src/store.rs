//! The arena that owns the particles of one simulation episode.
use vstd::prelude::*;
use crate::input::{ButtonState, CursorCommand, command_for, resolve_command};

verus! {

/// What teardown leaves of a store's contents: nothing.
pub open spec fn cleared<P>(s: Seq<P>) -> Seq<P> {
    Seq::empty()
}

/// Teardown is idempotent: clearing twice in a row leaves the store as empty as
/// clearing once, and clearing a store that was never populated leaves it
/// empty too.
pub proof fn lemma_clear_idempotent<P>(s: Seq<P>)
    ensures
        cleared(cleared(s)) == cleared(s),
        cleared(s).len() == 0,
        cleared(Seq::<P>::empty()) == Seq::<P>::empty(),
{
}

/// Particles held as a contiguous sequence; a particle is known by its slot.
pub struct ParticleStore<P> {
    particles: Vec<P>,
}

impl<P> View for ParticleStore<P> {
    type V = Seq<P>;

    closed spec fn view(&self) -> Seq<P> {
        self.particles@
    }
}

impl<P> ParticleStore<P> {
    /// An empty store.
    pub fn new() -> (r: Self)
        ensures
            r@ == Seq::<P>::empty(),
    {
        ParticleStore { particles: Vec::new() }
    }

    /// Replaces the contents with `particles`, in their order.
    pub fn populate(&mut self, particles: Vec<P>)
        ensures
            final(self)@ == particles@,
    {
        self.particles = particles;
    }

    /// Disposes every particle. Clearing an empty store leaves it empty.
    pub fn clear(&mut self)
        ensures
            final(self)@ == cleared(old(self)@),
    {
        self.particles = Vec::new();
    }

    /// Number of particles.
    pub fn len(&self) -> (r: usize)
        ensures
            r == self@.len(),
    {
        self.particles.len()
    }

    /// Whether the store holds no particle.
    pub fn is_empty(&self) -> (r: bool)
        ensures
            r == (self@.len() == 0),
    {
        self.particles.len() == 0
    }

    /// The particle in slot `i`, if there is one.
    pub fn get(&self, i: usize) -> (r: Option<&P>)
        ensures
            r is Some <==> i < self@.len(),
            r is Some ==> *r->Some_0 == self@[i as int],
    {
        if i < self.particles.len() {
            Some(&self.particles[i])
        } else {
            None
        }
    }

    /// All particles, in slot order, for a renderer to read.
    pub fn particles(&self) -> (r: &[P])
        ensures
            r@ == self@,
    {
        self.particles.as_slice()
    }

    /// One frame: resolves the cursor command once, then replaces every
    /// particle by `step(&command, &particle)`. The slots and their number
    /// stay; each particle is updated exactly once, with the same command.
    pub fn advance<T, F: Fn(&CursorCommand<T>, &P) -> P>(
        &mut self,
        buttons: ButtonState,
        cursor: Option<T>,
        step: F,
    )
        requires
            forall|i: int|
                0 <= i < old(self)@.len() ==> step.requires(
                    (&command_for(buttons, cursor), &old(self)@[i]),
                ),
        ensures
            final(self)@.len() == old(self)@.len(),
            forall|i: int|
                0 <= i < old(self)@.len() ==> step.ensures(
                    (&command_for(buttons, cursor), &old(self)@[i]),
                    final(self)@[i],
                ),
    {
        let command = resolve_command(buttons, cursor);
        let n = self.particles.len();
        let mut i: usize = 0;
        while i < n
            invariant
                command == command_for(buttons, cursor),
                n == old(self)@.len(),
                i <= n,
                self.particles@.len() == n,
                forall|j: int| i <= j < n ==> self.particles@[j] == old(self)@[j],
                forall|j: int|
                    0 <= j < n ==> step.requires((&command, &old(self)@[j])),
                forall|j: int|
                    0 <= j < i ==> step.ensures((&command, &old(self)@[j]), self.particles@[j]),
            decreases n - i,
        {
            let next = step(&command, &self.particles[i]);
            self.particles.set(i, next);
            i = i + 1;
        }
    }
}

} // verus!
