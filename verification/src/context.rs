//! The context manager: one randomized context, made on first need from a
//! seed of entropy, and kept for good.
//!
//! The entropy source is not reached from here. The manager says how many
//! 32-bit values it needs, the caller draws them, and the manager consumes
//! them at most once.

use crate::constants::{ENTROPY_DRAWS, SEED_SIZE};
use crate::engine::{engine_context_new, engine_context_randomize, handle_blinding, Handle};
use vstd::prelude::*;

verus! {

/// A context of the engine that can sign and verify, blinded with a seed.
/// Once made it is only read.
pub struct Context {
    handle: Handle,
}

/// Holds the seed buffer and, once made, the context.
pub struct ContextManager {
    seed: [u8; SEED_SIZE],
    context: Option<Context>,
    drawn: usize,
}

impl Context {
    /// Creates a context for signing and verification and has the engine
    /// blind it with `seed`.
    pub fn create(seed: &[u8; SEED_SIZE]) -> (context: Context)
        ensures
            handle_blinding(context.engine_handle()) == Some(seed@),
    {
        let mut handle = engine_context_new();
        engine_context_randomize(&mut handle, seed);
        Context { handle }
    }

    /// The engine's own context object.
    pub(crate) fn handle(&self) -> (handle: &Handle)
        ensures
            *handle == self.engine_handle(),
    {
        &self.handle
    }

    /// The context object of the engine that this context holds: the one
    /// that was made and blinded when the context was created.
    pub closed spec fn engine_handle(&self) -> Handle {
        self.handle
    }
}

/// A 32-bit draw as the unsigned number with the same bits.
pub open spec fn draw_word(value: i32) -> nat {
    if value < 0 {
        (value + 0x1_0000_0000) as nat
    } else {
        value as nat
    }
}

/// Byte `index` of a draw, least significant byte first.
pub open spec fn draw_byte(value: i32, index: int) -> u8 {
    let word = draw_word(value);
    if index == 0 {
        (word % 256) as u8
    } else if index == 1 {
        (word / 0x100 % 256) as u8
    } else if index == 2 {
        (word / 0x1_0000 % 256) as u8
    } else {
        (word / 0x100_0000 % 256) as u8
    }
}

/// The seed that eight draws make: the four bytes of each draw, in the order
/// of the draws.
pub open spec fn seed_of_draws(draws: Seq<i32>) -> Seq<u8> {
    Seq::new(32, |i: int| draw_byte(draws[i / 4], i % 4))
}

/// The seed buffer before the context exists: zeros.
pub open spec fn blank_seed() -> Seq<u8> {
    Seq::new(32, |i: int| 0u8)
}

/// The seed buffer once the seed was used: a marker in the first byte, zeros
/// after it.
pub open spec fn spent_seed() -> Seq<u8> {
    Seq::new(
        32,
        |i: int|
            if i == 0 {
                1u8
            } else {
                0u8
            },
    )
}

/// The four bytes of a draw, least significant first.
pub fn draw_bytes(value: i32) -> (bytes: [u8; 4])
    ensures
        forall|j: int| 0 <= j < 4 ==> bytes@[j] == draw_byte(value, j),
{
    let word: u32 = if value < 0 {
        ((value - i32::MIN) as u32) + 0x8000_0000
    } else {
        value as u32
    };
    assert(word == draw_word(value));
    [
        (word % 256) as u8,
        (word / 0x100 % 256) as u8,
        (word / 0x1_0000 % 256) as u8,
        (word / 0x100_0000) as u8,
    ]
}

/// Assembles the seed from eight draws of the entropy source.
pub fn initialize_context_seed(draws: &[i32; ENTROPY_DRAWS]) -> (seed: [u8; SEED_SIZE])
    ensures
        seed@ == seed_of_draws(draws@),
{
    let mut seed = [0u8; SEED_SIZE];
    let mut k: usize = 0;
    while k < ENTROPY_DRAWS
        invariant
            0 <= k <= 8,
            forall|j: int| 0 <= j < 4 * k ==> seed@[j] == draw_byte(draws@[j / 4], j % 4),
        decreases 8 - k,
    {
        let bytes = draw_bytes(draws[k]);
        let offset = 4 * k;
        seed[offset] = bytes[0];
        seed[offset + 1] = bytes[1];
        seed[offset + 2] = bytes[2];
        seed[offset + 3] = bytes[3];
        k += 1;
    }
    assert(seed@ =~= seed_of_draws(draws@));
    seed
}

impl ContextManager {
    /// Whether the context was made.
    pub closed spec fn is_ready(&self) -> bool {
        self.context is Some
    }

    /// The cached context, if it was made.
    pub closed spec fn cached(&self) -> Option<Context> {
        self.context
    }

    /// What the seed buffer holds.
    pub closed spec fn seed_view(&self) -> Seq<u8> {
        self.seed@
    }

    /// How many values of the entropy source were consumed so far.
    pub closed spec fn drawn_view(&self) -> nat {
        self.drawn as nat
    }

    /// The seed that the engine's context was blinded with; none before the
    /// context exists.
    pub closed spec fn blinding_seed(&self) -> Option<Seq<u8>> {
        match self.context {
            Some(context) => handle_blinding(context.engine_handle()),
            None => None,
        }
    }

    /// What holds of a manager at all times: before the context exists the
    /// seed buffer is blank and nothing was drawn; afterwards the buffer is
    /// spent, exactly eight values were drawn and the engine's context is
    /// blinded.
    pub closed spec fn wf(&self) -> bool {
        if self.context is Some {
            &&& self.seed@ == spent_seed()
            &&& self.drawn == 8
            &&& handle_blinding(self.context->0.engine_handle()) is Some
        } else {
            self.seed@ == blank_seed() && self.drawn == 0
        }
    }

    /// At every moment a manager is in one of two states. Before the context
    /// exists nothing was drawn and the seed buffer is blank. Afterwards
    /// exactly eight values were drawn, the seed buffer is spent and the
    /// engine's context is blinded: no context is handed out unblinded. So the
    /// first byte of the buffer tells the two apart, every other byte is zero
    /// throughout, and the entropy consumed over any number of calls is 0 or 8.
    pub proof fn law_seed_and_entropy(&self)
        requires
            self.wf(),
        ensures
            self.is_ready() <==> self.seed_view()[0] != 0,
            self.is_ready() ==> self.seed_view() == spent_seed() && self.drawn_view() == 8,
            !self.is_ready() ==> self.seed_view() == blank_seed() && self.drawn_view() == 0,
            self.is_ready() <==> self.blinding_seed() is Some,
            forall|i: int| 1 <= i < 32 ==> self.seed_view()[i] == 0,
    {
        assert(spent_seed()[0] == 1);
        assert(blank_seed()[0] == 0);
    }

    /// A manager with no context yet.
    pub fn new() -> (manager: Self)
        ensures
            manager.wf(),
            !manager.is_ready(),
    {
        let manager = ContextManager {
            seed: [0u8; SEED_SIZE],
            context: None,
            drawn: 0,
        };
        assert(manager.seed@ =~= blank_seed());
        manager
    }

    /// Whether the context was made, read from the marker in the seed buffer.
    pub fn is_initialized(&self) -> (ready: bool)
        requires
            self.wf(),
        ensures
            ready == self.is_ready(),
    {
        proof {
            self.law_seed_and_entropy();
        }
        self.seed[0] != 0
    }

    /// How many values the caller has to draw from the entropy source before
    /// it next asks for the context: eight before the context exists, none
    /// ever after.
    pub fn entropy_needed(&self) -> (count: usize)
        requires
            self.wf(),
        ensures
            count == if self.is_ready() { 0usize } else { 8usize },
            count + self.drawn_view() == 8,
    {
        proof {
            self.law_seed_and_entropy();
        }
        if self.seed[0] == 0 {
            ENTROPY_DRAWS
        } else {
            0
        }
    }

    /// How many values of the entropy source were consumed so far.
    pub fn entropy_drawn(&self) -> (count: usize)
        ensures
            count == self.drawn_view(),
    {
        self.drawn
    }

    /// The seed buffer.
    pub fn seed(&self) -> (seed: &[u8; SEED_SIZE])
        ensures
            seed@ == self.seed_view(),
    {
        &self.seed
    }

    /// The cached context, without making it.
    pub fn context(&self) -> (context: Option<&Context>)
        ensures
            match context {
                Some(handle) => self.cached() == Some(*handle),
                None => !self.is_ready(),
            },
    {
        self.context.as_ref()
    }

    /// The context. On first call it is made: the seed is assembled from
    /// `entropy`, the context is created and blinded with it, and the seed
    /// buffer is overwritten with the marker and zeros. On every later call
    /// the cached context comes back, `entropy` is not looked at and nothing
    /// changes.
    pub fn get_context(&mut self, entropy: &[i32; ENTROPY_DRAWS]) -> (context: &Context)
        requires
            old(self).wf(),
        ensures
            final(self).wf(),
            final(self).is_ready(),
            final(self).cached() == Some(*context),
            final(self).seed_view() == spent_seed(),
            final(self).drawn_view() == 8,
            old(self).is_ready() ==> *final(self) == *old(self),
            final(self).blinding_seed() == handle_blinding(context.engine_handle()),
            !old(self).is_ready() ==> handle_blinding(context.engine_handle()) == Some(
                seed_of_draws(entropy@),
            ),
    {
        proof {
            self.law_seed_and_entropy();
        }
        if self.seed[0] == 0 {
            self.seed = initialize_context_seed(entropy);
            self.context = Some(Context::create(&self.seed));
            self.drawn = self.drawn + ENTROPY_DRAWS;
            self.seed[0] = 1;
            let mut i: usize = 1;
            while i < SEED_SIZE
                invariant
                    1 <= i <= 32,
                    self.seed@[0] == 1,
                    forall|j: int| 1 <= j < i ==> self.seed@[j] == 0,
                    self.context is Some,
                    handle_blinding(self.context->0.engine_handle()) == Some(
                        seed_of_draws(entropy@),
                    ),
                    self.drawn == 8,
                decreases 32 - i,
            {
                self.seed[i] = 0;
                i += 1;
            }
            assert(self.seed@ =~= spent_seed());
        }
        self.context.as_ref().unwrap()
    }
}

/// Makes the context ahead of the first operation that needs it. Does nothing
/// where it exists.
pub fn initialize_context(manager: &mut ContextManager, entropy: &[i32; ENTROPY_DRAWS])
    requires
        old(manager).wf(),
    ensures
        final(manager).wf(),
        final(manager).is_ready(),
        final(manager).seed_view() == spent_seed(),
        final(manager).drawn_view() == 8,
        old(manager).is_ready() ==> *final(manager) == *old(manager),
        !old(manager).is_ready() ==> final(manager).blinding_seed() == Some(
            seed_of_draws(entropy@),
        ),
{
    let _ = manager.get_context(entropy);
}

} // verus!
