//! The source of random bytes that the machine is built with, and a
//! deterministic source that replays a fixed script.

use vstd::prelude::*;

verus! {

/// A supplier of random bytes. The machine asks for one byte each time it
/// executes the random instruction, and for none otherwise.
pub trait RandomSource {
    /// The next byte; a production source draws it uniformly from `0..=255`.
    fn next_byte(&mut self) -> u8;
}

/// A source that hands out the bytes of a script in order and starts over
/// when the script is exhausted. An empty script yields zero forever.
pub struct ScriptedSource {
    script: Vec<u8>,
    position: usize,
}

impl ScriptedSource {
    /// The position lies inside the script, or is zero for an empty script.
    #[verifier::type_invariant]
    spec fn valid(&self) -> bool {
        if self.script@.len() == 0 {
            self.position == 0
        } else {
            self.position < self.script@.len()
        }
    }

    /// The bytes that the source cycles through.
    pub closed spec fn script(&self) -> Seq<u8> {
        self.script@
    }

    /// Position in the script of the byte that is handed out next.
    pub closed spec fn position(&self) -> nat {
        self.position as nat
    }

    /// The byte that the next call of `next_byte` returns.
    pub open spec fn upcoming(&self) -> u8 {
        if self.script().len() == 0 {
            0
        } else {
            self.script()[self.position() as int]
        }
    }

    /// The position that follows the current one: one further, or back at
    /// the start after the last byte.
    pub open spec fn following(&self) -> nat {
        if self.position() + 1 >= self.script().len() {
            0
        } else {
            self.position() + 1
        }
    }

    /// A source that replays `script` from its first byte.
    pub fn new(script: Vec<u8>) -> (source: ScriptedSource)
        ensures
            source.script() == script@,
            source.position() == 0,
    {
        ScriptedSource { script, position: 0 }
    }
}

impl RandomSource for ScriptedSource {
    /// Returns the byte at the current position and moves on by one,
    /// wrapping to the start after the last byte.
    fn next_byte(&mut self) -> (byte: u8)
        ensures
            byte == old(self).upcoming(),
            final(self).script() == old(self).script(),
            final(self).position() == old(self).following(),
    {
        proof {
            use_type_invariant(&*self);
        }
        if self.script.len() == 0 {
            return 0;
        }
        let byte = self.script[self.position];
        if self.position + 1 == self.script.len() {
            self.position = 0;
        } else {
            self.position = self.position + 1;
        }
        byte
    }
}

} // verus!
