use vstd::prelude::*;

verus! {

/// The drawing capability the cycle engine consumes, implemented by a host
/// renderer that owns the frame; the engine itself owns no display buffer.
pub trait Display {
    /// Clears the frame.
    fn cls(&mut self);

    /// XOR-blits an 8-wide, `sprite.len()`-tall sprite at `(x, y)` with
    /// wraparound.  Returns 1 when any previously-set pixel was erased (a
    /// collision), else 0.
    fn draw(&mut self, x: u8, y: u8, sprite: &[u8]) -> (r: u8)
        ensures
            r == 0 || r == 1,
    ;
}

} // verus!
