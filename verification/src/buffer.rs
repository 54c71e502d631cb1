//! The byte window between the byte source and the codec engine.
//!
//! The window has a fixed size. Its front part, up to the fill mark, holds
//! the bytes that the engine is to decode; the engine reports how far it has
//! consumed them. To refill, the bytes from the consumed offset to the fill
//! mark move to the front, and what the source delivers is written behind
//! them. What lies behind the fill mark is never part of the stream.

use vstd::prelude::*;

verus! {

/// Size of the byte window.
pub const BUFFER_SIZE: usize = 32_768;

/// The mathematical content of a [`Buffer`]: all bytes of the window, and
/// the fill mark.
pub struct BufferView {
    pub bytes: Seq<u8>,
    pub filled: nat,
}

impl BufferView {
    /// The window has its fixed size and the fill mark lies within it.
    pub open spec fn wf(self) -> bool {
        &&& self.bytes.len() == BUFFER_SIZE
        &&& self.filled <= BUFFER_SIZE
    }

    /// The bytes up to the fill mark.
    pub open spec fn window(self) -> Seq<u8> {
        self.bytes.subrange(0, self.filled as int)
    }

    /// The room behind the fill mark.
    pub open spec fn free(self) -> nat {
        (BUFFER_SIZE - self.filled) as nat
    }

    /// The offset at which the unconsumed bytes begin, for an engine that
    /// reports `consumed`: the report, limited to the fill mark.
    pub open spec fn tail_start(self, consumed: nat) -> nat {
        if consumed < self.filled {
            consumed
        } else {
            self.filled
        }
    }

    /// The bytes that the engine has not consumed, for an engine that
    /// reports `consumed`: those from that offset up to the fill mark.
    pub open spec fn unconsumed(self, consumed: nat) -> Seq<u8> {
        self.bytes.subrange(self.tail_start(consumed) as int, self.filled as int)
    }

    /// The window after the unconsumed bytes have moved to the front. The
    /// fill mark stands behind them; the bytes behind the mark are as they
    /// were.
    pub open spec fn compacted(self, consumed: nat) -> BufferView {
        let kept = self.unconsumed(consumed).len() as int;
        BufferView {
            bytes: self.unconsumed(consumed) + self.bytes.subrange(kept, BUFFER_SIZE as int),
            filled: kept as nat,
        }
    }

    /// The window after `data` has been written at the fill mark, which
    /// moves behind it.
    pub open spec fn extended(self, data: Seq<u8>) -> BufferView {
        BufferView {
            bytes: self.bytes.subrange(0, self.filled as int) + data + self.bytes.subrange(
                (self.filled + data.len()) as int,
                BUFFER_SIZE as int,
            ),
            filled: self.filled + data.len(),
        }
    }

    /// A window that holds `data` at its front and zeros behind.
    pub open spec fn starting_with(data: Seq<u8>) -> BufferView {
        BufferView {
            bytes: data + Seq::new((BUFFER_SIZE - data.len()) as nat, |i: int| 0u8),
            filled: data.len(),
        }
    }
}

/// The byte window.
#[derive(Debug)]
pub struct Buffer {
    bytes: Vec<u8>,
    filled: usize,
}

impl View for Buffer {
    type V = BufferView;

    closed spec fn view(&self) -> BufferView {
        BufferView { bytes: self.bytes@, filled: self.filled as nat }
    }
}

impl Buffer {
    /// Every buffer is well formed.
    #[verifier::type_invariant]
    spec fn well_formed(&self) -> bool {
        self@.wf()
    }

    /// A window that holds `data` at its front.
    pub fn new(data: &Vec<u8>) -> (buffer: Buffer)
        requires
            data.len() <= BUFFER_SIZE,
        ensures
            buffer@ == BufferView::starting_with(data@),
            buffer@.wf(),
            buffer@.window() == data@,
    {
        let mut bytes: Vec<u8> = vec![0u8; BUFFER_SIZE];
        let mut i: usize = 0;
        while i < data.len()
            invariant
                i <= data.len() <= BUFFER_SIZE,
                bytes.len() == BUFFER_SIZE,
                forall|k: int| 0 <= k < i ==> bytes[k] == data[k],
                forall|k: int| i <= k < BUFFER_SIZE ==> bytes[k] == 0u8,
            decreases data.len() - i,
        {
            bytes[i] = data[i];
            i += 1;
        }
        assert(bytes@ =~= BufferView::starting_with(data@).bytes);
        Buffer { bytes, filled: data.len() }
    }

    /// All bytes of the window.
    pub fn bytes(&self) -> (bytes: &Vec<u8>)
        ensures
            bytes@ == self@.bytes,
            self@.wf(),
    {
        proof {
            use_type_invariant(self);
        }
        &self.bytes
    }

    /// The fill mark.
    pub fn filled(&self) -> (n: usize)
        ensures
            n == self@.filled,
            self@.wf(),
    {
        proof {
            use_type_invariant(self);
        }
        self.filled
    }

    /// The room behind the fill mark.
    pub fn free(&self) -> (n: usize)
        ensures
            n == self@.free(),
            self@.wf(),
    {
        proof {
            use_type_invariant(self);
        }
        BUFFER_SIZE - self.filled
    }

    /// Moves the bytes that the engine has not consumed to the front, given
    /// the offset `consumed` that the engine reports, and sets the fill mark
    /// behind them. Returns the number of bytes kept.
    pub fn compact(&mut self, consumed: usize) -> (kept: usize)
        ensures
            final(self)@ == old(self)@.compacted(consumed as nat),
            final(self)@.wf(),
            kept == final(self)@.filled,
            final(self)@.window() == old(self)@.unconsumed(consumed as nat),
        no_unwind
    {
        proof {
            use_type_invariant(&*self);
        }
        let from: usize = if consumed < self.filled {
            consumed
        } else {
            self.filled
        };
        let kept: usize = self.filled - from;
        let ghost before = self.bytes@;
        let mut i: usize = 0;
        while i < kept
            invariant
                i <= kept,
                kept + from <= BUFFER_SIZE,
                self.bytes.len() == BUFFER_SIZE,
                self.filled <= BUFFER_SIZE,
                before.len() == BUFFER_SIZE,
                forall|k: int| 0 <= k < i ==> self.bytes[k] == before[k + from],
                forall|k: int| i <= k < BUFFER_SIZE ==> self.bytes[k] == before[k],
            decreases kept - i,
        {
            let byte = self.bytes[i + from];
            self.bytes[i] = byte;
            i += 1;
        }
        self.filled = kept;
        assert(self@.bytes =~= old(self)@.compacted(consumed as nat).bytes);
        assert(self@.window() =~= old(self)@.unconsumed(consumed as nat));
        kept
    }

    /// Writes `data` at the fill mark and moves the mark behind it.
    pub fn extend(&mut self, data: &Vec<u8>)
        requires
            data.len() <= old(self)@.free(),
        ensures
            final(self)@ == old(self)@.extended(data@),
            final(self)@.wf(),
            final(self)@.window() == old(self)@.window() + data@,
        no_unwind
    {
        proof {
            use_type_invariant(&*self);
        }
        let start: usize = self.filled;
        let ghost before = self.bytes@;
        let mut i: usize = 0;
        while i < data.len()
            invariant
                i <= data.len(),
                start + data.len() <= BUFFER_SIZE,
                self.bytes.len() == BUFFER_SIZE,
                self.filled <= BUFFER_SIZE,
                before.len() == BUFFER_SIZE,
                forall|k: int| 0 <= k < start ==> self.bytes[k] == before[k],
                forall|k: int| 0 <= k < i ==> self.bytes[start + k] == data[k],
                forall|k: int| start + i <= k < BUFFER_SIZE ==> self.bytes[k] == before[k],
            decreases data.len() - i,
        {
            self.bytes[start + i] = data[i];
            i += 1;
        }
        self.filled = start + data.len();
        assert(self@.bytes =~= old(self)@.extended(data@).bytes);
    }
}

} // verus!
