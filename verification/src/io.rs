//! The input and output devices of the processor.

use vstd::prelude::*;
use vstd::string::*;

verus! {

/// A device failed; `message` says how.
#[derive(Debug, Clone, PartialEq, Eq)]
pub struct IoError {
    pub message: String,
}

/// The input device: a stream of 32-bit words, each read as an integer or as
/// the bit pattern of a float.
pub trait Input {
    fn inw(&mut self) -> Result<u32, IoError>;

    fn finw(&mut self) -> Result<u32, IoError>;
}

/// The output device: a stream of bytes.
pub trait Output {
    /// The bytes that the device has taken so far.
    spec fn written(&self) -> Seq<u8>;

    /// Hands the byte `c` to the device. A device that takes the byte has
    /// it as the last of its bytes; a device that refuses has taken nothing.
    fn outb(&mut self, c: u8) -> (r: Result<(), IoError>)
        ensures
            r is Ok ==> final(self).written() == old(self).written().push(c),
            r is Err ==> final(self).written() == old(self).written(),
    ;
}

/// A device that has no input and takes no output: every use fails.
pub struct EmptyIO {}

impl EmptyIO {
    pub fn new() -> Self {
        Self {  }
    }
}

impl Default for EmptyIO {
    fn default() -> Self {
        Self::new()
    }
}

impl Input for EmptyIO {
    fn inw(&mut self) -> (r: Result<u32, IoError>)
        ensures
            r is Err,
            r->Err_0.message@ == "inw called"@,
    {
        Err(IoError { message: String::from_str("inw called") })
    }

    fn finw(&mut self) -> (r: Result<u32, IoError>)
        ensures
            r is Err,
            r->Err_0.message@ == "finw called"@,
    {
        Err(IoError { message: String::from_str("finw called") })
    }
}

impl Output for EmptyIO {
    open spec fn written(&self) -> Seq<u8> {
        Seq::empty()
    }

    fn outb(&mut self, c: u8) -> (r: Result<(), IoError>)
        ensures
            r is Err,
            r->Err_0.message@ == "outb called"@,
    {
        Err(IoError { message: String::from_str("outb called") })
    }
}

/// The little-endian word made of four bytes.
pub open spec fn spec_le_word(b0: u8, b1: u8, b2: u8, b3: u8) -> u32 {
    (b0 + 0x100 * b1 + 0x1_0000 * b2 + 0x100_0000 * b3) as u32
}

/// Input from a sequence of bytes, read as little-endian words from the
/// front.
pub struct BinaryInput {
    content: Vec<u8>,
    read_index: usize,
}

impl BinaryInput {
    /// The bytes that have not been read yet.
    pub closed spec fn view(&self) -> Seq<u8> {
        self.content@.subrange(self.read_index as int, self.content@.len() as int)
    }

    #[verifier::type_invariant]
    spec fn in_range(&self) -> bool {
        self.read_index <= self.content@.len()
    }

    pub fn new(content: Vec<u8>) -> (b: Self)
        ensures
            b@ == content@,
    {
        let b = Self { content, read_index: 0 };
        assert(b@ =~= content@);
        b
    }

    /// Takes the next word off the input; fails, and takes nothing, when
    /// fewer than four bytes are left.
    pub fn read_word(&mut self) -> (r: Result<u32, IoError>)
        ensures
            match r {
                Ok(w) => old(self)@.len() >= 4 && w == spec_le_word(
                    old(self)@[0],
                    old(self)@[1],
                    old(self)@[2],
                    old(self)@[3],
                ) && final(self)@ == old(self)@.skip(4),
                Err(e) => old(self)@.len() < 4 && final(self)@ == old(self)@ && e.message@
                    == "input exhausted"@,
            },
    {
        proof {
            use_type_invariant(&*self);
        }
        let len = self.content.len();
        let at = self.read_index;
        if len - at < 4 {
            return Err(IoError { message: String::from_str("input exhausted") });
        }
        let b0: u32 = self.content[at] as u32;
        let b1: u32 = self.content[at + 1] as u32;
        let b2: u32 = self.content[at + 2] as u32;
        let b3: u32 = self.content[at + 3] as u32;
        self.read_index = at + 4;
        assert(self@ =~= old(self)@.skip(4));
        Ok(b0 + 0x100 * b1 + 0x1_0000 * b2 + 0x100_0000 * b3)
    }
}

impl Input for BinaryInput {
    /// Takes the next word off the input.
    fn inw(&mut self) -> (r: Result<u32, IoError>)
        ensures
            match r {
                Ok(w) => old(self)@.len() >= 4 && w == spec_le_word(
                    old(self)@[0],
                    old(self)@[1],
                    old(self)@[2],
                    old(self)@[3],
                ) && final(self)@ == old(self)@.skip(4),
                Err(e) => old(self)@.len() < 4 && final(self)@ == old(self)@,
            },
    {
        self.read_word()
    }

    /// Takes the next word off the input, as the bit pattern of a float.
    fn finw(&mut self) -> (r: Result<u32, IoError>)
        ensures
            match r {
                Ok(w) => old(self)@.len() >= 4 && w == spec_le_word(
                    old(self)@[0],
                    old(self)@[1],
                    old(self)@[2],
                    old(self)@[3],
                ) && final(self)@ == old(self)@.skip(4),
                Err(e) => old(self)@.len() < 4 && final(self)@ == old(self)@,
            },
    {
        self.read_word()
    }
}

/// Output into a sequence of bytes.
pub struct BinaryOutput {
    content: Vec<u8>,
}

impl BinaryOutput {
    /// The bytes written so far.
    pub closed spec fn view(&self) -> Seq<u8> {
        self.content@
    }

    pub fn into_inner(self) -> (v: Vec<u8>)
        ensures
            v@ == self@,
    {
        self.content
    }

    pub fn new() -> (b: Self)
        ensures
            b@ == Seq::<u8>::empty(),
    {
        Self { content: Vec::new() }
    }
}

impl Default for BinaryOutput {
    fn default() -> (b: Self)
        ensures
            b@ == Seq::<u8>::empty(),
    {
        Self::new()
    }
}

impl Output for BinaryOutput {
    open spec fn written(&self) -> Seq<u8> {
        self@
    }

    fn outb(&mut self, c: u8) -> (r: Result<(), IoError>)
        ensures
            r is Ok,
            final(self)@ == old(self)@.push(c),
    {
        self.content.push(c);
        Ok(())
    }
}

} // verus!
