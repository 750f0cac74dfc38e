//! Taking in the text to translate: the size limit and the decoding.
//!
//! Reading a file or standard input belongs to the caller. The reader here is
//! handed what was read, piece by piece, and refuses input over the limit and
//! input that is not UTF-8.

use vstd::prelude::*;
use vstd::utf8::*;

verus! {

/// The largest input that is accepted, in bytes (1 MB).
pub const MAX_INPUT_SIZE: usize = 1024 * 1024;

/// Why input was refused.
#[derive(Debug, Clone, Copy, PartialEq, Eq, Structural)]
pub enum InputError {
    /// The input has more than `MAX_INPUT_SIZE` bytes. Holds the size that was
    /// seen, or the largest number if the size exceeds it.
    TooLarge { size: usize },
    /// The input is not valid UTF-8.
    NotUtf8,
}

/// Decodes bytes as UTF-8.
///
/// Calls `String::from_utf8`. Trusted: it succeeds exactly on valid UTF-8 and
/// then returns the text that the bytes encode.
#[verifier::external_body]
pub(crate) fn text_from_utf8(bytes: Vec<u8>) -> (text: Option<String>)
    ensures
        match text {
            Some(s) => valid_utf8(bytes@) && s@ == decode_utf8(bytes@),
            None => !valid_utf8(bytes@),
        },
{
    String::from_utf8(bytes).ok()
}

/// Checks the size of a file before it is read.
pub fn check_size(size: u64) -> (checked: Result<(), InputError>)
    ensures
        size <= MAX_INPUT_SIZE ==> checked is Ok,
        size > MAX_INPUT_SIZE ==> (checked matches Err(InputError::TooLarge { size: seen }) && (
        seen == size || (seen == usize::MAX && size > usize::MAX))),
{
    if size <= 1024 * 1024 {
        Ok(())
    } else if size <= usize::MAX as u64 {
        Err(InputError::TooLarge { size: size as usize })
    } else {
        Err(InputError::TooLarge { size: usize::MAX })
    }
}

/// Collects input that arrives in pieces.
#[derive(Debug)]
pub struct InputReader {
    buffer: Vec<u8>,
}

impl View for InputReader {
    type V = Seq<u8>;

    closed spec fn view(&self) -> Seq<u8> {
        self.buffer@
    }
}

impl InputReader {
    #[verifier::type_invariant]
    spec fn within_limit(self) -> bool {
        self.buffer@.len() <= MAX_INPUT_SIZE
    }

    /// A reader that has taken in nothing.
    pub fn new() -> (reader: Self)
        ensures
            reader@ == Seq::<u8>::empty(),
    {
        InputReader { buffer: Vec::new() }
    }

    /// Takes in the next piece of input.
    ///
    /// A piece that would bring the input over the limit is refused, and the
    /// reader stays as it is.
    pub fn read(&mut self, chunk: &[u8]) -> (taken: Result<(), InputError>)
        ensures
            old(self)@.len() <= MAX_INPUT_SIZE,
            old(self)@.len() + chunk@.len() <= MAX_INPUT_SIZE ==> taken is Ok && final(self)@
                == old(self)@ + chunk@,
            old(self)@.len() + chunk@.len() > MAX_INPUT_SIZE ==> {
                &&& final(self)@ == old(self)@
                &&& taken matches Err(InputError::TooLarge { size })
                &&& (size == old(self)@.len() + chunk@.len() || (size == usize::MAX && old(
                    self,
                )@.len() + chunk@.len() > usize::MAX))
            },
    {
        proof {
            use_type_invariant(&*self);
        }
        let held = self.buffer.len();
        if chunk.len() > MAX_INPUT_SIZE - held {
            let size = if chunk.len() <= usize::MAX - held {
                held + chunk.len()
            } else {
                usize::MAX
            };
            return Err(InputError::TooLarge { size });
        }
        let mut taken = InputReader::new();
        core::mem::swap(self, &mut taken);
        let InputReader { buffer: mut bytes } = taken;
        let ghost before = bytes@;
        let mut i: usize = 0;
        while i < chunk.len()
            invariant
                i <= chunk@.len(),
                before.len() + chunk@.len() <= MAX_INPUT_SIZE,
                bytes@ == before + chunk@.take(i as int),
            decreases chunk@.len() - i,
        {
            bytes.push(chunk[i]);
            assert(chunk@.take(i + 1) =~= chunk@.take(i as int).push(chunk@[i as int]));
            assert(bytes@ =~= before + chunk@.take(i + 1));
            i += 1;
        }
        assert(chunk@.take(i as int) =~= chunk@);
        *self = InputReader { buffer: bytes };
        Ok(())
    }

    /// The number of bytes taken in.
    pub fn len(&self) -> (n: usize)
        ensures
            n == self@.len(),
            n <= MAX_INPUT_SIZE,
    {
        proof {
            use_type_invariant(self);
        }
        self.buffer.len()
    }

    /// Ends the input and returns it as text.
    pub fn finish(self) -> (text: Result<String, InputError>)
        ensures
            match text {
                Ok(s) => valid_utf8(self@) && s@ == decode_utf8(self@),
                Err(e) => !valid_utf8(self@) && e == InputError::NotUtf8,
            },
    {
        let InputReader { buffer } = self;
        match text_from_utf8(buffer) {
            Some(s) => Ok(s),
            None => Err(InputError::NotUtf8),
        }
    }
}

} // verus!
