//! The engine's error taxonomy: a compression call fails either because the
//! source bytes cannot be decoded as an image, or because an encoder rejected
//! the work.  Malformed-input cases such as images with no pixels are folded
//! into the decode variant.

use vstd::prelude::*;

verus! {

/// A typed dispatch failure carrying the underlying cause as text.
#[derive(Debug, Clone)]
pub enum CompressionError {
    /// The source bytes cannot be parsed as an image.
    Decode(String),
    /// An encoder rejected valid pixel data.
    Encode(String),
}

impl CompressionError {
    pub open spec fn spec_message(&self) -> Seq<char> {
        match self {
            CompressionError::Decode(m) => m@,
            CompressionError::Encode(m) => m@,
        }
    }

    /// The underlying cause, as text.
    pub fn message(&self) -> (r: String)
        ensures
            r@ == self.spec_message(),
    {
        match self {
            CompressionError::Decode(m) => m.clone(),
            CompressionError::Encode(m) => m.clone(),
        }
    }

    pub fn is_decode(&self) -> (r: bool)
        ensures
            r == (self is Decode),
    {
        match self {
            CompressionError::Decode(_) => true,
            CompressionError::Encode(_) => false,
        }
    }

    pub fn is_encode(&self) -> (r: bool)
        ensures
            r == (self is Encode),
    {
        match self {
            CompressionError::Decode(_) => false,
            CompressionError::Encode(_) => true,
        }
    }
}

} // verus!
