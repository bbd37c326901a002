use crate::error::{Error, ErrorKind, ErrorView};
use vstd::prelude::*;

verus! {

/// A value that can be read off the front of a byte cursor.
///
/// The cursor is the slice of bytes not yet consumed. A successful decode
/// rebinds it to what follows the value; a failed decode leaves it where it was.
pub trait Codec<'a>: Sized {
    /// The bytes that this value occupies on the wire.
    spec fn wire(&self) -> Seq<u8>;

    /// Reads one value from the front of `src`.
    ///
    /// On success the bytes consumed are exactly the value's own, and the
    /// cursor holds what follows them. On failure nothing is consumed.
    fn decode(src: &mut &'a [u8]) -> (res: Result<Self, Error>)
        ensures
            match res {
                Ok(value) => old(src)@ == value.wire() + final(src)@,
                Err(_) => final(src)@ == old(src)@,
            },
    ;
}

/// A decode's result as the `spec_decode` of a field states it: the view of
/// the value with the cursor that the decode left, or the view of the error.
pub open spec fn outcome<C: View>(res: Result<C, Error>, cursor: Seq<u8>) -> Result<
    (C::V, Seq<u8>),
    ErrorView,
> {
    match res {
        Ok(value) => Ok((value@, cursor)),
        Err(err) => Err(err@),
    }
}

/// The error of a decoder named `location` that needs `need` bytes where
/// `left` is all that remains.
pub open spec fn insufficient(need: usize, left: Seq<u8>, location: &str) -> ErrorView {
    ErrorView {
        kind: ErrorKind::InsufficientLength { need, got: left.len() as usize },
        reason: Seq::empty(),
        location: location@,
    }
}

/// Assumed of `<[T]>::split_first_chunk` in std, as its documentation has it,
/// and not proved here: it returns the first `N` items as an array together
/// with the slice after them, or `None` for a slice of fewer than `N` items.
pub assume_specification<T, const N: usize>[ <[T]>::split_first_chunk::<N> ](slice: &[T]) -> (out:
    Option<(&[T; N], &[T])>)
    ensures
        match out {
            Some((head, tail)) => N <= slice@.len() && head@ == slice@.take(N as int) && tail@
                == slice@.skip(N as int),
            None => slice@.len() < N,
        },
;

} // verus!
