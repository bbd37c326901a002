//! Decoding of the header of an ISO 8583 message: the message type indicator
//! and the bitmaps that say which data elements follow.
//!
//! Every decoder reads from a cursor, the slice of bytes not yet consumed,
//! and hands out views into the caller's buffer.

pub mod bitmap;
pub mod codec;
pub mod error;
pub mod mti;

pub use crate::bitmap::{Bitmap, BitmapView};
pub use crate::codec::Codec;
pub use crate::error::{Error, ErrorKind, ErrorView};
pub use crate::mti::Mti;

use crate::bitmap::has_secondary;
use crate::codec::{insufficient, outcome};
use vstd::prelude::*;

verus! {

/// The header of a message: its type indicator, then its bitmaps.
pub struct ISO8583<'a> {
    pub mti: Mti<'a>,
    pub bitmap: Bitmap<'a>,
}

/// The mathematical content of an [`ISO8583`].
pub struct ISO8583View {
    pub mti: Seq<u8>,
    pub bitmap: BitmapView,
}

impl ISO8583View {
    /// The indicator is two bytes wide and the bitmaps are well formed.
    pub open spec fn wf(self) -> bool {
        &&& self.mti.len() == 2
        &&& self.bitmap.wf()
    }
}

impl View for ISO8583<'_> {
    type V = ISO8583View;

    open spec fn view(&self) -> ISO8583View {
        ISO8583View { mti: self.mti@, bitmap: self.bitmap@ }
    }
}

impl<'a> ISO8583<'a> {
    /// What a decode finds at the front of `buf`, by the layout of the wire:
    /// the indicator in bytes 0 and 1, the primary bitmap in bytes 2 to 9, and
    /// the secondary in bytes 10 to 17 where bit 0 of byte 2 is set.
    pub open spec fn spec_decode(buf: Seq<u8>) -> Result<(ISO8583View, Seq<u8>), ErrorView> {
        if buf.len() < 2 {
            Err(insufficient(2, buf, "MTI"))
        } else if buf.len() < 10 {
            Err(insufficient(8, buf.skip(2), "PrimaryBitmap"))
        } else if !has_secondary(buf[2]) {
            Ok(
                (
                    ISO8583View {
                        mti: buf.subrange(0, 2),
                        bitmap: BitmapView { first: buf.subrange(2, 10), second: None },
                    },
                    buf.skip(10),
                ),
            )
        } else if buf.len() < 18 {
            Err(insufficient(8, buf.skip(10), "SecondaryBitmap"))
        } else {
            Ok(
                (
                    ISO8583View {
                        mti: buf.subrange(0, 2),
                        bitmap: BitmapView {
                            first: buf.subrange(2, 10),
                            second: Some(buf.subrange(10, 18)),
                        },
                    },
                    buf.skip(18),
                ),
            )
        }
    }
}

impl<'a> Codec<'a> for ISO8583<'a> {
    open spec fn wire(&self) -> Seq<u8> {
        self.mti.wire() + self.bitmap.wire()
    }

    /// Reads the indicator, then the bitmaps. The first of the two to fail
    /// fails the whole decode with its own error.
    fn decode(src: &mut &'a [u8]) -> (res: Result<Self, Error>)
        ensures
            outcome(res, final(src)@) == Self::spec_decode(old(src)@),
            res matches Ok(message) ==> message@.wf(),
    {
        let start: &'a [u8] = *src;
        proof {
            lemma_decode_is_mti_then_bitmap(start@);
        }
        let mti = Mti::decode(src)?;
        match Bitmap::decode(src) {
            Ok(bitmap) => Ok(Self { mti, bitmap }),
            Err(err) => {
                *src = start;
                Err(err)
            },
        }
    }
}

/// What decoding the indicator and then, from where that decode stopped, the
/// bitmaps finds at the front of `buf`.
pub open spec fn spec_decode_in_turn(buf: Seq<u8>) -> Result<(ISO8583View, Seq<u8>), ErrorView> {
    match Mti::spec_decode(buf) {
        Err(err) => Err(err),
        Ok((mti, after_mti)) => match Bitmap::spec_decode(after_mti) {
            Err(err) => Err(err),
            Ok((bitmap, rest)) => Ok((ISO8583View { mti, bitmap }, rest)),
        },
    }
}

/// Decoding a message gives the indicator, the bitmaps and the final cursor
/// that decoding the indicator and then the bitmaps gives, and fails where
/// and as the first of the two to fail does.
pub proof fn lemma_decode_is_mti_then_bitmap(buf: Seq<u8>)
    ensures
        ISO8583::spec_decode(buf) == spec_decode_in_turn(buf),
{
    if buf.len() >= 2 {
        let after_mti = buf.skip(2);
        if after_mti.len() >= 8 {
            assert(after_mti.take(8) =~= buf.subrange(2, 10));
            assert(after_mti.skip(8) =~= buf.skip(10));
            if after_mti.len() >= 16 {
                assert(after_mti.subrange(8, 16) =~= buf.subrange(10, 18));
                assert(after_mti.skip(16) =~= buf.skip(18));
            }
        }
    }
}

} // verus!
