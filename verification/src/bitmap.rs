use crate::codec::{insufficient, outcome, Codec};
use crate::error::{Error, ErrorKind, ErrorView};
use vstd::prelude::*;

verus! {

const LENGTH: usize = 8;

/// Whether a primary bitmap that starts with `flags` announces a secondary one:
/// the most significant bit of its first byte is set.
pub open spec fn has_secondary(flags: u8) -> bool {
    flags & 0x80 != 0
}

/// The flag is the top bit: it is set in the bytes from `0x80` up.
pub proof fn lemma_has_secondary_from_0x80(flags: u8)
    by (bit_vector)
    ensures
        has_secondary(flags) <==> flags >= 0x80,
{
}

/// The primary bitmap of a message and, where the primary announces it, the
/// secondary. Both borrow from the buffer they were decoded from.
pub struct Bitmap<'a> {
    first: &'a [u8; LENGTH],
    second: Option<&'a [u8; LENGTH]>,
}

/// The mathematical content of a [`Bitmap`].
pub struct BitmapView {
    pub first: Seq<u8>,
    pub second: Option<Seq<u8>>,
}

impl BitmapView {
    /// Both parts are eight bytes wide, and the secondary is there exactly
    /// when the primary announces it.
    pub open spec fn wf(self) -> bool {
        &&& self.first.len() == 8
        &&& self.second matches Some(second) ==> second.len() == 8
        &&& self.second is Some <==> has_secondary(self.first[0])
    }

    /// The bytes on the wire: the primary, then the secondary if there is one.
    pub open spec fn wire(self) -> Seq<u8> {
        match self.second {
            Some(second) => self.first + second,
            None => self.first,
        }
    }
}

impl View for Bitmap<'_> {
    type V = BitmapView;

    closed spec fn view(&self) -> BitmapView {
        BitmapView {
            first: self.first@,
            second: match self.second {
                Some(second) => Some(second@),
                None => None,
            },
        }
    }
}

impl<'a> Bitmap<'a> {
    /// The secondary is there exactly when the primary announces it.
    #[verifier::type_invariant]
    spec fn inv(&self) -> bool {
        self.second is Some <==> has_secondary(self.first@[0])
    }

    /// What a decode finds at the front of `buf`: the primary bitmap in the
    /// first eight bytes and, where it announces one, the secondary in the
    /// next eight, with the bytes after them; or the error of the part that
    /// does not fit.
    pub open spec fn spec_decode(buf: Seq<u8>) -> Result<(BitmapView, Seq<u8>), ErrorView> {
        if buf.len() < 8 {
            Err(insufficient(8, buf, "PrimaryBitmap"))
        } else if !has_secondary(buf[0]) {
            Ok((BitmapView { first: buf.take(8), second: None }, buf.skip(8)))
        } else if buf.len() < 16 {
            Err(insufficient(8, buf.skip(8), "SecondaryBitmap"))
        } else {
            Ok((BitmapView { first: buf.take(8), second: Some(buf.subrange(8, 16)) }, buf.skip(16)))
        }
    }

    /// The primary bitmap.
    pub fn first(&self) -> (first: &[u8; LENGTH])
        ensures
            first@ == self@.first,
            self@.wf(),
    {
        proof {
            use_type_invariant(self);
        }
        self.first
    }

    /// The secondary bitmap, if the primary announces one.
    pub fn second(&self) -> (second: Option<&[u8; LENGTH]>)
        ensures
            match second {
                Some(second) => self@.second == Some(second@),
                None => self@.second is None,
            },
            self@.wf(),
    {
        proof {
            use_type_invariant(self);
        }
        self.second
    }
}

impl<'a> Codec<'a> for Bitmap<'a> {
    open spec fn wire(&self) -> Seq<u8> {
        self@.wire()
    }

    /// Reads the primary bitmap and, if its first bit is set, the secondary.
    fn decode(src: &mut &'a [u8]) -> (res: Result<Self, Error>)
        ensures
            outcome(res, final(src)@) == Self::spec_decode(old(src)@),
            res matches Ok(bitmap) ==> bitmap@.wf(),
    {
        let buf: &'a [u8] = *src;
        match buf.split_first_chunk::<LENGTH>() {
            None => Err(
                Error::new(
                    ErrorKind::InsufficientLength { need: LENGTH, got: buf.len() },
                    "PrimaryBitmap",
                ),
            ),
            Some((first, tail)) => {
                if first[0] & 0x80 != 0 {
                    match tail.split_first_chunk::<LENGTH>() {
                        None => Err(
                            Error::new(
                                ErrorKind::InsufficientLength { need: LENGTH, got: tail.len() },
                                "SecondaryBitmap",
                            ),
                        ),
                        Some((second, rest)) => {
                            proof {
                                assert(second@ =~= buf@.subrange(8, 16));
                                assert(rest@ =~= buf@.skip(16));
                            }
                            *src = rest;
                            Ok(Self { first, second: Some(second) })
                        },
                    }
                } else {
                    *src = tail;
                    Ok(Self { first, second: None })
                }
            },
        }
    }
}

/// Of fewer than eight bytes none is consumed: the decode fails, asking for
/// the eight of the primary bitmap and telling how many there were.
pub proof fn lemma_primary_needs_eight(buf: Seq<u8>)
    requires
        buf.len() < 8,
    ensures
        Bitmap::spec_decode(buf) matches Err(err) && err.kind == (ErrorKind::InsufficientLength {
            need: 8,
            got: buf.len() as usize,
        }),
{
}

/// Where the top bit of the first of eight bytes or more is clear, the decode
/// succeeds with those eight as the primary bitmap and no secondary, and
/// consumes eight bytes.
pub proof fn lemma_flag_clear_primary_alone(buf: Seq<u8>)
    requires
        buf.len() >= 8,
        buf[0] & 0x80 == 0,
    ensures
        Bitmap::spec_decode(buf) matches Ok((bitmap, rest)) && bitmap.first == buf.subrange(0, 8)
            && bitmap.second is None && rest == buf.subrange(8, buf.len() as int),
{
}

/// Where the top bit of the first byte is set and sixteen bytes or more are
/// there, the decode succeeds with the first eight as the primary bitmap and
/// the next eight as the secondary, and consumes sixteen bytes.
pub proof fn lemma_flag_set_both(buf: Seq<u8>)
    requires
        buf.len() >= 16,
        buf[0] & 0x80 != 0,
    ensures
        Bitmap::spec_decode(buf) matches Ok((bitmap, rest)) && bitmap.first == buf.subrange(0, 8)
            && bitmap.second == Some(buf.subrange(8, 16)) && rest == buf.subrange(
            16,
            buf.len() as int,
        ),
{
}

/// Where the top bit of the first byte is set and the primary bitmap is
/// followed by fewer than eight bytes, the decode fails, asking for the eight
/// of the secondary and telling how many follow the primary.
pub proof fn lemma_flag_set_secondary_cut(buf: Seq<u8>)
    requires
        8 <= buf.len() < 16,
        buf[0] & 0x80 != 0,
    ensures
        Bitmap::spec_decode(buf) matches Err(err) && err.kind == (ErrorKind::InsufficientLength {
            need: 8,
            got: (buf.len() - 8) as usize,
        }),
{
}

} // verus!
