use crate::codec::{insufficient, outcome, Codec};
use crate::error::{Error, ErrorKind, ErrorView};
use vstd::prelude::*;

verus! {

const LENGTH: usize = 2;

/// The message type indicator: the two bytes that open a message, taken as
/// they are. It borrows from the buffer it was decoded from.
pub struct Mti<'a> {
    data: &'a [u8; LENGTH],
}

impl View for Mti<'_> {
    type V = Seq<u8>;

    closed spec fn view(&self) -> Seq<u8> {
        self.data@
    }
}

impl<'a> Mti<'a> {
    /// What a decode finds at the front of `buf`: the first two bytes and the
    /// bytes after them, or the error where fewer than two are left.
    pub open spec fn spec_decode(buf: Seq<u8>) -> Result<(Seq<u8>, Seq<u8>), ErrorView> {
        if buf.len() < 2 {
            Err(insufficient(2, buf, "MTI"))
        } else {
            Ok((buf.take(2), buf.skip(2)))
        }
    }

    /// The two bytes of the indicator.
    pub fn data(&self) -> (data: &[u8; LENGTH])
        ensures
            data@ == self@,
            self@.len() == 2,
    {
        self.data
    }
}

impl<'a> Codec<'a> for Mti<'a> {
    open spec fn wire(&self) -> Seq<u8> {
        self@
    }

    /// Reads the two bytes of the indicator.
    fn decode(src: &mut &'a [u8]) -> (res: Result<Self, Error>)
        ensures
            outcome(res, final(src)@) == Self::spec_decode(old(src)@),
            res matches Ok(mti) ==> mti@.len() == 2,
    {
        let buf: &'a [u8] = *src;
        match buf.split_first_chunk::<LENGTH>() {
            None => Err(
                Error::new(ErrorKind::InsufficientLength { need: LENGTH, got: buf.len() }, "MTI"),
            ),
            Some((data, tail)) => {
                *src = tail;
                Ok(Self { data })
            },
        }
    }
}

/// A buffer of fewer than two bytes holds no indicator: the decode fails,
/// asking for two bytes and telling how many there were.
pub proof fn lemma_short_buffer_fails(buf: Seq<u8>)
    requires
        buf.len() < 2,
    ensures
        Mti::spec_decode(buf) matches Err(err) && err.kind == (ErrorKind::InsufficientLength {
            need: 2,
            got: buf.len() as usize,
        }),
{
}

/// From a buffer of two bytes or more the decode succeeds: the indicator is
/// the first two bytes, and the cursor is left on the third.
pub proof fn lemma_two_bytes_suffice(buf: Seq<u8>)
    requires
        buf.len() >= 2,
    ensures
        Mti::spec_decode(buf) matches Ok((mti, rest)) && mti == buf.subrange(0, 2) && rest
            == buf.subrange(2, buf.len() as int),
{
}

} // verus!
