#![allow(non_camel_case_types)]

pub mod buffer;
pub mod error;
pub mod packet;
pub mod reader;
pub mod utils;

use vstd::prelude::*;

use bytes::BytesMut;

use crate::buffer::bytes_mut_contents;
use crate::error::F1Error;
use crate::packet::header::HEADER_SIZE;
use crate::packet::{decode, packet_of, result_view, Packet};

verus! {

/// Turns each received datagram into a packet.
///
/// Every datagram is one whole frame. A buffer shorter than a header is
/// reported as incomplete and left as it is. Otherwise all of it is taken,
/// whether or not it decodes, so that no part of one datagram is read as the
/// start of the next.
pub struct F1_2021_Decoder;

impl F1_2021_Decoder {
    /// Decodes the datagram that `src` holds.
    ///
    /// The result is that of `decode` on the bytes `src` held. With fewer
    /// bytes than a header, that is `IncompleteData` and `src` is unchanged;
    /// otherwise `src` is emptied.
    pub fn decode(&mut self, src: &mut BytesMut) -> (r: Result<Packet, F1Error>)
        ensures
            result_view(r) == packet_of(bytes_mut_contents(*old(src))),
            bytes_mut_contents(*old(src)).len() < HEADER_SIZE ==> {
                &&& r == Err::<Packet, F1Error>(F1Error::IncompleteData)
                &&& bytes_mut_contents(*final(src)) == bytes_mut_contents(*old(src))
            },
            bytes_mut_contents(*old(src)).len() >= HEADER_SIZE ==> bytes_mut_contents(*final(src))
                == Seq::<u8>::empty(),
    {
        let len = src.len();
        if len < HEADER_SIZE {
            return Err(F1Error::IncompleteData);
        }
        let frame = src.split_to(len);
        assert(bytes_mut_contents(frame) =~= bytes_mut_contents(*old(src)));
        assert(bytes_mut_contents(*src) =~= Seq::<u8>::empty());
        decode(frame.as_ref())
    }
}

} // verus!
