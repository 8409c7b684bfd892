//! The handshake on the wire: fixed-width little-endian integers, a request of a
//! 32-byte block hash followed by an 8-byte block number, and a response that is
//! a bare 4-byte discriminant.

use vstd::prelude::*;
use bytes::Bytes;
use crate::buffer::{contents, from_vec};
use crate::le::{le_bytes, lemma_le_bytes_len, put_u64_le};
use crate::message::{SyncRequest, SyncResponse};

verus! {

/// Length of an encoded [`SyncRequest`].
pub const REQUEST_LEN: usize = 40;

/// Length of an encoded [`SyncResponse`].
pub const RESPONSE_LEN: usize = 4;

/// The encoding of a request: the block hash, then the block number.
pub open spec fn request_bytes(request: SyncRequest) -> Seq<u8> {
    request.block_hash@ + le_bytes(request.block_number as nat, 8)
}

/// The response that `bytes` encode, if any: discriminant 0 is `Found`, 1 is
/// `TryAgain`, and nothing follows the discriminant.
pub open spec fn response_of(bytes: Seq<u8>) -> Option<SyncResponse> {
    if bytes == seq![0u8, 0u8, 0u8, 0u8] {
        Some(SyncResponse::Found)
    } else if bytes == seq![1u8, 0u8, 0u8, 0u8] {
        Some(SyncResponse::TryAgain)
    } else {
        None
    }
}

impl SyncRequest {
    /// Encodes the request for the wire.
    pub fn to_bytes(&self) -> (bytes: Vec<u8>)
        ensures
            bytes@ == request_bytes(*self),
            bytes@.len() == REQUEST_LEN,
    {
        let mut bytes: Vec<u8> = Vec::new();
        let mut i: usize = 0;
        while i < 32
            invariant
                i <= 32,
                bytes@ == self.block_hash@.take(i as int),
            decreases 32 - i,
        {
            bytes.push(self.block_hash[i]);
            i = i + 1;
        }
        put_u64_le(&mut bytes, self.block_number);
        proof {
            lemma_le_bytes_len(self.block_number as nat, 8);
        }
        bytes
    }

    /// Encodes the request into a buffer, ready to be sent.
    pub fn as_bytes(&self) -> (buffer: Bytes)
        ensures
            contents(buffer) == request_bytes(*self),
    {
        from_vec(self.to_bytes())
    }
}

impl SyncResponse {
    /// Decodes a response. `None` where `bytes` are not exactly one known discriminant.
    pub fn from_bytes(bytes: &[u8]) -> (response: Option<SyncResponse>)
        ensures
            response == response_of(bytes@),
    {
        if bytes.len() != RESPONSE_LEN {
            return None;
        }
        if bytes[1] != 0 || bytes[2] != 0 || bytes[3] != 0 {
            return None;
        }
        if bytes[0] == 0 {
            assert(bytes@ =~= seq![0u8, 0u8, 0u8, 0u8]);
            Some(SyncResponse::Found)
        } else if bytes[0] == 1 {
            assert(bytes@ =~= seq![1u8, 0u8, 0u8, 0u8]);
            Some(SyncResponse::TryAgain)
        } else {
            None
        }
    }
}

} // verus!
