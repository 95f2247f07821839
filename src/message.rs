use vstd::prelude::*;

verus! {

/// The largest payload an I2NP message can carry: its size field has 16 bits.
pub const MAX_PAYLOAD: usize = 65535;

/// An I2NP message. This layer reads only its size.
#[derive(Clone, Debug, PartialEq, Eq)]
pub struct Message {
    pub id: u32,
    pub expiration: u64,
    pub payload: Vec<u8>,
}

impl Message {
    pub open spec fn wf(self) -> bool {
        self.payload@.len() <= MAX_PAYLOAD
    }

    /// Bytes on the wire with the standard 16-byte header.
    pub open spec fn spec_size(self) -> nat {
        16 + self.payload@.len()
    }

    /// Bytes on the wire with the 9-byte short header used by NTCP2.
    pub open spec fn spec_ntcp2_size(self) -> nat {
        9 + self.payload@.len()
    }

    /// A message, or `None` where the payload is too long for the size field.
    pub fn new(id: u32, expiration: u64, payload: Vec<u8>) -> (r: Option<Message>)
        ensures
            r is Some <==> payload@.len() <= MAX_PAYLOAD,
            r matches Some(m) ==> m.id == id && m.expiration == expiration
                && m.payload == payload && m.wf(),
    {
        if payload.len() <= MAX_PAYLOAD {
            Some(Message { id, expiration, payload })
        } else {
            None
        }
    }

    pub fn size(&self) -> (r: usize)
        requires
            self.wf(),
        ensures
            r == self.spec_size(),
    {
        16 + self.payload.len()
    }

    pub fn ntcp2_size(&self) -> (r: usize)
        requires
            self.wf(),
        ensures
            r == self.spec_ntcp2_size(),
    {
        9 + self.payload.len()
    }
}

} // verus!
