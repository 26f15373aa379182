//! Account addresses: 32 bytes, written in bech32 on the command line.
use vstd::prelude::*;

verus! {

/// An account address.
#[derive(Clone, Copy, Debug)]
pub struct Address {
    pub bytes: [u8; 32],
}

impl View for Address {
    type V = Seq<u8>;

    open spec fn view(&self) -> Seq<u8> {
        self.bytes@
    }
}

impl Address {
    pub fn new(bytes: [u8; 32]) -> (r: Address)
        ensures
            r.bytes == bytes,
    {
        Address { bytes }
    }

    /// Whether two addresses are the same account.
    pub fn same_as(&self, other: &Address) -> (r: bool)
        ensures
            r == (self@ == other@),
    {
        let mut i: usize = 0;
        while i < 32
            invariant
                self@.len() == 32,
                other@.len() == 32,
                i <= 32,
                forall|j: int| 0 <= j < i ==> self@[j] == other@[j],
            decreases 32 - i,
        {
            if self.bytes[i] != other.bytes[i] {
                return false;
            }
            i = i + 1;
        }
        assert(self@ =~= other@);
        true
    }
}

pub open spec fn addresses(v: Seq<Address>) -> Seq<Seq<u8>> {
    v.map_values(|a: Address| a@)
}

/// The payload that `bech32::decode` finds in a string, if the string is
/// valid bech32 or bech32m.
pub uninterp spec fn bech32_payload(s: Seq<char>) -> Option<Seq<u8>>;

/// Relies on `bech32::decode`: it checks the checksum and returns the
/// payload bytes (the human-readable part is dropped), depending on the
/// string alone.
#[verifier::external_body]
fn bech32_decode(s: &str) -> (r: Option<Vec<u8>>)
    ensures
        match r {
            Some(v) => bech32_payload(s@) == Some(v@),
            None => bech32_payload(s@) is None,
        },
{
    bech32::decode(s).ok().map(|(_, data)| data)
}

/// The address whose 32 bytes are `data`; none for another length.
pub fn address_from_bytes(data: &Vec<u8>) -> (r: Option<Address>)
    ensures
        data@.len() == 32 ==> r is Some && r->0@ == data@,
        data@.len() != 32 ==> r is None,
{
    if data.len() != 32 {
        return None;
    }
    let mut bytes: [u8; 32] = [0u8; 32];
    let mut i: usize = 0;
    while i < 32
        invariant
            data@.len() == 32,
            i <= 32,
            forall|j: int| 0 <= j < i ==> bytes@[j] == data@[j],
        decreases 32 - i,
    {
        bytes.set(i, data[i]);
        i = i + 1;
    }
    assert(bytes@ =~= data@);
    Some(Address { bytes })
}

/// The address written as `s` in bech32; none if `s` is not valid bech32
/// or does not carry exactly 32 bytes.
pub fn address_from_bech32(s: &str) -> (r: Option<Address>)
    ensures
        match bech32_payload(s@) {
            Some(data) => if data.len() == 32 {
                r is Some && r->0@ == data
            } else {
                r is None
            },
            None => r is None,
        },
{
    match bech32_decode(s) {
        Some(data) => address_from_bytes(&data),
        None => None,
    }
}

} // verus!
