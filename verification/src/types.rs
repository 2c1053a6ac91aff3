//! The value objects that cross the host boundary.

use vstd::prelude::*;

verus! {

/// A commit produced by a membership change: the commit buffer and the welcome
/// buffers for the members it admits, in order. Both are the engine's own
/// encoding, passed through untouched.
#[derive(Debug)]
pub struct MLSCommit {
    pub commit: Vec<u8>,
    pub welcome: Vec<Vec<u8>>,
}

impl MLSCommit {
    /// The bytes of the commit message.
    pub open spec fn commit_bytes(&self) -> Seq<u8> {
        self.commit@
    }

    /// The bytes of each welcome message, in order.
    pub open spec fn welcome_bytes(&self) -> Seq<Seq<u8>> {
        buffers_view(self.welcome@)
    }

    /// A copy of the commit buffer.
    pub fn commit(&self) -> (out: Vec<u8>)
        ensures
            out@ == self.commit_bytes(),
    {
        copy_bytes(&self.commit)
    }

    /// A copy of every welcome buffer, in order.
    pub fn welcome(&self) -> (out: Vec<Vec<u8>>)
        ensures
            buffers_view(out@) == self.welcome_bytes(),
    {
        let mut out: Vec<Vec<u8>> = Vec::new();
        let mut i: usize = 0;
        while i < self.welcome.len()
            invariant
                0 <= i <= self.welcome.len(),
                out.len() == i,
                forall|j: int| 0 <= j < i ==> out[j]@ == self.welcome[j]@,
            decreases self.welcome.len() - i,
        {
            out.push(copy_bytes(&self.welcome[i]));
            i = i + 1;
        }
        assert(buffers_view(out@) =~= buffers_view(self.welcome@));
        out
    }
}

/// An encrypted application message and the epoch at which it was produced.
#[derive(Debug)]
pub struct MLSCiphertext {
    pub data: Vec<u8>,
    pub epoch: u64,
}

impl MLSCiphertext {
    /// The bytes of the encrypted message.
    pub open spec fn data_bytes(&self) -> Seq<u8> {
        self.data@
    }

    /// The epoch stamped on the message.
    pub open spec fn spec_epoch(&self) -> u64 {
        self.epoch
    }

    /// Pairs an encrypted buffer with the epoch it belongs to.
    pub fn new(data: Vec<u8>, epoch: u64) -> (out: Self)
        ensures
            out.data_bytes() == data@,
            out.spec_epoch() == epoch,
    {
        Self { data, epoch }
    }

    /// A copy of the encrypted buffer.
    pub fn data(&self) -> (out: Vec<u8>)
        ensures
            out@ == self.data_bytes(),
    {
        copy_bytes(&self.data)
    }

    /// The epoch stamped on the message.
    pub fn epoch(&self) -> (out: u64)
        ensures
            out == self.spec_epoch(),
    {
        self.epoch
    }
}

/// A summary of a group for display.
pub struct GroupInfo {
    pub id: String,
    pub epoch: u64,
    pub members: Vec<MemberInfo>,
}

/// A summary of one group member for display.
pub struct MemberInfo {
    pub id: String,
    pub credential: Vec<u8>,
    pub added_at_epoch: u64,
}

/// An encoded welcome message.
pub struct MLSWelcome {
    pub data: Vec<u8>,
}

/// An encoded key package.
pub struct MLSKeyPackage {
    pub data: Vec<u8>,
}

/// The contents of a list of byte buffers, buffer by buffer.
pub open spec fn buffers_view(list: Seq<Vec<u8>>) -> Seq<Seq<u8>> {
    Seq::new(list.len(), |i: int| list[i]@)
}

/// Copies a byte buffer.
pub fn copy_bytes(src: &Vec<u8>) -> (out: Vec<u8>)
    ensures
        out@ == src@,
{
    let out = src.clone();
    assert(out@ =~= src@);
    out
}

/// Assembles the host-facing commit from the encoded commit message and the
/// encoded welcome message, where the engine produced one.
pub fn commit_value(commit: Vec<u8>, welcome: Option<Vec<u8>>) -> (out: MLSCommit)
    ensures
        out.commit_bytes() == commit@,
        out.welcome_bytes() == match welcome {
            Some(w) => seq![w@],
            None => Seq::<Seq<u8>>::empty(),
        },
{
    let mut list: Vec<Vec<u8>> = Vec::new();
    if let Some(w) = welcome {
        list.push(w);
    }
    let out = MLSCommit { commit, welcome: list };
    assert(buffers_view(out.welcome@) =~= match welcome {
        Some(w) => seq![w@],
        None => Seq::<Seq<u8>>::empty(),
    });
    out
}

} // verus!
