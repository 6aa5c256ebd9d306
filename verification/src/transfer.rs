//! Bulk transfers: the unit in which commands reach the display.

use vstd::prelude::*;

verus! {

/// Address of the bulk endpoint that the display listens on.
pub const ENDPOINT: u8 = 2;

/// Seconds that one transfer may take before it counts as failed.
pub const TIMEOUT_SECS: u64 = 5;

/// One bulk write that the caller is to perform on the opened device.
#[derive(Clone, Debug, PartialEq, Eq)]
pub struct Transfer {
    /// Endpoint address to write to.
    pub endpoint: u8,
    /// Timeout of the write, in seconds.
    pub timeout_secs: u64,
    /// The bytes to write, in order.
    pub data: Vec<u8>,
}

/// What a [`Transfer`] stands for in contracts.
pub struct TransferModel {
    pub endpoint: u8,
    pub timeout_secs: u64,
    pub data: Seq<u8>,
}

impl View for Transfer {
    type V = TransferModel;

    open spec fn view(&self) -> TransferModel {
        TransferModel { endpoint: self.endpoint, timeout_secs: self.timeout_secs, data: self.data@ }
    }
}

/// The transfer that carries `data` to the display: always to [`ENDPOINT`],
/// always with a timeout of [`TIMEOUT_SECS`].
pub open spec fn bulk(data: Seq<u8>) -> TransferModel {
    TransferModel { endpoint: ENDPOINT, timeout_secs: TIMEOUT_SECS, data }
}

/// The models of a run of transfers, in order.
pub open spec fn models(transfers: Seq<Transfer>) -> Seq<TransferModel> {
    transfers.map_values(|t: Transfer| t@)
}

/// The bytes that a run of transfers puts on the wire, in order.
pub open spec fn wire_bytes(transfers: Seq<TransferModel>) -> Seq<u8>
    decreases transfers.len(),
{
    if transfers.len() == 0 {
        Seq::empty()
    } else {
        wire_bytes(transfers.drop_last()) + transfers.last().data
    }
}

impl Transfer {
    /// Makes the bulk transfer that carries `data` to the display.
    pub fn new(data: Vec<u8>) -> (t: Transfer)
        ensures
            t@ == bulk(data@),
    {
        Transfer { endpoint: ENDPOINT, timeout_secs: TIMEOUT_SECS, data }
    }
}

/// Joins two runs of transfers into one, the first run first.
pub fn chain(first: Vec<Transfer>, rest: Vec<Transfer>) -> (out: Vec<Transfer>)
    ensures
        out@ == first@ + rest@,
        models(out@) == models(first@) + models(rest@),
{
    let mut out = first;
    let mut tail = rest;
    out.append(&mut tail);
    assert(models(out@) =~= models(first@) + models(rest@));
    out
}

/// A single transfer puts exactly its data on the wire.
pub proof fn wire_bytes_of_one(t: TransferModel)
    ensures
        wire_bytes(seq![t]) == t.data,
{
    let one = seq![t];
    assert(one.drop_last() =~= Seq::empty());
    assert(wire_bytes(one.drop_last()) =~= Seq::empty());
    assert(wire_bytes(one) =~= t.data);
}

/// Transfers reach the wire in order: the bytes of a joined run are the bytes
/// of its first part followed by the bytes of the rest.
pub proof fn wire_bytes_of_chain(first: Seq<TransferModel>, rest: Seq<TransferModel>)
    ensures
        wire_bytes(first + rest) == wire_bytes(first) + wire_bytes(rest),
    decreases rest.len(),
{
    if rest.len() == 0 {
        assert(first + rest =~= first);
        assert(wire_bytes(first) + wire_bytes(rest) =~= wire_bytes(first));
    } else {
        let all = first + rest;
        assert(all.drop_last() =~= first + rest.drop_last());
        wire_bytes_of_chain(first, rest.drop_last());
        assert(wire_bytes(all) =~= wire_bytes(first) + wire_bytes(rest));
    }
}

} // verus!
