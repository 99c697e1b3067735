//! Registry of parsed capture files: each upload gets a fresh id and keeps
//! its summary rows for later per-frame queries.

use vstd::prelude::*;

use crate::types::PacketSummary;
use std::collections::HashMap;

verus! {

/// Identifier of one stored capture.
#[derive(Debug, Clone, Copy, PartialEq, Eq, Structural, Hash)]
pub struct FileId(pub u64);

impl FileId {
    /// Wraps a caller-chosen identifier value.
    pub fn new(id: u64) -> (r: FileId)
        ensures
            r.0 == id,
    {
        FileId(id)
    }
}

/// One stored capture: its cache key, the name it was uploaded under, its
/// summary rows, and when it was parsed, as milliseconds of the clock the
/// caller keeps.
#[derive(Debug)]
pub struct FileContext {
    pub uuid: String,
    pub original_name: String,
    pub packets: Vec<PacketSummary>,
    pub parsed_at: u64,
}

/// Same summary row, compared field by field.
pub open spec fn spec_summary_equiv(a: PacketSummary, b: PacketSummary) -> bool {
    a.id == b.id && a.ts@ == b.ts@ && a.src_ip@ == b.src_ip@ && a.dst_ip@ == b.dst_ip@
        && a.src_port == b.src_port && a.dst_port == b.dst_port && a.protocol@ == b.protocol@
        && a.length == b.length && a.description@ == b.description@
}

/// Same stored capture, compared field by field.
pub open spec fn spec_ctx_equiv(a: FileContext, b: FileContext) -> bool {
    a.uuid@ == b.uuid@ && a.original_name@ == b.original_name@ && a.parsed_at == b.parsed_at
        && a.packets@.len() == b.packets@.len() && forall|i: int|
        0 <= i < a.packets@.len() ==> spec_summary_equiv(#[trigger] a.packets@[i], b.packets@[i])
}

/// A copy of a summary row with the same content.
fn dup_summary(p: &PacketSummary) -> (r: PacketSummary)
    ensures
        spec_summary_equiv(r, *p),
{
    PacketSummary {
        id: p.id,
        ts: p.ts.clone(),
        src_ip: p.src_ip.clone(),
        dst_ip: p.dst_ip.clone(),
        src_port: p.src_port,
        dst_port: p.dst_port,
        protocol: p.protocol.clone(),
        length: p.length,
        description: p.description.clone(),
    }
}

/// A copy of a stored capture with the same content.
fn dup_ctx(c: &FileContext) -> (r: FileContext)
    ensures
        spec_ctx_equiv(r, *c),
{
    let mut packets: Vec<PacketSummary> = Vec::new();
    let mut i: usize = 0;
    while i < c.packets.len()
        invariant
            i <= c.packets@.len(),
            packets@.len() == i,
            forall|k: int|
                0 <= k < i ==> spec_summary_equiv(#[trigger] packets@[k], c.packets@[k]),
        decreases c.packets@.len() - i,
    {
        packets.push(dup_summary(&c.packets[i]));
        i += 1;
    }
    FileContext {
        uuid: c.uuid.clone(),
        original_name: c.original_name.clone(),
        packets,
        parsed_at: c.parsed_at,
    }
}

/// The stored captures, keyed by id, with the next id to hand out.
#[derive(Debug)]
pub struct PcapFiles {
    pub files: HashMap<u64, FileContext>,
    pub next_id: u64,
}

impl PcapFiles {
    /// An empty registry whose first capture gets id one.
    pub fn new() -> (r: PcapFiles)
        ensures
            r.files@ == Map::<u64, FileContext>::empty(),
            r.next_id == 1,
    {
        PcapFiles { files: HashMap::new(), next_id: 1 }
    }

    /// Stores one parsed capture under a fresh id and returns that id.
    pub fn insert_file(
        &mut self,
        uuid: String,
        original_name: String,
        packets: Vec<PacketSummary>,
        parsed_at: u64,
    ) -> (r: FileId)
        requires
            old(self).next_id < u64::MAX,
        ensures
            r.0 == old(self).next_id,
            final(self).next_id == old(self).next_id + 1,
            final(self).files@.contains_key(r.0),
            final(self).files@ == old(self).files@.insert(r.0, final(self).files@[r.0]),
            final(self).files@[r.0].uuid@ == uuid@,
            final(self).files@[r.0].original_name@ == original_name@,
            final(self).files@[r.0].packets == packets,
            final(self).files@[r.0].parsed_at == parsed_at,
    {
        let id = self.next_id;
        self.next_id = self.next_id + 1;
        let ctx = FileContext { uuid, original_name, packets, parsed_at };
        self.files.insert(id, ctx);
        FileId(id)
    }

    /// The stored capture under an id, copied out, or nothing if the id is
    /// unknown.
    pub fn get_file_name(&self, file_id: FileId) -> (r: Option<FileContext>)
        ensures
            r is Some <==> self.files@.contains_key(file_id.0),
            r matches Some(c) ==> spec_ctx_equiv(c, self.files@[file_id.0]),
    {
        match self.files.get(&file_id.0) {
            Some(c) => Some(dup_ctx(c)),
            Option::<&FileContext>::None => None,
        }
    }

    /// One summary row of one stored capture, copied out as a singleton
    /// list, or nothing if the id or the 0-based row index is unknown.
    pub fn get_packet(&self, file_id: FileId, packet_id: usize) -> (r: Option<Vec<PacketSummary>>)
        ensures
            r is Some <==> self.files@.contains_key(file_id.0) && packet_id
                < self.files@[file_id.0].packets@.len(),
            r matches Some(v) ==> v@.len() == 1 && spec_summary_equiv(
                v@[0],
                self.files@[file_id.0].packets@[packet_id as int],
            ),
    {
        match self.files.get(&file_id.0) {
            Some(c) => {
                if packet_id < c.packets.len() {
                    let mut v: Vec<PacketSummary> = Vec::new();
                    v.push(dup_summary(&c.packets[packet_id]));
                    Some(v)
                } else {
                    None
                }
            },
            Option::<&FileContext>::None => None,
        }
    }
}

} // verus!
