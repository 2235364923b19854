//! The payload's side of the hand-over: what its save routine writes while
//! it walks the editor's log store.
//!
//! The routine reads the four environment strings, asks the log store how
//! many records it holds, fetches them one index at a time, and publishes
//! the finished region; [`LogCollector`] holds the bytes and says which
//! index to fetch next.
use crate::transfer::{
    body_bytes, entries_bytes, lemma_entries_bytes_push, string_bytes,
    transfer_bytes, TransferDataBuilder, TransferModel, FORMAT_VERSION, MAX_FIELD_COUNT,
};
use crate::wire::{i32_bytes, u64_bytes, u64_of, ByteOrder};
use vstd::prelude::*;

verus! {

/// The body up to and including the entry count.
pub open spec fn head_bytes(m: TransferModel, count: i32, order: ByteOrder) -> Seq<u8> {
    i32_bytes(FORMAT_VERSION, order) + string_bytes(m.unity_version, order) + string_bytes(
        m.os_description,
        order,
    ) + string_bytes(m.build_target, order) + string_bytes(m.current_directory, order)
        + i32_bytes(count, order)
}

/// A report under construction inside the target.
pub struct LogCollector {
    builder: TransferDataBuilder,
    count: i32,
    fetched: i32,
    model: Ghost<TransferModel>,
}

impl LogCollector {
    /// What has been collected so far.
    pub closed spec fn collected(&self) -> TransferModel {
        self.model@
    }

    /// The number of records that the log store reported.
    pub closed spec fn expected(&self) -> int {
        self.count as int
    }

    pub closed spec fn byte_order(&self) -> ByteOrder {
        self.builder.byte_order()
    }

    pub closed spec fn well_formed(&self) -> bool {
        &&& 0 <= self.fetched <= self.count
        &&& self.model@.entries.len() == self.fetched
        &&& self.model@.well_formed()
        &&& self.builder.written() == head_bytes(self.model@, self.count, self.builder.byte_order())
            + entries_bytes(self.model@.entries, self.builder.byte_order())
    }

    /// Starts a report with the environment strings and the number of
    /// records that the log store holds; a negative count reads as none.
    pub fn begin(
        order: ByteOrder,
        unity_version: &[u16],
        os_description: &[u16],
        build_target: &[u16],
        current_directory: &[u16],
        count: i32,
    ) -> (r: Self)
        requires
            unity_version@.len() <= MAX_FIELD_COUNT,
            os_description@.len() <= MAX_FIELD_COUNT,
            build_target@.len() <= MAX_FIELD_COUNT,
            current_directory@.len() <= MAX_FIELD_COUNT,
        ensures
            r.well_formed(),
            r.byte_order() == order,
            r.expected() == if count < 0 { 0 } else { count as int },
            r.collected() == (TransferModel {
                unity_version: unity_version@,
                os_description: os_description@,
                build_target: build_target@,
                current_directory: current_directory@,
                entries: Seq::empty(),
            }),
    {
        let count = if count < 0 { 0 } else { count };
        let mut builder = TransferDataBuilder::with_byte_order(order);
        builder.write_i32(FORMAT_VERSION);
        builder.write_string(unity_version);
        builder.write_string(os_description);
        builder.write_string(build_target);
        builder.write_string(current_directory);
        builder.write_i32(count);
        let ghost model = TransferModel {
            unity_version: unity_version@,
            os_description: os_description@,
            build_target: build_target@,
            current_directory: current_directory@,
            entries: Seq::empty(),
        };
        assert(builder.written() =~= head_bytes(model, count, order) + entries_bytes(
            model.entries,
            order,
        ));
        LogCollector { builder, count, fetched: 0, model: Ghost(model) }
    }

    /// The index of the next record to fetch, or `None` once all are in.
    pub fn next_index(&self) -> (r: Option<i32>)
        requires
            self.well_formed(),
        ensures
            r == if self.collected().entries.len() < self.expected() {
                Some(self.collected().entries.len() as i32)
            } else {
                None::<i32>
            },
    {
        if self.fetched < self.count {
            Some(self.fetched)
        } else {
            None
        }
    }

    /// Adds the record fetched at the next index.
    pub fn add_entry(&mut self, message: &[u16], mode: i32)
        requires
            old(self).well_formed(),
            old(self).collected().entries.len() < old(self).expected(),
            message@.len() <= MAX_FIELD_COUNT,
        ensures
            final(self).well_formed(),
            final(self).byte_order() == old(self).byte_order(),
            final(self).expected() == old(self).expected(),
            final(self).collected() == (TransferModel {
                entries: old(self).collected().entries.push((message@, mode)),
                ..old(self).collected()
            }),
    {
        let ghost order = self.builder.byte_order();
        let ghost before = self.model@;
        self.builder.write_string(message);
        self.builder.write_i32(mode);
        self.fetched = self.fetched + 1;
        let ghost after = TransferModel { entries: before.entries.push((message@, mode)), ..before };
        proof {
            lemma_entries_bytes_push(before.entries, (message@, mode), order);
            assert(self.builder.written() =~= head_bytes(after, self.count, order) + entries_bytes(
                after.entries,
                order,
            ));
            assert forall|i: int| 0 <= i < after.entries.len() implies #[trigger] after.entries[i].0.len()
                <= MAX_FIELD_COUNT by {
                if i < before.entries.len() {
                    assert(after.entries[i] == before.entries[i]);
                }
            }
        }
        self.model = Ghost(after);
    }

    /// The finished region, once every record is in: the bytes reserved,
    /// then the buffer that the host reads.
    pub fn finish(self) -> (r: Vec<u8>)
        requires
            self.well_formed(),
            self.collected().entries.len() == self.expected(),
            body_bytes(self.collected(), self.byte_order()).len() + 16 <= u64::MAX,
        ensures
            r@ == u64_bytes(
                (body_bytes(self.collected(), self.byte_order()).len() + 16) as u64,
                self.byte_order(),
            ) + transfer_bytes(self.collected(), self.byte_order()),
            u64_of(r@, self.byte_order()) == r@.len(),
    {
        let ghost order = self.builder.byte_order();
        assert(self.builder.written() =~= body_bytes(self.model@, order));
        self.builder.build()
    }
}

} // verus!
