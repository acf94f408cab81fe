//! The emulated NFC devices behind the `nfc:mf:u` and `nfc:user` services,
//! and the wire layout of the records they exchange with the game.
use vstd::prelude::*;

use crate::skylander::{
    block_offset, lemma_read_after_write, spec_block, spec_write_block, zero_block, Skylander,
    SKYLANDER_DUMP_SIZE,
};

pub mod emu;
pub mod nfc;
pub mod nfc_user;

verus! {

/// Handle of an emulated NFC device, as the game passes it.
pub type DeviceHandle = u64;

/// Size of the tag information block returned to the game.
pub const TAG_INFO_SIZE: usize = 88;

/// Size of one block record written back by a read request.
pub const READ_RECORD_SIZE: usize = 24;

/// State of an emulated NFC device (`nn::nfc::DeviceState`).
#[derive(Clone, Copy, Debug, PartialEq, Eq, Structural)]
pub enum DeviceState {
    Initialized,
    SearchingForTag,
    TagFound,
    TagRemoved,
    TagMounted,
    Unavailable,
}

/// The number by which the game knows a device state.
pub open spec fn spec_device_state_raw(s: DeviceState) -> u32 {
    match s {
        DeviceState::Initialized => 0,
        DeviceState::SearchingForTag => 1,
        DeviceState::TagFound => 2,
        DeviceState::TagRemoved => 3,
        DeviceState::TagMounted => 4,
        DeviceState::Unavailable => 5,
    }
}

impl DeviceState {
    /// The number by which the game knows this state.
    pub fn to_raw(self) -> (r: u32)
        ensures
            r == spec_device_state_raw(self),
    {
        match self {
            DeviceState::Initialized => 0,
            DeviceState::SearchingForTag => 1,
            DeviceState::TagFound => 2,
            DeviceState::TagRemoved => 3,
            DeviceState::TagMounted => 4,
            DeviceState::Unavailable => 5,
        }
    }
}

/// An event that the service signals to the game.
#[derive(Clone, Copy, Debug, PartialEq, Eq, Structural)]
pub enum NfcEvent {
    /// A tag came into range.
    Activate,
    /// The tag left.
    Deactivate,
    /// The NFC hardware became available.
    AvailabilityChange,
}

/// One emulated NFC device: its state and whether the game is waiting for a tag.
#[derive(Clone, Copy, Debug, PartialEq, Eq, Structural)]
pub struct NfcDevice {
    pub state: DeviceState,
    pub detection_active: bool,
}

impl NfcDevice {
    /// A device that has been created and is not looking for a tag.
    pub open spec fn spec_new() -> NfcDevice {
        NfcDevice { state: DeviceState::Initialized, detection_active: false }
    }

    pub fn new() -> (d: NfcDevice)
        ensures
            d == NfcDevice::spec_new(),
    {
        NfcDevice { state: DeviceState::Initialized, detection_active: false }
    }

    /// The states the emulation drives a device through: initialized, searching or
    /// tag found, and searching only while the game is waiting for a tag.
    pub open spec fn wf(self) -> bool {
        &&& (self.state == DeviceState::Initialized || self.state == DeviceState::SearchingForTag
            || self.state == DeviceState::TagFound)
        &&& self.state == DeviceState::SearchingForTag ==> self.detection_active
    }
}

/// The device after the figure was taken off: searching again if the game is waiting for a tag, idle otherwise.
pub open spec fn removed_device(d: NfcDevice) -> NfcDevice {
    NfcDevice {
        state: if d.detection_active {
            DeviceState::SearchingForTag
        } else {
            DeviceState::Initialized
        },
        ..d
    }
}

/// The device after detection started: a placed figure is found at once.
pub open spec fn detecting_device(figure_present: bool) -> NfcDevice {
    NfcDevice {
        state: if figure_present {
            DeviceState::TagFound
        } else {
            DeviceState::SearchingForTag
        },
        detection_active: true,
    }
}

/// The device after detection stopped.
pub open spec fn stopped_device() -> NfcDevice {
    NfcDevice { state: DeviceState::Initialized, detection_active: false }
}

/// The dump of a placed figure.
pub open spec fn figure_data(skylander: Option<Skylander>) -> Option<Seq<u8>> {
    match skylander {
        Some(s) => Some(s.data@),
        None => None,
    }
}

/// The 24-byte record that answers a read of block `block_index`: the block's 16 bytes
/// (zeros without a figure or past the dump), the block index, then seven zero bytes.
pub open spec fn block_record(data: Option<Seq<u8>>, block_index: u8) -> Seq<u8> {
    let block = match data {
        Some(d) => spec_block(d, block_index / 4, block_index % 4),
        None => zero_block(),
    };
    block + seq![block_index] + Seq::new(7, |i: int| 0u8)
}

/// `out` with its first `slots` 24-byte slots replaced by `record(0)`, `record(1)`, ...
pub open spec fn fill_slots(out: Seq<u8>, slots: int, record: spec_fn(int) -> Seq<u8>) -> Seq<u8> {
    Seq::new(
        out.len(),
        |p: int|
            if p / 24 < slots {
                record(p / 24)[p % 24]
            } else {
                out[p]
            },
    )
}

/// The 24-byte slot `i` of an output buffer.
pub open spec fn record_slot(buf: Seq<u8>, i: int) -> Seq<u8> {
    buf.subrange(i * 24, i * 24 + 24)
}

/// Every read record is 24 bytes long.
pub proof fn lemma_block_record_len(data: Option<Seq<u8>>, block_index: u8)
    requires
        data is Some ==> data->0.len() == SKYLANDER_DUMP_SIZE,
    ensures
        block_record(data, block_index).len() == 24,
{
}

/// Slot `i` of a buffer whose first `slots` slots were filled holds `record(i)`.
pub proof fn lemma_fill_slots_slot(out: Seq<u8>, slots: int, record: spec_fn(int) -> Seq<u8>, i: int)
    requires
        0 <= i < slots,
        i * 24 + 24 <= out.len(),
        record(i).len() == 24,
    ensures
        record_slot(fill_slots(out, slots, record), i) == record(i),
{
    let f = fill_slots(out, slots, record);
    assert forall|j: int| 0 <= j < 24 implies #[trigger] record_slot(f, i)[j] == record(i)[j] by {
        assert((i * 24 + j) / 24 == i);
        assert((i * 24 + j) % 24 == j);
    }
    assert(record_slot(f, i) =~= record(i));
}

/// Filling slots leaves the bytes past the filled slots as they were, and the length.
pub proof fn lemma_fill_slots_rest(out: Seq<u8>, slots: int, record: spec_fn(int) -> Seq<u8>)
    requires
        0 <= slots,
    ensures
        fill_slots(out, slots, record).len() == out.len(),
        forall|p: int| slots * 24 <= p < out.len() ==> #[trigger] fill_slots(out, slots, record)[p] == out[p],
{
    assert forall|p: int| slots * 24 <= p < out.len() implies #[trigger] fill_slots(out, slots, record)[p] == out[p] by {
        assert(p / 24 >= slots);
    }
}

/// The smaller of two integers.
pub open spec fn min(a: int, b: int) -> int {
    if a <= b {
        a
    } else {
        b
    }
}

/// The record for block `block_index`.
pub(crate) fn block_record_bytes(skylander: &Option<Skylander>, block_index: u8) -> (r: [u8; 24])
    ensures
        r@ == block_record(figure_data(*skylander), block_index),
{
    let block: [u8; 16] = match skylander {
        Some(s) => s.get_block(block_index / 4, block_index % 4),
        None => [0u8; 16],
    };
    let mut r: [u8; 24] = [0u8; 24];
    let mut i: usize = 0;
    while i < 16
        invariant
            0 <= i <= 16,
            forall|j: int| 0 <= j < i ==> #[trigger] r@[j] == block@[j],
            forall|j: int| i <= j < 24 ==> #[trigger] r@[j] == 0u8,
        decreases 16 - i,
    {
        r[i] = block[i];
        i = i + 1;
    }
    r[16] = block_index;
    proof {
        let d = figure_data(*skylander);
        if skylander is None {
            assert(block@ =~= zero_block());
        }
        assert(r@ =~= block_record(d, block_index));
    }
    r
}

/// Writes `record` into slot `slot` of `out`.
pub(crate) fn put_slot(out: &mut Vec<u8>, slot: usize, record: &[u8; 24])
    requires
        slot * 24 + 24 <= old(out)@.len(),
    ensures
        final(out)@.len() == old(out)@.len(),
        forall|p: int|
            0 <= p < old(out)@.len() ==> #[trigger] final(out)@[p] == if slot * 24 <= p < slot * 24 + 24 {
                record@[p - slot * 24]
            } else {
                old(out)@[p]
            },
{
    let len = out.len();
    assert(slot * 24 + 24 <= len);
    let base = slot * 24;
    let mut i: usize = 0;
    while i < 24
        invariant
            base == slot * 24,
            base + 24 <= len,
            len == old(out)@.len(),
            out@.len() == old(out)@.len(),
            0 <= i <= 24,
            forall|p: int|
                0 <= p < old(out)@.len() ==> #[trigger] out@[p] == if base <= p < base + i {
                    record@[p - base]
                } else {
                    old(out)@[p]
                },
        decreases 24 - i,
    {
        out[base + i] = record[i];
        i = i + 1;
    }
}

/// Filling one more slot extends [`fill_slots`] by that slot.
pub proof fn lemma_fill_next_slot(out: Seq<u8>, cur: Seq<u8>, i: int, record: spec_fn(int) -> Seq<u8>, next: Seq<u8>)
    requires
        0 <= i,
        i * 24 + 24 <= out.len(),
        record(i).len() == 24,
        cur == fill_slots(out, i, record),
        next.len() == out.len(),
        forall|p: int|
            0 <= p < out.len() ==> #[trigger] next[p] == if i * 24 <= p < i * 24 + 24 {
                record(i)[p - i * 24]
            } else {
                cur[p]
            },
    ensures
        next == fill_slots(out, i + 1, record),
{
    assert forall|p: int| 0 <= p < out.len() implies #[trigger] next[p] == fill_slots(out, i + 1, record)[p] by {
        if i * 24 <= p < i * 24 + 24 {
            assert(p / 24 == i);
            assert(p % 24 == p - i * 24);
        } else if p < i * 24 {
            assert(p / 24 < i);
        } else {
            assert(p / 24 > i);
        }
    }
    assert(next =~= fill_slots(out, i + 1, record));
}

/// Which of the three events of a service already exist.
#[derive(Clone, Copy, Debug, PartialEq, Eq, Structural)]
pub struct EventSlots {
    pub activate: bool,
    pub deactivate: bool,
    pub availability: bool,
}

/// What making sure that a service's events exist asks the caller to do, in this order:
/// create the missing activate, deactivate and availability events, then signal the
/// availability event if asked.
#[derive(Clone, Copy, Debug, PartialEq, Eq, Structural)]
pub struct EventSetup {
    pub create_activate: bool,
    pub create_deactivate: bool,
    pub create_availability: bool,
    pub signal_availability: bool,
}

/// A read record carries the block it names: the 16 bytes at `block_index * 16`
/// of the dump (zeros past its end), then the index, then zero padding.
pub proof fn lemma_record_carries_block(data: Seq<u8>, block_index: u8)
    requires
        data.len() == SKYLANDER_DUMP_SIZE,
    ensures
        block_record(Some(data), block_index).len() == READ_RECORD_SIZE,
        block_index < 64 ==> block_record(Some(data), block_index).subrange(0, 16)
            == data.subrange(block_index * 16, block_index * 16 + 16),
        block_index >= 64 ==> block_record(Some(data), block_index).subrange(0, 16) == zero_block(),
        block_record(Some(data), block_index)[16] == block_index,
        block_record(Some(data), block_index).subrange(17, 24) == Seq::new(7, |i: int| 0u8),
{
    let r = block_record(Some(data), block_index);
    assert(block_offset(block_index / 4, block_index % 4) == block_index * 16);
    assert(r.subrange(17, 24) =~= Seq::new(7, |i: int| 0u8));
    if block_index < 64 {
        assert(r.subrange(0, 16) =~= data.subrange(block_index * 16, block_index * 16 + 16));
    } else {
        assert(r.subrange(0, 16) =~= zero_block());
    }
}

/// A block written into the placed figure (see `nfc::UserEmulator::write_block`) is
/// what a later read of that block answers.
pub proof fn lemma_game_reads_written_block(data: Seq<u8>, block_index: u8, bytes: Seq<u8>)
    requires
        data.len() == SKYLANDER_DUMP_SIZE,
        bytes.len() == 16,
        block_index < 64,
    ensures
        block_record(Some(spec_write_block(data, block_index / 4, block_index % 4, bytes)), block_index).subrange(0, 16)
            == bytes,
{
    assert(block_offset(block_index / 4, block_index % 4) == block_index * 16);
    lemma_read_after_write(data, block_index / 4, block_index % 4, bytes);
    let w = spec_write_block(data, block_index / 4, block_index % 4, bytes);
    assert(block_record(Some(w), block_index).subrange(0, 16) =~= spec_block(w, block_index / 4, block_index % 4));
}

/// Every device transition of the emulation leads to a well-formed device.
pub proof fn lemma_device_transitions_wf(d: NfcDevice, figure_present: bool)
    requires
        d.wf(),
    ensures
        NfcDevice::spec_new().wf(),
        removed_device(d).wf(),
        detecting_device(figure_present).wf(),
        stopped_device().wf(),
        (NfcDevice { state: DeviceState::Initialized, ..d }).wf(),
        (NfcDevice { state: DeviceState::TagFound, ..d }).wf(),
{
}

/// Starting detection always marks the device as waiting for a tag; taking the figure
/// off afterwards leaves it searching.
pub proof fn lemma_start_detection_waits_for_tag(figure_present: bool)
    ensures
        detecting_device(figure_present).detection_active,
        detecting_device(figure_present).state == if figure_present {
            DeviceState::TagFound
        } else {
            DeviceState::SearchingForTag
        },
        removed_device(detecting_device(figure_present)).state == DeviceState::SearchingForTag,
        removed_device(detecting_device(figure_present)).detection_active,
{
}

/// Taking the figure off never changes whether the game waits for a tag, and the device
/// searches again exactly when it does.
pub proof fn lemma_removal_keeps_detection(d: NfcDevice)
    ensures
        removed_device(d).detection_active == d.detection_active,
        removed_device(d).state == if d.detection_active {
            DeviceState::SearchingForTag
        } else {
            DeviceState::Initialized
        },
{
}

} // verus!
