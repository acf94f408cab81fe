//! The `nfc:mf:u` (Mifare user) service: the device it emulates and the requests it answers.
use vstd::prelude::*;

use super::{
    lemma_block_record_len, lemma_fill_slots_rest, lemma_fill_slots_slot, record_slot,
    block_record, block_record_bytes, detecting_device, figure_data, fill_slots, lemma_fill_next_slot,
    min, put_slot, removed_device, spec_device_state_raw, stopped_device, DeviceHandle, DeviceState,
    EventSetup, EventSlots, NfcDevice, NfcEvent, READ_RECORD_SIZE, TAG_INFO_SIZE,
};
use crate::emu::{self, EmuModel, EmuState};
use crate::skylander::{spec_write_block, Skylander, SKYLANDER_DUMP_SIZE};

verus! {

/// Size of one read parameter sent by the game; the block index is its first byte.
pub const READ_PARAM_SIZE: usize = 24;

/// The device after a figure was placed: the tag is found.
pub open spec fn selected_device(d: NfcDevice) -> NfcDevice {
    NfcDevice { state: DeviceState::TagFound, ..d }
}

/// The event a placed figure signals: none when the tag was already found.
pub open spec fn selected_event(d: NfcDevice) -> Option<NfcEvent> {
    if d.state == DeviceState::TagFound {
        None
    } else {
        Some(NfcEvent::Activate)
    }
}

/// Moves the device to "tag found" when a figure is placed; a device that already
/// found the tag is not notified again.
pub fn notify_skylander_selected(device: &mut NfcDevice) -> (ev: Option<NfcEvent>)
    ensures
        *final(device) == selected_device(*old(device)),
        ev == selected_event(*old(device)),
        final(device).state == DeviceState::TagFound,
        final(device).detection_active == old(device).detection_active,
        ev is None <==> old(device).state == DeviceState::TagFound,
        old(device).wf() ==> final(device).wf(),
{
    if device.state == DeviceState::TagFound {
        return None;
    }
    device.state = DeviceState::TagFound;
    Some(NfcEvent::Activate)
}

/// Moves the device back to searching (or idle) when the figure is taken off.
pub fn notify_skylander_removed(device: &mut NfcDevice) -> (ev: NfcEvent)
    ensures
        *final(device) == removed_device(*old(device)),
        ev == NfcEvent::Deactivate,
        final(device).detection_active == old(device).detection_active,
        final(device).state == if old(device).detection_active {
            DeviceState::SearchingForTag
        } else {
            DeviceState::Initialized
        },
        old(device).wf() ==> final(device).wf(),
{
    if device.detection_active {
        device.state = DeviceState::SearchingForTag;
    } else {
        device.state = DeviceState::Initialized;
    }
    NfcEvent::Deactivate
}

/// Makes sure the three events of the service exist: each missing one is created
/// (idempotent), and a newly created availability event is signalled at once, since
/// the emulated hardware is always available.
pub fn ensure_global_events(existing: EventSlots) -> (setup: EventSetup)
    ensures
        setup == (EventSetup {
            create_activate: !existing.activate,
            create_deactivate: !existing.deactivate,
            create_availability: !existing.availability,
            signal_availability: !existing.availability,
        }),
{
    EventSetup {
        create_activate: !existing.activate,
        create_deactivate: !existing.deactivate,
        create_availability: !existing.availability,
        signal_availability: !existing.availability,
    }
}

/// The tag information block: the UID and its length when a figure is placed,
/// the Mifare protocol and the Mifare Classic tag type.
pub open spec fn tag_info(data: Option<Seq<u8>>) -> Seq<u8> {
    Seq::new(
        88,
        |i: int|
            if data is Some && i < 4 {
                data->0[i]
            } else if data is Some && i == 10 {
                4u8
            } else if i == 0x20 {
                2u8
            } else if i == 0x24 {
                4u8
            } else {
                0u8
            },
    )
}

/// The output buffer after a read: one record per complete parameter, as far as the buffer holds whole records.
pub open spec fn read_output(data: Option<Seq<u8>>, in_params: Seq<u8>, out: Seq<u8>) -> Seq<u8> {
    fill_slots(
        out,
        min(in_params.len() as int / 24, out.len() as int / 24),
        |i: int| block_record(data, in_params[i * 24]),
    )
}

/// A read answers every complete 24-byte parameter whose slot fits in the output: slot `i`
/// holds the record of the block named by the parameter's first byte. The buffer keeps its
/// length, and no byte past the answered slots changes.
pub proof fn lemma_read_answers_every_parameter(data: Option<Seq<u8>>, in_params: Seq<u8>, out: Seq<u8>)
    requires
        data is Some ==> data->0.len() == SKYLANDER_DUMP_SIZE,
    ensures
        read_output(data, in_params, out).len() == out.len(),
        forall|i: int|
            0 <= i && (i + 1) * 24 <= in_params.len() && (i + 1) * 24 <= out.len()
                ==> #[trigger] record_slot(read_output(data, in_params, out), i)
                == block_record(data, in_params[i * 24]),
        forall|p: int|
            (in_params.len() / 24) * 24 <= p < out.len() ==> #[trigger] read_output(data, in_params, out)[p]
                == out[p],
        forall|p: int|
            (out.len() / 24) * 24 <= p < out.len() ==> #[trigger] read_output(data, in_params, out)[p]
                == out[p],
{
    let k = min(in_params.len() as int / 24, out.len() as int / 24);
    let record = |i: int| block_record(data, in_params[i * 24]);
    lemma_fill_slots_rest(out, k, record);
    assert forall|i: int|
        0 <= i && (i + 1) * 24 <= in_params.len() && (i + 1) * 24 <= out.len()
            implies #[trigger] record_slot(read_output(data, in_params, out), i)
            == block_record(data, in_params[i * 24]) by {
        assert(i < in_params.len() as int / 24 && i < out.len() as int / 24) by (nonlinear_arith)
            requires
                0 <= i,
                (i + 1) * 24 <= in_params.len(),
                (i + 1) * 24 <= out.len(),
        ;
        lemma_block_record_len(data, in_params[i * 24]);
        lemma_fill_slots_slot(out, k, record, i);
    }
    assert forall|p: int| (in_params.len() / 24) * 24 <= p < out.len() implies #[trigger] read_output(
        data,
        in_params,
        out,
    )[p] == out[p] by {
        assert(k * 24 <= (in_params.len() / 24) * 24) by (nonlinear_arith)
            requires
                k <= in_params.len() as int / 24,
        ;
    }
    assert forall|p: int| (out.len() / 24) * 24 <= p < out.len() implies #[trigger] read_output(data, in_params, out)[p]
        == out[p] by {
        assert(k * 24 <= (out.len() / 24) * 24) by (nonlinear_arith)
            requires
                k <= out.len() as int / 24,
        ;
    }
}

/// The number of devices listed into the buffer `out`, and what the buffer then holds.
pub open spec fn listed_devices(out: Seq<u8>) -> (u32, Seq<u8>) {
    if out.len() >= 8 {
        (1, Seq::new(8, |i: int| 0u8) + out.subrange(8, out.len() as int))
    } else {
        (0, out)
    }
}

/// Writes a zero device handle (player one) when the buffer holds one; returns how many were written.
pub(crate) fn list_one_device(out: &mut Vec<u8>) -> (count: u32)
    ensures
        (count, final(out)@) == listed_devices(old(out)@),
{
    if out.len() >= 8 {
        let mut i: usize = 0;
        while i < 8
            invariant
                old(out)@.len() >= 8,
                out@.len() == old(out)@.len(),
                0 <= i <= 8,
                forall|j: int| 0 <= j < i ==> #[trigger] out@[j] == 0u8,
                forall|j: int| i <= j < out@.len() ==> #[trigger] out@[j] == old(out)@[j],
            decreases 8 - i,
        {
            out[i] = 0;
            i = i + 1;
        }
        assert(out@ =~= Seq::new(8, |i: int| 0u8) + old(out)@.subrange(8, old(out)@.len() as int));
        1
    } else {
        0
    }
}

/// A session of the game with the `nfc:mf:u` service.
pub struct UserEmulator {
    pub program_id: u64,
}

impl UserEmulator {
    /// Registers the game as intercepted and resets the device; the hardware is reported available.
    pub fn initialize<A>(&self, emu: &mut EmuState<A>) -> (ev: NfcEvent)
        ensures
            emu::figure_consistent(old(emu)@) ==> emu::figure_consistent(final(emu)@),
            final(emu)@ == (EmuModel {
                intercepted_application_ids: old(emu)@.intercepted_application_ids.push(self.program_id),
                mifare: NfcDevice::spec_new(),
                ..old(emu)@
            }),
            ev == NfcEvent::AvailabilityChange,
    {
        emu::register_intercepted_application_id(emu, self.program_id);
        let d = emu.mifare_mut();
        d.state = DeviceState::Initialized;
        d.detection_active = false;
        NfcEvent::AvailabilityChange
    }

    /// Unregisters the game and resets the device.
    pub fn finalize<A>(&self, emu: &mut EmuState<A>)
        ensures
            emu::figure_consistent(old(emu)@) ==> emu::figure_consistent(final(emu)@),
            final(emu)@ == (EmuModel {
                intercepted_application_ids: emu::ids_without(old(emu)@.intercepted_application_ids, self.program_id),
                mifare: stopped_device(),
                ..old(emu)@
            }),
    {
        emu::unregister_intercepted_application_id(emu, self.program_id);
        let d = emu.mifare_mut();
        d.detection_active = false;
        d.state = DeviceState::Initialized;
    }

    /// Lists the one emulated device into `handles`; returns how many were listed.
    pub fn list_devices(&self, handles: &mut Vec<u8>) -> (count: u32)
        ensures
            (count, final(handles)@) == listed_devices(old(handles)@),
    {
        list_one_device(handles)
    }

    /// The game starts waiting for a tag; a placed figure is found at once.
    pub fn start_detection<A>(&self, emu: &mut EmuState<A>, _handle: DeviceHandle) -> (ev: Option<NfcEvent>)
        ensures
            emu::figure_consistent(old(emu)@) ==> emu::figure_consistent(final(emu)@),
            ({
                let present = old(emu)@.active_virtual_skylander is Some;
                &&& final(emu)@ == (EmuModel { mifare: detecting_device(present), ..old(emu)@ })
                &&& final(emu)@.mifare.detection_active
                &&& final(emu)@.mifare.state == if present {
                    DeviceState::TagFound
                } else {
                    DeviceState::SearchingForTag
                }
                &&& ev == if present { Some(NfcEvent::Activate) } else { None }
            }),
    {
        let present = emu::get_active_virtual_skylander(emu).is_some();
        let d = emu.mifare_mut();
        d.detection_active = true;
        d.state = DeviceState::SearchingForTag;
        if present {
            d.state = DeviceState::TagFound;
            Some(NfcEvent::Activate)
        } else {
            None
        }
    }

    /// The game stops waiting for a tag.
    pub fn stop_detection<A>(&self, emu: &mut EmuState<A>, _handle: DeviceHandle)
        ensures
            emu::figure_consistent(old(emu)@) ==> emu::figure_consistent(final(emu)@),
            final(emu)@ == (EmuModel { mifare: stopped_device(), ..old(emu)@ }),
    {
        let d = emu.mifare_mut();
        d.detection_active = false;
        d.state = DeviceState::Initialized;
    }

    /// Answers a read: for each 24-byte parameter, whose first byte is a block index,
    /// the matching record goes into the same slot of `out_data` if the slot fits.
    pub fn read<A>(&self, emu: &EmuState<A>, _handle: DeviceHandle, in_params: &[u8], out_data: &mut Vec<u8>)
        ensures
            final(out_data)@ == read_output(figure_data(emu@.active_virtual_skylander), in_params@, old(out_data)@),
            final(out_data)@.len() == old(out_data)@.len(),
            forall|i: int|
                0 <= i && (i + 1) * 24 <= in_params@.len() && (i + 1) * 24 <= old(out_data)@.len()
                    ==> #[trigger] record_slot(final(out_data)@, i)
                    == block_record(figure_data(emu@.active_virtual_skylander), in_params@[i * 24]),
            forall|p: int|
                (in_params@.len() / 24) * 24 <= p < old(out_data)@.len() ==> #[trigger] final(out_data)@[p]
                    == old(out_data)@[p],
    {
        let ghost data = figure_data(emu@.active_virtual_skylander);
        let ghost record = |i: int| block_record(data, in_params@[i * 24]);
        let param_size: usize = READ_PARAM_SIZE;
        let result_size: usize = READ_RECORD_SIZE;
        let in_len = in_params.len();
        let num_blocks = in_len / param_size;
        let skylander = emu::get_active_virtual_skylander(emu);
        let ghost out0 = out_data@;
        let mut i: usize = 0;
        while i < num_blocks
            invariant
                num_blocks == in_params@.len() / 24,
                in_len == in_params@.len(),
                param_size == 24,
                result_size == 24,
                *skylander == emu@.active_virtual_skylander,
                data == figure_data(emu@.active_virtual_skylander),
                record == (|i: int| block_record(data, in_params@[i * 24])),
                0 <= i <= num_blocks,
                out_data@ == fill_slots(out0, min(i as int, out0.len() as int / 24), record),
            decreases num_blocks - i,
        {
            assert(i * 24 + 24 <= in_params@.len()) by (nonlinear_arith)
                requires
                    i < num_blocks,
                    num_blocks == in_params@.len() / 24,
            ;
            let param_offset = i * READ_PARAM_SIZE;
            let result_offset = i * READ_RECORD_SIZE;
            let block_index = in_params[param_offset];
            let rec = block_record_bytes(skylander, block_index);
            let out_len = out_data.len();
            if result_offset <= out_len && result_size <= out_len - result_offset {
                let ghost cur = out_data@;
                put_slot(out_data, i, &rec);
                proof {
                    assert(rec@ == record(i as int));
                    lemma_fill_next_slot(out0, cur, i as int, record, out_data@);
                }
            } else {
                proof {
                    assert(min(i + 1, out0.len() as int / 24) == min(i as int, out0.len() as int / 24));
                }
            }
            i = i + 1;
        }
        proof {
            if let Some(s) = skylander {
                assert(s.data@.len() == SKYLANDER_DUMP_SIZE);
            }
            lemma_read_answers_every_parameter(data, in_params@, out0);
        }
    }

    /// Writes a game's block write into the placed figure: block `block_index` of the
    /// dump (sector `block_index / 4`, block `block_index % 4`) takes `data`; a block
    /// past the dump is ignored. Returns the updated figure, for the caller to save,
    /// or `None` when no figure is placed (and nothing changes).
    pub fn write_block<A>(&self, emu: &mut EmuState<A>, _handle: DeviceHandle, block_index: u8, data: &[u8; 16]) -> (dump: Option<Skylander>)
        ensures
            emu::figure_consistent(old(emu)@) ==> emu::figure_consistent(final(emu)@),
            final(emu)@ == (EmuModel { active_virtual_skylander: dump, ..old(emu)@ }),
            match old(emu)@.active_virtual_skylander {
                Some(s) => dump is Some
                    && dump->0.data@ == spec_write_block(s.data@, block_index / 4, block_index % 4, data@)
                    && dump->0.path == s.path,
                None => dump is None,
            },
    {
        let slot = emu.skylander_mut();
        match slot {
            Some(s) => {
                s.set_block(block_index / 4, block_index % 4, data);
                Some(Skylander { data: s.data, path: s.path.clone() })
            },
            None => None,
        }
    }

    /// The tag information block of the placed figure.
    pub fn get_tag_info<A>(&self, emu: &EmuState<A>, _handle: DeviceHandle) -> (info: [u8; TAG_INFO_SIZE])
        ensures
            info@ == tag_info(figure_data(emu@.active_virtual_skylander)),
    {
        let mut info: [u8; TAG_INFO_SIZE] = [0u8; 88];
        let skylander = emu::get_active_virtual_skylander(emu);
        match skylander {
            Some(s) => {
                let uid = s.get_uid();
                let mut i: usize = 0;
                while i < 4
                    invariant
                        uid@ == s.data@.subrange(0, 4),
                        0 <= i <= 4,
                        forall|j: int| 0 <= j < i ==> #[trigger] info@[j] == s.data@[j],
                        forall|j: int| i <= j < 88 ==> #[trigger] info@[j] == 0u8,
                    decreases 4 - i,
                {
                    info[i] = uid[i];
                    i = i + 1;
                }
                info[10] = 4;
            },
            None => {},
        }
        info[0x20] = 0x02;
        info[0x24] = 0x04;
        assert(info@ =~= tag_info(figure_data(emu@.active_virtual_skylander)));
        info
    }

    /// The service state: always initialized once a session exists.
    pub fn get_state(&self) -> (state: u32)
        ensures
            state == 1,
    {
        1
    }

    /// The number of the device state.
    pub fn get_device_state<A>(&self, emu: &EmuState<A>, _handle: DeviceHandle) -> (state: u32)
        ensures
            state == spec_device_state_raw(emu@.mifare.state),
            emu::figure_consistent(emu@) ==> state <= 2 && (state == 2 ==> emu@.active_virtual_skylander is Some),
    {
        emu.mifare_device().state.to_raw()
    }

    /// The controller the device belongs to: player one.
    pub fn get_npad_id(&self, _handle: DeviceHandle) -> (npad_id: u32)
        ensures
            npad_id == 0,
    {
        0
    }
}

/// The `nfc:mf:u` service manager that opens sessions for one process.
pub struct UserManager {
    pub program_id: u64,
}

impl UserManager {
    pub fn new(program_id: u64) -> (m: UserManager)
        ensures
            m.program_id == program_id,
    {
        UserManager { program_id }
    }

    /// Opens a session: the device is reset to initialized.
    pub fn create_user_interface<A>(&self, emu: &mut EmuState<A>) -> (session: UserEmulator)
        ensures
            emu::figure_consistent(old(emu)@) ==> emu::figure_consistent(final(emu)@),
            session.program_id == self.program_id,
            final(emu)@ == (EmuModel {
                mifare: NfcDevice { state: DeviceState::Initialized, ..old(emu)@.mifare },
                ..old(emu)@
            }),
    {
        let d = emu.mifare_mut();
        d.state = DeviceState::Initialized;
        UserEmulator { program_id: self.program_id }
    }

    /// Records the request of process `program_id`; it is intercepted while emulation is on.
    pub fn should_mitm<A>(emu: &mut EmuState<A>, program_id: u64) -> (r: bool)
        ensures
            emu::figure_consistent(old(emu)@) ==> emu::figure_consistent(final(emu)@),
            final(emu)@ == (EmuModel { last_mitm_request_id: program_id, ..old(emu)@ }),
            r == (old(emu)@.emulation_status == emu::EmulationStatus::On),
    {
        emu::record_mitm_request(emu, program_id);
        emu::is_emulation_on(emu)
    }
}

} // verus!
