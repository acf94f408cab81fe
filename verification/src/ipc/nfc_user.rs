//! The `nfc:user` service, which the game uses for its Mifare reads and writes.
use vstd::prelude::*;

use super::{
    lemma_block_record_len, lemma_fill_slots_rest, lemma_fill_slots_slot, record_slot,
    block_record, block_record_bytes, detecting_device, figure_data, fill_slots, lemma_fill_next_slot,
    min, put_slot, removed_device, spec_device_state_raw, stopped_device, DeviceHandle, DeviceState,
    EventSetup, EventSlots, NfcDevice, NfcEvent, READ_RECORD_SIZE, TAG_INFO_SIZE,
};
use super::nfc::{list_one_device, listed_devices};
use crate::emu::{self, EmuModel, EmuState};
use crate::skylander::SKYLANDER_DUMP_SIZE;

verus! {

/// Size of one read parameter sent by the game: a six-byte sector key, the key
/// command, a padding byte, the block index at offset 8, then padding.
pub const READ_PARAM_SIZE: usize = 16;

/// Offset of the block index inside a read parameter.
pub const READ_PARAM_BLOCK_INDEX: usize = 8;

/// The device after a figure was placed: the tag is always reported found.
pub open spec fn detected_device(d: NfcDevice) -> NfcDevice {
    NfcDevice { state: DeviceState::TagFound, ..d }
}

/// Moves the device to "tag found" when a figure is placed, and signals it in every case.
pub fn notify_skylander_selected(device: &mut NfcDevice) -> (ev: NfcEvent)
    ensures
        *final(device) == detected_device(*old(device)),
        ev == NfcEvent::Activate,
        final(device).state == DeviceState::TagFound,
        final(device).detection_active == old(device).detection_active,
        old(device).wf() ==> final(device).wf(),
{
    device.state = DeviceState::TagFound;
    NfcEvent::Activate
}

/// Moves the device back to searching (or idle) when the figure is taken off.
pub fn notify_skylander_removed(device: &mut NfcDevice) -> (ev: NfcEvent)
    ensures
        *final(device) == removed_device(*old(device)),
        ev == NfcEvent::Deactivate,
        final(device).detection_active == old(device).detection_active,
        final(device).state == if old(device).detection_active {
            DeviceState::SearchingForTag
        } else {
            DeviceState::Initialized
        },
        old(device).wf() ==> final(device).wf(),
{
    if device.detection_active {
        device.state = DeviceState::SearchingForTag;
    } else {
        device.state = DeviceState::Initialized;
    }
    NfcEvent::Deactivate
}

/// Makes sure the three events of the service exist: each missing one is created
/// (idempotent); none is signalled.
pub fn ensure_nfc_user_events(existing: EventSlots) -> (setup: EventSetup)
    ensures
        setup == (EventSetup {
            create_activate: !existing.activate,
            create_deactivate: !existing.deactivate,
            create_availability: !existing.availability,
            signal_availability: false,
        }),
{
    EventSetup {
        create_activate: !existing.activate,
        create_deactivate: !existing.deactivate,
        create_availability: !existing.availability,
        signal_availability: false,
    }
}

/// The tag information block of a placed figure: the UID, its length, the
/// type-A protocol and the Mifare Classic tag type.
pub open spec fn tag_info(data: Seq<u8>) -> Seq<u8> {
    Seq::new(
        88,
        |i: int|
            if i < 4 {
                data[i]
            } else if i == 8 {
                4u8
            } else if i == 9 {
                1u8
            } else if i == 10 {
                4u8
            } else {
                0u8
            },
    )
}

/// The output buffer after a Mifare read: with a placed figure and non-empty buffers,
/// one record per complete 16-byte parameter, as far as the buffer holds whole records;
/// otherwise the buffer is left as it was.
pub open spec fn read_mifare_output(data: Option<Seq<u8>>, in_params: Seq<u8>, out: Seq<u8>) -> Seq<u8> {
    if data is Some && in_params.len() > 0 && out.len() > 0 {
        fill_slots(
            out,
            min(in_params.len() as int / 16, out.len() as int / 24),
            |i: int| block_record(data, in_params[i * 16 + 8]),
        )
    } else {
        out
    }
}

/// A Mifare read with a placed figure answers every complete 16-byte parameter whose
/// slot fits in the output: slot `i` holds the record of the block named at offset 8 of
/// parameter `i`. Without a figure the buffer is left as it was. The buffer keeps its
/// length, and no byte past the answered slots changes.
pub proof fn lemma_read_mifare_answers_every_parameter(data: Option<Seq<u8>>, in_params: Seq<u8>, out: Seq<u8>)
    requires
        data is Some ==> data->0.len() == SKYLANDER_DUMP_SIZE,
    ensures
        read_mifare_output(data, in_params, out).len() == out.len(),
        data is None ==> read_mifare_output(data, in_params, out) == out,
        data is Some ==> forall|i: int|
            0 <= i && (i + 1) * 16 <= in_params.len() && (i + 1) * 24 <= out.len()
                ==> #[trigger] record_slot(read_mifare_output(data, in_params, out), i)
                == block_record(data, in_params[i * 16 + 8]),
        forall|p: int|
            (in_params.len() / 16) * 24 <= p < out.len() ==> #[trigger] read_mifare_output(data, in_params, out)[p]
                == out[p],
        forall|p: int|
            (out.len() / 24) * 24 <= p < out.len() ==> #[trigger] read_mifare_output(data, in_params, out)[p]
                == out[p],
{
    if data is Some && in_params.len() > 0 && out.len() > 0 {
        let k = min(in_params.len() as int / 16, out.len() as int / 24);
        let record = |i: int| block_record(data, in_params[i * 16 + 8]);
        lemma_fill_slots_rest(out, k, record);
        assert forall|i: int|
            0 <= i && (i + 1) * 16 <= in_params.len() && (i + 1) * 24 <= out.len()
                implies #[trigger] record_slot(read_mifare_output(data, in_params, out), i)
                == block_record(data, in_params[i * 16 + 8]) by {
            assert(i < in_params.len() as int / 16 && i < out.len() as int / 24) by (nonlinear_arith)
                requires
                    0 <= i,
                    (i + 1) * 16 <= in_params.len(),
                    (i + 1) * 24 <= out.len(),
            ;
            lemma_block_record_len(data, in_params[i * 16 + 8]);
            lemma_fill_slots_slot(out, k, record, i);
        }
        assert forall|p: int| (in_params.len() / 16) * 24 <= p < out.len() implies #[trigger] read_mifare_output(
            data,
            in_params,
            out,
        )[p] == out[p] by {
            assert(k * 24 <= (in_params.len() / 16) * 24) by (nonlinear_arith)
                requires
                    k <= in_params.len() as int / 16,
            ;
        }
        assert forall|p: int| (out.len() / 24) * 24 <= p < out.len() implies #[trigger] read_mifare_output(
            data,
            in_params,
            out,
        )[p] == out[p] by {
            assert(k * 24 <= (out.len() / 24) * 24) by (nonlinear_arith)
                requires
                    k <= out.len() as int / 24,
            ;
        }
    }
}

/// A session of the game with the `nfc:user` service.
pub struct NfcUserEmulator {
    pub program_id: u64,
}

impl NfcUserEmulator {
    /// Registers the game as intercepted and resets the device.
    pub fn initialize<A>(&self, emu: &mut EmuState<A>)
        ensures
            emu::figure_consistent(old(emu)@) ==> emu::figure_consistent(final(emu)@),
            final(emu)@ == (EmuModel {
                intercepted_application_ids: old(emu)@.intercepted_application_ids.push(self.program_id),
                nfc_user: NfcDevice::spec_new(),
                ..old(emu)@
            }),
    {
        emu::register_intercepted_application_id(emu, self.program_id);
        let d = emu.nfc_user_mut();
        d.state = DeviceState::Initialized;
        d.detection_active = false;
    }

    /// Resets the device; the game stays registered.
    pub fn finalize<A>(&self, emu: &mut EmuState<A>)
        ensures
            emu::figure_consistent(old(emu)@) ==> emu::figure_consistent(final(emu)@),
            final(emu)@ == (EmuModel { nfc_user: stopped_device(), ..old(emu)@ }),
    {
        let d = emu.nfc_user_mut();
        d.detection_active = false;
        d.state = DeviceState::Initialized;
    }

    /// The service state: always initialized.
    pub fn get_state(&self) -> (state: u32)
        ensures
            state == 1,
    {
        1
    }

    /// NFC is always reported enabled.
    pub fn is_nfc_enabled(&self) -> (enabled: bool)
        ensures
            enabled,
    {
        true
    }

    /// Lists the one emulated device (player one) into `out_devices`; returns how many were listed.
    pub fn list_devices(&self, out_devices: &mut Vec<u8>) -> (count: u32)
        ensures
            (count, final(out_devices)@) == listed_devices(old(out_devices)@),
    {
        list_one_device(out_devices)
    }

    /// The number of the device state.
    pub fn get_device_state<A>(&self, emu: &EmuState<A>, _handle: DeviceHandle) -> (state: u32)
        ensures
            state == spec_device_state_raw(emu@.nfc_user.state),
            emu::figure_consistent(emu@) ==> state <= 2 && (state == 2 ==> emu@.active_virtual_skylander is Some),
    {
        emu.nfc_user_device().state.to_raw()
    }

    /// The controller the device belongs to: player one.
    pub fn get_npad_id(&self, _handle: DeviceHandle) -> (npad_id: u32)
        ensures
            npad_id == 0,
    {
        0
    }

    /// The game starts waiting for a tag; a placed figure is found at once.
    pub fn start_detection<A>(&self, emu: &mut EmuState<A>, _handle: DeviceHandle, _protocol: u32) -> (ev: Option<NfcEvent>)
        ensures
            emu::figure_consistent(old(emu)@) ==> emu::figure_consistent(final(emu)@),
            ({
                let present = old(emu)@.active_virtual_skylander is Some;
                &&& final(emu)@ == (EmuModel { nfc_user: detecting_device(present), ..old(emu)@ })
                &&& final(emu)@.nfc_user.detection_active
                &&& final(emu)@.nfc_user.state == if present {
                    DeviceState::TagFound
                } else {
                    DeviceState::SearchingForTag
                }
                &&& ev == if present { Some(NfcEvent::Activate) } else { None }
            }),
    {
        let present = emu::get_active_virtual_skylander(emu).is_some();
        let d = emu.nfc_user_mut();
        d.detection_active = true;
        d.state = DeviceState::SearchingForTag;
        if present {
            d.state = DeviceState::TagFound;
            Some(NfcEvent::Activate)
        } else {
            None
        }
    }

    /// The game stops waiting for a tag.
    pub fn stop_detection<A>(&self, emu: &mut EmuState<A>, _handle: DeviceHandle)
        ensures
            emu::figure_consistent(old(emu)@) ==> emu::figure_consistent(final(emu)@),
            final(emu)@ == (EmuModel { nfc_user: stopped_device(), ..old(emu)@ }),
    {
        let d = emu.nfc_user_mut();
        d.detection_active = false;
        d.state = DeviceState::Initialized;
    }

    /// The tag information block, when a figure is placed; nothing is written otherwise.
    pub fn get_tag_info<A>(&self, emu: &EmuState<A>, _handle: DeviceHandle) -> (info: Option<[u8; TAG_INFO_SIZE]>)
        ensures
            match emu@.active_virtual_skylander {
                Some(s) => info is Some && info->0@ == tag_info(s.data@),
                None => info is None,
            },
    {
        match emu::get_active_virtual_skylander(emu) {
            Some(sky) => {
                let mut info: [u8; TAG_INFO_SIZE] = [0u8; 88];
                info[0] = sky.data[0];
                info[1] = sky.data[1];
                info[2] = sky.data[2];
                info[3] = sky.data[3];
                info[8] = 4;
                info[9] = 1;
                info[10] = 4;
                assert(info@ =~= tag_info(sky.data@));
                Some(info)
            },
            None => None,
        }
    }

    /// Answers a Mifare read: for each 16-byte parameter, the record of the block named at
    /// its offset 8 goes into the same 24-byte slot of `out_data`, stopping at the first slot that does not fit.
    pub fn read_mifare<A>(&self, emu: &EmuState<A>, _handle: DeviceHandle, in_params: &[u8], out_data: &mut Vec<u8>)
        ensures
            final(out_data)@ == read_mifare_output(
                figure_data(emu@.active_virtual_skylander),
                in_params@,
                old(out_data)@,
            ),
            final(out_data)@.len() == old(out_data)@.len(),
            emu@.active_virtual_skylander is None ==> final(out_data)@ == old(out_data)@,
            emu@.active_virtual_skylander is Some ==> forall|i: int|
                0 <= i && (i + 1) * 16 <= in_params@.len() && (i + 1) * 24 <= old(out_data)@.len()
                    ==> #[trigger] record_slot(final(out_data)@, i)
                    == block_record(figure_data(emu@.active_virtual_skylander), in_params@[i * 16 + 8]),
            forall|p: int|
                (in_params@.len() / 16) * 24 <= p < old(out_data)@.len() ==> #[trigger] final(out_data)@[p]
                    == old(out_data)@[p],
    {
        let ghost out_before = out_data@;
        proof {
            if let Some(s) = emu@.active_virtual_skylander {
                assert(s.data@.len() == SKYLANDER_DUMP_SIZE);
            }
            lemma_read_mifare_answers_every_parameter(
                figure_data(emu@.active_virtual_skylander),
                in_params@,
                out_before,
            );
        }
        let skylander = emu::get_active_virtual_skylander(emu);
        if skylander.is_some() {
            let param_size = in_params.len();
            let out_size = out_data.len();
            if param_size > 0 && out_size > 0 {
                let ghost data = figure_data(emu@.active_virtual_skylander);
                let ghost record = |i: int| block_record(data, in_params@[i * 16 + 8]);
                let ghost out0 = out_data@;
                let entry_in_size: usize = READ_PARAM_SIZE;
                let entry_out_size: usize = READ_RECORD_SIZE;
                let count = param_size / entry_in_size;
                let mut i: usize = 0;
                while i < count
                    invariant_except_break
                        i <= count,
                        out_data@ == fill_slots(out0, i as int, record),
                        i * 24 <= out0.len(),
                    invariant
                        count == in_params@.len() / 16,
                        param_size == in_params@.len(),
                        out_size == out0.len(),
                        entry_in_size == 16,
                        entry_out_size == 24,
                        *skylander == emu@.active_virtual_skylander,
                        data == figure_data(emu@.active_virtual_skylander),
                        record == (|i: int| block_record(data, in_params@[i * 16 + 8])),
                    ensures
                        out_data@ == fill_slots(out0, min(count as int, out0.len() as int / 24), record),
                    decreases count - i,
                {
                    if i + 1 > out_size / entry_out_size {
                        proof {
                            assert(i == min(count as int, out0.len() as int / 24));
                        }
                        break;
                    }
                    assert(i * 16 + 16 <= in_params@.len()) by (nonlinear_arith)
                        requires
                            i < count,
                            count == in_params@.len() / 16,
                    ;
                    let block_index = in_params[i * entry_in_size + READ_PARAM_BLOCK_INDEX];
                    let rec = block_record_bytes(skylander, block_index);
                    let ghost cur = out_data@;
                    put_slot(out_data, i, &rec);
                    proof {
                        assert(rec@ == record(i as int));
                        lemma_fill_next_slot(out0, cur, i as int, record, out_data@);
                    }
                    i = i + 1;
                }
            }
        }
    }
}

/// The `nfc:user` service manager that opens sessions for one process.
pub struct GenericUserManager {
    pub program_id: u64,
}

impl GenericUserManager {
    pub fn new(program_id: u64) -> (m: GenericUserManager)
        ensures
            m.program_id == program_id,
    {
        GenericUserManager { program_id }
    }

    /// Opens a session: the device is reset to initialized.
    pub fn create_user_interface<A>(&self, emu: &mut EmuState<A>) -> (session: NfcUserEmulator)
        ensures
            emu::figure_consistent(old(emu)@) ==> emu::figure_consistent(final(emu)@),
            session.program_id == self.program_id,
            final(emu)@ == (EmuModel {
                nfc_user: NfcDevice { state: DeviceState::Initialized, ..old(emu)@.nfc_user },
                ..old(emu)@
            }),
    {
        let d = emu.nfc_user_mut();
        d.state = DeviceState::Initialized;
        NfcUserEmulator { program_id: self.program_id }
    }

    /// Records the request of process `program_id`; it is intercepted while emulation is on.
    pub fn should_mitm<A>(emu: &mut EmuState<A>, program_id: u64) -> (r: bool)
        ensures
            emu::figure_consistent(old(emu)@) ==> emu::figure_consistent(final(emu)@),
            final(emu)@ == (EmuModel { last_mitm_request_id: program_id, ..old(emu)@ }),
            r == (old(emu)@.emulation_status == emu::EmulationStatus::On),
    {
        emu::record_mitm_request(emu, program_id);
        emu::is_emulation_on(emu)
    }
}

} // verus!
