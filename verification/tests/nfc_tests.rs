use emulanders::ipc::{EventSetup, EventSlots};
use emulanders::ipc::nfc::ensure_global_events;
use emulanders::emu::{
    get_last_mitm_request_id, is_application_id_intercepted, register_intercepted_application_id,
    set_active_virtual_skylander, set_emulation_status, EmuState, EmulationStatus,
};
use emulanders::ipc::nfc::{notify_skylander_removed, notify_skylander_selected, UserEmulator, UserManager};
use emulanders::ipc::{DeviceState, NfcDevice, NfcEvent};
use emulanders::skylander::{Skylander, SKYLANDER_DUMP_SIZE};

fn figure() -> Skylander {
    let mut data = [0u8; SKYLANDER_DUMP_SIZE];
    for (i, b) in data.iter_mut().enumerate() {
        *b = (i / 16) as u8; // every byte of block k holds k
    }
    data[0] = 0xDE;
    data[1] = 0xAD;
    data[2] = 0xBE;
    data[3] = 0xEF;
    Skylander { data, path: "fig.dump".to_string() }
}

fn session(emu: &mut EmuState<u32>) -> UserEmulator {
    UserManager::new(0x0100_A000).create_user_interface(emu)
}

#[test]
fn selected_then_removed_device() {
    let mut d = NfcDevice::new();
    assert_eq!(notify_skylander_selected(&mut d), Some(NfcEvent::Activate));
    assert_eq!(d.state, DeviceState::TagFound);
    assert_eq!(notify_skylander_selected(&mut d), None);
    assert_eq!(notify_skylander_removed(&mut d), NfcEvent::Deactivate);
    assert_eq!(d.state, DeviceState::Initialized);
    d.detection_active = true;
    notify_skylander_removed(&mut d);
    assert_eq!(d.state, DeviceState::SearchingForTag);
}

#[test]
fn initialize_and_finalize() {
    let mut emu: EmuState<u32> = EmuState::new();
    let s = session(&mut emu);
    assert_eq!(s.program_id, 0x0100_A000);
    assert_eq!(s.initialize(&mut emu), NfcEvent::AvailabilityChange);
    assert!(is_application_id_intercepted(&emu, 0x0100_A000));
    assert_eq!(s.get_device_state(&emu, 0), 0);
    s.finalize(&mut emu);
    assert!(!is_application_id_intercepted(&emu, 0x0100_A000));
    assert_eq!(s.get_state(), 1);
    assert_eq!(s.get_npad_id(0), 0);
}

#[test]
fn detection_without_figure_searches() {
    let mut emu: EmuState<u32> = EmuState::new();
    let s = session(&mut emu);
    assert_eq!(s.start_detection(&mut emu, 0), None);
    assert_eq!(s.get_device_state(&emu, 0), 1);
    assert!(emu.mifare_device().detection_active);
    // placing a figure now finds the tag
    let n = set_active_virtual_skylander(&mut emu, Some(figure()));
    assert_eq!(n.mifare, Some(NfcEvent::Activate));
    assert_eq!(s.get_device_state(&emu, 0), 2);
    // taking it off goes back to searching
    set_active_virtual_skylander(&mut emu, None);
    assert_eq!(s.get_device_state(&emu, 0), 1);
    s.stop_detection(&mut emu, 0);
    assert_eq!(s.get_device_state(&emu, 0), 0);
    assert!(!emu.mifare_device().detection_active);
}

#[test]
fn detection_with_figure_finds_tag() {
    let mut emu: EmuState<u32> = EmuState::new();
    set_active_virtual_skylander(&mut emu, Some(figure()));
    let s = session(&mut emu);
    assert_eq!(s.get_device_state(&emu, 0), 0);
    assert_eq!(s.start_detection(&mut emu, 0), Some(NfcEvent::Activate));
    assert_eq!(s.get_device_state(&emu, 0), 2);
}

#[test]
fn list_devices_needs_eight_bytes() {
    let s = UserEmulator { program_id: 1 };
    let mut big = vec![0xFFu8; 10];
    assert_eq!(s.list_devices(&mut big), 1);
    assert_eq!(big, vec![0, 0, 0, 0, 0, 0, 0, 0, 0xFF, 0xFF]);
    let mut small = vec![0xFFu8; 7];
    assert_eq!(s.list_devices(&mut small), 0);
    assert_eq!(small, vec![0xFFu8; 7]);
}

#[test]
fn read_answers_records() {
    let mut emu: EmuState<u32> = EmuState::new();
    set_active_virtual_skylander(&mut emu, Some(figure()));
    let s = UserEmulator { program_id: 1 };
    let mut params = vec![0u8; 48];
    params[0] = 5; // block 5 = sector 1, block 1
    params[24] = 70; // past the dump
    let mut out = vec![0xAAu8; 48];
    s.read(&emu, 0, &params, &mut out);
    assert_eq!(&out[0..16], &[5u8; 16][..]);
    assert_eq!(out[16], 5);
    assert_eq!(&out[17..24], &[0u8; 7][..]);
    assert_eq!(&out[24..40], &[0u8; 16][..]);
    assert_eq!(out[40], 70);
    assert_eq!(&out[41..48], &[0u8; 7][..]);
}

#[test]
fn read_first_block_holds_uid() {
    let mut emu: EmuState<u32> = EmuState::new();
    set_active_virtual_skylander(&mut emu, Some(figure()));
    let s = UserEmulator { program_id: 1 };
    let params = vec![0u8; 24];
    let mut out = vec![0u8; 24];
    s.read(&emu, 0, &params, &mut out);
    assert_eq!(&out[0..4], &[0xDE, 0xAD, 0xBE, 0xEF][..]);
}

#[test]
fn read_stops_at_output_size() {
    let mut emu: EmuState<u32> = EmuState::new();
    set_active_virtual_skylander(&mut emu, Some(figure()));
    let s = UserEmulator { program_id: 1 };
    let mut params = vec![0u8; 50]; // two whole parameters, two spare bytes
    params[0] = 1;
    params[24] = 2;
    let mut out = vec![0xAAu8; 30]; // room for one record only
    s.read(&emu, 0, &params, &mut out);
    assert_eq!(&out[0..16], &[1u8; 16][..]);
    assert_eq!(out[16], 1);
    assert_eq!(&out[24..30], &[0xAAu8; 6][..]);
}

#[test]
fn read_without_figure_gives_zero_blocks() {
    let emu: EmuState<u32> = EmuState::new();
    let s = UserEmulator { program_id: 1 };
    let mut params = vec![0u8; 24];
    params[0] = 9;
    let mut out = vec![0xAAu8; 24];
    s.read(&emu, 0, &params, &mut out);
    let mut expected = vec![0u8; 24];
    expected[16] = 9;
    assert_eq!(out, expected);
}

#[test]
fn written_block_is_read_back() {
    let mut emu: EmuState<u32> = EmuState::new();
    let mut fig = figure();
    fig.set_block(2, 3, &[0x42u8; 16]);
    set_active_virtual_skylander(&mut emu, Some(fig));
    let s = UserEmulator { program_id: 1 };
    let mut params = vec![0u8; 24];
    params[0] = 11;
    let mut out = vec![0u8; 24];
    s.read(&emu, 0, &params, &mut out);
    assert_eq!(&out[0..16], &[0x42u8; 16][..]);
}

#[test]
fn tag_info_with_and_without_figure() {
    let mut emu: EmuState<u32> = EmuState::new();
    let s = UserEmulator { program_id: 1 };
    let info = s.get_tag_info(&emu, 0);
    let mut expected = [0u8; 0x58];
    expected[0x20] = 2;
    expected[0x24] = 4;
    assert_eq!(info, expected);
    set_active_virtual_skylander(&mut emu, Some(figure()));
    let info = s.get_tag_info(&emu, 0);
    expected[0..4].copy_from_slice(&[0xDE, 0xAD, 0xBE, 0xEF]);
    expected[10] = 4;
    assert_eq!(info, expected);
}

#[test]
fn should_mitm_records_and_follows_status() {
    let mut emu: EmuState<u32> = EmuState::new();
    assert!(!UserManager::should_mitm(&mut emu, 77));
    assert_eq!(get_last_mitm_request_id(&emu), 77);
    set_emulation_status(&mut emu, EmulationStatus::On);
    assert!(UserManager::should_mitm(&mut emu, 78));
    assert_eq!(get_last_mitm_request_id(&emu), 78);
}

#[test]
fn create_user_interface_keeps_detection_flag() {
    let mut emu: EmuState<u32> = EmuState::new();
    register_intercepted_application_id(&mut emu, 3);
    let s = session(&mut emu);
    s.start_detection(&mut emu, 0);
    let again = UserManager::new(0x0100_A000).create_user_interface(&mut emu);
    assert_eq!(again.get_device_state(&emu, 0), 0);
    assert!(emu.mifare_device().detection_active);
}

#[test]
fn global_events_are_created_once() {
    let none = EventSlots { activate: false, deactivate: false, availability: false };
    assert_eq!(
        ensure_global_events(none),
        EventSetup { create_activate: true, create_deactivate: true, create_availability: true, signal_availability: true }
    );
    let all = EventSlots { activate: true, deactivate: true, availability: true };
    assert_eq!(
        ensure_global_events(all),
        EventSetup { create_activate: false, create_deactivate: false, create_availability: false, signal_availability: false }
    );
    let partial = EventSlots { activate: true, deactivate: false, availability: true };
    assert_eq!(
        ensure_global_events(partial),
        EventSetup { create_activate: false, create_deactivate: true, create_availability: false, signal_availability: false }
    );
}

#[test]
fn write_block_updates_placed_figure() {
    let mut emu: EmuState<u32> = EmuState::new();
    let s = UserEmulator { program_id: 1 };
    // nothing placed: nothing to write
    assert!(s.write_block(&mut emu, 0, 6, &[0x11u8; 16]).is_none());
    assert!(emulanders::emu::get_active_virtual_skylander(&emu).is_none());
    set_active_virtual_skylander(&mut emu, Some(figure()));
    let dump = s.write_block(&mut emu, 0, 6, &[0x11u8; 16]).unwrap();
    assert_eq!(&dump.data[96..112], &[0x11u8; 16][..]);
    assert_eq!(dump.path, "fig.dump");
    // the placed figure holds the same bytes, and a read answers them
    let placed = emulanders::emu::get_active_virtual_skylander(&emu).as_ref().unwrap().clone();
    assert_eq!(placed.data, dump.data);
    let mut params = vec![0u8; 24];
    params[0] = 6;
    let mut out = vec![0u8; 24];
    s.read(&emu, 0, &params, &mut out);
    assert_eq!(&out[0..16], &[0x11u8; 16][..]);
    // a block past the dump is ignored
    let before = emulanders::emu::get_active_virtual_skylander(&emu).as_ref().unwrap().data;
    let dump = s.write_block(&mut emu, 0, 64, &[0x22u8; 16]).unwrap();
    assert_eq!(dump.data, before);
}

#[test]
fn tag_found_only_with_a_figure() {
    let mut emu: EmuState<u32> = EmuState::new();
    let s = session(&mut emu);
    s.start_detection(&mut emu, 0);
    assert_eq!(s.get_device_state(&emu, 0), 1);
    set_active_virtual_skylander(&mut emu, Some(figure()));
    assert_eq!(s.get_device_state(&emu, 0), 2);
    emulanders::emu::set_active_virtual_amiibo(&mut emu, Some(1u32));
    assert_ne!(s.get_device_state(&emu, 0), 2);
    assert_ne!(emu.nfc_user_device().state, DeviceState::TagFound);
}
