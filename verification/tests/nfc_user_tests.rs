use emulanders::ipc::{EventSetup, EventSlots};
use emulanders::ipc::nfc_user::ensure_nfc_user_events;
use emulanders::emu::{is_application_id_intercepted, set_active_virtual_skylander, EmuState, get_last_mitm_request_id};
use emulanders::ipc::nfc_user::{
    notify_skylander_removed, notify_skylander_selected, GenericUserManager, NfcUserEmulator,
};
use emulanders::ipc::{DeviceState, NfcDevice, NfcEvent};
use emulanders::skylander::{Skylander, SKYLANDER_DUMP_SIZE};

fn figure() -> Skylander {
    let mut data = [0u8; SKYLANDER_DUMP_SIZE];
    for (i, b) in data.iter_mut().enumerate() {
        *b = (i / 16) as u8;
    }
    data[0] = 1;
    data[1] = 2;
    data[2] = 3;
    data[3] = 4;
    Skylander { data, path: "fig.dump".to_string() }
}

#[test]
fn selection_always_signals() {
    let mut d = NfcDevice::new();
    assert_eq!(notify_skylander_selected(&mut d), NfcEvent::Activate);
    assert_eq!(notify_skylander_selected(&mut d), NfcEvent::Activate);
    assert_eq!(d.state, DeviceState::TagFound);
    assert_eq!(notify_skylander_removed(&mut d), NfcEvent::Deactivate);
    assert_eq!(d.state, DeviceState::Initialized);
}

#[test]
fn hot_swap_signals_nfc_user_each_time() {
    let mut emu: EmuState<u32> = EmuState::new();
    let a = set_active_virtual_skylander(&mut emu, Some(figure()));
    let b = set_active_virtual_skylander(&mut emu, Some(figure()));
    assert_eq!(a.nfc_user, Some(NfcEvent::Activate));
    assert_eq!(b.nfc_user, Some(NfcEvent::Activate));
}

#[test]
fn initialize_registers_finalize_keeps_registration() {
    let mut emu: EmuState<u32> = EmuState::new();
    let s = GenericUserManager::new(99).create_user_interface(&mut emu);
    s.initialize(&mut emu);
    assert!(is_application_id_intercepted(&emu, 99));
    s.start_detection(&mut emu, 0, 1);
    assert_eq!(s.get_device_state(&emu, 0), 1);
    s.finalize(&mut emu);
    assert!(is_application_id_intercepted(&emu, 99));
    assert_eq!(s.get_device_state(&emu, 0), 0);
    assert!(!emu.nfc_user_device().detection_active);
    assert_eq!(s.get_state(), 1);
    assert!(s.is_nfc_enabled());
    assert_eq!(s.get_npad_id(0), 0);
}

#[test]
fn detection_with_figure() {
    let mut emu: EmuState<u32> = EmuState::new();
    set_active_virtual_skylander(&mut emu, Some(figure()));
    let s = NfcUserEmulator { program_id: 5 };
    assert_eq!(s.start_detection(&mut emu, 0, 1), Some(NfcEvent::Activate));
    assert_eq!(s.get_device_state(&emu, 0), 2);
    s.stop_detection(&mut emu, 0);
    assert_eq!(s.get_device_state(&emu, 0), 0);
}

#[test]
fn list_devices() {
    let s = NfcUserEmulator { program_id: 5 };
    let mut out = vec![9u8; 8];
    assert_eq!(s.list_devices(&mut out), 1);
    assert_eq!(out, vec![0u8; 8]);
    let mut out = vec![9u8; 4];
    assert_eq!(s.list_devices(&mut out), 0);
    assert_eq!(out, vec![9u8; 4]);
}

#[test]
fn tag_info() {
    let mut emu: EmuState<u32> = EmuState::new();
    let s = NfcUserEmulator { program_id: 5 };
    assert_eq!(s.get_tag_info(&emu, 0), None);
    set_active_virtual_skylander(&mut emu, Some(figure()));
    let info = s.get_tag_info(&emu, 0).unwrap();
    let mut expected = [0u8; 0x58];
    expected[0..4].copy_from_slice(&[1, 2, 3, 4]);
    expected[8] = 4;
    expected[9] = 1;
    expected[10] = 4;
    assert_eq!(info, expected);
}

#[test]
fn read_mifare_records() {
    let mut emu: EmuState<u32> = EmuState::new();
    set_active_virtual_skylander(&mut emu, Some(figure()));
    let s = NfcUserEmulator { program_id: 5 };
    let mut params = vec![0u8; 32];
    params[8] = 6;
    params[16 + 8] = 200; // past the dump
    let mut out = vec![0xAAu8; 48];
    s.read_mifare(&emu, 0, &params, &mut out);
    assert_eq!(&out[0..16], &[6u8; 16][..]);
    assert_eq!(out[16], 6);
    assert_eq!(&out[17..24], &[0u8; 7][..]);
    assert_eq!(&out[24..40], &[0u8; 16][..]);
    assert_eq!(out[40], 200);
}

#[test]
fn read_mifare_stops_when_output_is_full() {
    let mut emu: EmuState<u32> = EmuState::new();
    set_active_virtual_skylander(&mut emu, Some(figure()));
    let s = NfcUserEmulator { program_id: 5 };
    let mut params = vec![0u8; 48];
    params[8] = 1;
    params[24] = 2;
    params[40] = 3;
    let mut out = vec![0xAAu8; 40];
    s.read_mifare(&emu, 0, &params, &mut out);
    assert_eq!(&out[0..16], &[1u8; 16][..]);
    assert_eq!(&out[24..40], &[0xAAu8; 16][..]);
}

#[test]
fn read_mifare_without_figure_leaves_buffer() {
    let emu: EmuState<u32> = EmuState::new();
    let s = NfcUserEmulator { program_id: 5 };
    let params = vec![0u8; 16];
    let mut out = vec![0xAAu8; 24];
    s.read_mifare(&emu, 0, &params, &mut out);
    assert_eq!(out, vec![0xAAu8; 24]);
}

#[test]
fn read_mifare_block_zero_holds_uid() {
    let mut emu: EmuState<u32> = EmuState::new();
    set_active_virtual_skylander(&mut emu, Some(figure()));
    let s = NfcUserEmulator { program_id: 5 };
    let params = vec![0u8; 16];
    let mut out = vec![0u8; 24];
    s.read_mifare(&emu, 0, &params, &mut out);
    assert_eq!(&out[0..4], &[1, 2, 3, 4][..]);
}

#[test]
fn should_mitm_records() {
    let mut emu: EmuState<u32> = EmuState::new();
    assert!(!GenericUserManager::should_mitm(&mut emu, 12));
    assert_eq!(get_last_mitm_request_id(&emu), 12);
}

#[test]
fn nfc_user_events_are_never_signalled() {
    let none = EventSlots { activate: false, deactivate: false, availability: false };
    assert_eq!(
        ensure_nfc_user_events(none),
        EventSetup { create_activate: true, create_deactivate: true, create_availability: true, signal_availability: false }
    );
    let some = EventSlots { activate: false, deactivate: true, availability: true };
    assert_eq!(
        ensure_nfc_user_events(some),
        EventSetup { create_activate: true, create_deactivate: false, create_availability: false, signal_availability: false }
    );
}
