use emulanders::emu::{set_active_virtual_skylander, EmuState, EmulationStatus, Notifications};
use emulanders::ipc::emu::EmulandersServer;
use emulanders::ipc::NfcEvent;
use emulanders::skylander::{Skylander, SKYLANDER_DUMP_SIZE};

#[test]
fn version() {
    let s = EmulandersServer::new();
    let v = s.get_version(false);
    assert_eq!((v.major, v.minor, v.micro, v.is_dev_build), (1, 1, 3, false));
}

#[test]
fn active_skylander_path() {
    let mut emu: EmuState<u32> = EmuState::new();
    let s = EmulandersServer::new();
    assert_eq!(s.get_active_virtual_skylander(&emu), "");
    set_active_virtual_skylander(
        &mut emu,
        Some(Skylander { data: [0u8; SKYLANDER_DUMP_SIZE], path: "sdmc:/x/Eruptor.dump".to_string() }),
    );
    assert_eq!(s.get_active_virtual_skylander(&emu), "sdmc:/x/Eruptor.dump");
    let n = s.reset_active_virtual_skylander(&mut emu);
    assert_eq!(n, Notifications { mifare: Some(NfcEvent::Deactivate), nfc_user: Some(NfcEvent::Deactivate) });
    assert_eq!(s.get_active_virtual_skylander(&emu), "");
}

#[test]
fn status_and_registry_and_log() {
    let mut emu: EmuState<u32> = EmuState::new();
    let s = EmulandersServer::new();
    assert!(s.set_emulation_status(&mut emu, EmulationStatus::On));
    assert_eq!(s.get_emulation_status(&emu), EmulationStatus::On);
    assert!(!s.is_application_id_intercepted(&emu, 1));
    assert_eq!(s.get_last_mitm_request_id(&emu), 0);
    assert_eq!(s.get_debug_log(&emu), "");
}

#[test]
fn logging_controls() {
    let mut emu: EmuState<u32> = EmuState::new();
    let s = EmulandersServer::new();
    assert!(!s.get_logging_status(&emu));
    s.set_logging_status(&mut emu, true);
    assert!(s.get_logging_status(&emu));
    emulanders::emu::log_debug(&mut emu, "x");
    s.clear_debug_log(&mut emu);
    assert_eq!(s.get_debug_log(&emu), "");
}
