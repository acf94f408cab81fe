//! The service's own control interface, used by the overlay.
use vstd::prelude::*;

use crate::emu::{
    self, after_set_skylander, notifications_after_set_skylander, EmuModel, EmuState,
    EmulationStatus, Notifications, Version, VERSION_MAJOR, VERSION_MICRO, VERSION_MINOR,
};

verus! {

/// The control service.
pub struct EmulandersServer;

impl EmulandersServer {
    pub fn new() -> (s: EmulandersServer) {
        EmulandersServer
    }

    /// The running version; `is_dev_build` says whether this is a development build.
    pub fn get_version(&self, is_dev_build: bool) -> (v: Version)
        ensures
            v.major == VERSION_MAJOR,
            v.minor == VERSION_MINOR,
            v.micro == VERSION_MICRO,
            v.is_dev_build == is_dev_build,
    {
        Version::from(VERSION_MAJOR, VERSION_MINOR, VERSION_MICRO, is_dev_build)
    }

    pub fn get_emulation_status<A>(&self, emu: &EmuState<A>) -> (status: EmulationStatus)
        ensures
            status == emu@.emulation_status,
    {
        emu::get_emulation_status(emu)
    }

    /// Sets the emulation status; returns whether the persisted "on" flag must now be present.
    pub fn set_emulation_status<A>(&self, emu: &mut EmuState<A>, status: EmulationStatus) -> (flag: bool)
        ensures
            emu::figure_consistent(old(emu)@) ==> emu::figure_consistent(final(emu)@),
            final(emu)@ == (EmuModel { emulation_status: status, ..old(emu)@ }),
            flag == emu::flag_for_status(status),
    {
        emu::set_emulation_status(emu, status)
    }

    /// The path of the placed Skylander, or the empty string when none is placed.
    pub fn get_active_virtual_skylander<A>(&self, emu: &EmuState<A>) -> (path: String)
        ensures
            path@ == match emu@.active_virtual_skylander {
                Some(s) => s.path@,
                None => Seq::<char>::empty(),
            },
    {
        match emu::get_active_virtual_skylander(emu) {
            Some(s) => s.path.clone(),
            None => String::new(),
        }
    }

    /// Takes the placed figure off.
    pub fn reset_active_virtual_skylander<A>(&self, emu: &mut EmuState<A>) -> (n: Notifications)
        ensures
            emu::figure_consistent(old(emu)@) ==> emu::figure_consistent(final(emu)@),
            final(emu)@ == after_set_skylander(old(emu)@, None),
            n == notifications_after_set_skylander(old(emu)@, false),
    {
        emu::set_active_virtual_skylander(emu, None)
    }

    pub fn is_application_id_intercepted<A>(&self, emu: &EmuState<A>, application_id: u64) -> (r: bool)
        ensures
            r == emu@.intercepted_application_ids.contains(application_id),
    {
        emu::is_application_id_intercepted(emu, application_id)
    }

    pub fn get_last_mitm_request_id<A>(&self, emu: &EmuState<A>) -> (id: u64)
        ensures
            id == emu@.last_mitm_request_id,
    {
        emu::get_last_mitm_request_id(emu)
    }

    pub fn get_debug_log<A>(&self, emu: &EmuState<A>) -> (log: String)
        ensures
            log@ == emu@.debug_log,
    {
        emu::get_debug_log(emu)
    }

    pub fn get_logging_status<A>(&self, emu: &EmuState<A>) -> (enabled: bool)
        ensures
            enabled == emu@.logging_enabled,
    {
        emu::get_logging_status(emu)
    }

    pub fn set_logging_status<A>(&self, emu: &mut EmuState<A>, enabled: bool)
        ensures
            emu::figure_consistent(old(emu)@) ==> emu::figure_consistent(final(emu)@),
            final(emu)@ == (EmuModel { logging_enabled: enabled, ..old(emu)@ }),
    {
        emu::set_logging_status(emu, enabled)
    }

    pub fn clear_debug_log<A>(&self, emu: &mut EmuState<A>)
        ensures
            emu::figure_consistent(old(emu)@) ==> emu::figure_consistent(final(emu)@),
            final(emu)@ == (EmuModel { debug_log: Seq::empty(), ..old(emu)@ }),
    {
        emu::clear_debug_log(emu)
    }
}

} // verus!
