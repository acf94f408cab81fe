use vstd::prelude::*;
use vstd::string::*;
use vstd::utf8::*;

use crate::ipc::{detecting_device, nfc, nfc_user, removed_device, DeviceState, NfcDevice, NfcEvent};
use crate::ipc::nfc_user::detected_device;
use crate::skylander::Skylander;

verus! {

broadcast use vstd::seq_lib::group_seq_properties;

/// Major number of the service version.
pub const VERSION_MAJOR: u8 = 1;

/// Minor number of the service version.
pub const VERSION_MINOR: u8 = 1;

/// Micro number of the service version.
pub const VERSION_MICRO: u8 = 3;

/// Name of the flag file whose presence keeps emulation on across reboots.
pub const STATUS_ON_FLAG: &'static str = "status_on";

/// Above this many bytes the debug log drops its older half before appending.
pub const DEBUG_LOG_CAPACITY: usize = 16384;

/// Version of the service as reported to clients.
#[derive(Clone, Copy, Debug)]
pub struct Version {
    pub major: u8,
    pub minor: u8,
    pub micro: u8,
    pub is_dev_build: bool,
}

impl Version {
    pub fn from(major: u8, minor: u8, micro: u8, is_dev_build: bool) -> (v: Self)
        ensures
            v.major == major,
            v.minor == minor,
            v.micro == micro,
            v.is_dev_build == is_dev_build,
    {
        Self { major: major, minor: minor, micro: micro, is_dev_build: is_dev_build }
    }
}

/// Whether the service intercepts the game's NFC sessions.
#[derive(Clone, Copy, Debug, PartialEq, Eq, Structural)]
pub enum EmulationStatus {
    On,
    Off,
}

/// Whether a virtual figure is placed on the emulated reader.
#[derive(Clone, Copy, Debug, PartialEq, Eq, Structural)]
pub enum VirtualAmiiboStatus {
    Invalid,
    Connected,
    Disconnected,
}

/// The events that a change of the active figure asks the two NFC services to signal.
#[derive(Clone, Copy, Debug, PartialEq, Eq, Structural)]
pub struct Notifications {
    /// Event of the `nfc:mf:u` service, if one is to be signalled.
    pub mifare: Option<NfcEvent>,
    /// Event of the `nfc:user` service, if one is to be signalled.
    pub nfc_user: Option<NfcEvent>,
}

/// Everything the service remembers between requests.
pub struct EmuState<A> {
    emulation_status: EmulationStatus,
    active_virtual_amiibo_status: VirtualAmiiboStatus,
    intercepted_application_ids: Vec<u64>,
    active_virtual_amiibo: Option<A>,
    active_virtual_skylander: Option<Skylander>,
    last_mitm_request_id: u64,
    debug_log: String,
    logging_enabled: bool,
    mifare: NfcDevice,
    nfc_user: NfcDevice,
}

/// The mathematical model of [`EmuState`].
pub struct EmuModel<A> {
    pub emulation_status: EmulationStatus,
    pub active_virtual_amiibo_status: VirtualAmiiboStatus,
    pub intercepted_application_ids: Seq<u64>,
    pub active_virtual_amiibo: Option<A>,
    pub active_virtual_skylander: Option<Skylander>,
    pub last_mitm_request_id: u64,
    pub debug_log: Seq<char>,
    pub logging_enabled: bool,
    pub mifare: NfcDevice,
    pub nfc_user: NfcDevice,
}

impl<A> View for EmuState<A> {
    type V = EmuModel<A>;

    closed spec fn view(&self) -> EmuModel<A> {
        EmuModel {
            emulation_status: self.emulation_status,
            active_virtual_amiibo_status: self.active_virtual_amiibo_status,
            intercepted_application_ids: self.intercepted_application_ids@,
            active_virtual_amiibo: self.active_virtual_amiibo,
            active_virtual_skylander: self.active_virtual_skylander,
            last_mitm_request_id: self.last_mitm_request_id,
            debug_log: self.debug_log@,
            logging_enabled: self.logging_enabled,
            mifare: self.mifare,
            nfc_user: self.nfc_user,
        }
    }
}

/// The UTF-8 bytes of a character sequence.
pub open spec fn utf8_bytes(chars: Seq<char>) -> Seq<u8> {
    encode_utf8(chars)
}

/// Whether appending `msg` to `log` first cuts the log.
pub open spec fn log_overflows(log: Seq<char>, msg: Seq<char>) -> bool {
    utf8_bytes(log).len() + utf8_bytes(msg).len() > DEBUG_LOG_CAPACITY
}

/// Byte offset at which an overflowing log is cut: its byte length halved.
pub open spec fn log_cut_offset(log: Seq<char>) -> int {
    utf8_bytes(log).len() as int / 2
}

/// Whether appending `msg` to `log` is defined: an overflowing log must be cut at a character boundary.
pub open spec fn log_append_defined(log: Seq<char>, msg: Seq<char>) -> bool {
    log_overflows(log, msg) ==> is_char_boundary(utf8_bytes(log), log_cut_offset(log))
}

/// The log after appending `msg`: an overflowing log first keeps only the bytes from its middle on.
pub open spec fn log_after_append(log: Seq<char>, msg: Seq<char>) -> Seq<char> {
    if log_overflows(log, msg) {
        decode_utf8(utf8_bytes(log).subrange(log_cut_offset(log), utf8_bytes(log).len() as int))
            + msg
    } else {
        log + msg
    }
}

/// The devices are well formed, and neither reports a found tag unless a Skylander is placed.
pub open spec fn figure_consistent<A>(m: EmuModel<A>) -> bool {
    &&& m.mifare.wf()
    &&& m.nfc_user.wf()
    &&& m.mifare.state == DeviceState::TagFound ==> m.active_virtual_skylander is Some
    &&& m.nfc_user.state == DeviceState::TagFound ==> m.active_virtual_skylander is Some
}

/// The model of a fresh service: emulation off, no figure, empty registry and log,
/// logging off, both devices initialized.
pub open spec fn initial_model<A>() -> EmuModel<A> {
    EmuModel {
        emulation_status: EmulationStatus::Off,
        active_virtual_amiibo_status: VirtualAmiiboStatus::Invalid,
        intercepted_application_ids: Seq::empty(),
        active_virtual_amiibo: None,
        active_virtual_skylander: None,
        last_mitm_request_id: 0,
        debug_log: Seq::empty(),
        logging_enabled: false,
        mifare: NfcDevice::spec_new(),
        nfc_user: NfcDevice::spec_new(),
    }
}

impl<A> EmuState<A> {
    /// The state at service start.
    pub fn new() -> (s: Self)
        ensures
            s@ == initial_model::<A>(),
            figure_consistent(s@),
    {
        let s = EmuState {
            emulation_status: EmulationStatus::Off,
            active_virtual_amiibo_status: VirtualAmiiboStatus::Invalid,
            intercepted_application_ids: Vec::new(),
            active_virtual_amiibo: None,
            active_virtual_skylander: None,
            last_mitm_request_id: 0,
            debug_log: String::new(),
            logging_enabled: false,
            mifare: NfcDevice::new(),
            nfc_user: NfcDevice::new(),
        };
        assert(s@.intercepted_application_ids =~= Seq::<u64>::empty());
        assert(s@.debug_log =~= Seq::<char>::empty());
        s
    }

    /// The `nfc:mf:u` device.
    pub fn mifare_device(&self) -> (d: NfcDevice)
        ensures
            d == self@.mifare,
    {
        self.mifare
    }

    /// The `nfc:user` device.
    pub fn nfc_user_device(&self) -> (d: NfcDevice)
        ensures
            d == self@.nfc_user,
    {
        self.nfc_user
    }

    pub(crate) fn mifare_mut(&mut self) -> (d: &mut NfcDevice)
        ensures
            *d == old(self)@.mifare,
            final(self)@ == (EmuModel { mifare: *final(d), ..old(self)@ }),
    {
        &mut self.mifare
    }

    pub(crate) fn nfc_user_mut(&mut self) -> (d: &mut NfcDevice)
        ensures
            *d == old(self)@.nfc_user,
            final(self)@ == (EmuModel { nfc_user: *final(d), ..old(self)@ }),
    {
        &mut self.nfc_user
    }

    pub(crate) fn skylander_mut(&mut self) -> (s: &mut Option<Skylander>)
        ensures
            *s == old(self)@.active_virtual_skylander,
            final(self)@ == (EmuModel { active_virtual_skylander: *final(s), ..old(self)@ }),
    {
        &mut self.active_virtual_skylander
    }
}

/// Whether appending `msg` to the debug log is defined (see [`log_append_defined`]).
pub fn can_log_debug<A>(emu: &EmuState<A>, msg: &str) -> (r: bool)
    ensures
        r == log_append_defined(emu@.debug_log, msg@),
{
    let log = emu.debug_log.as_str();
    let log_len = log.as_bytes().len();
    let msg_len = msg.as_bytes().len();
    if msg_len > DEBUG_LOG_CAPACITY || log_len > DEBUG_LOG_CAPACITY - msg_len {
        log.is_char_boundary(log_len / 2)
    } else {
        true
    }
}

/// Appends `msg` to the debug log, first dropping the older half of the log when
/// the result would exceed [`DEBUG_LOG_CAPACITY`] bytes.
pub fn log_debug<A>(emu: &mut EmuState<A>, msg: &str)
    requires
        log_append_defined(old(emu)@.debug_log, msg@),
    ensures
        figure_consistent(old(emu)@) ==> figure_consistent(final(emu)@),
        final(emu)@ == (EmuModel { debug_log: log_after_append(old(emu)@.debug_log, msg@), ..old(emu)@ }),
{
    let log_len = emu.debug_log.as_str().as_bytes().len();
    let msg_len = msg.as_bytes().len();
    if msg_len > DEBUG_LOG_CAPACITY || log_len > DEBUG_LOG_CAPACITY - msg_len {
        let new_start = log_len / 2;
        let kept = {
            let (_, tail) = emu.debug_log.as_str().split_at(new_start);
            proof {
                encode_utf8_decode_utf8(tail@);
            }
            tail.to_owned()
        };
        emu.debug_log = kept;
    }
    emu.debug_log.append(msg);
}

/// A copy of the debug log.
pub fn get_debug_log<A>(emu: &EmuState<A>) -> (log: String)
    ensures
        log@ == emu@.debug_log,
{
    emu.debug_log.clone()
}

/// Empties the debug log.
pub fn clear_debug_log<A>(emu: &mut EmuState<A>)
    ensures
        figure_consistent(old(emu)@) ==> figure_consistent(final(emu)@),
        final(emu)@ == (EmuModel { debug_log: Seq::empty(), ..old(emu)@ }),
{
    emu.debug_log = String::new();
}

/// Whether debug logging is switched on.
pub fn get_logging_status<A>(emu: &EmuState<A>) -> (enabled: bool)
    ensures
        enabled == emu@.logging_enabled,
{
    emu.logging_enabled
}

/// Switches debug logging on or off.
pub fn set_logging_status<A>(emu: &mut EmuState<A>, enabled: bool)
    ensures
        figure_consistent(old(emu)@) ==> figure_consistent(final(emu)@),
        final(emu)@ == (EmuModel { logging_enabled: enabled, ..old(emu)@ }),
{
    emu.logging_enabled = enabled;
}

pub fn get_last_mitm_request_id<A>(emu: &EmuState<A>) -> (id: u64)
    ensures
        id == emu@.last_mitm_request_id,
{
    emu.last_mitm_request_id
}

/// Remembers the program id of the latest process that asked for one of the intercepted services.
pub fn record_mitm_request<A>(emu: &mut EmuState<A>, id: u64)
    ensures
        figure_consistent(old(emu)@) ==> figure_consistent(final(emu)@),
        final(emu)@ == (EmuModel { last_mitm_request_id: id, ..old(emu)@ }),
{
    emu.last_mitm_request_id = id;
}

pub fn get_emulation_status<A>(emu: &EmuState<A>) -> (status: EmulationStatus)
    ensures
        status == emu@.emulation_status,
{
    emu.emulation_status
}

/// The status that the presence of the [`STATUS_ON_FLAG`] flag stands for.
pub open spec fn status_from_flag(flag_present: bool) -> EmulationStatus {
    if flag_present {
        EmulationStatus::On
    } else {
        EmulationStatus::Off
    }
}

/// Whether the [`STATUS_ON_FLAG`] flag must be present to persist `status`.
pub open spec fn flag_for_status(status: EmulationStatus) -> bool {
    status == EmulationStatus::On
}

/// Restores the emulation status from whether the [`STATUS_ON_FLAG`] flag is present.
pub fn load_emulation_status<A>(emu: &mut EmuState<A>, flag_present: bool)
    ensures
        figure_consistent(old(emu)@) ==> figure_consistent(final(emu)@),
        final(emu)@ == (EmuModel { emulation_status: status_from_flag(flag_present), ..old(emu)@ }),
{
    let status = if flag_present {
        EmulationStatus::On
    } else {
        EmulationStatus::Off
    };
    emu.emulation_status = status;
}

/// Sets the emulation status; returns whether the [`STATUS_ON_FLAG`] flag must now be present.
pub fn set_emulation_status<A>(emu: &mut EmuState<A>, status: EmulationStatus) -> (flag: bool)
    ensures
        figure_consistent(old(emu)@) ==> figure_consistent(final(emu)@),
        final(emu)@ == (EmuModel { emulation_status: status, ..old(emu)@ }),
        flag == flag_for_status(status),
{
    emu.emulation_status = status;
    status == EmulationStatus::On
}

pub fn get_active_virtual_amiibo_status<A>(emu: &EmuState<A>) -> (status: VirtualAmiiboStatus)
    ensures
        status == emu@.active_virtual_amiibo_status,
{
    emu.active_virtual_amiibo_status
}

pub fn set_active_virtual_amiibo_status<A>(emu: &mut EmuState<A>, status: VirtualAmiiboStatus)
    ensures
        figure_consistent(old(emu)@) ==> figure_consistent(final(emu)@),
        final(emu)@ == (EmuModel { active_virtual_amiibo_status: status, ..old(emu)@ }),
{
    emu.active_virtual_amiibo_status = status;
}

/// Adds `application_id` to the processes whose NFC sessions are intercepted.
pub fn register_intercepted_application_id<A>(emu: &mut EmuState<A>, application_id: u64)
    ensures
        figure_consistent(old(emu)@) ==> figure_consistent(final(emu)@),
        final(emu)@ == (EmuModel {
            intercepted_application_ids: old(emu)@.intercepted_application_ids.push(application_id),
            ..old(emu)@
        }),
{
    emu.intercepted_application_ids.push(application_id);
}

/// The registry without any entry equal to `application_id`, the others in their order.
pub open spec fn ids_without(ids: Seq<u64>, application_id: u64) -> Seq<u64> {
    ids.filter(other_than(application_id))
}

/// Whether an entry differs from `application_id`.
pub open spec fn other_than(application_id: u64) -> spec_fn(u64) -> bool {
    |x: u64| x != application_id
}

/// Removes every entry equal to `application_id` from the intercepted processes.
pub fn unregister_intercepted_application_id<A>(emu: &mut EmuState<A>, application_id: u64)
    ensures
        figure_consistent(old(emu)@) ==> figure_consistent(final(emu)@),
        final(emu)@ == (EmuModel {
            intercepted_application_ids: ids_without(old(emu)@.intercepted_application_ids, application_id),
            ..old(emu)@
        }),
{
    let ghost old_ids = emu.intercepted_application_ids@;
    let mut kept: Vec<u64> = Vec::new();
    let n = emu.intercepted_application_ids.len();
    let mut i: usize = 0;
    while i < n
        invariant
            n == old_ids.len(),
            old_ids == emu.intercepted_application_ids@,
            0 <= i <= n,
            kept@ == ids_without(old_ids.take(i as int), application_id),
        decreases n - i,
    {
        let id = emu.intercepted_application_ids[i];
        if id != application_id {
            kept.push(id);
        }
        proof {
            let s = old_ids.take(i + 1);
            assert(s.drop_last() =~= old_ids.take(i as int));
            assert(s.last() == id);
            reveal_with_fuel(Seq::<_>::filter, 2);
            assert(kept@ =~= ids_without(s, application_id));
        }
        i = i + 1;
    }
    assert(old_ids.take(n as int) =~= old_ids);
    emu.intercepted_application_ids = kept;
}

/// Whether the process `application_id` has an intercepted NFC session.
pub fn is_application_id_intercepted<A>(emu: &EmuState<A>, application_id: u64) -> (r: bool)
    ensures
        r == emu@.intercepted_application_ids.contains(application_id),
{
    let n = emu.intercepted_application_ids.len();
    let mut i: usize = 0;
    while i < n
        invariant
            n == emu@.intercepted_application_ids.len(),
            0 <= i <= n,
            forall|j: int| 0 <= j < i ==> emu@.intercepted_application_ids[j] != application_id,
        decreases n - i,
    {
        if emu.intercepted_application_ids[i] == application_id {
            assert(emu@.intercepted_application_ids[i as int] == application_id);
            return true;
        }
        i = i + 1;
    }
    false
}

pub fn get_active_virtual_amiibo<A>(emu: &EmuState<A>) -> (amiibo: &Option<A>)
    ensures
        *amiibo == emu@.active_virtual_amiibo,
{
    &emu.active_virtual_amiibo
}

/// The status that placing `present` figure gives.
pub open spec fn status_for_figure(present: bool) -> VirtualAmiiboStatus {
    if present {
        VirtualAmiiboStatus::Connected
    } else {
        VirtualAmiiboStatus::Invalid
    }
}

/// The state after placing amiibo `a` (or none): any Skylander is taken off, and
/// the NFC devices see its removal.
pub open spec fn after_set_amiibo<A>(m: EmuModel<A>, a: Option<A>) -> EmuModel<A> {
    let had = m.active_virtual_skylander is Some;
    EmuModel {
        active_virtual_amiibo_status: status_for_figure(a is Some),
        active_virtual_amiibo: a,
        active_virtual_skylander: None,
        mifare: if had { removed_device(m.mifare) } else { m.mifare },
        nfc_user: if had { removed_device(m.nfc_user) } else { m.nfc_user },
        ..m
    }
}

/// The events that placing an amiibo signals: removal on both services when a Skylander was placed.
pub open spec fn notifications_after_set_amiibo<A>(m: EmuModel<A>) -> Notifications {
    let had = m.active_virtual_skylander is Some;
    Notifications {
        mifare: if had { Some(NfcEvent::Deactivate) } else { None },
        nfc_user: if had { Some(NfcEvent::Deactivate) } else { None },
    }
}

/// Places an amiibo (or none); a Skylander that was placed is taken off, and
/// both NFC services are then told that the tag was removed.
pub fn set_active_virtual_amiibo<A>(emu: &mut EmuState<A>, virtual_amiibo: Option<A>) -> (n: Notifications)
    ensures
        figure_consistent(old(emu)@) ==> figure_consistent(final(emu)@),
        final(emu)@ == after_set_amiibo(old(emu)@, virtual_amiibo),
        final(emu)@.mifare.detection_active == old(emu)@.mifare.detection_active,
        final(emu)@.nfc_user.detection_active == old(emu)@.nfc_user.detection_active,
        n == notifications_after_set_amiibo(old(emu)@),
{
    emu.active_virtual_amiibo_status = if virtual_amiibo.is_some() {
        VirtualAmiiboStatus::Connected
    } else {
        VirtualAmiiboStatus::Invalid
    };
    emu.active_virtual_amiibo = virtual_amiibo;
    let had_skylander = emu.active_virtual_skylander.is_some();
    emu.active_virtual_skylander = None;
    if had_skylander {
        let m = nfc::notify_skylander_removed(&mut emu.mifare);
        let u = nfc_user::notify_skylander_removed(&mut emu.nfc_user);
        Notifications { mifare: Some(m), nfc_user: Some(u) }
    } else {
        Notifications { mifare: None, nfc_user: None }
    }
}

pub fn get_active_virtual_skylander<A>(emu: &EmuState<A>) -> (skylander: &Option<Skylander>)
    ensures
        *skylander == emu@.active_virtual_skylander,
{
    &emu.active_virtual_skylander
}

/// The state after placing Skylander `sky` (or none): any amiibo is taken off,
/// and the NFC devices see the tag found or removed.
pub open spec fn after_set_skylander<A>(m: EmuModel<A>, sky: Option<Skylander>) -> EmuModel<A> {
    let present = sky is Some;
    EmuModel {
        active_virtual_amiibo_status: status_for_figure(present),
        active_virtual_amiibo: None,
        active_virtual_skylander: sky,
        mifare: if present { nfc::selected_device(m.mifare) } else { removed_device(m.mifare) },
        nfc_user: if present { detected_device(m.nfc_user) } else { removed_device(m.nfc_user) },
        ..m
    }
}

/// The events that placing a Skylander signals on the two services.
pub open spec fn notifications_after_set_skylander<A>(m: EmuModel<A>, present: bool) -> Notifications {
    Notifications {
        mifare: if present { nfc::selected_event(m.mifare) } else { Some(NfcEvent::Deactivate) },
        nfc_user: if present { Some(NfcEvent::Activate) } else { Some(NfcEvent::Deactivate) },
    }
}

/// Places a Skylander (or none), taking any amiibo off, and tells both NFC
/// services that a tag was found or removed.
pub fn set_active_virtual_skylander<A>(emu: &mut EmuState<A>, skylander: Option<Skylander>) -> (n: Notifications)
    ensures
        figure_consistent(old(emu)@) ==> figure_consistent(final(emu)@),
        final(emu)@ == after_set_skylander(old(emu)@, skylander),
        final(emu)@.mifare.detection_active == old(emu)@.mifare.detection_active,
        final(emu)@.nfc_user.detection_active == old(emu)@.nfc_user.detection_active,
        skylander is Some ==> final(emu)@.mifare.state == DeviceState::TagFound
            && final(emu)@.nfc_user.state == DeviceState::TagFound,
        skylander is None ==> final(emu)@.mifare.state == (if old(emu)@.mifare.detection_active {
            DeviceState::SearchingForTag
        } else {
            DeviceState::Initialized
        }),
        skylander is None ==> final(emu)@.nfc_user.state == (if old(emu)@.nfc_user.detection_active {
            DeviceState::SearchingForTag
        } else {
            DeviceState::Initialized
        }),
        n == notifications_after_set_skylander(old(emu)@, skylander is Some),
{
    let has_skylander = skylander.is_some();
    emu.active_virtual_amiibo_status = if has_skylander {
        VirtualAmiiboStatus::Connected
    } else {
        VirtualAmiiboStatus::Invalid
    };
    emu.active_virtual_skylander = skylander;
    emu.active_virtual_amiibo = None;
    if has_skylander {
        let m = nfc::notify_skylander_selected(&mut emu.mifare);
        let u = nfc_user::notify_skylander_selected(&mut emu.nfc_user);
        Notifications { mifare: m, nfc_user: Some(u) }
    } else {
        let m = nfc::notify_skylander_removed(&mut emu.mifare);
        let u = nfc_user::notify_skylander_removed(&mut emu.nfc_user);
        Notifications { mifare: Some(m), nfc_user: Some(u) }
    }
}

pub fn is_emulation_on<A>(emu: &EmuState<A>) -> (r: bool)
    ensures
        r == (emu@.emulation_status == EmulationStatus::On),
{
    emu.emulation_status == EmulationStatus::On
}

/// The UTF-8 encoding of a concatenation is the concatenation of the encodings.
pub proof fn lemma_encode_utf8_concat(a: Seq<char>, b: Seq<char>)
    ensures
        encode_utf8(a + b) == encode_utf8(a) + encode_utf8(b),
    decreases a.len(),
{
    if a.len() == 0 {
        assert(a + b =~= b);
        assert(encode_utf8(a) + encode_utf8(b) =~= encode_utf8(b));
    } else {
        lemma_encode_utf8_concat(a.drop_first(), b);
        assert((a + b).drop_first() =~= a.drop_first() + b);
        assert((a + b)[0] == a[0]);
        assert(encode_utf8(a + b) =~= encode_utf8(a) + encode_utf8(b));
    }
}

/// The debug log keeps its bound: a log of at most [`DEBUG_LOG_CAPACITY`] bytes
/// stays within it after appending a message of at most half that many bytes,
/// and the appended message is always its end.
pub proof fn lemma_log_stays_bounded(log: Seq<char>, msg: Seq<char>)
    requires
        utf8_bytes(log).len() <= DEBUG_LOG_CAPACITY,
        utf8_bytes(msg).len() <= DEBUG_LOG_CAPACITY / 2,
        log_append_defined(log, msg),
    ensures
        utf8_bytes(log_after_append(log, msg)).len() <= DEBUG_LOG_CAPACITY,
        log_after_append(log, msg).len() >= msg.len(),
        log_after_append(log, msg).subrange(
            log_after_append(log, msg).len() - msg.len(),
            log_after_append(log, msg).len() as int,
        ) == msg,
{
    let b = utf8_bytes(log);
    if log_overflows(log, msg) {
        let sub = b.subrange(log_cut_offset(log), b.len() as int);
        encode_utf8_valid_utf8(log);
        valid_utf8_split(b, log_cut_offset(log));
        decode_utf8_encode_utf8(sub);
        lemma_encode_utf8_concat(decode_utf8(sub), msg);
    } else {
        lemma_encode_utf8_concat(log, msg);
    }
    let r = log_after_append(log, msg);
    assert(r.subrange(r.len() - msg.len(), r.len() as int) =~= msg);
}

/// A registered process is intercepted.
pub proof fn lemma_registered_is_intercepted(ids: Seq<u64>, application_id: u64)
    ensures
        ids.push(application_id).contains(application_id),
{
    assert(ids.push(application_id)[ids.len() as int] == application_id);
}

/// Unregistering a process removes it and keeps every other one.
pub proof fn lemma_unregister_removes_only(ids: Seq<u64>, application_id: u64, other: u64)
    ensures
        !ids_without(ids, application_id).contains(application_id),
        other != application_id ==> (ids_without(ids, application_id).contains(other) <==> ids.contains(other)),
{
    let pred = other_than(application_id);
    let f = ids.filter(pred);
    if f.contains(application_id) {
        let k = choose|k: int| 0 <= k < f.len() && f[k] == application_id;
        ids.lemma_filter_pred(pred, k);
    }
    if other != application_id {
        if f.contains(other) {
            ids.lemma_filter_contains_rev(pred, other);
        }
        if ids.contains(other) {
            let k = choose|k: int| 0 <= k < ids.len() && ids[k] == other;
            ids.lemma_filter_contains(pred, k);
        }
    }
}

/// The persisted flag restores the status it was written for.
pub proof fn lemma_flag_restores_status(status: EmulationStatus)
    ensures
        status_from_flag(flag_for_status(status)) == status,
{
}

/// At most one figure is placed: placing a Skylander takes the amiibo off, and the other way round,
/// and the figure status follows the placed figure.
pub proof fn lemma_one_figure_at_a_time<A>(m: EmuModel<A>, a: Option<A>, sky: Option<Skylander>)
    ensures
        after_set_skylander(m, sky).active_virtual_amiibo is None,
        after_set_amiibo(m, a).active_virtual_skylander is None,
        (after_set_skylander(m, sky).active_virtual_amiibo_status == VirtualAmiiboStatus::Connected)
            <==> sky is Some,
        (after_set_amiibo(m, a).active_virtual_amiibo_status == VirtualAmiiboStatus::Connected)
            <==> a is Some,
{
}

/// Both emulated devices stay in the states the emulation uses.
pub open spec fn devices_wf<A>(m: EmuModel<A>) -> bool {
    m.mifare.wf() && m.nfc_user.wf()
}

/// Placing or removing a figure keeps both devices well formed.
pub proof fn lemma_figure_changes_keep_devices_wf<A>(m: EmuModel<A>, a: Option<A>, sky: Option<Skylander>)
    requires
        devices_wf(m),
    ensures
        devices_wf(after_set_skylander(m, sky)),
        devices_wf(after_set_amiibo(m, a)),
{
}

/// Placing a figure leaves both devices reporting the tag found; taking it off
/// leaves them searching exactly when the game waits for a tag.
pub proof fn lemma_figure_reaches_devices<A>(m: EmuModel<A>, sky: Option<Skylander>)
    ensures
        sky is Some ==> after_set_skylander(m, sky).mifare.state == DeviceState::TagFound
            && after_set_skylander(m, sky).nfc_user.state == DeviceState::TagFound,
        sky is None ==> (after_set_skylander(m, sky).mifare.state == DeviceState::SearchingForTag
            <==> m.mifare.detection_active),
        sky is None ==> (after_set_skylander(m, sky).nfc_user.state == DeviceState::SearchingForTag
            <==> m.nfc_user.detection_active),
{
}

/// The `nfc:mf:u` service signals a placed figure once: placing a second one while
/// the tag is still found signals nothing and changes nothing on that device.
pub proof fn lemma_mifare_selection_signalled_once<A>(m: EmuModel<A>, s1: Skylander, s2: Skylander)
    ensures
        notifications_after_set_skylander(after_set_skylander(m, Some(s1)), true).mifare is None,
        after_set_skylander(after_set_skylander(m, Some(s1)), Some(s2)).mifare
            == after_set_skylander(m, Some(s1)).mifare,
{
}

/// A fresh service is figure-consistent: no device reports a found tag.
pub proof fn lemma_initial_figure_consistent<A>()
    ensures
        figure_consistent(initial_model::<A>()),
{
}

/// Placing or taking off a figure never changes whether the game waits for a tag.
pub proof fn lemma_figure_changes_keep_detection<A>(m: EmuModel<A>, a: Option<A>, sky: Option<Skylander>)
    ensures
        after_set_skylander(m, sky).mifare.detection_active == m.mifare.detection_active,
        after_set_skylander(m, sky).nfc_user.detection_active == m.nfc_user.detection_active,
        after_set_amiibo(m, a).mifare.detection_active == m.mifare.detection_active,
        after_set_amiibo(m, a).nfc_user.detection_active == m.nfc_user.detection_active,
{
}

/// Placing a figure and taking it off again leaves each device searching exactly when
/// the game waits for a tag, and idle otherwise.
pub proof fn lemma_place_then_remove<A>(m: EmuModel<A>, sky: Skylander)
    ensures
        after_set_skylander(after_set_skylander(m, Some(sky)), None).mifare.state == (if m.mifare.detection_active {
            DeviceState::SearchingForTag
        } else {
            DeviceState::Initialized
        }),
        after_set_skylander(after_set_skylander(m, Some(sky)), None).nfc_user.state == (if m.nfc_user.detection_active {
            DeviceState::SearchingForTag
        } else {
            DeviceState::Initialized
        }),
{
}

/// Taking a figure off twice in a row, with a figure placed in between, never starts
/// a search the game did not ask for.
pub proof fn lemma_removals_never_start_detection<A>(m: EmuModel<A>, a: Skylander, b: Skylander)
    requires
        !m.mifare.detection_active,
        !m.nfc_user.detection_active,
    ensures
        ({
            let m4 = after_set_skylander(
                after_set_skylander(after_set_skylander(after_set_skylander(m, Some(a)), None), Some(b)),
                None,
            );
            &&& m4.mifare.state == DeviceState::Initialized && !m4.mifare.detection_active
            &&& m4.nfc_user.state == DeviceState::Initialized && !m4.nfc_user.detection_active
        }),
{
}

/// A placed figure is found on both devices without touching whether the game waits for a tag.
pub proof fn lemma_selection_keeps_detection(d: NfcDevice)
    ensures
        nfc::selected_device(d).state == DeviceState::TagFound,
        nfc::selected_device(d).detection_active == d.detection_active,
        detected_device(d).state == DeviceState::TagFound,
        detected_device(d).detection_active == d.detection_active,
{
}

/// Once the game started detection, taking the figure off (whether or not one was placed
/// when detection started) leaves both devices searching.
pub proof fn lemma_detection_then_removal<A>(m: EmuModel<A>, present: bool)
    ensures
        ({
            let m1 = EmuModel { mifare: detecting_device(present), nfc_user: detecting_device(present), ..m };
            &&& after_set_skylander(m1, None).mifare.state == DeviceState::SearchingForTag
            &&& after_set_skylander(m1, None).nfc_user.state == DeviceState::SearchingForTag
            &&& after_set_skylander(m1, None).mifare.detection_active
            &&& after_set_skylander(m1, None).nfc_user.detection_active
        }),
{
}

} // verus!
