//! The account-control collector: reads seven named values under one
//! registry key.
//!
//! A value that cannot be read is reported as unknown, never guessed, and
//! never fails the scan. The key is closed once every value has been asked
//! for, however many of the reads came back empty.

use vstd::prelude::*;
use crate::protocol::{
    acquisitions,
    follows,
    granted,
    grants,
    is_run,
    lemma_finished_run_is_balanced,
    lemma_winding_down,
    refusal,
    releases,
    Action,
    Event,
    Field,
    Ledger,
    LedgerView,
    Move,
    Platform,
    Resource,
    ScanError,
    UacValue,
};

verus! {

/// Path of the policy key, below the local-machine hive.
pub const UAC_KEY: &'static str = "SOFTWARE\\Microsoft\\Windows\\CurrentVersion\\Policies\\System";

/// The seven values as read; `None` stands for unknown.
#[derive(Clone, Copy, Debug, PartialEq, Eq, Structural)]
pub struct UacValues {
    pub lua_value: Option<u32>,
    pub prompt_level_value: Option<u32>,
    pub prompt_on_secure_desktop_value: Option<u32>,
    pub installer_detection_value: Option<u32>,
    pub validate_admin_code_signatures_value: Option<u32>,
    pub filter_admin_token_value: Option<u32>,
    pub enable_virtualization_value: Option<u32>,
}

/// Where the values came from.
#[derive(Debug)]
pub struct ModuleInfo {
    pub registry_key: String,
    pub queries: Vec<String>,
}

/// The account-control configuration of the host.
#[derive(Debug)]
pub struct UacInfo {
    pub values: UacValues,
    pub module_info: ModuleInfo,
}

/// The name under which the registry stores a value.
pub open spec fn name_of(value: UacValue) -> Seq<char> {
    match value {
        UacValue::EnableLua => "EnableLUA"@,
        UacValue::ConsentPromptBehaviorAdmin => "ConsentPromptBehaviorAdmin"@,
        UacValue::PromptOnSecureDesktop => "PromptOnSecureDesktop"@,
        UacValue::EnableInstallerDetection => "EnableInstallerDetection"@,
        UacValue::ValidateAdminCodeSignatures => "ValidateAdminCodeSignatures"@,
        UacValue::FilterAdministratorToken => "FilterAdministratorToken"@,
        UacValue::EnableVirtualization => "EnableVirtualization"@,
    }
}

/// Exec counterpart of [`name_of`].
pub fn value_name(value: UacValue) -> (name: &'static str)
    ensures
        name@ == name_of(value),
{
    match value {
        UacValue::EnableLua => "EnableLUA",
        UacValue::ConsentPromptBehaviorAdmin => "ConsentPromptBehaviorAdmin",
        UacValue::PromptOnSecureDesktop => "PromptOnSecureDesktop",
        UacValue::EnableInstallerDetection => "EnableInstallerDetection",
        UacValue::ValidateAdminCodeSignatures => "ValidateAdminCodeSignatures",
        UacValue::FilterAdministratorToken => "FilterAdministratorToken",
        UacValue::EnableVirtualization => "EnableVirtualization",
    }
}

/// The value that is read after `value`, if any.
pub open spec fn successor(value: UacValue) -> Option<UacValue> {
    match value {
        UacValue::EnableLua => Some(UacValue::ConsentPromptBehaviorAdmin),
        UacValue::ConsentPromptBehaviorAdmin => Some(UacValue::PromptOnSecureDesktop),
        UacValue::PromptOnSecureDesktop => Some(UacValue::EnableInstallerDetection),
        UacValue::EnableInstallerDetection => Some(UacValue::ValidateAdminCodeSignatures),
        UacValue::ValidateAdminCodeSignatures => Some(UacValue::FilterAdministratorToken),
        UacValue::FilterAdministratorToken => Some(UacValue::EnableVirtualization),
        UacValue::EnableVirtualization => None,
    }
}

/// Exec counterpart of [`successor`].
pub fn next_value(value: UacValue) -> (next: Option<UacValue>)
    ensures
        next == successor(value),
{
    match value {
        UacValue::EnableLua => Some(UacValue::ConsentPromptBehaviorAdmin),
        UacValue::ConsentPromptBehaviorAdmin => Some(UacValue::PromptOnSecureDesktop),
        UacValue::PromptOnSecureDesktop => Some(UacValue::EnableInstallerDetection),
        UacValue::EnableInstallerDetection => Some(UacValue::ValidateAdminCodeSignatures),
        UacValue::ValidateAdminCodeSignatures => Some(UacValue::FilterAdministratorToken),
        UacValue::FilterAdministratorToken => Some(UacValue::EnableVirtualization),
        UacValue::EnableVirtualization => None,
    }
}

/// The names of the seven values in the order in which they are read.
pub open spec fn queried_names() -> Seq<Seq<char>> {
    seq![
        name_of(UacValue::EnableLua),
        name_of(UacValue::ConsentPromptBehaviorAdmin),
        name_of(UacValue::PromptOnSecureDesktop),
        name_of(UacValue::EnableInstallerDetection),
        name_of(UacValue::ValidateAdminCodeSignatures),
        name_of(UacValue::FilterAdministratorToken),
        name_of(UacValue::EnableVirtualization),
    ]
}

/// What the answer to the read of a value says, if it is an answer to a
/// read at all: the number, or "unknown" where the value does not exist or
/// the read failed.
pub open spec fn observed(event: Event) -> Option<Option<u32>> {
    match event {
        Event::Word(number) => Some(Some(number)),
        Event::Missing => Some(None),
        Event::Failed(_) => Some(None),
        _ => None,
    }
}

/// Exec counterpart of [`observed`].
pub fn observe(event: &Event) -> (reading: Option<Option<u32>>)
    ensures
        reading == observed(*event),
{
    match event {
        Event::Word(number) => Some(Some(*number)),
        Event::Missing => Some(None),
        Event::Failed(_) => Some(None),
        _ => None,
    }
}

impl UacValues {
    /// The configuration of which nothing is known yet.
    pub open spec fn unknown() -> UacValues {
        UacValues {
            lua_value: None,
            prompt_level_value: None,
            prompt_on_secure_desktop_value: None,
            installer_detection_value: None,
            validate_admin_code_signatures_value: None,
            filter_admin_token_value: None,
            enable_virtualization_value: None,
        }
    }

    /// The configuration of which nothing is known yet.
    pub fn new() -> (values: UacValues)
        ensures
            values == UacValues::unknown(),
    {
        UacValues {
            lua_value: None,
            prompt_level_value: None,
            prompt_on_secure_desktop_value: None,
            installer_detection_value: None,
            validate_admin_code_signatures_value: None,
            filter_admin_token_value: None,
            enable_virtualization_value: None,
        }
    }

    /// The configuration with one value replaced.
    pub open spec fn with(self, value: UacValue, reading: Option<u32>) -> UacValues {
        match value {
            UacValue::EnableLua => UacValues { lua_value: reading, ..self },
            UacValue::ConsentPromptBehaviorAdmin => UacValues {
                prompt_level_value: reading,
                ..self
            },
            UacValue::PromptOnSecureDesktop => UacValues {
                prompt_on_secure_desktop_value: reading,
                ..self
            },
            UacValue::EnableInstallerDetection => UacValues {
                installer_detection_value: reading,
                ..self
            },
            UacValue::ValidateAdminCodeSignatures => UacValues {
                validate_admin_code_signatures_value: reading,
                ..self
            },
            UacValue::FilterAdministratorToken => UacValues {
                filter_admin_token_value: reading,
                ..self
            },
            UacValue::EnableVirtualization => UacValues {
                enable_virtualization_value: reading,
                ..self
            },
        }
    }

    /// Replaces one value.
    pub fn set(&mut self, value: UacValue, reading: Option<u32>)
        ensures
            *final(self) == old(self).with(value, reading),
    {
        match value {
            UacValue::EnableLua => {
                self.lua_value = reading;
            },
            UacValue::ConsentPromptBehaviorAdmin => {
                self.prompt_level_value = reading;
            },
            UacValue::PromptOnSecureDesktop => {
                self.prompt_on_secure_desktop_value = reading;
            },
            UacValue::EnableInstallerDetection => {
                self.installer_detection_value = reading;
            },
            UacValue::ValidateAdminCodeSignatures => {
                self.validate_admin_code_signatures_value = reading;
            },
            UacValue::FilterAdministratorToken => {
                self.filter_admin_token_value = reading;
            },
            UacValue::EnableVirtualization => {
                self.enable_virtualization_value = reading;
            },
        }
    }

    /// The value stored under `value`.
    pub open spec fn of(self, value: UacValue) -> Option<u32> {
        match value {
            UacValue::EnableLua => self.lua_value,
            UacValue::ConsentPromptBehaviorAdmin => self.prompt_level_value,
            UacValue::PromptOnSecureDesktop => self.prompt_on_secure_desktop_value,
            UacValue::EnableInstallerDetection => self.installer_detection_value,
            UacValue::ValidateAdminCodeSignatures => self.validate_admin_code_signatures_value,
            UacValue::FilterAdministratorToken => self.filter_admin_token_value,
            UacValue::EnableVirtualization => self.enable_virtualization_value,
        }
    }

    /// The value stored under `value`.
    pub fn get(&self, value: UacValue) -> (reading: Option<u32>)
        ensures
            reading == self.of(value),
    {
        match value {
            UacValue::EnableLua => self.lua_value,
            UacValue::ConsentPromptBehaviorAdmin => self.prompt_level_value,
            UacValue::PromptOnSecureDesktop => self.prompt_on_secure_desktop_value,
            UacValue::EnableInstallerDetection => self.installer_detection_value,
            UacValue::ValidateAdminCodeSignatures => self.validate_admin_code_signatures_value,
            UacValue::FilterAdministratorToken => self.filter_admin_token_value,
            UacValue::EnableVirtualization => self.enable_virtualization_value,
        }
    }
}

/// An account-control scan in progress.
#[derive(Debug)]
pub struct UacScan {
    ledger: Ledger,
    values: UacValues,
}

/// Mathematical model of a [`UacScan`].
pub struct UacScanView {
    pub ledger: LedgerView,
    pub values: UacValues,
}

impl View for UacScan {
    type V = UacScanView;

    closed spec fn view(&self) -> UacScanView {
        UacScanView { ledger: self.ledger@, values: self.values }
    }
}

impl UacScanView {
    /// The scan before the first answer: the key is to be opened, or, on a
    /// host that cannot be scanned, the scan is over at once.
    pub open spec fn begin(platform: Platform) -> UacScanView {
        UacScanView {
            ledger: if platform == Platform::Windows {
                LedgerView::begin(Action::Acquire(Resource::Key))
            } else {
                LedgerView::refuse(ScanError::NotWindows)
            },
            values: UacValues::unknown(),
        }
    }

    /// The scan that answers `event` by failing.
    pub open spec fn failed(self, event: Event) -> UacScanView {
        UacScanView {
            ledger: self.ledger.absorb(event).fail(refusal(self.ledger.pending, event)),
            ..self
        }
    }

    /// The answer to the request for the key: once it is open the first
    /// value is read; a key that cannot be opened fails the scan.
    pub open spec fn on_key(self, event: Event) -> UacScanView {
        if grants(self.ledger.pending, event) is Some {
            UacScanView {
                ledger: self.ledger.absorb(event).request(
                    Action::Read(Field::Registry(UacValue::EnableLua)),
                ),
                ..self
            }
        } else {
            self.failed(event)
        }
    }

    /// The answer to the read of a value: what was read is recorded, as
    /// unknown where nothing was, and the next value is asked for; after the
    /// last one the scan winds down.
    pub open spec fn on_value(self, value: UacValue, event: Event) -> UacScanView {
        let ledger = self.ledger.absorb(event);
        match observed(event) {
            Some(reading) => UacScanView {
                ledger: match successor(value) {
                    Some(next) => ledger.request(Action::Read(Field::Registry(next))),
                    None => ledger.close(),
                },
                values: self.values.with(value, reading),
            },
            None => self.failed(event),
        }
    }

    /// The scan after the caller has answered the pending action with `event`.
    pub open spec fn next(self, event: Event) -> UacScanView {
        if self.ledger.closing {
            UacScanView { ledger: self.ledger.absorb(event).release_next(), ..self }
        } else {
            match self.ledger.pending {
                Action::Acquire(Resource::Key) => self.on_key(event),
                Action::Read(Field::Registry(value)) => self.on_value(value, event),
                _ => self.failed(event),
            }
        }
    }

    /// The scan after the caller has given all of `events`, in order.
    pub open spec fn after(self, events: Seq<Event>) -> UacScanView
        decreases events.len(),
    {
        if events.len() == 0 {
            self
        } else {
            self.after(events.drop_last()).next(events.last())
        }
    }

    /// The ledgers the scan goes through while it is given `events`.
    pub open spec fn ledgers(self, events: Seq<Event>) -> Seq<LedgerView> {
        Seq::new((events.len() + 1) as nat, |i: int| self.after(events.take(i)).ledger)
    }

    /// What the scan returns: the first failure if there was one, the values
    /// if the scan is over, and a protocol error for a scan that is still
    /// under way.
    pub open spec fn outcome(self) -> Result<UacValues, ScanError> {
        match self.ledger.failure {
            Some(error) => Err(error),
            None => if self.ledger.finished() {
                Ok(self.values)
            } else {
                Err(ScanError::Protocol(self.ledger.pending))
            },
        }
    }
}

/// The texts of a list of strings, in order.
pub open spec fn texts(strings: Seq<String>) -> Seq<Seq<char>> {
    strings.map_values(|s: String| s@)
}

/// Model of what the collector returns.
pub open spec fn info_view(r: Result<UacInfo, ScanError>) -> Result<
    (UacValues, Seq<char>, Seq<Seq<char>>),
    ScanError,
> {
    match r {
        Ok(info) => Ok(
            (info.values, info.module_info.registry_key@, texts(info.module_info.queries@)),
        ),
        Err(error) => Err(error),
    }
}

/// The names of the seven values, in the order in which they are read.
pub fn queries() -> (names: Vec<String>)
    ensures
        texts(names@) == queried_names(),
{
    let mut names: Vec<String> = Vec::new();
    names.push(value_name(UacValue::EnableLua).to_string());
    names.push(value_name(UacValue::ConsentPromptBehaviorAdmin).to_string());
    names.push(value_name(UacValue::PromptOnSecureDesktop).to_string());
    names.push(value_name(UacValue::EnableInstallerDetection).to_string());
    names.push(value_name(UacValue::ValidateAdminCodeSignatures).to_string());
    names.push(value_name(UacValue::FilterAdministratorToken).to_string());
    names.push(value_name(UacValue::EnableVirtualization).to_string());
    assert(texts(names@) =~= queried_names());
    names
}

impl UacScan {
    /// The action that the caller has to answer next.
    pub fn pending(&self) -> (action: Action)
        ensures
            action == self@.ledger.pending,
    {
        self.ledger.pending()
    }

    /// The bookkeeping of the scan.
    pub fn ledger(&self) -> (ledger: &Ledger)
        ensures
            ledger@ == self@.ledger,
    {
        &self.ledger
    }

    fn step_key(&mut self, event: Event) -> (action: Action)
        ensures
            final(self)@ == old(self)@.on_key(event),
            action == final(self)@.ledger.pending,
    {
        let step = match granted(self.ledger.pending(), &event) {
            Some(_) => Move::Ask(Action::Read(Field::Registry(UacValue::EnableLua))),
            None => Move::Fail,
        };
        self.ledger.make(&event, step)
    }

    fn step_value(&mut self, value: UacValue, event: Event) -> (action: Action)
        ensures
            final(self)@ == old(self)@.on_value(value, event),
            action == final(self)@.ledger.pending,
    {
        match observe(&event) {
            Some(reading) => {
                self.values.set(value, reading);
                let step = match next_value(value) {
                    Some(next) => Move::Ask(Action::Read(Field::Registry(next))),
                    None => Move::WindDown,
                };
                self.ledger.make(&event, step)
            },
            None => self.ledger.make(&event, Move::Fail),
        }
    }

    /// Takes the caller's answer to the pending action and says what to do
    /// next.
    pub fn step(&mut self, event: Event) -> (action: Action)
        ensures
            final(self)@ == old(self)@.next(event),
            action == final(self)@.ledger.pending,
    {
        if self.ledger.is_closing() {
            return self.ledger.make(&event, Move::GiveBack);
        }
        match self.ledger.pending() {
            Action::Acquire(Resource::Key) => self.step_key(event),
            Action::Read(Field::Registry(value)) => self.step_value(value, event),
            _ => self.ledger.make(&event, Move::Fail),
        }
    }

    /// Ends the scan and hands out the configuration it read.
    pub fn finish(self) -> (r: Result<UacInfo, ScanError>)
        ensures
            info_view(r) == (match self@.outcome() {
                Ok(values) => Ok((values, UAC_KEY@, queried_names())),
                Err(error) => Err(error),
            }),
    {
        match self.ledger.failure() {
            Some(error) => Err(error),
            None => match self.ledger.pending() {
                Action::Finish => Ok(
                    UacInfo {
                        values: self.values,
                        module_info: ModuleInfo {
                            registry_key: UAC_KEY.to_string(),
                            queries: queries(),
                        },
                    },
                ),
                pending => Err(ScanError::Protocol(pending)),
            },
        }
    }
}

/// Begins a scan of the account-control configuration. The scan asks for the
/// registry key first; on a host other than Windows it is over at once with
/// [`ScanError::NotWindows`] and asks for nothing.
pub fn scan_uac(platform: Platform) -> (scan: UacScan)
    ensures
        scan@ == UacScanView::begin(platform),
{
    let ledger = match platform {
        Platform::Windows => Ledger::begin(Action::Acquire(Resource::Key)),
        Platform::Other => Ledger::refuse(ScanError::NotWindows),
    };
    UacScan { ledger, values: UacValues::new() }
}

/// Every step of a scan is honest bookkeeping.
pub proof fn lemma_step_follows(scan: UacScanView, event: Event)
    ensures
        follows(scan.ledger, event, scan.next(event).ledger),
{
}

/// The ledgers of a scan form a run, whatever the caller answers.
pub proof fn lemma_scan_is_run(platform: Platform, events: Seq<Event>)
    ensures
        is_run(UacScanView::begin(platform).ledgers(events), events),
{
    let start = UacScanView::begin(platform);
    let ledgers = start.ledgers(events);
    assert(events.take(0) =~= Seq::empty());
    assert forall|i: int| 0 <= i < events.len() implies follows(
        #[trigger] ledgers[i],
        events[i],
        ledgers[i + 1],
    ) by {
        let before = start.after(events.take(i));
        assert(events.take(i + 1).drop_last() =~= events.take(i));
        assert(events.take(i + 1).last() == events[i]);
        lemma_step_follows(before, events[i]);
    }
}

/// A scan that has come to its end has closed the key exactly as often as it
/// opened it, whether it succeeded or failed and whatever the caller answered
/// on the way.
pub proof fn lemma_finished_scan_is_balanced(platform: Platform, events: Seq<Event>)
    requires
        UacScanView::begin(platform).after(events).ledger.finished(),
    ensures
        acquisitions(UacScanView::begin(platform).ledgers(events), events, events.len())
            == releases(UacScanView::begin(platform).ledgers(events), events.len()),
{
    lemma_scan_is_run(platform, events);
    assert(events.take(events.len() as int) =~= events);
    lemma_finished_run_is_balanced(UacScanView::begin(platform).ledgers(events), events);
}

/// Once the key is open, the scan succeeds whatever the seven reads return,
/// and each answer ends up under the value it was asked for: the number
/// where one was read, unknown where the value was missing or the read
/// failed.
pub proof fn lemma_reads_never_fail(scan: UacScanView, value: UacValue, event: Event)
    requires
        scan.ledger.pending == Action::Read(Field::Registry(value)),
        !scan.ledger.closing,
        scan.ledger.failure is None,
        observed(event) is Some,
    ensures
        scan.next(event).ledger.failure is None,
        scan.next(event).values.of(value) == observed(event).unwrap(),
        forall|other: UacValue|
            other != value ==> scan.next(event).values.of(other) == scan.values.of(other),
        match successor(value) {
            Some(next) => scan.next(event).ledger.pending == Action::Read(Field::Registry(next)),
            None => scan.next(event).ledger.closing,
        },
{
}

/// The name of a switch value in reports.
pub open spec fn switch_label(state: u32) -> Seq<char> {
    if state == 0 {
        "Disabled"@
    } else if state == 1 {
        "Enabled"@
    } else {
        "Unknown"@
    }
}

/// Names the state that a switch value stands for.
pub fn uac_decode(state: u32) -> (label: String)
    ensures
        label@ == switch_label(state),
{
    if state == 0 {
        "Disabled".to_string()
    } else if state == 1 {
        "Enabled".to_string()
    } else {
        "Unknown".to_string()
    }
}

/// Names the state of a switch that may not have been read.
pub fn describe(reading: Option<u32>) -> (label: String)
    ensures
        label@ == (match reading {
            Some(state) => switch_label(state),
            None => "Unknown"@,
        }),
{
    match reading {
        Some(state) => uac_decode(state),
        None => "Unknown".to_string(),
    }
}

/// The description of a prompt level.
pub open spec fn prompt_label(level: u32) -> Seq<char> {
    if level == 0 {
        "Never notify (Least Secure)"@
    } else if level == 1 {
        "Prompt for credentials on secure desktop"@
    } else if level == 2 {
        "Prompt for consent on secure desktop"@
    } else if level == 3 {
        "Prompt for credentials"@
    } else if level == 4 {
        "Prompt for consent"@
    } else if level == 5 {
        "Prompt for consent for non-Windows binaries (Most Secure, Default)"@
    } else {
        "Unknown configuration"@
    }
}

/// Describes how administrators are prompted at a prompt level.
pub fn decode_prompt_level(level: u32) -> (label: &'static str)
    ensures
        label@ == prompt_label(level),
{
    if level == 0 {
        "Never notify (Least Secure)"
    } else if level == 1 {
        "Prompt for credentials on secure desktop"
    } else if level == 2 {
        "Prompt for consent on secure desktop"
    } else if level == 3 {
        "Prompt for credentials"
    } else if level == 4 {
        "Prompt for consent"
    } else if level == 5 {
        "Prompt for consent for non-Windows binaries (Most Secure, Default)"
    } else {
        "Unknown configuration"
    }
}

/// What the configuration amounts to.
#[derive(Clone, Copy, Debug, PartialEq, Eq, Structural)]
pub enum UacVerdict {
    /// Whether account control is on could not be read.
    Unknown,
    /// Account control is off: every program runs with full privileges.
    Disabled,
    /// Account control is on but never prompts.
    NeverNotifies,
    Enabled,
}

/// Hardening switches that are known to be off.
#[derive(Clone, Copy, Debug, PartialEq, Eq, Structural)]
pub struct Weaknesses {
    pub secure_desktop_off: bool,
    pub installer_detection_off: bool,
    pub signature_validation_off: bool,
    pub virtualization_off: bool,
}

/// The verdict on a configuration: off when the enable flag is zero; on but
/// ineffective when the prompt level is zero; unknown when the enable flag
/// was not read.
pub open spec fn verdict_of(values: UacValues) -> UacVerdict {
    match values.lua_value {
        None => UacVerdict::Unknown,
        Some(lua) => if lua == 0 {
            UacVerdict::Disabled
        } else if values.prompt_level_value == Some(0u32) {
            UacVerdict::NeverNotifies
        } else {
            UacVerdict::Enabled
        },
    }
}

/// The weaknesses of a configuration: a switch counts as off only when it
/// was read as zero, never when it is unknown.
pub open spec fn weaknesses_of(values: UacValues) -> Weaknesses {
    Weaknesses {
        secure_desktop_off: values.prompt_on_secure_desktop_value == Some(0u32),
        installer_detection_off: values.installer_detection_value == Some(0u32),
        signature_validation_off: values.validate_admin_code_signatures_value == Some(0u32),
        virtualization_off: values.enable_virtualization_value == Some(0u32),
    }
}

fn is_zero(reading: Option<u32>) -> (zero: bool)
    ensures
        zero == (reading == Some(0u32)),
{
    match reading {
        Some(state) => state == 0,
        None => false,
    }
}

/// The enable flag, for an audit to which it is mandatory: the number that
/// was read, or a query error where the flag is unknown.
pub fn require_enable_flag(values: &UacValues) -> (r: Result<u32, ScanError>)
    ensures
        r == (match values.lua_value {
            Some(flag) => Ok::<u32, ScanError>(flag),
            None => Err::<u32, ScanError>(
                ScanError::Query(Field::Registry(UacValue::EnableLua), 2),
            ),
        }),
{
    match values.lua_value {
        Some(flag) => Ok(flag),
        None => Err(ScanError::Query(Field::Registry(UacValue::EnableLua), 2)),
    }
}

/// Judges whether account control protects the host.
pub fn assess_uac(values: &UacValues) -> (verdict: UacVerdict)
    ensures
        verdict == verdict_of(*values),
{
    match values.lua_value {
        None => UacVerdict::Unknown,
        Some(lua) => {
            if lua == 0 {
                UacVerdict::Disabled
            } else if is_zero(values.prompt_level_value) {
                UacVerdict::NeverNotifies
            } else {
                UacVerdict::Enabled
            }
        },
    }
}

/// Lists the hardening switches that are off.
pub fn find_weaknesses(values: &UacValues) -> (weak: Weaknesses)
    ensures
        weak == weaknesses_of(*values),
{
    Weaknesses {
        secure_desktop_off: is_zero(values.prompt_on_secure_desktop_value),
        installer_detection_off: is_zero(values.installer_detection_value),
        signature_validation_off: is_zero(values.validate_admin_code_signatures_value),
        virtualization_off: is_zero(values.enable_virtualization_value),
    }
}

/// While it winds down, a scan does nothing but give back what it
/// holds: its ledger is the one that unwinding alone leads to, so the scan
/// is over after one answer per resource held and one more.
pub proof fn lemma_winding_down_is_unwinding(scan: UacScanView, events: Seq<Event>)
    requires
        scan.ledger.winding_down(),
    ensures
        scan.after(events).ledger == scan.ledger.unwound(events),
        events.len() > scan.ledger.held.len() ==> scan.after(events).ledger.finished(),
    decreases events.len(),
{
    lemma_winding_down(scan.ledger, events);
    if events.len() > 0 {
        lemma_winding_down_is_unwinding(scan, events.drop_last());
        lemma_winding_down(scan.ledger, events.drop_last());
    }
}

/// Whatever the caller answers, a scan that has begun to wind down
/// has told the caller so.
pub proof fn lemma_scan_is_coherent(platform: Platform, events: Seq<Event>)
    ensures
        UacScanView::begin(platform).after(events).ledger.coherent(),
    decreases events.len(),
{
    if events.len() > 0 {
        lemma_scan_is_coherent(platform, events.drop_last());
    }
}

impl UacScanView {
    /// A scan that is not winding down either waits for the key and holds
    /// nothing, or holds the key and waits for a value; a scan that is
    /// winding down has told the caller so and holds at most the key.
    pub open spec fn shaped(self) -> bool {
        &&& self.ledger.held.len() <= 1
        &&& self.ledger.held.len() == 1 ==> self.ledger.held[0] == Resource::Key
        &&& self.ledger.closing ==> self.ledger.winding_down()
        &&& !self.ledger.closing ==> match self.ledger.pending {
            Action::Acquire(Resource::Key) => self.ledger.held.len() == 0,
            Action::Read(Field::Registry(_)) => self.ledger.held.len() == 1,
            _ => false,
        }
    }
}

/// One answer leaves a scan in shape.
pub proof fn lemma_step_keeps_shape(scan: UacScanView, event: Event)
    requires
        scan.shaped(),
    ensures
        scan.next(event).shaped(),
{
    reveal(grants);
}

/// Whatever the caller answers, a scan stays in shape: a value is asked for
/// only while the key is open.
pub proof fn lemma_scan_is_shaped(platform: Platform, events: Seq<Event>)
    ensures
        UacScanView::begin(platform).after(events).shaped(),
    decreases events.len(),
{
    if events.len() > 0 {
        lemma_scan_is_shaped(platform, events.drop_last());
        lemma_step_keeps_shape(UacScanView::begin(platform).after(events.drop_last()), events.last());
    }
}

/// With the key open the scan succeeds whatever the seven reads return:
/// each value is the number that was read, or unknown where the value was
/// missing or its read failed, and the key is closed after the seventh.
pub proof fn lemma_open_key_means_success(
    lua: Event,
    prompt: Event,
    desktop: Event,
    installer: Event,
    signatures: Event,
    token: Event,
    virtualization: Event,
    closed: Event,
)
    requires
        observed(lua) is Some,
        observed(prompt) is Some,
        observed(desktop) is Some,
        observed(installer) is Some,
        observed(signatures) is Some,
        observed(token) is Some,
        observed(virtualization) is Some,
    ensures
        ({
            let read = UacScanView::begin(Platform::Windows).next(
                Event::Opened(crate::protocol::ERROR_SUCCESS),
            ).next(lua).next(prompt).next(desktop).next(installer).next(signatures).next(
                token,
            ).next(virtualization);
            &&& read.ledger.pending == Action::Release(Resource::Key)
            &&& read.next(closed).outcome() == Ok::<UacValues, ScanError>(
                UacValues {
                    lua_value: observed(lua).unwrap(),
                    prompt_level_value: observed(prompt).unwrap(),
                    prompt_on_secure_desktop_value: observed(desktop).unwrap(),
                    installer_detection_value: observed(installer).unwrap(),
                    validate_admin_code_signatures_value: observed(signatures).unwrap(),
                    filter_admin_token_value: observed(token).unwrap(),
                    enable_virtualization_value: observed(virtualization).unwrap(),
                },
            )
        }),
{
    reveal(grants);
    let opened = UacScanView::begin(Platform::Windows).next(
        Event::Opened(crate::protocol::ERROR_SUCCESS),
    );
    assert(opened.ledger.held.len() == 1);
    let s1 = opened.next(lua);
    let s2 = s1.next(prompt);
    let s3 = s2.next(desktop);
    let s4 = s3.next(installer);
    let s5 = s4.next(signatures);
    let s6 = s5.next(token);
    assert(s6.ledger.pending == Action::Read(Field::Registry(UacValue::EnableVirtualization)));
    assert(s6.ledger.held.len() == 1);
    let s7 = s6.next(virtualization);
    assert(s7.ledger.held.len() == 0);
}

} // verus!
