//! Status of the built-in antimalware product, decided from registry reads.
//!
//! The caller opens the keys and reads the values; the functions here say
//! what each outcome means. On a host without a registry every check fails
//! fast with [`DefenderError::NotWindows`].

use vstd::prelude::*;

verus! {

/// Why the registry refused to open a key or to hand out a value.
#[derive(Debug)]
pub struct RegistryFailure {
    /// The key or value does not exist.
    pub not_found: bool,
    /// The system's description of the failure.
    pub message: String,
}

/// What came of opening a registry key: the host has no registry, the key
/// could not be opened, or it was opened and `T` was read through it.
#[derive(Debug)]
pub enum KeyProbe<T> {
    NotWindows,
    Failed(RegistryFailure),
    Opened(T),
}

/// Why a check could not be answered.
#[derive(Debug)]
pub enum DefenderError {
    RegistryAccess(RegistryFailure),
    ValueNotFound(String),
    NotWindows,
}

/// The answers of the five checks.
#[derive(Debug)]
pub struct DefenderStatus {
    pub installed: bool,
    pub enabled: bool,
    pub real_time_protection: bool,
    pub signature_version: Option<String>,
    pub signature_last_updated: Option<String>,
}

/// Registry path of the product's root key, below the local-machine hive.
pub const DEFENDER_KEY: &'static str = "SOFTWARE\\Microsoft\\Windows Defender";

/// Registry path of the key that describes the installed signatures.
pub const SIGNATURE_KEY: &'static str = "SOFTWARE\\Microsoft\\Windows Defender\\Signature Updates";

/// Registry path of the key that configures real-time protection.
pub const REAL_TIME_KEY: &'static str = "SOFTWARE\\Microsoft\\Windows Defender\\Real-Time Protection";

/// Name of the switch under [`DEFENDER_KEY`] that turns the product off.
pub const DISABLE_ANTISPYWARE: &'static str = "DisableAntiSpyware";

/// Name of the switch under [`REAL_TIME_KEY`] that turns real-time
/// monitoring off.
pub const DISABLE_REALTIME_MONITORING: &'static str = "DisableRealtimeMonitoring";

/// Preferred name of the value that holds the signature version.
pub const SIGNATURE_VERSION: &'static str = "ASSignatureVersion";

/// Name under which older installations store the signature version.
pub const SIGNATURE_VERSION_ALTERNATE: &'static str = "SignatureVersion";

/// Preferred name of the value that holds the time of the last signature update.
pub const SIGNATURE_TIME: &'static str = "SignatureUpdateTime";

/// Name under which older installations store the time of the last update.
pub const SIGNATURE_TIME_ALTERNATE: &'static str = "ASSignatureAppliedTime";

/// Mathematical model of a [`RegistryFailure`].
pub struct FailureView {
    pub not_found: bool,
    pub message: Seq<char>,
}

impl View for RegistryFailure {
    type V = FailureView;

    open spec fn view(&self) -> FailureView {
        FailureView { not_found: self.not_found, message: self.message@ }
    }
}

/// Mathematical model of a [`DefenderError`].
pub enum ErrorView {
    RegistryAccess(FailureView),
    ValueNotFound(Seq<char>),
    NotWindows,
}

impl View for DefenderError {
    type V = ErrorView;

    open spec fn view(&self) -> ErrorView {
        match self {
            DefenderError::RegistryAccess(failure) => ErrorView::RegistryAccess(failure@),
            DefenderError::ValueNotFound(what) => ErrorView::ValueNotFound(what@),
            DefenderError::NotWindows => ErrorView::NotWindows,
        }
    }
}

/// Model of a check that answers yes or no.
pub open spec fn flag_view(r: Result<bool, DefenderError>) -> Result<bool, ErrorView> {
    match r {
        Ok(flag) => Ok(flag),
        Err(e) => Err(e@),
    }
}

/// Model of a check that answers with a text.
pub open spec fn text_view(r: Result<String, DefenderError>) -> Result<Seq<char>, ErrorView> {
    match r {
        Ok(text) => Ok(text@),
        Err(e) => Err(e@),
    }
}

/// The product counts as installed exactly when its root key can be opened;
/// a key that does not exist means "not installed", any other failure is an
/// error.
pub open spec fn installed_outcome(key: KeyProbe<()>) -> Result<bool, ErrorView> {
    match key {
        KeyProbe::NotWindows => Err(ErrorView::NotWindows),
        KeyProbe::Opened(_) => Ok(true),
        KeyProbe::Failed(failure) => if failure.not_found {
            Ok(false)
        } else {
            Err(ErrorView::RegistryAccess(failure@))
        },
    }
}

/// Decides from the attempt to open [`DEFENDER_KEY`] whether the product is
/// installed.
pub fn is_defender_installed(key: KeyProbe<()>) -> (r: Result<bool, DefenderError>)
    ensures
        flag_view(r) == installed_outcome(key),
{
    match key {
        KeyProbe::NotWindows => Err(DefenderError::NotWindows),
        KeyProbe::Opened(_) => Ok(true),
        KeyProbe::Failed(failure) => {
            if failure.not_found {
                Ok(false)
            } else {
                Err(DefenderError::RegistryAccess(failure))
            }
        },
    }
}

/// A "disable" switch read through an opened key: the feature is on when the
/// switch is zero or absent, off for any other value. Failing to open the key
/// is always an error.
pub open spec fn switch_outcome(probe: KeyProbe<Result<u32, RegistryFailure>>) -> Result<
    bool,
    ErrorView,
> {
    match probe {
        KeyProbe::NotWindows => Err(ErrorView::NotWindows),
        KeyProbe::Failed(failure) => Err(ErrorView::RegistryAccess(failure@)),
        KeyProbe::Opened(Ok(value)) => Ok(value == 0),
        KeyProbe::Opened(Err(failure)) => if failure.not_found {
            Ok(true)
        } else {
            Err(ErrorView::RegistryAccess(failure@))
        },
    }
}

fn decide_switch(probe: KeyProbe<Result<u32, RegistryFailure>>) -> (r: Result<bool, DefenderError>)
    ensures
        flag_view(r) == switch_outcome(probe),
{
    match probe {
        KeyProbe::NotWindows => Err(DefenderError::NotWindows),
        KeyProbe::Failed(failure) => Err(DefenderError::RegistryAccess(failure)),
        KeyProbe::Opened(Ok(value)) => Ok(value == 0),
        KeyProbe::Opened(Err(failure)) => {
            if failure.not_found {
                Ok(true)
            } else {
                Err(DefenderError::RegistryAccess(failure))
            }
        },
    }
}

/// Decides from the `DisableAntiSpyware` value under [`DEFENDER_KEY`] whether
/// the product is enabled.
pub fn is_defender_enabled(probe: KeyProbe<Result<u32, RegistryFailure>>) -> (r: Result<
    bool,
    DefenderError,
>)
    ensures
        flag_view(r) == switch_outcome(probe),
{
    decide_switch(probe)
}

/// Real-time protection: a missing key means it is off; with the key open the
/// `DisableRealtimeMonitoring` switch decides.
pub open spec fn real_time_outcome(probe: KeyProbe<Result<u32, RegistryFailure>>) -> Result<
    bool,
    ErrorView,
> {
    match probe {
        KeyProbe::Failed(failure) => if failure.not_found {
            Ok(false)
        } else {
            Err(ErrorView::RegistryAccess(failure@))
        },
        _ => switch_outcome(probe),
    }
}

/// Decides from the `DisableRealtimeMonitoring` value under
/// [`REAL_TIME_KEY`] whether real-time protection is on.
pub fn is_real_time_protection_enabled(probe: KeyProbe<Result<u32, RegistryFailure>>) -> (r:
    Result<bool, DefenderError>)
    ensures
        flag_view(r) == real_time_outcome(probe),
{
    match probe {
        KeyProbe::Failed(failure) => {
            if failure.not_found {
                Ok(false)
            } else {
                Err(DefenderError::RegistryAccess(failure))
            }
        },
        other => decide_switch(other),
    }
}

/// A text stored under one of two names: the preferred value wins; when it
/// does not exist the alternate is taken; when that cannot be read either the
/// text counts as not found under the label `what`. Any other failure of the
/// preferred read, or of opening the key, is an access error.
pub open spec fn text_outcome(
    probe: KeyProbe<(Result<String, RegistryFailure>, Result<String, RegistryFailure>)>,
    what: Seq<char>,
) -> Result<Seq<char>, ErrorView> {
    match probe {
        KeyProbe::NotWindows => Err(ErrorView::NotWindows),
        KeyProbe::Failed(failure) => Err(ErrorView::RegistryAccess(failure@)),
        KeyProbe::Opened((Ok(text), _)) => Ok(text@),
        KeyProbe::Opened((Err(failure), alternate)) => if failure.not_found {
            match alternate {
                Ok(text) => Ok(text@),
                Err(_) => Err(ErrorView::ValueNotFound(what)),
            }
        } else {
            Err(ErrorView::RegistryAccess(failure@))
        },
    }
}

fn decide_text(
    probe: KeyProbe<(Result<String, RegistryFailure>, Result<String, RegistryFailure>)>,
    what: &str,
) -> (r: Result<String, DefenderError>)
    ensures
        text_view(r) == text_outcome(probe, what@),
{
    match probe {
        KeyProbe::NotWindows => Err(DefenderError::NotWindows),
        KeyProbe::Failed(failure) => Err(DefenderError::RegistryAccess(failure)),
        KeyProbe::Opened((Ok(text), _)) => Ok(text),
        KeyProbe::Opened((Err(failure), alternate)) => {
            if failure.not_found {
                match alternate {
                    Ok(text) => Ok(text),
                    Err(_) => Err(DefenderError::ValueNotFound(what.to_string())),
                }
            } else {
                Err(DefenderError::RegistryAccess(failure))
            }
        },
    }
}

/// Decides the signature version from the values [`SIGNATURE_VERSION`] and
/// [`SIGNATURE_VERSION_ALTERNATE`] under [`SIGNATURE_KEY`].
pub fn get_signature_version(
    probe: KeyProbe<(Result<String, RegistryFailure>, Result<String, RegistryFailure>)>,
) -> (r: Result<String, DefenderError>)
    ensures
        text_view(r) == text_outcome(probe, "Signature version"@),
{
    decide_text(probe, "Signature version")
}

/// Decides the time of the last signature update from the values
/// [`SIGNATURE_TIME`] and [`SIGNATURE_TIME_ALTERNATE`] under [`SIGNATURE_KEY`].
pub fn get_signature_last_update(
    probe: KeyProbe<(Result<String, RegistryFailure>, Result<String, RegistryFailure>)>,
) -> (r: Result<String, DefenderError>)
    ensures
        text_view(r) == text_outcome(probe, "Signature update time"@),
{
    decide_text(probe, "Signature update time")
}

/// Mathematical model of a [`DefenderStatus`].
pub struct StatusView {
    pub installed: bool,
    pub enabled: bool,
    pub real_time_protection: bool,
    pub signature_version: Option<Seq<char>>,
    pub signature_last_updated: Option<Seq<char>>,
}

impl View for DefenderStatus {
    type V = StatusView;

    open spec fn view(&self) -> StatusView {
        StatusView {
            installed: self.installed,
            enabled: self.enabled,
            real_time_protection: self.real_time_protection,
            signature_version: match self.signature_version {
                Some(text) => Some(text@),
                None => None,
            },
            signature_last_updated: match self.signature_last_updated {
                Some(text) => Some(text@),
                None => None,
            },
        }
    }
}

/// Model of the full status check.
pub open spec fn status_view(r: Result<DefenderStatus, DefenderError>) -> Result<
    StatusView,
    ErrorView,
> {
    match r {
        Ok(status) => Ok(status@),
        Err(e) => Err(e@),
    }
}

/// The text of a check that may fail, or nothing.
pub open spec fn text_or_none(r: Result<String, DefenderError>) -> Option<Seq<char>> {
    match r {
        Ok(text) => Some(text@),
        Err(_) => None,
    }
}

/// The three yes-or-no checks are mandatory and the first of them that failed
/// decides the error; the two signature texts are optional and a failure to
/// get one leaves it empty.
pub open spec fn status_outcome(
    installed: Result<bool, DefenderError>,
    enabled: Result<bool, DefenderError>,
    real_time_protection: Result<bool, DefenderError>,
    signature_version: Result<String, DefenderError>,
    signature_last_updated: Result<String, DefenderError>,
) -> Result<StatusView, ErrorView> {
    match (installed, enabled, real_time_protection) {
        (Err(e), _, _) => Err(e@),
        (Ok(_), Err(e), _) => Err(e@),
        (Ok(_), Ok(_), Err(e)) => Err(e@),
        (Ok(i), Ok(e), Ok(r)) => Ok(
            StatusView {
                installed: i,
                enabled: e,
                real_time_protection: r,
                signature_version: text_or_none(signature_version),
                signature_last_updated: text_or_none(signature_last_updated),
            },
        ),
    }
}

/// Combines the outcomes of the five checks into one status.
pub fn get_defender_status(
    installed: Result<bool, DefenderError>,
    enabled: Result<bool, DefenderError>,
    real_time_protection: Result<bool, DefenderError>,
    signature_version: Result<String, DefenderError>,
    signature_last_updated: Result<String, DefenderError>,
) -> (r: Result<DefenderStatus, DefenderError>)
    ensures
        status_view(r) == status_outcome(
            installed,
            enabled,
            real_time_protection,
            signature_version,
            signature_last_updated,
        ),
{
    let installed = match installed {
        Ok(flag) => flag,
        Err(e) => { return Err(e); },
    };
    let enabled = match enabled {
        Ok(flag) => flag,
        Err(e) => { return Err(e); },
    };
    let real_time_protection = match real_time_protection {
        Ok(flag) => flag,
        Err(e) => { return Err(e); },
    };
    Ok(
        DefenderStatus {
            installed,
            enabled,
            real_time_protection,
            signature_version: match signature_version {
                Ok(text) => Some(text),
                Err(_) => None,
            },
            signature_last_updated: match signature_last_updated {
                Ok(text) => Some(text),
                Err(_) => None,
            },
        },
    )
}

} // verus!
