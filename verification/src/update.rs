//! Updates of the launcher itself, and its start with the machine.

use vstd::prelude::*;
use crate::error::{failure, AppError, ErrorView};
use crate::text::opt_text;

verus! {

/// An update that the update server offers.
#[derive(Debug, PartialEq, Eq)]
pub struct Offer {
    pub version: String,
    pub notes: Option<String>,
}

/// What the interface learns of updates.
#[derive(Debug, PartialEq, Eq)]
pub struct UpdateInfo {
    pub available: bool,
    pub version: Option<String>,
    pub notes: Option<String>,
}

/// Mathematical model of [`UpdateInfo`].
pub struct UpdateView {
    pub available: bool,
    pub version: Option<Seq<char>>,
    pub notes: Option<Seq<char>>,
}

impl View for UpdateInfo {
    type V = UpdateView;

    open spec fn view(&self) -> UpdateView {
        UpdateView {
            available: self.available,
            version: opt_text(self.version),
            notes: opt_text(self.notes),
        }
    }
}

/// What the interface learns from a search for updates.
pub fn check_for_updates(found: Result<Option<Offer>, String>) -> (info: Result<
    UpdateInfo,
    AppError,
>)
    ensures
        match found {
            Ok(Some(offer)) => info matches Ok(i) && i@ == (UpdateView {
                available: true,
                version: Some(offer.version@),
                notes: opt_text(offer.notes),
            }),
            Ok(None) => info matches Ok(i) && i@ == (UpdateView {
                available: false,
                version: None,
                notes: None,
            }),
            Err(e) => failure(info) == Some(ErrorView::Internal(e@)),
        },
{
    match found {
        Ok(Some(offer)) => Ok(
            UpdateInfo { available: true, version: Some(offer.version), notes: offer.notes },
        ),
        Ok(None) => Ok(UpdateInfo { available: false, version: None, notes: None }),
        Err(e) => Err(AppError::Internal(e)),
    }
}

/// The update to install: an error, where the search failed or found none.
pub fn update_to_install<T>(found: Result<Option<T>, String>) -> (update: Result<T, AppError>)
    ensures
        match found {
            Ok(Some(offer)) => update == Ok::<T, AppError>(offer),
            Ok(None) => failure(update) == Some(
                ErrorView::Internal("aucune mise à jour disponible"@),
            ),
            Err(e) => failure(update) == Some(ErrorView::Internal(e@)),
        },
{
    match found {
        Ok(Some(offer)) => Ok(offer),
        Ok(None) => Err(AppError::Internal("aucune mise à jour disponible".to_owned())),
        Err(e) => Err(AppError::Internal(e)),
    }
}

/// A change of the launcher's start with the machine.
#[derive(Debug, PartialEq, Eq, Clone, Copy, Structural)]
pub enum AutostartChange {
    Enable,
    Disable,
}

/// The change that the player's choice calls for.
pub fn set_autostart(enabled: bool) -> (change: AutostartChange)
    ensures
        change == if enabled {
            AutostartChange::Enable
        } else {
            AutostartChange::Disable
        },
{
    if enabled {
        AutostartChange::Enable
    } else {
        AutostartChange::Disable
    }
}

/// What a command makes of a call into the system that may fail.
pub fn or_internal<T>(outcome: Result<T, String>) -> (result: Result<T, AppError>)
    ensures
        match outcome {
            Ok(value) => result == Ok::<T, AppError>(value),
            Err(e) => failure(result) == Some(ErrorView::Internal(e@)),
        },
{
    match outcome {
        Ok(value) => Ok(value),
        Err(e) => Err(AppError::Internal(e)),
    }
}

// ---- Laws ----

/// What the interface learns of an update is what the search found: an update is available
/// exactly where one was found, with its own version and notes; a failed search is an error.
pub proof fn updates_are_reported_as_found(
    found: Result<Option<Offer>, String>,
    info: Result<UpdateInfo, AppError>,
)
    requires
        call_ensures(check_for_updates, (found,), info),
    ensures
        info is Ok <==> found is Ok,
        info matches Ok(i) ==> (i.available <==> found->Ok_0 is Some),
        found matches Ok(Some(offer)) ==> (info matches Ok(i) && (i.version matches Some(v) && v@
            == offer.version@) && (i.notes is Some <==> offer.notes is Some) && (i.notes matches
            Some(n) ==> n@ == offer.notes->0@)),
        found matches Ok(None) ==> (info matches Ok(i) && i.version is None && i.notes is None),
        info matches Err(e) ==> e@ == ErrorView::Internal(found->Err_0@),
{
}

/// The update that is installed is the one that was found; where none was, or the search
/// failed, nothing is installed, and the error says which.
pub proof fn only_found_updates_are_installed<T>(
    found: Result<Option<T>, String>,
    update: Result<T, AppError>,
)
    requires
        call_ensures(update_to_install::<T>, (found,), update),
    ensures
        update is Ok <==> (found matches Ok(Some(_))),
        found matches Ok(Some(offer)) ==> update == Ok::<T, AppError>(offer),
        found matches Ok(None) ==> (update matches Err(e) && e@ == ErrorView::Internal(
            "aucune mise à jour disponible"@,
        )),
        found matches Err(message) ==> (update matches Err(e) && e@ == ErrorView::Internal(
            message@,
        )),
{
}

/// The start with the machine is enabled exactly where the player wants it.
pub proof fn autostart_follows_the_choice(enabled: bool, change: AutostartChange)
    requires
        call_ensures(set_autostart, (enabled,), change),
    ensures
        change == AutostartChange::Enable <==> enabled,
        change == AutostartChange::Disable <==> !enabled,
{
}

/// A call into the system hands its value on unchanged, and its message as an internal error.
pub proof fn system_failures_are_internal<T>(
    outcome: Result<T, String>,
    result: Result<T, AppError>,
)
    requires
        call_ensures(or_internal::<T>, (outcome,), result),
    ensures
        result is Ok <==> outcome is Ok,
        outcome matches Ok(value) ==> result == Ok::<T, AppError>(value),
        result matches Err(e) ==> e@ == ErrorView::Internal(outcome->Err_0@),
{
}

} // verus!
