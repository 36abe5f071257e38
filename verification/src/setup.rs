//! The preparation of the first start, and the check of the assets at later ones.

use vstd::prelude::*;
use crate::api::{manifest_request, probe_request, public, ApiRequest, Method, RequestView};
use crate::assets::{started, AssetManifest, Precache, ProgressView, SetupProgress};
use crate::error::{failure, AppError, ErrorView};
use crate::json::{opt_tree, Json, JsonTree};
use crate::store::{
    after_edits, after_plan, contents, plan_touches_one_key, set_bool, set_text,
    single, single_plan, stored, text_of, DiskView, Edit, EditView, PlanView, StorePlan,
    SETTINGS_FILE,
};
use crate::text::opt_text;

verus! {

/// Key of the mark that the preparation was completed.
pub const SETUP_DONE_KEY: &'static str = "setup_completed";

/// Key of the version of the manifest whose assets are on disk.
pub const CACHED_MANIFEST_VERSION_KEY: &'static str = "cached_manifest_version";

/// Key of the preference that allows notifications.
pub const NOTIFICATIONS_KEY: &'static str = "notifications_enabled";

// ---- First start ----

/// Whether the preparation is still to be done, going by its mark.
pub open spec fn unprepared(mark: Option<JsonTree>) -> bool {
    mark != Some(JsonTree::Bool(true))
}

/// Whether this is a first start. `mark` is what the settings file holds under
/// [`SETUP_DONE_KEY`]: nothing, where the file cannot be opened.
pub fn is_first_run(mark: Option<&Json>) -> (first: bool)
    ensures
        first == unprepared(opt_tree(mark)),
{
    match mark {
        Some(json) => match json.as_bool() {
            Some(done) => !done,
            None => true,
        },
        None => true,
    }
}

/// The settings of a launcher that was prepared with a manifest of this version.
pub open spec fn prepared_settings(version: Seq<char>) -> PlanView {
    PlanView {
        file: SETTINGS_FILE@,
        edits: seq![
            EditView::Put(SETUP_DONE_KEY@, JsonTree::Bool(true)),
            EditView::Put(NOTIFICATIONS_KEY@, JsonTree::Bool(true)),
            EditView::Put(CACHED_MANIFEST_VERSION_KEY@, JsonTree::Text(version)),
        ],
        strict: true,
    }
}

fn prepared_plan(version: &str) -> (plan: StorePlan)
    ensures
        plan@ == prepared_settings(version@),
{
    let mut edits: Vec<Edit> = Vec::new();
    edits.push(set_bool(SETUP_DONE_KEY, true));
    edits.push(set_bool(NOTIFICATIONS_KEY, true));
    edits.push(set_text(CACHED_MANIFEST_VERSION_KEY, version));
    let plan = StorePlan { file: SETTINGS_FILE.to_owned(), edits, strict: true };
    assert(plan@.edits =~= prepared_settings(version@).edits);
    plan
}

/// Where the preparation stands: what it waits for.
#[derive(Debug, PartialEq, Eq, Clone, Copy, Structural)]
pub enum SetupState {
    Begin,
    Probe,
    Manifest,
    Assets,
    Settings,
    Over,
}

/// What the preparation learns.
#[derive(Debug)]
pub enum SetupEvent {
    Begin,
    /// The server was asked whether it is there; whatever it answered.
    Probed,
    /// The manifest to go by.
    Manifest(AssetManifest),
    /// How the batch of downloads went: it hands the manifest back.
    Precached(Result<AssetManifest, AppError>),
    /// What went wrong with the settings, if anything did.
    Persisted(Option<String>),
}

/// Mathematical model of [`SetupEvent`].
pub enum SetupEventView {
    Begin,
    Probed,
    Manifest(AssetManifest),
    Precached(Result<AssetManifest, ErrorView>),
    Persisted(Option<Seq<char>>),
}

/// The outcome of a batch, in terms of models.
pub open spec fn batch_view(outcome: Result<AssetManifest, AppError>) -> Result<
    AssetManifest,
    ErrorView,
> {
    match outcome {
        Ok(manifest) => Ok(manifest),
        Err(e) => Err(e@),
    }
}

impl View for SetupEvent {
    type V = SetupEventView;

    open spec fn view(&self) -> SetupEventView {
        match self {
            SetupEvent::Begin => SetupEventView::Begin,
            SetupEvent::Probed => SetupEventView::Probed,
            SetupEvent::Manifest(manifest) => SetupEventView::Manifest(*manifest),
            SetupEvent::Precached(outcome) => SetupEventView::Precached(batch_view(*outcome)),
            SetupEvent::Persisted(fault) => SetupEventView::Persisted(opt_text(*fault)),
        }
    }
}

/// What the preparation asks for next.
#[derive(Debug)]
pub enum SetupAction {
    /// Ask whether the server is there.
    Probe(ApiRequest),
    FetchManifest(ApiRequest),
    /// Download the assets of the manifest, as the batch counts and announces them.
    Precache { manifest: AssetManifest, batch: Precache },
    Persist(StorePlan),
    Finish(Result<(), AppError>),
    /// The event is none that the preparation waits for.
    Nothing,
}

/// Mathematical model of [`SetupAction`].
pub enum SetupActionView {
    Probe(RequestView),
    FetchManifest(RequestView),
    Precache { manifest: AssetManifest, batch: Precache },
    Persist(PlanView),
    /// `None` where it went well.
    Finish(Option<ErrorView>),
    Nothing,
}

impl View for SetupAction {
    type V = SetupActionView;

    open spec fn view(&self) -> SetupActionView {
        match self {
            SetupAction::Probe(request) => SetupActionView::Probe(request@),
            SetupAction::FetchManifest(request) => SetupActionView::FetchManifest(request@),
            SetupAction::Precache { manifest, batch } => SetupActionView::Precache {
                manifest: *manifest,
                batch: *batch,
            },
            SetupAction::Persist(plan) => SetupActionView::Persist(plan@),
            SetupAction::Finish(result) => SetupActionView::Finish(failure(*result)),
            SetupAction::Nothing => SetupActionView::Nothing,
        }
    }
}

/// One step of the preparation.
#[derive(Debug)]
pub struct SetupStep {
    pub state: SetupState,
    /// What the interface is told, in order, before the action.
    pub progress: Vec<SetupProgress>,
    pub action: SetupAction,
}

/// Mathematical model of [`SetupStep`].
pub struct SetupStepView {
    pub state: SetupState,
    pub progress: Seq<ProgressView>,
    pub action: SetupActionView,
}

impl View for SetupStep {
    type V = SetupStepView;

    open spec fn view(&self) -> SetupStepView {
        SetupStepView {
            state: self.state,
            progress: self.progress@.map_values(|p: SetupProgress| p@),
            action: self.action@,
        }
    }
}

/// A stage of the preparation, out of four.
pub open spec fn stage(step: Seq<char>, label: Seq<char>, current: u32) -> ProgressView {
    ProgressView { step, label, current, total: 4 }
}

/// The steps of the preparation.
pub open spec fn setup_next(state: SetupState, event: SetupEventView) -> SetupStepView {
    match (state, event) {
        (SetupState::Begin, SetupEventView::Begin) => SetupStepView {
            state: SetupState::Probe,
            progress: seq![stage("server"@, "Vérification du royaume…"@, 0)],
            action: SetupActionView::Probe(public("/status"@, false)),
        },
        (SetupState::Probe, SetupEventView::Probed) => SetupStepView {
            state: SetupState::Manifest,
            progress: seq![
                stage("server"@, "Royaume joignable"@, 1),
                stage("manifest"@, "Récupération du manifeste de ressources…"@, 1),
            ],
            action: SetupActionView::FetchManifest(public("/asset-manifest"@, false)),
        },
        (SetupState::Manifest, SetupEventView::Manifest(manifest)) => SetupStepView {
            state: SetupState::Assets,
            progress: seq![stage("manifest"@, "Manifeste reçu"@, 2)],
            action: SetupActionView::Precache { manifest, batch: started(manifest, true) },
        },
        (SetupState::Assets, SetupEventView::Precached(Ok(manifest))) => SetupStepView {
            state: SetupState::Settings,
            progress: seq![
                stage("assets"@, "Ressources prêtes"@, 3),
                stage("config"@, "Configuration des préférences…"@, 3),
            ],
            action: SetupActionView::Persist(prepared_settings(manifest.version@)),
        },
        (SetupState::Settings, SetupEventView::Persisted(None)) => SetupStepView {
            state: SetupState::Over,
            progress: seq![stage("done"@, "Royaume prêt"@, 4)],
            action: SetupActionView::Finish(None),
        },
        (SetupState::Assets, SetupEventView::Precached(Err(e))) => SetupStepView {
            state: SetupState::Over,
            progress: Seq::empty(),
            action: SetupActionView::Finish(Some(e)),
        },
        (SetupState::Settings, SetupEventView::Persisted(Some(e))) => SetupStepView {
            state: SetupState::Over,
            progress: Seq::empty(),
            action: SetupActionView::Finish(Some(ErrorView::Internal(e))),
        },
        _ => SetupStepView {
            state,
            progress: Seq::empty(),
            action: SetupActionView::Nothing,
        },
    }
}

fn report(step: &str, label: &str, current: u32) -> (progress: SetupProgress)
    ensures
        progress@ == stage(step@, label@, current),
{
    SetupProgress { step: step.to_owned(), label: label.to_owned(), current, total: 4 }
}

fn make_step(state: SetupState, progress: Vec<SetupProgress>, action: SetupAction) -> (step:
    SetupStep)
    ensures
        step@ == (SetupStepView {
            state,
            progress: progress@.map_values(|p: SetupProgress| p@),
            action: action@,
        }),
{
    SetupStep { state, progress, action }
}

/// Starts the batch of a first start: the interface is told of each download.
pub fn first_run_batch(manifest: &AssetManifest) -> (batch: Precache)
    ensures
        batch == started(*manifest, true),
{
    Precache::start(manifest, true)
}

/// One step of the preparation of a first start.
pub fn prepare_first_run(state: SetupState, event: SetupEvent) -> (step: SetupStep)
    ensures
        step@ == setup_next(state, event@),
{
    let mut progress: Vec<SetupProgress> = Vec::new();
    let step = match (state, event) {
        (SetupState::Begin, SetupEvent::Begin) => {
            progress.push(report("server", "Vérification du royaume…", 0));
            make_step(SetupState::Probe, progress, SetupAction::Probe(probe_request()))
        },
        (SetupState::Probe, SetupEvent::Probed) => {
            progress.push(report("server", "Royaume joignable", 1));
            progress.push(report("manifest", "Récupération du manifeste de ressources…", 1));
            make_step(
                SetupState::Manifest,
                progress,
                SetupAction::FetchManifest(manifest_request()),
            )
        },
        (SetupState::Manifest, SetupEvent::Manifest(manifest)) => {
            progress.push(report("manifest", "Manifeste reçu", 2));
            let batch = first_run_batch(&manifest);
            make_step(SetupState::Assets, progress, SetupAction::Precache { manifest, batch })
        },
        (SetupState::Assets, SetupEvent::Precached(outcome)) => match outcome {
            Ok(manifest) => {
                progress.push(report("assets", "Ressources prêtes", 3));
                progress.push(report("config", "Configuration des préférences…", 3));
                make_step(
                    SetupState::Settings,
                    progress,
                    SetupAction::Persist(prepared_plan(manifest.version.as_str())),
                )
            },
            Err(e) => make_step(SetupState::Over, progress, SetupAction::Finish(Err(e))),
        },
        (SetupState::Settings, SetupEvent::Persisted(fault)) => match fault {
            None => {
                progress.push(report("done", "Royaume prêt", 4));
                make_step(SetupState::Over, progress, SetupAction::Finish(Ok(())))
            },
            Some(e) => make_step(
                SetupState::Over,
                progress,
                SetupAction::Finish(Err(AppError::Internal(e))),
            ),
        },
        _ => make_step(state, progress, SetupAction::Nothing),
    };
    assert(step@.progress =~= setup_next(state, event@).progress);
    step
}

// ---- Later starts ----

/// Whether the assets on disk are those of another manifest; `kept` is the stored version.
/// A manifest without a version calls for nothing.
pub open spec fn outdated(version: Seq<char>, kept: Option<JsonTree>) -> bool {
    version.len() > 0 && version != match text_of(kept) {
        Some(text) => text,
        None => Seq::empty(),
    }
}

/// The plan that keeps the version of the assets on disk.
pub open spec fn keep_version(version: Seq<char>) -> PlanView {
    single(
        SETTINGS_FILE@,
        EditView::Put(CACHED_MANIFEST_VERSION_KEY@, JsonTree::Text(version)),
        true,
    )
}

/// Where the check of the assets stands: what it waits for.
#[derive(Debug)]
pub enum RecheckState {
    Begin,
    Manifest,
    /// The version on disk, to compare with that of `manifest`.
    Kept { manifest: AssetManifest },
    Assets,
    Settings,
    Over,
}

/// What the check of the assets learns.
#[derive(Debug)]
pub enum RecheckEvent {
    Begin,
    /// The manifest to go by.
    Manifest(AssetManifest),
    /// What the settings file holds under [`CACHED_MANIFEST_VERSION_KEY`], or why it cannot
    /// be opened.
    Kept(Result<Option<Json>, String>),
    /// How the batch of downloads went: it hands the manifest back.
    Precached(Result<AssetManifest, AppError>),
    /// What went wrong with the settings, if anything did.
    Persisted(Option<String>),
}

/// Mathematical model of [`RecheckEvent`].
pub enum RecheckEventView {
    Begin,
    Manifest(AssetManifest),
    Kept(Result<Option<JsonTree>, Seq<char>>),
    Precached(Result<AssetManifest, ErrorView>),
    Persisted(Option<Seq<char>>),
}

impl View for RecheckEvent {
    type V = RecheckEventView;

    open spec fn view(&self) -> RecheckEventView {
        match self {
            RecheckEvent::Begin => RecheckEventView::Begin,
            RecheckEvent::Manifest(manifest) => RecheckEventView::Manifest(*manifest),
            RecheckEvent::Kept(kept) => RecheckEventView::Kept(
                match kept {
                    Ok(Some(json)) => Ok(Some(json@)),
                    Ok(None) => Ok(None),
                    Err(e) => Err(e@),
                },
            ),
            RecheckEvent::Precached(outcome) => RecheckEventView::Precached(
                batch_view(*outcome),
            ),
            RecheckEvent::Persisted(fault) => RecheckEventView::Persisted(opt_text(*fault)),
        }
    }
}

/// What the check of the assets asks for next.
#[derive(Debug)]
pub enum RecheckAction {
    FetchManifest(ApiRequest),
    /// Read the version on disk.
    ReadKept,
    /// Download the assets of the manifest, as the batch counts them.
    Precache { manifest: AssetManifest, batch: Precache },
    Persist(StorePlan),
    /// Whether the assets were downloaded again.
    Finish(Result<bool, AppError>),
    /// The event is none that the check waits for.
    Nothing,
}

/// Mathematical model of [`RecheckAction`].
pub enum RecheckActionView {
    FetchManifest(RequestView),
    ReadKept,
    Precache { manifest: AssetManifest, batch: Precache },
    Persist(PlanView),
    Finish(Result<bool, ErrorView>),
    Nothing,
}

impl View for RecheckAction {
    type V = RecheckActionView;

    open spec fn view(&self) -> RecheckActionView {
        match self {
            RecheckAction::FetchManifest(request) => RecheckActionView::FetchManifest(request@),
            RecheckAction::ReadKept => RecheckActionView::ReadKept,
            RecheckAction::Precache { manifest, batch } => RecheckActionView::Precache {
                manifest: *manifest,
                batch: *batch,
            },
            RecheckAction::Persist(plan) => RecheckActionView::Persist(plan@),
            RecheckAction::Finish(result) => RecheckActionView::Finish(
                match result {
                    Ok(done) => Ok(*done),
                    Err(e) => Err(e@),
                },
            ),
            RecheckAction::Nothing => RecheckActionView::Nothing,
        }
    }
}

/// The steps of the check of the assets.
pub open spec fn recheck_next(state: RecheckState, event: RecheckEventView) -> (
    RecheckState,
    RecheckActionView,
) {
    match (state, event) {
        (RecheckState::Begin, RecheckEventView::Begin) => (
            RecheckState::Manifest,
            RecheckActionView::FetchManifest(public("/asset-manifest"@, false)),
        ),
        (RecheckState::Manifest, RecheckEventView::Manifest(manifest)) => if manifest.version@.len()
            == 0 {
            (RecheckState::Over, RecheckActionView::Finish(Ok(false)))
        } else {
            (RecheckState::Kept { manifest }, RecheckActionView::ReadKept)
        },
        (RecheckState::Kept { manifest }, RecheckEventView::Kept(Ok(kept))) => if outdated(
            manifest.version@,
            kept,
        ) {
            (
                RecheckState::Assets,
                RecheckActionView::Precache { manifest, batch: started(manifest, false) },
            )
        } else {
            (RecheckState::Over, RecheckActionView::Finish(Ok(false)))
        },
        (RecheckState::Kept { .. }, RecheckEventView::Kept(Err(e))) => (
            RecheckState::Over,
            RecheckActionView::Finish(Err(ErrorView::Internal(e))),
        ),
        (RecheckState::Assets, RecheckEventView::Precached(Ok(manifest))) => (
            RecheckState::Settings,
            RecheckActionView::Persist(keep_version(manifest.version@)),
        ),
        (RecheckState::Assets, RecheckEventView::Precached(Err(e))) => (
            RecheckState::Over,
            RecheckActionView::Finish(Err(e)),
        ),
        (RecheckState::Settings, RecheckEventView::Persisted(None)) => (
            RecheckState::Over,
            RecheckActionView::Finish(Ok(true)),
        ),
        (RecheckState::Settings, RecheckEventView::Persisted(Some(e))) => (
            RecheckState::Over,
            RecheckActionView::Finish(Err(ErrorView::Internal(e))),
        ),
        _ => (state, RecheckActionView::Nothing),
    }
}

fn is_outdated(version: &String, kept: &Option<Json>) -> (answer: bool)
    ensures
        answer == outdated(
            version@,
            match *kept {
                Some(json) => Some(json@),
                None => None,
            },
        ),
{
    let old_version: String = match kept {
        Some(json) => match json.as_str() {
            Some(text) => text.to_owned(),
            None => String::new(),
        },
        None => String::new(),
    };
    !version.as_str().is_empty() && !(*version == old_version)
}

/// Starts the batch of a later check: it stays silent, so as not to disturb the player.
pub fn recheck_batch(manifest: &AssetManifest) -> (batch: Precache)
    ensures
        batch == started(*manifest, false),
{
    Precache::start(manifest, false)
}

/// One step of the check of the assets: where the manifest is of another version than the
/// assets on disk, these are downloaded again, and the new version is kept.
pub fn recheck_manifest(state: RecheckState, event: RecheckEvent) -> (step: (
    RecheckState,
    RecheckAction,
))
    ensures
        (step.0, step.1@) == recheck_next(state, event@),
{
    match (state, event) {
        (RecheckState::Begin, RecheckEvent::Begin) => (
            RecheckState::Manifest,
            RecheckAction::FetchManifest(manifest_request()),
        ),
        (RecheckState::Manifest, RecheckEvent::Manifest(manifest)) => {
            if manifest.version.as_str().is_empty() {
                (RecheckState::Over, RecheckAction::Finish(Ok(false)))
            } else {
                (RecheckState::Kept { manifest }, RecheckAction::ReadKept)
            }
        },
        (RecheckState::Kept { manifest }, RecheckEvent::Kept(outcome)) => match outcome {
            Ok(kept) => if is_outdated(&manifest.version, &kept) {
                let batch = recheck_batch(&manifest);
                (RecheckState::Assets, RecheckAction::Precache { manifest, batch })
            } else {
                (RecheckState::Over, RecheckAction::Finish(Ok(false)))
            },
            Err(e) => (RecheckState::Over, RecheckAction::Finish(Err(AppError::Internal(e)))),
        },
        (RecheckState::Assets, RecheckEvent::Precached(outcome)) => match outcome {
            Ok(manifest) => (
                RecheckState::Settings,
                RecheckAction::Persist(
                    single_plan(
                        SETTINGS_FILE,
                        set_text(CACHED_MANIFEST_VERSION_KEY, manifest.version.as_str()),
                        true,
                    ),
                ),
            ),
            Err(e) => (RecheckState::Over, RecheckAction::Finish(Err(e))),
        },
        (RecheckState::Settings, RecheckEvent::Persisted(fault)) => match fault {
            None => (RecheckState::Over, RecheckAction::Finish(Ok(true))),
            Some(e) => (
                RecheckState::Over,
                RecheckAction::Finish(Err(AppError::Internal(e))),
            ),
        },
        (state, _) => (state, RecheckAction::Nothing),
    }
}

// ---- Laws ----

proof fn settings_keys_differ()
    ensures
        SETUP_DONE_KEY@ != NOTIFICATIONS_KEY@,
        SETUP_DONE_KEY@ != CACHED_MANIFEST_VERSION_KEY@,
        NOTIFICATIONS_KEY@ != CACHED_MANIFEST_VERSION_KEY@,
{
    reveal_strlit("setup_completed");
    reveal_strlit("cached_manifest_version");
    reveal_strlit("notifications_enabled");
    assert(SETUP_DONE_KEY@.len() == 15);
    assert(CACHED_MANIFEST_VERSION_KEY@.len() == 23);
    assert(NOTIFICATIONS_KEY@.len() == 21);
}

/// A preparation whose settings were kept is not done again: the next start is no first
/// one, it allows notifications and knows the version of the assets. Nothing else of what is
/// on disk changes.
pub proof fn preparation_is_done_once(
    disk: DiskView,
    version: Seq<char>,
    file: Seq<char>,
    key: Seq<char>,
)
    ensures
        !unprepared(
            stored(after_plan(disk, prepared_settings(version)), SETTINGS_FILE@, SETUP_DONE_KEY@),
        ),
        stored(after_plan(disk, prepared_settings(version)), file, key) == if file
            != SETTINGS_FILE@ {
            stored(disk, file, key)
        } else if key == SETUP_DONE_KEY@ || key == NOTIFICATIONS_KEY@ {
            Some(JsonTree::Bool(true))
        } else if key == CACHED_MANIFEST_VERSION_KEY@ {
            Some(JsonTree::Text(version))
        } else {
            stored(disk, file, key)
        },
{
    settings_keys_differ();
    let edits = prepared_settings(version).edits;
    let before = contents(disk, SETTINGS_FILE@);
    reveal_with_fuel(after_edits, 4);
    assert(edits.drop_last().drop_last().drop_last() =~= Seq::empty());
    assert(after_edits(before, edits) == before.insert(
        SETUP_DONE_KEY@,
        JsonTree::Bool(true),
    ).insert(NOTIFICATIONS_KEY@, JsonTree::Bool(true)).insert(
        CACHED_MANIFEST_VERSION_KEY@,
        JsonTree::Text(version),
    ));
}

/// Once a check of the assets has kept the version of a manifest, or the preparation has, a
/// check against the same manifest finds nothing to do.
pub proof fn assets_are_checked_once(disk: DiskView, version: Seq<char>)
    ensures
        !outdated(
            version,
            stored(
                after_plan(disk, keep_version(version)),
                SETTINGS_FILE@,
                CACHED_MANIFEST_VERSION_KEY@,
            ),
        ),
        !outdated(
            version,
            stored(
                after_plan(disk, prepared_settings(version)),
                SETTINGS_FILE@,
                CACHED_MANIFEST_VERSION_KEY@,
            ),
        ),
{
    settings_keys_differ();
    plan_touches_one_key(
        disk,
        SETTINGS_FILE@,
        EditView::Put(CACHED_MANIFEST_VERSION_KEY@, JsonTree::Text(version)),
        true,
        SETTINGS_FILE@,
        CACHED_MANIFEST_VERSION_KEY@,
    );
    preparation_is_done_once(disk, version, SETTINGS_FILE@, CACHED_MANIFEST_VERSION_KEY@);
}

/// A manifest that could not be had, which is one without a version, makes the check end at
/// once: nothing is downloaded and nothing is written.
pub proof fn missing_manifest_changes_nothing(manifest: AssetManifest)
    requires
        manifest.version@.len() == 0,
    ensures
        recheck_next(RecheckState::Manifest, RecheckEventView::Manifest(manifest)) == (
            RecheckState::Over,
            RecheckActionView::Finish(Ok(false)),
        ),
{
}

/// Where the preparation stands after a series of events, and what the interface was told.
pub open spec fn setup_run(events: Seq<SetupEventView>) -> (SetupState, Seq<ProgressView>)
    decreases events.len(),
{
    if events.len() == 0 {
        (SetupState::Begin, Seq::empty())
    } else {
        let (state, told) = setup_run(events.drop_last());
        let step = setup_next(state, events.last());
        (step.state, told + step.progress)
    }
}

/// The stage that the preparation has reached where it stands.
spec fn reached(state: SetupState) -> u32 {
    match state {
        SetupState::Begin => 0,
        SetupState::Probe => 0,
        SetupState::Manifest => 1,
        SetupState::Assets => 2,
        SetupState::Settings => 3,
        SetupState::Over => 4,
    }
}

proof fn told_up_to_reached(events: Seq<SetupEventView>)
    ensures
        forall|i: int|
            0 <= i < setup_run(events).1.len() ==> (#[trigger] setup_run(events).1[i]).total == 4
                && setup_run(events).1[i].current <= reached(setup_run(events).0),
        forall|i: int, j: int|
            0 <= i <= j < setup_run(events).1.len() ==> (#[trigger] setup_run(events).1[i]).current
                <= (#[trigger] setup_run(events).1[j]).current,
    decreases events.len(),
{
    if events.len() > 0 {
        told_up_to_reached(events.drop_last());
        let (state, told) = setup_run(events.drop_last());
        let step = setup_next(state, events.last());
        let all = setup_run(events).1;
        assert(forall|i: int| 0 <= i < told.len() ==> #[trigger] all[i] == told[i]);
        assert(forall|i: int|
            told.len() <= i < all.len() ==> #[trigger] all[i] == step.progress[i - told.len()]);
        assert(reached(state) <= reached(step.state));
        assert(forall|k: int|
            0 <= k < step.progress.len() ==> (#[trigger] step.progress[k]).current == reached(
                step.state,
            ));
    }
}

/// The bar of the preparation never goes back, and it counts four stages.
pub proof fn progress_never_goes_back(events: Seq<SetupEventView>, i: int, j: int)
    requires
        0 <= i <= j < setup_run(events).1.len(),
    ensures
        setup_run(events).1[i].current <= setup_run(events).1[j].current <= 4,
        setup_run(events).1[i].total == 4,
{
    told_up_to_reached(events);
    assert(reached(setup_run(events).0) <= 4);
}

/// The preparation succeeds exactly when its settings were kept, and asks for them to be kept
/// exactly when the batch has ended without an error.
pub proof fn preparation_succeeds_last(state: SetupState, event: SetupEventView)
    ensures
        setup_next(state, event).action == SetupActionView::Finish(None) <==> (state
            == SetupState::Settings && event == SetupEventView::Persisted(None)),
        setup_next(state, event).action is Persist <==> (state == SetupState::Assets && event
            matches SetupEventView::Precached(Ok(_))),
{
}

/// What the preparation asked for last.
pub open spec fn setup_action(events: Seq<SetupEventView>) -> SetupActionView {
    if events.len() == 0 {
        SetupActionView::Nothing
    } else {
        setup_next(setup_run(events.drop_last()).0, events.last()).action
    }
}

/// The manifest that the preparation took, once it has one.
pub open spec fn setup_fetched(events: Seq<SetupEventView>) -> Option<AssetManifest>
    decreases events.len(),
{
    if events.len() == 0 {
        None
    } else {
        match (setup_run(events.drop_last()).0, events.last()) {
            (SetupState::Manifest, SetupEventView::Manifest(manifest)) => Some(manifest),
            _ => setup_fetched(events.drop_last()),
        }
    }
}

/// The manifest whose assets the preparation asked for, once it has.
pub open spec fn setup_asked(events: Seq<SetupEventView>) -> Option<AssetManifest>
    decreases events.len(),
{
    if events.len() == 0 {
        None
    } else {
        match setup_action(events) {
            SetupActionView::Precache { manifest, .. } => Some(manifest),
            _ => setup_asked(events.drop_last()),
        }
    }
}

/// The assets that the preparation asks for, and waits for, are those of the manifest that was
/// fetched, and the interface is told of each download.
pub proof fn preparation_downloads_what_it_fetched(events: Seq<SetupEventView>)
    ensures
        setup_asked(events) == setup_fetched(events),
        setup_run(events).0 == SetupState::Assets ==> setup_asked(events) is Some,
        setup_action(events) matches SetupActionView::Precache { manifest, batch }
            ==> setup_fetched(events) == Some(manifest) && batch == started(manifest, true),
    decreases events.len(),
{
    if events.len() > 0 {
        preparation_downloads_what_it_fetched(events.drop_last());
    }
}

/// The version that the preparation asks to have kept is that of the manifest that was
/// fetched, where the batch hands back the manifest that it was asked to download.
pub proof fn prepared_version_is_the_fetched_one(
    events: Seq<SetupEventView>,
    manifest: AssetManifest,
)
    requires
        events.len() > 0,
        setup_run(events.drop_last()).0 == SetupState::Assets,
        events.last() == SetupEventView::Precached(Ok(manifest)),
        setup_asked(events.drop_last()) == Some(manifest),
    ensures
        setup_fetched(events) == Some(manifest),
        setup_action(events) == SetupActionView::Persist(prepared_settings(manifest.version@)),
{
    preparation_downloads_what_it_fetched(events.drop_last());
}

/// Where the check of the assets stands after a series of events.
pub open spec fn recheck_run(events: Seq<RecheckEventView>) -> RecheckState
    decreases events.len(),
{
    if events.len() == 0 {
        RecheckState::Begin
    } else {
        recheck_next(recheck_run(events.drop_last()), events.last()).0
    }
}

/// What the check of the assets asked for last.
pub open spec fn recheck_action(events: Seq<RecheckEventView>) -> RecheckActionView {
    if events.len() == 0 {
        RecheckActionView::Nothing
    } else {
        recheck_next(recheck_run(events.drop_last()), events.last()).1
    }
}

/// The manifest that the check of the assets took, once it has one.
pub open spec fn recheck_fetched(events: Seq<RecheckEventView>) -> Option<AssetManifest>
    decreases events.len(),
{
    if events.len() == 0 {
        None
    } else {
        match (recheck_run(events.drop_last()), events.last()) {
            (RecheckState::Manifest, RecheckEventView::Manifest(manifest)) => Some(manifest),
            _ => recheck_fetched(events.drop_last()),
        }
    }
}

/// The manifest whose assets the check asked for, once it has.
pub open spec fn recheck_asked(events: Seq<RecheckEventView>) -> Option<AssetManifest>
    decreases events.len(),
{
    if events.len() == 0 {
        None
    } else {
        match recheck_action(events) {
            RecheckActionView::Precache { manifest, .. } => Some(manifest),
            _ => recheck_asked(events.drop_last()),
        }
    }
}

/// Whether the version that the check read from disk is another than that of a manifest.
pub open spec fn found_outdated(events: Seq<RecheckEventView>, manifest: AssetManifest) -> bool {
    exists|i: int|
        0 <= i < events.len() && (#[trigger] events[i] matches RecheckEventView::Kept(Ok(kept))
            && outdated(manifest.version@, kept))
}

/// What the check of the assets has gone through before it stands where it does.
spec fn recheck_past(events: Seq<RecheckEventView>) -> bool {
    &&& recheck_asked(events) matches Some(manifest) ==> recheck_fetched(events) == Some(manifest)
        && found_outdated(events, manifest)
    &&& match recheck_run(events) {
        RecheckState::Begin => recheck_asked(events) is None,
        RecheckState::Manifest => recheck_asked(events) is None,
        RecheckState::Kept { manifest } => recheck_asked(events) is None && recheck_fetched(events)
            == Some(manifest),
        RecheckState::Assets => recheck_asked(events) is Some,
        RecheckState::Settings => recheck_asked(events) is Some,
        RecheckState::Over => true,
    }
}

proof fn run_has_recheck_past(events: Seq<RecheckEventView>)
    ensures
        recheck_past(events),
    decreases events.len(),
{
    if events.len() > 0 {
        let before = events.drop_last();
        run_has_recheck_past(before);
        match recheck_asked(events) {
            Some(manifest) => {
                if recheck_asked(before) == Some(manifest) {
                    let i = choose|i: int|
                        0 <= i < before.len() && (#[trigger] before[i] matches
                            RecheckEventView::Kept(Ok(kept)) && outdated(manifest.version@, kept));
                    assert(events[i] == before[i]);
                } else {
                    assert(events[events.len() - 1] == events.last());
                }
            },
            None => {},
        }
    }
}

/// A check asks for, and waits for, the assets of the manifest that was fetched, and only where
/// the version that it read from disk is another; the interface is told nothing of the
/// downloads.
pub proof fn check_downloads_what_it_fetched(events: Seq<RecheckEventView>)
    ensures
        recheck_asked(events) is Some ==> recheck_asked(events) == recheck_fetched(events),
        recheck_run(events) is Assets ==> recheck_asked(events) is Some,
        recheck_action(events) matches RecheckActionView::Precache { manifest, batch }
            ==> recheck_fetched(events) == Some(manifest) && found_outdated(events, manifest)
            && batch == started(manifest, false),
{
    run_has_recheck_past(events);
}

/// The version that a check of the assets asks to have kept is that of the manifest that was
/// fetched, where the batch hands back the manifest that it was asked to download.
pub proof fn rechecked_version_is_the_fetched_one(
    events: Seq<RecheckEventView>,
    manifest: AssetManifest,
)
    requires
        events.len() > 0,
        recheck_run(events.drop_last()) is Assets,
        events.last() == RecheckEventView::Precached(Ok(manifest)),
        recheck_asked(events.drop_last()) == Some(manifest),
    ensures
        recheck_fetched(events) == Some(manifest),
        found_outdated(events, manifest),
        recheck_action(events) == RecheckActionView::Persist(keep_version(manifest.version@)),
{
    run_has_recheck_past(events.drop_last());
    run_has_recheck_past(events);
}

/// A check of the assets reports a download exactly when the new version was kept, and asks for
/// it to be kept exactly when the batch has ended without an error.
pub proof fn check_reports_a_download_last(state: RecheckState, event: RecheckEventView)
    ensures
        recheck_next(state, event).1 == RecheckActionView::Finish(Ok(true)) <==> (state is Settings
            && event == RecheckEventView::Persisted(None)),
        recheck_next(state, event).1 is Persist <==> (state is Assets && event matches
            RecheckEventView::Precached(Ok(_))),
{
}

/// Only the mark itself, a stored `true`, ends the first start.
pub proof fn only_the_mark_ends_the_first_start(mark: Option<JsonTree>)
    ensures
        unprepared(mark) <==> mark != Some(JsonTree::Bool(true)),
{
}

/// The preparation asks first whether the server is there, and then, whatever it answered, for
/// the asset manifest: both by a request of anyone, and each by its own. No other step asks for
/// either.
pub proof fn preparation_asks_for_the_manifest(state: SetupState, event: SetupEventView)
    ensures
        setup_next(state, event).action matches SetupActionView::FetchManifest(request) ==> request
            == (RequestView {
            method: Method::Get,
            url: "https://velmora.cc/api/mobile"@ + "/asset-manifest"@,
            bearer: None,
            accept_json: false,
            since: None,
            body: None,
        }),
        setup_next(state, event).action matches SetupActionView::Probe(request) ==> request == (
        RequestView {
            method: Method::Get,
            url: "https://velmora.cc/api/mobile"@ + "/status"@,
            bearer: None,
            accept_json: false,
            since: None,
            body: None,
        }),
        setup_next(state, event).action is Probe <==> state == SetupState::Begin && event is Begin,
        setup_next(state, event).action is FetchManifest <==> state == SetupState::Probe && event
            is Probed,
        setup_next(state, event).action is Probe ==> setup_next(state, event).state
            == SetupState::Probe,
        setup_next(state, event).action is FetchManifest ==> setup_next(state, event).state
            == SetupState::Manifest,
{
}

/// Whatever manifest comes, its assets are downloaded, all of them counted and announced.
pub proof fn preparation_downloads_any_manifest(manifest: AssetManifest)
    ensures
        setup_next(SetupState::Manifest, SetupEventView::Manifest(manifest)).state
            == SetupState::Assets,
        setup_next(SetupState::Manifest, SetupEventView::Manifest(manifest)).action matches
            SetupActionView::Precache { manifest: asked, batch } && asked == manifest && batch.done
            == 0 && batch.announced && (manifest.assets@.len() <= u32::MAX ==> batch.total == if
            manifest.assets@.len() == 0 {
            1
        } else {
            manifest.assets@.len() as int
        }),
{
}

/// A batch that ended well leads to the settings: the mark, the consent to notifications and
/// the version of the manifest, all of which must be kept for the preparation to succeed. A
/// failure of the batch or of the settings ends the preparation with its own error.
pub proof fn preparation_ends_with_the_settings(
    manifest: AssetManifest,
    error: ErrorView,
    message: Seq<char>,
)
    ensures
        setup_next(SetupState::Assets, SetupEventView::Precached(Ok(manifest))).state
            == SetupState::Settings,
        setup_next(SetupState::Assets, SetupEventView::Precached(Ok(manifest))).action matches
            SetupActionView::Persist(plan) && plan.strict && plan.file == "settings.json"@
            && plan.edits == seq![
            EditView::Put("setup_completed"@, JsonTree::Bool(true)),
            EditView::Put("notifications_enabled"@, JsonTree::Bool(true)),
            EditView::Put("cached_manifest_version"@, JsonTree::Text(manifest.version@)),
        ],
        setup_next(SetupState::Assets, SetupEventView::Precached(Err(error))) == (SetupStepView {
            state: SetupState::Over,
            progress: Seq::empty(),
            action: SetupActionView::Finish(Some(error)),
        }),
        setup_next(SetupState::Settings, SetupEventView::Persisted(Some(message))) == (
        SetupStepView {
            state: SetupState::Over,
            progress: Seq::empty(),
            action: SetupActionView::Finish(Some(ErrorView::Internal(message))),
        }),
        setup_next(SetupState::Settings, SetupEventView::Persisted(None)).state
            == SetupState::Over,
        setup_next(SetupState::Settings, SetupEventView::Persisted(None)).action
            == SetupActionView::Finish(None),
{
}

/// What the interface is told at each step that goes well, out of four stages.
pub proof fn preparation_tells_its_stages(manifest: AssetManifest)
    ensures
        setup_next(SetupState::Begin, SetupEventView::Begin).progress == seq![
            ProgressView {
                step: "server"@,
                label: "Vérification du royaume…"@,
                current: 0,
                total: 4,
            },
        ],
        setup_next(SetupState::Probe, SetupEventView::Probed).progress == seq![
            ProgressView { step: "server"@, label: "Royaume joignable"@, current: 1, total: 4 },
            ProgressView {
                step: "manifest"@,
                label: "Récupération du manifeste de ressources…"@,
                current: 1,
                total: 4,
            },
        ],
        setup_next(SetupState::Manifest, SetupEventView::Manifest(manifest)).progress == seq![
            ProgressView { step: "manifest"@, label: "Manifeste reçu"@, current: 2, total: 4 },
        ],
        setup_next(SetupState::Assets, SetupEventView::Precached(Ok(manifest))).progress == seq![
            ProgressView { step: "assets"@, label: "Ressources prêtes"@, current: 3, total: 4 },
            ProgressView {
                step: "config"@,
                label: "Configuration des préférences…"@,
                current: 3,
                total: 4,
            },
        ],
        setup_next(SetupState::Settings, SetupEventView::Persisted(None)).progress == seq![
            ProgressView { step: "done"@, label: "Royaume prêt"@, current: 4, total: 4 },
        ],
{
}

/// The preparation moves, and tells anything, only on the event that it waits for.
pub proof fn preparation_waits_its_turn(state: SetupState, event: SetupEventView)
    ensures
        setup_next(state, event).action is Nothing <==> !{
            ||| state == SetupState::Begin && event is Begin
            ||| state == SetupState::Probe && event is Probed
            ||| state == SetupState::Manifest && event is Manifest
            ||| state == SetupState::Assets && event is Precached
            ||| state == SetupState::Settings && event is Persisted
        },
        setup_next(state, event).action is Nothing ==> setup_next(state, event).state == state
            && setup_next(state, event).progress.len() == 0,
{
}

/// A check starts by asking for the asset manifest, by a request of anyone, and with no other
/// step. A manifest with a version is held against the version on disk; one without ends the
/// check.
pub proof fn check_asks_for_the_manifest(state: RecheckState, event: RecheckEventView)
    ensures
        recheck_next(state, event).1 matches RecheckActionView::FetchManifest(request) ==> request
            == (RequestView {
            method: Method::Get,
            url: "https://velmora.cc/api/mobile"@ + "/asset-manifest"@,
            bearer: None,
            accept_json: false,
            since: None,
            body: None,
        }) && recheck_next(state, event).0 is Manifest,
        recheck_next(state, event).1 is FetchManifest <==> state is Begin && event is Begin,
        recheck_next(state, event).1 is ReadKept <==> state is Manifest && (event matches
            RecheckEventView::Manifest(manifest) && manifest.version@.len() > 0),
        recheck_next(state, event).1 is ReadKept ==> (event matches RecheckEventView::Manifest(
            manifest,
        ) && recheck_next(state, event).0 == (RecheckState::Kept { manifest })),
        state is Manifest && (event matches RecheckEventView::Manifest(manifest)
            && manifest.version@.len() == 0) ==> recheck_next(state, event) == (
            RecheckState::Over,
            RecheckActionView::Finish(Ok(false)),
        ),
{
}

/// A check downloads exactly when the version that was fetched is not empty and is not the text
/// on disk, whatever else the two versions have in common: then the assets of the fetched
/// manifest are downloaded, in silence. Else it ends without a download.
pub proof fn check_downloads_every_other_version(
    manifest: AssetManifest,
    kept: Option<JsonTree>,
)
    ensures
        manifest.version@.len() > 0 && kept != Some(JsonTree::Text(manifest.version@)) ==> {
            let step = recheck_next(
                RecheckState::Kept { manifest },
                RecheckEventView::Kept(Ok(kept)),
            );
            &&& step.0 is Assets
            &&& step.1 matches RecheckActionView::Precache { manifest: asked, batch } && asked
                == manifest && batch.done == 0 && !batch.announced && (manifest.assets@.len()
                <= u32::MAX ==> batch.total == if manifest.assets@.len() == 0 {
                1
            } else {
                manifest.assets@.len() as int
            })
        },
        manifest.version@.len() == 0 || kept == Some(JsonTree::Text(manifest.version@))
            ==> recheck_next(RecheckState::Kept { manifest }, RecheckEventView::Kept(Ok(kept))) == (
            RecheckState::Over,
            RecheckActionView::Finish(Ok(false)),
        ),
        outdated(manifest.version@, kept) <==> manifest.version@.len() > 0 && kept != Some(
            JsonTree::Text(manifest.version@),
        ),
{
}

/// A batch that ended well leads to the version of its manifest being kept, and to nothing else
/// being written; that kept, the check reports a download. Whatever fails ends the check with
/// its own error.
pub proof fn check_ends_with_the_version(
    manifest: AssetManifest,
    error: ErrorView,
    message: Seq<char>,
)
    ensures
        recheck_next(RecheckState::Assets, RecheckEventView::Precached(Ok(manifest))).0
            is Settings,
        recheck_next(RecheckState::Assets, RecheckEventView::Precached(Ok(manifest))).1 matches
            RecheckActionView::Persist(plan) && plan.strict && plan.file == "settings.json"@
            && plan.edits == seq![
            EditView::Put("cached_manifest_version"@, JsonTree::Text(manifest.version@)),
        ],
        recheck_next(RecheckState::Assets, RecheckEventView::Precached(Err(error))) == (
            RecheckState::Over,
            RecheckActionView::Finish(Err(error)),
        ),
        recheck_next(RecheckState::Kept { manifest }, RecheckEventView::Kept(Err(message))) == (
            RecheckState::Over,
            RecheckActionView::Finish(Err(ErrorView::Internal(message))),
        ),
        recheck_next(RecheckState::Settings, RecheckEventView::Persisted(Some(message))) == (
            RecheckState::Over,
            RecheckActionView::Finish(Err(ErrorView::Internal(message))),
        ),
        recheck_next(RecheckState::Settings, RecheckEventView::Persisted(None)) == (
            RecheckState::Over,
            RecheckActionView::Finish(Ok(true)),
        ),
{
}

/// A check moves only on the event that it waits for; any other leaves it where it stands.
pub proof fn check_waits_its_turn(state: RecheckState, event: RecheckEventView)
    ensures
        recheck_next(state, event).1 is Nothing <==> !{
            ||| state is Begin && event is Begin
            ||| state is Manifest && event is Manifest
            ||| state is Kept && event is Kept
            ||| state is Assets && event is Precached
            ||| state is Settings && event is Persisted
        },
        recheck_next(state, event).1 is Nothing ==> recheck_next(state, event).0 == state,
{
}

/// The models of what the preparation and the check learn and ask for hold all of it.
pub proof fn models_hold_the_whole_exchange(
    manifest: AssetManifest,
    error: AppError,
    message: String,
    kept: Json,
    batch: Precache,
    step: SetupStep,
)
    ensures
        SetupEvent::Manifest(manifest)@ == SetupEventView::Manifest(manifest),
        SetupEvent::Precached(Ok(manifest))@ == SetupEventView::Precached(Ok(manifest)),
        SetupEvent::Precached(Err(error))@ == SetupEventView::Precached(Err(error@)),
        SetupEvent::Persisted(Some(message))@ == SetupEventView::Persisted(Some(message@)),
        SetupEvent::Persisted(None)@ == SetupEventView::Persisted(None),
        (SetupAction::Precache { manifest, batch })@ == (SetupActionView::Precache {
            manifest,
            batch,
        }),
        SetupAction::Finish(Err(error))@ == SetupActionView::Finish(Some(error@)),
        SetupAction::Finish(Ok(()))@ == SetupActionView::Finish(None),
        step@.state == step.state,
        step@.action == step.action@,
        step@.progress.len() == step.progress@.len(),
        forall|i: int|
            0 <= i < step.progress@.len() ==> #[trigger] step@.progress[i] == step.progress@[i]@,
        RecheckEvent::Manifest(manifest)@ == RecheckEventView::Manifest(manifest),
        RecheckEvent::Kept(Ok(Some(kept)))@ == RecheckEventView::Kept(Ok(Some(kept@))),
        RecheckEvent::Kept(Ok(None))@ == RecheckEventView::Kept(Ok(None)),
        RecheckEvent::Kept(Err(message))@ == RecheckEventView::Kept(Err(message@)),
        RecheckEvent::Precached(Ok(manifest))@ == RecheckEventView::Precached(Ok(manifest)),
        RecheckEvent::Precached(Err(error))@ == RecheckEventView::Precached(Err(error@)),
        RecheckEvent::Persisted(Some(message))@ == RecheckEventView::Persisted(Some(message@)),
        RecheckEvent::Persisted(None)@ == RecheckEventView::Persisted(None),
        (RecheckAction::Precache { manifest, batch })@ == (RecheckActionView::Precache {
            manifest,
            batch,
        }),
        RecheckAction::Finish(Err(error))@ == RecheckActionView::Finish(Err(error@)),
        RecheckAction::Finish(Ok(true))@ == RecheckActionView::Finish(Ok(true)),
        RecheckAction::Finish(Ok(false))@ == RecheckActionView::Finish(Ok(false)),
{
}

/// Whenever a step of the preparation or of the check asks for the manifest, the request is for
/// the manifest.
pub proof fn manifests_are_asked_for_at_their_address(
    state: SetupState,
    event: SetupEvent,
    step: SetupStep,
    check: RecheckState,
    learned: RecheckEvent,
    checked: (RecheckState, RecheckAction),
)
    requires
        call_ensures(prepare_first_run, (state, event), step),
        call_ensures(recheck_manifest, (check, learned), checked),
    ensures
        step.action matches SetupAction::FetchManifest(request) ==> request@.method == Method::Get
            && request@.url == "https://velmora.cc/api/mobile"@ + "/asset-manifest"@
            && request@.bearer is None,
        step.action is FetchManifest <==> state == SetupState::Probe && event is Probed,
        checked.1 matches RecheckAction::FetchManifest(request) ==> request@.method == Method::Get
            && request@.url == "https://velmora.cc/api/mobile"@ + "/asset-manifest"@
            && request@.bearer is None,
        checked.1 is FetchManifest <==> check is Begin && learned is Begin,
{
}

/// A step of the check downloads the assets of a manifest exactly when its version is not empty
/// and is not the text on disk; else it ends without a download.
pub proof fn other_versions_are_downloaded(
    manifest: AssetManifest,
    kept: Option<Json>,
    step: (RecheckState, RecheckAction),
)
    requires
        call_ensures(
            recheck_manifest,
            (RecheckState::Kept { manifest }, RecheckEvent::Kept(Ok(kept))),
            step,
        ),
    ensures
        step.1 is Precache <==> manifest.version@.len() > 0 && !(kept matches Some(json) && json@
            == JsonTree::Text(manifest.version@)),
        step.1 matches RecheckAction::Precache { manifest: asked, batch } ==> asked == manifest
            && !batch.announced && step.0 is Assets,
        !(step.1 is Precache) ==> step.1@ == RecheckActionView::Finish(Ok(false)) && step.0 is Over,
{
}

/// A start is a first one until the mark is stored.
pub proof fn starts_are_first_until_marked(mark: Option<&Json>, first: bool)
    requires
        call_ensures(is_first_run, (mark,), first),
    ensures
        first <==> !(mark matches Some(json) && json@ == JsonTree::Bool(true)),
{
}

/// The batch of a first start is announced, that of a later check is not; both cover the whole
/// manifest.
pub proof fn only_first_starts_announce(
    manifest: AssetManifest,
    first: Precache,
    later: Precache,
)
    requires
        call_ensures(first_run_batch, (&manifest,), first),
        call_ensures(recheck_batch, (&manifest,), later),
    ensures
        first.announced,
        !later.announced,
        first.done == 0 && later.done == 0,
        first.total == later.total,
        0 < manifest.assets@.len() <= u32::MAX ==> first.total == manifest.assets@.len(),
{
}

} // verus!
