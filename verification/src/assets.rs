//! The assets kept on disk: the manifest, the download of one asset, and the batch.

use vstd::prelude::*;
use crate::api::{
    file_request, plain_get, succeeded, ApiRequest, HttpStatus, Method, RequestView,
};
use crate::error::{AppError, ErrorView};
use crate::text::concat2;

verus! {

/// Directory of the assets under the application's cache directory.
pub const ASSETS_DIR: &'static str = "assets";

/// Extension of a file that is still being written.
pub const PART_EXTENSION: &'static str = "part";

/// How many assets are downloaded at the same time.
pub const ASSET_PARALLELISM: usize = 8;

// ---- The directory ----

/// What can go wrong with the directory of the assets.
#[derive(Debug, PartialEq, Eq)]
pub enum DirectoryFault {
    /// The system names no cache directory.
    NoCache(String),
    /// The directory cannot be made.
    NotMade(String),
}

/// The error of a batch that has no directory to write to.
pub fn directory_error(fault: DirectoryFault) -> (error: AppError)
    ensures
        error@ == match fault {
            DirectoryFault::NoCache(e) => ErrorView::Internal("app_cache_dir : "@ + e@),
            DirectoryFault::NotMade(e) => ErrorView::Internal("mkdir assets : "@ + e@),
        },
{
    match fault {
        DirectoryFault::NoCache(e) => AppError::Internal(concat2("app_cache_dir : ", e.as_str())),
        DirectoryFault::NotMade(e) => AppError::Internal(concat2("mkdir assets : ", e.as_str())),
    }
}

// ---- The manifest ----

/// An asset that the manifest lists.
#[derive(Debug, PartialEq, Eq, Clone)]
pub struct AssetEntry {
    /// Name of the file.
    pub key: String,
    pub url: String,
    pub category: String,
    /// Size of the file, zero where it is not known.
    pub size: u64,
    pub sha: String,
}

/// Mathematical model of [`AssetEntry`].
pub struct AssetView {
    pub key: Seq<char>,
    pub url: Seq<char>,
    pub category: Seq<char>,
    pub size: u64,
    pub sha: Seq<char>,
}

impl View for AssetEntry {
    type V = AssetView;

    open spec fn view(&self) -> AssetView {
        AssetView {
            key: self.key@,
            url: self.url@,
            category: self.category@,
            size: self.size,
            sha: self.sha@,
        }
    }
}

/// The assets that the server wants kept on disk.
#[derive(Debug, PartialEq, Eq)]
pub struct AssetManifest {
    pub version: String,
    pub assets: Vec<AssetEntry>,
    pub count: u32,
}

/// How the request of the manifest went.
#[derive(Debug)]
pub enum ManifestReply {
    /// No answer came.
    Unreachable,
    /// An answer came; its body is there where it could be decoded.
    Answered(HttpStatus, Option<AssetManifest>),
}

/// The manifest that a reply brings, if it does.
pub open spec fn delivered(reply: ManifestReply) -> Option<AssetManifest> {
    match reply {
        ManifestReply::Answered(status, Some(manifest)) => if succeeded(status.code_view()) {
            Some(manifest)
        } else {
            None
        },
        _ => None,
    }
}

/// The manifest to go by: an empty one, where the server delivers none. The launcher does
/// not wait for a manifest that is not to be had for the moment.
pub fn fetch_manifest(reply: ManifestReply) -> (manifest: AssetManifest)
    ensures
        match delivered(reply) {
            Some(m) => manifest == m,
            None => manifest.version@.len() == 0 && manifest.assets@.len() == 0 && manifest.count
                == 0,
        },
{
    match reply {
        ManifestReply::Answered(status, Some(manifest)) => {
            if status.is_success() {
                return manifest;
            }
        },
        _ => {},
    }
    AssetManifest { version: String::new(), assets: Vec::new(), count: 0 }
}

// ---- One asset ----

/// Where the download of an asset stands: what it waits for.
#[derive(Debug, PartialEq, Eq, Clone, Copy, Structural)]
pub enum AssetState {
    Begin,
    /// The size of the file that is there, if one is.
    Probe,
    Answer,
    Body,
    Written,
    Renamed,
    Over,
}

/// What the download of an asset learns.
#[derive(Debug, PartialEq, Eq, Clone, Copy)]
pub enum AssetEvent {
    Begin,
    /// The size of the file that is there, if one is.
    Size(Option<u64>),
    /// The status of the answer, if one came.
    Answer(Option<HttpStatus>),
    /// Whether the body could be read.
    Body(bool),
    /// Whether the file being written is complete.
    Written(bool),
    /// Whether it took its final name.
    Renamed(bool),
}

/// What the download of an asset asks for next. A file is named by its place under the
/// directory of the assets.
#[derive(Debug, PartialEq, Eq)]
pub enum AssetAction {
    /// Measure the file of this name.
    Measure { file: String },
    /// Request the asset.
    Request(ApiRequest),
    /// Read the body of the answer.
    ReadBody,
    /// Write the body to the file of this name, with this extension in place of its own.
    WritePart { file: String, extension: String },
    /// Give the file so written the name itself.
    RenamePart { file: String, extension: String },
    /// Whether the asset is on disk now.
    Finish(bool),
    /// The event is none that the download waits for.
    Nothing,
}

/// Mathematical model of [`AssetAction`].
pub enum AssetActionView {
    Measure { file: Seq<char> },
    Request(RequestView),
    ReadBody,
    WritePart { file: Seq<char>, extension: Seq<char> },
    RenamePart { file: Seq<char>, extension: Seq<char> },
    Finish(bool),
    Nothing,
}

impl View for AssetAction {
    type V = AssetActionView;

    open spec fn view(&self) -> AssetActionView {
        match self {
            AssetAction::Measure { file } => AssetActionView::Measure { file: file@ },
            AssetAction::Request(request) => AssetActionView::Request(request@),
            AssetAction::ReadBody => AssetActionView::ReadBody,
            AssetAction::WritePart { file, extension } => AssetActionView::WritePart {
                file: file@,
                extension: extension@,
            },
            AssetAction::RenamePart { file, extension } => AssetActionView::RenamePart {
                file: file@,
                extension: extension@,
            },
            AssetAction::Finish(present) => AssetActionView::Finish(*present),
            AssetAction::Nothing => AssetActionView::Nothing,
        }
    }
}

/// Whether a file of `found` bytes is taken for the asset.
pub open spec fn up_to_date(size: u64, found: Option<u64>) -> bool {
    match found {
        Some(length) => size == 0 || length == size,
        None => false,
    }
}

/// The step to the next state where `good`, else to failure.
pub open spec fn proceed(good: bool, state: AssetState, action: AssetActionView) -> (
    AssetState,
    AssetActionView,
) {
    if good {
        (state, action)
    } else {
        (AssetState::Over, AssetActionView::Finish(false))
    }
}

/// The steps of the download of an asset: it is fetched from its address, and written to the
/// file named by its key, by way of a file with the extension [`PART_EXTENSION`].
pub open spec fn asset_next(asset: AssetView, state: AssetState, event: AssetEvent) -> (
    AssetState,
    AssetActionView,
) {
    match (state, event) {
        (AssetState::Begin, AssetEvent::Begin) => (
            AssetState::Probe,
            AssetActionView::Measure { file: asset.key },
        ),
        (AssetState::Probe, AssetEvent::Size(found)) => if up_to_date(asset.size, found) {
            (AssetState::Over, AssetActionView::Finish(true))
        } else {
            (AssetState::Answer, AssetActionView::Request(plain_get(asset.url)))
        },
        (AssetState::Answer, AssetEvent::Answer(status)) => proceed(
            status matches Some(s) && succeeded(s.code_view()),
            AssetState::Body,
            AssetActionView::ReadBody,
        ),
        (AssetState::Body, AssetEvent::Body(read)) => proceed(
            read,
            AssetState::Written,
            AssetActionView::WritePart { file: asset.key, extension: PART_EXTENSION@ },
        ),
        (AssetState::Written, AssetEvent::Written(complete)) => proceed(
            complete,
            AssetState::Renamed,
            AssetActionView::RenamePart { file: asset.key, extension: PART_EXTENSION@ },
        ),
        (AssetState::Renamed, AssetEvent::Renamed(done)) => (
            AssetState::Over,
            AssetActionView::Finish(done),
        ),
        _ => (state, AssetActionView::Nothing),
    }
}

fn advance(good: bool, state: AssetState, action: AssetAction) -> (step: (AssetState, AssetAction))
    ensures
        (step.0, step.1@) == proceed(good, state, action@),
{
    if good {
        (state, action)
    } else {
        (AssetState::Over, AssetAction::Finish(false))
    }
}

/// One step of the download of an asset. A file of the right size is left alone, and a
/// failure of any kind only means that the asset is not there.
pub fn ensure_asset_cached(asset: &AssetEntry, state: AssetState, event: AssetEvent) -> (step: (
    AssetState,
    AssetAction,
))
    ensures
        (step.0, step.1@) == asset_next(asset@, state, event),
{
    match (state, event) {
        (AssetState::Begin, AssetEvent::Begin) => (
            AssetState::Probe,
            AssetAction::Measure { file: asset.key.clone() },
        ),
        (AssetState::Probe, AssetEvent::Size(found)) => {
            let fresh: bool = match found {
                Some(length) => asset.size == 0 || length == asset.size,
                None => false,
            };
            if fresh {
                (AssetState::Over, AssetAction::Finish(true))
            } else {
                (AssetState::Answer, AssetAction::Request(file_request(asset.url.as_str())))
            }
        },
        (AssetState::Answer, AssetEvent::Answer(status)) => {
            let good: bool = match status {
                Some(s) => s.is_success(),
                None => false,
            };
            advance(good, AssetState::Body, AssetAction::ReadBody)
        },
        (AssetState::Body, AssetEvent::Body(read)) => advance(
            read,
            AssetState::Written,
            AssetAction::WritePart {
                file: asset.key.clone(),
                extension: PART_EXTENSION.to_owned(),
            },
        ),
        (AssetState::Written, AssetEvent::Written(complete)) => advance(
            complete,
            AssetState::Renamed,
            AssetAction::RenamePart {
                file: asset.key.clone(),
                extension: PART_EXTENSION.to_owned(),
            },
        ),
        (AssetState::Renamed, AssetEvent::Renamed(done)) => (
            AssetState::Over,
            AssetAction::Finish(done),
        ),
        _ => (state, AssetAction::Nothing),
    }
}

/// Where a download stands after a series of events, and what it asked for last.
pub open spec fn asset_run(asset: AssetView, events: Seq<AssetEvent>) -> (
    AssetState,
    AssetActionView,
)
    decreases events.len(),
{
    if events.len() == 0 {
        (AssetState::Begin, AssetActionView::Nothing)
    } else {
        asset_next(asset, asset_run(asset, events.drop_last()).0, events.last())
    }
}

/// The events that a download has to go through before it stands where it does.
spec fn asset_past(asset: AssetView, events: Seq<AssetEvent>) -> bool {
    match asset_run(asset, events).0 {
        AssetState::Body => exists|a: int|
            0 <= a < events.len() && got_answer(#[trigger] events[a]),
        AssetState::Written => exists|a: int, b: int|
            0 <= a < b < events.len() && got_answer(#[trigger] events[a]) && #[trigger] events[b]
                == AssetEvent::Body(true),
        AssetState::Renamed => whole_file_written(events),
        _ => true,
    }
}

/// Whether an event is an answer that succeeded.
pub open spec fn got_answer(event: AssetEvent) -> bool {
    event matches AssetEvent::Answer(Some(status)) && succeeded(status.code_view())
}

/// Whether a series of events holds an answer that succeeded, then its whole body, then its
/// whole body written.
pub open spec fn whole_file_written(events: Seq<AssetEvent>) -> bool {
    exists|a: int, b: int, c: int|
        0 <= a < b < c < events.len() && got_answer(#[trigger] events[a]) && #[trigger] events[b]
            == AssetEvent::Body(true) && #[trigger] events[c] == AssetEvent::Written(true)
}

proof fn run_has_asset_past(asset: AssetView, events: Seq<AssetEvent>)
    ensures
        asset_past(asset, events),
    decreases events.len(),
{
    if events.len() > 0 {
        let before = events.drop_last();
        let n = before.len() as int;
        run_has_asset_past(asset, before);
        let state = asset_run(asset, before).0;
        assert(forall|i: int| 0 <= i < n ==> events[i] == #[trigger] before[i]);
        assert(events[n] == events.last());
        match asset_run(asset, events).0 {
            AssetState::Body => {
                if state == AssetState::Body {
                    let a = choose|a: int| 0 <= a < n && got_answer(#[trigger] before[a]);
                    assert(got_answer(events[a]));
                } else {
                    assert(got_answer(events[n]));
                }
            },
            AssetState::Written => {
                if state == AssetState::Written {
                    let (a, b) = choose|a: int, b: int|
                        0 <= a < b < n && got_answer(#[trigger] before[a]) && #[trigger] before[b]
                            == AssetEvent::Body(true);
                    assert(got_answer(events[a]) && events[b] == AssetEvent::Body(true));
                } else {
                    let a = choose|a: int| 0 <= a < n && got_answer(#[trigger] before[a]);
                    assert(got_answer(events[a]) && events[n] == AssetEvent::Body(true));
                }
            },
            AssetState::Renamed => {
                if state == AssetState::Renamed {
                    let (a, b, c) = choose|a: int, b: int, c: int|
                        0 <= a < b < c < n && got_answer(#[trigger] before[a])
                            && #[trigger] before[b] == AssetEvent::Body(true)
                            && #[trigger] before[c] == AssetEvent::Written(true);
                    assert(got_answer(events[a]) && events[b] == AssetEvent::Body(true)
                        && events[c] == AssetEvent::Written(true));
                } else {
                    let (a, b) = choose|a: int, b: int|
                        0 <= a < b < n && got_answer(#[trigger] before[a]) && #[trigger] before[b]
                            == AssetEvent::Body(true);
                    assert(got_answer(events[a]) && events[b] == AssetEvent::Body(true)
                        && events[n] == AssetEvent::Written(true));
                }
            },
            _ => {},
        }
    }
}

/// A file takes its final name only after an answer that succeeded was read and written
/// whole: a download cut short leaves no file that passes for the asset. The file that is
/// renamed is the one that was written.
pub proof fn only_whole_files_are_renamed(asset: AssetView, events: Seq<AssetEvent>)
    ensures
        asset_run(asset, events).1 is RenamePart ==> whole_file_written(events) && asset_run(
            asset,
            events,
        ).1 == (AssetActionView::RenamePart { file: asset.key, extension: PART_EXTENSION@ })
            && asset_run(asset, events.drop_last()).0 == AssetState::Written,
        asset_run(asset, events).1 is WritePart ==> asset_run(asset, events).1 == (
        AssetActionView::WritePart { file: asset.key, extension: PART_EXTENSION@ }),
{
    run_has_asset_past(asset, events);
}

/// An asset is reported as present only where a file of its size was there to begin with, or
/// where a whole file took its final name.
pub proof fn reported_assets_are_there(asset: AssetView, events: Seq<AssetEvent>)
    requires
        events.len() > 0,
        asset_run(asset, events).1 == AssetActionView::Finish(true),
    ensures
        (events.last() matches AssetEvent::Size(found) && up_to_date(asset.size, found)) || (
        events.last() == AssetEvent::Renamed(true) && whole_file_written(events.drop_last())),
{
    run_has_asset_past(asset, events.drop_last());
}

// ---- The batch ----

/// What the interface shows of the preparation.
#[derive(Debug, PartialEq, Eq)]
pub struct SetupProgress {
    pub step: String,
    pub label: String,
    pub current: u32,
    pub total: u32,
}

/// Mathematical model of [`SetupProgress`].
pub struct ProgressView {
    pub step: Seq<char>,
    pub label: Seq<char>,
    pub current: u32,
    pub total: u32,
}

impl View for SetupProgress {
    type V = ProgressView;

    open spec fn view(&self) -> ProgressView {
        ProgressView {
            step: self.step@,
            label: self.label@,
            current: self.current,
            total: self.total,
        }
    }
}

/// The number of steps that a batch announces: at least one, and reduced to 32 bits.
pub open spec fn batch_total(assets: nat) -> u32 {
    if assets == 0 {
        1
    } else {
        (assets % 0x1_0000_0000) as u32
    }
}

/// The download of every asset of a manifest.
#[derive(Debug, PartialEq, Eq)]
pub struct Precache {
    /// How many downloads are over, whichever way they went.
    pub done: u32,
    pub total: u32,
    /// Whether the interface is told of each.
    pub announced: bool,
}

/// A batch on a manifest, before any of its downloads is over.
pub open spec fn started(manifest: AssetManifest, announced: bool) -> Precache {
    Precache { done: 0, total: batch_total(manifest.assets@.len()), announced }
}

/// A batch once one more of its downloads is over.
pub open spec fn one_more_done(batch: Precache) -> Precache {
    Precache { done: (batch.done + 1) as u32, ..batch }
}

/// What the interface is told of the download that ended last.
pub open spec fn download_progress(batch: Precache, key: Seq<char>) -> Option<ProgressView> {
    if batch.announced {
        Some(
            ProgressView {
                step: "assets"@,
                label: "Téléchargement : "@ + key,
                current: batch.done,
                total: batch.total,
            },
        )
    } else {
        None
    }
}

impl Precache {
    /// Starts on a manifest.
    pub fn start(manifest: &AssetManifest, announced: bool) -> (batch: Precache)
        ensures
            batch == started(*manifest, announced),
    {
        let count: u64 = manifest.assets.len() as u64;
        let total: u32 = if count == 0 {
            1
        } else {
            #[verifier::truncate]
            let low: u32 = count as u32;
            assert(count as u32 == count % 0x1_0000_0000u64) by (bit_vector);
            low
        };
        Precache { done: 0, total, announced }
    }

    /// Counts a download that is over, and says what the interface is told of it.
    pub fn asset_done(&mut self, key: &str) -> (progress: Option<SetupProgress>)
        requires
            old(self).done < u32::MAX,
        ensures
            *final(self) == one_more_done(*old(self)),
            match progress {
                Some(p) => download_progress(*final(self), key@) == Some(p@),
                None => download_progress(*final(self), key@) is None,
            },
    {
        self.done = self.done + 1;
        if self.announced {
            Some(
                SetupProgress {
                    step: "assets".to_owned(),
                    label: concat2("Téléchargement : ", key),
                    current: self.done,
                    total: self.total,
                },
            )
        } else {
            None
        }
    }
}

/// A batch after the downloads of these keys, in the order in which they ended, and what the
/// interface was told of them.
pub open spec fn batch_run(batch: Precache, keys: Seq<Seq<char>>) -> (Precache, Seq<ProgressView>)
    decreases keys.len(),
{
    if keys.len() == 0 {
        (batch, Seq::empty())
    } else {
        let (before, told) = batch_run(batch, keys.drop_last());
        let after = one_more_done(before);
        (
            after,
            match download_progress(after, keys.last()) {
                Some(progress) => told.push(progress),
                None => told,
            },
        )
    }
}

/// Once n downloads of a batch are over, in whichever order they ended, it counts n of them.
/// Where it is announced, the n-th to end was announced by its own key, as the n-th of the
/// total; where it is not, the interface was told nothing.
pub proof fn downloads_are_counted_as_they_end(
    manifest: AssetManifest,
    announced: bool,
    keys: Seq<Seq<char>>,
)
    requires
        keys.len() <= u32::MAX,
    ensures
        batch_run(started(manifest, announced), keys).0 == (Precache {
            done: keys.len() as u32,
            ..started(manifest, announced)
        }),
        batch_run(started(manifest, announced), keys).1 == if announced {
            Seq::new(
                keys.len(),
                |i: int|
                    ProgressView {
                        step: "assets"@,
                        label: "Téléchargement : "@ + keys[i],
                        current: (i + 1) as u32,
                        total: batch_total(manifest.assets@.len()),
                    },
            )
        } else {
            Seq::empty()
        },
    decreases keys.len(),
{
    if keys.len() > 0 {
        downloads_are_counted_as_they_end(manifest, announced, keys.drop_last());
    }
}

/// The bar of an announced batch is never overrun, and it is full exactly when every download
/// is over.
pub proof fn last_download_completes_the_batch(manifest: AssetManifest, keys: Seq<Seq<char>>)
    requires
        0 < keys.len() <= manifest.assets@.len() <= u32::MAX,
    ensures
        ({
            let told = batch_run(started(manifest, true), keys).1;
            &&& told.last().current <= told.last().total
            &&& told.last().current == told.last().total <==> keys.len()
                == manifest.assets@.len()
        }),
{
    downloads_are_counted_as_they_end(manifest, true, keys);
}

/// A manifest is delivered exactly by an answer of success whose body could be decoded, and it
/// is that body.
pub proof fn manifests_come_from_successful_answers(reply: ManifestReply, manifest: AssetManifest)
    ensures
        delivered(reply) == Some(manifest) <==> (reply matches ManifestReply::Answered(
            status,
            Some(body),
        ) && body == manifest && status.code_view() / 100 == 2),
        delivered(reply) is None <==> !(reply matches ManifestReply::Answered(status, Some(_))
            && status.code_view() / 100 == 2),
{
}

/// A download starts by measuring the file named by the asset's key. A file is taken for the
/// asset exactly when it has the size that the manifest gives, or any size where it gives none;
/// else the asset's own address is requested.
pub proof fn files_of_another_size_are_fetched_again(asset: AssetView, found: Option<u64>)
    ensures
        asset_next(asset, AssetState::Begin, AssetEvent::Begin) == (
            AssetState::Probe,
            AssetActionView::Measure { file: asset.key },
        ),
        found is Some && (asset.size == 0 || found == Some(asset.size)) ==> asset_next(
            asset,
            AssetState::Probe,
            AssetEvent::Size(found),
        ) == (AssetState::Over, AssetActionView::Finish(true)),
        found is None || (asset.size != 0 && found != Some(asset.size)) ==> asset_next(
            asset,
            AssetState::Probe,
            AssetEvent::Size(found),
        ) == (
            AssetState::Answer,
            AssetActionView::Request(
                RequestView {
                    method: Method::Get,
                    url: asset.url,
                    bearer: None,
                    accept_json: false,
                    since: None,
                    body: None,
                },
            ),
        ),
        up_to_date(asset.size, found) <==> found is Some && (asset.size == 0 || found == Some(
            asset.size,
        )),
{
}

/// An answer of success is read, its body written beside the asset's file, and what was written
/// takes the file's name; whatever fails on the way ends the download without the asset.
pub proof fn downloads_go_on_while_all_goes_well(
    asset: AssetView,
    answer: Option<HttpStatus>,
    good: bool,
)
    ensures
        asset_next(asset, AssetState::Answer, AssetEvent::Answer(answer)) == if answer matches Some(
            status,
        ) && status.code_view() / 100 == 2 {
            (AssetState::Body, AssetActionView::ReadBody)
        } else {
            (AssetState::Over, AssetActionView::Finish(false))
        },
        asset_next(asset, AssetState::Body, AssetEvent::Body(good)) == if good {
            (
                AssetState::Written,
                AssetActionView::WritePart { file: asset.key, extension: "part"@ },
            )
        } else {
            (AssetState::Over, AssetActionView::Finish(false))
        },
        asset_next(asset, AssetState::Written, AssetEvent::Written(good)) == if good {
            (
                AssetState::Renamed,
                AssetActionView::RenamePart { file: asset.key, extension: "part"@ },
            )
        } else {
            (AssetState::Over, AssetActionView::Finish(false))
        },
        asset_next(asset, AssetState::Renamed, AssetEvent::Renamed(good)) == (
            AssetState::Over,
            AssetActionView::Finish(good),
        ),
{
}

/// A download moves only on the event that it waits for; any other leaves it where it stands.
pub proof fn downloads_wait_their_turn(asset: AssetView, state: AssetState, event: AssetEvent)
    ensures
        asset_next(asset, state, event).1 is Nothing <==> !{
            ||| state == AssetState::Begin && event is Begin
            ||| state == AssetState::Probe && event is Size
            ||| state == AssetState::Answer && event is Answer
            ||| state == AssetState::Body && event is Body
            ||| state == AssetState::Written && event is Written
            ||| state == AssetState::Renamed && event is Renamed
        },
        asset_next(asset, state, event).1 is Nothing ==> asset_next(asset, state, event).0 == state,
{
}

/// A batch announces as many steps as it has assets, and one where it has none.
pub proof fn batches_announce_their_assets(manifest: AssetManifest, announced: bool)
    ensures
        started(manifest, announced).done == 0,
        started(manifest, announced).announced == announced,
        manifest.assets@.len() == 0 ==> started(manifest, announced).total == 1,
        0 < manifest.assets@.len() <= u32::MAX ==> started(manifest, announced).total
            == manifest.assets@.len(),
        manifest.assets@.len() > 0 ==> started(manifest, announced).total
            == manifest.assets@.len() % 0x1_0000_0000,
{
}

/// The models of an asset, of what its download asks for and of what the interface is told hold
/// all of it.
pub proof fn models_hold_the_whole_download(
    asset: AssetEntry,
    progress: SetupProgress,
    file: String,
    extension: String,
    request: ApiRequest,
)
    ensures
        asset@.key == asset.key@,
        asset@.url == asset.url@,
        asset@.category == asset.category@,
        asset@.size == asset.size,
        asset@.sha == asset.sha@,
        progress@.step == progress.step@,
        progress@.label == progress.label@,
        progress@.current == progress.current,
        progress@.total == progress.total,
        (AssetAction::Measure { file })@ == (AssetActionView::Measure { file: file@ }),
        AssetAction::Request(request)@ == AssetActionView::Request(request@),
        (AssetAction::WritePart { file, extension })@ == (AssetActionView::WritePart {
            file: file@,
            extension: extension@,
        }),
        (AssetAction::RenamePart { file, extension })@ == (AssetActionView::RenamePart {
            file: file@,
            extension: extension@,
        }),
{
}

/// A file that is not of the size that the manifest gives is never reported as the asset: its
/// address is requested next.
pub proof fn stale_files_are_replaced(
    asset: AssetEntry,
    found: Option<u64>,
    step: (AssetState, AssetAction),
)
    requires
        call_ensures(
            ensure_asset_cached,
            (&asset, AssetState::Probe, AssetEvent::Size(found)),
            step,
        ),
    ensures
        step.1 is Finish <==> found is Some && (asset.size == 0 || found == Some(asset.size)),
        step.1 matches AssetAction::Finish(present) ==> present && step.0 == AssetState::Over,
        !(step.1 is Finish) ==> (step.1 matches AssetAction::Request(request) && request@.url
            == asset.url@ && request@.method == Method::Get && request@.bearer is None && step.0
            == AssetState::Answer),
{
}

/// The manifest to go by is the one that an answer of success brought; without one it is empty.
pub proof fn undelivered_manifests_are_empty(reply: ManifestReply, manifest: AssetManifest)
    requires
        call_ensures(fetch_manifest, (reply,), manifest),
    ensures
        match reply {
            ManifestReply::Answered(status, Some(body)) => if status.code_view() / 100 == 2 {
                manifest == body
            } else {
                manifest.version@.len() == 0 && manifest.assets@.len() == 0 && manifest.count == 0
            },
            _ => manifest.version@.len() == 0 && manifest.assets@.len() == 0 && manifest.count == 0,
        },
{
}

/// A batch without a directory is an internal error that says what is missing, and why.
pub proof fn directory_errors_say_what_is_missing(
    message: String,
    unnamed: AppError,
    unmade: AppError,
)
    requires
        call_ensures(directory_error, (DirectoryFault::NoCache(message),), unnamed),
        call_ensures(directory_error, (DirectoryFault::NotMade(message),), unmade),
    ensures
        unnamed@ == ErrorView::Internal("app_cache_dir : "@ + message@),
        unmade@ == ErrorView::Internal("mkdir assets : "@ + message@),
{
}

/// Each download that ends is counted once and, in a batch that is announced, announced by its
/// key and its number.
pub proof fn downloads_are_announced_by_key_and_number(
    batch: &mut Precache,
    key: &str,
    progress: Option<SetupProgress>,
)
    requires
        old(batch).done < u32::MAX,
        call_ensures(Precache::asset_done, (batch, key), progress),
    ensures
        final(batch).done == old(batch).done + 1,
        final(batch).total == old(batch).total,
        final(batch).announced == old(batch).announced,
        progress is Some <==> old(batch).announced,
        progress matches Some(p) ==> p.step@ == "assets"@ && p.label@ == "Téléchargement : "@ + key@
            && p.current == old(batch).done + 1 && p.total == old(batch).total,
{
}

} // verus!
