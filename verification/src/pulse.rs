//! The pulse: what the launcher learns from the server at regular intervals.
//!
//! A tick reads the server's snapshot and what earlier ticks kept on disk. It notifies the
//! player of new missives, battles, finished constructions and fresh daily quests, keeps
//! what the next tick needs, and sums up the state for the tray and the badge.

use std::collections::HashSet;
use vstd::prelude::*;
use vstd::string::*;
use crate::json::{integers_tree, integers_value, opt_tree, Json, JsonTree};
use crate::session::TOKEN_KEY;
use crate::store::{
    after_plan, after_plans, plan_touches_one_key, single, single_plan, stored, text_of,
    write_string_setting, DiskView, Edit, EditView, PlanView, StorePlan, STORE_FILE,
};
use crate::text::{concat2, decimal, decimal_string, opt_text};

verus! {

/// Seconds between two ticks.
pub const PULSE_INTERVAL_SECS: u64 = 60;

/// Key of the cursor: the moment of the last snapshot.
pub const PULSE_CURSOR_KEY: &'static str = "pulse_cursor_at";

/// Key of the constructions that were pending at the last tick.
pub const PULSE_SEEN_CONSTRUCTIONS_KEY: &'static str = "pulse_seen_constructions";

/// Key of the day whose quests were announced last.
pub const PULSE_LAST_QUESTS_DATE_KEY: &'static str = "pulse_last_quests_date";

// ---- Summary ----

/// What the tray and the badge show.
#[derive(Clone, Copy, Debug, PartialEq, Eq, Structural)]
pub struct PulseSummary {
    pub missives_unread: u32,
    pub pending_constructions: u32,
    pub queued_construction_jobs: u32,
    pub incoming_battles: u32,
    pub quests_pending: u32,
    pub server_ok: bool,
}

impl Default for PulseSummary {
    fn default() -> (summary: PulseSummary)
        ensures
            summary == (PulseSummary {
                missives_unread: 0,
                pending_constructions: 0,
                queued_construction_jobs: 0,
                incoming_battles: 0,
                quests_pending: 0,
                server_ok: false,
            }),
    {
        PulseSummary {
            missives_unread: 0,
            pending_constructions: 0,
            queued_construction_jobs: 0,
            incoming_battles: 0,
            quests_pending: 0,
            server_ok: false,
        }
    }
}

impl PulseSummary {
    /// The summary shown before the first tick: nothing to report, the server taken to be up.
    pub fn initial() -> (summary: PulseSummary)
        ensures
            summary == (PulseSummary {
                missives_unread: 0,
                pending_constructions: 0,
                queued_construction_jobs: 0,
                incoming_battles: 0,
                quests_pending: 0,
                server_ok: true,
            }),
    {
        PulseSummary { server_ok: true, ..PulseSummary::default() }
    }

    /// What the badge counts: unread missives and battles, up to the largest `u32`.
    pub open spec fn badge(self) -> int {
        let sum = self.missives_unread + self.incoming_battles;
        if sum <= u32::MAX {
            sum
        } else {
            u32::MAX as int
        }
    }

    /// What the badge counts.
    pub fn badge_count(&self) -> (count: u32)
        ensures
            count == self.badge(),
    {
        self.missives_unread.saturating_add(self.incoming_battles)
    }

    /// The badge itself: none, where there is nothing to count.
    pub fn badge_value(&self) -> (value: Option<i64>)
        ensures
            value == if self.badge() == 0 {
                None
            } else {
                Some(self.badge() as i64)
            },
    {
        let count: u32 = self.badge_count();
        if count == 0 {
            None
        } else {
            Some(count as i64)
        }
    }
}

/// A count reduced to 32 bits.
pub open spec fn wrap32(n: int) -> u32 {
    (n % 0x1_0000_0000) as u32
}

fn low_word(n: u64) -> (low: u32)
    ensures
        low == wrap32(n as int),
{
    #[verifier::truncate]
    let low: u32 = n as u32;
    assert(n as u32 == n % 0x1_0000_0000u64) by (bit_vector);
    low
}

// ---- Notifications ----

/// A notification of the operating system.
#[derive(Debug, PartialEq, Eq)]
pub struct Notification {
    pub title: String,
    pub body: String,
}

/// Mathematical model of [`Notification`].
pub struct NoticeView {
    pub title: Seq<char>,
    pub body: Seq<char>,
}

impl View for Notification {
    type V = NoticeView;

    open spec fn view(&self) -> NoticeView {
        NoticeView { title: self.title@, body: self.body@ }
    }
}

/// The models of a series of notifications.
pub open spec fn notices(list: Seq<Notification>) -> Seq<NoticeView> {
    list.map_values(|n: Notification| n@)
}

/// The string in a field, or `default` where there is none.
pub open spec fn text_or(document: JsonTree, key: Seq<char>, default: Seq<char>) -> Seq<char> {
    match document.text_at(key) {
        Some(text) => text,
        None => default,
    }
}

/// The unsigned integer in a field, or zero where there is none.
pub open spec fn count_at(document: JsonTree, key: Seq<char>) -> u64 {
    match document.unsigned_at(key) {
        Some(n) => n,
        None => 0,
    }
}

/// The elements of the array in a field, or none where there is no array.
pub open spec fn list_at(document: JsonTree, key: Seq<char>) -> Seq<JsonTree> {
    match document.items_at(key) {
        Some(items) => items,
        None => Seq::empty(),
    }
}

/// The notification of a missive.
pub open spec fn missive_notice(missive: JsonTree) -> NoticeView {
    NoticeView {
        title: "Velmora — "@ + text_or(missive, "subject"@, "Nouvelle missive"@),
        body: "De : "@ + text_or(missive, "sender"@, "Un seigneur"@),
    }
}

/// The notification of a battle.
pub open spec fn battle_notice(battle: JsonTree) -> NoticeView {
    NoticeView {
        title: "Velmora — Forteresse attaquée"@,
        body: text_or(battle, "attacker"@, "Un assaillant"@) + " vous a assailli ("@ + text_or(
            battle,
            "result"@,
            ""@,
        ) + ")"@,
    }
}

/// The notification of a finished construction. The snapshot no longer lists it, so that
/// its name is not known any more.
pub open spec fn finished_notice() -> NoticeView {
    NoticeView { title: "Velmora — Chantier terminé"@, body: "Chantier"@ }
}

/// The notification of the day's quests.
pub open spec fn quests_notice(pending: u64) -> NoticeView {
    NoticeView {
        title: "Velmora — Quêtes du jour"@,
        body: decimal(pending as nat) + " quête(s) disponible(s) au royaume"@,
    }
}

fn str_or<'a>(document: &'a Json, key: &str, default: &'a str) -> (text: &'a str)
    ensures
        text@ == text_or(document@, key@, default@),
{
    match document.str_at(key) {
        Some(text) => text,
        None => default,
    }
}

fn missive_notification(missive: &Json) -> (notification: Notification)
    ensures
        notification@ == missive_notice(missive@),
{
    Notification {
        title: concat2("Velmora — ", str_or(missive, "subject", "Nouvelle missive")),
        body: concat2("De : ", str_or(missive, "sender", "Un seigneur")),
    }
}

fn battle_notification(battle: &Json) -> (notification: Notification)
    ensures
        notification@ == battle_notice(battle@),
{
    let mut body = concat2(str_or(battle, "attacker", "Un assaillant"), " vous a assailli (");
    body.append(str_or(battle, "result", ""));
    body.append(")");
    Notification { title: "Velmora — Forteresse attaquée".to_owned(), body }
}

fn finished_notification() -> (notification: Notification)
    ensures
        notification@ == finished_notice(),
{
    Notification {
        title: "Velmora — Chantier terminé".to_owned(),
        body: "Chantier".to_owned(),
    }
}

fn quests_notification(pending: u64) -> (notification: Notification)
    ensures
        notification@ == quests_notice(pending),
{
    Notification {
        title: "Velmora — Quêtes du jour".to_owned(),
        body: concat2(decimal_string(pending).as_str(), " quête(s) disponible(s) au royaume"),
    }
}

fn add_notice(list: &mut Vec<Notification>, notification: Notification)
    ensures
        notices(final(list)@) == notices(old(list)@).push(notification@),
{
    list.push(notification);
    assert(notices(list@) =~= notices(old(list)@).push(notification@));
}

/// The notifications of the missives in a snapshot.
pub open spec fn missive_notices(payload: JsonTree) -> Seq<NoticeView> {
    list_at(payload, "missives_recent"@).map_values(|m: JsonTree| missive_notice(m))
}

/// The notifications of the battles in a snapshot.
pub open spec fn battle_notices(payload: JsonTree) -> Seq<NoticeView> {
    list_at(payload, "battles_received"@).map_values(|b: JsonTree| battle_notice(b))
}

fn notify_missives(list: &mut Vec<Notification>, payload: &Json)
    ensures
        notices(final(list)@) == notices(old(list)@) + missive_notices(payload@),
{
    match payload.array_at("missives_recent") {
        Some(items) => {
            let ghost trees = list_at(payload@, "missives_recent"@);
            let mut i: usize = 0;
            while i < items.len()
                invariant
                    i <= items@.len(),
                    trees.len() == items@.len(),
                    forall|k: int| 0 <= k < trees.len() ==> #[trigger] trees[k] == items@[k]@,
                    notices(list@) == notices(old(list)@) + trees.take(i as int).map_values(
                        |m: JsonTree| missive_notice(m),
                    ),
                decreases items.len() - i,
            {
                assert(trees.take(i + 1).map_values(|m: JsonTree| missive_notice(m))
                    =~= trees.take(i as int).map_values(|m: JsonTree| missive_notice(m)).push(
                    missive_notice(trees[i as int]),
                ));
                add_notice(list, missive_notification(&items[i]));
                i = i + 1;
            }
            assert(trees.take(i as int) =~= trees);
        },
        None => {
            assert(missive_notices(payload@) =~= Seq::empty());
        },
    }
}

fn notify_battles(list: &mut Vec<Notification>, payload: &Json)
    ensures
        notices(final(list)@) == notices(old(list)@) + battle_notices(payload@),
{
    match payload.array_at("battles_received") {
        Some(items) => {
            let ghost trees = list_at(payload@, "battles_received"@);
            let mut i: usize = 0;
            while i < items.len()
                invariant
                    i <= items@.len(),
                    trees.len() == items@.len(),
                    forall|k: int| 0 <= k < trees.len() ==> #[trigger] trees[k] == items@[k]@,
                    notices(list@) == notices(old(list)@) + trees.take(i as int).map_values(
                        |b: JsonTree| battle_notice(b),
                    ),
                decreases items.len() - i,
            {
                assert(trees.take(i + 1).map_values(|b: JsonTree| battle_notice(b))
                    =~= trees.take(i as int).map_values(|b: JsonTree| battle_notice(b)).push(
                    battle_notice(trees[i as int]),
                ));
                add_notice(list, battle_notification(&items[i]));
                i = i + 1;
            }
            assert(trees.take(i as int) =~= trees);
        },
        None => {
            assert(battle_notices(payload@) =~= Seq::empty());
        },
    }
}

// ---- Constructions ----

/// The integers among a series of readings, each once, in the order in which they first come.
pub open spec fn distinct_ids(readings: Seq<Option<i64>>) -> Seq<i64>
    decreases readings.len(),
{
    if readings.len() == 0 {
        Seq::empty()
    } else {
        let earlier = distinct_ids(readings.drop_last());
        match readings.last() {
            Some(id) => if earlier.contains(id) {
                earlier
            } else {
                earlier.push(id)
            },
            None => earlier,
        }
    }
}

/// The constructions that a stored value lists.
pub open spec fn seen_ids(value: Option<JsonTree>) -> Seq<i64> {
    match value {
        Some(tree) => match tree.items() {
            Some(items) => distinct_ids(items.map_values(|t: JsonTree| t.signed())),
            None => Seq::empty(),
        },
        None => Seq::empty(),
    }
}

/// The constructions that a snapshot lists as pending.
pub open spec fn pending_ids(payload: JsonTree) -> Seq<i64> {
    distinct_ids(
        list_at(payload, "pending_constructions"@).map_values(|c: JsonTree| c.signed_at("id"@)),
    )
}

/// The constructions of `before` that `now` lacks, in their order.
pub open spec fn finished_ids(before: Seq<i64>, now: Seq<i64>) -> Seq<i64>
    decreases before.len(),
{
    if before.len() == 0 {
        Seq::empty()
    } else {
        let earlier = finished_ids(before.drop_last(), now);
        if now.contains(before.last()) {
            earlier
        } else {
            earlier.push(before.last())
        }
    }
}

/// Adds a construction to a list, unless it is there already; `members` is the list as a set.
fn add_id(members: &mut HashSet<i64>, ids: &mut Vec<i64>, id: i64)
    requires
        old(members)@ == old(ids)@.to_set(),
    ensures
        final(members)@ == final(ids)@.to_set(),
        final(ids)@ == if old(ids)@.contains(id) {
            old(ids)@
        } else {
            old(ids)@.push(id)
        },
{
    broadcast use vstd::std_specs::hash::group_hash_axioms;

    if members.insert(id) {
        ids.push(id);
        proof {
            old(ids)@.lemma_push_to_set_commute(id);
        }
    } else {
        assert(members@ =~= old(members)@);
    }
}

/// The set of the constructions of a list.
fn id_set(ids: &Vec<i64>) -> (members: HashSet<i64>)
    ensures
        members@ == ids@.to_set(),
{
    let mut members: HashSet<i64> = HashSet::new();
    assert(members@ =~= ids@.take(0).to_set());
    let mut i: usize = 0;
    while i < ids.len()
        invariant
            i <= ids@.len(),
            members@ == ids@.take(i as int).to_set(),
        decreases ids.len() - i,
    {
        broadcast use vstd::std_specs::hash::group_hash_axioms;

        members.insert(ids[i]);
        proof {
            assert(ids@.take(i + 1) =~= ids@.take(i as int).push(ids@[i as int]));
            ids@.take(i as int).lemma_push_to_set_commute(ids@[i as int]);
        }
        i = i + 1;
    }
    assert(ids@.take(i as int) =~= ids@);
    members
}

/// The constructions that were pending at the last tick, `value` being what the session
/// file holds under [`PULSE_SEEN_CONSTRUCTIONS_KEY`].
pub fn read_seen_construction_ids(value: Option<&Json>) -> (ids: Vec<i64>)
    ensures
        ids@ == seen_ids(opt_tree(value)),
{
    let mut ids: Vec<i64> = Vec::new();
    let mut members: HashSet<i64> = HashSet::new();
    assert(members@ =~= ids@.to_set());
    match value {
        Some(json) => match json.as_array() {
            Some(items) => {
                let ghost readings = json@->Array_0.map_values(|t: JsonTree| t.signed());
                assert(readings.take(0) =~= Seq::empty());
                let mut i: usize = 0;
                while i < items.len()
                    invariant
                        i <= items@.len(),
                        readings.len() == items@.len(),
                        forall|k: int|
                            0 <= k < readings.len() ==> #[trigger] readings[k]
                                == items@[k]@.signed(),
                        ids@ == distinct_ids(readings.take(i as int)),
                        members@ == ids@.to_set(),
                    decreases items.len() - i,
                {
                    assert(readings.take(i + 1).drop_last() =~= readings.take(i as int));
                    assert(readings.take(i + 1).last() == readings[i as int]);
                    match items[i].as_i64() {
                        Some(id) => {
                            add_id(&mut members, &mut ids, id);
                        },
                        None => {},
                    }
                    i = i + 1;
                }
                assert(readings.take(i as int) =~= readings);
            },
            None => {},
        },
        None => {},
    }
    ids
}

/// The constructions that a snapshot lists as pending.
pub fn pending_construction_ids(payload: &Json) -> (ids: Vec<i64>)
    ensures
        ids@ == pending_ids(payload@),
{
    let mut ids: Vec<i64> = Vec::new();
    let mut members: HashSet<i64> = HashSet::new();
    assert(members@ =~= ids@.to_set());
    let ghost readings = list_at(payload@, "pending_constructions"@).map_values(
        |c: JsonTree| c.signed_at("id"@),
    );
    match payload.array_at("pending_constructions") {
        Some(items) => {
            assert(readings.take(0) =~= Seq::empty());
            let mut i: usize = 0;
            while i < items.len()
                invariant
                    i <= items@.len(),
                    readings.len() == items@.len(),
                    forall|k: int|
                        0 <= k < readings.len() ==> #[trigger] readings[k]
                            == items@[k]@.signed_at("id"@),
                    ids@ == distinct_ids(readings.take(i as int)),
                    members@ == ids@.to_set(),
                decreases items.len() - i,
            {
                assert(readings.take(i + 1).drop_last() =~= readings.take(i as int));
                assert(readings.take(i + 1).last() == readings[i as int]);
                match items[i].i64_at("id") {
                    Some(id) => {
                        add_id(&mut members, &mut ids, id);
                    },
                    None => {},
                }
                i = i + 1;
            }
            assert(readings.take(i as int) =~= readings);
        },
        None => {},
    }
    ids
}

/// The plan that keeps the pending constructions for the next tick.
pub open spec fn keep_seen(ids: Seq<i64>) -> PlanView {
    single(
        STORE_FILE@,
        EditView::Put(PULSE_SEEN_CONSTRUCTIONS_KEY@, integers_tree(ids)),
        false,
    )
}

/// Keeps the pending constructions for the next tick; a failure is passed over.
pub fn write_seen_construction_ids(ids: &Vec<i64>) -> (plan: StorePlan)
    ensures
        plan@ == keep_seen(ids@),
{
    single_plan(
        STORE_FILE,
        Edit::Put {
            key: PULSE_SEEN_CONSTRUCTIONS_KEY.to_owned(),
            value: integers_value(ids),
        },
        false,
    )
}

/// The notifications of finished constructions, one each.
pub open spec fn finished_notices(before: Seq<i64>, now: Seq<i64>) -> Seq<NoticeView> {
    finished_ids(before, now).map_values(|id: i64| finished_notice())
}

fn notify_finished(list: &mut Vec<Notification>, before: &Vec<i64>, now: &Vec<i64>)
    ensures
        notices(final(list)@) == notices(old(list)@) + finished_notices(before@, now@),
{
    let current: HashSet<i64> = id_set(now);
    assert(before@.take(0) =~= Seq::empty());
    assert(finished_notices(before@.take(0), now@) =~= Seq::empty());
    let mut i: usize = 0;
    while i < before.len()
        invariant
            i <= before@.len(),
            current@ == now@.to_set(),
            notices(list@) == notices(old(list)@) + finished_notices(
                before@.take(i as int),
                now@,
            ),
        decreases before.len() - i,
    {
        broadcast use vstd::std_specs::hash::group_hash_axioms;

        assert(before@.take(i + 1).drop_last() =~= before@.take(i as int));
        assert(before@.take(i + 1).last() == before@[i as int]);
        if !current.contains(&before[i]) {
            assert(finished_notices(before@.take(i + 1), now@) =~= finished_notices(
                before@.take(i as int),
                now@,
            ).push(finished_notice()));
            add_notice(list, finished_notification());
        }
        i = i + 1;
    }
    assert(before@.take(i as int) =~= before@);
}

// ---- Quests ----

/// The day whose quests a snapshot counts.
pub open spec fn quests_date(payload: JsonTree) -> Seq<char> {
    text_or(payload, "quests_today_date"@, Seq::empty())
}

/// The quests that a snapshot counts.
pub open spec fn quests_pending(payload: JsonTree) -> u64 {
    count_at(payload, "quests_today_pending"@)
}

/// The notification of the day's quests: given once per day, and only if there are any.
pub open spec fn quests_notices(last_date: Option<Seq<char>>, payload: JsonTree) -> Seq<
    NoticeView,
> {
    if last_date != Some(quests_date(payload)) && quests_pending(payload) > 0 {
        seq![quests_notice(quests_pending(payload))]
    } else {
        Seq::empty()
    }
}

// ---- The tick ----

/// Everything that a tick notifies: nothing, where no earlier tick left a cursor.
pub open spec fn tick_notices(
    since: Option<Seq<char>>,
    seen: Option<JsonTree>,
    last_date: Option<Seq<char>>,
    payload: JsonTree,
) -> Seq<NoticeView> {
    if since is None {
        Seq::empty()
    } else {
        missive_notices(payload) + battle_notices(payload) + finished_notices(
            seen_ids(seen),
            pending_ids(payload),
        ) + quests_notices(last_date, payload)
    }
}

/// The plan that keeps the day whose quests were seen.
pub open spec fn keep_date(date: Seq<char>) -> PlanView {
    single(STORE_FILE@, EditView::Put(PULSE_LAST_QUESTS_DATE_KEY@, JsonTree::Text(date)), false)
}

/// The plan that keeps the cursor.
pub open spec fn keep_cursor(snapshot_at: Seq<char>) -> PlanView {
    single(STORE_FILE@, EditView::Put(PULSE_CURSOR_KEY@, JsonTree::Text(snapshot_at)), false)
}

/// What a tick keeps: the pending constructions; the day of the quests, where the snapshot
/// gives one; the cursor, where the snapshot gives one.
pub open spec fn tick_plans(payload: JsonTree) -> Seq<PlanView> {
    seq![keep_seen(pending_ids(payload))] + if quests_date(payload).len() > 0 {
        seq![keep_date(quests_date(payload))]
    } else {
        Seq::empty()
    } + match payload.text_at("snapshot_at"@) {
        Some(moment) => seq![keep_cursor(moment)],
        None => Seq::empty(),
    }
}

/// The summary of a snapshot.
pub open spec fn tick_summary(payload: JsonTree) -> PulseSummary {
    PulseSummary {
        missives_unread: wrap32(count_at(payload, "missives_unread"@) as int),
        pending_constructions: wrap32(pending_ids(payload).len() as int),
        queued_construction_jobs: wrap32(count_at(payload, "queued_construction_jobs"@) as int),
        incoming_battles: wrap32(list_at(payload, "battles_received"@).len() as int),
        quests_pending: wrap32(quests_pending(payload) as int),
        server_ok: match payload.boolean_at("server_ok"@) {
            Some(ok) => ok,
            None => true,
        },
    }
}

/// What a tick does.
#[derive(Debug)]
pub struct PulseTick {
    /// Notifications to show, in order.
    pub notifications: Vec<Notification>,
    /// Plans to carry out, in order.
    pub plans: Vec<StorePlan>,
    /// Summary for the tray and the badge.
    pub summary: PulseSummary,
}

fn number_at(document: &Json, key: &str) -> (n: u64)
    ensures
        n == count_at(document@, key@),
{
    match document.u64_at(key) {
        Some(n) => n,
        None => 0,
    }
}

fn summarize(payload: &Json, pending: usize) -> (summary: PulseSummary)
    requires
        pending == pending_ids(payload@).len(),
    ensures
        summary == tick_summary(payload@),
{
    let battles: usize = match payload.array_at("battles_received") {
        Some(items) => items.len(),
        None => 0,
    };
    PulseSummary {
        missives_unread: low_word(number_at(payload, "missives_unread")),
        pending_constructions: low_word(pending as u64),
        queued_construction_jobs: low_word(number_at(payload, "queued_construction_jobs")),
        incoming_battles: low_word(battles as u64),
        quests_pending: low_word(number_at(payload, "quests_today_pending")),
        server_ok: match payload.bool_at("server_ok") {
            Some(ok) => ok,
            None => true,
        },
    }
}

/// The models of a series of plans.
pub open spec fn plan_views(plans: Seq<StorePlan>) -> Seq<PlanView> {
    plans.map_values(|p: StorePlan| p@)
}

fn plan_tick(pending: &Vec<i64>, payload: &Json) -> (plans: Vec<StorePlan>)
    requires
        pending@ == pending_ids(payload@),
    ensures
        plan_views(plans@) == tick_plans(payload@),
{
    let mut plans: Vec<StorePlan> = Vec::new();
    plans.push(write_seen_construction_ids(pending));
    match payload.str_at("quests_today_date") {
        Some(date) => {
            if !date.is_empty() {
                plans.push(write_string_setting(PULSE_LAST_QUESTS_DATE_KEY, date));
            }
        },
        None => {},
    }
    match payload.str_at("snapshot_at") {
        Some(moment) => {
            plans.push(write_string_setting(PULSE_CURSOR_KEY, moment));
        },
        None => {},
    }
    assert(plan_views(plans@) =~= tick_plans(payload@));
    plans
}

/// One tick. `since`, `seen` and `last_quests_date` are what the session file holds under
/// [`PULSE_CURSOR_KEY`], [`PULSE_SEEN_CONSTRUCTIONS_KEY`] and
/// [`PULSE_LAST_QUESTS_DATE_KEY`]; `payload` is the server's snapshot.
pub fn pulse_tick(
    since: &Option<String>,
    seen: Option<&Json>,
    last_quests_date: &Option<String>,
    payload: &Json,
) -> (tick: PulseTick)
    ensures
        notices(tick.notifications@) == tick_notices(
            opt_text(*since),
            opt_tree(seen),
            opt_text(*last_quests_date),
            payload@,
        ),
        plan_views(tick.plans@) == tick_plans(payload@),
        tick.summary == tick_summary(payload@),
{
    let before = read_seen_construction_ids(seen);
    let pending = pending_construction_ids(payload);
    let mut notifications: Vec<Notification> = Vec::new();
    assert(notices(notifications@) =~= Seq::empty());
    if since.is_some() {
        notify_missives(&mut notifications, payload);
        notify_battles(&mut notifications, payload);
        notify_finished(&mut notifications, &before, &pending);
        let quests: u64 = number_at(payload, "quests_today_pending");
        let date: String = match payload.str_at("quests_today_date") {
            Some(date) => date.to_owned(),
            None => String::new(),
        };
        let rolled: bool = match last_quests_date {
            Some(last) => !(*last == date),
            None => true,
        };
        if rolled && quests > 0 {
            add_notice(&mut notifications, quests_notification(quests));
        }
        assert(notices(notifications@) =~= tick_notices(
            opt_text(*since),
            opt_tree(seen),
            opt_text(*last_quests_date),
            payload@,
        ));
    }
    let plans = plan_tick(&pending, payload);
    let summary = summarize(payload, pending.len());
    PulseTick { notifications, plans, summary }
}

// ---- Laws ----

/// [`distinct_ids`] lists exactly the integers that were read, each once.
pub proof fn distinct_ids_list_each_reading_once(readings: Seq<Option<i64>>)
    ensures
        distinct_ids(readings).no_duplicates(),
        forall|id: i64|
            #[trigger] distinct_ids(readings).contains(id) <==> readings.contains(Some(id)),
    decreases readings.len(),
{
    if readings.len() > 0 {
        let earlier = readings.drop_last();
        distinct_ids_list_each_reading_once(earlier);
        let ids = distinct_ids(readings);
        assert forall|id: i64| #[trigger] ids.contains(id) <==> readings.contains(Some(id)) by {
            if readings.contains(Some(id)) {
                let k = choose|k: int| 0 <= k < readings.len() && readings[k] == Some(id);
                if k < earlier.len() {
                    assert(earlier[k] == Some(id));
                    assert(distinct_ids(earlier).contains(id));
                }
                if !distinct_ids(earlier).contains(id) {
                    assert(ids[ids.len() - 1] == id);
                } else {
                    let j = choose|j: int|
                        0 <= j < distinct_ids(earlier).len() && distinct_ids(earlier)[j] == id;
                    assert(ids[j] == id);
                }
            }
            if ids.contains(id) {
                let j = choose|j: int| 0 <= j < ids.len() && ids[j] == id;
                if j < distinct_ids(earlier).len() {
                    assert(distinct_ids(earlier)[j] == id);
                    assert(distinct_ids(earlier).contains(id));
                    let k = choose|k: int| 0 <= k < earlier.len() && earlier[k] == Some(id);
                    assert(readings[k] == Some(id));
                } else {
                    assert(readings[readings.len() - 1] == Some(id));
                }
            }
        }
    }
}

proof fn distinct_ids_of_distinct(ids: Seq<i64>)
    requires
        ids.no_duplicates(),
    ensures
        distinct_ids(ids.map_values(|id: i64| Some(id))) == ids,
    decreases ids.len(),
{
    let readings = ids.map_values(|id: i64| Some(id));
    if ids.len() > 0 {
        let earlier = ids.drop_last();
        assert(readings.drop_last() =~= earlier.map_values(|id: i64| Some(id)));
        distinct_ids_of_distinct(earlier);
        assert(!earlier.contains(ids.last()));
        assert(earlier.push(ids.last()) =~= ids);
    } else {
        assert(distinct_ids(readings) =~= ids);
    }
}

/// A list of constructions that names none twice reads back as it was kept.
pub proof fn seen_ids_read_back(ids: Seq<i64>)
    requires
        ids.no_duplicates(),
    ensures
        seen_ids(Some(integers_tree(ids))) == ids,
{
    assert(integers_tree(ids)->Array_0.map_values(|t: JsonTree| t.signed()) =~= ids.map_values(
        |id: i64| Some(id),
    ));
    distinct_ids_of_distinct(ids);
}

/// A snapshot names no pending construction twice.
proof fn pending_ids_are_distinct(payload: JsonTree)
    ensures
        pending_ids(payload).no_duplicates(),
{
    distinct_ids_list_each_reading_once(
        list_at(payload, "pending_constructions"@).map_values(|c: JsonTree| c.signed_at("id"@)),
    );
}

/// A construction is finished exactly when it was pending before and no longer is, and each
/// finished construction is notified once.
pub proof fn finished_ids_are_those_gone(before: Seq<i64>, now: Seq<i64>)
    ensures
        forall|id: i64|
            #[trigger] finished_ids(before, now).contains(id) <==> before.contains(id)
                && !now.contains(id),
        before.no_duplicates() ==> finished_ids(before, now).no_duplicates(),
        finished_notices(before, now).len() == finished_ids(before, now).len(),
    decreases before.len(),
{
    if before.len() > 0 {
        let rest = before.drop_last();
        let done = finished_ids(before, now);
        finished_ids_are_those_gone(rest, now);
        assert forall|id: i64| #[trigger] done.contains(id) <==> before.contains(id)
            && !now.contains(id) by {
            let shorter = finished_ids(rest, now);
            if before.contains(id) && !now.contains(id) {
                let k = choose|k: int| 0 <= k < before.len() && before[k] == id;
                if k < rest.len() {
                    assert(rest[k] == id);
                    assert(shorter.contains(id));
                    let j = choose|j: int| 0 <= j < shorter.len() && shorter[j] == id;
                    assert(done[j] == id);
                } else {
                    assert(done[done.len() - 1] == id);
                }
            }
            if done.contains(id) {
                let j = choose|j: int| 0 <= j < done.len() && done[j] == id;
                if j < shorter.len() {
                    assert(shorter[j] == id);
                    assert(shorter.contains(id));
                    let k = choose|k: int| 0 <= k < rest.len() && rest[k] == id;
                    assert(before[k] == id);
                } else {
                    assert(before[before.len() - 1] == id);
                }
            }
        }
        if before.no_duplicates() {
            assert(rest.no_duplicates());
            let shorter = finished_ids(rest, now);
            if !now.contains(before.last()) {
                assert(!shorter.contains(before.last())) by {
                    if shorter.contains(before.last()) {
                        let k = choose|k: int| 0 <= k < rest.len() && rest[k] == before.last();
                        assert(before[k] == before[before.len() - 1]);
                    }
                }
            }
        }
    }
}

/// A first tick, which finds no cursor, notifies nothing.
pub proof fn cold_start_is_silent(
    seen: Option<JsonTree>,
    last_date: Option<Seq<char>>,
    payload: JsonTree,
)
    ensures
        tick_notices(None, seen, last_date, payload).len() == 0,
{
}

proof fn keys_differ()
    ensures
        PULSE_SEEN_CONSTRUCTIONS_KEY@ != PULSE_LAST_QUESTS_DATE_KEY@,
        PULSE_SEEN_CONSTRUCTIONS_KEY@ != PULSE_CURSOR_KEY@,
        PULSE_LAST_QUESTS_DATE_KEY@ != PULSE_CURSOR_KEY@,
        TOKEN_KEY@ != PULSE_SEEN_CONSTRUCTIONS_KEY@,
        TOKEN_KEY@ != PULSE_LAST_QUESTS_DATE_KEY@,
        TOKEN_KEY@ != PULSE_CURSOR_KEY@,
{
    reveal_strlit("pulse_cursor_at");
    reveal_strlit("pulse_seen_constructions");
    reveal_strlit("pulse_last_quests_date");
    reveal_strlit("auth_token");
    assert(PULSE_CURSOR_KEY@.len() == 15);
    assert(PULSE_SEEN_CONSTRUCTIONS_KEY@.len() == 24);
    assert(PULSE_LAST_QUESTS_DATE_KEY@.len() == 22);
    assert(TOKEN_KEY@.len() == 10);
}

/// What is on disk after a tick: the pending constructions, the day of the quests and the
/// cursor, the last two where the snapshot gives them, and all else as before.
pub open spec fn left_by_tick(
    disk: DiskView,
    payload: JsonTree,
    file: Seq<char>,
    key: Seq<char>,
) -> Option<JsonTree> {
    if file != STORE_FILE@ {
        stored(disk, file, key)
    } else if key == PULSE_SEEN_CONSTRUCTIONS_KEY@ {
        Some(integers_tree(pending_ids(payload)))
    } else if key == PULSE_LAST_QUESTS_DATE_KEY@ && quests_date(payload).len() > 0 {
        Some(JsonTree::Text(quests_date(payload)))
    } else if key == PULSE_CURSOR_KEY@ && payload.text_at("snapshot_at"@) is Some {
        Some(JsonTree::Text(payload.text_at("snapshot_at"@)->0))
    } else {
        stored(disk, file, key)
    }
}

/// A tick whose plans were carried out has written the pending constructions, the day of the
/// quests and the cursor, the last two where the snapshot gives them, and nothing else: in
/// particular the session token stays.
pub proof fn tick_writes_its_three_keys(
    disk: DiskView,
    payload: JsonTree,
    file: Seq<char>,
    key: Seq<char>,
)
    ensures
        stored(after_plans(disk, tick_plans(payload)), file, key) == left_by_tick(
            disk,
            payload,
            file,
            key,
        ),
        stored(after_plans(disk, tick_plans(payload)), STORE_FILE@, TOKEN_KEY@) == stored(
            disk,
            STORE_FILE@,
            TOKEN_KEY@,
        ),
{
    keys_differ();
    tick_writes(disk, payload, file, key);
    tick_writes(disk, payload, STORE_FILE@, TOKEN_KEY@);
}

/// What a series of plans with one more at its end leaves on disk.
proof fn after_plans_push(disk: DiskView, plans: Seq<PlanView>, plan: PlanView)
    ensures
        after_plans(disk, plans.push(plan)) == after_plan(after_plans(disk, plans), plan),
{
    assert(plans.push(plan).drop_last() =~= plans);
}

proof fn tick_writes(disk: DiskView, payload: JsonTree, file: Seq<char>, key: Seq<char>)
    ensures
        stored(after_plans(disk, tick_plans(payload)), file, key) == left_by_tick(
            disk,
            payload,
            file,
            key,
        ),
{
    keys_differ();
    let first = seq![keep_seen(pending_ids(payload))];
    let date = quests_date(payload);
    let second = if date.len() > 0 {
        first.push(keep_date(date))
    } else {
        first
    };
    let third = match payload.text_at("snapshot_at"@) {
        Some(moment) => second.push(keep_cursor(moment)),
        None => second,
    };
    assert(third =~= tick_plans(payload));
    assert(first =~= Seq::<PlanView>::empty().push(keep_seen(pending_ids(payload))));
    after_plans_push(disk, Seq::empty(), keep_seen(pending_ids(payload)));
    plan_touches_one_key(
        disk,
        STORE_FILE@,
        EditView::Put(PULSE_SEEN_CONSTRUCTIONS_KEY@, integers_tree(pending_ids(payload))),
        false,
        file,
        key,
    );
    if date.len() > 0 {
        after_plans_push(disk, first, keep_date(date));
        plan_touches_one_key(
            after_plans(disk, first),
            STORE_FILE@,
            EditView::Put(PULSE_LAST_QUESTS_DATE_KEY@, JsonTree::Text(date)),
            false,
            file,
            key,
        );
    }
    match payload.text_at("snapshot_at"@) {
        Some(moment) => {
            after_plans_push(disk, second, keep_cursor(moment));
            plan_touches_one_key(
                after_plans(disk, second),
                STORE_FILE@,
                EditView::Put(PULSE_CURSOR_KEY@, JsonTree::Text(moment)),
                false,
                file,
                key,
            );
        },
        None => {},
    }
}

/// What a tick notifies when it reads its past from disk.
pub open spec fn notices_from(disk: DiskView, payload: JsonTree) -> Seq<NoticeView> {
    tick_notices(
        text_of(stored(disk, STORE_FILE@, PULSE_CURSOR_KEY@)),
        stored(disk, STORE_FILE@, PULSE_SEEN_CONSTRUCTIONS_KEY@),
        text_of(stored(disk, STORE_FILE@, PULSE_LAST_QUESTS_DATE_KEY@)),
        payload,
    )
}

/// The cursor of the next tick is the moment of this snapshot, where it gives one.
pub proof fn cursor_follows_the_snapshot(disk: DiskView, payload: JsonTree)
    ensures
        text_of(
            stored(after_plans(disk, tick_plans(payload)), STORE_FILE@, PULSE_CURSOR_KEY@),
        ) == match payload.text_at("snapshot_at"@) {
            Some(moment) => Some(moment),
            None => text_of(stored(disk, STORE_FILE@, PULSE_CURSOR_KEY@)),
        },
{
    keys_differ();
    tick_writes_its_three_keys(disk, payload, STORE_FILE@, PULSE_CURSOR_KEY@);
}

/// A construction that disappears between two ticks is notified by the second, unless that
/// one finds no cursor: what the first kept is what the second compares with.
pub proof fn disappearance_is_notified(disk: DiskView, first: JsonTree, second: JsonTree)
    requires
        text_of(
            stored(after_plans(disk, tick_plans(first)), STORE_FILE@, PULSE_CURSOR_KEY@),
        ) is Some,
    ensures
        notices_from(after_plans(disk, tick_plans(first)), second) == missive_notices(second)
            + battle_notices(second) + finished_notices(pending_ids(first), pending_ids(second))
            + quests_notices(
            text_of(
                stored(
                    after_plans(disk, tick_plans(first)),
                    STORE_FILE@,
                    PULSE_LAST_QUESTS_DATE_KEY@,
                ),
            ),
            second,
        ),
{
    tick_writes_its_three_keys(disk, first, STORE_FILE@, PULSE_SEEN_CONSTRUCTIONS_KEY@);
    pending_ids_are_distinct(first);
    seen_ids_read_back(pending_ids(first));
}

/// After a restart the launcher does not notify again what it kept track of: a tick that
/// finds the snapshot of the tick before it announces no construction and no quest. This
/// leaves out a snapshot that counts quests of no day, which no tick can remember.
pub proof fn nothing_is_notified_twice(disk: DiskView, payload: JsonTree)
    requires
        quests_pending(payload) > 0 ==> quests_date(payload).len() > 0,
    ensures
        notices_from(after_plans(disk, tick_plans(payload)), payload) == if text_of(
            stored(after_plans(disk, tick_plans(payload)), STORE_FILE@, PULSE_CURSOR_KEY@),
        ) is Some {
            missive_notices(payload) + battle_notices(payload)
        } else {
            Seq::empty()
        },
{
    keys_differ();
    let after = after_plans(disk, tick_plans(payload));
    if text_of(stored(after, STORE_FILE@, PULSE_CURSOR_KEY@)) is Some {
        let ids = pending_ids(payload);
        disappearance_is_notified(disk, payload, payload);
        tick_writes_its_three_keys(disk, payload, STORE_FILE@, PULSE_LAST_QUESTS_DATE_KEY@);
        finished_ids_are_those_gone(ids, ids);
        assert(finished_ids(ids, ids).len() == 0) by {
            if finished_ids(ids, ids).len() > 0 {
                assert(finished_ids(ids, ids).contains(finished_ids(ids, ids)[0]));
            }
        }
        assert(finished_notices(ids, ids) =~= Seq::empty());
        assert(quests_notices(
            text_of(stored(after, STORE_FILE@, PULSE_LAST_QUESTS_DATE_KEY@)),
            payload,
        ) =~= Seq::empty());
        assert(notices_from(after, payload) =~= missive_notices(payload) + battle_notices(payload));
    }
}

/// The badge counts missives and battles together: exactly, up to the largest count that it
/// can show, and nothing but these.
pub proof fn badge_counts_missives_and_battles(summary: PulseSummary)
    ensures
        summary.missives_unread + summary.incoming_battles <= u32::MAX ==> summary.badge()
            == summary.missives_unread + summary.incoming_battles,
        summary.missives_unread + summary.incoming_battles > u32::MAX ==> summary.badge()
            == u32::MAX,
{
}

/// A count that fits into 32 bits is kept as it is, and counts that differ by a multiple of
/// what does not fit are kept alike.
pub proof fn counts_are_kept_modulo_32_bits(n: int)
    ensures
        0 <= n <= u32::MAX ==> wrap32(n) == n,
        wrap32(n + 0x1_0000_0000) == wrap32(n),
{
}

/// The summary of a snapshot takes each of its entries from the field of that name. The server
/// is up or not as the snapshot says, and taken to be up where it does not say; a count that is
/// not given is zero.
pub proof fn summary_follows_the_snapshot(payload: JsonTree)
    ensures
        payload.field("server_ok"@) matches Some(JsonTree::Bool(up)) ==> tick_summary(
            payload,
        ).server_ok == up,
        !(payload.field("server_ok"@) matches Some(JsonTree::Bool(_))) ==> tick_summary(
            payload,
        ).server_ok,
        tick_summary(payload).missives_unread == match payload.field("missives_unread"@) {
            Some(JsonTree::Number { unsigned: Some(n), .. }) => n as int % 0x1_0000_0000,
            _ => 0,
        },
        tick_summary(payload).queued_construction_jobs == match payload.field(
            "queued_construction_jobs"@,
        ) {
            Some(JsonTree::Number { unsigned: Some(n), .. }) => n as int % 0x1_0000_0000,
            _ => 0,
        },
        tick_summary(payload).quests_pending == match payload.field("quests_today_pending"@) {
            Some(JsonTree::Number { unsigned: Some(n), .. }) => n as int % 0x1_0000_0000,
            _ => 0,
        },
        tick_summary(payload).incoming_battles == match payload.field("battles_received"@) {
            Some(JsonTree::Array(battles)) => battles.len() as int % 0x1_0000_0000,
            _ => 0,
        },
        tick_summary(payload).pending_constructions == pending_ids(payload).len() as int
            % 0x1_0000_0000,
{
}

/// A missive is announced by its subject and its sender, each by a word of its own where the
/// missive does not give it.
pub proof fn missives_are_announced_by_subject_and_sender(missive: JsonTree)
    ensures
        missive_notice(missive).title == "Velmora — "@ + match missive.field("subject"@) {
            Some(JsonTree::Text(subject)) => subject,
            _ => "Nouvelle missive"@,
        },
        missive_notice(missive).body == "De : "@ + match missive.field("sender"@) {
            Some(JsonTree::Text(sender)) => sender,
            _ => "Un seigneur"@,
        },
{
}

/// A battle is announced by its attacker and its result.
pub proof fn battles_are_announced_by_attacker_and_result(battle: JsonTree)
    ensures
        battle_notice(battle).title == "Velmora — Forteresse attaquée"@,
        battle_notice(battle).body == match battle.field("attacker"@) {
            Some(JsonTree::Text(attacker)) => attacker,
            _ => "Un assaillant"@,
        } + " vous a assailli ("@ + match battle.field("result"@) {
            Some(JsonTree::Text(result)) => result,
            _ => ""@,
        } + ")"@,
{
}

/// Each missive and each battle of a snapshot is announced once, in the snapshot's order; a
/// field that is no list announces nothing.
pub proof fn missives_and_battles_are_announced_one_by_one(payload: JsonTree)
    ensures
        match payload.field("missives_recent"@) {
            Some(JsonTree::Array(missives)) => missive_notices(payload).len() == missives.len()
                && forall|i: int|
                0 <= i < missives.len() ==> #[trigger] missive_notices(payload)[i]
                    == missive_notice(missives[i]),
            _ => missive_notices(payload).len() == 0,
        },
        match payload.field("battles_received"@) {
            Some(JsonTree::Array(battles)) => battle_notices(payload).len() == battles.len()
                && forall|i: int|
                0 <= i < battles.len() ==> #[trigger] battle_notices(payload)[i] == battle_notice(
                    battles[i],
                ),
            _ => battle_notices(payload).len() == 0,
        },
{
}

/// Whether a list of readings holds an integer.
proof fn reading_at(readings: Seq<Option<i64>>, id: i64)
    ensures
        distinct_ids(readings).contains(id) <==> exists|i: int|
            0 <= i < readings.len() && #[trigger] readings[i] == Some(id),
{
    distinct_ids_list_each_reading_once(readings);
    if readings.contains(Some(id)) {
        let i = choose|i: int| 0 <= i < readings.len() && readings[i] == Some(id);
        assert(readings[i] == Some(id));
    }
}

/// A construction is pending exactly when the snapshot lists one under its number, and it is
/// counted once however often it is listed.
pub proof fn pending_constructions_are_those_listed(payload: JsonTree, id: i64)
    ensures
        pending_ids(payload).no_duplicates(),
        pending_ids(payload).contains(id) <==> (payload.field("pending_constructions"@) matches
            Some(JsonTree::Array(all)) && exists|i: int|
            0 <= i < all.len() && ((#[trigger] all[i]).field("id"@) matches Some(
                JsonTree::Number { signed: Some(n), .. },
            ) && n == id)),
{
    pending_ids_are_distinct(payload);
    let readings = list_at(payload, "pending_constructions"@).map_values(
        |c: JsonTree| c.signed_at("id"@),
    );
    reading_at(readings, id);
    match payload.field("pending_constructions"@) {
        Some(JsonTree::Array(all)) => {
            assert forall|i: int| 0 <= i < all.len() implies (readings[i] == Some(id) <==> ((
            #[trigger] all[i]).field("id"@) matches Some(JsonTree::Number { signed: Some(n), .. })
                && n == id)) by {}
            if pending_ids(payload).contains(id) {
                let i = choose|i: int| 0 <= i < readings.len() && #[trigger] readings[i] == Some(id);
                assert(all[i].field("id"@) is Some);
            }
        },
        _ => {},
    }
}

/// A construction was seen exactly when the stored value is a list that holds its number.
pub proof fn seen_constructions_are_those_stored(value: Option<JsonTree>, id: i64)
    ensures
        seen_ids(value).no_duplicates(),
        seen_ids(value).contains(id) <==> (value matches Some(JsonTree::Array(all)) && exists|
            i: int,
        |
            0 <= i < all.len() && (#[trigger] all[i] matches JsonTree::Number {
                signed: Some(n),
                ..
            } && n == id)),
{
    match value {
        Some(JsonTree::Array(all)) => {
            let readings = all.map_values(|t: JsonTree| t.signed());
            distinct_ids_list_each_reading_once(readings);
            reading_at(readings, id);
            assert forall|i: int| 0 <= i < all.len() implies (readings[i] == Some(id) <==> (
            #[trigger] all[i] matches JsonTree::Number { signed: Some(n), .. } && n == id)) by {}
            if seen_ids(value).contains(id) {
                let i = choose|i: int| 0 <= i < readings.len() && #[trigger] readings[i] == Some(id);
                assert(all[i] is Number);
            }
        },
        _ => {},
    }
}

/// The day's quests are announced exactly when there are any and their day is another than the
/// one announced last; the announcement gives their number.
pub proof fn quests_are_announced_once_a_day(
    last_date: Option<Seq<char>>,
    payload: JsonTree,
    date: Seq<char>,
    count: u64,
)
    requires
        date == match payload.field("quests_today_date"@) {
            Some(JsonTree::Text(day)) => day,
            _ => Seq::<char>::empty(),
        },
        count == match payload.field("quests_today_pending"@) {
            Some(JsonTree::Number { unsigned: Some(n), .. }) => n,
            _ => 0u64,
        },
    ensures
        quests_notices(last_date, payload).len() == if count > 0 && last_date != Some(date) {
            1nat
        } else {
            0nat
        },
        quests_notices(last_date, payload).len() > 0 ==> quests_notices(last_date, payload)[0] == (
        NoticeView {
            title: "Velmora — Quêtes du jour"@,
            body: decimal(count as nat) + " quête(s) disponible(s) au royaume"@,
        }),
{
}

/// A tick that finds a cursor announces the missives, then the battles, then each construction
/// that is gone, then the day's quests, and nothing else.
pub proof fn ticks_announce_in_order(
    cursor: Seq<char>,
    seen: Option<JsonTree>,
    last_date: Option<Seq<char>>,
    payload: JsonTree,
)
    ensures
        tick_notices(Some(cursor), seen, last_date, payload) == missive_notices(payload)
            + battle_notices(payload) + Seq::new(
            finished_ids(seen_ids(seen), pending_ids(payload)).len(),
            |i: int| NoticeView { title: "Velmora — Chantier terminé"@, body: "Chantier"@ },
        ) + quests_notices(last_date, payload),
{
    assert(finished_notices(seen_ids(seen), pending_ids(payload)) =~= Seq::new(
        finished_ids(seen_ids(seen), pending_ids(payload)).len(),
        |i: int| NoticeView { title: "Velmora — Chantier terminé"@, body: "Chantier"@ },
    ));
}

/// What a tick leaves on disk, read back key by key: the pending constructions always; the day
/// of the quests where the snapshot names one; the moment of the snapshot where it gives it.
/// Every plan of a tick is on the session file, and none may fail the tick.
pub proof fn ticks_keep_what_the_snapshot_gives(disk: DiskView, payload: JsonTree)
    ensures
        stored(
            after_plans(disk, tick_plans(payload)),
            "velmora.json"@,
            "pulse_seen_constructions"@,
        ) == Some(integers_tree(pending_ids(payload))),
        stored(after_plans(disk, tick_plans(payload)), "velmora.json"@, "pulse_last_quests_date"@)
            == match payload.field("quests_today_date"@) {
            Some(JsonTree::Text(day)) => if day.len() > 0 {
                Some(JsonTree::Text(day))
            } else {
                stored(disk, "velmora.json"@, "pulse_last_quests_date"@)
            },
            _ => stored(disk, "velmora.json"@, "pulse_last_quests_date"@),
        },
        stored(after_plans(disk, tick_plans(payload)), "velmora.json"@, "pulse_cursor_at"@)
            == match payload.field("snapshot_at"@) {
            Some(JsonTree::Text(moment)) => Some(JsonTree::Text(moment)),
            _ => stored(disk, "velmora.json"@, "pulse_cursor_at"@),
        },
        forall|i: int|
            0 <= i < tick_plans(payload).len() ==> (#[trigger] tick_plans(payload)[i]).file
                == "velmora.json"@ && !tick_plans(payload)[i].strict,
{
    keys_differ();
    tick_writes(disk, payload, STORE_FILE@, PULSE_SEEN_CONSTRUCTIONS_KEY@);
    tick_writes(disk, payload, STORE_FILE@, PULSE_LAST_QUESTS_DATE_KEY@);
    tick_writes(disk, payload, STORE_FILE@, PULSE_CURSOR_KEY@);
}

/// The models of notifications and plans hold each of them in its place.
pub proof fn models_hold_the_whole_tick(
    list: Seq<Notification>,
    plans: Seq<StorePlan>,
    i: int,
)
    ensures
        notices(list).len() == list.len(),
        0 <= i < list.len() ==> notices(list)[i].title == list[i].title@ && notices(list)[i].body
            == list[i].body@,
        plan_views(plans).len() == plans.len(),
        0 <= i < plans.len() ==> plan_views(plans)[i] == plans[i]@,
{
}

/// The summary that a tick hands out says of the server what the snapshot says.
pub proof fn ticks_report_the_server(
    since: Option<String>,
    seen: Option<&Json>,
    last_quests_date: Option<String>,
    payload: Json,
    tick: PulseTick,
)
    requires
        call_ensures(pulse_tick, (&since, seen, &last_quests_date, &payload), tick),
    ensures
        payload@.field("server_ok"@) matches Some(JsonTree::Bool(up)) ==> tick.summary.server_ok
            == up,
        !(payload@.field("server_ok"@) matches Some(JsonTree::Bool(_))) ==> tick.summary.server_ok,
{
}

/// The badge shows the sum of missives and battles, up to the largest count, and is not there
/// where there is nothing to count.
pub proof fn badges_show_their_count(summary: PulseSummary, count: u32, value: Option<i64>)
    requires
        call_ensures(PulseSummary::badge_count, (&summary,), count),
        call_ensures(PulseSummary::badge_value, (&summary,), value),
    ensures
        value is None <==> summary.missives_unread == 0 && summary.incoming_battles == 0,
        value matches Some(n) ==> n == count,
        count == if summary.missives_unread + summary.incoming_battles <= u32::MAX {
            summary.missives_unread + summary.incoming_battles
        } else {
            u32::MAX as int
        },
{
}

} // verus!
