//! The launcher's two persistent files and the edits made to them.

use vstd::prelude::*;
use crate::error::{failure, AppError, ErrorView};
use crate::json::{bool_value, null_value, opt_tree, text_value, value_tree, Json, JsonTree};
use crate::text::opt_text;

verus! {

/// File of the session token and of the pulse cursor.
pub const STORE_FILE: &'static str = "velmora.json";

/// File of the player's preferences.
pub const SETTINGS_FILE: &'static str = "settings.json";

/// An edit of one key of a file.
#[derive(Debug, PartialEq)]
pub enum Edit {
    Put { key: String, value: serde_json::Value },
    Delete { key: String },
}

/// Model of an edit, over whatever stands for a stored value.
pub enum EditOf<V> {
    Put(Seq<char>, V),
    Delete(Seq<char>),
}

/// Mathematical model of [`Edit`]: the values are taken for their documents.
pub type EditView = EditOf<JsonTree>;

impl View for Edit {
    type V = EditView;

    open spec fn view(&self) -> EditView {
        match self {
            Edit::Put { key, value } => EditOf::Put(key@, value_tree(*value)),
            Edit::Delete { key } => EditOf::Delete(key@),
        }
    }
}

impl Edit {
    /// The edit with its value as it is, down to the digits of a fraction.
    pub open spec fn exact(self) -> EditOf<serde_json::Value> {
        match self {
            Edit::Put { key, value } => EditOf::Put(key@, value),
            Edit::Delete { key } => EditOf::Delete(key@),
        }
    }
}

/// Edits of one file, made in order and then saved.
///
/// Where the plan is `strict`, failing to open or to save the file is an error of the
/// command; elsewhere it is passed over in silence.
#[derive(Debug, PartialEq)]
pub struct StorePlan {
    pub file: String,
    pub edits: Vec<Edit>,
    pub strict: bool,
}

/// Model of a plan, over whatever stands for a stored value.
pub struct PlanOf<V> {
    pub file: Seq<char>,
    pub edits: Seq<EditOf<V>>,
    pub strict: bool,
}

/// Mathematical model of [`StorePlan`]: the values are taken for their documents.
pub type PlanView = PlanOf<JsonTree>;

impl View for StorePlan {
    type V = PlanView;

    open spec fn view(&self) -> PlanView {
        PlanOf {
            file: self.file@,
            edits: self.edits@.map_values(|e: Edit| e@),
            strict: self.strict,
        }
    }
}

impl StorePlan {
    /// The plan with its values as they are.
    pub open spec fn exact(self) -> PlanOf<serde_json::Value> {
        PlanOf {
            file: self.file@,
            edits: self.edits@.map_values(|e: Edit| e.exact()),
            strict: self.strict,
        }
    }
}

/// The keys of a file and what is stored under each.
pub type FileOf<V> = Map<Seq<char>, V>;

/// The files on disk, by name. A file that is not there yet is an empty one.
pub type DiskOf<V> = Map<Seq<char>, FileOf<V>>;

/// The files on disk, each value taken for its document.
pub type DiskView = DiskOf<JsonTree>;

/// A file after one edit.
pub open spec fn after_edit<V>(file: FileOf<V>, edit: EditOf<V>) -> FileOf<V> {
    match edit {
        EditOf::Put(key, value) => file.insert(key, value),
        EditOf::Delete(key) => file.remove(key),
    }
}

/// A file after a series of edits.
pub open spec fn after_edits<V>(file: FileOf<V>, edits: Seq<EditOf<V>>) -> FileOf<V>
    decreases edits.len(),
{
    if edits.len() == 0 {
        file
    } else {
        after_edit(after_edits(file, edits.drop_last()), edits.last())
    }
}

/// What a file holds.
pub open spec fn contents<V>(disk: DiskOf<V>, file: Seq<char>) -> FileOf<V> {
    if disk.dom().contains(file) {
        disk[file]
    } else {
        Map::empty()
    }
}

/// The disk after a plan that was carried out.
pub open spec fn after_plan<V>(disk: DiskOf<V>, plan: PlanOf<V>) -> DiskOf<V> {
    disk.insert(plan.file, after_edits(contents(disk, plan.file), plan.edits))
}

/// The disk after a series of plans that were carried out.
pub open spec fn after_plans<V>(disk: DiskOf<V>, plans: Seq<PlanOf<V>>) -> DiskOf<V>
    decreases plans.len(),
{
    if plans.len() == 0 {
        disk
    } else {
        after_plan(after_plans(disk, plans.drop_last()), plans.last())
    }
}

/// What is stored under a key of a file.
pub open spec fn stored<V>(disk: DiskOf<V>, file: Seq<char>, key: Seq<char>) -> Option<V> {
    if contents(disk, file).dom().contains(key) {
        Some(contents(disk, file)[key])
    } else {
        None
    }
}

/// A plan of one edit.
pub open spec fn single<V>(file: Seq<char>, edit: EditOf<V>, strict: bool) -> PlanOf<V> {
    PlanOf { file, edits: seq![edit], strict }
}

/// Makes a plan of one edit.
pub(crate) fn single_plan(file: &str, edit: Edit, strict: bool) -> (plan: StorePlan)
    ensures
        plan.file@ == file@,
        plan.edits@ == seq![edit],
        plan.strict == strict,
        plan@ == single(file@, edit@, strict),
        plan.exact() == single(file@, edit.exact(), strict),
{
    let mut edits: Vec<Edit> = Vec::new();
    edits.push(edit);
    let plan = StorePlan { file: file.to_owned(), edits, strict };
    assert(plan@.edits =~= seq![edit@]);
    assert(plan.exact().edits =~= seq![edit.exact()]);
    plan
}

/// The edit that stores a string.
pub(crate) fn set_text(key: &str, text: &str) -> (edit: Edit)
    ensures
        edit@ == EditView::Put(key@, JsonTree::Text(text@)),
{
    Edit::Put { key: key.to_owned(), value: text_value(text.to_owned()) }
}

/// The edit that stores a boolean.
pub(crate) fn set_bool(key: &str, value: bool) -> (edit: Edit)
    ensures
        edit@ == EditView::Put(key@, JsonTree::Bool(value)),
{
    Edit::Put { key: key.to_owned(), value: bool_value(value) }
}

impl StorePlan {
    /// What a command makes of a plan that was tried, `fault` being what went wrong.
    pub fn settle(&self, fault: Option<String>) -> (result: Result<(), AppError>)
        ensures
            failure(result) == match fault {
                Some(e) => if self.strict {
                    Some(ErrorView::Internal(e@))
                } else {
                    None
                },
                None => None,
            },
    {
        match fault {
            Some(e) => if self.strict {
                Err(AppError::Internal(e))
            } else {
                Ok(())
            },
            None => Ok(()),
        }
    }
}

/// The string that a stored value holds.
pub open spec fn text_of(value: Option<JsonTree>) -> Option<Seq<char>> {
    match value {
        Some(tree) => tree.text(),
        None => None,
    }
}

/// Reads a stored string: nothing, where the key is absent or holds something else.
pub fn read_string_setting(value: Option<&Json>) -> (text: Option<String>)
    ensures
        opt_text(text) == text_of(opt_tree(value)),
{
    match value {
        Some(json) => match json.as_str() {
            Some(s) => Some(s.to_owned()),
            None => None,
        },
        None => None,
    }
}

/// Stores a string in the session file; a failure is passed over.
pub fn write_string_setting(key: &str, text: &str) -> (plan: StorePlan)
    ensures
        plan@ == single(STORE_FILE@, EditView::Put(key@, JsonTree::Text(text@)), false),
{
    single_plan(STORE_FILE, set_text(key, text), false)
}

/// A preference as the interface receives it: the very value that is stored, or null where
/// the key is absent.
pub fn get_setting(value: Option<serde_json::Value>) -> (setting: serde_json::Value)
    ensures
        match value {
            Some(v) => setting == v,
            None => value_tree(setting) == JsonTree::Null,
        },
{
    match value {
        Some(v) => v,
        None => null_value(),
    }
}

/// Stores a preference that the interface hands over.
pub fn set_setting(key: String, value: serde_json::Value) -> (plan: StorePlan)
    ensures
        plan.edits@ == seq![Edit::Put { key, value }],
        plan.exact() == single(SETTINGS_FILE@, EditOf::Put(key@, value), true),
        plan@ == single(SETTINGS_FILE@, EditView::Put(key@, value_tree(value)), true),
{
    single_plan(SETTINGS_FILE, Edit::Put { key, value }, true)
}

/// A plan of one edit that was carried out leaves exactly that edit behind: its key reads
/// back as it says, and every other key of every file reads as before.
pub proof fn plan_touches_one_key<V>(
    disk: DiskOf<V>,
    name: Seq<char>,
    edit: EditOf<V>,
    strict: bool,
    file: Seq<char>,
    key: Seq<char>,
)
    ensures
        stored(after_plan(disk, single(name, edit, strict)), file, key) == match edit {
            EditOf::Put(k, value) => if file == name && key == k {
                Some(value)
            } else {
                stored(disk, file, key)
            },
            EditOf::Delete(k) => if file == name && key == k {
                None
            } else {
                stored(disk, file, key)
            },
        },
{
    let edits = seq![edit];
    reveal_with_fuel(after_edits, 2);
    assert(edits.drop_last() =~= Seq::empty());
    assert(edits.last() == edit);
}

/// A preference that was set reads back as the very value given, whatever the disk held.
/// Every other preference reads as before, and the session file is left alone, whichever key
/// was set.
pub proof fn setting_reads_back(
    disk: DiskOf<serde_json::Value>,
    key: Seq<char>,
    value: serde_json::Value,
)
    ensures
        stored(
            after_plan(disk, single(SETTINGS_FILE@, EditOf::Put(key, value), true)),
            SETTINGS_FILE@,
            key,
        ) == Some(value),
        forall|other: Seq<char>|
            other != key ==> #[trigger] stored(
                after_plan(disk, single(SETTINGS_FILE@, EditOf::Put(key, value), true)),
                SETTINGS_FILE@,
                other,
            ) == stored(disk, SETTINGS_FILE@, other),
        forall|other: Seq<char>| #[trigger]
            stored(
                after_plan(disk, single(SETTINGS_FILE@, EditOf::Put(key, value), true)),
                STORE_FILE@,
                other,
            ) == stored(disk, STORE_FILE@, other),
{
    reveal_strlit("velmora.json");
    reveal_strlit("settings.json");
    assert(STORE_FILE@.len() == 12);
    assert(SETTINGS_FILE@.len() == 13);
    let edit = EditOf::Put(key, value);
    assert forall|file: Seq<char>, other: Seq<char>| #[trigger]
        stored(after_plan(disk, single(SETTINGS_FILE@, edit, true)), file, other) == if file
            == SETTINGS_FILE@ && other == key {
            Some(value)
        } else {
            stored(disk, file, other)
        } by {
        plan_touches_one_key(disk, SETTINGS_FILE@, edit, true, file, other);
    }
}

/// A stored value reads as a string exactly when it is one.
pub proof fn only_strings_read_as_strings(value: Option<JsonTree>, text: Seq<char>)
    ensures
        text_of(value) == Some(text) <==> value == Some(JsonTree::Text(text)),
        text_of(value) is None <==> !(value matches Some(JsonTree::Text(_))),
{
}

/// A plan of one edit is on the file it was made for, holds that edit alone, and fails the
/// command exactly where it was made to.
pub proof fn single_plans_are_as_they_were_made<V>(file: Seq<char>, edit: EditOf<V>, strict: bool)
    ensures
        single(file, edit, strict).file == file,
        single(file, edit, strict).edits.len() == 1,
        single(file, edit, strict).edits[0] == edit,
        single(file, edit, strict).strict == strict,
{
}

/// The model of a plan holds the file, every edit in its place, and whether failures count.
pub proof fn models_hold_the_whole_plan(plan: StorePlan, i: int)
    requires
        0 <= i < plan.edits@.len(),
    ensures
        plan@.file == plan.file@,
        plan@.strict == plan.strict,
        plan@.edits.len() == plan.edits@.len(),
        match plan.edits@[i] {
            Edit::Put { key, value } => plan@.edits[i] == EditView::Put(key@, value_tree(value))
                && plan.exact().edits[i] == EditOf::Put(key@, value),
            Edit::Delete { key } => plan@.edits[i] == EditView::Delete(key@)
                && plan.exact().edits[i] == EditOf::<serde_json::Value>::Delete(key@),
        },
        plan.exact().file == plan.file@,
        plan.exact().strict == plan.strict,
        plan.exact().edits.len() == plan.edits@.len(),
{
}

/// Plans are carried out one after the other: what the earlier ones leave is what the last one
/// finds, and no plan leaves the disk as it was.
pub proof fn plans_are_carried_out_in_order<V>(
    disk: DiskOf<V>,
    plans: Seq<PlanOf<V>>,
    plan: PlanOf<V>,
)
    ensures
        after_plans(disk, plans.push(plan)) == after_plan(after_plans(disk, plans), plan),
        after_plans(disk, Seq::empty()) == disk,
{
    assert(plans.push(plan).drop_last() =~= plans);
}

/// Of two edits of one key in a plan, the later one is what the key reads back as.
pub proof fn later_edits_win<V>(
    disk: DiskOf<V>,
    plan: PlanOf<V>,
    key: Seq<char>,
    value: V,
)
    requires
        plan.edits.len() > 0,
        plan.edits.last() == EditOf::Put(key, value),
    ensures
        stored(after_plan(disk, plan), plan.file, key) == Some(value),
{
}

/// A fault is an error of the command exactly where the plan is strict, and with its own
/// message; a plan that went well is none.
pub proof fn only_strict_plans_fail_the_command(
    plan: StorePlan,
    fault: Option<String>,
    result: Result<(), AppError>,
)
    requires
        call_ensures(StorePlan::settle, (&plan, fault), result),
    ensures
        result is Err <==> plan.strict && fault is Some,
        result matches Err(e) ==> e@ == ErrorView::Internal(fault->0@),
{
}

/// A preference that was set, once its plan is carried out, is what is read; a preference that
/// was never set reads as null.
pub proof fn preferences_are_read_as_set(
    key: String,
    value: serde_json::Value,
    plan: StorePlan,
    disk: DiskOf<serde_json::Value>,
    read: serde_json::Value,
    unset: serde_json::Value,
)
    requires
        call_ensures(set_setting, (key, value), plan),
        call_ensures(
            get_setting,
            (stored(after_plan(disk, plan.exact()), "settings.json"@, key@),),
            read,
        ),
        call_ensures(get_setting, (None::<serde_json::Value>,), unset),
    ensures
        read == value,
        plan.strict,
        value_tree(unset) == JsonTree::Null,
{
    setting_reads_back(disk, key@, value);
}

/// A string that was stored in the session file, once its plan is carried out, reads back.
pub proof fn stored_strings_are_read_back(
    key: &str,
    text: &str,
    plan: StorePlan,
    disk: DiskView,
)
    requires
        call_ensures(write_string_setting, (key, text), plan),
    ensures
        !plan@.strict,
        text_of(stored(after_plan(disk, plan@), "velmora.json"@, key@)) == Some(text@),
{
    plan_touches_one_key(
        disk,
        STORE_FILE@,
        EditView::Put(key@, JsonTree::Text(text@)),
        false,
        STORE_FILE@,
        key@,
    );
}

} // verus!
