//! The session token: held in memory, kept on disk.

use vstd::prelude::*;
use crate::json::{opt_tree, Json, JsonTree};
use crate::store::{
    after_plan, plan_touches_one_key, read_string_setting, set_text, single, single_plan, stored, text_of, DiskView,
    Edit, EditView, PlanView, StorePlan, STORE_FILE,
};
use crate::text::opt_text;

verus! {

/// Key of the token in the session file.
pub const TOKEN_KEY: &'static str = "auth_token";

/// The token that the running launcher remembers.
#[derive(Debug)]
pub struct AuthState {
    pub token: Option<String>,
}

impl View for AuthState {
    type V = Option<Seq<char>>;

    open spec fn view(&self) -> Option<Seq<char>> {
        opt_text(self.token)
    }
}

/// The token in force: the one in memory, else the one on disk.
pub open spec fn token_in_force(memory: Option<Seq<char>>, disk: Option<JsonTree>) -> Option<
    Seq<char>,
> {
    match memory {
        Some(token) => Some(token),
        None => text_of(disk),
    }
}

/// The plan that keeps a token.
pub open spec fn keep_token(token: Seq<char>) -> PlanView {
    single(STORE_FILE@, EditView::Put(TOKEN_KEY@, JsonTree::Text(token)), true)
}

/// The plan that drops the token.
pub open spec fn drop_token() -> PlanView {
    single(STORE_FILE@, EditView::Delete(TOKEN_KEY@), false)
}

impl Default for AuthState {
    fn default() -> (state: AuthState)
        ensures
            state@ is None,
    {
        AuthState { token: None }
    }
}

impl AuthState {
    /// The token in force, `kept` being what the session file holds under [`TOKEN_KEY`].
    pub fn read_token(&self, kept: Option<&Json>) -> (token: Option<String>)
        ensures
            opt_text(token) == token_in_force(self@, opt_tree(kept)),
    {
        match &self.token {
            Some(token) => Some(token.clone()),
            None => read_string_setting(kept),
        }
    }

    /// Takes a new token: at once in memory, and on disk by the plan.
    pub fn save_token(&mut self, token: &str) -> (plan: StorePlan)
        ensures
            final(self)@ == Some(token@),
            plan@ == keep_token(token@),
    {
        self.token = Some(token.to_owned());
        single_plan(STORE_FILE, set_text(TOKEN_KEY, token), true)
    }

    /// Forgets the token: at once in memory, and on disk by the plan.
    pub fn clear_token(&mut self) -> (plan: StorePlan)
        ensures
            final(self)@ is None,
            plan@ == drop_token(),
    {
        self.token = None;
        single_plan(STORE_FILE, Edit::Delete { key: TOKEN_KEY.to_owned() }, false)
    }

    /// Whether a token is in force.
    pub fn is_logged_in(&self, kept: Option<&Json>) -> (logged_in: bool)
        ensures
            logged_in == (token_in_force(self@, opt_tree(kept)) is Some),
    {
        self.read_token(kept).is_some()
    }
}

/// A token that was saved is the one in force, in the running launcher whatever the disk
/// holds, and after a restart once the plan was carried out.
pub proof fn saved_token_is_read_back(disk: DiskView, token: Seq<char>, other: DiskView)
    ensures
        token_in_force(Some(token), stored(other, STORE_FILE@, TOKEN_KEY@)) == Some(token),
        token_in_force(
            None,
            stored(after_plan(disk, keep_token(token)), STORE_FILE@, TOKEN_KEY@),
        ) == Some(token),
{
    plan_touches_one_key(
        disk,
        STORE_FILE@,
        EditView::Put(TOKEN_KEY@, JsonTree::Text(token)),
        true,
        STORE_FILE@,
        TOKEN_KEY@,
    );
}

/// Once the token was cleared, in memory and on disk, none is in force.
pub proof fn cleared_token_is_gone(disk: DiskView)
    ensures
        token_in_force(None, stored(after_plan(disk, drop_token()), STORE_FILE@, TOKEN_KEY@))
            is None,
{
    plan_touches_one_key(
        disk,
        STORE_FILE@,
        EditView::Delete(TOKEN_KEY@),
        false,
        STORE_FILE@,
        TOKEN_KEY@,
    );
}

/// A token in memory is in force whatever is on disk. Without one, the token on disk is in
/// force exactly when a string is stored there, and it is that string.
pub proof fn memory_comes_before_disk(token: Seq<char>, disk: Option<JsonTree>, kept: Seq<char>)
    ensures
        token_in_force(Some(token), disk) == Some(token),
        token_in_force(None, Some(JsonTree::Text(kept))) == Some(kept),
        token_in_force(None, disk) is Some <==> (disk matches Some(JsonTree::Text(_))),
{
}

/// Saving a token must succeed on disk, clearing it need not; both touch nothing on disk but
/// the token's key in the session file.
pub proof fn sessions_touch_the_token_alone(
    disk: DiskView,
    token: Seq<char>,
    file: Seq<char>,
    key: Seq<char>,
)
    ensures
        keep_token(token).strict,
        !drop_token().strict,
        stored(after_plan(disk, keep_token(token)), file, key) == if file == "velmora.json"@ && key
            == "auth_token"@ {
            Some(JsonTree::Text(token))
        } else {
            stored(disk, file, key)
        },
        stored(after_plan(disk, drop_token()), file, key) == if file == "velmora.json"@ && key
            == "auth_token"@ {
            None
        } else {
            stored(disk, file, key)
        },
{
    plan_touches_one_key(
        disk,
        STORE_FILE@,
        EditView::Put(TOKEN_KEY@, JsonTree::Text(token)),
        true,
        file,
        key,
    );
    plan_touches_one_key(disk, STORE_FILE@, EditView::Delete(TOKEN_KEY@), false, file, key);
}

/// A token that was saved is in force at once, and after a restart once its plan was carried
/// out, which must not fail unnoticed.
pub proof fn saved_sessions_last(
    state: &mut AuthState,
    token: &str,
    plan: StorePlan,
    disk: DiskView,
)
    requires
        call_ensures(AuthState::save_token, (state, token), plan),
    ensures
        final(state)@ == Some(token@),
        plan@.strict,
        token_in_force(None, stored(after_plan(disk, plan@), "velmora.json"@, "auth_token"@))
            == Some(token@),
{
    saved_token_is_read_back(disk, token@, disk);
}

/// A cleared token is gone at once, and after a restart once its plan was carried out.
pub proof fn cleared_sessions_are_over(state: &mut AuthState, plan: StorePlan, disk: DiskView)
    requires
        call_ensures(AuthState::clear_token, (state,), plan),
    ensures
        final(state)@ is None,
        !plan@.strict,
        token_in_force(None, stored(after_plan(disk, plan@), "velmora.json"@, "auth_token"@))
            is None,
{
    cleared_token_is_gone(disk);
}

/// A launcher is logged in exactly while it reads a token, and the token it reads is the one in
/// memory or, without one, the string on disk.
pub proof fn logged_in_means_a_token_is_read(
    state: AuthState,
    kept: Option<&Json>,
    token: Option<String>,
    logged_in: bool,
)
    requires
        call_ensures(AuthState::read_token, (&state, kept), token),
        call_ensures(AuthState::is_logged_in, (&state, kept), logged_in),
    ensures
        logged_in <==> token is Some,
        state.token matches Some(t) ==> (token matches Some(read) && read@ == t@),
        state.token is None ==> opt_text(token) == match opt_tree(kept) {
            Some(JsonTree::Text(t)) => Some(t),
            _ => None,
        },
{
}

} // verus!
