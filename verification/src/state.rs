//! The accounts that the daemon knows, and what is kept of them on disk.

use vstd::prelude::*;
use vstd::string::*;

use crate::json::{Json, JsonView};
use crate::text;

verus! {

/// How an account logs in.
#[derive(Clone, Copy, Debug, PartialEq, Eq, Structural)]
pub enum LoginMethod {
    Password,
    Sso,
}

/// How far an account's login has come.
#[derive(Clone, Copy, Debug, PartialEq, Eq, Structural)]
pub enum AccountStatus {
    NeedsLogin,
    LoginInProgress,
    Ready,
}

/// The session of an account at its homeserver.
pub struct MatrixSession {
    pub user_id: String,
    pub device_id: String,
    pub access_token: String,
    pub refresh_token: Option<String>,
}

/// A session as a mathematical value.
#[verifier::ext_equal]
pub struct SessionView {
    pub user_id: Seq<char>,
    pub device_id: Seq<char>,
    pub access_token: Seq<char>,
    pub refresh_token: Option<Seq<char>>,
}

impl View for MatrixSession {
    type V = SessionView;

    open spec fn view(&self) -> SessionView {
        SessionView {
            user_id: self.user_id@,
            device_id: self.device_id@,
            access_token: self.access_token@,
            refresh_token: text::opt_text(self.refresh_token),
        }
    }
}

impl MatrixSession {
    /// A copy of the session.
    pub fn copy(&self) -> (r: MatrixSession)
        ensures
            r@ == self@,
    {
        MatrixSession {
            user_id: self.user_id.clone(),
            device_id: self.device_id.clone(),
            access_token: self.access_token.clone(),
            refresh_token: text::clone_opt(&self.refresh_token),
        }
    }
}

/// The view of an optional session.
pub open spec fn opt_session(s: Option<MatrixSession>) -> Option<SessionView> {
    match s {
        Some(v) => Some(v@),
        None => None,
    }
}

/// A copy of an optional session.
pub fn copy_session(s: &Option<MatrixSession>) -> (r: Option<MatrixSession>)
    ensures
        opt_session(r) == opt_session(*s),
{
    match s {
        Some(v) => Some(v.copy()),
        None => None,
    }
}

/// An account at a homeserver.
pub struct Account {
    pub id: String,
    pub homeserver: String,
    pub login_method: Option<LoginMethod>,
    pub status: AccountStatus,
    pub session: Option<MatrixSession>,
}

/// An account as a mathematical value.
#[verifier::ext_equal]
pub struct AccountView {
    pub id: Seq<char>,
    pub homeserver: Seq<char>,
    pub login_method: Option<LoginMethod>,
    pub status: AccountStatus,
    pub session: Option<SessionView>,
}

impl View for Account {
    type V = AccountView;

    open spec fn view(&self) -> AccountView {
        AccountView {
            id: self.id@,
            homeserver: self.homeserver@,
            login_method: self.login_method,
            status: self.status,
            session: opt_session(self.session),
        }
    }
}

/// The views of a list of accounts.
pub open spec fn account_views(list: Seq<Account>) -> Seq<AccountView> {
    list.map_values(|a: Account| a@)
}

/// The name of a login method.
pub open spec fn method_text(method: LoginMethod) -> Seq<char> {
    match method {
        LoginMethod::Password => "password"@,
        LoginMethod::Sso => "sso"@,
    }
}

/// The name of a login method.
pub fn method_to_string(method: LoginMethod) -> (r: &'static str)
    ensures
        r@ == method_text(method),
{
    match method {
        LoginMethod::Password => "password",
        LoginMethod::Sso => "sso",
    }
}

/// The name of an account status.
pub open spec fn status_text(status: AccountStatus) -> Seq<char> {
    match status {
        AccountStatus::NeedsLogin => "needs_login"@,
        AccountStatus::LoginInProgress => "login_in_progress"@,
        AccountStatus::Ready => "ready"@,
    }
}

/// The name of an account status.
pub fn status_to_string(status: &AccountStatus) -> (r: &'static str)
    ensures
        r@ == status_text(*status),
{
    match status {
        AccountStatus::NeedsLogin => "needs_login",
        AccountStatus::LoginInProgress => "login_in_progress",
        AccountStatus::Ready => "ready",
    }
}

impl AccountView {
    /// An account as JSON. The session stays out of it.
    pub open spec fn json(self) -> JsonView {
        JsonView::object().with("id"@, JsonView::Text(self.id)).with(
            "homeserver"@,
            JsonView::Text(self.homeserver),
        ).with(
            "login_method"@,
            match self.login_method {
                Some(m) => JsonView::Text(method_text(m)),
                None => JsonView::Null,
            },
        ).with("status"@, JsonView::Text(status_text(self.status)))
    }
}

impl Account {
    /// A copy of the account.
    pub fn copy(&self) -> (r: Account)
        ensures
            r@ == self@,
    {
        Account {
            id: self.id.clone(),
            homeserver: self.homeserver.clone(),
            login_method: self.login_method,
            status: self.status,
            session: copy_session(&self.session),
        }
    }

    /// The account as JSON. The session stays out of it.
    pub fn to_json(&self) -> (r: Json)
        ensures
            r is Object,
            r@ == self@.json(),
    {
        let method: Json = match self.login_method {
            Some(m) => Json::text(method_to_string(m)),
            None => Json::Null,
        };
        Json::object().with("id", Json::text(self.id.as_str())).with(
            "homeserver",
            Json::text(self.homeserver.as_str()),
        ).with("login_method", method).with("status", Json::text(status_to_string(&self.status)))
    }
}

/// What is kept of the accounts on disk.
pub struct PersistedState {
    pub next_id: u64,
    pub accounts: Vec<Account>,
}

/// What is kept on disk, as a mathematical value.
#[verifier::ext_equal]
pub struct PersistedView {
    pub next_id: nat,
    pub accounts: Seq<AccountView>,
}

impl View for PersistedState {
    type V = PersistedView;

    open spec fn view(&self) -> PersistedView {
        PersistedView { next_id: self.next_id as nat, accounts: account_views(self.accounts@) }
    }
}

/// What is written to disk, and where.
pub struct SaveFile {
    pub path: String,
    pub contents: PersistedState,
}

/// A path with one more component. An absolute component stands for itself.
pub open spec fn joined_path(base: Seq<char>, part: Seq<char>) -> Seq<char> {
    if part.len() > 0 && part[0] == '/' {
        part
    } else if base.len() == 0 || base.last() == '/' {
        base + part
    } else {
        base + "/"@ + part
    }
}

/// A path with one more component. An absolute component stands for itself.
pub fn join_path(base: &str, part: &str) -> (r: String)
    ensures
        r@ == joined_path(base@, part@),
{
    let n: usize = base.unicode_len();
    if part.unicode_len() > 0 && part.get_char(0) == '/' {
        part.to_owned()
    } else if n == 0 || base.get_char(n - 1) == '/' {
        text::concat2(base, part)
    } else {
        text::concat3(base, "/", part)
    }
}

/// The daemon's accounts.
pub struct State {
    pub next_id: u64,
    pub accounts: Vec<Account>,
    pub state_dir: String,
}

/// The daemon's accounts as a mathematical value.
#[verifier::ext_equal]
pub struct StateView {
    pub next_id: nat,
    pub accounts: Seq<AccountView>,
    pub state_dir: Seq<char>,
}

impl View for State {
    type V = StateView;

    open spec fn view(&self) -> StateView {
        StateView {
            next_id: self.next_id as nat,
            accounts: account_views(self.accounts@),
            state_dir: self.state_dir@,
        }
    }
}

/// The place of the first account with the given id, or the length of the list.
pub open spec fn account_place(accounts: Seq<AccountView>, id: Seq<char>) -> nat
    decreases accounts.len(),
{
    if accounts.len() == 0 {
        0
    } else if accounts[0].id == id {
        0
    } else {
        1 + account_place(accounts.drop_first(), id)
    }
}

/// The account id with the given number.
pub open spec fn numbered_id(n: nat) -> Seq<char> {
    "acct-"@ + text::decimal(n)
}

impl StateView {
    /// The first account with the given id.
    pub open spec fn find(self, id: Seq<char>) -> Option<AccountView> {
        if account_place(self.accounts, id) < self.accounts.len() {
            Some(self.accounts[account_place(self.accounts, id) as int])
        } else {
            None
        }
    }

    /// What is kept of the state on disk.
    pub open spec fn persisted(self) -> PersistedView {
        PersistedView { next_id: self.next_id, accounts: self.accounts }
    }

    /// The state that is made of what was found on disk, if anything was.
    pub open spec fn loaded(state_dir: Seq<char>, found: Option<PersistedView>) -> StateView {
        match found {
            Some(p) => StateView { next_id: p.next_id, accounts: p.accounts, state_dir },
            None => StateView { next_id: 1, accounts: Seq::empty(), state_dir },
        }
    }

    /// The account that is made next.
    pub open spec fn next_account(
        self,
        homeserver: Seq<char>,
        login_method: Option<LoginMethod>,
    ) -> AccountView {
        AccountView {
            id: numbered_id(self.next_id),
            homeserver,
            login_method,
            status: AccountStatus::NeedsLogin,
            session: None,
        }
    }

    /// The state with one more account.
    pub open spec fn added(
        self,
        homeserver: Seq<char>,
        login_method: Option<LoginMethod>,
    ) -> StateView {
        StateView {
            next_id: self.next_id + 1,
            accounts: self.accounts.push(self.next_account(homeserver, login_method)),
            state_dir: self.state_dir,
        }
    }

    /// The state with the first account of that id replaced, where there is one.
    pub open spec fn replaced(self, id: Seq<char>, account: AccountView) -> StateView {
        let at = account_place(self.accounts, id);
        if at < self.accounts.len() {
            StateView { accounts: self.accounts.update(at as int, account), ..self }
        } else {
            self
        }
    }

    /// Whether every account got its number from the counter, which counts from one, and no
    /// two the same.
    pub open spec fn ids_issued(self) -> bool {
        &&& 1 <= self.next_id
        &&& forall|i: int|
            0 <= i < self.accounts.len() ==> exists|n: nat|
                1 <= n < self.next_id && (#[trigger] self.accounts[i]).id
                    == #[trigger] numbered_id(n)
        &&& forall|i: int, j: int|
            0 <= i < j < self.accounts.len() ==> (#[trigger] self.accounts[i]).id != (
            #[trigger] self.accounts[j]).id
    }
}

proof fn lemma_place_at(accounts: Seq<AccountView>, id: Seq<char>, at: int)
    requires
        0 <= at < accounts.len(),
        accounts[at].id == id,
        forall|i: int| 0 <= i < at ==> (#[trigger] accounts[i]).id != id,
    ensures
        account_place(accounts, id) == at,
    decreases accounts.len(),
{
    if at > 0 {
        let rest = accounts.drop_first();
        assert forall|i: int| 0 <= i < at - 1 implies (#[trigger] rest[i]).id != id by {
            assert(rest[i] == accounts[i + 1]);
        }
        assert(accounts[0].id != id);
        lemma_place_at(rest, id, at - 1);
    }
}

proof fn lemma_place_absent(accounts: Seq<AccountView>, id: Seq<char>)
    requires
        forall|i: int| 0 <= i < accounts.len() ==> (#[trigger] accounts[i]).id != id,
    ensures
        account_place(accounts, id) == accounts.len(),
    decreases accounts.len(),
{
    if accounts.len() > 0 {
        let rest = accounts.drop_first();
        assert forall|i: int| 0 <= i < rest.len() implies (#[trigger] rest[i]).id != id by {
            assert(rest[i] == accounts[i + 1]);
        }
        assert(accounts[0].id != id);
        lemma_place_absent(rest, id);
    }
}

/// The account that a search finds has the id, and none before it has.
pub proof fn lemma_place_found(accounts: Seq<AccountView>, id: Seq<char>)
    ensures
        account_place(accounts, id) <= accounts.len(),
        account_place(accounts, id) < accounts.len() ==> accounts[account_place(
            accounts,
            id,
        ) as int].id == id,
        forall|i: int| 0 <= i < account_place(accounts, id) ==> (#[trigger] accounts[i]).id != id,
    decreases accounts.len(),
{
    if accounts.len() > 0 && accounts[0].id != id {
        let rest = accounts.drop_first();
        lemma_place_found(rest, id);
        assert forall|i: int| 0 <= i < account_place(accounts, id) implies (
        #[trigger] accounts[i]).id != id by {
            if i > 0 {
                assert(rest[i - 1] == accounts[i]);
            }
        }
    }
}

/// Different numbers make different account ids.
pub proof fn law_numbered_ids_differ(a: nat, b: nat)
    requires
        numbered_id(a) == numbered_id(b),
    ensures
        a == b,
{
    let n = "acct-"@.len() as int;
    assert(numbered_id(a).skip(n) =~= text::decimal(a));
    assert(numbered_id(b).skip(n) =~= text::decimal(b));
    text::lemma_decimal_injective(a, b);
}

/// A new account has an id that no account has, and is found under it; all ids stay
/// distinct and below the counter.
pub proof fn law_added_account_is_new(
    state: StateView,
    homeserver: Seq<char>,
    login_method: Option<LoginMethod>,
)
    requires
        state.ids_issued(),
    ensures
        state.find(numbered_id(state.next_id)) is None,
        state.added(homeserver, login_method).ids_issued(),
        state.added(homeserver, login_method).find(numbered_id(state.next_id)) == Some(
            state.next_account(homeserver, login_method),
        ),
{
    let id = numbered_id(state.next_id);
    let after = state.added(homeserver, login_method);
    assert forall|i: int| 0 <= i < state.accounts.len() implies (#[trigger] state.accounts[i]).id
        != id by {
        let n = choose|n: nat|
            1 <= n < state.next_id && state.accounts[i].id == #[trigger] numbered_id(n);
        if state.accounts[i].id == id {
            law_numbered_ids_differ(n, state.next_id);
        }
    }
    lemma_place_absent(state.accounts, id);
    lemma_place_at(after.accounts, id, state.accounts.len() as int);
    assert forall|i: int| 0 <= i < after.accounts.len() implies exists|n: nat|
        1 <= n < after.next_id && (#[trigger] after.accounts[i]).id
            == #[trigger] numbered_id(n) by {
        if i < state.accounts.len() {
            let n = choose|n: nat|
                1 <= n < state.next_id && state.accounts[i].id == #[trigger] numbered_id(n);
            assert(1 <= n < after.next_id && after.accounts[i].id == numbered_id(n));
        } else {
            assert(after.accounts[i].id == numbered_id(state.next_id));
        }
    }
}

/// A fresh state has issued no ids.
pub proof fn law_fresh_state_ids(state_dir: Seq<char>)
    ensures
        StateView::loaded(state_dir, None).ids_issued(),
{
}

/// Replacing an account by one with the same id keeps all ids distinct and below the
/// counter, and changes what is found under that id and no other.
pub proof fn law_replaced_account(
    state: StateView,
    id: Seq<char>,
    account: AccountView,
    other: Seq<char>,
)
    requires
        account.id == id,
        state.find(id) is Some,
    ensures
        state.replaced(id, account).find(id) == Some(account),
        other != id ==> state.replaced(id, account).find(other) == state.find(other),
        state.ids_issued() ==> state.replaced(id, account).ids_issued(),
{
    let at = account_place(state.accounts, id) as int;
    let after = state.replaced(id, account);
    lemma_place_found(state.accounts, id);
    lemma_place_at(after.accounts, id, at);
    lemma_place_found(state.accounts, other);
    let there = account_place(state.accounts, other);
    if other != id {
        if there < state.accounts.len() {
            lemma_place_at(after.accounts, other, there as int);
        } else {
            lemma_place_absent(after.accounts, other);
        }
    }
    if state.ids_issued() {
        assert forall|i: int| 0 <= i < after.accounts.len() implies exists|n: nat|
            1 <= n < after.next_id && (#[trigger] after.accounts[i]).id
                == #[trigger] numbered_id(n) by {
            assert(after.accounts[i].id == state.accounts[i].id);
        }
        assert forall|i: int, j: int| 0 <= i < j < after.accounts.len() implies (
        #[trigger] after.accounts[i]).id != (#[trigger] after.accounts[j]).id by {
            assert(after.accounts[i].id == state.accounts[i].id);
            assert(after.accounts[j].id == state.accounts[j].id);
        }
    }
}

/// Loading what was saved gives the state back.
pub proof fn law_save_load_round_trip(state: StateView)
    ensures
        StateView::loaded(state.state_dir, Some(state.persisted())) == state,
{
}

impl State {
    /// The state that is made of what was found on disk, or a fresh one.
    pub fn load(state_dir: String, found: Option<PersistedState>) -> (r: State)
        ensures
            r@ == StateView::loaded(
                state_dir@,
                match found {
                    Some(p) => Some(p@),
                    None => None,
                },
            ),
    {
        match found {
            Some(p) => State { next_id: p.next_id, accounts: p.accounts, state_dir },
            None => {
                let r = State { next_id: 1, accounts: Vec::new(), state_dir };
                assert(r@.accounts =~= Seq::empty());
                r
            },
        }
    }

    /// What is to be written to disk, and where.
    pub fn save(&self) -> (r: SaveFile)
        ensures
            r.path@ == joined_path(self@.state_dir, "accounts.json"@),
            r.contents@ == self@.persisted(),
    {
        let mut accounts: Vec<Account> = Vec::new();
        let mut i: usize = 0;
        while i < self.accounts.len()
            invariant
                i <= self.accounts.len(),
                account_views(accounts@) == account_views(self.accounts@).take(i as int),
            decreases self.accounts.len() - i,
        {
            let ghost before = accounts@;
            accounts.push(self.accounts[i].copy());
            proof {
                assert(account_views(accounts@) =~= account_views(before).push(
                    self.accounts@[i as int]@,
                ));
                assert(account_views(accounts@) =~= account_views(self.accounts@).take(i + 1));
            }
            i = i + 1;
        }
        assert(account_views(self.accounts@).take(self.accounts@.len() as int) =~= account_views(
            self.accounts@,
        ));
        SaveFile {
            path: join_path(self.state_dir.as_str(), "accounts.json"),
            contents: PersistedState { next_id: self.next_id, accounts },
        }
    }

    /// The directory of the daemon's state.
    pub fn state_dir(&self) -> (r: &str)
        ensures
            r@ == self@.state_dir,
    {
        self.state_dir.as_str()
    }

    fn place(&self, id: &str) -> (r: usize)
        ensures
            r <= self.accounts.len(),
            r == account_place(self@.accounts, id@),
    {
        let mut i: usize = 0;
        while i < self.accounts.len() && !text::str_eq(self.accounts[i].id.as_str(), id)
            invariant
                i <= self.accounts.len(),
                forall|k: int| 0 <= k < i ==> (#[trigger] self@.accounts[k]).id != id@,
            decreases self.accounts.len() - i,
        {
            assert(self@.accounts[i as int] == self.accounts@[i as int]@);
            i = i + 1;
        }
        proof {
            if i < self.accounts.len() {
                assert(self@.accounts[i as int] == self.accounts@[i as int]@);
                lemma_place_at(self@.accounts, id@, i as int);
            } else {
                lemma_place_absent(self@.accounts, id@);
            }
        }
        i
    }

    /// The first account with the given id.
    pub fn find(&self, id: &str) -> (r: Option<&Account>)
        ensures
            match r {
                Some(a) => self@.find(id@) == Some(a@),
                None => self@.find(id@) is None,
            },
    {
        let i: usize = self.place(id);
        if i < self.accounts.len() {
            Some(&self.accounts[i])
        } else {
            None
        }
    }

    /// Makes an account with the next number and adds it at the end.
    pub fn add(&mut self, homeserver: String, login_method: Option<LoginMethod>) -> (r: Account)
        requires
            old(self)@.next_id < u64::MAX,
        ensures
            r@ == old(self)@.next_account(homeserver@, login_method),
            final(self)@ == old(self)@.added(homeserver@, login_method),
    {
        let ghost before = self@;
        let account = Account {
            id: text::concat2("acct-", text::u64_text(self.next_id).as_str()),
            homeserver,
            login_method,
            status: AccountStatus::NeedsLogin,
            session: None,
        };
        self.next_id = self.next_id + 1;
        self.accounts.push(account.copy());
        assert(self@.accounts =~= before.added(homeserver@, login_method).accounts);
        account
    }

    /// Replaces the first account that has the id of the given one, where there is one.
    pub fn replace(&mut self, account: Account) -> (r: bool)
        ensures
            r == (old(self)@.find(account@.id) is Some),
            final(self)@ == old(self)@.replaced(account@.id, account@),
    {
        let ghost before = self@;
        let i: usize = self.place(account.id.as_str());
        if i < self.accounts.len() {
            let ghost fresh = account@;
            self.accounts.set(i, account);
            assert(self@.accounts =~= before.accounts.update(i as int, fresh));
            true
        } else {
            false
        }
    }
}

} // verus!
