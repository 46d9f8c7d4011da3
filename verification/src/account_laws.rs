//! What the requests about accounts do as a whole: how accounts are listed, added, logged in
//! and taken up again, and that what changes is written to disk.

use vstd::prelude::*;

use crate::account_rpc;
use crate::daemon::{DaemonView, Event, Resume, Step};
use crate::events;
use crate::fetch::FetchReply;
use crate::json::JsonView;
use crate::matrix;
use crate::page_laws;
use crate::request_laws;
use crate::requests;
use crate::requests::Params;
use crate::rpc::RpcRequest;
use crate::state;
use crate::state::{AccountStatus, AccountView, LoginMethod, MatrixSession, StateView};
use crate::text;

verus! {

/// The name of a login method, or null.
pub open spec fn method_name(method: Option<LoginMethod>) -> JsonView {
    match method {
        None => JsonView::Null,
        Some(LoginMethod::Password) => JsonView::Text("password"@),
        Some(LoginMethod::Sso) => JsonView::Text("sso"@),
    }
}

/// The name of how far a login has come.
pub open spec fn status_name(status: AccountStatus) -> JsonView {
    match status {
        AccountStatus::NeedsLogin => JsonView::Text("needs_login"@),
        AccountStatus::LoginInProgress => JsonView::Text("login_in_progress"@),
        AccountStatus::Ready => JsonView::Text("ready"@),
    }
}

/// An account as it is shown: nothing of its session.
pub open spec fn shown_account(account: AccountView) -> JsonView {
    JsonView::Object(
        seq![
            ("id"@, JsonView::Text(account.id)),
            ("homeserver"@, JsonView::Text(account.homeserver)),
            ("login_method"@, method_name(account.login_method)),
            ("status"@, status_name(account.status)),
        ],
    )
}

/// The state of an account as it is told.
pub open spec fn told_state(account: AccountView) -> JsonView {
    JsonView::Object(
        seq![
            ("account_id"@, JsonView::Text(account.id)),
            ("status"@, status_name(account.status)),
            ("has_session"@, JsonView::Bool(account.session is Some)),
        ],
    )
}

/// How far the login of an account has come, as it is shown.
pub open spec fn shown_status(account: AccountView) -> JsonView {
    JsonView::Object(
        seq![
            ("account_id"@, JsonView::Text(account.id)),
            ("homeserver"@, JsonView::Text(account.homeserver)),
            ("status"@, status_name(account.status)),
            ("has_session"@, JsonView::Bool(account.session is Some)),
        ],
    )
}

/// The answer to a login that is complete.
pub open spec fn ready_answer(account_id: Seq<char>) -> JsonView {
    JsonView::Object(
        seq![("account_id"@, JsonView::Text(account_id)), ("status"@, JsonView::Text("ready"@))],
    )
}

/// An account, its state and its status are shown member by member.
pub proof fn lemma_shown(account: AccountView)
    ensures
        account.json() == shown_account(account),
        matrix::account_state_json(account) == told_state(account),
        crate::account_calls::session_status_json(account) == shown_status(account),
        crate::login::ready_json(account.id) == ready_answer(account.id),
{
    assert(account.json()->Object_0 =~= shown_account(account)->Object_0);
    assert(matrix::account_state_json(account)->Object_0 =~= told_state(account)->Object_0);
    assert(crate::account_calls::session_status_json(account)->Object_0 =~= shown_status(
        account,
    )->Object_0);
    assert(crate::login::ready_json(account.id)->Object_0 =~= ready_answer(account.id)->Object_0);
}

/// The answer to a login that is complete, member by member.
pub proof fn lemma_ready(account_id: Seq<char>)
    ensures
        crate::login::ready_json(account_id) == ready_answer(account_id),
{
    assert(crate::login::ready_json(account_id)->Object_0 =~= ready_answer(account_id)->Object_0);
}

/// Whether an account is the one with that id: the first in the list that has it.
pub open spec fn is_account(
    accounts: Seq<AccountView>,
    id: Seq<char>,
    account: AccountView,
) -> bool {
    account.id == id && exists|i: int|
        0 <= i < accounts.len() && #[trigger] accounts[i] == account && forall|k: int|
            0 <= k < i ==> (#[trigger] accounts[k]).id != id
}

/// Whether no account has that id.
pub open spec fn no_account(accounts: Seq<AccountView>, id: Seq<char>) -> bool {
    forall|i: int| 0 <= i < accounts.len() ==> (#[trigger] accounts[i]).id != id
}

/// Looking for an account finds the one with the id, and nothing only where none has it.
pub proof fn law_accounts_are_found(accounts: StateView, id: Seq<char>)
    ensures
        match accounts.find(id) {
            Some(account) => is_account(accounts.accounts, id, account),
            None => no_account(accounts.accounts, id),
        },
{
    state::lemma_place_found(accounts.accounts, id);
}

/// Whether one account is replaced by another of the same id, and all else is as it was.
pub open spec fn replaces(
    before: StateView,
    after: StateView,
    id: Seq<char>,
    account: AccountView,
) -> bool {
    &&& after.next_id == before.next_id && after.state_dir == before.state_dir
    &&& after.accounts.len() == before.accounts.len()
    &&& account.id == id
    &&& exists|i: int|
        0 <= i < before.accounts.len() && (#[trigger] before.accounts[i]).id == id
            && after.accounts == before.accounts.update(i, account) && forall|k: int|
            0 <= k < i ==> (#[trigger] before.accounts[k]).id != id
}

/// Replacing an account that is there touches no other.
pub proof fn lemma_replaces(before: StateView, id: Seq<char>, account: AccountView)
    requires
        before.find(id) is Some,
        account.id == id,
    ensures
        replaces(before, before.replaced(id, account), id, account),
{
    state::lemma_place_found(before.accounts, id);
    let at = state::account_place(before.accounts, id) as int;
    assert(before.accounts[at].id == id);
}

/// Whether all the accounts are written to the file of the accounts in the daemon's
/// directory.
pub open spec fn writes_accounts(s: Step, accounts: StateView) -> bool {
    &&& s is Perform && s->Perform_0 is Save
    &&& s->Perform_0->Save_file.contents@.next_id == accounts.next_id
    &&& s->Perform_0->Save_file.contents@.accounts == accounts.accounts
    &&& s->Perform_0->Save_file.path@ == (if accounts.state_dir.len() == 0
        || accounts.state_dir.last() == '/' {
        accounts.state_dir + "accounts.json"@
    } else {
        accounts.state_dir + "/"@ + "accounts.json"@
    })
}

/// What is saved is all the accounts, in their file.
pub proof fn lemma_writes(s: Step, accounts: StateView)
    requires
        crate::account_calls::saves(s, accounts),
    ensures
        writes_accounts(s, accounts),
{
    reveal_strlit("accounts.json");
}

/// Every account is listed, in order, without its session; and how far each login has come
/// is listed likewise.
pub proof fn law_every_account_is_listed(
    asked: DaemonView,
    request: RpcRequest,
    read: Option<Result<Params, String>>,
    after: DaemonView,
    s: Step,
)
    requires
        requests::handled(asked, request, read, after, s),
    ensures
        request_laws::asks(request, "account.list"@) ==> after == asked && request_laws::answers(
            s,
            JsonView::Array(asked.state.accounts.map_values(|a: AccountView| shown_account(a))),
        ),
        request_laws::asks(request, "matrix.session.status"@) ==> after == asked
            && request_laws::answers(
            s,
            JsonView::Array(asked.state.accounts.map_values(|a: AccountView| shown_status(a))),
        ),
{
    request_laws::law_names_of_methods();
    let all = asked.state.accounts;
    assert forall|i: int| 0 <= i < all.len() implies (#[trigger] all[i]).json() == shown_account(
        all[i],
    ) && crate::account_calls::session_status_json(all[i]) == shown_status(all[i]) by {
        lemma_shown(all[i]);
    }
    assert(crate::account_calls::accounts_json(all)->Array_0 =~= all.map_values(
        |a: AccountView| shown_account(a),
    ));
    assert(crate::account_calls::session_statuses_json(all)->Array_0 =~= all.map_values(
        |a: AccountView| shown_status(a),
    ));
}

/// A new account is looked up and its login types are asked for at the address that was
/// found for the homeserver that is named.
pub proof fn law_new_account_is_looked_up(
    asked: DaemonView,
    request: RpcRequest,
    params: Params,
    begun: DaemonView,
    first: Step,
    later: DaemonView,
    found: Result<String, String>,
    after: DaemonView,
    next: Step,
)
    requires
        request_laws::asks(request, "account.add"@),
        params is Add,
        requests::handled(asked, request, Some(Ok(params)), begun, first),
        requests::resumed(later, first->Perform_1, Event::Text(found), after, next),
    ensures
        begun == asked && after == later,
        first is Perform && first->Perform_0 is ResolveHomeserver,
        first->Perform_0->ResolveHomeserver_homeserver@ == params->Add_homeserver@,
        found is Err ==> request_laws::fails(next, -32603, "internal error: "@ + found->Err_0@),
        found is Ok ==> next is Perform && next->Perform_0 is Get && page_laws::is_at(
            next->Perform_0->Get_url@,
            found->Ok_0@,
            "/_matrix/client/v3/login"@,
        ),
{
    request_laws::law_names_of_methods();
    if found is Ok {
        page_laws::law_pages_stand_below_the_homeserver(found->Ok_0@);
    }
}

/// The method that a new account gets: the one that was asked for, or else the one through a
/// browser where that is offered, or else the other one where that is.
pub open spec fn new_method(requested: Option<LoginMethod>, answer: JsonView) -> Option<
    LoginMethod,
> {
    if requested is Some {
        requested
    } else if page_laws::offers(answer, LoginMethod::Sso) {
        Some(LoginMethod::Sso)
    } else if page_laws::offers(answer, LoginMethod::Password) {
        Some(LoginMethod::Password)
    } else {
        None
    }
}

/// A new account is added behind the others, with the next number, at the address that was
/// found, without a session; it is written to disk, and once it is it is told and answered.
/// One whose method is not offered, or whose homeserver does not answer, is not added.
pub proof fn law_new_account_is_added(
    asked: DaemonView,
    request: RpcRequest,
    params: Params,
    begun: DaemonView,
    first: Step,
    later: DaemonView,
    found: String,
    passed: DaemonView,
    second: Step,
    before: DaemonView,
    reply: FetchReply,
    added: DaemonView,
    third: Step,
    last: DaemonView,
    saved: Result<(), String>,
    after: DaemonView,
    s: Step,
)
    requires
        request_laws::asks(request, "account.add"@),
        params is Add,
        requests::handled(asked, request, Some(Ok(params)), begun, first),
        requests::resumed(later, first->Perform_1, Event::Text(Ok(found)), passed, second),
        requests::resumed(before, second->Perform_1, Event::Fetched(reply), added, third),
        third is Perform ==> requests::resumed(
            last,
            third->Perform_1,
            Event::Done(saved),
            after,
            s,
        ),
    ensures
        ({
            let answer = page_laws::got(reply);
            let requested = params->Add_login_method;
            let refused = answer is Some && requested is Some && !page_laws::offers(
                answer->0,
                requested->0,
            );
            let account = AccountView {
                id: "acct-"@ + text::decimal(before.state.next_id),
                homeserver: found@,
                login_method: new_method(requested, answer->0),
                status: AccountStatus::NeedsLogin,
                session: None,
            };
            &&& answer is None ==> added == before && request_laws::fails(
                third,
                -32603,
                page_laws::complaint(reply),
            )
            &&& refused ==> added == before && request_laws::fails(
                third,
                -32602,
                "unsupported login method"@,
            )
            &&& answer is Some && !refused ==> {
                &&& added.state.accounts == before.state.accounts.push(account)
                &&& added.state.next_id == before.state.next_id + 1
                &&& added.state.state_dir == before.state.state_dir
                &&& added.bus == before.bus && added.runtime == before.runtime
                &&& writes_accounts(third, added.state)
                &&& saved is Err ==> after == last && request_laws::fails(
                    s,
                    -32603,
                    "internal error: "@ + saved->Err_0@,
                )
                &&& saved is Ok ==> {
                    &&& request_laws::answers(s, shown_account(account))
                    &&& request_laws::tells(
                        last.bus,
                        after.bus,
                        account.id,
                        "account.state"@,
                        told_state(account),
                    )
                    &&& after.state == last.state && after.runtime == last.runtime
                }
            }
        }),
{
    request_laws::law_names_of_methods();
    let answer = page_laws::got(reply);
    let requested = params->Add_login_method;
    page_laws::law_answers_make_pages(reply, crate::fetch::Endpoint::LoginTypes);
    if answer is Some {
        page_laws::law_new_account_goes_by_what_was_asked(requested, answer->0);
        if !(requested is Some && !page_laws::offers(answer->0, requested->0)) {
            lemma_writes(third, added.state);
            let account = before.state.next_account(found@, new_method(requested, answer->0));
            lemma_shown(account);
            request_laws::law_emitting_tells(
                last.bus,
                account.id,
                "account.state"@,
                told_state(account),
            );
        }
    }
}

/// A login of an account marks it as in progress, writes that to disk, tells it once that is
/// done, and looks up the account's homeserver. A login of an account that is not known is
/// refused, and nothing changes.
pub proof fn law_login_is_marked(
    asked: DaemonView,
    request: RpcRequest,
    params: Params,
    account: AccountView,
    begun: DaemonView,
    first: Step,
    later: DaemonView,
    saved: Result<(), String>,
    after: DaemonView,
    next: Step,
)
    requires
        request_laws::asks(request, "account.login_start"@),
        params is Start,
        requests::handled(asked, request, Some(Ok(params)), begun, first),
        asked.state.find(params->Start_account_id@) is Some ==> {
            &&& asked.state.find(params->Start_account_id@) == Some(account)
            &&& requests::resumed(later, first->Perform_1, Event::Done(saved), after, next)
        },
    ensures
        asked.state.find(params->Start_account_id@) is None ==> begun == asked
            && request_laws::fails(first, -32602, "unknown account"@),
        asked.state.find(params->Start_account_id@) is Some ==> {
            &&& replaces(
                asked.state,
                begun.state,
                params->Start_account_id@,
                AccountView { status: AccountStatus::LoginInProgress, ..account },
            )
            &&& begun.bus == asked.bus && begun.runtime == asked.runtime
            &&& writes_accounts(first, begun.state)
            &&& saved is Err ==> after == later && request_laws::fails(
                next,
                -32603,
                "internal error: "@ + saved->Err_0@,
            )
            &&& saved is Ok ==> {
                &&& next is Perform && next->Perform_0 is ResolveHomeserver
                &&& next->Perform_0->ResolveHomeserver_homeserver@ == account.homeserver
                &&& after.state == later.state && after.runtime == later.runtime
                &&& match later.state.find(params->Start_account_id@) {
                    None => after.bus == later.bus,
                    Some(now) => request_laws::tells(
                        later.bus,
                        after.bus,
                        params->Start_account_id@,
                        "account.state"@,
                        told_state(now),
                    ),
                }
            }
        },
{
    request_laws::law_names_of_methods();
    let id = params->Start_account_id@;
    state::lemma_place_found(asked.state.accounts, id);
    state::lemma_place_found(later.state.accounts, id);
    if asked.state.find(id) is Some {
        lemma_replaces(
            asked.state,
            id,
            AccountView { status: AccountStatus::LoginInProgress, ..account },
        );
        lemma_writes(first, begun.state);
        if later.state.find(id) is Some {
            let now = later.state.find(id)->0;
            lemma_shown(now);
            request_laws::law_emitting_tells(
                later.bus,
                now.id,
                "account.state"@,
                told_state(now),
            );
        }
    }
}

/// The login types of a login are asked for at the address that was found for its
/// homeserver.
pub proof fn law_login_types_are_asked_for(
    before: DaemonView,
    waiting: Resume,
    found: Result<String, String>,
    after: DaemonView,
    s: Step,
)
    requires
        waiting is StartResolved,
        requests::resumed(before, waiting, Event::Text(found), after, s),
    ensures
        after == before,
        found is Err ==> request_laws::fails(s, -32603, "internal error: "@ + found->Err_0@),
        found is Ok ==> s is Perform && s->Perform_0 is Get && page_laws::is_at(
            s->Perform_0->Get_url@,
            found->Ok_0@,
            "/_matrix/client/v3/login"@,
        ),
{
    if found is Ok {
        page_laws::law_pages_stand_below_the_homeserver(found->Ok_0@);
    }
}

/// Whether an answer says how to go on with a login by a method: for one through a browser
/// also where that is sent, below the homeserver's address, and back to.
pub open spec fn says_how(
    s: Step,
    account_id: Seq<char>,
    method: LoginMethod,
    homeserver: Seq<char>,
) -> bool {
    let shown = s->Reply_0->Ok_0@->Object_0;
    &&& s is Reply && s->Reply_0 is Ok && s->Reply_0->Ok_0@ is Object
    &&& shown[0] == ("account_id"@, JsonView::Text(account_id))
    &&& shown[1] == ("login_method"@, method_name(Some(method)))
    &&& method == LoginMethod::Password ==> shown.len() == 2
    &&& method == LoginMethod::Sso ==> {
        &&& shown.len() == 4
        &&& shown[2].0 == "sso_url"@ && shown[2].1 is Text
        &&& page_laws::is_at(
            shown[2].1->Text_0,
            homeserver,
            "/_matrix/client/v3/login/sso/redirect"@,
        )
        &&& shown[3] == ("redirect_url"@, JsonView::Text("http://127.0.0.1:9388/callback"@))
    }
}

/// A login goes by the method that was asked for where the homeserver offers it, whatever
/// method the account has. The account gets the method and is written to disk where it had
/// another, and the answer says how to go on. A method that is not offered is refused, and
/// nothing changes.
pub proof fn law_login_takes_the_method_asked_for(
    before: DaemonView,
    waiting: Resume,
    account: AccountView,
    reply: FetchReply,
    middle: DaemonView,
    first: Step,
    later: DaemonView,
    saved: Result<(), String>,
    after: DaemonView,
    s: Step,
)
    requires
        waiting is StartFetched,
        waiting->StartFetched_requested is Some,
        before.state.find(waiting->StartFetched_account_id@) == Some(account),
        waiting->StartFetched_stored == account.login_method,
        requests::resumed(before, waiting, Event::Fetched(reply), middle, first),
        first is Perform ==> requests::resumed(
            later,
            first->Perform_1,
            Event::Done(saved),
            after,
            s,
        ),
    ensures
        ({
            let id = waiting->StartFetched_account_id@;
            let method = waiting->StartFetched_requested->0;
            let answer = page_laws::got(reply);
            &&& answer is None ==> middle == before && request_laws::fails(
                first,
                -32603,
                page_laws::complaint(reply),
            )
            &&& answer is Some && !page_laws::offers(answer->0, method) ==> middle == before
                && request_laws::fails(first, -32602, "unsupported login method"@)
            &&& answer is Some && page_laws::offers(answer->0, method) && account.login_method
                == Some(method) ==> middle == before && says_how(
                first,
                id,
                method,
                waiting->StartFetched_homeserver@,
            )
            &&& answer is Some && page_laws::offers(answer->0, method) && account.login_method
                != Some(method) ==> {
                &&& replaces(
                    before.state,
                    middle.state,
                    id,
                    AccountView { login_method: Some(method), ..account },
                )
                &&& middle.bus == before.bus && middle.runtime == before.runtime
                &&& writes_accounts(first, middle.state)
                &&& after == later
                &&& saved is Ok ==> says_how(s, id, method, waiting->StartFetched_homeserver@)
                &&& saved is Err ==> request_laws::fails(
                    s,
                    -32603,
                    "internal error: "@ + saved->Err_0@,
                )
            }
        }),
{
    let id = waiting->StartFetched_account_id@;
    let method = waiting->StartFetched_requested->0;
    let answer = page_laws::got(reply);
    state::lemma_place_found(before.state.accounts, id);
    page_laws::law_answers_make_pages(reply, crate::fetch::Endpoint::LoginTypes);
    if answer is Some {
        page_laws::law_login_goes_by_what_was_asked(
            waiting->StartFetched_requested,
            waiting->StartFetched_stored,
            answer->0,
        );
        page_laws::law_login_says_where_to_go(id, method, waiting->StartFetched_homeserver@);
        if page_laws::offers(answer->0, method) && account.login_method != Some(method) {
            lemma_replaces(
                before.state,
                id,
                AccountView { login_method: Some(method), ..account },
            );
            lemma_writes(first, middle.state);
        }
    }
}

/// A login for which no method was asked goes by the account's own where the homeserver
/// offers it, and by the only one that is offered where the account has none.
pub proof fn law_login_takes_the_stored_method(
    before: DaemonView,
    waiting: Resume,
    account: AccountView,
    reply: FetchReply,
    middle: DaemonView,
    s: Step,
)
    requires
        waiting is StartFetched,
        waiting->StartFetched_requested is None,
        before.state.find(waiting->StartFetched_account_id@) == Some(account),
        waiting->StartFetched_stored == account.login_method,
        requests::resumed(before, waiting, Event::Fetched(reply), middle, s),
        page_laws::got(reply) is Some,
    ensures
        ({
            let id = waiting->StartFetched_account_id@;
            let answer = page_laws::got(reply)->0;
            let by_browser = page_laws::offers(answer, LoginMethod::Sso);
            let by_password = page_laws::offers(answer, LoginMethod::Password);
            &&& account.login_method is Some && page_laws::offers(answer, account.login_method->0)
                ==> middle == before && says_how(
                s,
                id,
                account.login_method->0,
                waiting->StartFetched_homeserver@,
            )
            &&& account.login_method is Some && !page_laws::offers(answer, account.login_method->0)
                ==> middle == before && request_laws::fails(
                s,
                -32602,
                "unsupported login method"@,
            )
            &&& account.login_method is None && by_browser == by_password ==> middle == before
                && request_laws::fails(s, -32602, "login method required"@)
            &&& account.login_method is None && by_browser != by_password ==> {
                &&& replaces(
                    before.state,
                    middle.state,
                    id,
                    AccountView {
                        login_method: Some(
                            if by_browser {
                                LoginMethod::Sso
                            } else {
                                LoginMethod::Password
                            },
                        ),
                        ..account
                    },
                )
                &&& writes_accounts(s, middle.state)
            }
        }),
{
    let id = waiting->StartFetched_account_id@;
    let answer = page_laws::got(reply)->0;
    let homeserver = waiting->StartFetched_homeserver@;
    state::lemma_place_found(before.state.accounts, id);
    page_laws::law_answers_make_pages(reply, crate::fetch::Endpoint::LoginTypes);
    page_laws::law_login_goes_by_what_was_asked(None, account.login_method, answer);
    page_laws::law_login_says_where_to_go(id, LoginMethod::Sso, homeserver);
    page_laws::law_login_says_where_to_go(id, LoginMethod::Password, homeserver);
    if account.login_method is None && page_laws::offers(answer, LoginMethod::Sso)
        != page_laws::offers(answer, LoginMethod::Password) {
        let method = if page_laws::offers(answer, LoginMethod::Sso) {
            LoginMethod::Sso
        } else {
            LoginMethod::Password
        };
        lemma_replaces(before.state, id, AccountView { login_method: Some(method), ..account });
        lemma_writes(s, middle.state);
    }
}

/// What is asked for and what the account has goes along with a login, from its start to the
/// choice of its method.
pub proof fn law_login_remembers_what_was_asked(
    asked: DaemonView,
    request: RpcRequest,
    params: Params,
    account: AccountView,
    begun: DaemonView,
    first: Step,
    later: DaemonView,
    passed: DaemonView,
    second: Step,
    last: DaemonView,
    found: String,
    after: DaemonView,
    s: Step,
)
    requires
        request_laws::asks(request, "account.login_start"@),
        params is Start,
        asked.state.find(params->Start_account_id@) == Some(account),
        requests::handled(asked, request, Some(Ok(params)), begun, first),
        requests::resumed(later, first->Perform_1, Event::Done(Ok(())), passed, second),
        requests::resumed(last, second->Perform_1, Event::Text(Ok(found)), after, s),
    ensures
        s is Perform && s->Perform_1 is StartFetched,
        s->Perform_1->StartFetched_account_id@ == params->Start_account_id@,
        s->Perform_1->StartFetched_requested == params->Start_login_method,
        s->Perform_1->StartFetched_stored == account.login_method,
        s->Perform_1->StartFetched_homeserver@ == found@,
{
    request_laws::law_names_of_methods();
}

/// Whether the step makes a client for the account, at its homeserver and with its own place
/// in the daemon's directory.
pub open spec fn makes_client(s: Step, accounts: StateView, account: AccountView) -> bool {
    &&& s is Perform && s->Perform_0 is BuildClient
    &&& s->Perform_0->BuildClient_homeserver@ == account.homeserver
    &&& s->Perform_0->BuildClient_store_dir@ == state::joined_path(
        state::joined_path(accounts.state_dir, "matrix"@),
        account.id,
    )
}

/// A login with a password makes a client for the account and logs it in with the name, the
/// password and the device's name of the request. An account that is not known is refused.
pub proof fn law_password_login(
    asked: DaemonView,
    request: RpcRequest,
    params: Params,
    begun: DaemonView,
    first: Step,
    later: DaemonView,
    client: u64,
    after: DaemonView,
    next: Step,
)
    requires
        request_laws::asks(request, "account.login_password"@) || request_laws::asks(
            request,
            "matrix.login.password"@,
        ),
        params is Password,
        requests::handled(asked, request, Some(Ok(params)), begun, first),
        asked.state.find(params->Password_account_id@) is Some ==> requests::resumed(
            later,
            first->Perform_1,
            Event::Client(Ok(client)),
            after,
            next,
        ),
    ensures
        begun == asked,
        asked.state.find(params->Password_account_id@) is None ==> request_laws::fails(
            first,
            -32602,
            "unknown account"@,
        ),
        asked.state.find(params->Password_account_id@) is Some ==> {
            let account = asked.state.find(params->Password_account_id@)->0;
            &&& makes_client(first, asked.state, account)
            &&& after == later
            &&& next is Perform && next->Perform_0 is LoginPassword
            &&& next->Perform_0->LoginPassword_client == client
            &&& next->Perform_0->LoginPassword_username@ == params->Password_username@
            &&& next->Perform_0->LoginPassword_password@ == params->Password_password@
            &&& next->Perform_0->LoginPassword_device_name == params->Password_device_name
            &&& next->Perform_1 is LoginAnswered
            &&& next->Perform_1->LoginAnswered_account_id@ == params->Password_account_id@
            &&& next->Perform_1->LoginAnswered_client == client
            &&& next->Perform_1->LoginAnswered_method == LoginMethod::Password
        },
{
    request_laws::law_names_of_methods();
    state::lemma_place_found(asked.state.accounts, params->Password_account_id@);
}

/// A login with a token makes a client for the account and logs it in with the token and the
/// device's name of the request. An account that is not known is refused.
pub proof fn law_token_login(
    asked: DaemonView,
    request: RpcRequest,
    params: Params,
    begun: DaemonView,
    first: Step,
    later: DaemonView,
    client: u64,
    after: DaemonView,
    next: Step,
)
    requires
        request_laws::asks(request, "account.login_complete"@) || request_laws::asks(
            request,
            "matrix.login.sso_complete"@,
        ),
        params is Token,
        requests::handled(asked, request, Some(Ok(params)), begun, first),
        asked.state.find(params->Token_account_id@) is Some ==> requests::resumed(
            later,
            first->Perform_1,
            Event::Client(Ok(client)),
            after,
            next,
        ),
    ensures
        begun == asked,
        asked.state.find(params->Token_account_id@) is None ==> request_laws::fails(
            first,
            -32602,
            "unknown account"@,
        ),
        asked.state.find(params->Token_account_id@) is Some ==> {
            let account = asked.state.find(params->Token_account_id@)->0;
            &&& makes_client(first, asked.state, account)
            &&& after == later
            &&& next is Perform && next->Perform_0 is LoginToken
            &&& next->Perform_0->LoginToken_client == client
            &&& next->Perform_0->LoginToken_token@ == params->Token_token@
            &&& next->Perform_0->LoginToken_device_name == params->Token_device_name
            &&& next->Perform_1 is LoginAnswered
            &&& next->Perform_1->LoginAnswered_account_id@ == params->Token_account_id@
            &&& next->Perform_1->LoginAnswered_client == client
            &&& next->Perform_1->LoginAnswered_method == LoginMethod::Sso
        },
{
    request_laws::law_names_of_methods();
    state::lemma_place_found(asked.state.accounts, params->Token_account_id@);
}

/// A session that is taken up again is the one that is kept of the account, by a client that
/// is made for it. Without a session, or without the account, it is refused.
pub proof fn law_session_is_taken_up_again(
    asked: DaemonView,
    request: RpcRequest,
    params: Params,
    begun: DaemonView,
    first: Step,
    later: DaemonView,
    client: u64,
    after: DaemonView,
    next: Step,
)
    requires
        request_laws::asks(request, "account.session_restore"@) || request_laws::asks(
            request,
            "matrix.session.restore"@,
        ),
        params is Account,
        requests::handled(asked, request, Some(Ok(params)), begun, first),
        first is Perform ==> requests::resumed(
            later,
            first->Perform_1,
            Event::Client(Ok(client)),
            after,
            next,
        ),
    ensures
        begun == asked,
        match asked.state.find(params->Account_account_id@) {
            None => request_laws::fails(first, -32602, "unknown account"@),
            Some(account) => match account.session {
                None => request_laws::fails(first, -32602, "no stored session"@),
                Some(session) => {
                    &&& makes_client(first, asked.state, account)
                    &&& after == later
                    &&& match matrix::user_id_fault(session.user_id) {
                        Some(err) => request_laws::fails(next, -32603, "internal error: "@ + err),
                        None => {
                            &&& next is Perform && next->Perform_0 is RestoreSession
                            &&& next->Perform_0->RestoreSession_client == client
                            &&& next->Perform_0->RestoreSession_session@ == session
                            &&& next->Perform_1 is SessionRestored
                            &&& next->Perform_1->SessionRestored_account_id@
                                == params->Account_account_id@
                            &&& next->Perform_1->SessionRestored_client == client
                        },
                    }
                },
            },
        },
{
    request_laws::law_names_of_methods();
    state::lemma_place_found(asked.state.accounts, params->Account_account_id@);
}

/// A homeserver that lets an account in makes it ready: its session and the way it was
/// logged in are kept and written to disk, and all other accounts are as they were. Where
/// the login fails, or gives no session, nothing changes.
pub proof fn law_login_makes_the_account_ready(
    before: DaemonView,
    waiting: Resume,
    answer: Result<Option<MatrixSession>, String>,
    after: DaemonView,
    s: Step,
)
    requires
        waiting is LoginAnswered,
        requests::resumed(before, waiting, Event::Session(answer), after, s),
    ensures
        ({
            let id = waiting->LoginAnswered_account_id@;
            let found = before.state.find(id);
            &&& answer is Err ==> after == before && request_laws::fails(
                s,
                -32603,
                "internal error: "@ + answer->Err_0@,
            )
            &&& answer is Ok && answer->Ok_0 is None ==> after == before && request_laws::fails(
                s,
                -32603,
                "internal error: "@ + "missing session after login"@,
            )
            &&& answer is Ok && answer->Ok_0 is Some && found is None ==> after == before
                && request_laws::fails(s, -32602, "unknown account"@)
            &&& answer is Ok && answer->Ok_0 is Some && found is Some ==> {
                &&& replaces(
                    before.state,
                    after.state,
                    id,
                    AccountView {
                        id,
                        homeserver: found->0.homeserver,
                        login_method: Some(waiting->LoginAnswered_method),
                        status: AccountStatus::Ready,
                        session: Some(answer->Ok_0->0@),
                    },
                )
                &&& after.bus == before.bus && after.runtime == before.runtime
                &&& writes_accounts(s, after.state)
                &&& s->Perform_1 is LoginSaved
                &&& s->Perform_1->LoginSaved_account_id@ == id
                &&& s->Perform_1->LoginSaved_client == waiting->LoginAnswered_client
            }
        }),
{
    let id = waiting->LoginAnswered_account_id@;
    state::lemma_place_found(before.state.accounts, id);
    if answer is Ok && answer->Ok_0 is Some && before.state.find(id) is Some {
        let account = before.state.find(id)->0;
        lemma_replaces(
            before.state,
            id,
            AccountView {
                id,
                homeserver: account.homeserver,
                login_method: Some(waiting->LoginAnswered_method),
                status: AccountStatus::Ready,
                session: Some(answer->Ok_0->0@),
            },
        );
        lemma_writes(s, after.state);
    }
}

/// Whether a login is told in between: that the account is as it is now, and, where it has a
/// session, that this is ready.
pub open spec fn tells_login(
    before: events::BusView,
    after: events::BusView,
    account: Option<AccountView>,
) -> bool {
    match account {
        None => after == before,
        Some(a) => match a.session {
            None => request_laws::tells(before, after, a.id, "account.state"@, told_state(a)),
            Some(session) => {
                let middle = before.emitted(a.id, "account.state"@, told_state(a));
                request_laws::tells(
                    middle,
                    after,
                    a.id,
                    "matrix.login.ready"@,
                    JsonView::Object(
                        seq![
                            ("status"@, JsonView::Text("ready"@)),
                            ("device_id"@, JsonView::Text(session.device_id)),
                            ("user_id"@, JsonView::Text(session.user_id)),
                        ],
                    ),
                )
            },
        },
    }
}

proof fn lemma_login_told(bus: events::BusView, account: Option<AccountView>)
    ensures
        tells_login(bus, crate::account_calls::login_told(bus, account), account),
{
    if account is Some {
        let a = account->0;
        lemma_shown(a);
        request_laws::law_emitting_tells(bus, a.id, "account.state"@, told_state(a));
        if a.session is Some {
            let session = a.session->0;
            let data = JsonView::Object(
                seq![
                    ("status"@, JsonView::Text("ready"@)),
                    ("device_id"@, JsonView::Text(session.device_id)),
                    ("user_id"@, JsonView::Text(session.user_id)),
                ],
            );
            assert(matrix::login_ready_json(session)->Object_0 =~= data->Object_0);
            request_laws::law_emitting_tells(
                bus.emitted(a.id, "account.state"@, told_state(a)),
                a.id,
                "matrix.login.ready"@,
                data,
            );
        }
    }
}

/// A client whose session is saved, or was taken up again, is the account's client from now
/// on, and the account is kept synchronised by it; where that was so already, the login is
/// told and answered at once. Where it failed, nothing changes.
pub proof fn law_client_becomes_the_accounts(
    before: DaemonView,
    waiting: Resume,
    done: Result<(), String>,
    after: DaemonView,
    s: Step,
)
    requires
        waiting is LoginSaved || waiting is SessionRestored,
        requests::resumed(before, waiting, Event::Done(done), after, s),
    ensures
        ({
            let id = if waiting is LoginSaved {
                waiting->LoginSaved_account_id@
            } else {
                waiting->SessionRestored_account_id@
            };
            let client = if waiting is LoginSaved {
                waiting->LoginSaved_client
            } else {
                waiting->SessionRestored_client
            };
            &&& done is Err ==> after == before && request_laws::fails(
                s,
                -32603,
                "internal error: "@ + done->Err_0@,
            )
            &&& done is Ok ==> {
                &&& after.runtime.clients == before.runtime.clients.insert(id, client)
                &&& after.runtime.syncing == before.runtime.syncing.insert(id)
                &&& after.runtime.flows == before.runtime.flows
                &&& after.state == before.state
                &&& !before.runtime.syncing.contains(id) ==> {
                    &&& after.bus == before.bus
                    &&& s is Perform && s->Perform_0 is StartSync
                    &&& s->Perform_0->StartSync_account_id@ == id
                    &&& s->Perform_0->StartSync_client == client
                    &&& s->Perform_1 is LoginDone
                    &&& s->Perform_1->LoginDone_account_id@ == id
                }
                &&& before.runtime.syncing.contains(id) ==> {
                    &&& tells_login(before.bus, after.bus, before.state.find(id))
                    &&& request_laws::answers(s, ready_answer(id))
                }
            }
        }),
{
    let id = if waiting is LoginSaved {
        waiting->LoginSaved_account_id@
    } else {
        waiting->SessionRestored_account_id@
    };
    lemma_login_told(before.bus, before.state.find(id));
    lemma_ready(id);
}

/// A login that is done is told and answered.
pub proof fn law_login_is_told(
    before: DaemonView,
    waiting: Resume,
    done: Result<(), String>,
    after: DaemonView,
    s: Step,
)
    requires
        waiting is LoginDone,
        requests::resumed(before, waiting, Event::Done(done), after, s),
    ensures
        tells_login(
            before.bus,
            after.bus,
            before.state.find(waiting->LoginDone_account_id@),
        ),
        after.state == before.state && after.runtime == before.runtime,
        request_laws::answers(s, ready_answer(waiting->LoginDone_account_id@)),
{
    lemma_login_told(before.bus, before.state.find(waiting->LoginDone_account_id@));
    lemma_ready(waiting->LoginDone_account_id@);
}

/// Whether an account's status is set and written to disk, and the request goes on with that
/// answer; or the account is not known and nothing changes.
pub open spec fn sets_status(
    before: StateView,
    after: StateView,
    id: Seq<char>,
    status: AccountStatus,
    s: Step,
) -> bool {
    match before.find(id) {
        None => after == before && request_laws::fails(s, -32602, "unknown account"@),
        Some(account) => {
            &&& replaces(before, after, id, AccountView { status, ..account })
            &&& writes_accounts(s, after)
            &&& s->Perform_1 is Persisted
        },
    }
}

/// A login that is marked as started is answered with how to go on, by the account's method
/// or through a browser; one that is marked as complete is answered as ready. Either mark is
/// written to disk.
pub proof fn law_logins_are_marked(
    asked: DaemonView,
    request: RpcRequest,
    params: Params,
    after: DaemonView,
    s: Step,
)
    requires
        requests::handled(asked, request, Some(Ok(params)), after, s),
    ensures
        request_laws::asks(request, "login.start"@) && params is Account ==> {
            let id = params->Account_account_id@;
            &&& after.bus == asked.bus && after.runtime == asked.runtime
            &&& sets_status(asked.state, after.state, id, AccountStatus::LoginInProgress, s)
            &&& asked.state.find(id) is Some ==> {
                let account = asked.state.find(id)->0;
                let shown = s->Perform_1->Persisted_reply@;
                let method = if account.login_method is Some {
                    account.login_method->0
                } else {
                    LoginMethod::Sso
                };
                &&& shown is Object
                &&& shown->Object_0[0] == ("account_id"@, JsonView::Text(id))
                &&& shown->Object_0[1] == ("login_method"@, method_name(Some(method)))
                &&& method == LoginMethod::Sso ==> shown->Object_0.len() == 4
                    && shown->Object_0[2].0 == "sso_url"@ && page_laws::is_at(
                    shown->Object_0[2].1->Text_0,
                    account.homeserver,
                    "/_matrix/client/v3/login/sso/redirect"@,
                ) && shown->Object_0[3] == (
                    "redirect_url"@,
                    JsonView::Text("http://127.0.0.1:9388/callback"@),
                )
                &&& method == LoginMethod::Password ==> shown->Object_0.len() == 2
            }
        },
        request_laws::asks(request, "login.complete"@) && params is Token ==> {
            let id = params->Token_account_id@;
            &&& after.bus == asked.bus && after.runtime == asked.runtime
            &&& sets_status(asked.state, after.state, id, AccountStatus::Ready, s)
            &&& asked.state.find(id) is Some ==> s->Perform_1->Persisted_reply@ == ready_answer(id)
        },
{
    request_laws::law_names_of_methods();
    if request_laws::asks(request, "login.start"@) && params is Account {
        let id = params->Account_account_id@;
        state::lemma_place_found(asked.state.accounts, id);
        if asked.state.find(id) is Some {
            let account = asked.state.find(id)->0;
            lemma_replaces(
                asked.state,
                id,
                AccountView { status: AccountStatus::LoginInProgress, ..account },
            );
            lemma_writes(s, after.state);
            page_laws::law_login_says_where_to_go(
                id,
                account_rpc::method_or_preset(account.login_method),
                account.homeserver,
            );
        }
    }
    if request_laws::asks(request, "login.complete"@) && params is Token {
        let id = params->Token_account_id@;
        state::lemma_place_found(asked.state.accounts, id);
        if asked.state.find(id) is Some {
            let account = asked.state.find(id)->0;
            lemma_replaces(
                asked.state,
                id,
                AccountView { status: AccountStatus::Ready, ..account },
            );
            lemma_writes(s, after.state);
            lemma_ready(id);
        }
    }
}

/// What was to be written to disk decides on the answer: the one that was made, or that it
/// failed and why.
pub proof fn law_answer_waits_for_the_disk(
    before: DaemonView,
    waiting: Resume,
    saved: Result<(), String>,
    after: DaemonView,
    s: Step,
)
    requires
        waiting is Persisted,
        requests::resumed(before, waiting, Event::Done(saved), after, s),
    ensures
        after == before,
        saved is Ok ==> request_laws::answers(s, waiting->Persisted_reply@),
        saved is Err ==> request_laws::fails(s, -32603, "persist failed: "@ + saved->Err_0@),
{
}

} // verus!
