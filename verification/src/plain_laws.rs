//! What the plain account server and the daemon's settings promise as a whole.

use vstd::prelude::*;

use crate::account_laws;
use crate::account_rpc;
use crate::account_rpc::{AccountMethod, AccountParams};
use crate::config::{self, Config};
use crate::daemon::Step;
use crate::fetch;
use crate::fetch::{Endpoint, TextReply};
use crate::json::{Json, JsonView};
use crate::page_laws;
use crate::request_laws;
use crate::rpc::RpcRequest;
use crate::state;
use crate::state::{AccountStatus, AccountView, LoginMethod, State};
use crate::text;

verus! {

/// Every name stands for its own method, and no other name for any.
pub proof fn law_plain_methods(name: Seq<char>)
    ensures
        account_rpc::account_method("rpc.ping"@) == Some(AccountMethod::Ping),
        account_rpc::account_method("rpc.version"@) == Some(AccountMethod::Version),
        account_rpc::account_method("account.list"@) == Some(AccountMethod::List),
        account_rpc::account_method("account.add"@) == Some(AccountMethod::Add),
        account_rpc::account_method("login.start"@) == Some(AccountMethod::Start),
        account_rpc::account_method("login.complete"@) == Some(AccountMethod::Complete),
        account_rpc::account_method("matrix.login_flows"@) == Some(AccountMethod::LoginFlows),
        account_rpc::account_method("matrix.capabilities"@) == Some(AccountMethod::Capabilities),
        account_rpc::account_method(name) is Some ==> seq![
            "rpc.ping"@,
            "rpc.version"@,
            "account.list"@,
            "account.add"@,
            "login.start"@,
            "login.complete"@,
            "matrix.login_flows"@,
            "matrix.capabilities"@,
        ].contains(name),
{
    reveal_strlit("rpc.ping");
    reveal_strlit("rpc.version");
    reveal_strlit("account.list");
    reveal_strlit("account.add");
    reveal_strlit("login.start");
    reveal_strlit("login.complete");
    reveal_strlit("matrix.login_flows");
    reveal_strlit("matrix.capabilities");
    assert("rpc.ping"@.len() == 8);
    assert("rpc.version"@.len() == 11 && "rpc.version"@[0] == 'r');
    assert("account.list"@.len() == 12);
    assert("account.add"@.len() == 11 && "account.add"@[0] == 'a');
    assert("login.start"@.len() == 11 && "login.start"@[0] == 'l');
    assert("login.complete"@.len() == 14);
    assert("matrix.login_flows"@.len() == 18);
    assert("matrix.capabilities"@.len() == 19);
    let names = seq![
        "rpc.ping"@,
        "rpc.version"@,
        "account.list"@,
        "account.add"@,
        "login.start"@,
        "login.complete"@,
        "matrix.login_flows"@,
        "matrix.capabilities"@,
    ];
    assert(names[0] == "rpc.ping"@);
    assert(names[1] == "rpc.version"@);
    assert(names[2] == "account.list"@);
    assert(names[3] == "account.add"@);
    assert(names[4] == "login.start"@);
    assert(names[5] == "login.complete"@);
    assert(names[6] == "matrix.login_flows"@);
    assert(names[7] == "matrix.capabilities"@);
}

/// The requests without parameters are answered at once and change nothing: a ping, the
/// version, and every account in order.
pub proof fn law_plain_answers(
    accounts: &mut State,
    request: RpcRequest,
    read: Option<Result<AccountParams, String>>,
    s: Step,
)
    requires
        call_ensures(account_rpc::handle_request, (accounts, &request, read), s),
    ensures
        request_laws::asks(request, "rpc.ping"@) ==> final(accounts)@ == old(accounts)@
            && request_laws::answers(s, JsonView::Text("pong"@)),
        request_laws::asks(request, "rpc.version"@) ==> final(accounts)@ == old(accounts)@
            && request_laws::answers(s, JsonView::Text("0.1.0"@)),
        request_laws::asks(request, "account.list"@) ==> final(accounts)@ == old(accounts)@
            && request_laws::answers(
            s,
            JsonView::Array(
                old(accounts)@.accounts.map_values(
                    |account: AccountView| account_laws::shown_account(account),
                ),
            ),
        ),
{
    law_plain_methods("rpc.ping"@);
    if request_laws::asks(request, "account.list"@) {
        let all = old(accounts)@.accounts;
        let shown = all.map_values(|account: AccountView| account_laws::shown_account(account));
        assert(s->Reply_0->Ok_0@->Array_0 =~= shown) by {
            assert forall|i: int| 0 <= i < all.len() implies #[trigger] all[i].json()
                == account_laws::shown_account(all[i]) by {
                account_laws::lemma_shown(all[i]);
            }
        }
    }
}

/// A request that is malformed, unknown or without the parameters that its method needs is
/// refused with its own error, and changes nothing.
pub proof fn law_plain_refusals(
    accounts: &mut State,
    request: RpcRequest,
    read: Option<Result<AccountParams, String>>,
    s: Step,
)
    requires
        call_ensures(account_rpc::handle_request, (accounts, &request, read), s),
    ensures
        ({
            let right = request.jsonrpc is Some && request.jsonrpc->0@ == "2.0"@;
            let method = if right && request.method is Some {
                account_rpc::account_method(request.method->0@)
            } else {
                None
            };
            let bare = method == Some(AccountMethod::Ping) || method == Some(
                AccountMethod::Version,
            ) || method == Some(AccountMethod::List);
            &&& !right || request.method is None ==> request_laws::fails(
                s,
                -32600,
                "invalid request"@,
            )
            &&& right && request.method is Some && method is None ==> request_laws::fails(
                s,
                -32601,
                "method not found"@,
            )
            &&& method is Some && !bare && read is None ==> request_laws::fails(
                s,
                -32602,
                "missing params"@,
            )
            &&& method is Some && !bare && read is Some && read->0 is Err ==> request_laws::fails(
                s,
                -32602,
                "invalid params: "@ + read->0->Err_0@,
            )
            &&& s is Reply ==> final(accounts)@ == old(accounts)@
        }),
{
}

/// An account is added behind the others with the next number and the method that was asked
/// for, or the one through a browser; all accounts are written to disk before it is shown.
pub proof fn law_plain_add(
    accounts: &mut State,
    request: RpcRequest,
    params: AccountParams,
    s: Step,
)
    requires
        call_ensures(account_rpc::handle_request, (accounts, &request, Some(Ok(params))), s),
        request_laws::asks(request, "account.add"@),
        params is Add,
    ensures
        ({
            let added = final(accounts)@.accounts.last();
            &&& final(accounts)@.accounts == old(accounts)@.accounts.push(added)
            &&& final(accounts)@.next_id == old(accounts)@.next_id + 1
            &&& final(accounts)@.state_dir == old(accounts)@.state_dir
            &&& added.id == "acct-"@ + text::decimal(old(accounts)@.next_id)
            &&& added.homeserver == params->Add_homeserver@
            &&& added.login_method == Some(
                if params->Add_login_method is Some {
                    params->Add_login_method->0
                } else {
                    LoginMethod::Sso
                },
            )
            &&& added.status == AccountStatus::NeedsLogin && added.session is None
            &&& account_laws::writes_accounts(s, final(accounts)@)
            &&& s->Perform_1 is Persisted
            &&& s->Perform_1->Persisted_reply@ == account_laws::shown_account(added)
        }),
{
    law_plain_methods("account.add"@);
    account_laws::lemma_writes(s, final(accounts)@);
    account_laws::lemma_shown(final(accounts)@.accounts.last());
}

/// A login is marked as started or as complete for the account that is named and for no
/// other; it is written to disk before it is answered with how to go on, or as ready.
pub proof fn law_plain_logins(
    accounts: &mut State,
    request: RpcRequest,
    params: AccountParams,
    s: Step,
)
    requires
        call_ensures(account_rpc::handle_request, (accounts, &request, Some(Ok(params))), s),
    ensures
        request_laws::asks(request, "login.start"@) && params is Start ==> {
            let id = params->Start_account_id@;
            let shown = s->Perform_1->Persisted_reply@->Object_0;
            &&& account_laws::sets_status(
                old(accounts)@,
                final(accounts)@,
                id,
                AccountStatus::LoginInProgress,
                s,
            )
            &&& old(accounts)@.find(id) is Some ==> {
                let account = old(accounts)@.find(id)->0;
                let method = if account.login_method is Some {
                    account.login_method->0
                } else {
                    LoginMethod::Sso
                };
                &&& s->Perform_1->Persisted_reply@ is Object
                &&& shown[0] == ("account_id"@, JsonView::Text(id))
                &&& shown[1] == ("login_method"@, account_laws::method_name(Some(method)))
                &&& method == LoginMethod::Sso ==> shown.len() == 4 && shown[2].0 == "sso_url"@
                    && page_laws::is_at(
                    shown[2].1->Text_0,
                    account.homeserver,
                    "/_matrix/client/v3/login/sso/redirect"@,
                ) && shown[3] == (
                    "redirect_url"@,
                    JsonView::Text("http://127.0.0.1:9388/callback"@),
                )
                &&& method == LoginMethod::Password ==> shown.len() == 2
            }
        },
        request_laws::asks(request, "login.complete"@) && params is Complete ==> {
            let id = params->Complete_account_id@;
            &&& account_laws::sets_status(
                old(accounts)@,
                final(accounts)@,
                id,
                AccountStatus::Ready,
                s,
            )
            &&& old(accounts)@.find(id) is Some ==> s->Perform_1->Persisted_reply@
                == account_laws::ready_answer(id)
        },
{
    law_plain_methods("login.start"@);
    let before = old(accounts)@;
    if request_laws::asks(request, "login.start"@) && params is Start {
        let id = params->Start_account_id@;
        state::lemma_place_found(before.accounts, id);
        if before.find(id) is Some {
            let account = before.find(id)->0;
            account_laws::lemma_replaces(
                before,
                id,
                AccountView { status: AccountStatus::LoginInProgress, ..account },
            );
            account_laws::lemma_writes(s, final(accounts)@);
            page_laws::law_login_says_where_to_go(
                id,
                account_rpc::method_or_preset(account.login_method),
                account.homeserver,
            );
        }
    }
    if request_laws::asks(request, "login.complete"@) && params is Complete {
        let id = params->Complete_account_id@;
        state::lemma_place_found(before.accounts, id);
        if before.find(id) is Some {
            let account = before.find(id)->0;
            account_laws::lemma_replaces(
                before,
                id,
                AccountView { status: AccountStatus::Ready, ..account },
            );
            account_laws::lemma_writes(s, final(accounts)@);
            account_laws::lemma_ready(id);
        }
    }
}

/// What was to be written to disk decides on the answer: the one that was made, or that it
/// failed and why.
pub proof fn law_plain_answer_waits_for_the_disk(
    reply: Json,
    saved: Result<(), String>,
    s: Step,
)
    requires
        call_ensures(account_rpc::persisted, (reply, saved), s),
    ensures
        saved is Ok ==> request_laws::answers(s, reply@),
        saved is Err ==> request_laws::fails(s, -32603, "persist failed: "@ + saved->Err_0@),
{
}

/// Whether an address is the homeserver's on the web: itself where it names how it is
/// reached, and else the secure one of that name.
pub open spec fn on_the_web(address: Seq<char>, homeserver: Seq<char>) -> bool {
    let named = (homeserver.len() >= 7 && homeserver.take(7) == seq![
        'h',
        't',
        't',
        'p',
        ':',
        '/',
        '/',
    ]) || (homeserver.len() >= 8 && homeserver.take(8) == seq![
        'h',
        't',
        't',
        'p',
        's',
        ':',
        '/',
        '/',
    ]);
    &&& named ==> address == homeserver
    &&& !named ==> address == seq!['h', 't', 't', 'p', 's', ':', '/', '/'] + homeserver
}

proof fn lemma_on_the_web(homeserver: Seq<char>)
    ensures
        on_the_web(account_rpc::normalized(homeserver), homeserver),
{
    reveal_strlit("http://");
    reveal_strlit("https://");
    assert("http://"@ =~= seq!['h', 't', 't', 'p', ':', '/', '/']);
    assert("https://"@ =~= seq!['h', 't', 't', 'p', 's', ':', '/', '/']);
    if homeserver.len() >= 7 {
        assert(homeserver.take(7) =~= homeserver.subrange(0, 7));
    }
    if homeserver.len() >= 8 {
        assert(homeserver.take(8) =~= homeserver.subrange(0, 8));
    }
}

/// A homeserver's login types and capabilities are asked for below its address on the web,
/// and nothing changes.
pub proof fn law_plain_pages(
    accounts: &mut State,
    request: RpcRequest,
    params: AccountParams,
    first: Step,
)
    requires
        call_ensures(account_rpc::handle_request, (accounts, &request, Some(Ok(params))), first),
        request_laws::asks(request, "matrix.login_flows"@) || request_laws::asks(
            request,
            "matrix.capabilities"@,
        ),
        params is Page,
    ensures
        final(accounts)@ == old(accounts)@,
        ({
            let flows = request_laws::asks(request, "matrix.login_flows"@);
            let path = if flows {
                "/_matrix/client/v3/login"@
            } else {
                "/_matrix/client/v3/capabilities"@
            };
            let address = first->Perform_1->PageText_homeserver@;
            &&& first is Perform && first->Perform_0 is Get && first->Perform_1 is PageText
            &&& on_the_web(address, params->Page_homeserver@)
            &&& page_laws::is_at(first->Perform_0->Get_url@, address, path)
            &&& first->Perform_1->PageText_endpoint == (if flows {
                Endpoint::LoginTypes
            } else {
                Endpoint::Capabilities
            })
        }),
{
    law_plain_methods("matrix.login_flows"@);
    lemma_on_the_web(params->Page_homeserver@);
    page_laws::law_pages_stand_below_the_homeserver(
        account_rpc::normalized(params->Page_homeserver@),
    );
}

/// A page that could be read is handed on under its name with the homeserver's address and
/// what is wrong with it; one that could not is answered with why.
pub proof fn law_plain_pages_are_handed_on(
    endpoint: Endpoint,
    homeserver: &str,
    reply: TextReply,
    s: Step,
)
    requires
        call_ensures(account_rpc::page_text, (endpoint, homeserver, reply), s),
    ensures
        ({
            let meaning = fetch::text_meaning(reply, endpoint);
            let key = if endpoint == Endpoint::LoginTypes {
                "login"@
            } else {
                "capabilities"@
            };
            &&& meaning is Err ==> request_laws::fails(
                s,
                meaning->Err_0.code as int,
                meaning->Err_0.message,
            )
            &&& meaning is Ok ==> request_laws::answers(
                s,
                page_laws::handed_on(
                    key,
                    homeserver@,
                    meaning->Ok_0.value,
                    meaning->Ok_0.parse_warning,
                ),
            )
        }),
{
    let meaning = fetch::text_meaning(reply, endpoint);
    if meaning is Ok {
        page_laws::lemma_handed_on(homeserver@, endpoint, meaning->Ok_0);
    }
}

/// A setting that is given is kept to, and one that is not is the preset one: the state is
/// kept beside the daemon, and it listens on its own port of the local machine.
pub proof fn law_settings(
    read: Option<Config>,
    config: Config,
    dir: String,
    address: String,
    named: Option<String>,
    path: String,
)
    requires
        call_ensures(Config::load, (read,), config),
        call_ensures(Config::state_dir, (&config,), dir),
        call_ensures(Config::rpc_listen, (&config,), address),
        call_ensures(config::config_path, (named,), path),
    ensures
        read is Some && read->0.state_dir is Some ==> dir@ == read->0.state_dir->0@,
        read is None || read->0.state_dir is None ==> dir@ == "./state"@,
        read is Some && read->0.rpc_listen is Some ==> address@ == read->0.rpc_listen->0@,
        read is None || read->0.rpc_listen is None ==> address@ == "127.0.0.1:9388"@,
        named is Some ==> path@ == named->0@,
        named is None ==> path@ == "chatterd.toml"@,
{
    assert(read is Some ==> config@.state_dir == text::opt_text(read->0.state_dir));
    assert(read is Some ==> config@.rpc_listen == text::opt_text(read->0.rpc_listen));
}

} // verus!
