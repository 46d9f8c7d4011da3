//! Which ways to log in a homeserver offers, and which one is taken.

use vstd::prelude::*;
use vstd::string::*;

use crate::json;
use crate::json::{Json, JsonView};
use crate::rpc;
use crate::rpc::{bad_params, RpcError};
use crate::state;
use crate::state::LoginMethod;
use crate::text;

verus! {

/// The login method that a login flow stands for.
pub open spec fn flow_method(flow: JsonView) -> Option<LoginMethod> {
    match flow.text_at("type"@) {
        None => None,
        Some(kind) => if kind == "m.login.password"@ {
            Some(LoginMethod::Password)
        } else if "m.login.sso"@.is_prefix_of(kind) {
            Some(LoginMethod::Sso)
        } else {
            None
        },
    }
}

/// The login methods of a list of flows, each once, in the order of their first flows.
pub open spec fn methods_of(flows: Seq<JsonView>) -> Seq<LoginMethod>
    decreases flows.len(),
{
    if flows.len() == 0 {
        Seq::empty()
    } else {
        let before = methods_of(flows.drop_last());
        match flow_method(flows.last()) {
            Some(m) => if before.contains(m) {
                before
            } else {
                before.push(m)
            },
            None => before,
        }
    }
}

/// The login methods that a homeserver's answer offers.
pub open spec fn offered(answer: JsonView) -> Seq<LoginMethod> {
    match answer.items_at("flows"@) {
        Some(flows) => methods_of(flows),
        None => Seq::empty(),
    }
}

/// A homeserver's methods are listed once each, and are those of its flows.
pub proof fn law_methods_listed_once(flows: Seq<JsonView>)
    ensures
        methods_of(flows).no_duplicates(),
        methods_of(flows).len() <= 2,
        forall|m: LoginMethod|
            methods_of(flows).contains(m) <==> exists|i: int|
                0 <= i < flows.len() && flow_method(#[trigger] flows[i]) == Some(m),
    decreases flows.len(),
{
    if flows.len() > 0 {
        let front = flows.drop_last();
        let before = methods_of(front);
        law_methods_listed_once(front);
        let all = methods_of(flows);
        assert forall|m: LoginMethod| all.contains(m) implies exists|i: int|
            0 <= i < flows.len() && flow_method(#[trigger] flows[i]) == Some(m) by {
            if before.contains(m) {
                let i = choose|i: int|
                    0 <= i < front.len() && flow_method(#[trigger] front[i]) == Some(m);
                assert(flows[i] == front[i]);
            } else {
                assert(flow_method(flows[flows.len() - 1]) == Some(m));
            }
        }
        assert forall|m: LoginMethod|
            (exists|i: int| 0 <= i < flows.len() && flow_method(#[trigger] flows[i]) == Some(m))
            implies all.contains(m) by {
            let i = choose|i: int|
                0 <= i < flows.len() && flow_method(#[trigger] flows[i]) == Some(m);
            if i < front.len() {
                assert(front[i] == flows[i]);
                assert(before.contains(m));
                let k = choose|k: int| 0 <= k < before.len() && before[k] == m;
                assert(all[k] == m);
            } else if !before.contains(m) {
                assert(all.last() == m);
            }
        }
        if all.len() > 2 {
            assert(all[0] != all[1] && all[1] != all[2] && all[0] != all[2]);
        }
    }
}

fn has_method(methods: &Vec<LoginMethod>, method: LoginMethod) -> (r: bool)
    ensures
        r == methods@.contains(method),
{
    let mut i: usize = 0;
    while i < methods.len()
        invariant
            i <= methods.len(),
            forall|k: int| 0 <= k < i ==> methods@[k] != method,
        decreases methods.len() - i,
    {
        if methods[i] == method {
            return true;
        }
        i = i + 1;
    }
    false
}

fn method_of_flow(flow: &Json) -> (r: Option<LoginMethod>)
    ensures
        r == flow_method(flow@),
{
    match flow.text_at("type") {
        None => None,
        Some(kind) => if text::str_eq(kind, "m.login.password") {
            Some(LoginMethod::Password)
        } else if text::starts_with(kind, "m.login.sso") {
            Some(LoginMethod::Sso)
        } else {
            None
        },
    }
}

/// The login methods that a homeserver's answer offers.
pub fn extract_login_methods(value: &Json) -> (r: Vec<LoginMethod>)
    ensures
        r@ == offered(value@),
{
    let flows: &Vec<Json> = match value.items_at("flows") {
        Some(flows) => flows,
        None => {
            return Vec::new();
        },
    };
    let ghost all = json::views(flows@);
    let mut methods: Vec<LoginMethod> = Vec::new();
    let mut i: usize = 0;
    while i < flows.len()
        invariant
            i <= flows.len(),
            all == json::views(flows@),
            methods@ == methods_of(all.take(i as int)),
        decreases flows.len() - i,
    {
        assert(all.take(i + 1).drop_last() =~= all.take(i as int));
        assert(all.take(i + 1).last() == flows@[i as int]@);
        match method_of_flow(&flows[i]) {
            Some(m) => {
                if !has_method(&methods, m) {
                    methods.push(m);
                }
            },
            None => {},
        }
        i = i + 1;
    }
    assert(all.take(all.len() as int) =~= all);
    methods
}

/// The login method of a new account: the one that was asked for, where the homeserver
/// offers it. Where nothing was asked for it is the one through a browser, or else the only
/// one that the homeserver offers.
pub open spec fn add_choice(
    requested: Option<LoginMethod>,
    available: Seq<LoginMethod>,
) -> Result<Option<LoginMethod>, rpc::ErrorView> {
    match requested {
        Some(m) => if available.contains(m) {
            Ok(Some(m))
        } else {
            Err(rpc::bad_params_view("unsupported login method"@))
        },
        None => if available.contains(LoginMethod::Sso) {
            Ok(Some(LoginMethod::Sso))
        } else if available.len() == 1 {
            Ok(Some(available[0]))
        } else {
            Ok(None)
        },
    }
}

/// The login method of a login: the one that was asked for, or the account's own, where the
/// homeserver offers it, or the only one that it offers.
pub open spec fn start_choice(
    requested: Option<LoginMethod>,
    stored: Option<LoginMethod>,
    available: Seq<LoginMethod>,
) -> Result<LoginMethod, rpc::ErrorView> {
    let wanted = if requested is Some {
        requested
    } else {
        stored
    };
    match wanted {
        Some(m) => if available.contains(m) {
            Ok(m)
        } else {
            Err(rpc::bad_params_view("unsupported login method"@))
        },
        None => if available.len() == 1 {
            Ok(available[0])
        } else {
            Err(rpc::bad_params_view("login method required"@))
        },
    }
}

/// A method is only ever chosen where the homeserver offers it, and a new account for which
/// none was asked goes through a browser where it can.
pub proof fn law_choice_is_offered(
    requested: Option<LoginMethod>,
    stored: Option<LoginMethod>,
    available: Seq<LoginMethod>,
)
    ensures
        add_choice(requested, available) matches Ok(Some(m)) ==> available.contains(m),
        start_choice(requested, stored, available) matches Ok(m) ==> available.contains(m),
        requested is None && available.contains(LoginMethod::Sso) ==> add_choice(
            requested,
            available,
        ) == Ok::<Option<LoginMethod>, rpc::ErrorView>(Some(LoginMethod::Sso)),
{
}

/// The login method of a new account.
pub fn choose_for_new(
    requested: Option<LoginMethod>,
    available: &Vec<LoginMethod>,
) -> (r: Result<Option<LoginMethod>, RpcError>)
    ensures
        match r {
            Ok(m) => add_choice(requested, available@) == Ok::<
                Option<LoginMethod>,
                rpc::ErrorView,
            >(m),
            Err(e) => add_choice(requested, available@) == Err::<
                Option<LoginMethod>,
                rpc::ErrorView,
            >(e@),
        },
{
    match requested {
        Some(m) => if has_method(available, m) {
            Ok(Some(m))
        } else {
            Err(bad_params("unsupported login method"))
        },
        None => if has_method(available, LoginMethod::Sso) {
            Ok(Some(LoginMethod::Sso))
        } else if available.len() == 1 {
            Ok(Some(available[0]))
        } else {
            Ok(None)
        },
    }
}

/// The login method of a login.
pub fn choose_for_login(
    requested: Option<LoginMethod>,
    stored: Option<LoginMethod>,
    available: &Vec<LoginMethod>,
) -> (r: Result<LoginMethod, RpcError>)
    ensures
        match r {
            Ok(m) => start_choice(requested, stored, available@) == Ok::<
                LoginMethod,
                rpc::ErrorView,
            >(m),
            Err(e) => start_choice(requested, stored, available@) == Err::<
                LoginMethod,
                rpc::ErrorView,
            >(e@),
        },
{
    let wanted: Option<LoginMethod> = match requested {
        Some(m) => Some(m),
        None => stored,
    };
    match wanted {
        Some(m) => if has_method(available, m) {
            Ok(m)
        } else {
            Err(bad_params("unsupported login method"))
        },
        None => if available.len() == 1 {
            Ok(available[0])
        } else {
            Err(bad_params("login method required"))
        },
    }
}

/// Where a browser is sent to log in, and back to.
pub open spec fn login_start_json(
    account_id: Seq<char>,
    method: LoginMethod,
    homeserver: Seq<char>,
) -> JsonView {
    let plain = JsonView::object().with("account_id"@, JsonView::Text(account_id)).with(
        "login_method"@,
        JsonView::Text(state::method_text(method)),
    );
    match method {
        LoginMethod::Password => plain,
        LoginMethod::Sso => plain.with(
            "sso_url"@,
            JsonView::Text(
                text::trim_slashes(homeserver) + "/_matrix/client/v3/login/sso/redirect"@,
            ),
        ).with("redirect_url"@, JsonView::Text("http://127.0.0.1:9388/callback"@)),
    }
}

/// The answer to a request to start a login: the method, and for one through a browser
/// where that is sent to and back to.
pub fn login_start_reply(account_id: &str, method: LoginMethod, homeserver: &str) -> (r: Json)
    ensures
        r@ == login_start_json(account_id@, method, homeserver@),
{
    let plain: Json = Json::object().with("account_id", Json::text(account_id)).with(
        "login_method",
        Json::text(state::method_to_string(method)),
    );
    match method {
        LoginMethod::Password => plain,
        LoginMethod::Sso => {
            let sso_url: String = text::concat2(
                text::trim_trailing_slashes(homeserver),
                "/_matrix/client/v3/login/sso/redirect",
            );
            plain.with("sso_url", Json::text(sso_url.as_str())).with(
                "redirect_url",
                Json::text("http://127.0.0.1:9388/callback"),
            )
        },
    }
}

/// The answer to a login that is complete.
pub open spec fn ready_json(account_id: Seq<char>) -> JsonView {
    JsonView::object().with("account_id"@, JsonView::Text(account_id)).with(
        "status"@,
        JsonView::Text("ready"@),
    )
}

/// The answer to a login that is complete.
pub fn ready_reply(account_id: &str) -> (r: Json)
    ensures
        r@ == ready_json(account_id@),
{
    Json::object().with("account_id", Json::text(account_id)).with("status", Json::text("ready"))
}

} // verus!
