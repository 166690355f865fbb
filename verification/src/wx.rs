use vstd::prelude::*;

verus! {

/// The code that a WeChat mini program obtains from `wx.login` and hands to
/// the service to open a session.
#[derive(Debug, Clone, PartialEq, Eq)]
pub struct WxLoginCode {
    pub js_code: String,
}

/// A WeChat user known to the service: the row id, the user's openid and the
/// session key of the user's latest login.
#[derive(Debug, Clone, PartialEq, Eq)]
pub struct WXOpenid {
    pub id: i32,
    pub openid: String,
    pub session_key: String,
}

impl WXOpenid {
    /// The identity under which a session remembers this user: the openid.
    pub fn id(&self) -> (res: String)
        ensures
            res@ == self.openid@,
    {
        self.openid.clone()
    }

    /// The value whose change invalidates the sessions of this user: the bytes
    /// of the session key.
    pub fn session_auth_hash(&self) -> (res: &[u8])
        ensures
            res@ == vstd::utf8::encode_utf8(self.session_key@),
    {
        session_key_auth_hash(&self.session_key)
    }
}

/// The session check value of a WeChat user with session key `session_key`:
/// the key's UTF-8 bytes.
pub fn session_key_auth_hash(session_key: &String) -> (res: &[u8])
    ensures
        res@ == vstd::utf8::encode_utf8(session_key@),
{
    session_key.as_str().as_bytes()
}

impl Default for WXOpenid {
    /// Row id 0 with an empty openid and session key.
    fn default() -> (res: Self)
        ensures
            res.id == 0,
            res.openid@.len() == 0,
            res.session_key@.len() == 0,
    {
        WXOpenid { id: 0, openid: String::new(), session_key: String::new() }
    }
}

/// The reply of WeChat's `code2Session` endpoint.
#[derive(Debug, Clone, PartialEq, Eq)]
pub struct Code2SessionResponse {
    pub openid: String,
    pub session_key: String,
    pub unionid: String,
    pub errcode: i32,
    pub errmsg: String,
}

/// The query that follows the `code2Session` endpoint's path: the application
/// id and secret (left empty here) and the grant type, each parameter closed
/// by `&`.
pub open spec fn jscode2session_query() -> Seq<char> {
    "?appid=&secret=&grant_type=authorization_code&"@
}

/// The address of the `code2Session` endpoint.
pub open spec fn jscode2session_endpoint() -> Seq<char> {
    "https://api.weixin.qq.com/sns/jscode2session"@
}

/// The full request address for a login code: the endpoint, its query and
/// the `js_code` parameter holding the code as it was given.
pub open spec fn jscode2session_url(js_code: Seq<char>) -> Seq<char> {
    jscode2session_endpoint() + jscode2session_query() + "js_code="@ + js_code
}

/// Appends the query of the `code2Session` request (application id, secret
/// and grant type) to `jscode2session_url`.
pub fn build_jscode2session_url(jscode2session_url: &mut String)
    ensures
        final(jscode2session_url)@ == old(jscode2session_url)@ + jscode2session_query(),
{
    jscode2session_url.append("?");

    jscode2session_url.append("appid=");
    jscode2session_url.append("");
    jscode2session_url.append("&");

    jscode2session_url.append("secret=");
    jscode2session_url.append("");
    jscode2session_url.append("&");

    jscode2session_url.append("grant_type=");
    jscode2session_url.append("authorization_code");
    jscode2session_url.append("&");
    proof {
        reveal_strlit("?");
        reveal_strlit("appid=");
        reveal_strlit("");
        reveal_strlit("&");
        reveal_strlit("secret=");
        reveal_strlit("grant_type=");
        reveal_strlit("authorization_code");
        reveal_strlit("?appid=&secret=&grant_type=authorization_code&");
        assert(jscode2session_url@ =~= old(jscode2session_url)@ + jscode2session_query());
    }
}

/// The address that a login with `code` asks for a session: the endpoint,
/// the query of `build_jscode2session_url` and the code itself.
pub fn jscode2session_request_url(code: &WxLoginCode) -> (res: String)
    ensures
        res@ == jscode2session_url(code.js_code@),
        res@ == "https://api.weixin.qq.com/sns/jscode2session?appid=&secret=&grant_type=authorization_code&js_code="@ + code.js_code@,
{
    let mut url = String::from_str("https://api.weixin.qq.com/sns/jscode2session");
    build_jscode2session_url(&mut url);
    url.append("js_code=");
    url.append(code.js_code.as_str());
    proof {
        lemma_request_url_carries_whole_code(code.js_code@);
    }
    url
}

/// The request address of a code is the fixed address of the endpoint with
/// its query and `js_code=`, followed by the whole code: its length is that
/// prefix's length plus the code's, and what follows the prefix is exactly
/// the code.
pub proof fn lemma_request_url_carries_whole_code(js_code: Seq<char>)
    ensures
        jscode2session_url(js_code) == "https://api.weixin.qq.com/sns/jscode2session?appid=&secret=&grant_type=authorization_code&js_code="@ + js_code,
        jscode2session_url(js_code).len() == "https://api.weixin.qq.com/sns/jscode2session?appid=&secret=&grant_type=authorization_code&js_code="@.len() + js_code.len(),
        jscode2session_url(js_code).skip("https://api.weixin.qq.com/sns/jscode2session?appid=&secret=&grant_type=authorization_code&js_code="@.len() as int) == js_code,
{
    reveal_strlit("https://api.weixin.qq.com/sns/jscode2session");
    reveal_strlit("?appid=&secret=&grant_type=authorization_code&");
    reveal_strlit("js_code=");
    reveal_strlit("https://api.weixin.qq.com/sns/jscode2session?appid=&secret=&grant_type=authorization_code&js_code=");
    let p = "https://api.weixin.qq.com/sns/jscode2session?appid=&secret=&grant_type=authorization_code&js_code="@;
    assert(jscode2session_endpoint() + jscode2session_query() + "js_code="@ =~= p);
    assert(jscode2session_url(js_code) =~= p + js_code);
    assert((p + js_code).skip(p.len() as int) =~= js_code);
}

/// Where a WeChat login stands between two outside steps.
#[derive(Debug, Clone, PartialEq, Eq)]
pub enum WxLoginState {
    /// The `code2Session` request is under way.
    AwaitSession,
    /// WeChat accepted the code; the service asks whether it knows the openid.
    AwaitExists { openid: String, session_key: String },
    /// The session key is being written, by an update of the known row or by
    /// the insertion of a new one, and the row id comes back.
    AwaitStore { openid: String, session_key: String },
    /// The login has ended.
    Finished,
}

/// What the service does next on behalf of a WeChat login.
#[derive(Debug, PartialEq, Eq)]
pub enum WxLoginAction<E> {
    /// Send a GET request to `url` and read the reply as a `Code2SessionResponse`.
    FetchSession { url: String },
    /// Ask the database whether a row with this openid exists.
    CheckExists { openid: String },
    /// Set the session key of the row with this openid, returning the row id.
    UpdateSessionKey { openid: String, session_key: String },
    /// Insert a row with this openid and session key, returning the row id.
    Insert { openid: String, session_key: String },
    /// The login ends: a user, no user (WeChat refused the code) or an error.
    Finish(Result<Option<WXOpenid>, E>),
}

/// What the outside step of the last action gave back.
#[derive(Debug, PartialEq, Eq)]
pub enum WxLoginEvent<E> {
    SessionReply(Code2SessionResponse),
    Exists(bool),
    Stored(i32),
    Failed(E),
}

/// Whether `event` answers the action that led to `state`.
pub open spec fn expects<E>(state: WxLoginState, event: WxLoginEvent<E>) -> bool {
    match (state, event) {
        (WxLoginState::Finished, _) => false,
        (_, WxLoginEvent::Failed(_)) => true,
        (WxLoginState::AwaitSession, WxLoginEvent::SessionReply(_)) => true,
        (WxLoginState::AwaitExists { .. }, WxLoginEvent::Exists(_)) => true,
        (WxLoginState::AwaitStore { .. }, WxLoginEvent::Stored(_)) => true,
        _ => false,
    }
}

/// The decision of the login flow on an event: an error ends the login with
/// that error; a refused code (`errcode != 0`) ends it without a user; an
/// accepted code leads to the lookup of its openid, the lookup to an update
/// of a known row or the insertion of a new one, and the write to the user
/// with the stored row id and WeChat's openid and session key.
pub open spec fn spec_step<E>(state: WxLoginState, event: WxLoginEvent<E>) -> (WxLoginState, WxLoginAction<E>) {
    match event {
        WxLoginEvent::Failed(e) => (WxLoginState::Finished, WxLoginAction::Finish(Err(e))),
        WxLoginEvent::SessionReply(r) => if r.errcode != 0 {
            (WxLoginState::Finished, WxLoginAction::Finish(Ok(None)))
        } else {
            (
                WxLoginState::AwaitExists { openid: r.openid, session_key: r.session_key },
                WxLoginAction::CheckExists { openid: r.openid },
            )
        },
        WxLoginEvent::Exists(known) => match state {
            WxLoginState::AwaitExists { openid, session_key } => (
                WxLoginState::AwaitStore { openid, session_key },
                if known {
                    WxLoginAction::UpdateSessionKey { openid, session_key }
                } else {
                    WxLoginAction::Insert { openid, session_key }
                },
            ),
            _ => (state, WxLoginAction::Finish(Ok(None))),
        },
        WxLoginEvent::Stored(id) => match state {
            WxLoginState::AwaitStore { openid, session_key } => (
                WxLoginState::Finished,
                WxLoginAction::Finish(Ok(Some(WXOpenid { id, openid, session_key }))),
            ),
            _ => (state, WxLoginAction::Finish(Ok(None))),
        },
    }
}

/// Opens a WeChat login for `code`: the first action is the `code2Session`
/// request for it.
pub fn start<E>(code: &WxLoginCode) -> (res: (WxLoginState, WxLoginAction<E>))
    ensures
        res.0 == WxLoginState::AwaitSession,
        res.1 == (WxLoginAction::FetchSession::<E> { url: res.1->url }),
        res.1->url@ == jscode2session_url(code.js_code@),
        res.1->url@ == "https://api.weixin.qq.com/sns/jscode2session?appid=&secret=&grant_type=authorization_code&js_code="@ + code.js_code@,
{
    (WxLoginState::AwaitSession, WxLoginAction::FetchSession { url: jscode2session_request_url(code) })
}

/// Takes the login one step further on the outcome of its last action.
pub fn step<E>(state: WxLoginState, event: WxLoginEvent<E>) -> (res: (WxLoginState, WxLoginAction<E>))
    requires
        expects(state, event),
    ensures
        res == spec_step(state, event),
{
    match event {
        WxLoginEvent::Failed(e) => (WxLoginState::Finished, WxLoginAction::Finish(Err(e))),
        WxLoginEvent::SessionReply(r) => {
            if r.errcode != 0 {
                (WxLoginState::Finished, WxLoginAction::Finish(Ok(None)))
            } else {
                let openid = r.openid.clone();
                (
                    WxLoginState::AwaitExists { openid: r.openid, session_key: r.session_key },
                    WxLoginAction::CheckExists { openid },
                )
            }
        },
        WxLoginEvent::Exists(known) => match state {
            WxLoginState::AwaitExists { openid, session_key } => {
                let action = if known {
                    WxLoginAction::UpdateSessionKey { openid: openid.clone(), session_key: session_key.clone() }
                } else {
                    WxLoginAction::Insert { openid: openid.clone(), session_key: session_key.clone() }
                };
                (WxLoginState::AwaitStore { openid, session_key }, action)
            },
            _ => (state, WxLoginAction::Finish(Ok(None))),
        },
        WxLoginEvent::Stored(id) => match state {
            WxLoginState::AwaitStore { openid, session_key } => (
                WxLoginState::Finished,
                WxLoginAction::Finish(Ok(Some(WXOpenid { id, openid, session_key }))),
            ),
            _ => (state, WxLoginAction::Finish(Ok(None))),
        },
    }
}

/// The address of WeChat's access-token endpoint with its query: application
/// id and secret (left empty here) and the `client_credential` grant.
pub open spec fn access_token_url() -> Seq<char> {
    "https://api.weixin.qq.com/cgi-bin/token?appid=&secret=&grant_type=client_credential"@
}

/// Builds the request address for an access token of the service.
pub fn wx_access_token_url() -> (res: String)
    ensures
        res@ == access_token_url(),
{
    let mut token_url = String::from_str("https://api.weixin.qq.com/cgi-bin/token");
    token_url.append("?");

    token_url.append("appid=");
    token_url.append("");
    token_url.append("&");

    token_url.append("secret=");
    token_url.append("");
    token_url.append("&");

    token_url.append("grant_type=");
    token_url.append("client_credential");
    proof {
        reveal_strlit("https://api.weixin.qq.com/cgi-bin/token");
        reveal_strlit("?");
        reveal_strlit("appid=");
        reveal_strlit("");
        reveal_strlit("&");
        reveal_strlit("secret=");
        reveal_strlit("grant_type=");
        reveal_strlit("client_credential");
        reveal_strlit("https://api.weixin.qq.com/cgi-bin/token?appid=&secret=&grant_type=client_credential");
        assert(token_url@ =~= access_token_url());
    }
    token_url
}

/// Whether the login accepts `events` one after another from `state`.
pub open spec fn accepts<E>(state: WxLoginState, events: Seq<WxLoginEvent<E>>) -> bool
    decreases events.len(),
{
    if events.len() == 0 {
        true
    } else {
        expects(state, events[0]) && accepts(spec_step(state, events[0]).0, events.drop_first())
    }
}

/// How many more events a login can take from `state`.
pub open spec fn events_left(state: WxLoginState) -> nat {
    match state {
        WxLoginState::AwaitSession => 3,
        WxLoginState::AwaitExists { .. } => 2,
        WxLoginState::AwaitStore { .. } => 1,
        WxLoginState::Finished => 0,
    }
}

/// A code that WeChat refuses ends the login at once, without a user and
/// without any database access.
pub proof fn lemma_refused_code_ends_without_user<E>(reply: Code2SessionResponse)
    requires
        reply.errcode != 0,
    ensures
        spec_step(WxLoginState::AwaitSession, WxLoginEvent::<E>::SessionReply(reply))
            == (WxLoginState::Finished, WxLoginAction::<E>::Finish(Ok(None))),
{
}

/// A code that WeChat accepts, followed by a successful lookup and write,
/// logs in the user with WeChat's openid and session key and the stored row
/// id; the row is updated when the openid is known and inserted otherwise.
pub proof fn lemma_accepted_code_logs_in_wechat_identity<E>(
    reply: Code2SessionResponse,
    known: bool,
    id: i32,
)
    requires
        reply.errcode == 0,
    ensures
        ({
            let (s1, a1) = spec_step(WxLoginState::AwaitSession, WxLoginEvent::<E>::SessionReply(reply));
            let (s2, a2) = spec_step(s1, WxLoginEvent::<E>::Exists(known));
            let (s3, a3) = spec_step(s2, WxLoginEvent::<E>::Stored(id));
            &&& a1 == WxLoginAction::<E>::CheckExists { openid: reply.openid }
            &&& (known ==> a2 == WxLoginAction::<E>::UpdateSessionKey {
                openid: reply.openid,
                session_key: reply.session_key,
            })
            &&& (!known ==> a2 == WxLoginAction::<E>::Insert {
                openid: reply.openid,
                session_key: reply.session_key,
            })
            &&& s3 == WxLoginState::Finished
            &&& a3 == WxLoginAction::<E>::Finish(
                Ok(Some(WXOpenid { id, openid: reply.openid, session_key: reply.session_key })),
            )
        }),
{
}

/// A step ends the login exactly when its action is the login's result.
pub proof fn lemma_finish_exactly_at_the_end<E>(state: WxLoginState, event: WxLoginEvent<E>)
    requires
        expects(state, event),
    ensures
        (spec_step(state, event).0 is Finished) <==> (spec_step(state, event).1 is Finish),
{
}

/// Every accepted step brings the login closer to its end, so a login that
/// starts with the `code2Session` request takes at most three events.
pub proof fn lemma_login_takes_at_most_three_events<E>(state: WxLoginState, events: Seq<WxLoginEvent<E>>)
    requires
        accepts(state, events),
    ensures
        events.len() <= events_left(state),
        state == WxLoginState::AwaitSession ==> events.len() <= 3,
    decreases events.len(),
{
    if events.len() > 0 {
        lemma_login_takes_at_most_three_events(spec_step(state, events[0]).0, events.drop_first());
    }
}

/// The `wx_openid` table after the write of `action`, as the login sees it:
/// each openid with its row id and session key. An update keeps the row id
/// and sets the key; an insertion adds a row with id `fresh_id` (the id the
/// database hands out). The second value is the row id the write returns.
pub open spec fn stored_after<E>(
    table: Map<Seq<char>, (i32, Seq<char>)>,
    action: WxLoginAction<E>,
    fresh_id: i32,
) -> (Map<Seq<char>, (i32, Seq<char>)>, i32) {
    match action {
        WxLoginAction::UpdateSessionKey { openid, session_key } => (
            table.insert(openid@, (table[openid@].0, session_key@)),
            table[openid@].0,
        ),
        WxLoginAction::Insert { openid, session_key } => (
            table.insert(openid@, (fresh_id, session_key@)),
            fresh_id,
        ),
        _ => (table, 0),
    }
}

/// A whole login whose WeChat reply is `reply`, run against the table
/// `table`: the lookup answers whether the table holds the reply's openid,
/// and the write changes the table as `stored_after` says. The result is the
/// table afterwards and the login's final action.
pub open spec fn login_against_table<E>(
    table: Map<Seq<char>, (i32, Seq<char>)>,
    reply: Code2SessionResponse,
    fresh_id: i32,
) -> (Map<Seq<char>, (i32, Seq<char>)>, WxLoginAction<E>) {
    let (s1, a1) = spec_step(WxLoginState::AwaitSession, WxLoginEvent::<E>::SessionReply(reply));
    if a1 is Finish {
        (table, a1)
    } else {
        let (s2, a2) = spec_step(s1, WxLoginEvent::<E>::Exists(table.contains_key(reply.openid@)));
        let (t2, id) = stored_after(table, a2, fresh_id);
        (t2, spec_step(s2, WxLoginEvent::<E>::Stored(id)).1)
    }
}

/// Logging in twice with the same openid keeps one row for it: the second
/// login updates that row with the new session key instead of inserting
/// another, the table holds the same openids as after the first login, and
/// both logins return the same row id.
pub proof fn lemma_repeated_login_updates_one_row<E>(
    table: Map<Seq<char>, (i32, Seq<char>)>,
    first: Code2SessionResponse,
    second: Code2SessionResponse,
    first_fresh_id: i32,
    second_fresh_id: i32,
)
    requires
        first.errcode == 0,
        second.errcode == 0,
        first.openid@ == second.openid@,
    ensures
        ({
            let (t1, a1) = login_against_table::<E>(table, first, first_fresh_id);
            let (t2, a2) = login_against_table::<E>(t1, second, second_fresh_id);
            &&& t1.contains_key(first.openid@)
            &&& t2.dom() == t1.dom()
            &&& t2[first.openid@] == (t1[first.openid@].0, second.session_key@)
            &&& a1 matches WxLoginAction::Finish(Ok(Some(_)))
            &&& a2 matches WxLoginAction::Finish(Ok(Some(_)))
            &&& a1->Finish_0->Ok_0->Some_0.id == a2->Finish_0->Ok_0->Some_0.id
            &&& a2->Finish_0->Ok_0->Some_0.session_key@ == second.session_key@
        }),
{
    let (t1, a1) = login_against_table::<E>(table, first, first_fresh_id);
    let (t2, a2) = login_against_table::<E>(t1, second, second_fresh_id);
    assert(t2.dom() =~= t1.dom());
}

/// A failed outside step, whichever it was, ends the login with that very
/// error: never without a user, never with one.
pub proof fn lemma_failure_ends_with_error<E>(state: WxLoginState, error: E)
    requires
        !(state is Finished),
    ensures
        spec_step(state, WxLoginEvent::Failed(error))
            == (WxLoginState::Finished, WxLoginAction::Finish(Err::<Option<WXOpenid>, E>(error))),
{
}

/// A login ends with a user only when the write of the row came back: the
/// user has the returned row id and the openid and session key that were
/// being stored.
pub proof fn lemma_user_only_after_store<E>(state: WxLoginState, event: WxLoginEvent<E>)
    requires
        expects(state, event),
    ensures
        spec_step(state, event).1 matches WxLoginAction::Finish(Ok(Some(_))) ==> {
            let user = spec_step(state, event).1->Finish_0->Ok_0->Some_0;
            &&& state is AwaitStore
            &&& event is Stored
            &&& user.id == event->Stored_0
            &&& user.openid == state->AwaitStore_openid
            &&& user.session_key == state->AwaitStore_session_key
        },
{
}

/// A login ends without a user (and without an error) only when WeChat
/// refused the code, that is when its reply carries a non-zero `errcode`.
pub proof fn lemma_no_user_only_on_refusal<E>(state: WxLoginState, event: WxLoginEvent<E>)
    requires
        expects(state, event),
    ensures
        spec_step(state, event).1 matches WxLoginAction::Finish(Ok(None)) ==> {
            &&& event is SessionReply
            &&& event->SessionReply_0.errcode != 0
        },
{
}

} // verus!
