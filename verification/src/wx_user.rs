use vstd::prelude::*;

use crate::wx::{Code2SessionResponse, WXOpenid};

verus! {

/// The code that a WeChat mini program obtains from `wx.login`.
#[derive(Debug, Clone, PartialEq, Eq)]
pub struct WxLoingCode {
    pub js_code: String,
}

/// The query of the `code2Session` request in this flow: the placeholder
/// application id `appid`, the placeholder secret `secret` and the grant type,
/// each parameter closed by `&`.
pub open spec fn jscode2session_query() -> Seq<char> {
    "?appid=appid&secret=secret&grant_type=authorization_code&"@
}

/// The full request address for a login code in this flow.
pub open spec fn jscode2session_url(js_code: Seq<char>) -> Seq<char> {
    crate::wx::jscode2session_endpoint() + jscode2session_query() + "js_code="@ + js_code
}

/// Appends the query of the `code2Session` request to `jscode2session_url`.
pub fn build_jscode2session_url(jscode2session_url: &mut String)
    ensures
        final(jscode2session_url)@ == old(jscode2session_url)@ + jscode2session_query(),
{
    jscode2session_url.append("?");

    jscode2session_url.append("appid=");
    jscode2session_url.append("appid");
    jscode2session_url.append("&");

    jscode2session_url.append("secret=");
    jscode2session_url.append("secret");
    jscode2session_url.append("&");

    jscode2session_url.append("grant_type=");
    jscode2session_url.append("authorization_code");
    jscode2session_url.append("&");
    proof {
        reveal_strlit("?");
        reveal_strlit("appid=");
        reveal_strlit("appid");
        reveal_strlit("&");
        reveal_strlit("secret=");
        reveal_strlit("secret");
        reveal_strlit("grant_type=");
        reveal_strlit("authorization_code");
        reveal_strlit("?appid=appid&secret=secret&grant_type=authorization_code&");
        assert(jscode2session_url@ =~= old(jscode2session_url)@ + jscode2session_query());
    }
}

/// The address that a login with `code` asks for a session.
pub fn jscode2session_request_url(code: &WxLoingCode) -> (res: String)
    ensures
        res@ == jscode2session_url(code.js_code@),
        res@ == "https://api.weixin.qq.com/sns/jscode2session?appid=appid&secret=secret&grant_type=authorization_code&js_code="@ + code.js_code@,
{
    let mut url = String::from_str("https://api.weixin.qq.com/sns/jscode2session");
    build_jscode2session_url(&mut url);
    url.append("js_code=");
    url.append(code.js_code.as_str());
    proof {
        lemma_request_url_carries_whole_code(code.js_code@);
    }
    url
}

/// The request address of a code is the fixed address of the endpoint with
/// its query and `js_code=`, followed by the whole code: its length is that
/// prefix's length plus the code's, and what follows the prefix is exactly
/// the code.
pub proof fn lemma_request_url_carries_whole_code(js_code: Seq<char>)
    ensures
        jscode2session_url(js_code) == "https://api.weixin.qq.com/sns/jscode2session?appid=appid&secret=secret&grant_type=authorization_code&js_code="@ + js_code,
        jscode2session_url(js_code).len() == "https://api.weixin.qq.com/sns/jscode2session?appid=appid&secret=secret&grant_type=authorization_code&js_code="@.len() + js_code.len(),
        jscode2session_url(js_code).skip("https://api.weixin.qq.com/sns/jscode2session?appid=appid&secret=secret&grant_type=authorization_code&js_code="@.len() as int) == js_code,
{
    reveal_strlit("https://api.weixin.qq.com/sns/jscode2session");
    reveal_strlit("?appid=appid&secret=secret&grant_type=authorization_code&");
    reveal_strlit("js_code=");
    reveal_strlit("https://api.weixin.qq.com/sns/jscode2session?appid=appid&secret=secret&grant_type=authorization_code&js_code=");
    let p = "https://api.weixin.qq.com/sns/jscode2session?appid=appid&secret=secret&grant_type=authorization_code&js_code="@;
    assert(crate::wx::jscode2session_endpoint() + jscode2session_query() + "js_code="@ =~= p);
    assert(jscode2session_url(js_code) =~= p + js_code);
    assert((p + js_code).skip(p.len() as int) =~= js_code);
}

/// The address of WeChat's access-token endpoint with the placeholder
/// application id and secret of this flow and the `client_credential` grant.
pub open spec fn access_token_url() -> Seq<char> {
    "https://api.weixin.qq.com/cgi-bin/token?appid=appid&secret=secret&grant_type=client_credential"@
}

/// Builds the request address for an access token in this flow.
pub fn wx_access_token_url() -> (res: String)
    ensures
        res@ == access_token_url(),
{
    let mut token_url = String::from_str("https://api.weixin.qq.com/cgi-bin/token");
    token_url.append("?");

    token_url.append("appid=");
    token_url.append("appid");
    token_url.append("&");

    token_url.append("secret=");
    token_url.append("secret");
    token_url.append("&");

    token_url.append("grant_type=");
    token_url.append("client_credential");
    proof {
        reveal_strlit("https://api.weixin.qq.com/cgi-bin/token");
        reveal_strlit("?");
        reveal_strlit("appid=");
        reveal_strlit("appid");
        reveal_strlit("&");
        reveal_strlit("secret=");
        reveal_strlit("secret");
        reveal_strlit("grant_type=");
        reveal_strlit("client_credential");
        reveal_strlit(
            "https://api.weixin.qq.com/cgi-bin/token?appid=appid&secret=secret&grant_type=client_credential",
        );
        assert(token_url@ =~= access_token_url());
    }
    token_url
}

/// Where a login of this flow stands between two outside steps.
#[derive(Debug, Clone, PartialEq, Eq)]
pub enum WxUserLoginState {
    /// The `code2Session` request is under way.
    AwaitSession,
    /// WeChat accepted the code; the service asks whether it knows the user.
    AwaitExists(WXOpenid),
    /// The session key of the user is being written.
    AwaitStore(WXOpenid),
    /// The login has ended.
    Finished,
}

/// What the service does next on behalf of a login of this flow.
#[derive(Debug, PartialEq, Eq)]
pub enum WxUserLoginAction<E> {
    /// Send a GET request to `url` and read the reply as a `Code2SessionResponse`.
    FetchSession { url: String },
    /// Ask the database whether a row with this openid exists.
    CheckExists { openid: String },
    /// Set the session key of the row with this openid.
    UpdateSessionKey { openid: String, session_key: String },
    /// Insert this row as it stands.
    InsertRow(WXOpenid),
    /// The login ends: a user, no user (WeChat refused the code) or an error.
    Finish(Result<Option<WXOpenid>, E>),
}

/// What the outside step of the last action gave back.
#[derive(Debug, PartialEq, Eq)]
pub enum WxUserLoginEvent<E> {
    SessionReply(Code2SessionResponse),
    Exists(bool),
    Stored,
    Failed(E),
}

/// Whether `event` answers the action that led to `state`.
pub open spec fn expects<E>(state: WxUserLoginState, event: WxUserLoginEvent<E>) -> bool {
    match (state, event) {
        (WxUserLoginState::Finished, _) => false,
        (_, WxUserLoginEvent::Failed(_)) => true,
        (WxUserLoginState::AwaitSession, WxUserLoginEvent::SessionReply(_)) => true,
        (WxUserLoginState::AwaitExists(_), WxUserLoginEvent::Exists(_)) => true,
        (WxUserLoginState::AwaitStore(_), WxUserLoginEvent::Stored) => true,
        _ => false,
    }
}

/// The decision of this flow on an event: an error ends the login with that
/// error; a refused code ends it without a user; an accepted code makes the
/// user with row id 0 and WeChat's openid and session key, whose openid is
/// looked up; a known openid gets the new session key, an unknown one the
/// whole row; after the write the login ends with that user.
pub open spec fn spec_step<E>(state: WxUserLoginState, event: WxUserLoginEvent<E>) -> (WxUserLoginState, WxUserLoginAction<E>) {
    match event {
        WxUserLoginEvent::Failed(e) => (WxUserLoginState::Finished, WxUserLoginAction::Finish(Err(e))),
        WxUserLoginEvent::SessionReply(r) => if r.errcode != 0 {
            (WxUserLoginState::Finished, WxUserLoginAction::Finish(Ok(None)))
        } else {
            (
                WxUserLoginState::AwaitExists(WXOpenid { id: 0, openid: r.openid, session_key: r.session_key }),
                WxUserLoginAction::CheckExists { openid: r.openid },
            )
        },
        WxUserLoginEvent::Exists(known) => match state {
            WxUserLoginState::AwaitExists(user) => (
                WxUserLoginState::AwaitStore(user),
                if known {
                    WxUserLoginAction::UpdateSessionKey { openid: user.openid, session_key: user.session_key }
                } else {
                    WxUserLoginAction::InsertRow(user)
                },
            ),
            _ => (state, WxUserLoginAction::Finish(Ok(None))),
        },
        WxUserLoginEvent::Stored => match state {
            WxUserLoginState::AwaitStore(user) => (WxUserLoginState::Finished, WxUserLoginAction::Finish(Ok(Some(user)))),
            _ => (state, WxUserLoginAction::Finish(Ok(None))),
        },
    }
}

/// Opens a login of this flow for `code`: the first action is the
/// `code2Session` request for it.
pub fn start<E>(code: &WxLoingCode) -> (res: (WxUserLoginState, WxUserLoginAction<E>))
    ensures
        res.0 == WxUserLoginState::AwaitSession,
        res.1 == (WxUserLoginAction::FetchSession::<E> { url: res.1->url }),
        res.1->url@ == jscode2session_url(code.js_code@),
        res.1->url@ == "https://api.weixin.qq.com/sns/jscode2session?appid=appid&secret=secret&grant_type=authorization_code&js_code="@ + code.js_code@,
{
    (WxUserLoginState::AwaitSession, WxUserLoginAction::FetchSession { url: jscode2session_request_url(code) })
}

/// Takes the login one step further on the outcome of its last action.
pub fn step<E>(state: WxUserLoginState, event: WxUserLoginEvent<E>) -> (res: (WxUserLoginState, WxUserLoginAction<E>))
    requires
        expects(state, event),
    ensures
        res == spec_step(state, event),
{
    match event {
        WxUserLoginEvent::Failed(e) => (WxUserLoginState::Finished, WxUserLoginAction::Finish(Err(e))),
        WxUserLoginEvent::SessionReply(r) => {
            if r.errcode != 0 {
                (WxUserLoginState::Finished, WxUserLoginAction::Finish(Ok(None)))
            } else {
                let openid = r.openid.clone();
                let new_wx_openid = WXOpenid { id: 0i32, openid: r.openid, session_key: r.session_key };
                (WxUserLoginState::AwaitExists(new_wx_openid), WxUserLoginAction::CheckExists { openid })
            }
        },
        WxUserLoginEvent::Exists(known) => match state {
            WxUserLoginState::AwaitExists(user) => {
                let action = if known {
                    WxUserLoginAction::UpdateSessionKey {
                        openid: user.openid.clone(),
                        session_key: user.session_key.clone(),
                    }
                } else {
                    WxUserLoginAction::InsertRow(WXOpenid {
                        id: user.id,
                        openid: user.openid.clone(),
                        session_key: user.session_key.clone(),
                    })
                };
                (WxUserLoginState::AwaitStore(user), action)
            },
            _ => (state, WxUserLoginAction::Finish(Ok(None))),
        },
        WxUserLoginEvent::Stored => match state {
            WxUserLoginState::AwaitStore(user) => (WxUserLoginState::Finished, WxUserLoginAction::Finish(Ok(Some(user)))),
            _ => (state, WxUserLoginAction::Finish(Ok(None))),
        },
    }
}

/// A code that WeChat refuses ends the login at once, without a user and
/// without any database access.
pub proof fn lemma_refused_code_ends_without_user<E>(reply: Code2SessionResponse)
    requires
        reply.errcode != 0,
    ensures
        spec_step(WxUserLoginState::AwaitSession, WxUserLoginEvent::<E>::SessionReply(reply))
            == (WxUserLoginState::Finished, WxUserLoginAction::<E>::Finish(Ok(None))),
{
}

/// A code that WeChat accepts, followed by a successful lookup and write,
/// logs in the user with row id 0 and WeChat's openid and session key; that
/// same row is what gets inserted when the openid is unknown.
pub proof fn lemma_accepted_code_logs_in_wechat_identity<E>(reply: Code2SessionResponse, known: bool)
    requires
        reply.errcode == 0,
    ensures
        ({
            let user = WXOpenid { id: 0, openid: reply.openid, session_key: reply.session_key };
            let (s1, a1) = spec_step(WxUserLoginState::AwaitSession, WxUserLoginEvent::<E>::SessionReply(reply));
            let (s2, a2) = spec_step(s1, WxUserLoginEvent::<E>::Exists(known));
            let (s3, a3) = spec_step(s2, WxUserLoginEvent::<E>::Stored);
            &&& a1 == WxUserLoginAction::<E>::CheckExists { openid: reply.openid }
            &&& (known ==> a2 == WxUserLoginAction::<E>::UpdateSessionKey {
                openid: reply.openid,
                session_key: reply.session_key,
            })
            &&& (!known ==> a2 == WxUserLoginAction::<E>::InsertRow(user))
            &&& s3 == WxUserLoginState::Finished
            &&& a3 == WxUserLoginAction::<E>::Finish(Ok(Some(user)))
        }),
{
}

/// A step ends the login exactly when its action is the login's result.
pub proof fn lemma_finish_exactly_at_the_end<E>(state: WxUserLoginState, event: WxUserLoginEvent<E>)
    requires
        expects(state, event),
    ensures
        (spec_step(state, event).0 is Finished) <==> (spec_step(state, event).1 is Finish),
{
}

/// A failed outside step, whichever it was, ends the login with that very
/// error: never without a user, never with one.
pub proof fn lemma_failure_ends_with_error<E>(state: WxUserLoginState, error: E)
    requires
        !(state is Finished),
    ensures
        spec_step(state, WxUserLoginEvent::Failed(error))
            == (WxUserLoginState::Finished, WxUserLoginAction::Finish(Err::<Option<WXOpenid>, E>(error))),
{
}

/// A login ends with a user only when the write of the row came back, and
/// the user is the row that was being stored.
pub proof fn lemma_user_only_after_store<E>(state: WxUserLoginState, event: WxUserLoginEvent<E>)
    requires
        expects(state, event),
    ensures
        spec_step(state, event).1 matches WxUserLoginAction::Finish(Ok(Some(_))) ==> {
            &&& state is AwaitStore
            &&& event is Stored
            &&& spec_step(state, event).1->Finish_0->Ok_0->Some_0 == state->AwaitStore_0
        },
{
}

/// A login ends without a user (and without an error) only when WeChat
/// refused the code, that is when its reply carries a non-zero `errcode`.
pub proof fn lemma_no_user_only_on_refusal<E>(state: WxUserLoginState, event: WxUserLoginEvent<E>)
    requires
        expects(state, event),
    ensures
        spec_step(state, event).1 matches WxUserLoginAction::Finish(Ok(None)) ==> {
            &&& event is SessionReply
            &&& event->SessionReply_0.errcode != 0
        },
{
}

/// The row that an accepted code stores and logs in carries row id 0 and
/// the openid and session key of WeChat's reply.
pub proof fn lemma_accepted_code_row<E>(reply: Code2SessionResponse)
    requires
        reply.errcode == 0,
    ensures
        spec_step(WxUserLoginState::AwaitSession, WxUserLoginEvent::<E>::SessionReply(reply)).0
            == WxUserLoginState::AwaitExists(
            WXOpenid { id: 0, openid: reply.openid, session_key: reply.session_key },
        ),
{
}

} // verus!
