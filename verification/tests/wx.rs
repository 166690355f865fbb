use restaurant_service::wx::{
    build_jscode2session_url, jscode2session_request_url, start, step, wx_access_token_url,
    Code2SessionResponse, WXOpenid, WxLoginAction, WxLoginCode, WxLoginEvent, WxLoginState,
};

fn reply(errcode: i32) -> Code2SessionResponse {
    Code2SessionResponse {
        openid: "oid-1".to_string(),
        session_key: "key-1".to_string(),
        unionid: "u".to_string(),
        errcode,
        errmsg: "msg".to_string(),
    }
}

#[test]
fn jscode2session_query_is_appended() {
    let mut url = "https://api.weixin.qq.com/sns/jscode2session".to_string();
    build_jscode2session_url(&mut url);
    assert_eq!(
        url,
        "https://api.weixin.qq.com/sns/jscode2session?appid=&secret=&grant_type=authorization_code&"
    );
}

#[test]
fn request_url_carries_the_code() {
    let code = WxLoginCode { js_code: "abc".to_string() };
    assert_eq!(
        jscode2session_request_url(&code),
        "https://api.weixin.qq.com/sns/jscode2session?appid=&secret=&grant_type=authorization_code&js_code=abc"
    );
}

#[test]
fn access_token_url() {
    assert_eq!(
        wx_access_token_url(),
        "https://api.weixin.qq.com/cgi-bin/token?appid=&secret=&grant_type=client_credential"
    );
}

#[test]
fn login_starts_with_session_request() {
    let code = WxLoginCode { js_code: "abc".to_string() };
    let (state, action) = start::<String>(&code);
    assert_eq!(state, WxLoginState::AwaitSession);
    assert_eq!(
        action,
        WxLoginAction::FetchSession {
            url: "https://api.weixin.qq.com/sns/jscode2session?appid=&secret=&grant_type=authorization_code&js_code=abc".to_string()
        }
    );
}

#[test]
fn refused_code_ends_without_user() {
    let (s, a) = step::<String>(WxLoginState::AwaitSession, WxLoginEvent::SessionReply(reply(40029)));
    assert_eq!(s, WxLoginState::Finished);
    assert_eq!(a, WxLoginAction::Finish(Ok(None)));
}

#[test]
fn known_user_gets_new_session_key() {
    let (s, a) = step::<String>(WxLoginState::AwaitSession, WxLoginEvent::SessionReply(reply(0)));
    assert_eq!(a, WxLoginAction::CheckExists { openid: "oid-1".to_string() });
    let (s, a) = step::<String>(s, WxLoginEvent::Exists(true));
    assert_eq!(
        a,
        WxLoginAction::UpdateSessionKey { openid: "oid-1".to_string(), session_key: "key-1".to_string() }
    );
    let (s, a) = step::<String>(s, WxLoginEvent::Stored(17));
    assert_eq!(s, WxLoginState::Finished);
    assert_eq!(
        a,
        WxLoginAction::Finish(Ok(Some(WXOpenid {
            id: 17,
            openid: "oid-1".to_string(),
            session_key: "key-1".to_string()
        })))
    );
}

#[test]
fn new_user_is_inserted() {
    let (s, _) = step::<String>(WxLoginState::AwaitSession, WxLoginEvent::SessionReply(reply(0)));
    let (s, a) = step::<String>(s, WxLoginEvent::Exists(false));
    assert_eq!(a, WxLoginAction::Insert { openid: "oid-1".to_string(), session_key: "key-1".to_string() });
    let (_, a) = step::<String>(s, WxLoginEvent::Stored(3));
    assert_eq!(
        a,
        WxLoginAction::Finish(Ok(Some(WXOpenid { id: 3, openid: "oid-1".to_string(), session_key: "key-1".to_string() })))
    );
}

#[test]
fn failure_ends_login_with_the_error() {
    let (s, _) = step::<String>(WxLoginState::AwaitSession, WxLoginEvent::SessionReply(reply(0)));
    let (s, a) = step(s, WxLoginEvent::Failed("pool".to_string()));
    assert_eq!(s, WxLoginState::Finished);
    assert_eq!(a, WxLoginAction::Finish(Err("pool".to_string())));
}

#[test]
fn wx_openid_session_identity() {
    let u = WXOpenid { id: 1, openid: "oid".to_string(), session_key: "k".to_string() };
    assert_eq!(u.id(), "oid");
    assert_eq!(u.session_auth_hash(), b"k");
    assert_eq!(WXOpenid::default(), WXOpenid { id: 0, openid: String::new(), session_key: String::new() });
}

fn login_against(
    table: &mut std::collections::HashMap<String, (i32, String)>,
    reply: Code2SessionResponse,
    fresh_id: i32,
) -> WxLoginAction<String> {
    let (mut s, mut a) = step::<String>(WxLoginState::AwaitSession, WxLoginEvent::SessionReply(reply));
    loop {
        let event = match a {
            WxLoginAction::CheckExists { openid } => WxLoginEvent::Exists(table.contains_key(&openid)),
            WxLoginAction::UpdateSessionKey { openid, session_key } => {
                let row = table.get_mut(&openid).unwrap();
                row.1 = session_key;
                WxLoginEvent::Stored(row.0)
            }
            WxLoginAction::Insert { openid, session_key } => {
                table.insert(openid, (fresh_id, session_key));
                WxLoginEvent::Stored(fresh_id)
            }
            other => return other,
        };
        let next = step(s, event);
        s = next.0;
        a = next.1;
    }
}

#[test]
fn repeated_login_updates_one_row() {
    let mut table = std::collections::HashMap::new();
    let mut first = reply(0);
    first.session_key = "k1".to_string();
    let mut second = reply(0);
    second.session_key = "k2".to_string();
    let a1 = login_against(&mut table, first, 10);
    let a2 = login_against(&mut table, second, 11);
    assert_eq!(table.len(), 1);
    assert_eq!(table.get("oid-1"), Some(&(10, "k2".to_string())));
    assert_eq!(
        a1,
        WxLoginAction::Finish(Ok(Some(WXOpenid { id: 10, openid: "oid-1".to_string(), session_key: "k1".to_string() })))
    );
    assert_eq!(
        a2,
        WxLoginAction::Finish(Ok(Some(WXOpenid { id: 10, openid: "oid-1".to_string(), session_key: "k2".to_string() })))
    );
}
