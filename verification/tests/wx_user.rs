use restaurant_service::wx::{Code2SessionResponse, WXOpenid};
use restaurant_service::wx_user::{
    build_jscode2session_url, start, step, wx_access_token_url, WxLoingCode, WxUserLoginAction,
    WxUserLoginEvent, WxUserLoginState,
};

fn reply(errcode: i32) -> Code2SessionResponse {
    Code2SessionResponse {
        openid: "oid-2".to_string(),
        session_key: "key-2".to_string(),
        unionid: "u".to_string(),
        errcode,
        errmsg: "msg".to_string(),
    }
}

#[test]
fn placeholder_credentials_in_query() {
    let mut url = String::new();
    build_jscode2session_url(&mut url);
    assert_eq!(url, "?appid=appid&secret=secret&grant_type=authorization_code&");
    assert_eq!(
        wx_access_token_url(),
        "https://api.weixin.qq.com/cgi-bin/token?appid=appid&secret=secret&grant_type=client_credential"
    );
}

#[test]
fn flow_request_url() {
    let (_, a) = start::<String>(&WxLoingCode { js_code: "xyz".to_string() });
    assert_eq!(
        a,
        WxUserLoginAction::FetchSession {
            url: "https://api.weixin.qq.com/sns/jscode2session?appid=appid&secret=secret&grant_type=authorization_code&js_code=xyz".to_string()
        }
    );
}

#[test]
fn refused_code_ends_without_user_in_flow() {
    let (s, a) = step::<String>(WxUserLoginState::AwaitSession, WxUserLoginEvent::SessionReply(reply(-1)));
    assert_eq!(s, WxUserLoginState::Finished);
    assert_eq!(a, WxUserLoginAction::Finish(Ok(None)));
}

#[test]
fn new_user_row_has_id_zero() {
    let user = WXOpenid { id: 0, openid: "oid-2".to_string(), session_key: "key-2".to_string() };
    let (s, _) = step::<String>(WxUserLoginState::AwaitSession, WxUserLoginEvent::SessionReply(reply(0)));
    let (s, a) = step::<String>(s, WxUserLoginEvent::Exists(false));
    assert_eq!(a, WxUserLoginAction::InsertRow(user.clone()));
    let (s, a) = step::<String>(s, WxUserLoginEvent::Stored);
    assert_eq!(s, WxUserLoginState::Finished);
    assert_eq!(a, WxUserLoginAction::Finish(Ok(Some(user))));
}

#[test]
fn known_user_in_flow_gets_new_key() {
    let (s, _) = step::<String>(WxUserLoginState::AwaitSession, WxUserLoginEvent::SessionReply(reply(0)));
    let (_, a) = step::<String>(s, WxUserLoginEvent::Exists(true));
    assert_eq!(
        a,
        WxUserLoginAction::UpdateSessionKey { openid: "oid-2".to_string(), session_key: "key-2".to_string() }
    );
}
