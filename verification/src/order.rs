use vstd::prelude::*;

verus! {

/// The state of an order that a WeChat user has just placed. The states of
/// an order are `0` (placed), `1` (in preparation) and `2` (paid).
pub open spec fn placed_state() -> Seq<char> {
    "0"@
}

/// Whether `c` is a lower-case hexadecimal digit.
pub open spec fn is_lower_hex_char(c: char) -> bool {
    (48 <= c as int <= 57) || (97 <= c as int <= 102)
}

/// Whether `s` is the text of a random (version 4, RFC 4122 variant) UUID
/// in hyphenated lower-case form: 32 hexadecimal digits in groups of 8, 4, 4,
/// 4 and 12 separated by hyphens, the version digit `4` opening the third
/// group and one of `8`, `9`, `a`, `b` opening the fourth.
pub open spec fn is_v4_uuid_text(s: Seq<char>) -> bool {
    &&& s.len() == 36
    &&& forall|i: int|
        0 <= i < 36 ==> if i == 8 || i == 13 || i == 18 || i == 23 {
            #[trigger] s[i] == '-'
        } else {
            is_lower_hex_char(s[i])
        }
    &&& s[14] == '4'
    &&& (s[19] == '8' || s[19] == '9' || s[19] == 'a' || s[19] == 'b')
}

/// The user id of an order placed through WeChat, which has no account user.
pub const NO_USER_ID: i32 = -1;

/// The fields of a new order other than its total cost.
#[derive(Debug, Clone, PartialEq, Eq)]
pub struct NewOrderHead {
    pub uuid: String,
    pub restaurant_id: i32,
    pub user_id: i32,
    pub wx_open_id: i32,
    pub qrcode_location_id: i32,
    pub state: String,
}

/// Calls `uuid::Uuid::new_v4` and formats the id with `to_string`. Trusted:
/// the id is random; `new_v4` sets the version to 4 and the variant to
/// RFC 4122, and its text is the hyphenated lower-case form.
#[verifier::external_body]
fn random_uuid_string() -> (res: String)
    ensures
        is_v4_uuid_text(res@),
{
    uuid::Uuid::new_v4().to_string()
}

/// The head of an order that WeChat user `wx_user_id` places at a table
/// (`qrcode_location_id`) of restaurant `restaurant_id` under the id `uuid`:
/// no account user, and the placed state.
pub fn order_head(uuid: String, restaurant_id: i32, qrcode_location_id: i32, wx_user_id: i32) -> (res: NewOrderHead)
    ensures
        res.uuid == uuid,
        res.restaurant_id == restaurant_id,
        res.user_id == NO_USER_ID,
        res.wx_open_id == wx_user_id,
        res.qrcode_location_id == qrcode_location_id,
        res.state@ == placed_state(),
{
    let state = String::from_str("0");
    proof {
        reveal_strlit("0");
    }
    NewOrderHead { uuid, restaurant_id, user_id: NO_USER_ID, wx_open_id: wx_user_id, qrcode_location_id, state }
}

/// The head of a new order under a fresh random id.
pub fn new_order_head(restaurant_id: i32, qrcode_location_id: i32, wx_user_id: i32) -> (res: NewOrderHead)
    ensures
        is_v4_uuid_text(res.uuid@),
        res.restaurant_id == restaurant_id,
        res.user_id == NO_USER_ID,
        res.wx_open_id == wx_user_id,
        res.qrcode_location_id == qrcode_location_id,
        res.state@ == placed_state(),
{
    order_head(random_uuid_string(), restaurant_id, qrcode_location_id, wx_user_id)
}

} // verus!
