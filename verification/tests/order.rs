use restaurant_service::catalog::{NewGoodsFields, NewGoodsType};
use restaurant_service::order::{new_order_head, order_head, NO_USER_ID};

#[test]
fn order_head_fields() {
    let h = order_head("u-1".to_string(), 3, 12, 77);
    assert_eq!(h.uuid, "u-1");
    assert_eq!(h.restaurant_id, 3);
    assert_eq!(h.user_id, -1);
    assert_eq!(h.user_id, NO_USER_ID);
    assert_eq!(h.wx_open_id, 77);
    assert_eq!(h.qrcode_location_id, 12);
    assert_eq!(h.state, "0");
}

#[test]
fn new_order_heads_get_fresh_ids() {
    let a = new_order_head(3, 12, 77);
    let b = new_order_head(3, 12, 77);
    assert_eq!(a.uuid.len(), 36);
    assert_eq!(a.uuid.matches('-').count(), 4);
    let chars: Vec<char> = a.uuid.chars().collect();
    for (i, c) in chars.iter().enumerate() {
        if i == 8 || i == 13 || i == 18 || i == 23 {
            assert_eq!(*c, '-');
        } else {
            assert!(c.is_ascii_digit() || ('a'..='f').contains(c));
        }
    }
    assert_eq!(chars[14], '4');
    assert!(matches!(chars[19], '8' | '9' | 'a' | 'b'));
    assert_ne!(a.uuid, b.uuid);
    assert_eq!(a.state, "0");
    assert_eq!(a.wx_open_id, 77);
}

#[test]
fn goods_type_owned_by_logged_in_restaurant() {
    let t = NewGoodsType { name: "Drinks".to_string(), restaurant_id: 0 }.owned_by(5);
    assert_eq!(t, NewGoodsType { name: "Drinks".to_string(), restaurant_id: 5 });
}

#[test]
fn goods_owned_by_logged_in_restaurant() {
    let g = NewGoodsFields {
        restaurant_id: 0,
        goods_type_id: 2,
        state: true,
        img: "i.png".to_string(),
        name: "Tea".to_string(),
        info: "green".to_string(),
        count: 5,
    };
    let owned = g.clone().owned_by(8);
    assert_eq!(owned, NewGoodsFields { restaurant_id: 8, ..g });
}
