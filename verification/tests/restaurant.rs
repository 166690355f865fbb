use restaurant_service::restaurant::{generate_md5, Credentials, NewRestaurant, Restaurant};

#[test]
fn test() {
    let paasswd = "123456";
    let md5str = generate_md5(paasswd);
    assert_eq!(md5str, "e10adc3949ba59abbe56e057f20f883e");
}

#[test]
fn md5_of_empty_and_text() {
    assert_eq!(generate_md5(""), "d41d8cd98f00b204e9800998ecf8427e");
    assert_eq!(
        generate_md5("The quick brown fox jumps over the lazy dog"),
        "9e107d9d372bb6826bd81d3542a419d6"
    );
}

#[test]
fn md5_of_non_ascii_uses_utf8_bytes() {
    assert_eq!(generate_md5("密码"), format!("{:x}", md5::compute("密码".as_bytes())));
    assert_eq!(generate_md5("密码").len(), 32);
}

fn registration(password: &str) -> NewRestaurant {
    NewRestaurant {
        name: "Noodle House".to_string(),
        img: "img.png".to_string(),
        info: "hand-pulled".to_string(),
        phone: "12345678".to_string(),
        location: "Main St".to_string(),
        hashed_password: password.to_string(),
    }
}

#[test]
fn registration_stores_password_digest() {
    let stored = registration("passwd").with_hashed_password();
    assert_eq!(stored.name, "Noodle House");
    assert_eq!(stored.img, "img.png");
    assert_eq!(stored.info, "hand-pulled");
    assert_eq!(stored.phone, "12345678");
    assert_eq!(stored.location, "Main St");
    assert_eq!(stored.hashed_password, generate_md5("passwd"));
    assert_ne!(stored.hashed_password, "passwd");
}

#[test]
fn login_lookup_matches_registration() {
    let stored = registration("passwd").with_hashed_password();
    let creds = Credentials { phone: "12345678".to_string(), password: "passwd".to_string() };
    let (phone, hashed) = creds.lookup_key();
    assert_eq!(phone, stored.phone);
    assert_eq!(hashed, stored.hashed_password);
    let wrong = Credentials { phone: "12345678".to_string(), password: "other".to_string() };
    assert_ne!(wrong.lookup_key().1, stored.hashed_password);
}

#[test]
fn restaurant_session_identity() {
    let r = Restaurant {
        id: 9,
        name: "n".to_string(),
        img: "i".to_string(),
        info: "f".to_string(),
        phone: "555".to_string(),
        location: "l".to_string(),
        hashed_password: "h".to_string(),
    };
    assert_eq!(r.id(), 9);
    assert_eq!(r.session_auth_hash(), b"555");
}
