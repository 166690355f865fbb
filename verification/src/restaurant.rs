use vstd::prelude::*;

verus! {

/// What a restaurant logs in with: its phone number and password.
#[derive(Debug, Clone, PartialEq, Eq)]
pub struct Credentials {
    pub phone: String,
    pub password: String,
}

/// A restaurant account as the database stores it; the password is kept as
/// its MD5 digest in lower-case hex.
#[derive(Debug, Clone, PartialEq, Eq)]
pub struct Restaurant {
    pub id: i32,
    pub name: String,
    pub img: String,
    pub info: String,
    pub phone: String,
    pub location: String,
    pub hashed_password: String,
}

/// The fields of a restaurant that registers.
#[derive(Debug, Clone, PartialEq, Eq)]
pub struct NewRestaurant {
    pub name: String,
    pub img: String,
    pub info: String,
    pub phone: String,
    pub location: String,
    pub hashed_password: String,
}

/// The MD5 digest (RFC 1321) of a byte sequence, as computed by the `md5` crate.
pub uninterp spec fn md5_digest(data: Seq<u8>) -> Seq<u8>;

/// Calls `md5::compute` and hands back the 16 bytes of the digest. Trusted:
/// the digest is the MD5 of exactly the bytes given; what MD5 computes is not
/// written out here.
#[verifier::external_body]
fn md5_compute(data: &[u8]) -> (digest: [u8; 16])
    ensures
        digest@ == md5_digest(data@),
{
    md5::compute(data).0
}

/// The lower-case hexadecimal digit of a value below 16.
pub open spec fn hex_digit(n: int) -> char {
    if n < 10 {
        (48 + n) as char
    } else {
        (87 + n) as char
    }
}

/// A byte as two lower-case hexadecimal digits, the high half first.
pub open spec fn byte_hex(b: u8) -> Seq<char> {
    seq![hex_digit(b as int / 16), hex_digit(b as int % 16)]
}

/// Bytes as lower-case hexadecimal, two digits for each byte, in order.
pub open spec fn lower_hex(bytes: Seq<u8>) -> Seq<char>
    decreases bytes.len(),
{
    if bytes.len() == 0 {
        Seq::empty()
    } else {
        lower_hex(bytes.drop_last()) + byte_hex(bytes.last())
    }
}

fn hex_digit_str(n: u8) -> (s: &'static str)
    requires
        n < 16,
    ensures
        s@ == seq![hex_digit(n as int)],
{
    let s = match n {
        0 => "0",
        1 => "1",
        2 => "2",
        3 => "3",
        4 => "4",
        5 => "5",
        6 => "6",
        7 => "7",
        8 => "8",
        9 => "9",
        10 => "a",
        11 => "b",
        12 => "c",
        13 => "d",
        14 => "e",
        _ => "f",
    };
    proof {
        reveal_strlit("0");
        reveal_strlit("1");
        reveal_strlit("2");
        reveal_strlit("3");
        reveal_strlit("4");
        reveal_strlit("5");
        reveal_strlit("6");
        reveal_strlit("7");
        reveal_strlit("8");
        reveal_strlit("9");
        reveal_strlit("a");
        reveal_strlit("b");
        reveal_strlit("c");
        reveal_strlit("d");
        reveal_strlit("e");
        reveal_strlit("f");
        assert(s@ =~= seq![hex_digit(n as int)]);
    }
    s
}

fn to_lower_hex(bytes: &[u8]) -> (res: String)
    ensures
        res@ == lower_hex(bytes@),
{
    let mut res = String::new();
    let mut i: usize = 0;
    while i < bytes.len()
        invariant
            i <= bytes@.len(),
            res@ == lower_hex(bytes@.take(i as int)),
        decreases bytes@.len() - i,
    {
        let b = bytes[i];
        res.append(hex_digit_str(b / 16));
        res.append(hex_digit_str(b % 16));
        proof {
            assert(bytes@.take(i + 1).drop_last() =~= bytes@.take(i as int));
            assert(res@ =~= lower_hex(bytes@.take(i + 1)));
        }
        i = i + 1;
    }
    assert(bytes@.take(i as int) =~= bytes@);
    res
}

/// The stored form of a password: the MD5 digest of its UTF-8 bytes as 32
/// lower-case hexadecimal digits.
pub open spec fn password_digest(password: Seq<char>) -> Seq<char> {
    lower_hex(md5_digest(vstd::utf8::encode_utf8(password)))
}

/// The MD5 digest of `data`'s UTF-8 bytes in lower-case hexadecimal.
pub fn generate_md5(data: &str) -> (res: String)
    ensures
        res@ == password_digest(data@),
        res@.len() == 32,
        decodes_to(res@, md5_digest(vstd::utf8::encode_utf8(data@))),
{
    let digest = md5_compute(data.as_bytes());
    let res = to_lower_hex(&digest);
    proof {
        lemma_lower_hex_len(digest@);
        lemma_lower_hex_decodes(digest@);
    }
    res
}

/// The value of a hexadecimal digit character: `0`..`9` are 0..9 and
/// `a`..`f` are 10..15.
pub open spec fn hex_value(c: char) -> int {
    if 48 <= c as int <= 57 {
        c as int - 48
    } else {
        c as int - 87
    }
}

/// Whether `c` is one of `0`..`9`, `a`..`f`.
pub open spec fn is_lower_hex_digit(c: char) -> bool {
    (48 <= c as int <= 57) || (97 <= c as int <= 102)
}

/// Whether `text` is the lower-case hexadecimal text of `bytes`: two digits
/// per byte, the high half first, so that decoding each pair gives the byte.
pub open spec fn decodes_to(text: Seq<char>, bytes: Seq<u8>) -> bool {
    &&& text.len() == 2 * bytes.len()
    &&& forall|i: int| 0 <= i < text.len() ==> is_lower_hex_digit(#[trigger] text[i])
    &&& forall|i: int|
        0 <= i < bytes.len() ==> 16 * hex_value(text[2 * i]) + hex_value(text[2 * i + 1])
            == #[trigger] bytes[i]
}

proof fn lemma_hex_digit_value(n: int)
    requires
        0 <= n < 16,
    ensures
        is_lower_hex_digit(hex_digit(n)),
        hex_value(hex_digit(n)) == n,
{
    if n < 10 {
        assert(((48 + n) as char) as int == 48 + n);
    } else {
        assert(((87 + n) as char) as int == 87 + n);
    }
}

/// Lower-case hexadecimal text decodes back to its bytes: every character is
/// a hexadecimal digit, and each pair of digits, high half first, is the
/// byte at that position.
pub proof fn lemma_lower_hex_decodes(bytes: Seq<u8>)
    ensures
        decodes_to(lower_hex(bytes), bytes),
    decreases bytes.len(),
{
    if bytes.len() > 0 {
        let init = bytes.drop_last();
        let b = bytes.last();
        lemma_lower_hex_decodes(init);
        lemma_hex_digit_value(b as int / 16);
        lemma_hex_digit_value(b as int % 16);
        let text = lower_hex(bytes);
        let head = lower_hex(init);
        assert(text == head + byte_hex(b));
        assert forall|i: int| 0 <= i < text.len() implies is_lower_hex_digit(#[trigger] text[i]) by {
            if i < head.len() {
                assert(text[i] == head[i]);
            }
        }
        assert forall|i: int|
            0 <= i < bytes.len() implies 16 * hex_value(text[2 * i]) + hex_value(text[2 * i + 1])
                == #[trigger] bytes[i] by {
            if i < init.len() {
                assert(text[2 * i] == head[2 * i]);
                assert(text[2 * i + 1] == head[2 * i + 1]);
                assert(bytes[i] == init[i]);
            } else {
                assert(text[2 * i] == hex_digit(b as int / 16));
                assert(text[2 * i + 1] == hex_digit(b as int % 16));
            }
        }
    }
}

/// Each byte gives two hexadecimal digits.
pub proof fn lemma_lower_hex_len(bytes: Seq<u8>)
    ensures
        lower_hex(bytes).len() == 2 * bytes.len(),
    decreases bytes.len(),
{
    if bytes.len() > 0 {
        lemma_lower_hex_len(bytes.drop_last());
    }
}

impl Restaurant {
    /// The identity under which a session remembers this restaurant: its row id.
    pub fn id(&self) -> (res: i32)
        ensures
            res == self.id,
    {
        self.id
    }

    /// The value whose change invalidates this restaurant's sessions: the
    /// bytes of its phone number.
    pub fn session_auth_hash(&self) -> (res: &[u8])
        ensures
            res@ == vstd::utf8::encode_utf8(self.phone@),
    {
        phone_auth_hash(&self.phone)
    }
}

/// The session check value of a restaurant with phone number `phone`: the
/// phone number's UTF-8 bytes.
pub fn phone_auth_hash(phone: &String) -> (res: &[u8])
    ensures
        res@ == vstd::utf8::encode_utf8(phone@),
{
    phone.as_str().as_bytes()
}

impl NewRestaurant {
    /// The registration as it is stored: every field as given, except that
    /// the password is replaced by its digest.
    pub fn with_hashed_password(self) -> (res: NewRestaurant)
        ensures
            res.name == self.name,
            res.img == self.img,
            res.info == self.info,
            res.phone == self.phone,
            res.location == self.location,
            res.hashed_password@ == password_digest(self.hashed_password@),
    {
        let hashed = generate_md5(self.hashed_password.as_str());
        NewRestaurant { hashed_password: hashed, ..self }
    }
}

impl Credentials {
    /// What a login looks the restaurant up by: the phone number as given
    /// and the digest of the password.
    pub fn lookup_key(&self) -> (res: (String, String))
        ensures
            res.0@ == self.phone@,
            res.1@ == password_digest(self.password@),
    {
        (self.phone.clone(), generate_md5(self.password.as_str()))
    }
}

/// A password given at registration is accepted again at login: the digest
/// that registration stores equals the digest that a login with the same
/// password looks for.
pub proof fn lemma_registered_password_logs_in(registration: NewRestaurant, creds: Credentials)
    requires
        registration.hashed_password@ == creds.password@,
    ensures
        password_digest(registration.hashed_password@) == password_digest(creds.password@),
{
}

} // verus!
