//! Registering a subscriber with the free5GC web console: which subscriber
//! document is sent, under which IMSI, to which address, with which headers.

use vstd::prelude::*;
use crate::text::{decimal, decimal_string, concat2, concat3};
use crate::commands::owned;
use crate::rasa::{json_at, json_field, JsonField, JsonFound};

verus! {

/// The subscriber document for subscriber `num`: the third one gets the
/// rate-limited profile.
pub open spec fn subscriber_file_spec(num: u8) -> Seq<char> {
    if num == 3 {
        "./5g/subscriber-limit.json"@
    } else {
        "./5g/subscriber.json"@
    }
}

/// The path of the subscriber document for subscriber `num`.
pub fn subscriber_file(num: u8) -> (res: &'static str)
    ensures
        res@ == subscriber_file_spec(num),
        num == 3 ==> res@ == "./5g/subscriber-limit.json"@,
        num != 3 ==> res@ == "./5g/subscriber.json"@,
{
    if num == 3 {
        "./5g/subscriber-limit.json"
    } else {
        "./5g/subscriber.json"
    }
}

/// Law: subscriber 3, and no other, gets the rate-limited document; every
/// other subscriber gets the plain one, and the two are different files.
pub proof fn lemma_subscriber_file(num: u8)
    ensures
        num == 3 ==> subscriber_file_spec(num) == "./5g/subscriber-limit.json"@,
        num != 3 ==> subscriber_file_spec(num) == "./5g/subscriber.json"@,
        subscriber_file_spec(num) == subscriber_file_spec(3) <==> num == 3,
{
    reveal_strlit("./5g/subscriber-limit.json");
    reveal_strlit("./5g/subscriber.json");
    assert("./5g/subscriber-limit.json"@.len() != "./5g/subscriber.json"@.len());
}

/// Law: subscriber `num`'s IMSI is `imsi-20893000000000` followed by the
/// decimal numeral of `num`, so different subscribers get different IMSIs,
/// and its document is posted to `/api/subscriber/<imsi>/20893` of the web
/// console at `192.0.0.17:5000`.
pub proof fn lemma_subscriber_identity(num: u8, other: u8)
    ensures
        subscriber_imsi_spec(num) == "imsi-20893000000000"@ + decimal(num as nat),
        num != other ==> subscriber_imsi_spec(num) != subscriber_imsi_spec(other),
        subscriber_url_spec(num) == "http://192.0.0.17:5000/api/subscriber/"@ + subscriber_imsi_spec(num)
            + "/20893"@,
{
    reveal_strlit("/");
    reveal_strlit("20893");
    reveal_strlit("/20893");
    assert("/"@ + "20893"@ =~= "/20893"@);
    assert(subscriber_url_spec(num) =~= "http://192.0.0.17:5000/api/subscriber/"@ + subscriber_imsi_spec(num)
        + "/20893"@);
    if num != other && subscriber_imsi_spec(num) == subscriber_imsi_spec(other) {
        let p = "imsi-20893000000000"@;
        assert(subscriber_imsi_spec(num).skip(p.len() as int) =~= decimal(num as nat));
        assert(subscriber_imsi_spec(other).skip(p.len() as int) =~= decimal(other as nat));
        crate::text::lemma_decimal_injective(num as nat, other as nat);
    }
}

/// The IMSI of subscriber `num`: `imsi-20893000000000<num>`.
pub open spec fn subscriber_imsi_spec(num: u8) -> Seq<char> {
    "imsi-20893000000000"@ + decimal(num as nat)
}

/// Writes the IMSI of subscriber `num`; it also becomes the document's `ueID`.
pub fn subscriber_imsi(num: u8) -> (res: String)
    ensures
        res@ == subscriber_imsi_spec(num),
{
    let digits = decimal_string(num as u64);
    concat2("imsi-20893000000000", digits.as_str())
}

/// The address the document of subscriber `num` is posted to, under the
/// PLMN `20893`.
pub open spec fn subscriber_url_spec(num: u8) -> Seq<char> {
    "http://192.0.0.17:5000/api/subscriber/"@ + subscriber_imsi_spec(num) + "/"@ + "20893"@
}

/// Writes the address the document of subscriber `num` is posted to.
pub fn subscriber_url(num: u8) -> (res: String)
    ensures
        res@ == subscriber_url_spec(num),
{
    let imsi = subscriber_imsi(num);
    let mut url = concat3("http://192.0.0.17:5000/api/subscriber/", imsi.as_str(), "/");
    url.append("20893");
    url
}

/// The address of the web console's login.
pub fn login_url() -> (res: String)
    ensures
        res@ == "http://192.0.0.17:5000/api/login"@,
{
    owned("http://192.0.0.17:5000/api/login")
}

/// The login form: user `admin`, password `free5gc`.
pub fn login_form() -> (res: Vec<(String, String)>)
    ensures
        res.deep_view() == seq![("username"@, "admin"@), ("password"@, "free5gc"@)],
{
    let res = vec![(owned("username"), owned("admin")), (owned("password"), owned("free5gc"))];
    assert(res.deep_view() =~= seq![("username"@, "admin"@), ("password"@, "free5gc"@)]);
    res
}

/// The headers of the login request.
pub fn login_headers() -> (res: Vec<(String, String)>)
    ensures
        res.deep_view() == seq![
            ("Accept"@, "application/json"@),
            ("Accept-Enoding"@, "gzip, deflate"@),
            ("Content-Type"@, "application/json"@),
        ],
{
    let res = vec![
        (owned("Accept"), owned("application/json")),
        (owned("Accept-Enoding"), owned("gzip, deflate")),
        (owned("Content-Type"), owned("application/json")),
    ];
    assert(res.deep_view() =~= seq![
        ("Accept"@, "application/json"@),
        ("Accept-Enoding"@, "gzip, deflate"@),
        ("Content-Type"@, "application/json"@),
    ]);
    res
}

/// The headers of the subscriber request, carrying the login's access token.
pub fn subscriber_headers(token: &str) -> (res: Vec<(String, String)>)
    ensures
        res.deep_view() == seq![
            ("Accept"@, "application/json, text/plain, */*"@),
            ("Accept-Enoding"@, "gzip, deflate"@),
            ("Content-Type"@, "application/json"@),
            ("Token"@, token@),
        ],
{
    let res = vec![
        (owned("Accept"), owned("application/json, text/plain, */*")),
        (owned("Accept-Enoding"), owned("gzip, deflate")),
        (owned("Content-Type"), owned("application/json")),
        (owned("Token"), owned(token)),
    ];
    assert(res.deep_view() =~= seq![
        ("Accept"@, "application/json, text/plain, */*"@),
        ("Accept-Enoding"@, "gzip, deflate"@),
        ("Content-Type"@, "application/json"@),
        ("Token"@, token@),
    ]);
    res
}

/// The JSON pointer of the access token in the web console's login answer.
pub open spec fn access_token_pointer() -> Seq<char> {
    "/access_token"@
}

/// The access token of the web console's login answer, given its body. The
/// body must hold a string at `access_token` (elsewhere the subscriber
/// cannot be added, see `try_login_token`).
pub fn login_token(body: &[u8]) -> (res: String)
    requires
        json_field(body@, access_token_pointer()) is Text,
    ensures
        res@ == json_field(body@, access_token_pointer())->Text_0,
{
    match json_at(body, "/access_token") {
        JsonField::Text(token) => token,
        _ => owned(""),
    }
}

/// The access token of the login answer, or `None` when the body holds no
/// string at `access_token`.
pub fn try_login_token(body: &[u8]) -> (res: Option<String>)
    ensures
        match json_field(body@, access_token_pointer()) {
            JsonFound::Text(token) => res matches Some(t) && t@ == token,
            _ => res is None,
        },
{
    match json_at(body, "/access_token") {
        JsonField::Text(_) => Some(login_token(body)),
        _ => None,
    }
}

/// What `serde_json` writes for the document `body` once the string
/// `value` is put under `key` of its top object: `None` when `body` is not
/// JSON or its top value is neither an object nor `null`.
pub uninterp spec fn json_with_string(body: Seq<u8>, key: Seq<char>, value: Seq<char>) -> Option<Seq<u8>>;

/// Parses `body` with `serde_json::from_slice` into a `serde_json::Value`,
/// sets `key` of it to the string `value` with `Value`'s `IndexMut` (which
/// turns `null` into an object first, and panics on any other non-object,
/// so those give `None` here) and writes it back with `serde_json::to_vec`.
/// The outcome is named `json_with_string` of the arguments; nothing more
/// is stated of it.
#[verifier::external_body]
fn json_set_string(body: &[u8], key: &str, value: &str) -> (res: Option<Vec<u8>>)
    ensures
        res.deep_view() == json_with_string(body@, key@, value@),
{
    let mut doc: serde_json::Value = match serde_json::from_slice(body) {
        Ok(v) => v,
        Err(_) => return None,
    };
    match doc {
        serde_json::Value::Null | serde_json::Value::Object(_) => {},
        _ => return None,
    }
    doc[key] = serde_json::Value::String(value.to_string());
    serde_json::to_vec(&doc).ok()
}

/// The body of the request that adds subscriber `num`: the subscriber
/// file's JSON document with its `ueID` set to the subscriber's IMSI;
/// `None` when the file is not a JSON object, on which the subscriber
/// cannot be added.
pub fn subscriber_body(file: &[u8], num: u8) -> (res: Option<Vec<u8>>)
    ensures
        res.deep_view() == json_with_string(file@, "ueID"@, subscriber_imsi_spec(num)),
{
    let imsi = subscriber_imsi(num);
    json_set_string(file, "ueID", imsi.as_str())
}

} // verus!
