//! The Steam store: where a game's name is asked for, and how the reply is read.
use vstd::prelude::*;
use vstd::string::*;

use crate::protocol;
use crate::text;

verus! {

/// The store's entry for one application, as far as it is read.
#[derive(Debug, Clone)]
pub struct StoreResponse {
    pub success: bool,
    pub data: Option<StoreData>,
}

/// What the store says of an application.
#[derive(Debug, Clone)]
pub struct StoreData {
    pub name: String,
}

/// The longest text, in characters, that is taken for the start of an address. Escaping makes at most
/// twelve bytes of a character, so that the address stays under four gigabytes, also with the pairs
/// of a query behind it.
pub const LONGEST_URL: usize = 268_435_456;

/// The most pairs that are appended to a query.
pub const MOST_PAIRS: usize = 16;

/// The longest name or value of a pair, in characters, that is appended to a query.
pub const LONGEST_PART: usize = 1024;

/// Whether the pairs of a query are few and short.
pub open spec fn short_query(params: Seq<(String, String)>) -> bool {
    &&& params.len() <= MOST_PAIRS
    &&& forall|i: int|
        0 <= i < params.len() ==> (#[trigger] params[i]).0@.len() <= LONGEST_PART
            && params[i].1@.len() <= LONGEST_PART
}

/// The names and values of a query, as texts.
pub open spec fn query_pairs(params: Seq<(String, String)>) -> Seq<(Seq<char>, Seq<char>)> {
    params.map_values(|pair: (String, String)| (pair.0@, pair.1@))
}

/// The address that `reqwest::Url::parse_with_params` makes of a text and the pairs of a query,
/// or `None` where it refuses the text.
pub uninterp spec fn url_with_query(
    url: Seq<char>,
    params: Seq<(Seq<char>, Seq<char>)>,
) -> Option<Seq<char>>;

/// `reqwest::Url::parse_with_params`, which is `url::Url::parse_with_params`: it parses the text
/// as an absolute address and appends the pairs to its query, form-encoded and in order. Whether
/// it succeeds, and the address it makes, depend on the text and the pairs alone. It panics where
/// the address grows to four gigabytes, by the text or by the pairs; the bounds on both keep away
/// from that.
#[verifier::external_body]
fn parse_with_params(url: &str, params: &Vec<(String, String)>) -> (address: Option<String>)
    requires
        url@.len() <= LONGEST_URL,
        short_query(params@),
    ensures
        protocol::text_in(address) == url_with_query(url@, query_pairs(params@)),
{
    match reqwest::Url::parse_with_params(url, params) {
        Ok(address) => Some(address.to_string()),
        Err(_) => None,
    }
}

/// `serde_json::Value`, any JSON value. What it holds is known by `members` alone.
#[verifier::external_type_specification]
#[verifier::external_body]
pub struct ExValue(serde_json::Value);

/// The members of a JSON object, by their keys, each written as compact JSON text; none where the
/// value is no object.
pub uninterp spec fn members(value: serde_json::Value) -> Map<Seq<char>, Seq<char>>;

/// The members of the value that `serde_json::from_slice` reads from a document, or `None` where
/// the document is no JSON.
pub uninterp spec fn document_members(document: Seq<u8>) -> Option<Map<Seq<char>, Seq<char>>>;

/// `serde_json::from_slice` into a `serde_json::Value`: it reads the whole document as one JSON
/// value. Whether it succeeds, and the value, depend on the document alone.
#[verifier::external_body]
fn parse_document(document: &[u8]) -> (value: Option<serde_json::Value>)
    ensures
        match value {
            Some(value) => document_members(document@) == Some(members(value)),
            None => document_members(document@) is None,
        },
{
    match serde_json::from_slice::<serde_json::Value>(document) {
        Ok(value) => Some(value),
        Err(_) => None,
    }
}

/// `serde_json::Value::get` with a string: the member of an object under that key, or `None`
/// where there is no such member or the value is no object. The member is handed out as the JSON
/// text that its `to_string` writes.
#[verifier::external_body]
fn member(value: &serde_json::Value, key: &str) -> (text: Option<String>)
    ensures
        match text {
            Some(text) => members(*value).contains_key(key@) && text@ == members(*value)[key@],
            None => !members(*value).contains_key(key@),
        },
{
    match value.get(key) {
        Some(member) => Some(member.to_string()),
        None => None,
    }
}

/// The address under which the store describes an application.
pub open spec fn appdetails(base_url: Seq<char>, app_id: u32) -> Option<Seq<char>> {
    url_with_query(
        base_url + "/api/appdetails"@,
        seq![
            ("appids"@, text::decimal(app_id as nat)),
            ("l"@, "schinese"@),
        ],
    )
}

/// The address under which the store at `base_url` describes an application, in simplified
/// Chinese, or `None` where `base_url` is not the start of an address.
pub fn appdetails_url(base_url: &str, app_id: u32) -> (address: Option<String>)
    requires
        base_url@.len() + 15 <= LONGEST_URL,
    ensures
        protocol::text_in(address) == appdetails(base_url@, app_id),
        ({
            let asked = url_with_query(
                base_url@ + "/api/appdetails"@,
                seq![("appids"@, text::decimal(app_id as nat)), ("l"@, "schinese"@)],
            );
            match address {
                Some(address) => asked == Some(address@),
                None => asked is None,
            }
        }),
{
    proof {
        reveal_strlit("/api/appdetails");
        reveal_strlit("appids");
        reveal_strlit("l");
        reveal_strlit("schinese");
        text::lemma_decimal_short(app_id);
    }
    let mut url = base_url.to_owned();
    url.append("/api/appdetails");
    let mut params: Vec<(String, String)> = Vec::new();
    params.push(("appids".to_owned(), text::decimal_text(app_id as u64)));
    params.push(("l".to_owned(), "schinese".to_owned()));
    assert(query_pairs(params@) =~= seq![
        ("appids"@, text::decimal(app_id as nat)),
        ("l"@, "schinese"@),
    ]);
    parse_with_params(url.as_str(), &params)
}

/// The entry of an application in the store's reply, as JSON text.
pub open spec fn entry_in(body: Seq<u8>, app_id: u32) -> Option<Seq<char>> {
    match document_members(body) {
        Some(members) => if members.contains_key(text::decimal(app_id as nat)) {
            Some(members[text::decimal(app_id as nat)])
        } else {
            None
        },
        None => None,
    }
}

/// The entry of an application in the store's reply, as JSON text: the member under its id. None
/// where the reply is no JSON object or has no such member.
pub fn app_entry(body: &[u8], app_id: u32) -> (entry: Option<String>)
    ensures
        protocol::text_in(entry) == entry_in(body@, app_id),
        entry is Some <==> document_members(body@) is Some && document_members(
            body@,
        )->0.contains_key(text::decimal(app_id as nat)),
        entry matches Some(entry) ==> entry@ == document_members(body@)->0[text::decimal(
            app_id as nat,
        )],
{
    match parse_document(body) {
        Some(value) => member(&value, text::decimal_text(app_id as u64).as_str()),
        None => None,
    }
}

/// The name that an entry gives: there is an entry, it says that it succeeded, and it has data.
pub open spec fn name_in(entry: Option<StoreResponse>) -> Option<Seq<char>> {
    match entry {
        Some(entry) => if entry.success && entry.data is Some {
            Some(entry.data->0.name@)
        } else {
            None
        },
        None => None,
    }
}

/// The name that an entry gives, where it gives one.
pub fn entry_name(entry: Option<StoreResponse>) -> (name: Option<String>)
    ensures
        protocol::text_in(name) == name_in(entry),
        name is Some <==> entry is Some && entry->0.success && entry->0.data is Some,
        name matches Some(name) ==> name@ == entry->0.data->0.name@,
{
    match entry {
        Some(entry) => if entry.success {
            match entry.data {
                Some(data) => Some(data.name),
                None => None,
            }
        } else {
            None
        },
        None => None,
    }
}

/// The name shown of a game whose name could not be found out.
pub open spec fn unknown_game(app_id: u32) -> Seq<char> {
    "未知游戏 ("@ + text::decimal(app_id as nat) + ")"@
}

/// The name shown of a game while the store cannot be reached.
pub open spec fn network_error(app_id: u32) -> Seq<char> {
    "网络错误 ("@ + text::decimal(app_id as nat) + ")"@
}

/// The name to show of a game whose name could not be found out.
pub fn unknown_game_text(app_id: u32) -> (name: String)
    ensures
        name@ == unknown_game(app_id),
        name@ == "未知游戏 ("@ + text::decimal(app_id as nat) + ")"@,
{
    let mut name = "未知游戏 (".to_owned();
    text::append_decimal(&mut name, app_id as u64);
    name.append(")");
    name
}

/// The name to show of a game while the store cannot be reached.
pub fn network_error_text(app_id: u32) -> (name: String)
    ensures
        name@ == network_error(app_id),
        name@ == "网络错误 ("@ + text::decimal(app_id as nat) + ")"@,
{
    let mut name = "网络错误 (".to_owned();
    text::append_decimal(&mut name, app_id as u64);
    name.append(")");
    name
}

/// The pairs of a query, as texts, are as many as there are, in order, each in full.
pub proof fn lemma_query_pairs(params: Seq<(String, String)>, i: int)
    requires
        0 <= i < params.len(),
    ensures
        query_pairs(params).len() == params.len(),
        query_pairs(params)[i].0 == params[i].0@,
        query_pairs(params)[i].1 == params[i].1@,
{
}

/// The store is asked, below its own address, for just one application, by its id in decimal, and
/// for simplified Chinese.
pub proof fn lemma_store_is_asked_for_id(base_url: Seq<char>, app_id: u32)
    ensures
        appdetails(base_url, app_id) == url_with_query(
            base_url + "/api/appdetails"@,
            seq![("appids"@, text::decimal(app_id as nat)), ("l"@, "schinese"@)],
        ),
{
}

/// The entry that is read from a reply is the member under the id that was asked for, in full, and
/// no other.
pub proof fn lemma_entry_is_under_id(body: Seq<u8>, app_id: u32)
    ensures
        entry_in(body, app_id) is Some <==> document_members(body) is Some && document_members(
            body,
        )->0.contains_key(text::decimal(app_id as nat)),
        entry_in(body, app_id) is Some ==> entry_in(body, app_id)->0 == document_members(
            body,
        )->0[text::decimal(app_id as nat)],
{
}

/// The name that an entry gives is the one in its data, in full; an entry that did not succeed or
/// has no data gives none, and neither does no entry.
pub proof fn lemma_name_is_given_in_full(entry: StoreResponse)
    ensures
        entry.success && entry.data is Some ==> name_in(Some(entry)) == Some(entry.data->0.name@),
        !entry.success || entry.data is None ==> name_in(Some(entry)) is None,
        name_in(None) is None,
{
}

/// What is shown in place of a name tells the applications apart, and tells a game that is not known
/// from a store that cannot be reached.
pub proof fn lemma_stand_ins_name_application(a: u32, b: u32)
    ensures
        unknown_game(a) == "未知游戏 ("@ + text::decimal(a as nat) + ")"@,
        network_error(a) == "网络错误 ("@ + text::decimal(a as nat) + ")"@,
        unknown_game(a) == unknown_game(b) ==> a == b,
        network_error(a) == network_error(b) ==> a == b,
        unknown_game(a) != network_error(b),
{
    reveal_strlit("未知游戏 (");
    reveal_strlit("网络错误 (");
    reveal_strlit(")");
    let n = "未知游戏 ("@.len() as int;
    assert("网络错误 ("@.len() == n);
    assert(unknown_game(a).subrange(n, unknown_game(a).len() - 1) =~= text::decimal(a as nat));
    assert(unknown_game(b).subrange(n, unknown_game(b).len() - 1) =~= text::decimal(b as nat));
    assert(network_error(a).subrange(n, network_error(a).len() - 1) =~= text::decimal(a as nat));
    assert(network_error(b).subrange(n, network_error(b).len() - 1) =~= text::decimal(b as nat));
    if text::decimal(a as nat) == text::decimal(b as nat) {
        text::lemma_decimal_injective(a as nat, b as nat);
    }
    assert(unknown_game(a)[0] == "未知游戏 ("@[0]);
    assert(network_error(b)[0] == "网络错误 ("@[0]);
}

} // verus!
