//! The settings, and what holds where one is left out.
use vstd::prelude::*;
use vstd::string::*;

verus! {

/// Where the monitor listens.
pub const MONITOR_ADDRESS: &'static str = "localhost:3000";

/// Where the server listens.
pub const SERVER_ADDRESS: &'static str = "0.0.0.0:3000";

/// Where the Steam store is asked.
pub const STORE_URL: &'static str = "https://store.steampowered.com";

/// A setting, or what holds where it is left out.
pub open spec fn setting(value: Option<String>, default: &str) -> Seq<char> {
    match value {
        Some(value) => value@,
        None => default@,
    }
}

fn setting_or(value: Option<String>, default: &str) -> (text: String)
    ensures
        text@ == setting(value, default),
{
    match value {
        Some(value) => value,
        None => default.to_owned(),
    }
}

/// Where the monitor listens: `LISTEN_ADDRESS`, or port 3000 of this machine.
pub fn monitor_address(listen_address: Option<String>) -> (address: String)
    ensures
        address@ == setting(listen_address, MONITOR_ADDRESS),
        listen_address matches Some(value) ==> address@ == value@,
        listen_address is None ==> address@ == "localhost:3000"@,
{
    setting_or(listen_address, MONITOR_ADDRESS)
}

/// Where the monitor asks for names: `STEAM_API_URL`, or the store itself.
pub fn store_url(steam_api_url: Option<String>) -> (url: String)
    ensures
        url@ == setting(steam_api_url, STORE_URL),
        steam_api_url matches Some(value) ==> url@ == value@,
        steam_api_url is None ==> url@ == "https://store.steampowered.com"@,
{
    setting_or(steam_api_url, STORE_URL)
}

/// Where the server listens: `ADDRESS`, or port 3000 of every interface.
pub fn server_address(address: Option<String>) -> (result: String)
    ensures
        result@ == setting(address, SERVER_ADDRESS),
        address matches Some(value) ==> result@ == value@,
        address is None ==> result@ == "0.0.0.0:3000"@,
{
    setting_or(address, SERVER_ADDRESS)
}

/// A setting that is given counts as it is, in full, and one that is left out is the default.
pub proof fn lemma_setting(value: String, default: &str)
    ensures
        setting(Some(value), default) == value@,
        setting(None, default) == default@,
{
}

} // verus!
