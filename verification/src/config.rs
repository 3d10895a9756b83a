//! The configuration the surrounding program hands the library: the server
//! address, the cookie domain, and the display settings. Reading and
//! writing the configuration file is the caller's business; the library
//! only holds the values and their defaults.

use vstd::prelude::*;
use crate::cookie::Cookie;

verus! {

/// The program's configuration: the server's base address, the domain the
/// session cookie belongs to, and the timetable and colour settings as
/// `(key, value)` pairs in file order.
pub struct AppConfig {
    pub base_url: String,
    pub cookie_domain: String,
    pub timetable: Vec<(String, String)>,
    pub color: Vec<(String, String)>,
}

impl Default for AppConfig {
    fn default() -> (r: Self)
        ensures
            r.base_url@ == "https://ct.ritsumei.ac.jp/ct/"@,
            r.cookie_domain@ == "ct.ritsumei.ac.jp"@,
            r.timetable@.len() == 0,
            r.color@.len() == 0,
    {
        AppConfig {
            base_url: "https://ct.ritsumei.ac.jp/ct/".to_owned(),
            cookie_domain: "ct.ritsumei.ac.jp".to_owned(),
            timetable: Vec::new(),
            color: Vec::new(),
        }
    }
}

/// The stored session settings: as `AppConfig`, plus the session cookie
/// itself and the timetable as one text.
pub struct Config {
    pub base_url: String,
    pub cookie_domain: String,
    pub cookie: Cookie,
    pub timetable: String,
}

impl Default for Config {
    fn default() -> (r: Self)
        ensures
            r.base_url@ == "https://ct.ritsumei.ac.jp/ct/"@,
            r.cookie_domain@ == "ct.ritsumei.ac.jp"@,
            r.cookie.0@.len() == 0,
            r.timetable@.len() == 0,
    {
        Config {
            base_url: "https://ct.ritsumei.ac.jp/ct/".to_owned(),
            cookie_domain: "ct.ritsumei.ac.jp".to_owned(),
            cookie: Cookie(String::new()),
            timetable: String::new(),
        }
    }
}

} // verus!
