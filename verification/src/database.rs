//! The address of the service's database.

use vstd::prelude::*;

verus! {

/// The MySQL connection address `mysql://<username>:<password>@<host>/<database>`, when
/// all four parts are configured.
pub fn get_db_uri(username: Option<String>, password: Option<String>, host: Option<String>, db: Option<String>) -> (res: Option<String>)
    ensures
        match (username, password, host, db) {
            (Some(u), Some(p), Some(h), Some(d)) => res matches Some(s)
                && s@ == "mysql://"@ + u@ + ":"@ + p@ + "@"@ + h@ + "/"@ + d@,
            _ => res is None,
        },
{
    let u = match username { Some(u) => u, None => return None };
    let p = match password { Some(p) => p, None => return None };
    let h = match host { Some(h) => h, None => return None };
    let d = match db { Some(d) => d, None => return None };
    let s = String::from_str("mysql://").concat(u.as_str()).concat(":").concat(p.as_str())
        .concat("@").concat(h.as_str()).concat("/").concat(d.as_str());
    Some(s)
}

} // verus!
