//! The session cookie: its header value, and its assembly from browser
//! cookie pairs.

use vstd::prelude::*;
use crate::text::str_eq;

verus! {

/// A session cookie header value, as sent with every request.
#[derive(Debug, Clone, PartialEq, Eq, Default)]
pub struct Cookie(pub String);

impl Cookie {
    /// Wraps a ready-made header value.
    pub fn new(cookie: &str) -> (r: Self)
        ensures
            r.0@ == cookie@,
    {
        Cookie(cookie.to_owned())
    }
}

/// The `name=value` pairs joined into one header value, `;`-separated, in
/// the order given.
pub open spec fn spec_cookie_header(pairs: Seq<(Seq<char>, Seq<char>)>) -> Seq<char>
    decreases pairs.len(),
{
    if pairs.len() == 0 {
        Seq::empty()
    } else if pairs.len() == 1 {
        pairs[0].0 + "="@ + pairs[0].1
    } else {
        spec_cookie_header(pairs.drop_last()) + ";"@ + pairs.last().0 + "="@ + pairs.last().1
    }
}

/// Whether a `sessionid` cookie is among the pairs.
pub open spec fn has_session_pair(pairs: Seq<(Seq<char>, Seq<char>)>) -> bool {
    exists|k: int| 0 <= k < pairs.len() && (#[trigger] pairs[k]).0 == "sessionid"@
}

impl Cookie {
    /// Assembles the header value from browser cookie pairs: succeeds
    /// exactly when a `sessionid` cookie is among them, and then joins all
    /// pairs, in order, as `name=value` separated by `;`.
    pub fn from_pairs(pairs: &Vec<(String, String)>) -> (r: Option<Cookie>)
        ensures
            r is Some <==> has_session_pair(pairs.deep_view()),
            r matches Some(c) ==> c.0@ == spec_cookie_header(pairs.deep_view()),
    {
        let ghost pv = pairs.deep_view();
        let n = pairs.len();
        let mut found = false;
        for i in 0..n
            invariant
                n == pairs@.len(),
                pv == pairs.deep_view(),
                found == exists|k: int| 0 <= k < i && (#[trigger] pv[k]).0 == "sessionid"@,
        {
            assert(pv[i as int] == pairs@[i as int].deep_view());
            if str_eq(pairs[i].0.as_str(), "sessionid") {
                found = true;
            }
        }
        if !found {
            return None;
        }
        let mut s = String::new();
        for i in 0..n
            invariant
                n == pairs@.len(),
                pv == pairs.deep_view(),
                s@ == spec_cookie_header(pv.take(i as int)),
        {
            proof {
                assert(pv.take(i + 1).drop_last() =~= pv.take(i as int));
                assert(pv.take(i + 1).last() == pv[i as int]);
                assert(pv[i as int] == pairs@[i as int].deep_view());
            }
            if i > 0 {
                s.append(";");
            }
            s.append(pairs[i].0.as_str());
            s.append("=");
            s.append(pairs[i].1.as_str());
            proof {
                if i == 0 {
                    assert(s@ =~= pv[0].0 + "="@ + pv[0].1);
                    assert(pv.take(1).len() == 1);
                    assert(pv.take(1)[0] == pv[0]);
                } else {
                    assert(s@ =~= spec_cookie_header(pv.take(i as int)) + ";"@ + pv[i as int].0
                        + "="@ + pv[i as int].1);
                }
            }
        }
        proof {
            assert(pv.take(n as int) =~= pv);
        }
        Some(Cookie(s))
    }
}

} // verus!
