use vstd::prelude::*;
use crate::errors::ApiError;
use crate::text::{spec_join, spec_prefix_until, prefix_until, join_with};

verus! {

/// The opaque credential attached to every authenticated call: the
/// name=value parts of the login response's Set-Cookie headers, joined
/// with `;` in header-arrival order. Created once by a successful login
/// and read-only thereafter.
pub struct Session {
    pub credential: String,
}

/// The session credential derived from the Set-Cookie header values: each
/// header keeps only its part before the first `;` (discarding cookie
/// attributes), and the parts are joined with `;` in arrival order.
pub open spec fn spec_credential(headers: Seq<Seq<char>>) -> Seq<char> {
    spec_join(headers.map_values(|h: Seq<char>| spec_prefix_until(h, ';')), seq![';'])
}

/// Builds the session credential from the raw Set-Cookie header values.
pub fn cookie_credential(headers: &Vec<String>) -> (r: String)
    ensures
        r@ == spec_credential(headers@.map_values(|h: String| h@)),
{
    let ghost hs = headers@.map_values(|h: String| h@);
    let mut pairs: Vec<String> = Vec::new();
    let mut i: usize = 0;
    while i < headers.len()
        invariant
            i <= headers.len(),
            hs == headers@.map_values(|h: String| h@),
            pairs@.len() == i,
            forall|k: int| 0 <= k < i ==> (#[trigger] pairs@[k])@ == spec_prefix_until(hs[k], ';'),
        decreases headers.len() - i,
    {
        let part = prefix_until(headers[i].as_str(), ';');
        pairs.push(part);
        i += 1;
    }
    let r = join_with(&pairs, ";");
    proof {
        reveal_strlit(";");
        assert(";"@ =~= seq![';']);
        assert(pairs@.map_values(|p: String| p@) =~= hs.map_values(
            |h: Seq<char>| spec_prefix_until(h, ';'),
        ));
    }
    r
}

/// Whether the login exchange counts as a success: the criterion is
/// conjunctive, HTTP status 200 and application code 1; violating either
/// alone fails.
pub open spec fn login_succeeds(status: u16, code: Option<i64>) -> bool {
    status == 200 && code == Some(1i64)
}

/// Decides the outcome of the login exchange from its HTTP status, its
/// Set-Cookie header values and the `code`/`msg` pair of its JSON body
/// (`code` is `None` when the body lacked the field).
///
/// On success the session credential is composed from the cookies. An HTTP
/// status other than 200 is an authentication failure carrying the status;
/// an application code other than 1 is one carrying the server's message.
pub fn login_outcome(
    status: u16,
    cookie_headers: &Vec<String>,
    code: Option<i64>,
    msg: &String,
) -> (r: Result<Session, ApiError>)
    ensures
        r is Ok <==> login_succeeds(status, code),
        r matches Ok(s) ==> s.credential@ == spec_credential(
            cookie_headers@.map_values(|h: String| h@),
        ),
        status != 200 ==> (r matches Err(e) && e matches ApiError::Auth { status: st, msg: m }
            && st == status && m@ == Seq::<char>::empty()),
        status == 200 && code != Some(1i64) ==> (r matches Err(e) && e matches ApiError::Auth {
            status: st,
            msg: m,
        } && st == status && m@ == msg@),
{
    if status != 200 {
        return Err(ApiError::Auth { status, msg: String::new() });
    }
    let is_success = match code {
        Some(c) => c == 1,
        None => false,
    };
    if !is_success {
        return Err(ApiError::Auth { status, msg: msg.clone() });
    }
    let credential = cookie_credential(cookie_headers);
    Ok(Session { credential })
}

} // verus!
