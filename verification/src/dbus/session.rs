use vstd::prelude::*;

verus! {

/// The object path of a screen-cast session: the well-known session prefix,
/// the bus connection's sanitized identity, and the session token. The
/// client computes this path itself and holds the portal's answer to it.
pub fn session_handle_path(sender_identity: &str, token: &str) -> (r: String)
    ensures
        r@ == "/org/freedesktop/portal/desktop/session/"@ + sender_identity@ + "/"@ + token@,
{
    let mut s = String::from_str("/org/freedesktop/portal/desktop/session/");
    s.append(sender_identity);
    s.append("/");
    s.append(token);
    s
}

} // verus!
