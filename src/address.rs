use vstd::prelude::*;
use vstd::string::{StrSliceExecFns, StringExecFns};

use crate::websocket::{opt_chars, Target};

verus! {

/// Whether a scheme asks for a secured connection: `Some(false)` for `ws`,
/// `Some(true)` for `wss`, and `None` for any other scheme.
pub open spec fn scheme_security(scheme: Seq<char>) -> Option<bool> {
    if scheme == seq!['w', 's'] {
        Some(false)
    } else if scheme == seq!['w', 's', 's'] {
        Some(true)
    } else {
        None
    }
}

/// The port used where an address names none.
pub open spec fn default_port(secure: bool) -> u16 {
    if secure {
        443
    } else {
        80
    }
}

/// The resource requested: the path, then `?` and the query if there is one.
pub open spec fn resource_of(path: Seq<char>, query: Option<Seq<char>>) -> Seq<char> {
    match query {
        Some(q) => path + seq!['?'] + q,
        None => path,
    }
}

fn security_of(scheme: &str) -> (r: Option<bool>)
    ensures
        r == scheme_security(scheme@),
{
    let n = scheme.unicode_len();
    if n < 2 || n > 3 {
        return None;
    }
    if scheme.get_char(0) != 'w' || scheme.get_char(1) != 's' {
        return None;
    }
    if n == 2 {
        assert(scheme@ =~= seq!['w', 's']);
        Some(false)
    } else if scheme.get_char(2) == 's' {
        assert(scheme@ =~= seq!['w', 's', 's']);
        Some(true)
    } else {
        assert(scheme@ != seq!['w', 's', 's']);
        None
    }
}

/// Builds the target of a connection from the parts of a parsed address.
/// The scheme must be `ws` or `wss`, a host must be present and a fragment
/// must not; a missing port is the scheme's default.
pub fn normalize_target(
    scheme: &str,
    host: Option<String>,
    port: Option<u16>,
    path: String,
    query: Option<String>,
    has_fragment: bool,
) -> (r: Option<Target>)
    ensures
        r is Some <==> (scheme_security(scheme@) is Some && host is Some && !has_fragment),
        r matches Some(t) ==> {
            &&& t.secure == scheme_security(scheme@)->0
            &&& t.host@ == host->0@
            &&& t.port == (if port is Some { port->0 } else { default_port(t.secure) })
            &&& t.resource@ == resource_of(path@, opt_chars(query))
        },
{
    let secure = match security_of(scheme) {
        Some(b) => b,
        None => {
            return None;
        },
    };
    if has_fragment {
        return None;
    }
    let host = match host {
        Some(h) => h,
        None => {
            return None;
        },
    };
    let port: u16 = match port {
        Some(p) => p,
        None => if secure {
            443
        } else {
            80
        },
    };
    let mut resource = path;
    if let Some(q) = query {
        proof {
            reveal_strlit("?");
        }
        resource.append("?");
        resource.append(q.as_str());
    }
    Some(Target { host, port, resource, secure })
}

} // verus!
