use vstd::prelude::*;
use vstd::string::StrSliceExecFns;
use vstd::utf8::encode_utf8;

use crate::error::Error;

verus! {

/// The largest close reason, in bytes of its UTF-8 encoding.
pub const MAX_REASON_BYTES: usize = 123;

/// A character that may stand in a subprotocol token: printable ASCII, `!` through `~`.
pub open spec fn token_char(c: char) -> bool {
    0x21 <= (c as u32) && (c as u32) <= 0x7E
}

/// A subprotocol name is non-empty and made of token characters only.
pub open spec fn protocol_well_formed(p: Seq<char>) -> bool {
    &&& p.len() > 0
    &&& forall|k: int| 0 <= k < p.len() ==> token_char(#[trigger] p[k])
}

/// No name occurs twice (compared exactly, case included).
pub open spec fn no_duplicates(ps: Seq<Seq<char>>) -> bool {
    forall|i: int, j: int| 0 <= i < j < ps.len() ==> #[trigger] ps[i] != #[trigger] ps[j]
}

/// A list of subprotocols that a connection may request.
pub open spec fn subprotocols_valid(ps: Seq<Seq<char>>) -> bool {
    &&& forall|i: int| 0 <= i < ps.len() ==> protocol_well_formed(#[trigger] ps[i])
    &&& no_duplicates(ps)
}

/// The character sequences of a list of strings.
pub open spec fn names_of(v: Seq<String>) -> Seq<Seq<char>> {
    v.map_values(|s: String| s@)
}

/// The close codes that a script may send: 1000, or one of 3000 through 4999.
pub open spec fn close_code_allowed(code: u16) -> bool {
    code == 1000 || (3000 <= code && code <= 4999)
}

/// The length of a string in bytes of its UTF-8 encoding.
pub open spec fn utf8_len(s: Seq<char>) -> nat {
    encode_utf8(s).len()
}

/// A close reason fits in a close frame.
pub open spec fn close_reason_allowed(reason: Seq<char>) -> bool {
    utf8_len(reason) <= MAX_REASON_BYTES
}

fn is_token(p: &str) -> (r: bool)
    ensures
        r == protocol_well_formed(p@),
{
    let n = p.unicode_len();
    if n == 0 {
        return false;
    }
    let mut k: usize = 0;
    while k < n
        invariant
            n == p@.len(),
            0 <= k <= n,
            forall|m: int| 0 <= m < k ==> token_char(#[trigger] p@[m]),
        decreases n - k,
    {
        let c = p.get_char(k);
        if (c as u32) < 0x21 || (c as u32) > 0x7E {
            return false;
        }
        k = k + 1;
    }
    true
}

fn occurs_after(protocols: &Vec<String>, i: usize) -> (r: bool)
    requires
        i < protocols@.len(),
    ensures
        r == exists|j: int| i < j < protocols@.len() && protocols@[j]@ == protocols@[i as int]@,
{
    let n = protocols.len();
    let mut j: usize = i + 1;
    while j < n
        invariant
            n == protocols@.len(),
            i < j <= n,
            forall|m: int| i < m < j ==> (#[trigger] protocols@[m])@ != protocols@[i as int]@,
        decreases protocols@.len() - j,
    {
        if protocols[j] == protocols[i] {
            return true;
        }
        j = j + 1;
    }
    false
}

/// Checks the subprotocols that a connection request names: each must be a
/// non-empty token of printable ASCII, and none may occur twice.
pub fn validate_subprotocols(protocols: &Vec<String>) -> (r: Result<(), Error>)
    ensures
        r == (if subprotocols_valid(names_of(protocols@)) {
            Ok(())
        } else {
            Err(Error::Syntax)
        }),
{
    let ghost ps = names_of(protocols@);
    let mut i: usize = 0;
    while i < protocols.len()
        invariant
            ps == names_of(protocols@),
            0 <= i <= protocols@.len(),
            forall|m: int| 0 <= m < i ==> protocol_well_formed(#[trigger] ps[m]),
            forall|m: int, j: int| 0 <= m < i && m < j < ps.len() ==> #[trigger] ps[m] != #[trigger] ps[j],
        decreases protocols@.len() - i,
    {
        assert(ps[i as int] == protocols@[i as int]@);
        if !is_token(protocols[i].as_str()) {
            assert(!protocol_well_formed(ps[i as int]));
            return Err(Error::Syntax);
        }
        if occurs_after(protocols, i) {
            let ghost j = choose|j: int| i < j < protocols@.len() && protocols@[j]@ == protocols@[i as int]@;
            assert(ps[j] == ps[i as int]);
            assert(!no_duplicates(ps));
            return Err(Error::Syntax);
        }
        assert forall|j: int| i < j < ps.len() implies ps[i as int] != ps[j] by {
            assert(ps[j] == protocols@[j]@);
        }
        i = i + 1;
    }
    Ok(())
}

/// Checks a close code before a close handshake starts.
pub fn validate_close_code(code: u16) -> (r: Result<(), Error>)
    ensures
        r == (if close_code_allowed(code) {
            Ok(())
        } else {
            Err(Error::InvalidAccess)
        }),
{
    if code == 1000 || (3000 <= code && code <= 4999) {
        Ok(())
    } else {
        Err(Error::InvalidAccess)
    }
}

/// Checks that a close reason is at most 123 bytes long in UTF-8.
pub fn validate_close_reason(reason: &str) -> (r: Result<(), Error>)
    ensures
        r == (if close_reason_allowed(reason@) {
            Ok(())
        } else {
            Err(Error::Syntax)
        }),
{
    if reason.as_bytes().len() <= MAX_REASON_BYTES {
        Ok(())
    } else {
        Err(Error::Syntax)
    }
}

/// A list that holds an empty name is refused.
pub proof fn lemma_empty_protocol_refused(ps: Seq<Seq<char>>, i: int)
    requires
        0 <= i < ps.len(),
        ps[i].len() == 0,
    ensures
        !subprotocols_valid(ps),
{
}

/// A list in which one name occurs twice, exactly as written, is refused.
pub proof fn lemma_duplicate_protocol_refused(ps: Seq<Seq<char>>, i: int, j: int)
    requires
        0 <= i < ps.len(),
        0 <= j < ps.len(),
        i != j,
        ps[i] == ps[j],
    ensures
        !subprotocols_valid(ps),
{
    assert(!no_duplicates(ps));
}

} // verus!
