use vstd::prelude::*;

verus! {

/// The tri-state code of a portal response notification. On the wire it is
/// the unsigned values 0, 1 and 2, in this order.
#[derive(Debug, PartialEq, Eq, Clone, Copy, Structural)]
pub enum ResponseCode {
    Success,
    Cancelled,
    Failed,
}

impl ResponseCode {
    pub fn is_success(&self) -> (r: bool)
        ensures
            r == (*self == ResponseCode::Success),
    {
        *self == ResponseCode::Success
    }

    /// The wire value of the code.
    pub fn code(&self) -> (r: u32)
        ensures
            r == (match *self {
                ResponseCode::Success => 0u32,
                ResponseCode::Cancelled => 1u32,
                ResponseCode::Failed => 2u32,
            }),
    {
        match self {
            ResponseCode::Success => 0,
            ResponseCode::Cancelled => 1,
            ResponseCode::Failed => 2,
        }
    }

    /// The code a wire value stands for, if any.
    pub fn from_code(v: u32) -> (r: Option<ResponseCode>)
        ensures
            r == (match v {
                0u32 => Some(ResponseCode::Success),
                1u32 => Some(ResponseCode::Cancelled),
                2u32 => Some(ResponseCode::Failed),
                _ => None::<ResponseCode>,
            }),
    {
        match v {
            0 => Some(ResponseCode::Success),
            1 => Some(ResponseCode::Cancelled),
            2 => Some(ResponseCode::Failed),
            _ => None,
        }
    }

    /// The code's wire value and name, as shown in logs.
    pub fn describe(&self) -> (r: String)
        ensures
            *self == ResponseCode::Success ==> r@ == "0 Success"@,
            *self == ResponseCode::Cancelled ==> r@ == "1 Cancelled"@,
            *self == ResponseCode::Failed ==> r@ == "2 Failed"@,
    {
        match self {
            ResponseCode::Success => String::from_str("0 Success"),
            ResponseCode::Cancelled => String::from_str("1 Cancelled"),
            ResponseCode::Failed => String::from_str("2 Failed"),
        }
    }
}

/// One value of a response dictionary, reduced to the plain shapes the
/// protocol reads: strings, object paths, unsigned integers, pairs of
/// signed integers (positions and sizes), and the started-stream list.
#[derive(Debug, PartialEq, Eq)]
pub enum ResponseValue {
    Str(String),
    ObjectPath(String),
    U32(u32),
    IntPair(i32, i32),
    Streams(Vec<RawStream>),
}

/// One started stream as the portal reports it: the transport node id and
/// the stream's own property dictionary.
#[derive(Debug, PartialEq, Eq)]
pub struct RawStream {
    pub node_id: u32,
    pub properties: ResponseMap,
}

/// A response dictionary as an association list; a real response carries
/// each key at most once, and a lookup takes the first match.
#[derive(Debug, PartialEq, Eq)]
pub struct ResponseMap {
    pub entries: Vec<(String, ResponseValue)>,
}

/// First-match lookup in an association list, from index `i` on.
pub open spec fn spec_lookup_from(
    entries: Seq<(String, ResponseValue)>,
    i: int,
    key: Seq<char>,
) -> Option<ResponseValue>
    decreases entries.len() - i,
{
    if i < 0 || i >= entries.len() {
        None
    } else if entries[i].0@ == key {
        Some(entries[i].1)
    } else {
        spec_lookup_from(entries, i + 1, key)
    }
}

/// First-match lookup in an association list.
pub open spec fn spec_lookup(entries: Seq<(String, ResponseValue)>, key: Seq<char>) -> Option<
    ResponseValue,
> {
    spec_lookup_from(entries, 0, key)
}

impl ResponseMap {
    /// An empty dictionary.
    pub fn new() -> (r: ResponseMap)
        ensures
            r.entries@.len() == 0,
    {
        ResponseMap { entries: Vec::new() }
    }

    /// The value under `key`, if the dictionary has it.
    pub fn get(&self, key: &String) -> (r: Option<&ResponseValue>)
        ensures
            match r {
                Some(v) => spec_lookup(self.entries@, key@) == Some(*v),
                None => spec_lookup(self.entries@, key@) is None,
            },
    {
        let n: usize = self.entries.len();
        let mut i: usize = 0;
        while i < n
            invariant
                n == self.entries@.len(),
                i <= n,
                spec_lookup(self.entries@, key@) == spec_lookup_from(self.entries@, i as int, key@),
            decreases n - i,
        {
            if self.entries[i].0 == *key {
                return Some(&self.entries[i].1);
            }
            i = i + 1;
        }
        None
    }
}

/// A correlated response: the tri-state code plus the call's decoded
/// results.
#[derive(Debug)]
pub struct Responses<T> {
    pub code: ResponseCode,
    pub results: T,
}

impl<T> Responses<T> {
    pub fn new(code: ResponseCode, results: T) -> (r: Responses<T>)
        ensures
            r.code == code,
            r.results == results,
    {
        Responses { code, results }
    }

    pub fn is_success(&self) -> (r: bool)
        ensures
            r == (self.code == ResponseCode::Success),
    {
        self.code.is_success()
    }

    pub fn results(&self) -> (r: &T)
        ensures
            *r == self.results,
    {
        &self.results
    }

    pub fn results_mut(&mut self) -> (r: &mut T)
        ensures
            *r == old(self).results,
            final(self).code == old(self).code,
            final(self).results == *final(r),
    {
        &mut self.results
    }
}

/// The response notification's payload, as the bus delivers it.
#[derive(Debug)]
pub struct ResponseArgs {
    pub code: ResponseCode,
    pub results: ResponseMap,
}

impl ResponseArgs {
    pub fn is_success(&self) -> (r: bool)
        ensures
            r == (self.code == ResponseCode::Success),
    {
        self.code.is_success()
    }
}

/// The object path on which the response notification for one outstanding
/// request arrives: the well-known request prefix, the bus connection's
/// sanitized identity, and the request token.
pub fn request_handle_path(sender_identity: &str, token: &str) -> (r: String)
    ensures
        r@ == "/org/freedesktop/portal/desktop/request/"@ + sender_identity@ + "/"@ + token@,
{
    let mut s = String::from_str("/org/freedesktop/portal/desktop/request/");
    s.append(sender_identity);
    s.append("/");
    s.append(token);
    s
}

/// A unique bus name with its leading colons removed.
pub open spec fn spec_strip_colons(s: Seq<char>) -> Seq<char>
    decreases s.len(),
{
    if s.len() > 0 && s[0] == ':' {
        spec_strip_colons(s.drop_first())
    } else {
        s
    }
}

/// Every dot replaced by an underscore.
pub open spec fn spec_replace_dots(s: Seq<char>) -> Seq<char> {
    Seq::new(
        s.len(),
        |i: int|
            if s[i] == '.' {
                '_'
            } else {
                s[i]
            },
    )
}

/// The sanitized sender identity of a unique bus name: leading colons
/// removed and every dot replaced by an underscore.
pub open spec fn spec_sanitized(s: Seq<char>) -> Seq<char> {
    spec_replace_dots(spec_strip_colons(s))
}

/// Relies on str::chars: the characters of the string, in order.
#[verifier::external_body]
fn str_to_chars(s: &str) -> (r: Vec<char>)
    ensures
        r@ == s@,
{
    s.chars().collect()
}

/// Relies on String::from_iter over characters: the string of exactly these
/// characters, in order.
#[verifier::external_body]
fn chars_to_string(v: &Vec<char>) -> (r: String)
    ensures
        r@ == v@,
{
    v.iter().collect()
}

/// The sender identity under which the portal exposes request and session
/// objects for a connection: the unique bus name without its leading colons
/// and with every dot replaced by an underscore.
pub fn sanitize_sender_identity(unique_name: &str) -> (r: String)
    ensures
        r@ == spec_sanitized(unique_name@),
{
    let chars: Vec<char> = str_to_chars(unique_name);
    let ghost full = unique_name@;
    let n: usize = chars.len();
    let mut j: usize = 0;
    proof {
        assert(full.skip(0) =~= full);
    }
    while j < n && chars[j] == ':'
        invariant
            chars@ == full,
            n == full.len(),
            j <= n,
            spec_strip_colons(full) == spec_strip_colons(full.skip(j as int)),
        decreases n - j,
    {
        proof {
            assert(full.skip(j as int).drop_first() =~= full.skip(j as int + 1));
        }
        j = j + 1;
    }
    proof {
        assert(spec_strip_colons(full) == full.skip(j as int));
    }
    let mut out: Vec<char> = Vec::new();
    let mut k: usize = j;
    while k < n
        invariant
            chars@ == full,
            n == full.len(),
            j <= k <= n,
            spec_strip_colons(full) == full.skip(j as int),
            out@.len() == k - j,
            forall|m: int|
                0 <= m < out@.len() ==> out@[m] == (if full[j + m] == '.' {
                    '_'
                } else {
                    full[j + m]
                }),
        decreases n - k,
    {
        let c: char = chars[k];
        if c == '.' {
            out.push('_');
        } else {
            out.push(c);
        }
        k = k + 1;
    }
    proof {
        assert(out@ =~= spec_sanitized(full));
    }
    chars_to_string(&out)
}

} // verus!
