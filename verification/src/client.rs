//! Client core: the endpoint handle for a configured server address.
//!
//! An address without an explicit scheme is treated as reachable over
//! unencrypted HTTP; a malformed address fails construction before any
//! network activity.  The network calls themselves (send, receive,
//! streamed bodies) are performed by the surrounding runtime against the
//! URL this module computes; their failures surface as transport errors.

use vstd::prelude::*;
use crate::strutil::is_prefix_of;
use crate::strutil::starts_with_str;

verus! {

/// Overall timeout, in seconds, bounding every client operation.
pub const CLIENT_TIMEOUT_SECS: u64 = 30;

/// A client-side failure.
#[derive(Clone, Copy, Debug, PartialEq, Eq, Structural)]
pub enum Error {
    /// Failure establishing or maintaining the HTTP connection, timeout
    /// included.
    Transport,
    /// The configured server address is not a well-formed address.
    Url,
}

/// Whether the address already names its scheme.
pub open spec fn has_scheme(a: Seq<char>) -> bool {
    is_prefix_of("http://"@, a) || is_prefix_of("https://"@, a)
}

/// An address without an explicit scheme is reachable over unencrypted
/// HTTP on the given host.
pub open spec fn normalized_addr(a: Seq<char>) -> Seq<char> {
    if has_scheme(a) {
        a
    } else {
        "http://"@ + a
    }
}

/// Whether the address parser accepts `a` as a well-formed absolute URL.
pub uninterp spec fn url_parse_ok(a: Seq<char>) -> bool;

/// Relies on `url::Url::parse`: it accepts exactly the well-formed
/// absolute URLs, its verdict is a function of the input string alone,
/// and it never panics.
#[verifier::external_body]
fn address_well_formed(s: &str) -> (r: bool)
    ensures
        r == url_parse_ok(s@),
{
    url::Url::parse(s).is_ok()
}

/// Give an address its default scheme: one that already carries a scheme
/// is kept, any other is reached over unencrypted HTTP.
pub fn normalize_addr(addr: &str) -> (r: String)
    ensures
        r@ == normalized_addr(addr@),
{
    if starts_with_str(addr, "http://") || starts_with_str(addr, "https://") {
        addr.to_owned()
    } else {
        String::from_str("http://").concat(addr)
    }
}

/// The handle identifying the target server: its base URL, scheme
/// included, immutable once constructed from the configured address.
pub struct Client {
    base_url: String,
}

/// The length of the scheme prefix the address carries, if any.
pub open spec fn scheme_len(a: Seq<char>) -> int {
    if is_prefix_of("https://"@, a) {
        8
    } else if is_prefix_of("http://"@, a) {
        7
    } else {
        0
    }
}

/// Whether `c` ends the authority of a URL: the first such character
/// after the scheme starts the path, query or fragment.
pub open spec fn spec_ends_authority(c: char) -> bool {
    c == '/' || c == '?' || c == '#'
}

/// The index where the path, query or fragment of `a` begins, scanning
/// from `i`: the first authority-ending character at or after `i`, or the
/// end of the string.
pub open spec fn path_start_from(a: Seq<char>, i: int) -> int
    decreases a.len() - i
        when 0 <= i <= a.len()
{
    if i >= a.len() {
        a.len() as int
    } else if spec_ends_authority(a[i]) {
        i
    } else {
        path_start_from(a, i + 1)
    }
}

/// The URL of the clipboard operations under a base URL: the fixed path
/// resolved against the base's authority, so whatever path, query or
/// fragment the base carries is replaced by the one clipboard path.
pub open spec fn spec_clipboard_url(base: Seq<char>) -> Seq<char> {
    base.take(path_start_from(base, scheme_len(base))) + "/clipboard"@
}

/// Whether `c` ends the authority of a URL.
fn ends_authority(c: char) -> (r: bool)
    ensures
        r == spec_ends_authority(c),
{
    c == '/' || c == '?' || c == '#'
}

impl Client {
    /// The configured base URL, scheme included.
    pub closed spec fn base_url(self) -> Seq<char> {
        self.base_url@
    }

    /// A well-formed client: its base URL was accepted by the address
    /// parser.
    pub closed spec fn wf(self) -> bool {
        url_parse_ok(self.base_url@)
    }

    /// Construct a client for the given server address.  The address is
    /// normalized to carry a scheme; a malformed address is rejected with
    /// an address error, before any network activity.
    pub fn new(url: String) -> (r: Result<Client, Error>)
        ensures
            r is Ok <==> url_parse_ok(normalized_addr(url@)),
            r matches Ok(c) ==> c.base_url() == normalized_addr(url@) && c.wf(),
            r is Err ==> r == Err::<Client, Error>(Error::Url),
    {
        let base = normalize_addr(url.as_str());
        if address_well_formed(base.as_str()) {
            Ok(Client { base_url: base })
        } else {
            Err(Error::Url)
        }
    }

    /// The URL that both clipboard operations target: the base's scheme
    /// and authority with the one clipboard path, whatever path or query
    /// the configured address carried.
    pub fn clipboard_url(&self) -> (r: String)
        ensures
            r@ == spec_clipboard_url(self.base_url()),
    {
        let s = self.base_url.as_str();
        let m = s.unicode_len();
        let start: usize = if starts_with_str(s, "https://") {
            8
        } else if starts_with_str(s, "http://") {
            7
        } else {
            0
        };
        proof {
            reveal_strlit("http://");
            reveal_strlit("https://");
            assert(start == scheme_len(s@));
        }
        let mut end: usize = start;
        while end < m && !ends_authority(s.get_char(end))
            invariant
                start <= end <= m,
                m == s@.len(),
                path_start_from(s@, start as int) == path_start_from(s@, end as int),
            decreases m - end,
        {
            proof {
                assert(path_start_from(s@, end as int) == path_start_from(s@, end + 1));
            }
            end = end + 1;
        }
        proof {
            assert(path_start_from(s@, end as int) == end as int);
        }
        let head = s.substring_char(0, end);
        let r = String::from_str(head).concat("/clipboard");
        proof {
            assert(s@.subrange(0, end as int) =~= s@.take(path_start_from(s@, scheme_len(s@))));
        }
        r
    }
}

/// Decide the client's outcome from the status the server answered: the
/// success status is success with nothing more owed; any other status —
/// the busy 503 included — surfaces as a transport-level failure rather
/// than being taken for content.
pub fn interpret_response_status(status: u16) -> (r: Result<(), Error>)
    ensures
        r is Ok <==> status == crate::server::STATUS_OK,
        status != crate::server::STATUS_OK ==> r == Err::<(), Error>(Error::Transport),
{
    if status == crate::server::STATUS_OK {
        Ok(())
    } else {
        Err(Error::Transport)
    }
}

} // verus!
