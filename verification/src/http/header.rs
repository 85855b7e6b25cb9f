//! Request headers.

use vstd::prelude::*;
use vstd::string::*;

use crate::text::join;

verus! {

/// A header field name.
#[derive(Clone, Copy, PartialEq, Eq, Structural, Debug, Hash)]
pub enum Header {
    Host,
    UserAgent,
    Accept,
    AcceptEncoding,
    Authorization,
    CacheControl,
    Connection,
    ContentEncoding,
    ContentLength,
    ContentType,
    Cookie,
    Date,
    Location,
    Server,
    SetCookie,
}

/// The wire name of a header field.
pub open spec fn header_name(h: Header) -> Seq<char> {
    match h {
        Header::Host => "Host"@,
        Header::UserAgent => "User-Agent"@,
        Header::Accept => "Accept"@,
        Header::AcceptEncoding => "Accept-Encoding"@,
        Header::Authorization => "Authorization"@,
        Header::CacheControl => "Cache-Control"@,
        Header::Connection => "Connection"@,
        Header::ContentEncoding => "Content-Encoding"@,
        Header::ContentLength => "Content-Length"@,
        Header::ContentType => "Content-Type"@,
        Header::Cookie => "Cookie"@,
        Header::Date => "Date"@,
        Header::Location => "Location"@,
        Header::Server => "Server"@,
        Header::SetCookie => "Set-Cookie"@,
    }
}

impl Header {
    /// The wire name of this header field.
    pub fn as_str(&self) -> (r: &'static str)
        ensures
            r@ == header_name(*self),
    {
        match self {
            Header::Host => "Host",
            Header::UserAgent => "User-Agent",
            Header::Accept => "Accept",
            Header::AcceptEncoding => "Accept-Encoding",
            Header::Authorization => "Authorization",
            Header::CacheControl => "Cache-Control",
            Header::Connection => "Connection",
            Header::ContentEncoding => "Content-Encoding",
            Header::ContentLength => "Content-Length",
            Header::ContentType => "Content-Type",
            Header::Cookie => "Cookie",
            Header::Date => "Date",
            Header::Location => "Location",
            Header::Server => "Server",
            Header::SetCookie => "Set-Cookie",
        }
    }
}

/// The position of a field in a list of header entries, if it is there.
pub open spec fn find_header(entries: Seq<(Header, Seq<char>)>, key: Header) -> Option<int> {
    if exists|i: int| 0 <= i < entries.len() && entries[i].0 == key {
        Some(choose|i: int| 0 <= i < entries.len() && entries[i].0 == key)
    } else {
        None
    }
}

/// No field occurs twice in a list of header entries.
pub open spec fn distinct_headers(entries: Seq<(Header, Seq<char>)>) -> bool {
    forall|i: int, j: int|
        0 <= i < entries.len() && 0 <= j < entries.len() && i != j ==> entries[i].0 != entries[j].0
}

/// The entries after setting a field: an existing field keeps its place and
/// takes the new value, a new field goes to the end.
pub open spec fn set_header(entries: Seq<(Header, Seq<char>)>, key: Header, value: Seq<char>) -> Seq<
    (Header, Seq<char>),
> {
    match find_header(entries, key) {
        Some(i) => entries.update(i, (key, value)),
        None => entries.push((key, value)),
    }
}

/// The value of a field in a list of header entries, if it is there.
pub open spec fn header_value(entries: Seq<(Header, Seq<char>)>, key: Header) -> Option<Seq<char>> {
    match find_header(entries, key) {
        Some(i) => Some(entries[i].1),
        None => None,
    }
}

/// Setting a field and reading it back gives the value set; every other
/// field reads as before; no field comes to occur twice.
pub proof fn lemma_set_then_get(entries: Seq<(Header, Seq<char>)>, key: Header, value: Seq<char>, other: Header)
    requires
        distinct_headers(entries),
    ensures
        distinct_headers(set_header(entries, key, value)),
        header_value(set_header(entries, key, value), key) == Some(value),
        other != key ==> header_value(set_header(entries, key, value), other) == header_value(entries, other),
{
    let s = set_header(entries, key, value);
    match find_header(entries, key) {
        Some(i) => {
            assert forall|a: int, b: int| 0 <= a < s.len() && 0 <= b < s.len() && a != b implies s[a].0 != s[b].0 by {
                assert(s[a].0 == entries[a].0);
                assert(s[b].0 == entries[b].0);
            }
            assert(s[i].0 == key);
            let c = choose|j: int| 0 <= j < s.len() && s[j].0 == key;
            assert(c == i);
            if other != key {
                match find_header(entries, other) {
                    Some(k) => {
                        assert(s[k] == entries[k]);
                        let d = choose|j: int| 0 <= j < s.len() && s[j].0 == other;
                        assert(d == k);
                    },
                    None => {
                        if exists|j: int| 0 <= j < s.len() && s[j].0 == other {
                            let j = choose|j: int| 0 <= j < s.len() && s[j].0 == other;
                            assert(entries[j].0 == other);
                        }
                    },
                }
            }
        },
        None => {
            let n = entries.len() as int;
            assert forall|a: int, b: int| 0 <= a < s.len() && 0 <= b < s.len() && a != b implies s[a].0 != s[b].0 by {
                if a == n {
                    assert(entries[b].0 != key);
                } else if b == n {
                    assert(entries[a].0 != key);
                }
            }
            assert(s[n].0 == key);
            let c = choose|j: int| 0 <= j < s.len() && s[j].0 == key;
            assert(c == n);
            if other != key {
                match find_header(entries, other) {
                    Some(k) => {
                        assert(s[k] == entries[k]);
                        let d = choose|j: int| 0 <= j < s.len() && s[j].0 == other;
                        assert(d == k);
                    },
                    None => {
                        if exists|j: int| 0 <= j < s.len() && s[j].0 == other {
                            let j = choose|j: int| 0 <= j < s.len() && s[j].0 == other;
                            assert(j < n);
                            assert(entries[j].0 == other);
                        }
                    },
                }
            }
        },
    }
}

/// The wire text of one header line.
pub open spec fn header_line(e: (Header, Seq<char>)) -> Seq<char> {
    header_name(e.0) + ": "@ + e.1 + "\r\n"@
}

/// The wire text of a list of header entries, in order.
pub open spec fn headers_text(entries: Seq<(Header, Seq<char>)>) -> Seq<char>
    decreases entries.len(),
{
    if entries.len() == 0 {
        Seq::empty()
    } else {
        headers_text(entries.drop_last()) + header_line(entries.last())
    }
}

/// A set of header fields, each with one value, kept in insertion order.
#[derive(Debug)]
pub struct HeaderMap {
    entries: Vec<(Header, String)>,
}

impl View for HeaderMap {
    type V = Seq<(Header, Seq<char>)>;

    closed spec fn view(&self) -> Self::V {
        self.entries@.map_values(|p: (Header, String)| (p.0, p.1@))
    }
}

impl HeaderMap {
    /// Well-formedness: no field occurs twice.
    pub open spec fn wf(&self) -> bool {
        distinct_headers(self@)
    }

    /// An empty header set.
    pub fn new() -> (r: Self)
        ensures
            r@ == Seq::<(Header, Seq<char>)>::empty(),
            r.wf(),
    {
        let r = HeaderMap { entries: Vec::new() };
        assert(r@ =~= Seq::<(Header, Seq<char>)>::empty());
        r
    }

    /// A copy of the header set.
    pub fn clone(&self) -> (r: Self)
        ensures
            r@ == self@,
    {
        let mut entries: Vec<(Header, String)> = Vec::new();
        let n = self.entries.len();
        let mut i: usize = 0;
        while i < n
            invariant
                n == self.entries.len(),
                i <= n,
                entries@.len() == i,
                forall|j: int| 0 <= j < i ==> entries@[j].0 == self.entries@[j].0
                    && entries@[j].1@ == self.entries@[j].1@,
            decreases n - i,
        {
            entries.push((self.entries[i].0, self.entries[i].1.clone()));
            i = i + 1;
        }
        let r = HeaderMap { entries: entries };
        assert(r@ =~= self@);
        r
    }

    /// The number of fields.
    pub fn len(&self) -> (r: usize)
        ensures
            r == self@.len(),
    {
        self.entries.len()
    }

    /// Sets a field, replacing its value if it is already present.
    pub fn set(&mut self, key: Header, value: &str)
        requires
            old(self).wf(),
        ensures
            final(self)@ == set_header(old(self)@, key, value@),
            final(self).wf(),
    {
        let ghost old_view = self@;
        let n = self.entries.len();
        let mut i: usize = 0;
        while i < n
            invariant
                n == self.entries.len(),
                i <= n,
                self@ == old_view,
                old_view == old(self)@,
                distinct_headers(old_view),
                forall|j: int| 0 <= j < i ==> old_view[j].0 != key,
            decreases n - i,
        {
            if self.entries[i].0 == key {
                proof {
                    assert(old_view[i as int].0 == key);
                    let c = choose|j: int| 0 <= j < old_view.len() && old_view[j].0 == key;
                    assert(c == i);
                }
                self.entries.set(i, (key, String::from_str(value)));
                proof {
                    assert(self@ =~= old_view.update(i as int, (key, value@)));
                    assert(find_header(old_view, key) == Some(i as int));
                    assert(distinct_headers(self@));
                }
                return;
            }
            i = i + 1;
        }
        self.entries.push((key, String::from_str(value)));
        proof {
            assert(self@ =~= old_view.push((key, value@)));
            assert(find_header(old_view, key) is None);
        }
    }

    /// The value of a field, if it is present.
    pub fn get(&self, key: Header) -> (r: Option<&str>)
        requires
            self.wf(),
        ensures
            match find_header(self@, key) {
                Some(i) => r matches Some(v) && v@ == self@[i].1,
                None => r is None,
            },
    {
        let n = self.entries.len();
        let mut i: usize = 0;
        while i < n
            invariant
                n == self.entries.len(),
                i <= n,
                distinct_headers(self@),
                forall|j: int| 0 <= j < i ==> self@[j].0 != key,
            decreases n - i,
        {
            if self.entries[i].0 == key {
                proof {
                    assert(self@[i as int].0 == key);
                    let c = choose|j: int| 0 <= j < self@.len() && self@[j].0 == key;
                    assert(c == i);
                }
                return Some(self.entries[i].1.as_str());
            }
            i = i + 1;
        }
        None
    }

    /// Renders all fields as header lines, in insertion order.
    pub fn to_string(&self) -> (r: String)
        ensures
            r@ == headers_text(self@),
    {
        let mut out = String::new();
        let n = self.entries.len();
        let mut i: usize = 0;
        while i < n
            invariant
                n == self.entries.len(),
                n == self@.len(),
                i <= n,
                out@ == headers_text(self@.take(i as int)),
            decreases n - i,
        {
            let line = join(self.entries[i].0.as_str(), ": ");
            out.append(line.as_str());
            out.append(self.entries[i].1.as_str());
            out.append("\r\n");
            proof {
                let t = self@.take(i + 1);
                assert(t.drop_last() =~= self@.take(i as int));
                assert(t.last() == self@[i as int]);
            }
            i = i + 1;
        }
        assert(self@.take(n as int) =~= self@);
        out
    }
}

} // verus!
