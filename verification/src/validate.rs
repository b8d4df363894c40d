//! The grammar of the two blocklists, and the test of a fetched list
//! against it.

use crate::kind::FileType;
use crate::text::{
    chars_of, find_from, has_no, lemma_first_field, lemma_span_bounds, lemma_span_is,
    lemma_split_first, lemma_split_more, lemma_split_one, lines, matches_at, span, split,
};
use vstd::prelude::*;
use vstd::slice::slice_subrange;
use vstd::string::{StrSliceExecFns, StringExecFns};

verus! {

/// Why a list was refused: the first line that does not follow the
/// grammar of its list.
#[derive(Debug)]
pub enum NoTrackingError {
    InvalidDomain(String),
    InvalidHostname(String),
}

impl NoTrackingError {
    /// The list whose grammar refused the line.
    pub open spec fn kind(self) -> FileType {
        match self {
            NoTrackingError::InvalidDomain(_) => FileType::Domains,
            NoTrackingError::InvalidHostname(_) => FileType::Hostnames,
        }
    }

    /// The refused line.
    pub open spec fn line(self) -> Seq<char> {
        match self {
            NoTrackingError::InvalidDomain(line) => line@,
            NoTrackingError::InvalidHostname(line) => line@,
        }
    }

    /// The error in words: the kind of line, and the line between
    /// backticks.
    pub open spec fn message_text(self) -> Seq<char> {
        match self {
            NoTrackingError::InvalidDomain(line) => "invalid domain line: `"@ + line@ + "`"@,
            NoTrackingError::InvalidHostname(line) => "invalid hostname line: `"@ + line@ + "`"@,
        }
    }

    /// The error in words.
    pub fn message(&self) -> (m: String)
        ensures
            m@ == self.message_text(),
    {
        let mut m = String::new();
        match self {
            NoTrackingError::InvalidDomain(line) => {
                m.append("invalid domain line: `");
                m.append(line.as_str());
            },
            NoTrackingError::InvalidHostname(line) => {
                m.append("invalid hostname line: `");
                m.append(line.as_str());
            },
        }
        m.append("`");
        m
    }
}

/// The two addresses that a blocklist sends a blocked host to.
pub open spec fn is_sink_ip(ip: Seq<char>) -> bool {
    ip == "0.0.0.0"@ || ip == "::"@
}

/// A line of the domains list: `address=`, the domain and a sink address,
/// parted by two slashes.
pub open spec fn is_domain_line(line: Seq<char>) -> bool {
    let fields = split(line, '/');
    fields.len() == 3 && fields[0] == "address="@ && is_sink_ip(fields[2])
}

/// A line of the hostnames list: a sink address and the host name, parted
/// by one space.
pub open spec fn is_hostname_line(line: Seq<char>) -> bool {
    let fields = split(line, ' ');
    fields.len() == 2 && is_sink_ip(fields[0])
}

/// Whether `line` follows the grammar of the list `ftype`.
pub open spec fn follows_grammar(ftype: FileType, line: Seq<char>) -> bool {
    match ftype {
        FileType::Domains => is_domain_line(line),
        FileType::Hostnames => is_hostname_line(line),
    }
}

/// Lines that are not held to the grammar: the empty line and the comment.
pub open spec fn is_skipped(line: Seq<char>) -> bool {
    line.len() == 0 || line[0] == '#'
}

/// Whether a list may hold `line`.
pub open spec fn is_accepted(ftype: FileType, line: Seq<char>) -> bool {
    is_skipped(line) || follows_grammar(ftype, line)
}

/// The first of `lines` that the list may not hold.
pub open spec fn first_rejected(ftype: FileType, lines: Seq<Seq<char>>) -> Option<Seq<char>>
    decreases lines.len(),
{
    if lines.len() == 0 {
        None
    } else if !is_accepted(ftype, lines[0]) {
        Some(lines[0])
    } else {
        first_rejected(ftype, lines.skip(1))
    }
}

fn sink_ip_at(v: &[char], from: usize) -> (r: bool)
    requires
        from <= v.len(),
    ensures
        r == is_sink_ip(v@.skip(from as int)),
{
    assert(v@.skip(from as int) == v@.subrange(from as int, v.len() as int));
    matches_at(v, from, v.len(), "0.0.0.0") || matches_at(v, from, v.len(), "::")
}

fn domain_line(line: &[char]) -> (r: bool)
    ensures
        r == is_domain_line(line@),
{
    let ghost s = line@;
    let a = find_from(line, 0, '/');
    proof {
        assert(s.skip(0) == s);
        lemma_split_first(s, '/');
    }
    if a == line.len() {
        return false;
    }
    let ghost s1 = s.skip(a + 1);
    let b = find_from(line, a + 1, '/');
    proof {
        lemma_split_first(s1, '/');
    }
    if b == line.len() {
        return false;
    }
    let ghost s2 = s.skip(b + 1);
    let c = find_from(line, b + 1, '/');
    proof {
        assert(s1.skip(b - a) == s2);
        lemma_split_first(s2, '/');
        if c < line.len() {
            lemma_split_first(s2.skip(span(s2, '/') + 1), '/');
        }
        assert(s.take(a as int) == s.subrange(0, a as int));
    }
    if c < line.len() {
        return false;
    }
    matches_at(line, 0, a, "address=") && sink_ip_at(line, b + 1)
}

fn hostname_line(line: &[char]) -> (r: bool)
    ensures
        r == is_hostname_line(line@),
{
    let ghost s = line@;
    let a = find_from(line, 0, ' ');
    proof {
        assert(s.skip(0) == s);
        lemma_split_first(s, ' ');
    }
    if a == line.len() {
        return false;
    }
    let ghost s1 = s.skip(a + 1);
    let b = find_from(line, a + 1, ' ');
    proof {
        lemma_split_first(s1, ' ');
        if b < line.len() {
            lemma_split_first(s1.skip(span(s1, ' ') + 1), ' ');
        }
        assert(s.take(a as int) == s.subrange(0, a as int));
    }
    if b < line.len() {
        return false;
    }
    matches_at(line, 0, a, "0.0.0.0") || matches_at(line, 0, a, "::")
}

/// Whether `ip` is one of the two sink addresses.
pub fn valid_ip(ip: &str) -> (r: bool)
    ensures
        r == is_sink_ip(ip@),
{
    let chars = chars_of(ip);
    assert(chars@.skip(0) == chars@);
    sink_ip_at(chars.as_slice(), 0)
}

/// Holds one line to the grammar of the domains list.
pub fn validate_domain_line(line: &str) -> (r: Result<(), NoTrackingError>)
    ensures
        r is Ok <==> is_domain_line(line@),
        r matches Err(e) ==> e.kind() == FileType::Domains && e.line() == line@,
{
    let chars = chars_of(line);
    if domain_line(chars.as_slice()) {
        Ok(())
    } else {
        Err(NoTrackingError::InvalidDomain(line.to_owned()))
    }
}

/// Holds one line to the grammar of the hostnames list.
pub fn validate_hostname_line(line: &str) -> (r: Result<(), NoTrackingError>)
    ensures
        r is Ok <==> is_hostname_line(line@),
        r matches Err(e) ==> e.kind() == FileType::Hostnames && e.line() == line@,
{
    let chars = chars_of(line);
    if hostname_line(chars.as_slice()) {
        Ok(())
    } else {
        Err(NoTrackingError::InvalidHostname(line.to_owned()))
    }
}

fn accepted(ftype: FileType, line: &[char]) -> (r: bool)
    ensures
        r == is_accepted(ftype, line@),
{
    if line.len() == 0 || line[0] == '#' {
        return true;
    }
    match ftype {
        FileType::Domains => domain_line(line),
        FileType::Hostnames => hostname_line(line),
    }
}

fn rejection(ftype: FileType, line: String) -> (e: NoTrackingError)
    ensures
        e.kind() == ftype,
        e.line() == line@,
{
    match ftype {
        FileType::Domains => NoTrackingError::InvalidDomain(line),
        FileType::Hostnames => NoTrackingError::InvalidHostname(line),
    }
}

/// Holds a fetched list to the grammar of `ftype`, line by line. Empty
/// lines and comments pass unread. The first line that the list may not
/// hold refuses the whole list, and is reported.
pub fn validate(ftype: FileType, data: &str) -> (r: Result<(), NoTrackingError>)
    ensures
        r is Ok <==> first_rejected(ftype, lines(data@)) is None,
        r matches Err(e) ==> e.kind() == ftype && first_rejected(ftype, lines(data@)) == Some(
            e.line(),
        ),
{
    let chars = chars_of(data);
    let v = chars.as_slice();
    let n = v.len();
    let mut start: usize = 0;
    assert(data@.skip(0) == data@);
    loop
        invariant
            v@ == data@,
            n == v.len(),
            start <= n,
            first_rejected(ftype, lines(data@)) == first_rejected(
                ftype,
                lines(data@.skip(start as int)),
            ),
        decreases n - start,
    {
        let ghost rest = data@.skip(start as int);
        let end = find_from(v, start, '\n');
        let ghost line = data@.subrange(start as int, end as int);
        proof {
            lemma_split_first(rest, '\n');
            assert(rest.take(end - start) == line);
            assert(lines(rest)[0] == line);
            if end < n {
                assert(rest.skip(end - start + 1) == data@.skip(end + 1));
                assert(lines(rest).skip(1) == lines(data@.skip(end + 1)));
            } else {
                assert(lines(rest) == seq![line]);
                assert(first_rejected(ftype, lines(rest).skip(1)) is None);
            }
        }
        if !accepted(ftype, slice_subrange(v, start, end)) {
            return Err(rejection(ftype, data.substring_char(start, end).to_owned()));
        }
        if end == n {
            return Ok(());
        }
        start = end + 1;
    }
}

/// A list is accepted when each of its lines is empty, a comment, or
/// follows the grammar of the list.
pub proof fn lemma_accepted_lines_pass(ftype: FileType, text: Seq<char>)
    requires
        forall|i: int|
            0 <= i < lines(text).len() ==> {
                let line = #[trigger] lines(text)[i];
                line.len() == 0 || line[0] == '#' || follows_grammar(ftype, line)
            },
    ensures
        first_rejected(ftype, lines(text)) is None,
{
    lemma_first_rejected(ftype, lines(text));
}

/// A line that is neither empty nor a comment and breaks the grammar
/// refuses the list; where the lines before it are accepted, it is the
/// line reported.
pub proof fn lemma_rejected_line_is_reported(ftype: FileType, text: Seq<char>, k: int)
    requires
        0 <= k < lines(text).len(),
        !is_skipped(lines(text)[k]),
        !follows_grammar(ftype, lines(text)[k]),
        forall|i: int| 0 <= i < k ==> is_accepted(ftype, #[trigger] lines(text)[i]),
    ensures
        first_rejected(ftype, lines(text)) == Some(lines(text)[k]),
{
    lemma_first_rejected(ftype, lines(text));
}

/// A text without a line feed is one line: itself.
pub proof fn lemma_one_line(line: Seq<char>)
    requires
        forall|i: int| 0 <= i < line.len() ==> line[i] != '\n',
    ensures
        lines(line) == seq![line],
{
    lemma_span_is(line, '\n', line.len() as int);
}

/// What `first_rejected` finds: nothing exactly when every line is
/// accepted, and else the rejected line before which all are accepted.
pub proof fn lemma_first_rejected(ftype: FileType, lines: Seq<Seq<char>>)
    ensures
        first_rejected(ftype, lines) is None <==> forall|i: int|
            0 <= i < lines.len() ==> is_accepted(ftype, #[trigger] lines[i]),
        first_rejected(ftype, lines) matches Some(line) ==> exists|k: int|
            0 <= k < lines.len() && #[trigger] lines[k] == line && !is_accepted(ftype, line)
                && forall|i: int| 0 <= i < k ==> is_accepted(ftype, #[trigger] lines[i]),
        forall|k: int|
            0 <= k < lines.len() && !is_accepted(ftype, #[trigger] lines[k]) && (forall|i: int|
                0 <= i < k ==> is_accepted(ftype, #[trigger] lines[i])) ==> first_rejected(
                ftype,
                lines,
            ) == Some(lines[k]),
    decreases lines.len(),
{
    if lines.len() > 0 && is_accepted(ftype, lines[0]) {
        let rest = lines.skip(1);
        lemma_first_rejected(ftype, rest);
        assert forall|i: int| 0 <= i < rest.len() implies rest[i] == lines[i + 1] by {}
        if first_rejected(ftype, rest) is None {
            assert forall|i: int| 0 <= i < lines.len() implies is_accepted(
                ftype,
                #[trigger] lines[i],
            ) by {
                if i > 0 {
                    assert(rest[i - 1] == lines[i]);
                }
            }
        } else {
            let line = first_rejected(ftype, rest)->0;
            let k = choose|k: int|
                0 <= k < rest.len() && #[trigger] rest[k] == line && !is_accepted(ftype, line)
                    && forall|i: int| 0 <= i < k ==> is_accepted(ftype, #[trigger] rest[i]);
            assert(lines[k + 1] == line);
            assert forall|i: int| 0 <= i < k + 1 implies is_accepted(
                ftype,
                #[trigger] lines[i],
            ) by {
                if i > 0 {
                    assert(rest[i - 1] == lines[i]);
                }
            }
            assert(!is_accepted(ftype, rest[k]));
        }
        assert forall|k: int|
            0 <= k < lines.len() && !is_accepted(ftype, #[trigger] lines[k]) && (forall|i: int|
                0 <= i < k ==> is_accepted(ftype, #[trigger] lines[i])) implies first_rejected(
            ftype,
            lines,
        ) == Some(lines[k]) by {
            assert(k > 0);
            assert(rest[k - 1] == lines[k]);
            assert forall|i: int| 0 <= i < k - 1 implies is_accepted(ftype, #[trigger] rest[i]) by {
                assert(rest[i] == lines[i + 1]);
            }
        }
    } else if lines.len() > 0 {
        assert forall|k: int|
            0 <= k < lines.len() && !is_accepted(ftype, #[trigger] lines[k]) && (forall|i: int|
                0 <= i < k ==> is_accepted(ftype, #[trigger] lines[i])) implies first_rejected(
            ftype,
            lines,
        ) == Some(lines[k]) by {
            if k > 0 {
                assert(is_accepted(ftype, lines[0]));
            }
        }
    }
}

/// A line of the domains list for a domain and an address.
pub open spec fn domain_line_of(domain: Seq<char>, ip: Seq<char>) -> Seq<char> {
    "address=/"@ + domain + "/"@ + ip
}

/// A line of the hostnames list for an address and a host name.
pub open spec fn hostname_line_of(ip: Seq<char>, host: Seq<char>) -> Seq<char> {
    ip + " "@ + host
}

/// The lines of the domains list are those of the form
/// `address=/domain/ip`, with any text without a slash for the domain,
/// the empty text too, and a sink address for the ip.
pub proof fn lemma_domain_line_form(line: Seq<char>)
    ensures
        is_domain_line(line) <==> exists|domain: Seq<char>, ip: Seq<char>|
            has_no(domain, '/') && is_sink_ip(ip) && line == #[trigger] domain_line_of(domain, ip),
{
    reveal_strlit("address=/");
    reveal_strlit("address=");
    reveal_strlit("/");
    reveal_strlit("0.0.0.0");
    reveal_strlit("::");
    let head = "address="@;
    if is_domain_line(line) {
        lemma_split_first(line, '/');
        lemma_first_field(line, '/');
        let rest = line.skip(span(line, '/') + 1);
        lemma_split_first(rest, '/');
        lemma_first_field(rest, '/');
        let last = rest.skip(span(rest, '/') + 1);
        lemma_split_first(last, '/');
        let domain = split(rest, '/')[0];
        assert(split(line, '/')[1] == domain);
        assert(split(line, '/')[2] == last);
        assert(line == domain_line_of(domain, last));
    }
    if exists|domain: Seq<char>, ip: Seq<char>|
        has_no(domain, '/') && is_sink_ip(ip) && line == #[trigger] domain_line_of(domain, ip) {
        let (domain, ip) = choose|domain: Seq<char>, ip: Seq<char>|
            has_no(domain, '/') && is_sink_ip(ip) && line == #[trigger] domain_line_of(domain, ip);
        assert(has_no(head, '/'));
        assert(has_no(ip, '/'));
        lemma_split_more(head, '/', domain + seq!['/'] + ip);
        lemma_split_more(domain, '/', ip);
        lemma_split_one(ip, '/');
        assert(line == head + seq!['/'] + (domain + seq!['/'] + ip));
        assert(split(line, '/') == seq![head, domain, ip]);
    }
}

/// The lines of the hostnames list are those of the form `ip host`, with
/// a sink address for the ip and any text without a space for the host,
/// the empty text too.
pub proof fn lemma_hostname_line_form(line: Seq<char>)
    ensures
        is_hostname_line(line) <==> exists|ip: Seq<char>, host: Seq<char>|
            is_sink_ip(ip) && has_no(host, ' ') && line == #[trigger] hostname_line_of(ip, host),
{
    reveal_strlit(" ");
    reveal_strlit("0.0.0.0");
    reveal_strlit("::");
    if is_hostname_line(line) {
        lemma_split_first(line, ' ');
        lemma_first_field(line, ' ');
        let host = line.skip(span(line, ' ') + 1);
        lemma_split_first(host, ' ');
        lemma_span_bounds(host, ' ');
        assert(split(line, ' ')[1] == host);
        assert(line == hostname_line_of(split(line, ' ')[0], host));
    }
    if exists|ip: Seq<char>, host: Seq<char>|
        is_sink_ip(ip) && has_no(host, ' ') && line == #[trigger] hostname_line_of(ip, host) {
        let (ip, host) = choose|ip: Seq<char>, host: Seq<char>|
            is_sink_ip(ip) && has_no(host, ' ') && line == #[trigger] hostname_line_of(ip, host);
        assert(has_no(ip, ' '));
        lemma_split_more(ip, ' ', host);
        lemma_split_one(host, ' ');
        assert(line == ip + seq![' '] + host);
        assert(split(line, ' ') == seq![ip, host]);
    }
}

} // verus!
