//! Addresses: URLs, and which hosts are this machine.

use vstd::prelude::*;

use crate::text;
use crate::text::same;

verus! {

/// The parts of a URL.
#[derive(Debug)]
pub struct UrlParts {
    pub scheme: String,
    pub username: String,
    pub password: Option<String>,
    pub host: Option<String>,
    /// The port, where it is not the scheme's own.
    pub port: Option<u16>,
    pub path: String,
    pub query: Option<String>,
    pub fragment: Option<String>,
}

#[verifier::ext_equal]
pub struct UrlV {
    pub scheme: Seq<char>,
    pub username: Seq<char>,
    pub password: Option<Seq<char>>,
    pub host: Option<Seq<char>>,
    pub port: Option<u16>,
    pub path: Seq<char>,
    pub query: Option<Seq<char>>,
    pub fragment: Option<Seq<char>>,
}

impl UrlParts {
    pub open spec fn view(&self) -> UrlV {
        UrlV {
            scheme: self.scheme@,
            username: self.username@,
            password: text::opt_view(self.password),
            host: text::opt_view(self.host),
            port: self.port,
            path: self.path@,
            query: text::opt_view(self.query),
            fragment: text::opt_view(self.fragment),
        }
    }
}

pub open spec fn opt_url(u: Option<UrlParts>) -> Option<UrlV> {
    match u {
        Some(u) => Some(u@),
        None => None,
    }
}

/// What `url::Url::parse` makes of a text: the parts of the URL, or `None`
/// where it reports an error.
pub uninterp spec fn url_parts(text: Seq<char>) -> Option<UrlV>;

/// `url::Url::parse`, and what the URL's accessors give. Its result is a
/// function of the text.
#[verifier::external_body]
pub(crate) fn parse_url(text: &str) -> (r: Option<UrlParts>)
    ensures
        opt_url(r) == url_parts(text@),
{
    let url = url::Url::parse(text).ok()?;
    Some(UrlParts {
        scheme: url.scheme().to_owned(),
        username: url.username().to_owned(),
        password: url.password().map(str::to_owned),
        host: url.host_str().map(str::to_owned),
        port: url.port(),
        path: url.path().to_owned(),
        query: url.query().map(str::to_owned),
        fragment: url.fragment().map(str::to_owned),
    })
}

/// A number from 0 to 255 in decimal, without leading zeros.
pub open spec fn octet_v(s: Seq<char>) -> Option<nat> {
    if s.len() == 0 || s.len() > 3 || (s.len() > 1 && s[0] == '0') {
        None
    } else {
        match text::number_v(s) {
            Some(n) => if n <= 255 {
                Some(n)
            } else {
                None
            },
            None => None,
        }
    }
}

/// An IPv4 address of the loopback network, `127.0.0.0/8`.
pub open spec fn loopback_v4_v(s: Seq<char>) -> bool {
    let parts = text::split_v(s, '.');
    &&& parts.len() == 4
    &&& octet_v(parts[0]) == Some(127nat)
    &&& octet_v(parts[1]) is Some
    &&& octet_v(parts[2]) is Some
    &&& octet_v(parts[3]) is Some
}

/// One to four zeros.
pub open spec fn zero_group_v(s: Seq<char>) -> bool {
    1 <= s.len() <= 4 && forall|i: int| 0 <= i < s.len() ==> #[trigger] s[i] == '0'
}

/// A one after at most three zeros.
pub open spec fn one_group_v(s: Seq<char>) -> bool {
    1 <= s.len() <= 4 && s.last() == '1' && forall|i: int|
        0 <= i < s.len() - 1 ==> #[trigger] s[i] == '0'
}

pub open spec fn all_zero_v(groups: Seq<Seq<char>>) -> bool {
    forall|i: int| 0 <= i < groups.len() ==> zero_group_v(#[trigger] groups[i])
}

/// How many groups of zeros a text is made of.
pub open spec fn zeros_v(s: Seq<char>) -> Option<nat> {
    let groups = text::split_v(s, ':');
    if s.len() == 0 {
        Some(0)
    } else if all_zero_v(groups) {
        Some(groups.len())
    } else {
        None
    }
}

/// How many groups a text is made of whose last stands for one and the others
/// for zero. The last two groups may be written as an IPv4 address.
pub open spec fn ones_v(s: Seq<char>) -> Option<nat> {
    let groups = text::split_v(s, ':');
    if !all_zero_v(groups.drop_last()) {
        None
    } else if one_group_v(groups.last()) {
        Some(groups.len())
    } else if groups.last() == "0.0.0.1"@ {
        Some(groups.len() + 1)
    } else {
        None
    }
}

/// The IPv6 loopback address, `::1`, in any way of writing it: eight groups, or
/// fewer where `::` stands for the missing zeros.
pub open spec fn loopback_v6_v(s: Seq<char>) -> bool {
    let halves = text::split_on_v(s, "::"@);
    if halves.len() == 1 {
        ones_v(halves[0]) == Some(8nat)
    } else if halves.len() == 2 {
        match (zeros_v(halves[0]), ones_v(halves[1])) {
            (Some(head), Some(tail)) => head + tail <= 7,
            _ => false,
        }
    } else {
        false
    }
}

/// An address of this machine.
pub open spec fn loopback_ip_v(host: Seq<char>) -> bool {
    loopback_v4_v(host) || loopback_v6_v(host)
}

/// A name or an address of this machine.
pub open spec fn loopback_v(host: Seq<char>) -> bool {
    text::lower_v(host) == "localhost"@ || loopback_ip_v(host)
}

fn octet(s: &str) -> (r: Option<u64>)
    ensures
        match r {
            Some(n) => octet_v(s@) == Some(n as nat),
            None => octet_v(s@) is None,
        },
{
    let v = text::chars_of(s);
    if v.len() == 0 || v.len() > 3 || (v.len() > 1 && v[0] == '0') {
        return None;
    }
    if v[0] == '+' {
        proof {
            text::number_v_bad(s@, 0);
        }
        return None;
    }
    text::parse_uint(s, 255)
}

fn loopback_v4(s: &str) -> (r: bool)
    ensures
        r == loopback_v4_v(s@),
{
    let parts = text::split(s, '.');
    let ghost all = text::views(parts@);
    assert(all.len() == parts@.len());
    if parts.len() != 4 {
        return false;
    }
    assert(all[0] == parts@[0]@ && all[1] == parts@[1]@ && all[2] == parts@[2]@ && all[3]
        == parts@[3]@);
    match octet(&parts[0]) {
        Some(n) => n == 127 && octet(&parts[1]).is_some() && octet(&parts[2]).is_some() && octet(
            &parts[3],
        ).is_some(),
        None => false,
    }
}

/// Whether the first `n` characters are zeros.
fn leading_zeros(v: &Vec<char>, n: usize) -> (r: bool)
    requires
        n <= v@.len(),
    ensures
        r == forall|i: int| 0 <= i < n ==> #[trigger] v@[i] == '0',
{
    let mut i: usize = 0;
    while i < n
        invariant
            i <= n <= v@.len(),
            forall|k: int| 0 <= k < i ==> #[trigger] v@[k] == '0',
        decreases n - i,
    {
        if v[i] != '0' {
            assert(v@[i as int] != '0');
            return false;
        }
        i += 1;
    }
    true
}

fn zero_group(s: &str) -> (r: bool)
    ensures
        r == zero_group_v(s@),
{
    let v = text::chars_of(s);
    1 <= v.len() && v.len() <= 4 && leading_zeros(&v, v.len())
}

fn one_group(s: &str) -> (r: bool)
    ensures
        r == one_group_v(s@),
{
    let v = text::chars_of(s);
    1 <= v.len() && v.len() <= 4 && v[v.len() - 1] == '1' && leading_zeros(&v, v.len() - 1)
}

/// Whether the first `n` groups are zeros.
fn zero_groups(groups: &Vec<String>, n: usize) -> (r: bool)
    requires
        n <= groups@.len(),
    ensures
        r == all_zero_v(text::views(groups@).take(n as int)),
{
    let ghost all = text::views(groups@).take(n as int);
    let mut i: usize = 0;
    while i < n
        invariant
            i <= n <= groups@.len(),
            all == text::views(groups@).take(n as int),
            forall|k: int| 0 <= k < i ==> zero_group_v(#[trigger] all[k]),
        decreases n - i,
    {
        assert(all[i as int] == groups@[i as int]@);
        if !zero_group(&groups[i]) {
            return false;
        }
        i += 1;
    }
    true
}

fn zeros(s: &str) -> (r: Option<usize>)
    ensures
        match r {
            Some(n) => zeros_v(s@) == Some(n as nat),
            None => zeros_v(s@) is None,
        },
{
    if s.is_empty() {
        return Some(0);
    }
    let groups = text::split(s, ':');
    let ghost all = text::views(groups@);
    assert(all.take(groups@.len() as int) =~= all);
    if zero_groups(&groups, groups.len()) {
        Some(groups.len())
    } else {
        None
    }
}

/// Counts eight groups at most.
fn ones(s: &str) -> (r: Option<usize>)
    ensures
        match r {
            Some(n) => ones_v(s@) == Some(n as nat),
            None => ones_v(s@) is None || ones_v(s@)->0 > 8,
        },
{
    let groups = text::split(s, ':');
    let ghost all = text::views(groups@);
    assert(all.len() == groups@.len());
    if groups.len() > 8 {
        return None;
    }
    let last: usize = groups.len() - 1;
    proof {
        assert(all.take(last as int) =~= all.drop_last());
        assert(all.last() == groups@[last as int]@);
    }
    if !zero_groups(&groups, last) {
        None
    } else if one_group(&groups[last]) {
        Some(groups.len())
    } else if same(&groups[last], "0.0.0.1") {
        Some(groups.len() + 1)
    } else {
        None
    }
}

fn loopback_v6(s: &str) -> (r: bool)
    ensures
        r == loopback_v6_v(s@),
{
    proof {
        reveal_strlit("::");
    }
    let halves = text::split_on(s, "::");
    let ghost all = text::views(halves@);
    assert(all.len() == halves@.len());
    if halves.len() == 1 {
        assert(all[0] == halves@[0]@);
        match ones(&halves[0]) {
            Some(n) => n == 8,
            None => false,
        }
    } else if halves.len() == 2 {
        assert(all[0] == halves@[0]@ && all[1] == halves@[1]@);
        match (zeros(&halves[0]), ones(&halves[1])) {
            (Some(head), Some(tail)) => head <= 7 && tail <= 7 - head,
            _ => false,
        }
    } else {
        false
    }
}

/// Whether a host is an address of this machine.
pub fn is_loopback_ip(host: &str) -> (r: bool)
    ensures
        r == loopback_ip_v(host@),
{
    loopback_v4(host) || loopback_v6(host)
}

/// Whether a host is a name or an address of this machine.
pub fn is_loopback_host(host: &str) -> (r: bool)
    ensures
        r == loopback_v(host@),
{
    same(&text::lower(host), "localhost") || is_loopback_ip(host)
}

/// A URL of this machine.
pub open spec fn loopback_url_v(url: Option<UrlV>) -> bool {
    match url {
        None => false,
        Some(u) => match u.host {
            None => false,
            Some(host) => host == "localhost"@ || loopback_ip_v(host),
        },
    }
}

/// Whether a URL that has been read is one of this machine.
pub fn on_this_machine(url: &Option<UrlParts>) -> (r: bool)
    ensures
        r == loopback_url_v(opt_url(*url)),
{
    match url {
        None => false,
        Some(u) => match &u.host {
            None => false,
            Some(host) => same(host, "localhost") || is_loopback_ip(host),
        },
    }
}

pub fn is_loopback_url(value: &str) -> (r: bool)
    ensures
        r == loopback_url_v(url_parts(value@)),
{
    on_this_machine(&parse_url(value))
}

/// Whether an address to listen on, `host:port`, is reached from this machine
/// only. An IPv6 address may stand in brackets.
pub open spec fn loopback_listen_v(address: Seq<char>) -> bool {
    match text::find_back_v(address, ":"@, address.len() as int) {
        None => false,
        Some(i) => {
            let host = address.take(i);
            loopback_v(text::trim_end_any_v(text::trim_start_any_v(host, "[]"@), "[]"@))
        },
    }
}

pub fn is_loopback_listen(address: &str) -> (r: bool)
    ensures
        r == loopback_listen_v(address@),
{
    let v = text::chars_of(address);
    let colon = text::chars_of(":");
    match text::find_last(&v, &colon) {
        None => false,
        Some(i) => {
            assert(v@.subrange(0, i as int) =~= address@.take(i as int));
            let host = text::string_of(&v, 0, i);
            is_loopback_host(&text::trim_any(&host, "[]"))
        },
    }
}

/// The host and the port of a URL, as an address to listen on.
pub open spec fn listen_of_v(url: Option<UrlV>) -> Option<Seq<char>> {
    match url {
        None => None,
        Some(u) => match (u.host, u.port) {
            (None, _) => None,
            (Some(host), None) => Some(host),
            (Some(host), Some(port)) => Some(host + ":"@ + text::decimal_v(port as nat)),
        },
    }
}

/// The address to listen on in a URL that has been read.
pub fn listen_of(url: &Option<UrlParts>) -> (r: Option<String>)
    ensures
        text::opt_view(r) == listen_of_v(opt_url(*url)),
{
    match url {
        None => None,
        Some(u) => match &u.host {
            None => None,
            Some(host) => match u.port {
                None => Some(text::owned(host)),
                Some(port) => Some(text::cat3(host, ":", &text::decimal(port as u64))),
            },
        },
    }
}

/// The address to listen on in the base URL of a model.
pub fn listen_from_base_url(base_url: &str) -> (r: Option<String>)
    ensures
        text::opt_view(r) == listen_of_v(url_parts(base_url@)),
{
    listen_of(&parse_url(base_url))
}

/// An address to listen on is one of this machine exactly where its host is,
/// whatever the port.
pub proof fn listening_is_judged_by_the_host(host: Seq<char>, port: Seq<char>)
    requires
        host.len() > 0,
        host[0] != '[' && host[0] != ']',
        host.last() != '[' && host.last() != ']',
        !port.contains(':'),
    ensures
        loopback_listen_v(host + ":"@ + port) == loopback_v(host),
        loopback_listen_v("["@ + host + "]"@ + ":"@ + port) == loopback_v(host),
{
    reveal_strlit(":");
    reveal_strlit("[");
    reveal_strlit("]");
    reveal_strlit("[]");
    let set = "[]"@;
    assert(set[0] == '[' && set[1] == ']' && set.len() == 2);
    assert(forall|c: char| set.contains(c) ==> c == '[' || c == ']');
    assert(set.contains('[') && set.contains(']'));
    let one = host + ":"@ + port;
    last_colon(host, port, one.len() as int);
    assert(one.take(host.len() as int) =~= host);
    assert(text::trim_start_any_v(host, set) == host);
    assert(text::trim_end_any_v(host, set) == host);
    let boxed = "["@ + host + "]"@;
    let two = boxed + ":"@ + port;
    last_colon(boxed, port, two.len() as int);
    assert(two.take(boxed.len() as int) =~= boxed);
    let open = host + "]"@;
    assert(boxed.skip(1) =~= open);
    assert(boxed[0] == '[');
    assert(open[0] == host[0]);
    assert(text::trim_start_any_v(open, set) == open);
    assert(text::trim_start_any_v(boxed, set) == open);
    assert(open.drop_last() =~= host);
    assert(open.last() == ']');
    assert(text::trim_end_any_v(open, set) == host);
}

proof fn last_colon(host: Seq<char>, port: Seq<char>, i: int)
    requires
        !port.contains(':'),
        host.len() <= i <= host.len() + 1 + port.len(),
    ensures
        text::find_back_v(host + ":"@ + port, ":"@, i) == Some(host.len() as int),
    decreases i,
{
    reveal_strlit(":");
    let s = host + ":"@ + port;
    if i == host.len() {
        assert(s.subrange(i, i + 1) =~= ":"@);
    } else {
        if text::at_v(s, ":"@, i) {
            assert(s.subrange(i, i + 1)[0] == s[i]);
            assert(s[i] == ':');
            assert(port[i - host.len() - 1] == ':');
        }
        last_colon(host, port, i - 1);
    }
}

/// Where a model says its proxy is, there the proxy is looked for: the host as it
/// stands, and the port where it has one.
pub proof fn listening_is_at_the_host(u: UrlV, host: Seq<char>)
    requires
        u.host == Some(host),
    ensures
        u.port is None ==> listen_of_v(Some(u)) == Some(host),
        u.port matches Some(p) ==> listen_of_v(Some(u)) == Some(
            host + ":"@ + text::decimal_v(p as nat),
        ),
        loopback_url_v(Some(u)) ==> loopback_v(host),
{
    reveal_strlit("localhost");
    if host == "localhost"@ {
        assert(text::lower_v(host) =~= host);
    }
}

} // verus!
