//! The rules for a URI prefix, and the URL under which a running server can
//! be browsed.

use vstd::prelude::*;
use vstd::string::*;
use crate::text::{
    all_digits, chars_of, decimal_text, is_digit, lemma_decimal_text_injective,
    lemma_decimal_text_value, u16_to_text,
};

verus! {

/// The port that `http` URLs leave out.
pub const DEFAULT_HTTP_PORT: u16 = 80;

/// The port that `https` URLs leave out.
pub const DEFAULT_HTTPS_PORT: u16 = 443;

/// Whether `s` begins with a slash.
pub open spec fn starts_with_slash(s: Seq<char>) -> bool {
    s.len() > 0 && s[0] == '/'
}

/// Whether two slashes stand next to each other somewhere in `s`.
pub open spec fn has_double_slash(s: Seq<char>) -> bool {
    exists|i: int| 0 <= i && i + 1 < s.len() && #[trigger] s[i] == '/' && s[i + 1] == '/'
}

/// Whether `s` may serve as a URI prefix: it neither begins with a slash nor
/// holds two slashes in a row. The empty text is accepted.
pub open spec fn prefix_accepted(s: Seq<char>) -> bool {
    !starts_with_slash(s) && !has_double_slash(s)
}

/// The port that a URL of the given scheme leaves out.
pub open spec fn default_port(tls: bool) -> u16 {
    if tls {
        DEFAULT_HTTPS_PORT
    } else {
        DEFAULT_HTTP_PORT
    }
}

/// Scheme and host of the browse URL.
pub open spec fn url_head(tls: bool) -> Seq<char> {
    if tls {
        "https://localhost"@
    } else {
        "http://localhost"@
    }
}

/// The port part of the browse URL: empty for the scheme's default port,
/// otherwise a colon and the port in decimal.
pub open spec fn port_segment(tls: bool, port: u16) -> Seq<char> {
    if port == default_port(tls) {
        Seq::<char>::empty()
    } else {
        ":"@ + decimal_text(port as nat)
    }
}

/// The path part of the browse URL: empty for the empty prefix, otherwise one
/// slash and the prefix as it stands.
pub open spec fn prefix_segment(prefix: Seq<char>) -> Seq<char> {
    if prefix.len() == 0 {
        Seq::<char>::empty()
    } else {
        "/"@ + prefix
    }
}

/// The URL under which a server on `port` that serves under `prefix` is
/// browsed from the same host: `scheme://localhost[:port][/prefix]`.
pub open spec fn browse_url(tls: bool, port: u16, prefix: Seq<char>) -> Seq<char> {
    url_head(tls) + port_segment(tls, port) + prefix_segment(prefix)
}

/// Decides whether `text` may serve as a URI prefix.
pub fn is_accepted_prefix(text: &str) -> (accepted: bool)
    ensures
        accepted == prefix_accepted(text@),
{
    let chars = chars_of(text);
    if chars.len() > 0 && chars[0] == '/' {
        return false;
    }
    let mut i: usize = 0;
    let mut after_slash = false;
    while i < chars.len()
        invariant
            i <= chars.len(),
            chars@ == text@,
            after_slash == (i > 0 && chars@[i - 1] == '/'),
            forall|j: int| 0 <= j && j + 1 < i ==> !(#[trigger] chars@[j] == '/' && chars@[j + 1] == '/'),
        decreases chars.len() - i,
    {
        let slash = chars[i] == '/';
        if slash && after_slash {
            assert(chars@[i - 1] == '/' && chars@[i - 1 + 1] == '/');
            return false;
        }
        after_slash = slash;
        i = i + 1;
    }
    true
}

/// Composes the browse URL for a server on `port` under `prefix`; `tls` says
/// whether the server speaks HTTPS.
pub fn compose_url(tls: bool, port: u16, prefix: &str) -> (url: String)
    ensures
        url@ == browse_url(tls, port, prefix@),
{
    let mut url = if tls {
        String::from_str("https://localhost")
    } else {
        String::from_str("http://localhost")
    };
    let default: u16 = if tls {
        DEFAULT_HTTPS_PORT
    } else {
        DEFAULT_HTTP_PORT
    };
    if port != default {
        url.append(":");
        let digits = u16_to_text(port);
        url.append(digits.as_str());
    }
    if prefix.unicode_len() > 0 {
        url.append("/");
        url.append(prefix);
    }
    assert(url@ =~= browse_url(tls, port, prefix@));
    url
}

/// A prefix can be read back from the path part of a URL.
proof fn lemma_prefix_segment_injective(left: Seq<char>, right: Seq<char>)
    requires
        prefix_segment(left) == prefix_segment(right),
    ensures
        left == right,
{
    reveal_strlit("/");
    if left.len() == 0 {
        assert(prefix_segment(right).len() == 0);
        assert(left =~= right);
    } else {
        assert(prefix_segment(left).len() == left.len() + 1);
        assert(left =~= prefix_segment(left).drop_first());
        assert(right =~= prefix_segment(right).drop_first());
    }
}

/// A run of digits that is followed by nothing or by a slash ends where the
/// first slash stands, so two such runs with equal continuations are equal.
proof fn lemma_digit_run_unique(d1: Seq<char>, q1: Seq<char>, d2: Seq<char>, q2: Seq<char>)
    requires
        d1 + prefix_segment(q1) == d2 + prefix_segment(q2),
        all_digits(d1),
        all_digits(d2),
    ensures
        d1 == d2,
        q1 == q2,
{
    reveal_strlit("/");
    let r = d1 + prefix_segment(q1);
    let s1 = prefix_segment(q1);
    let s2 = prefix_segment(q2);
    assert(r.len() == d1.len() + s1.len());
    assert(r.len() == d2.len() + s2.len());
    if d1.len() < d2.len() {
        let k = d1.len() as int;
        assert(s1.len() > 0);
        assert(r[k] == s1[0]);
        assert(s1[0] == '/');
        assert((d2 + s2)[k] == d2[k]);
        assert(is_digit(d2[k]));
    } else if d2.len() < d1.len() {
        let k = d2.len() as int;
        assert(s2.len() > 0);
        assert((d2 + s2)[k] == s2[0]);
        assert(s2[0] == '/');
        assert(r[k] == d1[k]);
        assert(is_digit(d1[k]));
    }
    assert(d1.len() == d2.len());
    assert(d1 =~= r.take(d1.len() as int));
    assert(d2 =~= (d2 + s2).take(d2.len() as int));
    assert(s1 =~= r.skip(d1.len() as int));
    assert(s2 =~= (d2 + s2).skip(d2.len() as int));
    lemma_prefix_segment_injective(q1, q2);
}

/// Port and prefix can be read back from what follows scheme and host.
proof fn lemma_url_tail_injective(
    tls: bool,
    port1: u16,
    prefix1: Seq<char>,
    port2: u16,
    prefix2: Seq<char>,
)
    requires
        port_segment(tls, port1) + prefix_segment(prefix1) == port_segment(tls, port2)
            + prefix_segment(prefix2),
    ensures
        port1 == port2,
        prefix1 == prefix2,
{
    reveal_strlit("/");
    reveal_strlit(":");
    let t1 = port_segment(tls, port1) + prefix_segment(prefix1);
    let t2 = port_segment(tls, port2) + prefix_segment(prefix2);
    let plain1 = port1 == default_port(tls);
    let plain2 = port2 == default_port(tls);
    if plain1 {
        assert(t1 =~= prefix_segment(prefix1));
    } else {
        assert(t1[0] == ':');
    }
    if plain2 {
        assert(t2 =~= prefix_segment(prefix2));
    } else {
        assert(t2[0] == ':');
    }
    if plain1 && !plain2 {
        assert(t1.len() > 0);
        assert(t1[0] == '/');
    }
    if !plain1 && plain2 {
        assert(t2.len() > 0);
        assert(t2[0] == '/');
    }
    assert(plain1 == plain2);
    if plain1 {
        lemma_prefix_segment_injective(prefix1, prefix2);
    } else {
        let d1 = decimal_text(port1 as nat);
        let d2 = decimal_text(port2 as nat);
        lemma_decimal_text_value(port1 as nat);
        lemma_decimal_text_value(port2 as nat);
        assert(d1 + prefix_segment(prefix1) =~= t1.drop_first());
        assert(d2 + prefix_segment(prefix2) =~= t2.drop_first());
        lemma_digit_run_unique(d1, prefix1, d2, prefix2);
        lemma_decimal_text_injective(port1 as nat, port2 as nat);
    }
}

/// Composing the browse URL loses nothing: two servers with the same URL use
/// the same scheme, the same port and the same prefix. Read the other way,
/// servers that differ in scheme, port or prefix are browsed under different
/// URLs.
pub proof fn lemma_browse_url_injective(
    tls1: bool,
    port1: u16,
    prefix1: Seq<char>,
    tls2: bool,
    port2: u16,
    prefix2: Seq<char>,
)
    requires
        browse_url(tls1, port1, prefix1) == browse_url(tls2, port2, prefix2),
    ensures
        tls1 == tls2,
        port1 == port2,
        prefix1 == prefix2,
{
    reveal_strlit("https://localhost");
    reveal_strlit("http://localhost");
    let u1 = browse_url(tls1, port1, prefix1);
    let u2 = browse_url(tls2, port2, prefix2);
    let t1 = port_segment(tls1, port1) + prefix_segment(prefix1);
    let t2 = port_segment(tls2, port2) + prefix_segment(prefix2);
    assert(u1 =~= url_head(tls1) + t1);
    assert(u2 =~= url_head(tls2) + t2);
    assert(u1[4] == url_head(tls1)[4]);
    assert(u2[4] == url_head(tls2)[4]);
    assert(tls1 == tls2);
    let n = url_head(tls1).len() as int;
    assert(t1 =~= u1.skip(n));
    assert(t2 =~= u2.skip(n));
    lemma_url_tail_injective(tls1, port1, prefix1, port2, prefix2);
}

} // verus!
