//! Verified string utilities for the naming convention and the return-type
//! classification: suffix tests, substring search, and the suffix-stripping
//! transform that derives the service and client names.

use vstd::prelude::*;
use vstd::string::*;

verus! {

/// The suffix every declared interface name must end with.
pub open spec fn protocol_suffix() -> Seq<char> {
    "Protocol"@
}

/// The role suffix appended to the stripped name to form the server wrapper name.
pub open spec fn service_suffix() -> Seq<char> {
    "Service"@
}

/// The role suffix appended to the stripped name to form the client wrapper name.
pub open spec fn client_suffix() -> Seq<char> {
    "Client"@
}

/// The substring whose presence in a return type's textual rendering marks
/// the method as fallible.
pub open spec fn fallible_marker() -> Seq<char> {
    "Result"@
}

/// `s` ends with `suffix`.
pub open spec fn spec_ends_with(s: Seq<char>, suffix: Seq<char>) -> bool {
    suffix.len() <= s.len() && s.subrange(s.len() - suffix.len(), s.len() as int) == suffix
}

/// `needle` occurs in `hay` starting at position `i`.
pub open spec fn occurs_at(hay: Seq<char>, needle: Seq<char>, i: int) -> bool {
    0 <= i && i + needle.len() <= hay.len() && hay.subrange(i, i + needle.len()) == needle
}

/// `needle` occurs somewhere in `hay`.
pub open spec fn spec_contains(hay: Seq<char>, needle: Seq<char>) -> bool {
    exists|i: int| occurs_at(hay, needle, i)
}

/// The result of removing every trailing occurrence of `suffix` from `s`.
pub open spec fn strip_all_suffix(s: Seq<char>, suffix: Seq<char>) -> Seq<char>
    decreases s.len(),
{
    if suffix.len() > 0 && spec_ends_with(s, suffix) {
        strip_all_suffix(s.take(s.len() - suffix.len()), suffix)
    } else {
        s
    }
}

/// The stripped interface name: the declared name with every trailing
/// protocol suffix removed.
pub open spec fn stripped_name(name: Seq<char>) -> Seq<char> {
    strip_all_suffix(name, protocol_suffix())
}

/// Character-wise string equality.
pub fn str_eq(a: &str, b: &str) -> (r: bool)
    ensures
        r == (a@ == b@),
{
    let la = a.unicode_len();
    let lb = b.unicode_len();
    if la != lb {
        return false;
    }
    let mut i: usize = 0;
    while i < la
        invariant
            i <= la,
            la == a@.len(),
            lb == b@.len(),
            la == lb,
            forall|j: int| 0 <= j < i ==> a@[j] == b@[j],
        decreases la - i,
    {
        let ca = a.get_char(i);
        let cb = b.get_char(i);
        if ca != cb {
            assert(a@[i as int] != b@[i as int]);
            return false;
        }
        i += 1;
    }
    proof {
        assert(a@ =~= b@);
    }
    true
}

/// Whether the prefix `s[..k]` ends with the protocol suffix.
fn prefix_ends_with_protocol(s: &str, k: usize) -> (r: bool)
    requires
        k <= s@.len(),
    ensures
        r == spec_ends_with(s@.take(k as int), protocol_suffix()),
{
    let suffix = "Protocol";
    let m = suffix.unicode_len();
    if m > k {
        return false;
    }
    let mut j: usize = 0;
    while j < m
        invariant
            j <= m,
            m <= k,
            k <= s@.len(),
            m == suffix@.len(),
            suffix@ == protocol_suffix(),
            forall|t: int| 0 <= t < j ==> suffix@[t] == s@[k - m + t],
        decreases m - j,
    {
        let cs = s.get_char(k - m + j);
        let ct = suffix.get_char(j);
        if cs != ct {
            proof {
                let p = s@.take(k as int);
                if spec_ends_with(p, suffix@) {
                    assert(p.subrange(k - m, k as int) == suffix@);
                    assert(p.subrange(k - m, k as int)[j as int] == p[k - m + j]);
                    assert(p[k - m + j] == s@[k - m + j]);
                    assert(false);
                }
            }
            return false;
        }
        j += 1;
    }
    proof {
        let p = s@.take(k as int);
        assert(p.subrange(k - m, k as int) =~= suffix@) by {
            assert forall|t: int| 0 <= t < m implies p.subrange(k - m, k as int)[t]
                == suffix@[t] by {
                assert(p.subrange(k - m, k as int)[t] == p[k - m + t]);
                assert(p[k - m + t] == s@[k - m + t]);
            }
        }
    }
    true
}

/// Whether `name` follows the naming convention: it ends with the protocol suffix.
pub fn is_protocol_name(name: &str) -> (r: bool)
    ensures
        r == spec_ends_with(name@, protocol_suffix()),
{
    let n = name.unicode_len();
    proof {
        assert(name@.take(n as int) =~= name@);
    }
    prefix_ends_with_protocol(name, n)
}

/// Removes every trailing occurrence of the protocol suffix from `s`.
pub fn strip_protocol_suffix<'a>(s: &'a str) -> (r: &'a str)
    ensures
        r@ == stripped_name(s@),
{
    let n = s.unicode_len();
    let mut k: usize = n;
    proof {
        assert(s@.take(n as int) =~= s@);
    }
    let mut more = prefix_ends_with_protocol(s, k);
    while more
        invariant
            k <= n,
            n == s@.len(),
            more == spec_ends_with(s@.take(k as int), protocol_suffix()),
            stripped_name(s@) == stripped_name(s@.take(k as int)),
        decreases k,
    {
        proof {
            reveal_strlit("Protocol");
            assert(protocol_suffix().len() == 8);
            let p = s@.take(k as int);
            assert(p.len() == k);
            assert(p.take(k - 8) =~= s@.take(k - 8));
        }
        k = k - 8;
        more = prefix_ends_with_protocol(s, k);
    }
    let r = s.substring_char(0, k);
    proof {
        let p = s@.take(k as int);
        assert(r@ =~= p);
        assert(stripped_name(s@) == p);
    }
    r
}

/// The derived server wrapper name: the stripped name plus the service suffix.
pub fn service_name_of(name: &str) -> (r: String)
    ensures
        r@ == stripped_name(name@) + service_suffix(),
{
    let stripped = strip_protocol_suffix(name);
    let mut out = stripped.to_owned();
    out.append("Service");
    out
}

/// The derived client wrapper name: the stripped name plus the client suffix.
pub fn client_name_of(name: &str) -> (r: String)
    ensures
        r@ == stripped_name(name@) + client_suffix(),
{
    let stripped = strip_protocol_suffix(name);
    let mut out = stripped.to_owned();
    out.append("Client");
    out
}

/// Whether `needle` occurs in `hay` starting at position `i`.
fn matches_at(hay: &str, needle: &str, i: usize) -> (r: bool)
    requires
        i + needle@.len() <= hay@.len(),
    ensures
        r == occurs_at(hay@, needle@, i as int),
{
    let m = needle.unicode_len();
    let lh = hay.unicode_len();
    let mut j: usize = 0;
    while j < m
        invariant
            j <= m,
            m == needle@.len(),
            lh == hay@.len(),
            i + m <= lh,
            forall|t: int| 0 <= t < j ==> needle@[t] == hay@[i + t],
        decreases m - j,
    {
        let ch = hay.get_char(i + j);
        let cn = needle.get_char(j);
        if ch != cn {
            proof {
                if occurs_at(hay@, needle@, i as int) {
                    assert(hay@.subrange(i as int, i + m) == needle@);
                    assert(hay@.subrange(i as int, i + m)[j as int] == hay@[i + j]);
                    assert(false);
                }
            }
            return false;
        }
        j += 1;
    }
    proof {
        assert(hay@.subrange(i as int, i + m) =~= needle@) by {
            assert forall|t: int| 0 <= t < m implies hay@.subrange(i as int, i + m)[t]
                == needle@[t] by {
                assert(hay@.subrange(i as int, i + m)[t] == hay@[i + t]);
            }
        }
    }
    true
}

/// Substring search: whether `needle` occurs anywhere in `hay`.
pub fn str_contains(hay: &str, needle: &str) -> (r: bool)
    ensures
        r == spec_contains(hay@, needle@),
{
    let lh = hay.unicode_len();
    let ln = needle.unicode_len();
    if ln > lh {
        proof {
            if spec_contains(hay@, needle@) {
                let i = choose|i: int| occurs_at(hay@, needle@, i);
                assert(false);
            }
        }
        return false;
    }
    if ln == 0 {
        proof {
            assert(hay@.subrange(0, 0) =~= needle@);
            assert(occurs_at(hay@, needle@, 0));
        }
        return true;
    }
    let mut i: usize = 0;
    while i <= lh - ln
        invariant
            1 <= ln <= lh,
            lh == hay@.len(),
            ln == needle@.len(),
            i <= lh - ln + 1,
            forall|k: int| 0 <= k < i ==> !occurs_at(hay@, needle@, k),
        decreases lh - ln + 1 - i,
    {
        if matches_at(hay, needle, i) {
            assert(occurs_at(hay@, needle@, i as int));
            return true;
        }
        i += 1;
    }
    proof {
        if spec_contains(hay@, needle@) {
            let k = choose|k: int| occurs_at(hay@, needle@, k);
            assert(k + ln <= lh);
            assert(0 <= k < i);
            assert(false);
        }
    }
    false
}

} // verus!
