//! Composition of shareable URLs: the canonical share URL for a fresh
//! paste, its locale-qualified variant, and the locale-switch links that
//! recompose the identifier shown on the current page under another locale.

use vstd::prelude::*;

use crate::bytes::append_bytes;
use crate::locale::{Locale, token_spec};

verus! {

/// The path separator.
pub open spec fn slash() -> u8 {
    '/' as u8
}

/// The canonical share URL of `id`: host, separator, identifier.
pub open spec fn share_url_spec(host: Seq<u8>, id: Seq<u8>) -> Seq<u8> {
    host + seq![slash()] + id
}

/// The locale-qualified share URL of `id`: host, locale token, identifier.
pub open spec fn localized_url_spec(host: Seq<u8>, l: Locale, id: Seq<u8>) -> Seq<u8> {
    host + seq![slash()] + token_spec(l) + seq![slash()] + id
}

/// The bare root path of a locale.
pub open spec fn locale_root_spec(l: Locale) -> Seq<u8> {
    seq![slash()] + token_spec(l)
}

/// The path segment after the last separator of `u`: empty if `u` ends in a
/// separator, absent if `u` holds no separator at all.
pub open spec fn tail_segment(u: Seq<u8>) -> Option<Seq<u8>>
    decreases u.len(),
{
    if u.len() == 0 {
        Option::None
    } else if u.last() == slash() {
        Option::Some(Seq::empty())
    } else {
        match tail_segment(u.drop_last()) {
            Option::Some(s) => Option::Some(s.push(u.last())),
            Option::None => Option::None,
        }
    }
}

/// The locale-switch link: when the current URL carries a trailing path
/// segment (the identifier on display), that segment recomposed under the
/// target locale; with no current URL, or none to split off, the bare
/// locale root.
pub open spec fn switch_link_spec(url: Option<Seq<u8>>, l: Locale) -> Seq<u8> {
    match url {
        Option::Some(u) => match tail_segment(u) {
            Option::Some(seg) => if seg.len() > 0 {
                locale_root_spec(l) + seq![slash()] + seg
            } else {
                locale_root_spec(l)
            },
            Option::None => locale_root_spec(l),
        },
        Option::None => locale_root_spec(l),
    }
}

/// When a separator stands at `k` and none stands after it, the trailing
/// segment is exactly the bytes after `k`.
proof fn lemma_tail_segment_at(u: Seq<u8>, k: int)
    requires
        0 <= k < u.len(),
        u[k] == slash(),
        forall|j: int| k < j < u.len() ==> u[j] != slash(),
    ensures
        tail_segment(u) == Option::Some(u.subrange(k + 1, u.len() as int)),
    decreases u.len(),
{
    if k == u.len() - 1 {
        assert(u.subrange(k + 1, u.len() as int) =~= Seq::empty());
    } else {
        lemma_tail_segment_at(u.drop_last(), k);
        assert(u.drop_last().subrange(k + 1, u.len() - 1).push(u.last()) =~= u.subrange(
            k + 1,
            u.len() as int,
        ));
    }
}

/// A URL with no separator has no trailing segment to split off.
proof fn lemma_tail_segment_none(u: Seq<u8>)
    requires
        forall|j: int| 0 <= j < u.len() ==> u[j] != slash(),
    ensures
        tail_segment(u) == Option::None::<Seq<u8>>,
    decreases u.len(),
{
    if u.len() > 0 {
        lemma_tail_segment_none(u.drop_last());
    }
}

/// The position of the last separator of `u`, if any.
fn last_slash(u: &Vec<u8>) -> (r: Option<usize>)
    ensures
        match r {
            Option::Some(k) => k < u@.len() && u@[k as int] == slash() && forall|j: int|
                k < j < u@.len() ==> u@[j] != slash(),
            Option::None => forall|j: int| 0 <= j < u@.len() ==> u@[j] != slash(),
        },
{
    let n = u.len();
    let mut i: usize = n;
    while i > 0
        invariant
            i <= n,
            n == u@.len(),
            forall|j: int| i <= j < n ==> u@[j] != slash(),
        decreases i,
    {
        if u[i - 1] == 47 {
            return Option::Some(i - 1);
        }
        i = i - 1;
    }
    Option::None
}

/// The bare root path of a locale: separator, then its token.
pub fn locale_root(lang: &Locale) -> (r: Vec<u8>)
    ensures
        r@ == locale_root_spec(*lang),
{
    let mut out: Vec<u8> = Vec::new();
    out.push(47);
    let token = lang.token_bytes();
    append_bytes(&mut out, &token);
    proof {
        assert(out@ =~= locale_root_spec(*lang));
    }
    out
}

/// The canonical share URL returned to a paste's creator. It must match the
/// retrieval route exactly: host, separator, identifier.
pub fn build_share_url(host: &Vec<u8>, id: &Vec<u8>) -> (r: Vec<u8>)
    ensures
        r@ == share_url_spec(host@, id@),
{
    let mut out: Vec<u8> = Vec::new();
    append_bytes(&mut out, host);
    out.push(47);
    append_bytes(&mut out, id);
    proof {
        assert(out@ =~= share_url_spec(host@, id@));
    }
    out
}

/// The locale-qualified share URL: host, locale token, identifier.
pub fn build_localized_url(host: &Vec<u8>, lang: &Locale, id: &Vec<u8>) -> (r: Vec<u8>)
    ensures
        r@ == localized_url_spec(host@, *lang, id@),
{
    let mut out: Vec<u8> = Vec::new();
    append_bytes(&mut out, host);
    out.push(47);
    let token = lang.token_bytes();
    append_bytes(&mut out, &token);
    out.push(47);
    append_bytes(&mut out, id);
    proof {
        assert(out@ =~= localized_url_spec(host@, *lang, id@));
    }
    out
}

/// The link that switches the current page to `lang`: the trailing path
/// segment of the current URL, if there is a nonempty one, recomposed under
/// the target locale's root; otherwise the bare locale root.
pub fn language_switch_link(url: &Option<Vec<u8>>, lang: &Locale) -> (r: Vec<u8>)
    ensures
        r@ == switch_link_spec(
            match url {
                Option::Some(u) => Option::Some(u@),
                Option::None => Option::None,
            },
            *lang,
        ),
{
    match url {
        Option::Some(u) => {
            match last_slash(u) {
                Option::Some(k) => {
                    proof {
                        lemma_tail_segment_at(u@, k as int);
                    }
                    let n = u.len();
                    if k < n - 1 {
                        let mut out = locale_root(lang);
                        out.push(47);
                        let ghost prefix = out@;
                        let mut j: usize = k + 1;
                        while j < n
                            invariant
                                k + 1 <= j <= n,
                                n == u@.len(),
                                out@ == prefix + u@.subrange(k + 1 as int, j as int),
                            decreases n - j,
                        {
                            out.push(u[j]);
                            proof {
                                assert(prefix + u@.subrange(k + 1 as int, j as int) + seq![
                                    u@[j as int]] =~= prefix + u@.subrange(
                                    k + 1 as int,
                                    j + 1 as int,
                                ));
                            }
                            j = j + 1;
                        }
                        proof {
                            assert(out@ =~= switch_link_spec(Option::Some(u@), *lang));
                        }
                        out
                    } else {
                        locale_root(lang)
                    }
                },
                Option::None => {
                    proof {
                        lemma_tail_segment_none(u@);
                    }
                    locale_root(lang)
                },
            }
        },
        Option::None => locale_root(lang),
    }
}

} // verus!
