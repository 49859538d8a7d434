//! Locale resolution: a closed set of supported languages, a parse from an
//! explicit path token that never fails (unrecognized tokens fall back to the
//! default), and a coarse classification of a language-preference header by
//! substring markers, checked in a fixed priority order.

use vstd::prelude::*;

use crate::bytes::{bytes_eq, contains_bytes, contains_sub};

verus! {

/// The closed set of supported locales. Every request resolves to exactly
/// one member of this set; the default is `English`.
#[derive(Clone, Copy, Debug, PartialEq, Eq, Structural)]
pub enum Locale {
    SimplifiedChinese,
    Japanese,
    English,
}

/// The path token of each locale, as it appears in locale-qualified URLs.
pub open spec fn token_spec(l: Locale) -> Seq<u8> {
    match l {
        Locale::SimplifiedChinese => seq!['z' as u8, 'h' as u8],
        Locale::Japanese => seq!['j' as u8, 'p' as u8],
        Locale::English => seq!['e' as u8, 'n' as u8],
    }
}

/// The substring marker that classifies a language-preference header value.
/// The markers are the same bytes as the path tokens.
pub open spec fn marker_spec(l: Locale) -> Seq<u8> {
    token_spec(l)
}

/// What an explicit path token resolves to: one of the three tokens, or the
/// default locale for anything else. Parsing never fails.
pub open spec fn from_param_spec(t: Seq<u8>) -> Locale {
    if t == token_spec(Locale::SimplifiedChinese) {
        Locale::SimplifiedChinese
    } else if t == token_spec(Locale::Japanese) {
        Locale::Japanese
    } else if t == token_spec(Locale::English) {
        Locale::English
    } else {
        Locale::English
    }
}

/// What a header value resolves to: the Chinese marker is checked first,
/// then the Japanese one; a value containing neither falls back to the
/// default. Substring containment is deliberate: longer language codes that
/// happen to contain a marker also match.
pub open spec fn from_header_spec(h: Seq<u8>) -> Locale {
    if contains_sub(h, marker_spec(Locale::SimplifiedChinese)) {
        Locale::SimplifiedChinese
    } else if contains_sub(h, marker_spec(Locale::Japanese)) {
        Locale::Japanese
    } else {
        Locale::English
    }
}

/// Full resolution: an explicit token takes priority over the header; with
/// neither present the default locale is chosen. Total over its domain.
pub open spec fn resolve_spec(explicit: Option<Seq<u8>>, header: Option<Seq<u8>>) -> Locale {
    match explicit {
        Option::Some(t) => from_param_spec(t),
        Option::None => match header {
            Option::Some(h) => from_header_spec(h),
            Option::None => Locale::English,
        },
    }
}

/// The path token of each locale, as text for rendered links.
pub open spec fn token_chars_spec(l: Locale) -> Seq<char> {
    match l {
        Locale::SimplifiedChinese => "zh"@,
        Locale::Japanese => "jp"@,
        Locale::English => "en"@,
    }
}

impl Locale {
    /// The locale's path token as text.
    pub fn token_str(&self) -> (r: &'static str)
        ensures
            r@ == token_chars_spec(*self),
    {
        match self {
            Locale::SimplifiedChinese => "zh",
            Locale::Japanese => "jp",
            Locale::English => "en",
        }
    }

    /// The locale's path token as fresh bytes.
    pub fn token_bytes(&self) -> (r: Vec<u8>)
        ensures
            r@ == token_spec(*self),
    {
        let mut out: Vec<u8> = Vec::new();
        match self {
            Locale::SimplifiedChinese => {
                out.push('z' as u8);
                out.push('h' as u8);
            },
            Locale::Japanese => {
                out.push('j' as u8);
                out.push('p' as u8);
            },
            Locale::English => {
                out.push('e' as u8);
                out.push('n' as u8);
            },
        }
        proof {
            assert(out@ =~= token_spec(*self));
        }
        out
    }

    /// Parses an explicit path token; unrecognized tokens silently fall back
    /// to the default locale.
    pub fn from_param(t: &Vec<u8>) -> (l: Locale)
        ensures
            l == from_param_spec(t@),
    {
        let zh = Locale::SimplifiedChinese.token_bytes();
        let jp = Locale::Japanese.token_bytes();
        let en = Locale::English.token_bytes();
        if bytes_eq(t, &zh) {
            Locale::SimplifiedChinese
        } else if bytes_eq(t, &jp) {
            Locale::Japanese
        } else if bytes_eq(t, &en) {
            Locale::English
        } else {
            Locale::English
        }
    }

    /// Classifies a language-preference header value by its markers, in the
    /// fixed priority order.
    pub fn from_header(h: &Vec<u8>) -> (l: Locale)
        ensures
            l == from_header_spec(h@),
    {
        let zh = Locale::SimplifiedChinese.token_bytes();
        let jp = Locale::Japanese.token_bytes();
        if contains_bytes(h, &zh) {
            Locale::SimplifiedChinese
        } else if contains_bytes(h, &jp) {
            Locale::Japanese
        } else {
            Locale::English
        }
    }
}

/// Resolves the active locale for a request: the explicit path token, if
/// any, takes priority over the header value; both fall back to the default
/// rather than failing.
pub fn resolve(explicit: Option<&Vec<u8>>, header: Option<&Vec<u8>>) -> (l: Locale)
    ensures
        l == resolve_spec(
            match explicit {
                Option::Some(t) => Option::Some(t@),
                Option::None => Option::None,
            },
            match header {
                Option::Some(h) => Option::Some(h@),
                Option::None => Option::None,
            },
        ),
{
    match explicit {
        Option::Some(t) => Locale::from_param(t),
        Option::None => match header {
            Option::Some(h) => Locale::from_header(h),
            Option::None => Locale::English,
        },
    }
}

/// Resolution is total and lands in the closed locale set: whatever the
/// inputs, the result is one of the three supported locales, never an error.
pub proof fn lemma_resolve_closed(explicit: Option<Seq<u8>>, header: Option<Seq<u8>>)
    ensures
        resolve_spec(explicit, header) == Locale::SimplifiedChinese || resolve_spec(
            explicit,
            header,
        ) == Locale::Japanese || resolve_spec(explicit, header) == Locale::English,
{
}

/// An explicit token that is none of the recognized tokens resolves to the
/// default locale, whatever the header says.
pub proof fn lemma_unrecognized_token_falls_back(t: Seq<u8>, header: Option<Seq<u8>>)
    requires
        t != token_spec(Locale::SimplifiedChinese),
        t != token_spec(Locale::Japanese),
        t != token_spec(Locale::English),
    ensures
        resolve_spec(Option::Some(t), header) == Locale::English,
{
}

/// A header value containing none of the known markers resolves to the
/// default locale.
pub proof fn lemma_unmarked_header_falls_back(h: Seq<u8>)
    requires
        !contains_sub(h, marker_spec(Locale::SimplifiedChinese)),
        !contains_sub(h, marker_spec(Locale::Japanese)),
    ensures
        resolve_spec(Option::None, Option::Some(h)) == Locale::English,
{
}

} // verus!
