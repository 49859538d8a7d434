//! The request cores behind the routes: create a paste from raw bytes or
//! from the form field, retrieve a paste as raw bytes or as a page model,
//! the landing page, the hit counter and the robots policy. Each function
//! takes plain values; transport and rendering stay with the caller.

use vstd::prelude::*;

use crate::PasteError;
use crate::bytes::{append_bytes, dec_digits, decimal_digits};
use crate::compose::{build_share_url, share_url_spec, slash};
use crate::ident::{allocate, valid_id, validate_id};
use crate::locale::Locale;
use crate::store::Store;

verus! {

/// The line terminator of the plain create response.
pub open spec fn newline() -> u8 {
    '\n' as u8
}

/// What the page interface shows: the share banner with the canonical URL
/// and the stored content when the identifier resolves, or the empty
/// new-paste state, always under the resolved locale.
pub struct PageView {
    pub share_url: Option<Vec<u8>>,
    pub content: Option<Vec<u8>>,
    pub locale: Locale,
}

/// A successful create through the plain interface: the fresh identifier
/// and the newline-terminated response body holding the share URL.
pub struct CreatedPaste {
    pub id: Vec<u8>,
    pub response: Vec<u8>,
}

/// A successful create through the form interface: the fresh identifier and
/// the redirect target of its retrieval page.
pub struct CreatedRedirect {
    pub id: Vec<u8>,
    pub location: Vec<u8>,
}

/// The in-memory hit counter of the landing page; monotone, saturating at
/// its capacity.
pub struct HitCount {
    pub count: u64,
}

/// The body answered by the plain create route: the share URL, newline
/// terminated.
pub open spec fn api_response_spec(host: Seq<u8>, id: Seq<u8>) -> Seq<u8> {
    share_url_spec(host, id) + seq![newline()]
}

/// The redirect target after a form create: the retrieval path of the fresh
/// identifier.
pub open spec fn redirect_spec(id: Seq<u8>) -> Seq<u8> {
    seq![slash()] + id
}

/// Plain create: deposits the raw request body under a freshly allocated
/// identifier and answers the canonical share URL, newline terminated. The
/// identifier was free at the moment it was claimed; allocation and deposit
/// are one operation on the store, with no gap for a rival write. Fails
/// only when the bounded allocator found no free identifier, leaving the
/// store unchanged.
pub fn upload_api(
    store: &mut Store,
    host: &Vec<u8>,
    data: Vec<u8>,
    length: usize,
    attempts: usize,
) -> (r: Result<CreatedPaste, PasteError>)
    requires
        old(store).wf(),
    ensures
        final(store).wf(),
        r matches Ok(c) ==> valid_id(c.id@, length as nat) && !old(store)@.contains_key(c.id@)
            && final(store)@ == old(store)@.insert(c.id@, data@) && c.response@
            == api_response_spec(host@, c.id@),
        r matches Err(e) ==> e == PasteError::CapacityExhausted && final(store)@ == old(store)@,
{
    let id = match allocate(store, length, attempts) {
        Result::Ok(id) => id,
        Result::Err(e) => {
            return Result::Err(e);
        },
    };
    let claimed = store.claim(&id, data);
    assert(claimed);
    let mut response = build_share_url(host, &id);
    response.push(10);
    proof {
        assert(response@ =~= api_response_spec(host@, id@));
    }
    Result::Ok(CreatedPaste { id, response })
}

/// Form create: deposits the submitted text under a freshly allocated
/// identifier and answers the redirect target of its retrieval page. Same
/// store obligations as the plain variant.
pub fn upload(store: &mut Store, text: Vec<u8>, length: usize, attempts: usize) -> (r: Result<
    CreatedRedirect,
    PasteError,
>)
    requires
        old(store).wf(),
    ensures
        final(store).wf(),
        r matches Ok(c) ==> valid_id(c.id@, length as nat) && !old(store)@.contains_key(c.id@)
            && final(store)@ == old(store)@.insert(c.id@, text@) && c.location@ == redirect_spec(
            c.id@,
        ),
        r matches Err(e) ==> e == PasteError::CapacityExhausted && final(store)@ == old(store)@,
{
    let id = match allocate(store, length, attempts) {
        Result::Ok(id) => id,
        Result::Err(e) => {
            return Result::Err(e);
        },
    };
    let claimed = store.claim(&id, text);
    assert(claimed);
    let mut location: Vec<u8> = Vec::new();
    location.push(47);
    append_bytes(&mut location, &id);
    proof {
        assert(location@ =~= redirect_spec(id@));
    }
    Result::Ok(CreatedRedirect { id, location })
}

/// Plain retrieve: the raw stored bytes, with no interpretation. An
/// identifier that fails alphabet or length validation is rejected before
/// any storage is addressed; a well-formed identifier with no entry is
/// distinctly `NotFound`.
pub fn retrieve_api(store: &Store, id: &Vec<u8>, length: usize) -> (r: Result<
    Vec<u8>,
    PasteError,
>)
    requires
        store.wf(),
    ensures
        !valid_id(id@, length as nat) ==> r == Result::<Vec<u8>, PasteError>::Err(
            PasteError::InvalidIdentifier,
        ),
        valid_id(id@, length as nat) && !store@.contains_key(id@) ==> r == Result::<
            Vec<u8>,
            PasteError,
        >::Err(PasteError::NotFound),
        valid_id(id@, length as nat) && store@.contains_key(id@) ==> (r matches Ok(v) && v@
            == store@[id@]),
{
    if !validate_id(id, length) {
        return Result::Err(PasteError::InvalidIdentifier);
    }
    store.read(id)
}

/// Page retrieve: the page model for an identifier. A resolvable identifier
/// shows its content and the share banner with the canonical URL; anything
/// else — a malformed identifier as much as an absent one — shows the empty
/// new-paste state rather than an error.
pub fn retrieve(store: &Store, host: &Vec<u8>, id: &Vec<u8>, lang: Locale, length: usize) -> (p:
    PageView)
    requires
        store.wf(),
    ensures
        p.locale == lang,
        valid_id(id@, length as nat) && store@.contains_key(id@) ==> (p.share_url matches Some(u)
            && u@ == share_url_spec(host@, id@)) && (p.content matches Some(c) && c@
            == store@[id@]),
        !(valid_id(id@, length as nat) && store@.contains_key(id@)) ==> p.share_url is None
            && p.content is None,
{
    if validate_id(id, length) {
        match store.read(id) {
            Result::Ok(v) => PageView {
                share_url: Option::Some(build_share_url(host, id)),
                content: Option::Some(v),
                locale: lang,
            },
            Result::Err(_) => PageView {
                share_url: Option::None,
                content: Option::None,
                locale: lang,
            },
        }
    } else {
        PageView { share_url: Option::None, content: Option::None, locale: lang }
    }
}

/// The landing page: counts the visit and shows the empty new-paste state
/// under the resolved locale.
pub fn index(hits: &mut HitCount, lang: Locale) -> (p: PageView)
    ensures
        final(hits).count == if old(hits).count < u64::MAX {
            old(hits).count + 1
        } else {
            u64::MAX as int
        },
        p.share_url is None,
        p.content is None,
        p.locale == lang,
{
    if hits.count < u64::MAX {
        hits.count = hits.count + 1;
    }
    PageView { share_url: Option::None, content: Option::None, locale: lang }
}

/// The hit counter rendered as decimal digits.
pub fn hitcount(hits: &HitCount) -> (r: Vec<u8>)
    ensures
        r@ == dec_digits(hits.count as nat),
{
    decimal_digits(hits.count)
}

/// The robots policy body.
pub open spec fn robots_text() -> Seq<char> {
    "\n    User-agent: *\n    Allow: /\n    "@
}

/// The robots policy route: a fixed, permissive policy.
pub fn robots() -> (r: &'static str)
    ensures
        r@ == robots_text(),
{
    "\n    User-agent: *\n    Allow: /\n    "
}

} // verus!
