//! Pagination of list endpoints: numeric pages (`?page=`), seek keys
//! (`?seek=`, `?seek=-` for backward), page sizes (`?per_page=`), and the
//! parameters of the neighbouring pages.
use crate::query_params::{query_entries, single_query_param};
use crate::text::{
    chars_of, decimal, decimal_string, owned, push_decimal, push_str, starts_with_str, string_of,
    has_substring, contains_str,
};
use base64::Engine;
use indexmap::IndexMap;
use vstd::prelude::*;

verus! {

pub const MAX_PAGE_BEFORE_SUSPECTED_BOT: u32 = 10;
pub const DEFAULT_PER_PAGE: i64 = 10;
pub const MAX_PER_PAGE: i64 = 100;

// ---------------------------------------------------------------------------
// Seek keys: base64 (URL-safe alphabet, no padding) over JSON bytes.
// ---------------------------------------------------------------------------

/// What `URL_SAFE_NO_PAD.encode` of the `base64` crate returns for these bytes.
pub uninterp spec fn base64_url_encoded(bytes: Seq<u8>) -> Seq<char>;

/// What `URL_SAFE_NO_PAD.decode` of the `base64` crate returns for this text:
/// the bytes, or `None` where it reports a `DecodeError`.
pub uninterp spec fn base64_url_decoded(text: Seq<char>) -> Option<Seq<u8>>;

/// `base64::engine::general_purpose::URL_SAFE_NO_PAD.encode`: names the
/// result, and states that decoding it with the same engine gives the bytes
/// back. The encoder panics when the output length overflows `usize`, which
/// the bound in `requires` rules out.
#[verifier::external_body]
fn base64_url_encode(bytes: &[u8]) -> (s: String)
    requires
        bytes@.len() <= usize::MAX / 2,
    ensures
        s@ == base64_url_encoded(bytes@),
        base64_url_decoded(s@) == Some(bytes@),
{
    base64::engine::general_purpose::URL_SAFE_NO_PAD.encode(bytes)
}

/// `base64::engine::general_purpose::URL_SAFE_NO_PAD.decode`: the decoded
/// bytes, or `None` where the crate reports an error.
#[verifier::external_body]
fn base64_url_decode(text: &str) -> (r: Option<Vec<u8>>)
    ensures
        match r {
            Some(v) => base64_url_decoded(text@) == Some(v@),
            None => base64_url_decoded(text@) is None,
        },
{
    base64::engine::general_purpose::URL_SAFE_NO_PAD.decode(text.as_bytes()).ok()
}

/// Encodes the JSON bytes of a seek key as the text of a `?seek=` parameter.
///
/// The key is base64-encoded to hint that it shouldn't be manually
/// constructed.
pub fn encode_seek(json: &[u8]) -> (s: String)
    requires
        json@.len() <= usize::MAX / 2,
    ensures
        s@ == base64_url_encoded(json@),
        base64_url_decoded(s@) == Some(json@),
{
    base64_url_encode(json)
}

/// Decodes a seek key previously encoded with [`encode_seek`] into its JSON
/// bytes; `None` where the text is not valid base64.
pub fn decode_seek(seek: &str) -> (r: Option<Vec<u8>>)
    ensures
        match r {
            Some(v) => base64_url_decoded(seek@) == Some(v@),
            None => base64_url_decoded(seek@) is None,
        },
{
    base64_url_decode(seek)
}

/// The seek key of a request, still encoded.
#[derive(Debug, Clone, PartialEq, Eq)]
pub struct RawSeekPayload(pub String);

/// A seek key that is not valid base64 ("invalid seek parameter").
#[derive(Debug, Clone, Copy, PartialEq, Eq)]
pub struct InvalidSeekParameter;

impl InvalidSeekParameter {
    /// The text of the error response.
    pub fn message(&self) -> (s: String)
        ensures
            s@ == "invalid seek parameter"@,
    {
        owned("invalid seek parameter")
    }
}

impl RawSeekPayload {
    /// The JSON bytes of the seek key.
    pub fn decode(&self) -> (r: Result<Vec<u8>, InvalidSeekParameter>)
        ensures
            match r {
                Ok(v) => base64_url_decoded(self.0@) == Some(v@),
                Err(_) => base64_url_decoded(self.0@) is None,
            },
    {
        match decode_seek(self.0.as_str()) {
            Some(v) => Ok(v),
            None => Err(InvalidSeekParameter),
        }
    }

    pub fn is_empty(&self) -> (r: bool)
        ensures
            r == (self.0@.len() == 0),
    {
        self.0.as_str().is_empty()
    }
}

// ---------------------------------------------------------------------------
// Pages and options
// ---------------------------------------------------------------------------

#[derive(Debug, Clone, PartialEq, Eq)]
pub enum Page {
    Numeric(u32),
    Seek(RawSeekPayload),
    SeekBackward(RawSeekPayload),
    Unspecified,
}

/// A page as the contracts speak of it.
pub enum PageView {
    Numeric(u32),
    Seek(Seq<char>),
    SeekBackward(Seq<char>),
    Unspecified,
}

impl View for Page {
    type V = PageView;

    open spec fn view(&self) -> PageView {
        match self {
            Page::Numeric(n) => PageView::Numeric(*n),
            Page::Seek(raw) => PageView::Seek(raw.0@),
            Page::SeekBackward(raw) => PageView::SeekBackward(raw.0@),
            Page::Unspecified => PageView::Unspecified,
        }
    }
}

impl Page {
    /// The encoded seek key that a `seek!`-generated decoder reads: that of a
    /// forward or backward seek page with a non-empty key.
    pub fn seek_payload(&self) -> (r: Option<&RawSeekPayload>)
        ensures
            match self@ {
                PageView::Seek(k) => if k.len() > 0 {
                    r matches Some(p) && p.0@ == k
                } else {
                    r is None
                },
                PageView::SeekBackward(k) => if k.len() > 0 {
                    r matches Some(p) && p.0@ == k
                } else {
                    r is None
                },
                _ => r is None,
            },
    {
        match self {
            Page::Seek(raw) => if raw.is_empty() { None } else { Some(raw) },
            Page::SeekBackward(raw) => if raw.is_empty() { None } else { Some(raw) },
            _ => None,
        }
    }
}

#[derive(Debug, Clone)]
pub struct PaginationOptions {
    pub page: Page,
    pub per_page: i64,
}

pub struct OptionsView {
    pub page: PageView,
    pub per_page: i64,
}

impl View for PaginationOptions {
    type V = OptionsView;

    open spec fn view(&self) -> OptionsView {
        OptionsView { page: self.page@, per_page: self.per_page }
    }
}

impl PaginationOptions {
    pub fn builder() -> (b: PaginationOptionsBuilder)
        ensures
            !b.limit_page_numbers,
            b.enable_pages,
            !b.enable_seek,
            !b.enable_seek_backward,
    {
        PaginationOptionsBuilder {
            limit_page_numbers: false,
            enable_pages: true,
            enable_seek: false,
            enable_seek_backward: false,
        }
    }

    /// The row offset of a numeric page: `(page - 1) * per_page`.
    pub fn offset(&self) -> (r: Option<i64>)
        requires
            self.page is Numeric ==> self.page->Numeric_0 >= 1 && i64::MIN <= (
            self.page->Numeric_0 - 1) * self.per_page <= i64::MAX,
        ensures
            match self.page {
                Page::Numeric(p) => r == Some(((p - 1) * self.per_page) as i64),
                _ => r is None,
            },
    {
        if let Page::Numeric(p) = self.page {
            Some((p - 1) as i64 * self.per_page)
        } else {
            None
        }
    }

    pub fn is_backward(&self) -> (r: bool)
        ensures
            r == (self.page is SeekBackward),
    {
        matches!(self.page, Page::SeekBackward(_))
    }

    pub fn is_explicit(&self) -> (r: bool)
        ensures
            r == (self.page is Numeric),
    {
        matches!(self.page, Page::Numeric(_))
    }
}

/// The pagination parameters of a request's query string. `page` and
/// `per_page` must be non-zero: [`PaginationOptionsBuilder::gather`] refuses
/// a zero as the query-string deserializer does.
#[derive(Debug, Clone)]
pub struct PaginationQueryParams {
    pub page: Option<u32>,
    pub per_page: Option<u32>,
    pub seek: Option<String>,
}

/// Why a request's pagination parameters were refused (a `400 Bad Request`).
#[derive(Debug, Clone, Copy, PartialEq, Eq)]
pub enum PaginationError {
    BothPageAndSeek,
    PagesUnsupported,
    PageUnavailable(u32),
    SeekBackwardUnsupported,
    SeekUnsupported,
    TooManyItems,
    /// `?page=0`: the page number must be non-zero.
    ZeroPage,
    /// `?per_page=0`: the page size must be non-zero.
    ZeroPerPage,
}

/// The text of each refusal.
pub open spec fn pagination_error_message(e: PaginationError) -> Seq<char> {
    match e {
        PaginationError::BothPageAndSeek => "providing both ?page= and ?seek= is unsupported"@,
        PaginationError::PagesUnsupported => "?page= is not supported for this request"@,
        PaginationError::PageUnavailable(n) => "Page "@ + decimal(n as nat)
            + " is unavailable for performance reasons. Please take a look at https://crates.io/data-access for alternatives."@,
        PaginationError::SeekBackwardUnsupported =>
            "seek backward ?seek=- is not supported for this request"@,
        PaginationError::SeekUnsupported => "?seek= is not supported for this request"@,
        PaginationError::TooManyItems => "cannot request more than 100 items"@,
        PaginationError::ZeroPage =>
            "Failed to deserialize query string: page: invalid value: integer `0`, expected a nonzero u32"@,
        PaginationError::ZeroPerPage =>
            "Failed to deserialize query string: per_page: invalid value: integer `0`, expected a nonzero u32"@,
    }
}

impl PaginationError {
    pub fn message(&self) -> (s: String)
        ensures
            s@ == pagination_error_message(*self),
    {
        match self {
            PaginationError::BothPageAndSeek => owned("providing both ?page= and ?seek= is unsupported"),
            PaginationError::PagesUnsupported => owned("?page= is not supported for this request"),
            PaginationError::PageUnavailable(n) => {
                let mut s = owned("Page ");
                push_decimal(&mut s, *n as u64);
                push_str(
                    &mut s,
                    " is unavailable for performance reasons. Please take a look at https://crates.io/data-access for alternatives.",
                );
                s
            },
            PaginationError::SeekBackwardUnsupported => owned(
                "seek backward ?seek=- is not supported for this request",
            ),
            PaginationError::SeekUnsupported => owned("?seek= is not supported for this request"),
            PaginationError::TooManyItems => owned("cannot request more than 100 items"),
            PaginationError::ZeroPage => owned(
                "Failed to deserialize query string: page: invalid value: integer `0`, expected a nonzero u32",
            ),
            PaginationError::ZeroPerPage => owned(
                "Failed to deserialize query string: per_page: invalid value: integer `0`, expected a nonzero u32",
            ),
        }
    }
}

/// `s` without its leading run of `c`, as `s.trim_start_matches(c)` returns it.
pub open spec fn trim_leading(s: Seq<char>, c: char) -> Seq<char>
    decreases s.len(),
{
    if s.len() > 0 && s[0] == c {
        trim_leading(s.drop_first(), c)
    } else {
        s
    }
}

fn trim_leading_char(s: &str, c: char) -> (r: String)
    ensures
        r@ == trim_leading(s@, c),
{
    let v = chars_of(s);
    let mut i: usize = 0;
    assert(v@.skip(0) =~= v@);
    while i < v.len() && v[i] == c
        invariant
            i <= v.len(),
            v@ == s@,
            trim_leading(s@, c) == trim_leading(v@.skip(i as int), c),
        decreases v.len() - i,
    {
        assert(v@.skip(i as int).drop_first() =~= v@.skip(i + 1));
        i = i + 1;
    }
    string_of(&v, i, v.len())
}

pub struct PaginationOptionsBuilder {
    pub limit_page_numbers: bool,
    pub enable_pages: bool,
    pub enable_seek: bool,
    pub enable_seek_backward: bool,
}

/// The page a request selects, or why it is refused (before `per_page` is read).
pub open spec fn gathered_page(
    b: PaginationOptionsBuilder,
    page: Option<u32>,
    seek: Option<Seq<char>>,
    max_allowed_page_offset: u32,
    blocked: bool,
) -> Result<PageView, PaginationError> {
    if seek is Some && page is Some {
        Err(PaginationError::BothPageAndSeek)
    } else if let Some(n) = page {
        if !b.enable_pages {
            Err(PaginationError::PagesUnsupported)
        } else if b.limit_page_numbers && n > max_allowed_page_offset && blocked {
            Err(PaginationError::PageUnavailable(n))
        } else {
            Ok(PageView::Numeric(n))
        }
    } else if let Some(s) = seek {
        if s.len() > 0 && s[0] == '-' {
            if !b.enable_seek_backward {
                Err(PaginationError::SeekBackwardUnsupported)
            } else {
                Ok(PageView::SeekBackward(trim_leading(s, '-')))
            }
        } else if !b.enable_seek {
            Err(PaginationError::SeekUnsupported)
        } else {
            Ok(PageView::Seek(s))
        }
    } else {
        Ok(PageView::Unspecified)
    }
}

/// The options that a request's parameters give, or why they are refused. A
/// zero page number or page size is refused first (as the deserializer of
/// the query string does; where both are zero, the page number is named).
pub open spec fn gathered_options(
    b: PaginationOptionsBuilder,
    page: Option<u32>,
    per_page: Option<u32>,
    seek: Option<Seq<char>>,
    max_allowed_page_offset: u32,
    blocked: bool,
) -> Result<OptionsView, PaginationError> {
    if page == Some(0u32) {
        Err(PaginationError::ZeroPage)
    } else if per_page == Some(0u32) {
        Err(PaginationError::ZeroPerPage)
    } else {
        gathered_options_nonzero(b, page, per_page, seek, max_allowed_page_offset, blocked)
    }
}

/// The options of parameters whose page number and page size are not zero.
pub open spec fn gathered_options_nonzero(
    b: PaginationOptionsBuilder,
    page: Option<u32>,
    per_page: Option<u32>,
    seek: Option<Seq<char>>,
    max_allowed_page_offset: u32,
    blocked: bool,
) -> Result<OptionsView, PaginationError> {
    match gathered_page(b, page, seek, max_allowed_page_offset, blocked) {
        Err(e) => Err(e),
        Ok(p) => {
            let n: i64 = match per_page {
                Some(n) => n as i64,
                None => DEFAULT_PER_PAGE,
            };
            if n > MAX_PER_PAGE {
                Err(PaginationError::TooManyItems)
            } else {
                Ok(OptionsView { page: p, per_page: n })
            }
        },
    }
}

/// The `?seek=` text of a request, as the contracts speak of it.
pub open spec fn seek_text(seek: Option<String>) -> Option<Seq<char>> {
    match seek {
        Some(s) => Some(s@),
        None => None,
    }
}

pub open spec fn options_result_view(r: Result<PaginationOptions, PaginationError>) -> Result<
    OptionsView,
    PaginationError,
> {
    match r {
        Ok(o) => Ok(o@),
        Err(e) => Err(e),
    }
}

impl PaginationOptionsBuilder {
    pub fn limit_page_numbers(self) -> (b: Self)
        ensures
            b == (Self { limit_page_numbers: true, ..self }),
    {
        Self { limit_page_numbers: true, ..self }
    }

    pub fn enable_pages(self, enable: bool) -> (b: Self)
        ensures
            b == (Self { enable_pages: enable, ..self }),
    {
        Self { enable_pages: enable, ..self }
    }

    pub fn enable_seek(self, enable: bool) -> (b: Self)
        ensures
            b == (Self { enable_seek: enable, ..self }),
    {
        Self { enable_seek: enable, ..self }
    }

    pub fn enable_seek_backward(self, enable: bool) -> (b: Self)
        ensures
            b == (Self { enable_seek_backward: enable, ..self }),
    {
        Self { enable_seek_backward: enable, ..self }
    }

    /// Reads the pagination options of a request from its parameters.
    ///
    /// `max_allowed_page_offset` is the configured limit on page numbers, and
    /// `blocked` whether the request's user agent or IP address is on the
    /// block list for large page offsets (see [`is_useragent_or_ip_blocked`]);
    /// both matter only when the builder limits page numbers.
    pub fn gather(
        self,
        params: &PaginationQueryParams,
        max_allowed_page_offset: u32,
        blocked: bool,
    ) -> (r: Result<PaginationOptions, PaginationError>)
        ensures
            options_result_view(r) == gathered_options(
                self,
                params.page,
                params.per_page,
                seek_text(params.seek),
                max_allowed_page_offset,
                blocked,
            ),
    {
        if params.page == Some(0u32) {
            return Err(PaginationError::ZeroPage);
        }
        if params.per_page == Some(0u32) {
            return Err(PaginationError::ZeroPerPage);
        }
        if params.seek.is_some() && params.page.is_some() {
            return Err(PaginationError::BothPageAndSeek);
        }
        let page = if let Some(n) = params.page {
            if !self.enable_pages {
                return Err(PaginationError::PagesUnsupported);
            }
            if self.limit_page_numbers && n > max_allowed_page_offset && blocked {
                return Err(PaginationError::PageUnavailable(n));
            }
            Page::Numeric(n)
        } else if let Some(s) = &params.seek {
            let backward = starts_with_str(s.as_str(), "-");
            proof {
                reveal_strlit("-");
                assert("-"@ =~= seq!['-']);
                if s@.len() > 0 {
                    assert(s@.take(1) =~= seq![s@[0]]);
                    assert(s@.take(1)[0] == s@[0]);
                    assert(seq!['-'][0] == '-');
                }
                assert(backward == (s@.len() > 0 && s@[0] == '-'));
                assert(seek_text(params.seek) == Some(s@));
            }
            if backward {
                if !self.enable_seek_backward {
                    return Err(PaginationError::SeekBackwardUnsupported);
                }
                Page::SeekBackward(RawSeekPayload(trim_leading_char(s.as_str(), '-')))
            } else {
                if !self.enable_seek {
                    return Err(PaginationError::SeekUnsupported);
                }
                Page::Seek(RawSeekPayload(s.clone()))
            }
        } else {
            Page::Unspecified
        };
        let per_page: i64 = match params.per_page {
            Some(n) => n as i64,
            None => DEFAULT_PER_PAGE,
        };
        if per_page > MAX_PER_PAGE {
            return Err(PaginationError::TooManyItems);
        }
        Ok(PaginationOptions { page, per_page })
    }
}

/// Whether a request that asks for a large page should be refused: its user
/// agent contains an entry of the user-agent block list, or its IPv4 address
/// lies in a blocked network (`ip_blocked`, decided by the caller).
pub fn is_useragent_or_ip_blocked(ua_blocklist: &Vec<String>, user_agent: &str, ip_blocked: bool) -> (r:
    bool)
    ensures
        r == ((exists|i: int|
            0 <= i < ua_blocklist.len() && has_substring(user_agent@, #[trigger] ua_blocklist@[i]@))
            || ip_blocked),
{
    let mut i: usize = 0;
    while i < ua_blocklist.len()
        invariant
            i <= ua_blocklist.len(),
            forall|j: int| 0 <= j < i ==> !has_substring(user_agent@, #[trigger] ua_blocklist@[j]@),
        decreases ua_blocklist.len() - i,
    {
        if contains_str(user_agent, ua_blocklist[i].as_str()) {
            return true;
        }
        i = i + 1;
    }
    ip_blocked
}

/// Whether a numeric page is high enough for the request to be logged as a
/// suspected bot.
pub fn is_suspected_bot(page: u32) -> (r: bool)
    ensures
        r == (page > MAX_PAGE_BEFORE_SUSPECTED_BOT),
{
    page > MAX_PAGE_BEFORE_SUSPECTED_BOT
}


// ---------------------------------------------------------------------------
// A loaded page of records
// ---------------------------------------------------------------------------

/// A record together with the total number of records that the query matches.
pub struct WithCount<T> {
    pub record: T,
    pub total: i64,
}

/// One page of records, in the order of the listing.
pub struct Paginated<T> {
    records_and_total: Vec<WithCount<T>>,
    options: PaginationOptions,
}

/// The text of the next numeric page, if there is one to offer.
pub open spec fn next_page_number(rows: nat, page: PageView, per_page: i64) -> Option<nat> {
    if rows < (per_page as usize) as nat {
        None
    } else {
        match page {
            PageView::Numeric(n) => Some((n + 1) as nat),
            PageView::Unspecified => Some(2),
            _ => None,
        }
    }
}

/// The previous numeric page, if there is one to offer.
pub open spec fn prev_page_number(page: PageView) -> Option<nat> {
    match page {
        PageView::Numeric(n) => if n == 1 { None } else { Some((n - 1) as nat) },
        _ => None,
    }
}

/// Whether a page offers a seek key for the following page: it is a seek
/// page (or an unspecified one), it holds records, it is full unless it was
/// reached backward, and it is not the first page of a backward listing.
pub open spec fn offers_next_seek(rows: nat, page: PageView, per_page: i64) -> bool {
    &&& !(page is Numeric)
    &&& rows > 0
    &&& !(rows < (per_page as usize) as nat && !(page is SeekBackward))
    &&& !(page matches PageView::SeekBackward(k) && k.len() == 0)
}

/// Whether a page offers a seek key for the preceding page: it is a seek
/// page, it holds records, it is full unless it was reached forward, and it
/// is not the first page of a forward listing.
pub open spec fn offers_prev_seek(rows: nat, page: PageView, per_page: i64) -> bool {
    &&& !(page is Numeric)
    &&& rows > 0
    &&& !(rows < (per_page as usize) as nat && page is SeekBackward)
    &&& !(page is Unspecified)
    &&& !(page matches PageView::Seek(k) && k.len() == 0)
}

/// A page ends its listing in the direction it was reached when it holds
/// fewer records than a full page: reached forward (by `?seek=` or as the
/// first page), it offers no next page; reached backward (`?seek=-`), it
/// offers no previous page. A full forward page with a key offers the next
/// page, and a full backward page with a key the previous one.
pub proof fn lemma_short_pages_end_the_listing(rows: nat, page: PageView, per_page: i64)
    requires
        1 <= per_page <= MAX_PER_PAGE,
    ensures
        !(page is SeekBackward) && rows < per_page ==> !offers_next_seek(rows, page, per_page),
        page is SeekBackward && rows < per_page ==> !offers_prev_seek(rows, page, per_page),
        (page is Unspecified || (page is Seek && page->Seek_0.len() > 0)) && rows >= per_page
            ==> offers_next_seek(rows, page, per_page),
        (page is SeekBackward && page->SeekBackward_0.len() > 0) && rows >= per_page
            ==> offers_prev_seek(rows, page, per_page),
{
    assert((per_page as usize) as nat == per_page);
}

impl<T> Paginated<T> {
    /// The records of the page, in listing order.
    pub closed spec fn rows(&self) -> Seq<WithCount<T>> {
        self.records_and_total@
    }

    /// The page that was requested.
    pub closed spec fn page(&self) -> PageView {
        self.options.page@
    }

    /// The requested page size.
    pub closed spec fn per_page(&self) -> i64 {
        self.options.per_page
    }

    /// A page of records as the database returned them: a backward seek page
    /// comes in reverse and is turned around, so that the order is the same
    /// from page to page.
    pub fn from_rows(rows: Vec<WithCount<T>>, options: PaginationOptions) -> (p: Self)
        ensures
            p.rows() == (if options.page is SeekBackward {
                rows@.reverse()
            } else {
                rows@
            }),
            p.page() == options.page@,
            p.per_page() == options.per_page,
    {
        if options.is_backward() {
            let ghost orig = rows@;
            let mut rows = rows;
            let mut out: Vec<WithCount<T>> = Vec::new();
            while rows.len() > 0
                invariant
                    rows@ == orig.take(rows.len() as int),
                    rows.len() <= orig.len(),
                    out@ == orig.skip(rows.len() as int).reverse(),
                decreases rows.len(),
            {
                let ghost before = rows.len();
                let x = rows.pop().unwrap();
                out.push(x);
                assert(rows@ =~= orig.take(rows.len() as int));
                assert(out@ =~= orig.skip(rows.len() as int).reverse());
            }
            assert(orig.skip(0) =~= orig);
            Paginated { records_and_total: out, options }
        } else {
            Paginated { records_and_total: rows, options }
        }
    }

    /// The total number of matching records: that of the first row, or zero
    /// when the page is empty.
    pub fn total(&self) -> (t: i64)
        ensures
            t == (if self.rows().len() > 0 {
                self.rows()[0].total
            } else {
                0
            }),
    {
        if self.records_and_total.len() > 0 {
            self.records_and_total[0].total
        } else {
            0
        }
    }

    /// The parameters of the next numeric page: `page=n+1`, or `page=2` when no
    /// page was given, provided this page is full.
    pub fn next_page_params(&self) -> (r: Option<IndexMap<String, String>>)
        requires
            self.page() matches PageView::Numeric(n) ==> n < u32::MAX,
        ensures
            match (r, next_page_number(self.rows().len(), self.page(), self.per_page())) {
                (Some(m), Some(n)) => query_entries(m) == seq![("page"@, decimal(n))],
                (None, None) => true,
                _ => false,
            },
    {
        if self.records_and_total.len() < self.options.per_page as usize {
            return None;
        }
        let n: u64 = match self.options.page {
            Page::Numeric(n) => n as u64 + 1,
            Page::Unspecified => 2,
            _ => return None,
        };
        Some(single_query_param(owned("page"), decimal_string(n)))
    }

    /// The parameters of the previous numeric page: `page=n-1` for a numeric
    /// page `n` other than the first.
    pub fn prev_page_params(&self) -> (r: Option<IndexMap<String, String>>)
        requires
            self.page() matches PageView::Numeric(n) ==> n >= 1,
        ensures
            match (r, prev_page_number(self.page())) {
                (Some(m), Some(n)) => query_entries(m) == seq![("page"@, decimal(n))],
                (None, None) => true,
                _ => false,
            },
    {
        match self.options.page {
            Page::Numeric(n) => {
                if n == 1 {
                    None
                } else {
                    Some(single_query_param(owned("page"), decimal_string(n as u64 - 1)))
                }
            },
            _ => None,
        }
    }

    /// The seek parameters of the next page: `seek=` followed by the encoded
    /// key that `f` gives for the last record, where the page offers one.
    pub fn next_seek_params<F: Fn(&T) -> Vec<u8>>(&self, f: F) -> (r: Option<
        IndexMap<String, String>,
    >)
        requires
            forall|t: &T| f.requires((t,)),
            forall|t: &T, b: Vec<u8>| f.ensures((t,), b) ==> b@.len() <= usize::MAX / 2,
        ensures
            r is Some <==> offers_next_seek(self.rows().len(), self.page(), self.per_page()),
            r matches Some(m) ==> exists|b: Vec<u8>|
                f.ensures((&self.rows().last().record,), b) && query_entries(m) == seq![
                    ("seek"@, base64_url_encoded(b@)),
                ],
    {
        let n = self.records_and_total.len();
        if self.options.is_explicit() || n == 0 || (n < self.options.per_page as usize
            && !self.options.is_backward()) {
            return None;
        }
        if let Page::SeekBackward(raw) = &self.options.page {
            if raw.is_empty() {
                return None;
            }
        }
        let key = f(&self.records_and_total[n - 1].record);
        let encoded = encode_seek(key.as_slice());
        Some(single_query_param(owned("seek"), encoded))
    }

    /// The seek parameters of the previous page: `seek=-` followed by the
    /// encoded key that `f` gives for the first record, where the page offers one.
    pub fn prev_seek_params<F: Fn(&T) -> Vec<u8>>(&self, f: F) -> (r: Option<
        IndexMap<String, String>,
    >)
        requires
            forall|t: &T| f.requires((t,)),
            forall|t: &T, b: Vec<u8>| f.ensures((t,), b) ==> b@.len() <= usize::MAX / 2,
        ensures
            r is Some <==> offers_prev_seek(self.rows().len(), self.page(), self.per_page()),
            r matches Some(m) ==> exists|b: Vec<u8>|
                f.ensures((&self.rows()[0].record,), b) && query_entries(m) == seq![
                    ("seek"@, "-"@ + base64_url_encoded(b@)),
                ],
    {
        let n = self.records_and_total.len();
        if self.options.is_explicit() || n == 0 || (n < self.options.per_page as usize
            && self.options.is_backward()) {
            return None;
        }
        match &self.options.page {
            Page::Unspecified => return None,
            Page::Seek(raw) => {
                if raw.is_empty() {
                    return None;
                }
            },
            _ => {},
        }
        let key = f(&self.records_and_total[0].record);
        let mut value = owned("-");
        let encoded = encode_seek(key.as_slice());
        push_str(&mut value, encoded.as_str());
        Some(single_query_param(owned("seek"), value))
    }

    /// The records of the page, in listing order.
    pub fn records(&self) -> (v: &Vec<WithCount<T>>)
        ensures
            v@ == self.rows(),
    {
        &self.records_and_total
    }

    /// The records of the page, in listing order, without their counts.
    pub fn into_records(self) -> (v: Vec<T>)
        ensures
            v.len() == self.rows().len(),
            forall|i: int| 0 <= i < v.len() ==> v@[i] == self.rows()[i].record,
    {
        let ghost orig = self.records_and_total@;
        let mut rows = self.records_and_total;
        let mut rev: Vec<T> = Vec::new();
        while rows.len() > 0
            invariant
                rows@ == orig.take(rows.len() as int),
                rows.len() <= orig.len(),
                rev.len() == orig.len() - rows.len(),
                forall|i: int| 0 <= i < rev.len() ==> rev@[i] == orig[orig.len() - 1 - i].record,
            decreases rows.len(),
        {
            let x = rows.pop().unwrap();
            rev.push(x.record);
            assert(rows@ =~= orig.take(rows.len() as int));
        }
        let mut out: Vec<T> = Vec::new();
        while rev.len() > 0
            invariant
                rev.len() <= orig.len(),
                forall|i: int| 0 <= i < rev.len() ==> rev@[i] == orig[orig.len() - 1 - i].record,
                out.len() == orig.len() - rev.len(),
                forall|i: int| 0 <= i < out.len() ==> out@[i] == orig[i].record,
            decreases rev.len(),
        {
            let x = rev.pop().unwrap();
            out.push(x);
        }
        out
    }
}

/// The seek parameters of the next page of a listing that pages only
/// forward, by seek keys (as the versions of a crate are listed): none for a
/// numeric page or a page that is not full, else `seek=` and the encoded key
/// that `f` gives for the last record.
pub fn next_seek_params_forward<T, F: Fn(&T) -> Vec<u8>>(
    records: &Vec<T>,
    options: &PaginationOptions,
    f: F,
) -> (r: Option<IndexMap<String, String>>)
    requires
        !(options.page is SeekBackward),
        1 <= options.per_page <= MAX_PER_PAGE,
        forall|t: &T| f.requires((t,)),
        forall|t: &T, b: Vec<u8>| f.ensures((t,), b) ==> b@.len() <= usize::MAX / 2,
    ensures
        r is Some <==> !(options.page is Numeric) && records.len() >= options.per_page,
        r matches Some(m) ==> exists|b: Vec<u8>|
            f.ensures((&records@.last(),), b) && query_entries(m) == seq![
                ("seek"@, base64_url_encoded(b@)),
            ],
{
    if options.is_explicit() || records.len() < options.per_page as usize {
        return None;
    }
    if records.len() == 0 {
        return None;
    }
    let key = f(&records[records.len() - 1]);
    let encoded = encode_seek(key.as_slice());
    Some(single_query_param(owned("seek"), encoded))
}

} // verus!
