use vstd::prelude::*;

verus! {

/// The most headers one request may carry.
pub const MAX_HEADERS: usize = 100;

/// One request header: its name (ASCII) and its value, byte for byte.
pub struct HeaderField {
    pub name: Vec<u8>,
    pub value: Vec<u8>,
}

impl View for HeaderField {
    type V = (Seq<u8>, Seq<u8>);

    open spec fn view(&self) -> (Seq<u8>, Seq<u8>) {
        (self.name@, self.value@)
    }
}

/// A parsed request line and header block.
pub struct RequestHead {
    /// How many bytes the request line and headers took.
    pub len: usize,
    pub method: String,
    pub path: String,
    /// The minor version: 1 for HTTP/1.1.
    pub version: u8,
    pub headers: Vec<HeaderField>,
}

/// What a request head is, as values.
pub ghost struct HeadView {
    pub len: nat,
    pub method: Seq<char>,
    pub path: Seq<char>,
    pub version: u8,
    pub headers: Seq<(Seq<u8>, Seq<u8>)>,
}

impl View for RequestHead {
    type V = HeadView;

    open spec fn view(&self) -> HeadView {
        HeadView {
            len: self.len as nat,
            method: self.method@,
            path: self.path@,
            version: self.version,
            headers: self.headers@.map_values(|h: HeaderField| h@),
        }
    }
}

/// The outcome of parsing the head of a buffer.
pub enum HeadParse {
    /// A whole request head stands at the front of the buffer.
    Complete(RequestHead),
    /// The bytes so far are a valid beginning of a request head.
    Partial,
    /// The bytes cannot begin a request head (this includes more headers
    /// than `MAX_HEADERS`).
    Invalid,
}

pub ghost enum HeadParseView {
    Complete(HeadView),
    Partial,
    Invalid,
}

impl View for HeadParse {
    type V = HeadParseView;

    open spec fn view(&self) -> HeadParseView {
        match self {
            HeadParse::Complete(h) => HeadParseView::Complete(h@),
            HeadParse::Partial => HeadParseView::Partial,
            HeadParse::Invalid => HeadParseView::Invalid,
        }
    }
}

/// What `httparse` makes of a buffer given room for `MAX_HEADERS` headers.
pub uninterp spec fn request_head(buf: Seq<u8>) -> HeadParseView;

/// Relies on `httparse::Request::parse` with room for `MAX_HEADERS`
/// headers: its outcome depends on the bytes alone, a complete head is
/// never longer than the buffer, and it fills at most the `MAX_HEADERS`
/// header slots it is given (one more header makes the parse fail).
#[verifier::external_body]
pub(crate) fn parse_request_head(buf: &[u8]) -> (r: HeadParse)
    ensures
        r@ == request_head(buf@),
        r is Complete ==> r->Complete_0.len <= buf@.len(),
        r is Complete ==> r->Complete_0.headers@.len() <= MAX_HEADERS,
{
    let mut headers = [httparse::EMPTY_HEADER; MAX_HEADERS];
    let mut req = httparse::Request::new(&mut headers);
    match req.parse(buf) {
        Ok(httparse::Status::Complete(len)) => HeadParse::Complete(RequestHead {
            len,
            method: req.method.unwrap_or_default().to_string(),
            path: req.path.unwrap_or_default().to_string(),
            version: req.version.unwrap_or_default(),
            headers: req.headers.iter().map(|h| HeaderField {
                name: h.name.as_bytes().to_vec(), value: h.value.to_vec() }).collect(),
        }),
        Ok(httparse::Status::Partial) => HeadParse::Partial,
        Err(_) => HeadParse::Invalid,
    }
}

/// ASCII lower case of one byte; other bytes are unchanged.
pub open spec fn ascii_lower(b: u8) -> u8 {
    if 65 <= b <= 90 {
        (b + 32) as u8
    } else {
        b
    }
}

/// `s` equals the lower-case word `lower`, ignoring ASCII case.
pub open spec fn ascii_ieq(s: Seq<u8>, lower: Seq<u8>) -> bool {
    &&& s.len() == lower.len()
    &&& forall|i: int| 0 <= i < s.len() ==> ascii_lower(#[trigger] s[i]) == lower[i]
}

/// The lower-case word `lower` occurs somewhere in `s`, ignoring ASCII
/// case.
pub open spec fn contains_ignore_case(s: Seq<u8>, lower: Seq<u8>) -> bool {
    exists|i: int|
        0 <= i && i + lower.len() <= s.len() && #[trigger] ascii_ieq(
            s.subrange(i, i + lower.len()),
            lower,
        )
}

/// `content-length`
pub open spec fn content_length_name() -> Seq<u8> {
    seq![99u8, 111, 110, 116, 101, 110, 116, 45, 108, 101, 110, 103, 116, 104]
}

/// `transfer-encoding`
pub open spec fn transfer_encoding_name() -> Seq<u8> {
    seq![116u8, 114, 97, 110, 115, 102, 101, 114, 45, 101, 110, 99, 111, 100, 105, 110, 103]
}

/// `chunked`
pub open spec fn chunked_word() -> Seq<u8> {
    seq![99u8, 104, 117, 110, 107, 101, 100]
}

pub open spec fn is_digit(b: u8) -> bool {
    48 <= b <= 57
}

/// The number written by a string of decimal digits.
pub open spec fn digits_value(s: Seq<u8>) -> nat
    decreases s.len(),
{
    if s.len() == 0 {
        0
    } else {
        digits_value(s.drop_last()) * 10 + (s.last() - 48) as nat
    }
}

/// The digits of an unsigned number: a leading `+` is allowed.
pub open spec fn unsigned_digits(s: Seq<u8>) -> Seq<u8> {
    if s.len() > 0 && s[0] == 43 {
        s.drop_first()
    } else {
        s
    }
}

/// `s` is an unsigned decimal number that fits in a `usize`.
pub open spec fn is_usize_decimal(s: Seq<u8>) -> bool {
    let d = unsigned_digits(s);
    &&& d.len() > 0
    &&& forall|i: int| 0 <= i < d.len() ==> is_digit(#[trigger] d[i])
    &&& digits_value(d) <= usize::MAX
}

/// The value of a `Content-Length` header: the number it writes, or 0
/// when it is not an unsigned decimal that fits in a `usize`.
pub open spec fn content_length_value(s: Seq<u8>) -> usize {
    if is_usize_decimal(s) {
        digits_value(unsigned_digits(s)) as usize
    } else {
        0
    }
}

/// The body framing a request head announces.
#[derive(PartialEq, Eq, Structural, Clone, Copy, Debug)]
pub struct BodyFraming {
    /// The `Content-Length`, 0 if absent or unreadable.
    pub content_length: usize,
    /// Whether `Transfer-Encoding` names `chunked`.
    pub chunked: bool,
}

/// The framing after one more header: a `Content-Length` header sets the
/// length, a `Transfer-Encoding` header sets the chunked flag, others
/// change nothing.
pub open spec fn apply_header(st: BodyFraming, h: (Seq<u8>, Seq<u8>)) -> BodyFraming {
    if ascii_ieq(h.0, content_length_name()) {
        BodyFraming { content_length: content_length_value(h.1), chunked: st.chunked }
    } else if ascii_ieq(h.0, transfer_encoding_name()) {
        BodyFraming {
            content_length: st.content_length,
            chunked: contains_ignore_case(h.1, chunked_word()),
        }
    } else {
        st
    }
}

/// The framing after the headers, in order.
pub open spec fn scan_headers(st: BodyFraming, hs: Seq<(Seq<u8>, Seq<u8>)>) -> BodyFraming
    decreases hs.len(),
{
    if hs.len() == 0 {
        st
    } else {
        apply_header(scan_headers(st, hs.drop_last()), hs.last())
    }
}

fn to_ascii_lower(b: u8) -> (r: u8)
    ensures
        r == ascii_lower(b),
{
    if 65 <= b && b <= 90 {
        b + 32
    } else {
        b
    }
}

/// Compares `s` with the lower-case word `lower`, ignoring ASCII case.
pub fn eq_ignore_ascii_case(s: &[u8], lower: &[u8]) -> (r: bool)
    ensures
        r == ascii_ieq(s@, lower@),
{
    if s.len() != lower.len() {
        return false;
    }
    let mut i: usize = 0;
    while i < s.len()
        invariant
            s@.len() == lower@.len(),
            i <= s@.len(),
            forall|j: int| 0 <= j < i ==> ascii_lower(#[trigger] s@[j]) == lower@[j],
        decreases s@.len() - i,
    {
        if to_ascii_lower(s[i]) != lower[i] {
            return false;
        }
        i = i + 1;
    }
    true
}

fn matches_at(s: &[u8], at: usize, lower: &[u8]) -> (r: bool)
    requires
        at + lower@.len() <= s@.len(),
    ensures
        r == ascii_ieq(s@.subrange(at as int, at + lower@.len()), lower@),
{
    let ghost window = s@.subrange(at as int, at + lower@.len());
    let n = s.len();
    let mut j: usize = 0;
    while j < lower.len()
        invariant
            at + lower@.len() <= s@.len(),
            n == s@.len(),
            window == s@.subrange(at as int, at + lower@.len()),
            j <= lower@.len(),
            forall|k: int| 0 <= k < j ==> ascii_lower(#[trigger] window[k]) == lower@[k],
        decreases lower@.len() - j,
    {
        if to_ascii_lower(s[at + j]) != lower[j] {
            assert(window[j as int] == s@[at + j]);
            return false;
        }
        assert(window[j as int] == s@[at + j]);
        j = j + 1;
    }
    true
}

/// Whether the lower-case word `lower` occurs in `s`, ignoring ASCII case.
pub fn find_ignore_ascii_case(s: &[u8], lower: &[u8]) -> (r: bool)
    ensures
        r == contains_ignore_case(s@, lower@),
{
    if lower.len() > s.len() {
        return false;
    }
    let last = s.len() - lower.len();
    let mut i: usize = 0;
    loop
        invariant
            lower@.len() <= s@.len(),
            last == s@.len() - lower@.len(),
            i <= last,
            forall|k: int|
                0 <= k < i ==> !#[trigger] ascii_ieq(s@.subrange(k, k + lower@.len()), lower@),
        decreases last - i,
    {
        if matches_at(s, i, lower) {
            return true;
        }
        if i == last {
            return false;
        }
        i = i + 1;
    }
}


proof fn lemma_digits_prefix_le(s: Seq<u8>, k: int)
    requires
        0 <= k <= s.len(),
    ensures
        digits_value(s.subrange(0, k)) <= digits_value(s),
    decreases s.len(),
{
    if k == s.len() {
        assert(s.subrange(0, k) =~= s);
    } else {
        lemma_digits_prefix_le(s.drop_last(), k);
        assert(s.drop_last().subrange(0, k) =~= s.subrange(0, k));
    }
}

/// Reads a `Content-Length` value: an unsigned decimal number, with an
/// optional leading `+`, that fits in a `usize`; anything else reads as 0.
pub fn parse_content_length(v: &[u8]) -> (r: usize)
    ensures
        r == content_length_value(v@),
{
    let n = v.len();
    let start: usize = if n > 0 && v[0] == 43 { 1 } else { 0 };
    let ghost d = unsigned_digits(v@);
    assert(d =~= v@.subrange(start as int, n as int));
    if start >= n {
        return 0;
    }
    let mut acc: usize = 0;
    let mut i: usize = start;
    while i < n
        invariant
            n == v@.len(),
            start <= i <= n,
            start < n,
            d == v@.subrange(start as int, n as int),
            d == unsigned_digits(v@),
            forall|j: int| 0 <= j < i - start ==> is_digit(#[trigger] d[j]),
            acc == digits_value(v@.subrange(start as int, i as int)),
        decreases n - i,
    {
        let b = v[i];
        assert(d[i - start] == b);
        if b < 48 || b > 57 {
            assert(!is_digit(d[i - start]));
            assert(!is_usize_decimal(v@));
            return 0;
        }
        let dg = (b - 48) as usize;
        let ghost next = v@.subrange(start as int, i + 1);
        assert(next.drop_last() =~= v@.subrange(start as int, i as int));
        assert(digits_value(next) == acc * 10 + dg);
        if acc > (usize::MAX - dg) / 10 {
            assert(acc * 10 + dg > usize::MAX) by (nonlinear_arith)
                requires
                    acc > (usize::MAX - dg) / 10,
                    dg <= 9,
            ;
            proof {
                assert(next =~= d.subrange(0, i + 1 - start));
                lemma_digits_prefix_le(d, i + 1 - start);
                assert(digits_value(d) > usize::MAX);
                assert(!is_usize_decimal(v@));
            }
            return 0;
        }
        assert(acc * 10 + dg <= usize::MAX) by (nonlinear_arith)
            requires
                acc <= (usize::MAX - dg) / 10,
                dg <= 9,
        ;
        acc = acc * 10 + dg;
        i = i + 1;
    }
    assert(v@.subrange(start as int, n as int) =~= d);
    acc
}

/// The framing after one more header, as `apply_header` states it.
pub fn check_header(st: BodyFraming, h: &HeaderField) -> (r: BodyFraming)
    ensures
        r == apply_header(st, h@),
{
    let content_length: [u8; 14] = [99, 111, 110, 116, 101, 110, 116, 45, 108, 101, 110, 103, 116, 104];
    let transfer_encoding: [u8; 17] = [
        116, 114, 97, 110, 115, 102, 101, 114, 45, 101, 110, 99, 111, 100, 105, 110, 103,
    ];
    let chunked: [u8; 7] = [99, 104, 117, 110, 107, 101, 100];
    assert(content_length@ =~= content_length_name());
    assert(transfer_encoding@ =~= transfer_encoding_name());
    assert(chunked@ =~= chunked_word());
    if eq_ignore_ascii_case(h.name.as_slice(), content_length.as_slice()) {
        BodyFraming { content_length: parse_content_length(h.value.as_slice()), chunked: st.chunked }
    } else if eq_ignore_ascii_case(h.name.as_slice(), transfer_encoding.as_slice()) {
        BodyFraming {
            content_length: st.content_length,
            chunked: find_ignore_ascii_case(h.value.as_slice(), chunked.as_slice()),
        }
    } else {
        st
    }
}

/// Walks the headers in order and returns the framing they announce,
/// starting from `st`.
pub fn scan_header_fields(st: BodyFraming, headers: &Vec<HeaderField>) -> (r: BodyFraming)
    ensures
        r == scan_headers(st, headers@.map_values(|h: HeaderField| h@)),
{
    let ghost hs = headers@.map_values(|h: HeaderField| h@);
    let mut cur = st;
    let mut i: usize = 0;
    while i < headers.len()
        invariant
            i <= headers@.len(),
            hs == headers@.map_values(|h: HeaderField| h@),
            cur == scan_headers(st, hs.subrange(0, i as int)),
        decreases headers@.len() - i,
    {
        cur = check_header(cur, &headers[i]);
        assert(hs.subrange(0, i + 1).drop_last() =~= hs.subrange(0, i as int));
        i = i + 1;
    }
    assert(hs.subrange(0, i as int) =~= hs);
    cur
}

} // verus!
