use vstd::prelude::*;

verus! {

/// `s` holds the bytes of `"Host: "` at offset `i`.
pub open spec fn host_prefix_at(s: Seq<u8>, i: int) -> bool {
    &&& s[i] == 0x48u8
    &&& s[i + 1] == 0x6fu8
    &&& s[i + 2] == 0x73u8
    &&& s[i + 3] == 0x74u8
    &&& s[i + 4] == 0x3au8
    &&& s[i + 5] == 0x20u8
}

/// `s` holds `"\r\n"` at offset `i`.
pub open spec fn crlf_at(s: Seq<u8>, i: int) -> bool {
    s[i] == 0x0du8 && s[i + 1] == 0x0au8
}

/// The greatest offset below `n` at which `"Host: "` starts, or -1 if there is none.
pub open spec fn last_host_prefix_below(s: Seq<u8>, n: int) -> int
    decreases n,
{
    if n <= 0 {
        -1
    } else if host_prefix_at(s, n - 1) {
        n - 1
    } else {
        last_host_prefix_below(s, n - 1)
    }
}

/// The offset of the last `"Host: "` in `s`, or -1 if there is none.
pub open spec fn last_host_prefix(s: Seq<u8>) -> int {
    last_host_prefix_below(s, s.len() - 5)
}

/// The least offset in `[i, n)` at which `"\r\n"` starts, or -1 if there is none.
pub open spec fn first_crlf_from(s: Seq<u8>, i: int, n: int) -> int
    decreases n - i,
{
    if i >= n {
        -1
    } else if crlf_at(s, i) {
        i
    } else {
        first_crlf_from(s, i + 1, n)
    }
}

/// The value of a fragment's Host header: the bytes after its last `"Host: "` up to the
/// first `"\r\n"` that follows. Empty when there is no `"Host: "`, or no line break after it.
pub open spec fn http_get_host(s: Seq<u8>) -> Seq<u8> {
    let p = last_host_prefix(s);
    if p < 0 {
        Seq::empty()
    } else {
        let e = first_crlf_from(s, p + 6, s.len() - 1);
        if e < 0 {
            Seq::empty()
        } else {
            s.subrange(p + 6, e)
        }
    }
}

/// `s` starts with `"GET "`.
pub open spec fn starts_with_get(s: Seq<u8>) -> bool {
    &&& s.len() >= 4
    &&& s[0] == 0x47u8
    &&& s[1] == 0x45u8
    &&& s[2] == 0x54u8
    &&& s[3] == 0x20u8
}

/// The first line and the start of the second line of the redirect answer:
/// `"HTTP/1.1 301 Moved Permanently\nLocation: https://"`.
pub open spec fn redirect_head() -> Seq<u8> {
    seq![
        0x48u8, 0x54, 0x54, 0x50, 0x2f, 0x31, 0x2e, 0x31, 0x20, 0x33, 0x30, 0x31, 0x20,
        0x4d, 0x6f, 0x76, 0x65, 0x64, 0x20, 0x50, 0x65, 0x72, 0x6d, 0x61, 0x6e, 0x65,
        0x6e, 0x74, 0x6c, 0x79, 0x0a, 0x4c, 0x6f, 0x63, 0x61, 0x74, 0x69, 0x6f, 0x6e,
        0x3a, 0x20, 0x68, 0x74, 0x74, 0x70, 0x73, 0x3a, 0x2f, 0x2f,
    ]
}

/// The whole redirect answer for `host`: [`redirect_head`], the host, and a line feed.
pub open spec fn redirect_response_bytes(host: Seq<u8>) -> Seq<u8> {
    redirect_head() + host + seq![0x0au8]
}

/// Whether a peeked fragment is an unencrypted HTTP GET (it starts with `"GET "`).
pub fn is_http_get(fragment: &[u8]) -> (r: bool)
    ensures
        r == starts_with_get(fragment@),
        r == (fragment@.len() >= 4 && fragment@.subrange(0, 4) == seq![0x47u8, 0x45, 0x54, 0x20]),
{
    proof {
        law_get_is_decided_by_the_first_four_bytes(fragment@, Seq::empty());
    }
    fragment.len() >= 4 && fragment[0] == 0x47 && fragment[1] == 0x45 && fragment[2] == 0x54
        && fragment[3] == 0x20
}

/// Reads the host name out of an HTTP GET fragment without a full HTTP parser: the bytes
/// after the last `"Host: "` up to the first `"\r\n"` after it. Any input is accepted; one
/// without a complete Host line gives an empty host (and so a broken redirect).
pub fn parse_out_host_from_http_get(http_fragment: &[u8]) -> (host: Vec<u8>)
    ensures
        host@ == http_get_host(http_fragment@),
{
    let ghost s = http_fragment@;
    let len = http_fragment.len();
    let mut host_name_copy: Vec<u8> = Vec::new();
    if len < 6 {
        assert(last_host_prefix(s) == -1);
        return host_name_copy;
    }
    let mut found = false;
    let mut host_begin_i: usize = 0;
    let scan_end = len - 5;
    let mut i: usize = 0;
    while i < scan_end
        invariant
            len == s.len(),
            s == http_fragment@,
            scan_end == len - 5,
            i <= scan_end,
            found == (last_host_prefix_below(s, i as int) >= 0),
            found ==> host_begin_i as int == last_host_prefix_below(s, i as int) + 6,
            host_begin_i <= len,
        decreases scan_end - i,
    {
        let is_match = 0x48 == http_fragment[i] && 0x6f == http_fragment[i + 1] && 0x73
            == http_fragment[i + 2] && 0x74 == http_fragment[i + 3] && 0x3a == http_fragment[i
            + 4] && 0x20 == http_fragment[i + 5];
        if is_match {
            found = true;
            host_begin_i = i + 6;
        }
        i = i + 1;
    }
    if !found {
        return host_name_copy;
    }
    assert(host_begin_i as int == last_host_prefix(s) + 6);

    let mut j: usize = host_begin_i;
    let mut found_end = false;
    while j < len - 1
        invariant_except_break
            !found_end,
        invariant
            len == s.len(),
            len >= 6,
            s == http_fragment@,
            host_begin_i <= j <= len,
            first_crlf_from(s, host_begin_i as int, len - 1) == first_crlf_from(
                s,
                j as int,
                len - 1,
            ),
        ensures
            found_end ==> j < len - 1 && first_crlf_from(s, host_begin_i as int, len - 1) == j,
            !found_end ==> first_crlf_from(s, host_begin_i as int, len - 1) == -1,
        decreases len - j,
    {
        if 0x0d == http_fragment[j] && 0x0a == http_fragment[j + 1] {
            found_end = true;
            break;
        }
        j = j + 1;
    }
    if !found_end {
        return host_name_copy;
    }

    let mut k: usize = host_begin_i;
    while k < j
        invariant
            s == http_fragment@,
            host_begin_i <= k <= j,
            j < s.len(),
            host_name_copy@ == s.subrange(host_begin_i as int, k as int),
        decreases j - k,
    {
        host_name_copy.push(http_fragment[k]);
        k = k + 1;
    }
    host_name_copy
}

/// The answer that upgrades a plain HTTP client: a 301 to `https://<host>`.
pub fn redirect_response(host: &[u8]) -> (response: Vec<u8>)
    ensures
        response@ == redirect_response_bytes(host@),
        response@.len() == 49 + host@.len() + 1,
        response@.subrange(0, 49) == seq![
            0x48u8, 0x54, 0x54, 0x50, 0x2f, 0x31, 0x2e, 0x31, 0x20, 0x33, 0x30, 0x31, 0x20,
            0x4d, 0x6f, 0x76, 0x65, 0x64, 0x20, 0x50, 0x65, 0x72, 0x6d, 0x61, 0x6e, 0x65,
            0x6e, 0x74, 0x6c, 0x79, 0x0a, 0x4c, 0x6f, 0x63, 0x61, 0x74, 0x69, 0x6f, 0x6e,
            0x3a, 0x20, 0x68, 0x74, 0x74, 0x70, 0x73, 0x3a, 0x2f, 0x2f,
        ],
        response@.subrange(49, 49 + host@.len() as int) == host@,
        response@[49 + host@.len() as int] == 0x0au8,
{
    proof {
        law_redirect_is_head_then_host_then_line_feed(host@);
    }
    let mut response: Vec<u8> = vec![
        0x48u8, 0x54, 0x54, 0x50, 0x2f, 0x31, 0x2e, 0x31, 0x20, 0x33, 0x30, 0x31, 0x20,
        0x4d, 0x6f, 0x76, 0x65, 0x64, 0x20, 0x50, 0x65, 0x72, 0x6d, 0x61, 0x6e, 0x65,
        0x6e, 0x74, 0x6c, 0x79, 0x0a, 0x4c, 0x6f, 0x63, 0x61, 0x74, 0x69, 0x6f, 0x6e,
        0x3a, 0x20, 0x68, 0x74, 0x74, 0x70, 0x73, 0x3a, 0x2f, 0x2f,
    ];
    assert(response@ == redirect_head());
    let mut i: usize = 0;
    while i < host.len()
        invariant
            i <= host@.len(),
            response@ == redirect_head() + host@.subrange(0, i as int),
        decreases host@.len() - i,
    {
        response.push(host[i]);
        assert(host@.subrange(0, i + 1) == host@.subrange(0, i as int).push(host@[i as int]));
        i = i + 1;
    }
    assert(host@.subrange(0, host@.len() as int) == host@);
    response.push(0x0a);
    response
}

/// The last `"Host: "` below `n` is the one at `p` when none starts between `p` and `n`.
proof fn lemma_last_host_prefix(s: Seq<u8>, n: int, p: int)
    requires
        0 <= p < n,
        host_prefix_at(s, p),
        forall|q: int| p < q < n ==> !#[trigger] host_prefix_at(s, q),
    ensures
        last_host_prefix_below(s, n) == p,
    decreases n,
{
    if n - 1 != p {
        lemma_last_host_prefix(s, n - 1, p);
    }
}

/// [`last_host_prefix_below`] is -1 or an offset below `n` at which `"Host: "` starts; it
/// is -1 when none starts below `n`.
proof fn lemma_last_host_prefix_range(s: Seq<u8>, n: int)
    ensures
        last_host_prefix_below(s, n) == -1 || (0 <= last_host_prefix_below(s, n) < n
            && host_prefix_at(s, last_host_prefix_below(s, n))),
        (forall|q: int| 0 <= q < n ==> !#[trigger] host_prefix_at(s, q))
            ==> last_host_prefix_below(s, n) == -1,
    decreases n,
{
    if n > 0 {
        lemma_last_host_prefix_range(s, n - 1);
    }
}

/// [`first_crlf_from`] is -1 or the least offset in `[i, n)` holding `"\r\n"`.
proof fn lemma_first_crlf_range(s: Seq<u8>, i: int, n: int)
    requires
        0 <= i,
    ensures
        first_crlf_from(s, i, n) == -1 || (i <= first_crlf_from(s, i, n) < n && crlf_at(
            s,
            first_crlf_from(s, i, n),
        )),
        forall|q: int|
            i <= q && (first_crlf_from(s, i, n) == -1 ==> q < n) && (first_crlf_from(s, i, n)
                != -1 ==> q < first_crlf_from(s, i, n)) ==> !#[trigger] crlf_at(s, q),
    decreases n - i,
{
    if i < n {
        lemma_first_crlf_range(s, i + 1, n);
        if !crlf_at(s, i) {
            let r = first_crlf_from(s, i, n);
            assert forall|q: int|
                i <= q && (r == -1 ==> q < n) && (r != -1 ==> q < r) implies !#[trigger] crlf_at(
                s,
                q,
            ) by {
                if q > i {
                    assert(i + 1 <= q);
                }
            }
        }
    }
}

/// The first `"\r\n"` from `i` on is the one at `e` when none starts between `i` and `e`.
proof fn lemma_first_crlf(s: Seq<u8>, i: int, n: int, e: int)
    requires
        i <= e < n,
        crlf_at(s, e),
        forall|q: int| i <= q < e ==> !#[trigger] crlf_at(s, q),
    ensures
        first_crlf_from(s, i, n) == e,
    decreases n - i,
{
    if i != e {
        lemma_first_crlf(s, i + 1, n, e);
    }
}

/// The host read out of an HTTP GET is the value of its last Host line: the text after the
/// last `"Host: "` up to the first `"\r\n"` that follows it.
pub proof fn law_host_is_the_value_of_the_last_host_line(s: Seq<u8>, p: int, e: int)
    requires
        0 <= p,
        p + 6 <= s.len(),
        host_prefix_at(s, p),
        forall|q: int| p < q && q + 6 <= s.len() ==> !#[trigger] host_prefix_at(s, q),
        p + 6 <= e,
        e + 1 < s.len(),
        crlf_at(s, e),
        forall|q: int| p + 6 <= q < e ==> !#[trigger] crlf_at(s, q),
    ensures
        http_get_host(s) == s.subrange(p + 6, e),
{
    lemma_last_host_prefix(s, s.len() - 5, p);
    lemma_first_crlf(s, p + 6, s.len() - 1, e);
}

/// The host read out of an HTTP GET is a contiguous part of the fragment, and holds no
/// `"\r\n"`.
pub proof fn law_host_is_a_slice_without_line_breaks(s: Seq<u8>)
    ensures
        exists|b: int, e: int| 0 <= b <= e <= s.len() && http_get_host(s) == s.subrange(b, e),
        forall|k: int| 0 <= k && k + 1 < http_get_host(s).len() ==> !#[trigger] crlf_at(
            http_get_host(s),
            k,
        ),
{
    lemma_last_host_prefix_range(s, s.len() - 5);
    let p = last_host_prefix(s);
    if p < 0 {
        assert(http_get_host(s) == s.subrange(0, 0));
    } else {
        lemma_first_crlf_range(s, p + 6, s.len() - 1);
        let e = first_crlf_from(s, p + 6, s.len() - 1);
        if e < 0 {
            assert(http_get_host(s) == s.subrange(0, 0));
        } else {
            let h = http_get_host(s);
            assert(h == s.subrange(p + 6, e));
            assert forall|k: int| 0 <= k && k + 1 < h.len() implies !#[trigger] crlf_at(h, k) by {
                assert(h[k] == s[p + 6 + k]);
                assert(h[k + 1] == s[p + 6 + k + 1]);
                assert(!crlf_at(s, p + 6 + k));
            }
        }
    }
}

/// A fragment without any `"Host: "` yields no host.
pub proof fn law_no_host_line_no_host(s: Seq<u8>)
    requires
        forall|q: int| 0 <= q && q + 6 <= s.len() ==> !#[trigger] host_prefix_at(s, q),
    ensures
        http_get_host(s) == Seq::<u8>::empty(),
{
    lemma_last_host_prefix_range(s, s.len() - 5);
}

/// Whether a fragment is a plain HTTP GET depends on its first four bytes alone: they are
/// `"GET "`. Whatever follows them does not change the answer.
pub proof fn law_get_is_decided_by_the_first_four_bytes(s: Seq<u8>, t: Seq<u8>)
    ensures
        starts_with_get(s) <==> (s.len() >= 4 && s.subrange(0, 4) == seq![
            0x47u8,
            0x45,
            0x54,
            0x20,
        ]),
        starts_with_get(s) ==> starts_with_get(s + t),
{
    if s.len() >= 4 {
        let g = seq![0x47u8, 0x45, 0x54, 0x20];
        if starts_with_get(s) {
            assert(s.subrange(0, 4) =~= g);
        }
        if s.subrange(0, 4) == g {
            assert(s.subrange(0, 4)[0] == s[0]);
            assert(s.subrange(0, 4)[1] == s[1]);
            assert(s.subrange(0, 4)[2] == s[2]);
            assert(s.subrange(0, 4)[3] == s[3]);
        }
        assert((s + t)[0] == s[0] && (s + t)[1] == s[1] && (s + t)[2] == s[2] && (s + t)[3]
            == s[3]);
    }
}

/// The redirect answer for a host is, byte for byte, the head
/// `"HTTP/1.1 301 Moved Permanently\nLocation: https://"`, then the whole host as given,
/// then a line feed.
pub proof fn law_redirect_is_head_then_host_then_line_feed(host: Seq<u8>)
    ensures
        redirect_response_bytes(host).len() == 49 + host.len() + 1,
        redirect_response_bytes(host).subrange(0, 49) == seq![
            0x48u8, 0x54, 0x54, 0x50, 0x2f, 0x31, 0x2e, 0x31, 0x20, 0x33, 0x30, 0x31, 0x20,
            0x4d, 0x6f, 0x76, 0x65, 0x64, 0x20, 0x50, 0x65, 0x72, 0x6d, 0x61, 0x6e, 0x65,
            0x6e, 0x74, 0x6c, 0x79, 0x0a, 0x4c, 0x6f, 0x63, 0x61, 0x74, 0x69, 0x6f, 0x6e,
            0x3a, 0x20, 0x68, 0x74, 0x74, 0x70, 0x73, 0x3a, 0x2f, 0x2f,
        ],
        redirect_response_bytes(host).subrange(49, 49 + host.len() as int) == host,
        forall|i: int| 0 <= i < host.len() ==> redirect_response_bytes(host)[49 + i] == host[i],
        redirect_response_bytes(host)[49 + host.len() as int] == 0x0au8,
{
    let r = redirect_response_bytes(host);
    assert(redirect_head().len() == 49);
    assert(r.subrange(0, 49) =~= redirect_head());
    assert(r.subrange(49, 49 + host.len() as int) =~= host);
}

/// `"Host: "` and `"\r\n"` are matched by their bytes.
pub proof fn law_host_prefix_and_line_break_bytes(s: Seq<u8>, i: int)
    requires
        0 <= i,
        i + 6 <= s.len(),
    ensures
        host_prefix_at(s, i) <==> s.subrange(i, i + 6) == seq![0x48u8, 0x6f, 0x73, 0x74, 0x3a, 0x20],
        crlf_at(s, i) <==> s.subrange(i, i + 2) == seq![0x0du8, 0x0a],
{
    let h = seq![0x48u8, 0x6f, 0x73, 0x74, 0x3a, 0x20];
    if host_prefix_at(s, i) {
        assert(s.subrange(i, i + 6) =~= h);
    }
    if s.subrange(i, i + 6) == h {
        assert(s.subrange(i, i + 6)[0] == s[i]);
        assert(s.subrange(i, i + 6)[1] == s[i + 1]);
        assert(s.subrange(i, i + 6)[2] == s[i + 2]);
        assert(s.subrange(i, i + 6)[3] == s[i + 3]);
        assert(s.subrange(i, i + 6)[4] == s[i + 4]);
        assert(s.subrange(i, i + 6)[5] == s[i + 5]);
    }
    let c = seq![0x0du8, 0x0a];
    if crlf_at(s, i) {
        assert(s.subrange(i, i + 2) =~= c);
    }
    if s.subrange(i, i + 2) == c {
        assert(s.subrange(i, i + 2)[0] == s[i]);
        assert(s.subrange(i, i + 2)[1] == s[i + 1]);
    }
}

} // verus!
