//! The browser-fingerprint header recipe.
//!
//! Every outbound request carries one fixed header set matching a
//! specific browser identity end to end; varying it between requests
//! is itself a detection signal, so the recipe is a contract with the
//! remote service and is stated literally. When the session holds a
//! CSRF token that is a well-formed header value, the CSRF header is
//! appended; an ill-formed token is silently omitted rather than
//! failing the whole set.

use vstd::prelude::*;

verus! {

/// One outbound header, name and value.
pub struct HeaderPair {
    pub name: String,
    pub value: String,
}

/// Characters a header value may hold: horizontal tab, or anything
/// from space upward except delete.
pub open spec fn is_valid_header_char(c: char) -> bool {
    c == '\t' || (c as u32 >= 32 && c as u32 != 127)
}

/// A well-formed header value: every character is allowed.
pub open spec fn valid_header_value(s: Seq<char>) -> bool {
    forall|i: int| 0 <= i < s.len() ==> is_valid_header_char(s[i])
}

/// Whether `s` can stand as a header value.
pub fn check_header_value(s: &str) -> (r: bool)
    ensures
        r == valid_header_value(s@),
{
    let len = s.unicode_len();
    let mut i: usize = 0;
    while i < len
        invariant
            len == s@.len(),
            i <= len,
            forall|j: int| 0 <= j < i ==> is_valid_header_char(s@[j]),
        decreases len - i,
    {
        let c = s.get_char(i);
        if !(c == '\t' || (c as u32 >= 32 && c as u32 != 127)) {
            return false;
        }
        i += 1;
    }
    true
}

/// The eleven fixed fingerprint headers, in emission order, as pairs
/// of views.
pub open spec fn spec_base_headers() -> Seq<(Seq<char>, Seq<char>)> {
    seq![
        ("User-Agent"@, "Mozilla/5.0 (Windows NT 10.0; Win64; x64) AppleWebKit/537.36 (KHTML, like Gecko) Chrome/133.0.0.0 Safari/537.36"@),
        ("Accept"@, "*/*"@),
        ("Accept-Language"@, "en-US,en;q=0.9"@),
        ("X-IG-App-ID"@, "936619743392459"@),
        ("X-Requested-With"@, "XMLHttpRequest"@),
        ("X-ASBD-ID"@, "129477"@),
        ("Origin"@, "https://www.instagram.com"@),
        ("Referer"@, "https://www.instagram.com/"@),
        ("Sec-Fetch-Dest"@, "empty"@),
        ("Sec-Fetch-Mode"@, "cors"@),
        ("Sec-Fetch-Site"@, "same-origin"@),
    ]
}

/// The full header set for a session: the fixed fingerprint headers,
/// then the CSRF header exactly when a well-formed token is present.
pub open spec fn spec_fingerprint_headers(csrf: Option<Seq<char>>) -> Seq<(Seq<char>, Seq<char>)> {
    match csrf {
        Some(token) => if valid_header_value(token) {
            spec_base_headers().push(("X-CSRFToken"@, token))
        } else {
            spec_base_headers()
        },
        None => spec_base_headers(),
    }
}

/// View of an emitted header list as name/value view pairs.
pub open spec fn header_views(hs: Seq<HeaderPair>) -> Seq<(Seq<char>, Seq<char>)> {
    hs.map_values(|h: HeaderPair| (h.name@, h.value@))
}

/// Build the header set for the given CSRF token state.
pub fn fingerprint_headers(csrf: &Option<String>) -> (r: Vec<HeaderPair>)
    ensures
        header_views(r@) == spec_fingerprint_headers(
            match csrf {
                Some(t) => Some(t@),
                None => None,
            },
        ),
{
    let mut hs: Vec<HeaderPair> = Vec::new();
    push_header(&mut hs, "User-Agent", "Mozilla/5.0 (Windows NT 10.0; Win64; x64) AppleWebKit/537.36 (KHTML, like Gecko) Chrome/133.0.0.0 Safari/537.36");
    push_header(&mut hs, "Accept", "*/*");
    push_header(&mut hs, "Accept-Language", "en-US,en;q=0.9");
    push_header(&mut hs, "X-IG-App-ID", "936619743392459");
    push_header(&mut hs, "X-Requested-With", "XMLHttpRequest");
    push_header(&mut hs, "X-ASBD-ID", "129477");
    push_header(&mut hs, "Origin", "https://www.instagram.com");
    push_header(&mut hs, "Referer", "https://www.instagram.com/");
    push_header(&mut hs, "Sec-Fetch-Dest", "empty");
    push_header(&mut hs, "Sec-Fetch-Mode", "cors");
    push_header(&mut hs, "Sec-Fetch-Site", "same-origin");
    proof {
        assert(header_views(hs@) =~= spec_base_headers());
    }
    if let Some(token) = csrf {
        if check_header_value(token.as_str()) {
            push_header(&mut hs, "X-CSRFToken", token.as_str());
            proof {
                assert(header_views(hs@) =~= spec_base_headers().push(("X-CSRFToken"@, token@)));
            }
        }
    }
    hs
}

/// Append one header pair built from string slices.
fn push_header(hs: &mut Vec<HeaderPair>, name: &str, value: &str)
    ensures
        final(hs)@.len() == old(hs)@.len() + 1,
        header_views(final(hs)@) == header_views(old(hs)@).push((name@, value@)),
{
    hs.push(HeaderPair { name: name.to_owned(), value: value.to_owned() });
    proof {
        assert(header_views(hs@) =~= header_views(old(hs)@).push((name@, value@)));
    }
}

} // verus!
