//! The `info-` header namespace: user headers travel to subscriber callbacks
//! with the prefix and are stored without it.
use vstd::prelude::*;
use vstd::string::StrSliceExecFns;
use vstd::string::StringExecFns;

verus! {

/// The request header that carries a subscriber's callback.
pub const CALLBACK_HEADER: &'static str = "Location";

/// A list of headers: name and value, in the order they came.
pub type HeaderList = Vec<(String, String)>;

/// The prefix that marks a user header on the wire.
pub open spec fn info_prefix() -> Seq<char> {
    seq!['i', 'n', 'f', 'o', '-']
}

/// Whether a header name begins with the prefix.
pub open spec fn has_info_prefix(k: Seq<char>) -> bool {
    k.len() >= 5 && k.subrange(0, 5) == info_prefix()
}

/// A header name with the prefix taken off, where it has one.
pub open spec fn strip_info(k: Seq<char>) -> Seq<char> {
    if has_info_prefix(k) {
        k.subrange(5, k.len() as int)
    } else {
        k
    }
}

/// The abstract value of a header list: pairs of character sequences.
pub open spec fn headers_view(h: Seq<(String, String)>) -> Seq<(Seq<char>, Seq<char>)> {
    h.map_values(|p: (String, String)| (p.0@, p.1@))
}

/// Every name prefixed, values unchanged.
pub open spec fn encoded(h: Seq<(Seq<char>, Seq<char>)>) -> Seq<(Seq<char>, Seq<char>)> {
    h.map_values(|p: (Seq<char>, Seq<char>)| (info_prefix() + p.0, p.1))
}

/// Every prefixed name stripped, other names and all values unchanged.
pub open spec fn decoded(h: Seq<(Seq<char>, Seq<char>)>) -> Seq<(Seq<char>, Seq<char>)> {
    h.map_values(|p: (Seq<char>, Seq<char>)| (strip_info(p.0), p.1))
}

/// The value of the last header named `name`, as a map built from the list
/// pair by pair would hold it.
pub open spec fn header_lookup(h: Seq<(Seq<char>, Seq<char>)>, name: Seq<char>) -> Option<Seq<char>>
    decreases h.len(),
{
    if h.len() == 0 {
        None
    } else if h.last().0 == name {
        Some(h.last().1)
    } else {
        header_lookup(h.drop_last(), name)
    }
}

/// Whether `k` begins with the prefix.
fn starts_with_info(k: &str) -> (r: bool)
    ensures
        r == has_info_prefix(k@),
{
    let n = k.unicode_len();
    if n < 5 {
        return false;
    }
    let ghost p = info_prefix();
    let a = k.get_char(0);
    let b = k.get_char(1);
    let c = k.get_char(2);
    let d = k.get_char(3);
    let e = k.get_char(4);
    let r = a == 'i' && b == 'n' && c == 'f' && d == 'o' && e == '-';
    assert(r == (k@.subrange(0, 5) =~= p));
    r
}

/// Puts every header in the `info-` namespace.
pub fn format_headers(h: &HeaderList) -> (r: HeaderList)
    ensures
        headers_view(r@) == encoded(headers_view(h@)),
{
    let mut r: HeaderList = Vec::new();
    let mut i: usize = 0;
    proof {
        reveal_strlit("info-");
        assert("info-"@ =~= info_prefix());
    }
    while i < h.len()
        invariant
            i <= h@.len(),
            headers_view(r@) =~= encoded(headers_view(h@)).take(i as int),
            "info-"@ == info_prefix(),
        decreases h@.len() - i,
    {
        let name = String::from_str("info-").concat(h[i].0.as_str());
        let value = h[i].1.clone();
        let ghost before = r@;
        r.push((name, value));
        assert(headers_view(r@) =~= headers_view(before).push((info_prefix() + h@[i as int].0@, h@[i as int].1@)));
        i = i + 1;
        assert(headers_view(r@) =~= encoded(headers_view(h@)).take(i as int));
    }
    r
}

/// Takes the `info-` prefix off every header that has it.
pub fn unformat_headers(h: &HeaderList) -> (r: HeaderList)
    ensures
        headers_view(r@) == decoded(headers_view(h@)),
{
    let mut r: HeaderList = Vec::new();
    let mut i: usize = 0;
    while i < h.len()
        invariant
            i <= h@.len(),
            headers_view(r@) =~= decoded(headers_view(h@)).take(i as int),
        decreases h@.len() - i,
    {
        let k = h[i].0.as_str();
        let name = if starts_with_info(k) {
            String::from_str(k.substring_char(5, k.unicode_len()))
        } else {
            String::from_str(k)
        };
        let value = h[i].1.clone();
        let ghost before = r@;
        r.push((name, value));
        assert(headers_view(r@) =~= headers_view(before).push((strip_info(h@[i as int].0@), h@[i as int].1@)));
        i = i + 1;
        assert(headers_view(r@) =~= decoded(headers_view(h@)).take(i as int));
    }
    r
}

/// The value of the last header named `name`, if any.
pub fn find_header(h: &HeaderList, name: &str) -> (r: Option<String>)
    ensures
        r matches Some(v) ==> header_lookup(headers_view(h@), name@) == Some(v@),
        r is None ==> header_lookup(headers_view(h@), name@) is None,
{
    let mut found: Option<String> = None;
    let mut i: usize = 0;
    while i < h.len()
        invariant
            i <= h@.len(),
            found matches Some(v) ==> header_lookup(headers_view(h@).take(i as int), name@) == Some(v@),
            found is None ==> header_lookup(headers_view(h@).take(i as int), name@) is None,
        decreases h@.len() - i,
    {
        assert(headers_view(h@).take(i + 1).drop_last() =~= headers_view(h@).take(i as int));
        if h[i].0.as_str().unicode_len() == name.unicode_len() && h[i].0 == String::from_str(name) {
            found = Some(h[i].1.clone());
        }
        i = i + 1;
    }
    assert(headers_view(h@).take(h@.len() as int) =~= headers_view(h@));
    found
}

/// Decoding undoes encoding: for every header list, the names come back as
/// they were, values untouched (in particular where no name begins with
/// `info-`).
pub proof fn lemma_decode_encode(h: Seq<(Seq<char>, Seq<char>)>)
    ensures
        decoded(encoded(h)) == h,
{
    assert forall|i: int| 0 <= i < h.len() implies #[trigger] decoded(encoded(h))[i] == h[i] by {
        let k = info_prefix() + h[i].0;
        assert(k.subrange(0, 5) =~= info_prefix());
        assert(k.subrange(5, k.len() as int) =~= h[i].0);
    }
    assert(decoded(encoded(h)) =~= h);
}

/// Encoding undoes decoding on lists whose names all begin with `info-`,
/// which is every list that encoding produces.
pub proof fn lemma_encode_decode(h: Seq<(Seq<char>, Seq<char>)>)
    requires
        forall|i: int| 0 <= i < h.len() ==> has_info_prefix(#[trigger] h[i].0),
    ensures
        encoded(decoded(h)) == h,
{
    assert forall|i: int| 0 <= i < h.len() implies #[trigger] encoded(decoded(h))[i] == h[i] by {
        let k = h[i].0;
        assert(has_info_prefix(k));
        assert(info_prefix() + k.subrange(5, k.len() as int) =~= k);
    }
    assert(encoded(decoded(h)) =~= h);
}

} // verus!
