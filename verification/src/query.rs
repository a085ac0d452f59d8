//! URLs and lists of parameters.
//!
//! A parameter list is an ordered sequence of pairs of a key and a value.
//! It is sent either in the query of a URL or, in
//! `application/x-www-form-urlencoded` syntax, as the body of a request.
//! Parsing URLs and encoding parameters is left to the `url` crate.

use vstd::prelude::*;
use vstd::utf8::encode_utf8;
use crate::text::pairs;

verus! {

/// `url::Url`, taken as it is: the library reads a URL only through
/// `url_text` and changes it only through `url_with_params`.
#[verifier::external_type_specification]
#[verifier::external_body]
pub struct ExUrl(url::Url);

/// `url::ParseError`, taken as it is: the library hands it on unread.
#[verifier::external_type_specification]
#[verifier::external_body]
pub struct ExParseError(url::ParseError);

/// What `Url::parse` makes of `input`: the URL, or the reason why `input`
/// is not an absolute URL.
pub uninterp spec fn url_parse(input: Seq<char>) -> Result<url::Url, url::ParseError>;

/// The serialization of a URL: the text that `Url::as_str` returns.
pub uninterp spec fn url_text(url: url::Url) -> Seq<char>;

/// The URL that results when `Url::query_pairs_mut` and then
/// `Serializer::extend_pairs` append `params` to the query of `base`.
pub uninterp spec fn url_with_params(base: url::Url, params: Seq<(Seq<char>, Seq<char>)>) -> url::Url;

/// The `application/x-www-form-urlencoded` form of `params`: what
/// `form_urlencoded::Serializer` writes into an empty string for them.
pub uninterp spec fn form_urlencoded(params: Seq<(Seq<char>, Seq<char>)>) -> Seq<char>;

/// The number of bytes in the UTF-8 encoding of `s`.
pub open spec fn byte_len(s: Seq<char>) -> nat {
    encode_utf8(s).len()
}

/// An upper bound on the number of bytes by which `params` lengthen a
/// query: each byte of a key or a value is written as at most three bytes,
/// and each pair brings a `=` and a separator.
pub open spec fn query_room(params: Seq<(Seq<char>, Seq<char>)>) -> nat
    decreases params.len(),
{
    if params.len() == 0 {
        0
    } else {
        query_room(params.drop_last()) + 2 + 3 * byte_len(params.last().0) + 3 * byte_len(
            params.last().1,
        )
    }
}

/// Whether `params` can be appended to the query of `base`: a URL is
/// limited to `u32::MAX` bytes.
pub open spec fn query_fits(base: url::Url, params: Seq<(Seq<char>, Seq<char>)>) -> bool {
    byte_len(url_text(base)) + 1 + query_room(params) <= u32::MAX
}

/// `Url` derives `Clone`: the copy is the same URL.
pub assume_specification[ <url::Url as Clone>::clone ](url: &url::Url) -> (copy: url::Url)
    ensures
        copy == *url,
;

/// Calls `Url::parse` of the `url` crate. Nothing is proved of it: the
/// result is known only as `url_parse` of the argument.
#[verifier::external_body]
pub(crate) fn parse_url(input: &str) -> (parsed: Result<url::Url, url::ParseError>)
    ensures
        parsed == url_parse(input@),
{
    url::Url::parse(input)
}

/// Calls `Url::as_str` of the `url` crate, which returns the serialization
/// that the URL stores.
#[verifier::external_body]
pub(crate) fn url_as_str(url: &url::Url) -> (text: &str)
    ensures
        text@ == url_text(*url),
{
    url.as_str()
}

/// Copies `base` and appends `params` to the copy's query, by
/// `Url::query_pairs_mut` and `Serializer::extend_pairs` of the `url` crate.
/// The crate stores positions in a URL as `u32` and panics where one does
/// not fit; `query_fits` keeps the result below that limit.
#[verifier::external_body]
pub(crate) fn append_params(base: &url::Url, params: &Vec<(String, String)>) -> (extended: url::Url)
    requires
        query_fits(*base, pairs(params@)),
    ensures
        extended == url_with_params(*base, pairs(params@)),
{
    let mut extended = base.clone();
    extended.query_pairs_mut().extend_pairs(params.iter());
    extended
}

/// Writes `params` in `application/x-www-form-urlencoded` syntax, by
/// `Serializer::new`, `extend_pairs` and `finish` of the `form_urlencoded`
/// crate, which `url` re-exports.
#[verifier::external_body]
pub(crate) fn form_urlencode(params: &Vec<(String, String)>) -> (encoded: String)
    ensures
        encoded@ == form_urlencoded(pairs(params@)),
{
    url::form_urlencoded::Serializer::new(String::new()).extend_pairs(params.iter()).finish()
}

/// The views of a sequence of pairs of string slices, in order.
pub open spec fn str_pairs<'a>(items: Seq<(&'a str, &'a str)>) -> Seq<(Seq<char>, Seq<char>)> {
    Seq::new(items.len(), |i: int| (items[i].0@, items[i].1@))
}

/// The first parameters of a list need no more room than the whole list.
pub proof fn lemma_query_room_grows(params: Seq<(Seq<char>, Seq<char>)>, n: int)
    requires
        0 <= n <= params.len(),
    ensures
        query_room(params.take(n)) <= query_room(params),
    decreases params.len(),
{
    if n == params.len() {
        assert(params.take(n) == params);
    } else {
        assert(params.drop_last().take(n) == params.take(n));
        lemma_query_room_grows(params.drop_last(), n);
    }
}

/// Appends the pair of `key` and `value` to `params`.
pub fn push_param(params: &mut Vec<(String, String)>, key: &str, value: &str)
    ensures
        pairs(final(params)@) == pairs(old(params)@).push((key@, value@)),
{
    params.push((key.to_owned(), value.to_owned()));
    assert(pairs(params@) =~= pairs(old(params)@).push((key@, value@)));
}

/// Whether `params` can be appended to the query of `base`.
pub fn params_fit(base: &url::Url, params: &Vec<(String, String)>) -> (fits: bool)
    ensures
        fits == query_fits(*base, pairs(params@)),
{
    let limit: u64 = 0xffff_ffff;
    let base_len: usize = url_as_str(base).as_bytes().len();
    if base_len as u64 >= limit {
        return false;
    }
    let mut total: u64 = base_len as u64 + 1;
    let mut i: usize = 0;
    while i < params.len()
        invariant
            0 <= i <= params.len(),
            limit == u32::MAX,
            total == byte_len(url_text(*base)) + 1 + query_room(pairs(params@).take(i as int)),
            total <= limit,
        decreases params.len() - i,
    {
        let key_len: usize = params[i].0.as_str().as_bytes().len();
        let value_len: usize = params[i].1.as_str().as_bytes().len();
        proof {
            let read = pairs(params@).take(i + 1);
            assert(read.drop_last() == pairs(params@).take(i as int));
            assert(read.last() == (params@[i as int].0@, params@[i as int].1@));
            lemma_query_room_grows(pairs(params@), i + 1);
        }
        if key_len as u64 > limit || value_len as u64 > limit {
            return false;
        }
        let more: u64 = 2 + 3 * (key_len as u64) + 3 * (value_len as u64);
        if total + more > limit {
            return false;
        }
        total = total + more;
        i = i + 1;
    }
    assert(pairs(params@).take(params.len() as int) == pairs(params@));
    true
}

/// The URL that results when `params` are appended to the query of `base`,
/// where the result stays within the limit of a URL's length, and nothing
/// otherwise.
pub fn extend_query(base: &url::Url, params: &Vec<(String, String)>) -> (extended: Option<url::Url>)
    ensures
        extended == if query_fits(*base, pairs(params@)) {
            Some(url_with_params(*base, pairs(params@)))
        } else {
            None
        },
{
    if params_fit(base, params) {
        Some(append_params(base, params))
    } else {
        None
    }
}

/// The parameter of one key and one value, as a list.
pub open spec fn param(key: Seq<char>, value: Seq<char>) -> Seq<(Seq<char>, Seq<char>)> {
    seq![(key, value)]
}

/// The parameter of one key, where there is a value for it.
pub open spec fn opt_param(key: Seq<char>, value: Option<Seq<char>>) -> Seq<(Seq<char>, Seq<char>)> {
    match value {
        Some(v) => param(key, v),
        None => Seq::empty(),
    }
}

/// The values that `params` hold for `key`, in their order.
pub open spec fn values_of(params: Seq<(Seq<char>, Seq<char>)>, key: Seq<char>) -> Seq<Seq<char>>
    decreases params.len(),
{
    if params.len() == 0 {
        Seq::empty()
    } else if params.last().0 == key {
        values_of(params.drop_last(), key).push(params.last().1)
    } else {
        values_of(params.drop_last(), key)
    }
}

/// `values` where `name` is `key`, and nothing otherwise.
pub open spec fn hit(name: Seq<char>, key: Seq<char>, values: Seq<Seq<char>>) -> Seq<Seq<char>> {
    if name == key {
        values
    } else {
        Seq::empty()
    }
}

/// The value of an optional parameter as a list.
pub open spec fn opt_value(value: Option<Seq<char>>) -> Seq<Seq<char>> {
    match value {
        Some(v) => seq![v],
        None => Seq::empty(),
    }
}

/// One parameter holds its value for its own key and none for another.
pub proof fn lemma_values_of_param(name: Seq<char>, value: Seq<char>, key: Seq<char>)
    ensures
        values_of(param(name, value), key) == hit(name, key, seq![value]),
{
    assert(param(name, value).drop_last() =~= Seq::empty());
    assert(values_of(param(name, value).drop_last(), key) =~= Seq::empty());
    if name == key {
        assert(values_of(param(name, value), key) =~= seq![value]);
    }
}

/// An optional parameter holds its value, where it has one, for its own
/// key and none for another.
pub proof fn lemma_values_of_opt_param(name: Seq<char>, value: Option<Seq<char>>, key: Seq<char>)
    ensures
        values_of(opt_param(name, value), key) == hit(name, key, opt_value(value)),
{
    match value {
        Some(v) => {
            lemma_values_of_param(name, v, key);
        },
        None => {},
    }
}

/// The values of two lists in a row are those of the first, then those of
/// the second.
pub proof fn lemma_values_of_concat(
    first: Seq<(Seq<char>, Seq<char>)>,
    second: Seq<(Seq<char>, Seq<char>)>,
    key: Seq<char>,
)
    ensures
        values_of(first + second, key) == values_of(first, key) + values_of(second, key),
    decreases second.len(),
{
    if second.len() == 0 {
        assert(first + second =~= first);
        assert(values_of(first, key) + values_of(second, key) =~= values_of(first, key));
    } else {
        lemma_values_of_concat(first, second.drop_last(), key);
        assert((first + second).drop_last() =~= first + second.drop_last());
        assert((first + second).last() == second.last());
        if second.last().0 == key {
            assert(values_of(first, key) + values_of(second.drop_last(), key).push(
                second.last().1,
            ) =~= (values_of(first, key) + values_of(second.drop_last(), key)).push(
                second.last().1,
            ));
        }
    }
}

} // verus!
