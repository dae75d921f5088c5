//! The cookies middleware: which request cookies it keeps, and how it reads
//! them from the `Cookie` header.
use vstd::prelude::*;
use vstd::multiset::Multiset;
use vstd::string::StringSliceAdditionalSpecFns;
use vstd::utf8::encode_utf8;
use crate::encoding::UriEncoding;
use crate::error::{Error, ErrorSource, SourceChain};
use crate::guard::{is_header_value, header_value_check, HEADER_MAP_ROOM};
use crate::status::INTERNAL_SERVER_ERROR;
use crate::guard::{first_header_value, header_map_contents, header_get};
use crate::text::{owned, str_eq, string_from_utf8, ascii_text, lemma_ascii_utf8, is_ascii_bytes};

verus! {

/// The cookies (name and value, or `None` for an item that fails to parse)
/// that `cookie::Cookie::split_parse` reads from a `Cookie` header.
pub uninterp spec fn cookie_pairs(input: Seq<char>) -> Seq<Option<(Seq<char>, Seq<char>)>>;

/// The same for `cookie::Cookie::split_parse_encoded`, which also
/// percent-decodes names and values.
pub uninterp spec fn cookie_pairs_encoded(input: Seq<char>) -> Seq<Option<(Seq<char>, Seq<char>)>>;

/// The views of optional name and value pairs.
pub open spec fn option_pair_views(v: Seq<Option<(String, String)>>) -> Seq<
    Option<(Seq<char>, Seq<char>)>,
> {
    v.map_values(
        |p: Option<(String, String)>|
            match p {
                Some((n, x)) => Some((n@, x@)),
                None => None,
            },
    )
}

/// The views of name and value pairs.
pub open spec fn pair_views(v: Seq<(String, String)>) -> Seq<(Seq<char>, Seq<char>)> {
    v.map_values(|p: (String, String)| (p.0@, p.1@))
}

/// Calls `cookie::Cookie::split_parse` and reads the name and value of each
/// cookie it yields.
#[verifier::external_body]
fn split_parse(input: &str) -> (r: Vec<Option<(String, String)>>)
    ensures
        option_pair_views(r@) == cookie_pairs(input@),
{
    cookie::Cookie::split_parse(input).map(
        |item| item.ok().map(|c| (c.name().to_owned(), c.value().to_owned())),
    ).collect()
}

/// Calls `cookie::Cookie::split_parse_encoded` and reads the name and value
/// of each cookie it yields.
#[verifier::external_body]
fn split_parse_encoded(input: &str) -> (r: Vec<Option<(String, String)>>)
    ensures
        option_pair_views(r@) == cookie_pairs_encoded(input@),
{
    cookie::Cookie::split_parse_encoded(input).map(
        |item| item.ok().map(|c| (c.name().to_owned(), c.value().to_owned())),
    ).collect()
}

#[verifier::external_type_specification]
#[verifier::external_body]
pub struct ExCookieJar(cookie::CookieJar);

/// The cookies of a jar that were added or removed since it was made, each
/// as its `Set-Cookie` text, plain and percent-encoded.
pub uninterp spec fn jar_delta(jar: cookie::CookieJar) -> Multiset<(Seq<char>, Seq<char>)>;

/// Calls `CookieJar::delta` and writes each cookie it yields with `Display`
/// and with `Cookie::encoded`. The jar walks a hash set, so the order of the
/// items is not stated, only which items there are.
#[verifier::external_body]
fn delta_texts(jar: &cookie::CookieJar) -> (r: Vec<(String, String)>)
    ensures
        pair_views(r@).to_multiset() == jar_delta(*jar),
{
    jar.delta().map(|cookie| (cookie.to_string(), cookie.encoded().to_string())).collect()
}

/// The map with `value` appended to the values of `name`.
pub open spec fn appended(m: Map<Seq<char>, Seq<Seq<u8>>>, name: Seq<char>, value: Seq<u8>) -> Map<
    Seq<char>,
    Seq<Seq<u8>>,
> {
    m.insert(name, (if m.contains_key(name) { m[name] } else { seq![] }).push(value))
}

/// Calls `HeaderMap::try_append` with the name `set-cookie` and `value`
/// (made a header value by `HeaderValue::from_str`, which accepts it). Its
/// source pushes the value to the end of the name's values, or fails,
/// changing nothing, when the map cannot grow for it. That cannot happen
/// while the map holds at most `HEADER_MAP_ROOM` names; beyond that, whether
/// it fails rests on the state of the map's table.
#[verifier::external_body]
fn append_set_cookie(map: &mut http::HeaderMap, value: &str) -> (r: Result<bool, ()>)
    requires
        is_header_value(value.spec_bytes()),
    ensures
        r matches Ok(existed) ==> existed == header_map_contents(*old(map)).contains_key(
            "set-cookie"@,
        ) && header_map_contents(*final(map)) == appended(
            header_map_contents(*old(map)),
            "set-cookie"@,
            value.spec_bytes(),
        ),
        r is Err ==> header_map_contents(*final(map)) == header_map_contents(*old(map)),
        header_map_contents(*old(map)).dom().len() <= HEADER_MAP_ROOM ==> r is Ok,
        r is Ok ==> header_map_contents(*final(map)).dom().finite(),
{
    let name = http::HeaderName::from_static("set-cookie");
    map.try_append(name, http::HeaderValue::from_str(value).unwrap()).map_err(|_| ())
}

/// The text of a cookie in a `Set-Cookie` header, as the encoding says.
pub open spec fn set_cookie_text(encoding: UriEncoding, item: (Seq<char>, Seq<char>)) -> Seq<char> {
    match encoding {
        UriEncoding::Percent => item.1,
        UriEncoding::Unencoded => item.0,
    }
}

/// The map with one `Set-Cookie` value appended per item, in order.
pub open spec fn with_set_cookies(
    m: Map<Seq<char>, Seq<Seq<u8>>>,
    encoding: UriEncoding,
    items: Seq<(Seq<char>, Seq<char>)>,
) -> Map<Seq<char>, Seq<Seq<u8>>>
    decreases items.len(),
{
    if items.len() == 0 {
        m
    } else {
        appended(
            with_set_cookies(m, encoding, items.drop_last()),
            "set-cookie"@,
            encode_utf8(set_cookie_text(encoding, items.last())),
        )
    }
}

/// Every item's text, as the encoding picks it, is a valid header value.
pub open spec fn set_cookies_valid(encoding: UriEncoding, items: Seq<(Seq<char>, Seq<char>)>) -> bool {
    forall|i: int|
        0 <= i < items.len() ==> is_header_value(encode_utf8(set_cookie_text(encoding, #[trigger] items[i])))
}

/// Every changed cookie's text, as the encoding picks it, is a valid header
/// value.
pub open spec fn delta_valid(encoding: UriEncoding, delta: Multiset<(Seq<char>, Seq<char>)>) -> bool {
    forall|t: (Seq<char>, Seq<char>)|
        #[trigger] delta.count(t) > 0 ==> is_header_value(encode_utf8(set_cookie_text(encoding, t)))
}

/// The message of the error of a `Set-Cookie` header that cannot be written.
pub open spec fn set_cookie_error_message() -> Seq<char> {
    "An error occurred while writing a Set-Cookie header to a response."@
}

/// The error of a `Set-Cookie` header that cannot be written: `500`.
pub open spec fn is_set_cookie_error(e: Error) -> bool {
    &&& e.spec_status() == INTERNAL_SERVER_ERROR
    &&& e.spec_source() matches ErrorSource::Other(c) && c.messages() == seq![set_cookie_error_message()]
}

fn set_cookie_error() -> (r: Error)
    ensures
        is_set_cookie_error(r),
{
    Error::other(SourceChain::single("An error occurred while writing a Set-Cookie header to a response."))
}

/// Parses and manages the request and response cookies whose names are on
/// the allow list; every other cookie is ignored.
pub struct Cookies {
    encoding: UriEncoding,
    allow: Vec<String>,
}

impl Clone for Cookies {
    fn clone(&self) -> (r: Self)
        ensures
            r.spec_encoding() == self.spec_encoding(),
            r.spec_allow() == self.spec_allow(),
    {
        proof {
            use_type_invariant(self);
        }
        let mut allow: Vec<String> = Vec::new();
        let mut i: usize = 0;
        while i < self.allow.len()
            invariant
                i <= self.allow@.len(),
                allow@.map_values(|s: String| s@) == self.spec_allow().take(i as int),
            decreases self.allow@.len() - i,
        {
            let ghost before = allow@;
            allow.push(self.allow[i].clone());
            assert(allow@.map_values(|s: String| s@) =~= before.map_values(|s: String| s@).push(
                self.allow@[i as int]@,
            ));
            assert(self.spec_allow().take(i + 1) =~= self.spec_allow().take(i as int).push(
                self.allow@[i as int]@,
            ));
            i = i + 1;
        }
        assert(self.spec_allow().take(self.allow@.len() as int) =~= self.spec_allow());
        Cookies { encoding: self.encoding, allow }
    }
}

/// No name occurs twice.
pub open spec fn no_duplicates(names: Seq<Seq<char>>) -> bool {
    forall|i: int, j: int| 0 <= i < j < names.len() ==> names[i] != names[j]
}

/// The cookies of `items` that parsed and whose names are allowed, in
/// order.
pub open spec fn kept_cookies(items: Seq<Option<(Seq<char>, Seq<char>)>>, allow: Seq<Seq<char>>) -> Seq<
    (Seq<char>, Seq<char>),
>
    decreases items.len(),
{
    if items.len() == 0 {
        seq![]
    } else {
        let init = kept_cookies(items.drop_last(), allow);
        match items.last() {
            Some(pair) => if allow.contains(pair.0) {
                init.push(pair)
            } else {
                init
            },
            None => init,
        }
    }
}

/// The cookies that a `Cookie` header holds, read as the encoding says.
pub open spec fn parsed_cookies(encoding: UriEncoding, input: Seq<char>) -> Seq<
    Option<(Seq<char>, Seq<char>)>,
> {
    match encoding {
        UriEncoding::Percent => cookie_pairs_encoded(input),
        UriEncoding::Unencoded => cookie_pairs(input),
    }
}

/// A byte that `HeaderValue::to_str` accepts: visible ASCII or a tab.
pub open spec fn is_visible_ascii(b: u8) -> bool {
    (32 <= b < 127) || b == 9
}

/// Every byte is one that `HeaderValue::to_str` accepts.
pub open spec fn all_visible_ascii(value: Seq<u8>) -> bool {
    forall|i: int| 0 <= i < value.len() ==> is_visible_ascii(#[trigger] value[i])
}

impl Cookies {
    #[verifier::type_invariant]
    spec fn inv(self) -> bool {
        no_duplicates(self.allow@.map_values(|s: String| s@))
    }

    pub closed spec fn spec_encoding(self) -> UriEncoding {
        self.encoding
    }

    /// The allowed names, in the order they were first given.
    pub closed spec fn spec_allow(self) -> Seq<Seq<char>> {
        self.allow@.map_values(|s: String| s@)
    }

    /// The allowed names never repeat.
    fn names_unique(&self)
        ensures
            no_duplicates(self.spec_allow()),
    {
        proof {
            use_type_invariant(self);
        }
    }

    /// No cookie is allowed yet; cookies are read without decoding.
    fn new() -> (r: Self)
        ensures
            r.spec_encoding() == UriEncoding::Unencoded,
            r.spec_allow() == Seq::<Seq<char>>::empty(),
    {
        let r = Cookies { encoding: UriEncoding::Unencoded, allow: Vec::new() };
        assert(r.allow@.map_values(|s: String| s@) =~= Seq::<Seq<char>>::empty());
        r
    }

    /// Whether the cookie `name` is on the allow list.
    pub fn allows(&self, name: &str) -> (r: bool)
        ensures
            r == self.spec_allow().contains(name@),
    {
        let mut i: usize = 0;
        while i < self.allow.len()
            invariant
                i <= self.allow@.len(),
                forall|j: int| 0 <= j < i ==> self.allow@[j]@ != name@,
            decreases self.allow@.len() - i,
        {
            if str_eq(self.allow[i].as_str(), name) {
                proof {
                    assert(self.spec_allow()[i as int] == name@);
                }
                return true;
            }
            i = i + 1;
        }
        proof {
            if self.spec_allow().contains(name@) {
                let k = choose|k: int| 0 <= k < self.spec_allow().len() && self.spec_allow()[k] == name@;
                assert(self.allow@[k]@ == name@);
            }
        }
        false
    }

    /// Adds `name` to the allow list, unless it is there already.
    fn allow(self, name: &str) -> (r: Self)
        ensures
            r.spec_encoding() == self.spec_encoding(),
            r.spec_allow() == (if self.spec_allow().contains(name@) {
                self.spec_allow()
            } else {
                self.spec_allow().push(name@)
            }),
    {
        proof {
            use_type_invariant(&self);
        }
        if self.allows(name) {
            return self;
        }
        let Cookies { encoding, allow } = self;
        let mut allow = allow;
        let ghost before = allow@;
        allow.push(owned(name));
        assert(allow@.map_values(|s: String| s@) =~= before.map_values(|s: String| s@).push(name@));
        Cookies { encoding, allow }
    }

    /// Percent-decodes cookies when they are parsed and percent-encodes them
    /// when they are serialized.
    pub fn decode(self) -> (r: Self)
        ensures
            r.spec_encoding() == UriEncoding::Percent,
            r.spec_allow() == self.spec_allow(),
    {
        proof {
            use_type_invariant(&self);
        }
        let Cookies { encoding: _, allow } = self;
        Cookies { encoding: UriEncoding::Percent, allow }
    }

    /// How cookies are parsed and serialized.
    pub fn encoding(&self) -> (r: UriEncoding)
        ensures
            r == self.spec_encoding(),
    {
        self.encoding
    }

    /// The cookies of a `Cookie` header that parse and are allowed.
    pub fn parse(&self, input: &str) -> (r: Vec<(String, String)>)
        ensures
            pair_views(r@) == kept_cookies(parsed_cookies(self.spec_encoding(), input@), self.spec_allow()),
    {
        let items = match self.encoding {
            UriEncoding::Percent => split_parse_encoded(input),
            UriEncoding::Unencoded => split_parse(input),
        };
        let ghost all = option_pair_views(items@);
        let mut kept: Vec<(String, String)> = Vec::new();
        let mut i: usize = 0;
        while i < items.len()
            invariant
                i <= items@.len(),
                all == option_pair_views(items@),
                pair_views(kept@) == kept_cookies(all.take(i as int), self.spec_allow()),
            decreases items@.len() - i,
        {
            assert(all.take(i + 1).drop_last() =~= all.take(i as int));
            assert(all.take(i + 1).last() == all[i as int]);
            match &items[i] {
                Some(pair) => {
                    if self.allows(pair.0.as_str()) {
                        let ghost before = kept@;
                        kept.push((pair.0.clone(), pair.1.clone()));
                        assert(pair_views(kept@) =~= pair_views(before).push((pair.0@, pair.1@)));
                    }
                },
                None => {},
            }
            i = i + 1;
        }
        assert(all.take(items@.len() as int) =~= all);
        kept
    }

    /// Appends one `Set-Cookie` header per item of `delta` (the plain and the
    /// percent-encoded text of a changed cookie), picking the text by the
    /// encoding. A text that is no valid header value, or a header map that
    /// cannot take another value, stops the writing with a `500` error; a
    /// map that holds fewer than `HEADER_MAP_ROOM` names always has room.
    pub fn set_cookie_headers(&self, delta: &[(String, String)], headers: &mut http::HeaderMap) -> (r: Result<(), Error>)
        ensures
            r is Ok ==> header_map_contents(*final(headers)) == with_set_cookies(
                header_map_contents(*old(headers)),
                self.spec_encoding(),
                pair_views(delta@),
            ),
            !set_cookies_valid(self.spec_encoding(), pair_views(delta@)) ==> r is Err,
            set_cookies_valid(self.spec_encoding(), pair_views(delta@)) && header_map_contents(
                *old(headers),
            ).dom().len() < HEADER_MAP_ROOM ==> r is Ok,
            r matches Err(e) ==> is_set_cookie_error(e),
    {
        let ghost items = pair_views(delta@);
        let ghost start = header_map_contents(*headers);
        let ghost name = "set-cookie"@;
        let mut i: usize = 0;
        while i < delta.len()
            invariant
                i <= delta@.len(),
                items == pair_views(delta@),
                header_map_contents(*headers) == with_set_cookies(
                    start,
                    self.spec_encoding(),
                    items.take(i as int),
                ),
                forall|j: int|
                    0 <= j < i ==> is_header_value(
                        encode_utf8(set_cookie_text(self.spec_encoding(), #[trigger] items[j])),
                    ),
                name == "set-cookie"@,
                start == header_map_contents(*old(headers)),
                i > 0 ==> header_map_contents(*headers).dom() == start.dom().insert(name)
                    && header_map_contents(*headers).dom().finite(),
            decreases delta@.len() - i,
        {
            let text = match self.encoding {
                UriEncoding::Percent => delta[i].1.as_str(),
                UriEncoding::Unencoded => delta[i].0.as_str(),
            };
            assert(text@ == set_cookie_text(self.spec_encoding(), items[i as int]));
            match header_value_check(text) {
                Ok(()) => {},
                Err(_) => {
                    return Err(set_cookie_error());
                },
            }
            proof {
                if start.dom().len() < HEADER_MAP_ROOM {
                    let cur = header_map_contents(*headers).dom();
                    if i == 0 {
                        assert(items.take(0) =~= Seq::<(Seq<char>, Seq<char>)>::empty());
                        assert(cur == start.dom());
                    } else if start.dom().contains(name) {
                        assert(start.dom().insert(name) =~= start.dom());
                    } else {
                        assert(start.dom() =~= cur.remove(name));
                        assert(start.dom().finite());
                        assert(start.dom().insert(name).len() == start.dom().len() + 1);
                    }
                    assert(cur.len() <= HEADER_MAP_ROOM);
                }
            }
            let ghost before = header_map_contents(*headers);
            match append_set_cookie(headers, text) {
                Ok(_) => {},
                Err(_) => {
                    return Err(set_cookie_error());
                },
            }
            assert(items.take(i + 1).drop_last() =~= items.take(i as int));
            assert(items.take(i + 1).last() == items[i as int]);
            proof {
                reveal_strlit("set-cookie");
                assert(header_map_contents(*headers).dom() =~= before.dom().insert(name));
                if i > 0 {
                    assert(before.dom().insert(name) =~= start.dom().insert(name));
                }
            }
            i = i + 1;
        }
        assert(items.take(delta@.len() as int) =~= items);
        Ok(())
    }

    /// Writes the cookies of `jar` that changed as `Set-Cookie` headers, in
    /// the order the jar yields them. It succeeds when every changed
    /// cookie's text is a valid header value and the map has room, and fails
    /// with the `Set-Cookie` error when some text is not.
    pub fn write_set_cookies(&self, jar: &cookie::CookieJar, headers: &mut http::HeaderMap) -> (r: Result<(), Error>)
        ensures
            r is Ok ==> exists|d: Seq<(Seq<char>, Seq<char>)>|
                d.to_multiset() == jar_delta(*jar) && header_map_contents(*final(headers))
                    == with_set_cookies(header_map_contents(*old(headers)), self.spec_encoding(), d),
            delta_valid(self.spec_encoding(), jar_delta(*jar)) && header_map_contents(
                *old(headers),
            ).dom().len() < HEADER_MAP_ROOM ==> r is Ok,
            !delta_valid(self.spec_encoding(), jar_delta(*jar)) ==> r is Err,
            r matches Err(e) ==> is_set_cookie_error(e),
    {
        let delta = delta_texts(jar);
        proof {
            broadcast use vstd::seq_lib::group_to_multiset_ensures;
            let items = pair_views(delta@);
            assert(delta_valid(self.spec_encoding(), jar_delta(*jar)) <==> set_cookies_valid(
                self.spec_encoding(),
                items,
            )) by {
                if delta_valid(self.spec_encoding(), jar_delta(*jar)) {
                    assert forall|i: int| 0 <= i < items.len() implies is_header_value(
                        encode_utf8(set_cookie_text(self.spec_encoding(), #[trigger] items[i])),
                    ) by {
                        assert(items.contains(items[i]));
                        assert(items.to_multiset().count(items[i]) > 0);
                    }
                }
                if set_cookies_valid(self.spec_encoding(), items) {
                    assert forall|t: (Seq<char>, Seq<char>)| #[trigger] jar_delta(*jar).count(t) > 0 implies is_header_value(
                        encode_utf8(set_cookie_text(self.spec_encoding(), t)),
                    ) by {
                        assert(items.contains(t));
                        let k = choose|k: int| 0 <= k < items.len() && items[k] == t;
                        assert(is_header_value(encode_utf8(set_cookie_text(self.spec_encoding(), items[k]))));
                    }
                }
            }
        }
        let r = self.set_cookie_headers(delta.as_slice(), headers);
        assert(r is Ok ==> header_map_contents(*headers) == with_set_cookies(
            header_map_contents(*old(headers)),
            self.spec_encoding(),
            pair_views(delta@),
        ));
        r
    }

    /// The allowed cookies of a request: `None` when the request has no
    /// `Cookie` header or its value is not visible ASCII.
    pub fn request_cookies(&self, headers: &http::HeaderMap) -> (r: Option<Vec<(String, String)>>)
        ensures
            match first_header_value(header_map_contents(*headers), "cookie"@) {
                Some(value) => if all_visible_ascii(value) {
                    r matches Some(list) && pair_views(list@) == kept_cookies(
                        parsed_cookies(self.spec_encoding(), ascii_text(value)),
                        self.spec_allow(),
                    )
                } else {
                    r is None
                },
                None => r is None,
            },
    {
        proof {
            reveal_strlit("cookie");
        }
        let value = match header_get(headers, "cookie") {
            Some(v) => v,
            None => return None,
        };
        let mut i: usize = 0;
        while i < value.len()
            invariant
                i <= value@.len(),
                first_header_value(header_map_contents(*headers), "cookie"@) == Some(value@),
                forall|j: int| 0 <= j < i ==> is_visible_ascii(#[trigger] value@[j]),
            decreases value@.len() - i,
        {
            let b = value[i];
            if !((32 <= b && b < 127) || b == 9) {
                assert(!is_visible_ascii(value@[i as int]));
                return None;
            }
            i = i + 1;
        }
        let mut bytes: Vec<u8> = Vec::new();
        let mut k: usize = 0;
        while k < value.len()
            invariant
                k <= value@.len(),
                bytes@ == value@.take(k as int),
            decreases value@.len() - k,
        {
            bytes.push(value[k]);
            k = k + 1;
            assert(bytes@ =~= value@.take(k as int));
        }
        assert(value@.take(value@.len() as int) =~= value@);
        proof {
            assert(is_ascii_bytes(value@)) by {
                assert forall|j: int| 0 <= j < value@.len() implies #[trigger] value@[j] < 0x80 by {
                    assert(is_visible_ascii(value@[j]));
                }
            }
            lemma_ascii_utf8(value@);
        }
        match string_from_utf8(bytes) {
            Some(text) => Some(self.parse(text.as_str())),
            None => None,
        }
    }
}

/// A cookies middleware that keeps the cookies named in `allow`.
pub fn cookies(allow: &[&str]) -> (r: Cookies)
    ensures
        r.spec_encoding() == UriEncoding::Unencoded,
        forall|n: Seq<char>| #[trigger] r.spec_allow().contains(n) <==> exists|i: int|
            0 <= i < allow@.len() && allow@[i]@ == n,
        no_duplicates(r.spec_allow()),
{
    let mut r = Cookies::new();
    let mut i: usize = 0;
    while i < allow.len()
        invariant
            i <= allow@.len(),
            r.spec_encoding() == UriEncoding::Unencoded,
            forall|n: Seq<char>| #[trigger] r.spec_allow().contains(n) <==> exists|j: int|
                0 <= j < i && allow@[j]@ == n,
        decreases allow@.len() - i,
    {
        let ghost before = r.spec_allow();
        r = r.allow(allow[i]);
        proof {
            assert forall|n: Seq<char>| #[trigger] r.spec_allow().contains(n) <==> exists|j: int|
                0 <= j < i + 1 && allow@[j]@ == n by {
                if r.spec_allow().contains(n) {
                    if before.contains(n) {
                    } else {
                        assert(n == allow@[i as int]@);
                    }
                }
                if exists|j: int| 0 <= j < i + 1 && allow@[j]@ == n {
                    let j = choose|j: int| 0 <= j < i + 1 && allow@[j]@ == n;
                    if j < i {
                        assert(before.contains(n));
                        if !before.contains(allow@[i as int]@) {
                            assert(before.push(allow@[i as int]@)[before.index_of(n)] == n);
                        }
                    } else {
                        if !before.contains(n) {
                            assert(before.push(n)[before.len() as int] == n);
                        }
                    }
                }
            }
        }
        i = i + 1;
    }
    r.names_unique();
    r
}

/// Which cookies are kept is decided cookie by cookie: the cookies kept from
/// two runs of items are those kept from the first then those from the
/// second, and a single item is kept exactly when it parsed and its name is
/// allowed.
pub proof fn lemma_kept_compose(
    a: Seq<Option<(Seq<char>, Seq<char>)>>,
    b: Seq<Option<(Seq<char>, Seq<char>)>>,
    allow: Seq<Seq<char>>,
    item: Option<(Seq<char>, Seq<char>)>,
)
    ensures
        kept_cookies(a + b, allow) == kept_cookies(a, allow) + kept_cookies(b, allow),
        kept_cookies(seq![item], allow) == (match item {
            Some(pair) => if allow.contains(pair.0) {
                seq![pair]
            } else {
                Seq::<(Seq<char>, Seq<char>)>::empty()
            },
            None => Seq::<(Seq<char>, Seq<char>)>::empty(),
        }),
    decreases b.len(),
{
    let none = Seq::<Option<(Seq<char>, Seq<char>)>>::empty();
    assert(seq![item].drop_last() =~= none);
    assert(kept_cookies(none, allow) =~= Seq::<(Seq<char>, Seq<char>)>::empty());
    if let Some(pair) = item {
        assert(Seq::<(Seq<char>, Seq<char>)>::empty().push(pair) =~= seq![pair]);
    }
    if b.len() == 0 {
        assert(a + b =~= a);
        assert(kept_cookies(a, allow) + kept_cookies(b, allow) =~= kept_cookies(a, allow));
    } else {
        lemma_kept_compose(a, b.drop_last(), allow, item);
        assert((a + b).drop_last() =~= a + b.drop_last());
        assert((a + b).last() == b.last());
        let ka = kept_cookies(a, allow);
        let kb = kept_cookies(b.drop_last(), allow);
        if let Some(pair) = b.last() {
            assert((ka + kb).push(pair) =~= ka + kb.push(pair));
        }
    }
}

/// The `Set-Cookie` values that writing `items` leaves: the values the map
/// had under `set-cookie`, then one value per item, in order, each the text
/// that the encoding picks (the percent-encoded text when cookies are
/// encoded, the plain text otherwise). Every other header is left alone.
pub proof fn lemma_set_cookies_appended(
    m: Map<Seq<char>, Seq<Seq<u8>>>,
    encoding: UriEncoding,
    items: Seq<(Seq<char>, Seq<char>)>,
    other: Seq<char>,
)
    ensures
        set_cookie_text(UriEncoding::Percent, items.last()) == items.last().1,
        set_cookie_text(UriEncoding::Unencoded, items.last()) == items.last().0,
        with_set_cookies(m, encoding, items).contains_key("set-cookie"@) <==> (m.contains_key(
            "set-cookie"@,
        ) || items.len() > 0),
        with_set_cookies(m, encoding, items).contains_key("set-cookie"@) ==> with_set_cookies(
            m,
            encoding,
            items,
        )["set-cookie"@] == (if m.contains_key("set-cookie"@) {
            m["set-cookie"@]
        } else {
            Seq::<Seq<u8>>::empty()
        }) + items.map_values(|t: (Seq<char>, Seq<char>)| encode_utf8(set_cookie_text(encoding, t))),
        other != "set-cookie"@ ==> with_set_cookies(m, encoding, items).contains_key(other)
            == m.contains_key(other),
        other != "set-cookie"@ && m.contains_key(other) ==> with_set_cookies(m, encoding, items)[other]
            == m[other],
    decreases items.len(),
{
    let sc = "set-cookie"@;
    let f = |t: (Seq<char>, Seq<char>)| encode_utf8(set_cookie_text(encoding, t));
    let base = if m.contains_key(sc) { m[sc] } else { Seq::<Seq<u8>>::empty() };
    if items.len() == 0 {
        assert(base + items.map_values(f) =~= base);
    } else {
        lemma_set_cookies_appended(m, encoding, items.drop_last(), other);
        let prev = with_set_cookies(m, encoding, items.drop_last());
        let v = encode_utf8(set_cookie_text(encoding, items.last()));
        assert(items.map_values(f) =~= items.drop_last().map_values(f).push(v));
        if prev.contains_key(sc) {
            assert(prev[sc] == base + items.drop_last().map_values(f));
            assert((base + items.drop_last().map_values(f)).push(v) =~= base + items.map_values(f));
        } else {
            assert(items.drop_last().len() == 0);
            assert(items.drop_last().map_values(f) =~= Seq::<Seq<u8>>::empty());
            assert(!m.contains_key(sc));
            assert(seq![].push(v) =~= base + items.map_values(f));
        }
    }
}

/// The cookies kept from a header are allowed cookies: each of them parsed
/// and has a name on the allow list.
pub proof fn lemma_kept_are_allowed(items: Seq<Option<(Seq<char>, Seq<char>)>>, allow: Seq<Seq<char>>)
    ensures
        forall|k: int| 0 <= k < kept_cookies(items, allow).len() ==> allow.contains(
            #[trigger] kept_cookies(items, allow)[k].0,
        ) && items.contains(Some(kept_cookies(items, allow)[k])),
    decreases items.len(),
{
    if items.len() > 0 {
        lemma_kept_are_allowed(items.drop_last(), allow);
        let init = kept_cookies(items.drop_last(), allow);
        assert forall|k: int| 0 <= k < kept_cookies(items, allow).len() implies allow.contains(
            #[trigger] kept_cookies(items, allow)[k].0,
        ) && items.contains(Some(kept_cookies(items, allow)[k])) by {
            if k < init.len() {
                assert(kept_cookies(items, allow)[k] == init[k]);
                assert(allow.contains(init[k].0));
                assert(items.drop_last().contains(Some(init[k])));
                let w = choose|w: int| 0 <= w < items.drop_last().len() && items.drop_last()[w] == Some(init[k]);
                assert(items[w] == Some(init[k]));
            } else {
                assert(items[items.len() - 1] == Some(kept_cookies(items, allow)[k]));
            }
        }
    }
}

} // verus!
