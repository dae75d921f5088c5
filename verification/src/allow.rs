//! Dispatch on the request method: method masks, the `Allow` / `Branch` /
//! `Deny` combinators, and the `405 Method Not Allowed` error.
use vstd::prelude::*;
use crate::text::{owned, push_str, concat3, str_eq};

verus! {

pub const CONNECT_BIT: u16 = 1;
pub const DELETE_BIT: u16 = 2;
pub const GET_BIT: u16 = 4;
pub const HEAD_BIT: u16 = 8;
pub const OPTIONS_BIT: u16 = 16;
pub const PATCH_BIT: u16 = 32;
pub const POST_BIT: u16 = 64;
pub const PUT_BIT: u16 = 128;
pub const TRACE_BIT: u16 = 256;

/// The number of methods that a mask can name.
pub const METHOD_COUNT: u16 = 9;

/// The name of the method at position `i` of the mask, in bit order.
pub open spec fn method_name_at(i: int) -> Seq<char> {
    if i == 0 {
        "CONNECT"@
    } else if i == 1 {
        "DELETE"@
    } else if i == 2 {
        "GET"@
    } else if i == 3 {
        "HEAD"@
    } else if i == 4 {
        "OPTIONS"@
    } else if i == 5 {
        "PATCH"@
    } else if i == 6 {
        "POST"@
    } else if i == 7 {
        "PUT"@
    } else {
        "TRACE"@
    }
}

/// The bit of a method name; names outside the nine routable methods map to
/// the empty mask.
pub open spec fn method_bit(name: Seq<char>) -> u16 {
    if name == "CONNECT"@ {
        CONNECT_BIT
    } else if name == "DELETE"@ {
        DELETE_BIT
    } else if name == "GET"@ {
        GET_BIT
    } else if name == "HEAD"@ {
        HEAD_BIT
    } else if name == "OPTIONS"@ {
        OPTIONS_BIT
    } else if name == "PATCH"@ {
        PATCH_BIT
    } else if name == "POST"@ {
        POST_BIT
    } else if name == "PUT"@ {
        PUT_BIT
    } else if name == "TRACE"@ {
        TRACE_BIT
    } else {
        0
    }
}

/// Whether the bit at position `i` is set.
pub open spec fn has_bit(bits: u16, i: int) -> bool {
    (bits & (1u16 << (i as u16))) != 0
}

/// The names of the methods whose bits are set among the first `n`
/// positions, in bit order.
pub open spec fn names_upto(bits: u16, n: int) -> Seq<Seq<char>>
    decreases n,
{
    if n <= 0 {
        seq![]
    } else if has_bit(bits, n - 1) {
        names_upto(bits, n - 1).push(method_name_at(n - 1))
    } else {
        names_upto(bits, n - 1)
    }
}

/// The names of the methods in a mask, in bit order.
pub open spec fn method_names(bits: u16) -> Seq<Seq<char>> {
    names_upto(bits, METHOD_COUNT as int)
}

/// The items of `list` separated by `sep`.
pub open spec fn join(list: Seq<Seq<char>>, sep: Seq<char>) -> Seq<char>
    decreases list.len(),
{
    if list.len() == 0 {
        seq![]
    } else if list.len() == 1 {
        list[0]
    } else {
        join(list.drop_last(), sep) + sep + list.last()
    }
}

/// The value of the `Allow` header for a mask: the method names joined by
/// `", "`, or nothing when the mask is empty.
pub open spec fn allow_header(bits: u16) -> Option<Seq<char>> {
    if method_names(bits).len() == 0 {
        None
    } else {
        Some(join(method_names(bits), ", "@))
    }
}

/// The name of a mask that holds exactly one method.
pub open spec fn single_name(bits: u16) -> Option<Seq<char>> {
    if bits == CONNECT_BIT {
        Some("CONNECT"@)
    } else if bits == DELETE_BIT {
        Some("DELETE"@)
    } else if bits == GET_BIT {
        Some("GET"@)
    } else if bits == HEAD_BIT {
        Some("HEAD"@)
    } else if bits == OPTIONS_BIT {
        Some("OPTIONS"@)
    } else if bits == PATCH_BIT {
        Some("PATCH"@)
    } else if bits == POST_BIT {
        Some("POST"@)
    } else if bits == PUT_BIT {
        Some("PUT"@)
    } else if bits == TRACE_BIT {
        Some("TRACE"@)
    } else {
        None
    }
}

/// The message of a `405` error for a request made with the method `bits`.
pub open spec fn not_allowed_message(bits: u16) -> Seq<char> {
    match single_name(bits) {
        Some(name) => "method not allowed: \""@ + name + "\""@,
        None => "method not allowed"@,
    }
}

/// `a` contains every method of `b`.
pub open spec fn mask_contains(a: u16, b: u16) -> bool {
    (a & b) == b
}

/// A set of HTTP methods, one bit per method.
#[derive(PartialEq, Eq, Structural, Debug)]
pub struct Mask {
    pub(crate) bits: u16,
}

impl Clone for Mask {
    fn clone(&self) -> (r: Self)
        ensures
            r == *self,
    {
        Mask { bits: self.bits }
    }
}

impl Copy for Mask {}

impl View for Mask {
    type V = u16;

    closed spec fn view(&self) -> u16 {
        self.bits
    }
}

impl Mask {
    /// The mask that holds no method.
    pub fn empty() -> (r: Mask)
        ensures
            r@ == 0,
    {
        Mask { bits: 0 }
    }

    /// The mask with the given bits, kept as they are (each method has the
    /// bit of its `*_BIT` constant).
    pub fn from_bits_retain(bits: u16) -> (r: Mask)
        ensures
            r@ == bits,
    {
        Mask { bits }
    }

    /// The bits of the mask.
    pub fn bits(&self) -> (r: u16)
        ensures
            r == self@,
    {
        self.bits
    }

    /// The mask of the method with the given name (`Mask::from(&Method)`).
    pub fn from_method(name: &str) -> (r: Mask)
        ensures
            r@ == method_bit(name@),
    {
        let bits = if str_eq(name, "CONNECT") {
            CONNECT_BIT
        } else if str_eq(name, "DELETE") {
            DELETE_BIT
        } else if str_eq(name, "GET") {
            GET_BIT
        } else if str_eq(name, "HEAD") {
            HEAD_BIT
        } else if str_eq(name, "OPTIONS") {
            OPTIONS_BIT
        } else if str_eq(name, "PATCH") {
            PATCH_BIT
        } else if str_eq(name, "POST") {
            POST_BIT
        } else if str_eq(name, "PUT") {
            PUT_BIT
        } else if str_eq(name, "TRACE") {
            TRACE_BIT
        } else {
            0
        };
        Mask { bits }
    }

    /// The union of two masks.
    pub fn union(self, other: Mask) -> (r: Mask)
        ensures
            r@ == self@ | other@,
    {
        Mask { bits: self.bits | other.bits }
    }

    /// Whether every method of `other` is in `self`.
    pub fn contains(&self, other: &Mask) -> (r: bool)
        ensures
            r == mask_contains(self@, other@),
    {
        (self.bits & other.bits) == other.bits
    }

    /// The name of a mask that holds exactly one method.
    pub fn as_str(&self) -> (r: Option<&'static str>)
        ensures
            r is Some <==> single_name(self@) is Some,
            r matches Some(name) ==> single_name(self@) == Some(name@),
    {
        if self.bits == CONNECT_BIT {
            Some("CONNECT")
        } else if self.bits == DELETE_BIT {
            Some("DELETE")
        } else if self.bits == GET_BIT {
            Some("GET")
        } else if self.bits == HEAD_BIT {
            Some("HEAD")
        } else if self.bits == OPTIONS_BIT {
            Some("OPTIONS")
        } else if self.bits == PATCH_BIT {
            Some("PATCH")
        } else if self.bits == POST_BIT {
            Some("POST")
        } else if self.bits == PUT_BIT {
            Some("PUT")
        } else if self.bits == TRACE_BIT {
            Some("TRACE")
        } else {
            None
        }
    }
}

/// The name of the method at position `i`.
fn method_name_of(i: u16) -> (r: &'static str)
    requires
        i < METHOD_COUNT,
    ensures
        r@ == method_name_at(i as int),
{
    if i == 0 {
        "CONNECT"
    } else if i == 1 {
        "DELETE"
    } else if i == 2 {
        "GET"
    } else if i == 3 {
        "HEAD"
    } else if i == 4 {
        "OPTIONS"
    } else if i == 5 {
        "PATCH"
    } else if i == 6 {
        "POST"
    } else if i == 7 {
        "PUT"
    } else {
        "TRACE"
    }
}

/// A request method was refused: the methods that are allowed and the one
/// that was used.
#[derive(Debug)]
pub struct MethodNotAllowed {
    pub(crate) allow: Mask,
    pub(crate) method: Mask,
}

impl MethodNotAllowed {
    /// The methods that the route allows.
    pub closed spec fn spec_allow(self) -> u16 {
        self.allow@
    }

    /// The method of the refused request.
    pub closed spec fn spec_method(self) -> u16 {
        self.method@
    }

    pub fn new(allow: Mask, method: Mask) -> (r: Self)
        ensures
            r.spec_allow() == allow@,
            r.spec_method() == method@,
    {
        MethodNotAllowed { allow, method }
    }

    /// The value of the `Allow` header: the allowed methods in bit order,
    /// separated by `", "`, or `None` when no method is allowed.
    pub fn allows(&self) -> (r: Option<String>)
        ensures
            r is Some <==> allow_header(self.spec_allow()) is Some,
            r matches Some(s) ==> allow_header(self.spec_allow()) == Some(s@),
    {
        let bits = self.allow.bits;
        assert(bits == self.spec_allow());
        let mut acc: Option<String> = None;
        let mut i: u16 = 0;
        while i < METHOD_COUNT
            invariant
                i <= METHOD_COUNT,
                bits == self.spec_allow(),
                acc is None <==> names_upto(bits, i as int).len() == 0,
                acc matches Some(s) ==> s@ == join(names_upto(bits, i as int), ", "@),
            decreases METHOD_COUNT - i,
        {
            if (bits & (1u16 << i)) != 0 {
                let method = method_name_of(i);
                let ghost before = names_upto(bits, i as int);
                assert(names_upto(bits, i + 1) == before.push(method@));
                assert(before.push(method@).drop_last() =~= before);
                match acc {
                    Some(mut allow) => {
                        push_str(&mut allow, ", ");
                        push_str(&mut allow, method);
                        acc = Some(allow);
                    },
                    None => {
                        acc = Some(owned(method));
                    },
                }
            } else {
                assert(names_upto(bits, i + 1) == names_upto(bits, i as int));
            }
            i = i + 1;
        }
        acc
    }

    /// The error message: `method not allowed: "NAME"`, or `method not
    /// allowed` when the request method is not one of the nine.
    pub fn message(&self) -> (r: String)
        ensures
            r@ == not_allowed_message(self.spec_method()),
    {
        match self.method.as_str() {
            Some(name) => concat3("method not allowed: \"", name, "\""),
            None => owned("method not allowed"),
        }
    }
}

/// Masks of the combinators, as the router consults them.
pub trait MaskPredicate {
    spec fn spec_mask(&self) -> u16;

    fn matches(&self, other: &Mask) -> (r: bool)
        ensures
            r == mask_contains(self.spec_mask(), other@),
    ;
}

/// Middleware that runs when the request method is in `mask`.
pub struct Allow<T> {
    pub(crate) middleware: T,
    pub(crate) mask: Mask,
}

/// A fork on the request method: `middleware` when it matches the method,
/// `or_else` when it does not. `mask` is every method routed by the fork.
pub struct Branch<T, U> {
    pub(crate) middleware: T,
    pub(crate) or_else: U,
    pub(crate) mask: Mask,
}

/// Stop processing the request and respond with `405` Method Not Allowed.
pub struct Deny {
    pub(crate) allow: Mask,
}

/// A no-op middleware that forwards the request to the next middleware.
pub struct Continue;

impl<T> Allow<T> {
    /// The middleware that handles the request.
    pub closed spec fn spec_middleware(self) -> T {
        self.middleware
    }

    /// The methods that reach the middleware.
    pub closed spec fn spec_allow_bits(self) -> u16 {
        self.mask@
    }

    /// The middleware that handles the request.
    pub fn middleware(&self) -> (r: &T)
        ensures
            *r == self.spec_middleware(),
    {
        &self.middleware
    }
}

impl<T> MaskPredicate for Allow<T> {
    open spec fn spec_mask(&self) -> u16 {
        self.spec_allow_bits()
    }

    fn matches(&self, other: &Mask) -> (r: bool) {
        self.mask.contains(other)
    }
}

impl<T, U> MaskPredicate for Branch<T, U> {
    open spec fn spec_mask(&self) -> u16 {
        self.spec_mask_bits()
    }

    fn matches(&self, other: &Mask) -> (r: bool) {
        self.mask.contains(other)
    }
}

impl Deny {
    /// The methods that the denied route allows.
    pub closed spec fn spec_allow(self) -> u16 {
        self.allow@
    }

    /// The error that answers a request made with the method `method`.
    pub fn refuse(&self, method: &str) -> (r: MethodNotAllowed)
        ensures
            r.spec_allow() == self.spec_allow(),
            r.spec_method() == method_bit(method@),
    {
        MethodNotAllowed { allow: self.allow, method: Mask::from_method(method) }
    }
}

/// A branch that routes the single method `bit` to `middleware`.
fn single<T>(middleware: T, bit: u16) -> (r: Branch<Allow<T>, Continue>)
    ensures
        r.spec_mask_bits() == bit,
        r.spec_middleware().spec_allow_bits() == bit,
        r.spec_middleware().spec_middleware() == middleware,
{
    let mask = Mask { bits: bit };
    Branch { middleware: Allow { middleware, mask }, or_else: Continue, mask }
}

/// Route `CONNECT` requests to the provided middleware.
pub fn connect<T>(middleware: T) -> (r: Branch<Allow<T>, Continue>)
    ensures
        r.spec_mask_bits() == CONNECT_BIT,
        r.spec_middleware().spec_allow_bits() == CONNECT_BIT,
        r.spec_middleware().spec_middleware() == middleware,
{
    single(middleware, CONNECT_BIT)
}

/// Route `DELETE` requests to the provided middleware.
pub fn delete<T>(middleware: T) -> (r: Branch<Allow<T>, Continue>)
    ensures
        r.spec_mask_bits() == DELETE_BIT,
        r.spec_middleware().spec_allow_bits() == DELETE_BIT,
        r.spec_middleware().spec_middleware() == middleware,
{
    single(middleware, DELETE_BIT)
}

/// Route `GET` requests to the provided middleware.
pub fn get<T>(middleware: T) -> (r: Branch<Allow<T>, Continue>)
    ensures
        r.spec_mask_bits() == GET_BIT,
        r.spec_middleware().spec_allow_bits() == GET_BIT,
        r.spec_middleware().spec_middleware() == middleware,
{
    single(middleware, GET_BIT)
}

/// Route `HEAD` requests to the provided middleware.
pub fn head<T>(middleware: T) -> (r: Branch<Allow<T>, Continue>)
    ensures
        r.spec_mask_bits() == HEAD_BIT,
        r.spec_middleware().spec_allow_bits() == HEAD_BIT,
        r.spec_middleware().spec_middleware() == middleware,
{
    single(middleware, HEAD_BIT)
}

/// Route `OPTIONS` requests to the provided middleware.
pub fn options<T>(middleware: T) -> (r: Branch<Allow<T>, Continue>)
    ensures
        r.spec_mask_bits() == OPTIONS_BIT,
        r.spec_middleware().spec_allow_bits() == OPTIONS_BIT,
        r.spec_middleware().spec_middleware() == middleware,
{
    single(middleware, OPTIONS_BIT)
}

/// Route `PATCH` requests to the provided middleware.
pub fn patch<T>(middleware: T) -> (r: Branch<Allow<T>, Continue>)
    ensures
        r.spec_mask_bits() == PATCH_BIT,
        r.spec_middleware().spec_allow_bits() == PATCH_BIT,
        r.spec_middleware().spec_middleware() == middleware,
{
    single(middleware, PATCH_BIT)
}

/// Route `POST` requests to the provided middleware.
pub fn post<T>(middleware: T) -> (r: Branch<Allow<T>, Continue>)
    ensures
        r.spec_mask_bits() == POST_BIT,
        r.spec_middleware().spec_allow_bits() == POST_BIT,
        r.spec_middleware().spec_middleware() == middleware,
{
    single(middleware, POST_BIT)
}

/// Route `PUT` requests to the provided middleware.
pub fn put<T>(middleware: T) -> (r: Branch<Allow<T>, Continue>)
    ensures
        r.spec_mask_bits() == PUT_BIT,
        r.spec_middleware().spec_allow_bits() == PUT_BIT,
        r.spec_middleware().spec_middleware() == middleware,
{
    single(middleware, PUT_BIT)
}

/// Route `TRACE` requests to the provided middleware.
pub fn trace<T>(middleware: T) -> (r: Branch<Allow<T>, Continue>)
    ensures
        r.spec_mask_bits() == TRACE_BIT,
        r.spec_middleware().spec_allow_bits() == TRACE_BIT,
        r.spec_middleware().spec_middleware() == middleware,
{
    single(middleware, TRACE_BIT)
}

impl<T, U> Branch<T, U> {
    /// Every method that the branch routes.
    pub closed spec fn spec_mask_bits(self) -> u16 {
        self.mask@
    }

    /// The branch taken when the method matches.
    pub closed spec fn spec_middleware(self) -> T {
        self.middleware
    }

    /// The branch taken when the method does not match.
    pub closed spec fn spec_or_else(self) -> U {
        self.or_else
    }

    /// The branch taken when the method matches.
    pub fn middleware(&self) -> (r: &T)
        ensures
            *r == self.spec_middleware(),
    {
        &self.middleware
    }

    /// The branch taken when the method does not match.
    pub fn or_else(&self) -> (r: &U)
        ensures
            *r == self.spec_or_else(),
    {
        &self.or_else
    }

    /// Adds `middleware` for the method `bit` in front of `self`.
    fn extend<F>(self, middleware: F, bit: u16) -> (r: Branch<Allow<F>, Self>)
        ensures
            r.spec_mask_bits() == self.spec_mask_bits() | bit,
            r.spec_middleware().spec_allow_bits() == bit,
            r.spec_middleware().spec_middleware() == middleware,
            r.spec_or_else() == self,
    {
        let mask = Mask { bits: bit };
        Branch { mask: self.mask.union(mask), or_else: self, middleware: Allow { middleware, mask } }
    }

    /// Also route `CONNECT` requests to the provided middleware.
    pub fn connect<F>(self, middleware: F) -> (r: Branch<Allow<F>, Self>)
        ensures
            r.spec_mask_bits() == self.spec_mask_bits() | CONNECT_BIT,
            r.spec_middleware().spec_allow_bits() == CONNECT_BIT,
            r.spec_middleware().spec_middleware() == middleware,
            r.spec_or_else() == self,
    {
        self.extend(middleware, CONNECT_BIT)
    }

    /// Also route `DELETE` requests to the provided middleware.
    pub fn delete<F>(self, middleware: F) -> (r: Branch<Allow<F>, Self>)
        ensures
            r.spec_mask_bits() == self.spec_mask_bits() | DELETE_BIT,
            r.spec_middleware().spec_allow_bits() == DELETE_BIT,
            r.spec_middleware().spec_middleware() == middleware,
            r.spec_or_else() == self,
    {
        self.extend(middleware, DELETE_BIT)
    }

    /// Also route `GET` requests to the provided middleware.
    pub fn get<F>(self, middleware: F) -> (r: Branch<Allow<F>, Self>)
        ensures
            r.spec_mask_bits() == self.spec_mask_bits() | GET_BIT,
            r.spec_middleware().spec_allow_bits() == GET_BIT,
            r.spec_middleware().spec_middleware() == middleware,
            r.spec_or_else() == self,
    {
        self.extend(middleware, GET_BIT)
    }

    /// Also route `HEAD` requests to the provided middleware.
    pub fn head<F>(self, middleware: F) -> (r: Branch<Allow<F>, Self>)
        ensures
            r.spec_mask_bits() == self.spec_mask_bits() | HEAD_BIT,
            r.spec_middleware().spec_allow_bits() == HEAD_BIT,
            r.spec_middleware().spec_middleware() == middleware,
            r.spec_or_else() == self,
    {
        self.extend(middleware, HEAD_BIT)
    }

    /// Also route `OPTIONS` requests to the provided middleware.
    pub fn options<F>(self, middleware: F) -> (r: Branch<Allow<F>, Self>)
        ensures
            r.spec_mask_bits() == self.spec_mask_bits() | OPTIONS_BIT,
            r.spec_middleware().spec_allow_bits() == OPTIONS_BIT,
            r.spec_middleware().spec_middleware() == middleware,
            r.spec_or_else() == self,
    {
        self.extend(middleware, OPTIONS_BIT)
    }

    /// Also route `PATCH` requests to the provided middleware.
    pub fn patch<F>(self, middleware: F) -> (r: Branch<Allow<F>, Self>)
        ensures
            r.spec_mask_bits() == self.spec_mask_bits() | PATCH_BIT,
            r.spec_middleware().spec_allow_bits() == PATCH_BIT,
            r.spec_middleware().spec_middleware() == middleware,
            r.spec_or_else() == self,
    {
        self.extend(middleware, PATCH_BIT)
    }

    /// Also route `POST` requests to the provided middleware.
    pub fn post<F>(self, middleware: F) -> (r: Branch<Allow<F>, Self>)
        ensures
            r.spec_mask_bits() == self.spec_mask_bits() | POST_BIT,
            r.spec_middleware().spec_allow_bits() == POST_BIT,
            r.spec_middleware().spec_middleware() == middleware,
            r.spec_or_else() == self,
    {
        self.extend(middleware, POST_BIT)
    }

    /// Also route `PUT` requests to the provided middleware.
    pub fn put<F>(self, middleware: F) -> (r: Branch<Allow<F>, Self>)
        ensures
            r.spec_mask_bits() == self.spec_mask_bits() | PUT_BIT,
            r.spec_middleware().spec_allow_bits() == PUT_BIT,
            r.spec_middleware().spec_middleware() == middleware,
            r.spec_or_else() == self,
    {
        self.extend(middleware, PUT_BIT)
    }

    /// Also route `TRACE` requests to the provided middleware.
    pub fn trace<F>(self, middleware: F) -> (r: Branch<Allow<F>, Self>)
        ensures
            r.spec_mask_bits() == self.spec_mask_bits() | TRACE_BIT,
            r.spec_middleware().spec_allow_bits() == TRACE_BIT,
            r.spec_middleware().spec_middleware() == middleware,
            r.spec_or_else() == self,
    {
        self.extend(middleware, TRACE_BIT)
    }

    /// Returns a `405 Method Not Allowed` response if the request method is
    /// not supported.
    pub fn or_deny(self) -> (r: Branch<Self, Deny>)
        ensures
            r.spec_mask_bits() == self.spec_mask_bits(),
            r.spec_or_else().spec_allow() == self.spec_mask_bits(),
            r.spec_middleware() == self,
    {
        let allow = self.mask;
        Branch { middleware: self, or_else: Deny { allow }, mask: allow }
    }
}

impl<T: MaskPredicate, U> Branch<T, U> {
    /// Whether a request made with the method `method` goes to
    /// `middleware` (otherwise it goes to `or_else`).
    /// A method outside the nine routable ones selects no branch.
    pub fn selects(&self, method: &str) -> (r: bool)
        ensures
            r == (method_bit(method@) != 0 && mask_contains(
                self.spec_middleware().spec_mask(),
                method_bit(method@),
            )),
    {
        let mask = Mask::from_method(method);
        if mask.bits == 0 {
            return false;
        }
        self.middleware.matches(&mask)
    }
}


/// The nine method names are distinct.
proof fn lemma_names_distinct(i: int, j: int)
    requires
        0 <= i < METHOD_COUNT,
        0 <= j < METHOD_COUNT,
        i != j,
    ensures
        method_name_at(i) != method_name_at(j),
{
    reveal_strlit("CONNECT");
    reveal_strlit("DELETE");
    reveal_strlit("GET");
    reveal_strlit("HEAD");
    reveal_strlit("OPTIONS");
    reveal_strlit("PATCH");
    reveal_strlit("POST");
    reveal_strlit("PUT");
    reveal_strlit("TRACE");
    if method_name_at(i) == method_name_at(j) {
        assert(method_name_at(i).len() == method_name_at(j).len());
        assert(method_name_at(i)[0] == method_name_at(j)[0]);
        assert(method_name_at(i)[1] == method_name_at(j)[1]);
    }
}

proof fn lemma_names_upto(bits: u16, n: int, k: int)
    requires
        0 <= n <= METHOD_COUNT,
        0 <= k < METHOD_COUNT,
    ensures
        names_upto(bits, n).contains(method_name_at(k)) <==> (k < n && has_bit(bits, k)),
    decreases n,
{
    if n > 0 {
        lemma_names_upto(bits, n - 1, k);
        let prev = names_upto(bits, n - 1);
        if k != n - 1 {
            lemma_names_distinct(k, n - 1);
        }
        if has_bit(bits, n - 1) {
            assert(names_upto(bits, n) == prev.push(method_name_at(n - 1)));
            if k == n - 1 {
                assert(prev.push(method_name_at(n - 1))[prev.len() as int] == method_name_at(k));
            } else if prev.contains(method_name_at(k)) {
                let w = choose|w: int| 0 <= w < prev.len() && prev[w] == method_name_at(k);
                assert(prev.push(method_name_at(n - 1))[w] == method_name_at(k));
            } else {
                assert forall|w: int| 0 <= w < prev.len() + 1 implies #[trigger] prev.push(
                    method_name_at(n - 1),
                )[w] != method_name_at(k) by {
                    if w < prev.len() {
                        assert(prev.push(method_name_at(n - 1))[w] == prev[w]);
                    }
                }
            }
        }
    }
}

proof fn lemma_names_empty(bits: u16, n: int)
    requires
        0 <= n <= METHOD_COUNT,
    ensures
        names_upto(bits, n).len() == 0 <==> forall|i: int| 0 <= i < n ==> !#[trigger] has_bit(bits, i),
    decreases n,
{
    if n > 0 {
        lemma_names_empty(bits, n - 1);
        if has_bit(bits, n - 1) {
            assert(names_upto(bits, n).len() > 0);
        } else {
            assert(names_upto(bits, n) == names_upto(bits, n - 1));
        }
    }
}

/// The `Allow` header of a `405` answer names exactly the methods of the
/// route's mask: a method appears in it if and only if its bit is set, and
/// there is no header when the mask holds no method.
pub proof fn lemma_allow_lists_mask(bits: u16, k: int)
    requires
        0 <= k < METHOD_COUNT,
    ensures
        method_names(bits).contains(method_name_at(k)) <==> has_bit(bits, k),
        allow_header(bits) is None <==> bits & 0x1ff == 0,
{
    lemma_names_upto(bits, METHOD_COUNT as int, k);
    lemma_names_empty(bits, METHOD_COUNT as int);
    let b0 = has_bit(bits, 0);
    let b1 = has_bit(bits, 1);
    let b2 = has_bit(bits, 2);
    let b3 = has_bit(bits, 3);
    let b4 = has_bit(bits, 4);
    let b5 = has_bit(bits, 5);
    let b6 = has_bit(bits, 6);
    let b7 = has_bit(bits, 7);
    let b8 = has_bit(bits, 8);
    assert((bits & 0x1ff == 0) <==> ((bits & (1u16 << 0u16)) == 0 && (bits & (1u16 << 1u16)) == 0
        && (bits & (1u16 << 2u16)) == 0 && (bits & (1u16 << 3u16)) == 0 && (bits & (1u16 << 4u16))
        == 0 && (bits & (1u16 << 5u16)) == 0 && (bits & (1u16 << 6u16)) == 0 && (bits & (1u16
        << 7u16)) == 0 && (bits & (1u16 << 8u16)) == 0)) by (bit_vector);
    if allow_header(bits) is None {
        assert(!b0 && !b1 && !b2 && !b3 && !b4 && !b5 && !b6 && !b7 && !b8);
    } else {
        if !b0 && !b1 && !b2 && !b3 && !b4 && !b5 && !b6 && !b7 && !b8 {
            assert forall|i: int| 0 <= i < METHOD_COUNT implies !#[trigger] has_bit(bits, i) by {
                if i == 0 {
                } else if i == 1 {
                } else if i == 2 {
                } else if i == 3 {
                } else if i == 4 {
                } else if i == 5 {
                } else if i == 6 {
                } else if i == 7 {
                } else {
                }
            }
        }
    }
}

/// The names among the first `n` positions of a mask that holds the methods
/// at `i` and `j` (or only `i`, when they are equal).
proof fn lemma_names_of_two(i: int, j: int, n: int)
    requires
        0 <= i <= j < METHOD_COUNT,
        0 <= n <= METHOD_COUNT,
    ensures
        names_upto(((1u16 << (i as u16)) | (1u16 << (j as u16))) as u16, n) == (if n <= i {
            Seq::<Seq<char>>::empty()
        } else if n <= j || i == j {
            seq![method_name_at(i)]
        } else {
            seq![method_name_at(i), method_name_at(j)]
        }),
    decreases n,
{
    let bits = ((1u16 << (i as u16)) | (1u16 << (j as u16))) as u16;
    if n > 0 {
        lemma_names_of_two(i, j, n - 1);
        let a = i as u16;
        let b = j as u16;
        let c = (n - 1) as u16;
        assert(((((1u16 << a) | (1u16 << b)) & (1u16 << c)) != 0) <==> (c == a || c == b)) by (bit_vector)
            requires
                a < 9,
                b < 9,
                c < 9,
        ;
        assert(has_bit(bits, n - 1) <==> (n - 1 == i || n - 1 == j));
    }
}

/// The `Allow` header lists the methods of a mask in bit order, separated by
/// a comma and a space: a mask of one method gives that method's name, and a
/// mask of two gives the earlier name, `", "`, then the later one.
pub proof fn lemma_allow_header_order(i: int, j: int)
    requires
        0 <= i < j < METHOD_COUNT,
    ensures
        allow_header(1u16 << (i as u16)) == Some(method_name_at(i)),
        allow_header(((1u16 << (i as u16)) | (1u16 << (j as u16))) as u16) == Some(
            method_name_at(i) + ", "@ + method_name_at(j),
        ),
{
    lemma_names_of_two(i, j, METHOD_COUNT as int);
    lemma_names_of_two(i, i, METHOD_COUNT as int);
    let a = i as u16;
    assert(((1u16 << a) | (1u16 << a)) == (1u16 << a)) by (bit_vector);
    let two = seq![method_name_at(i), method_name_at(j)];
    assert(two.drop_last() =~= seq![method_name_at(i)]);
}

/// One of the nine method bits.
pub open spec fn is_method_bit(b: u16) -> bool {
    b == 1 || b == 2 || b == 4 || b == 8 || b == 16 || b == 32 || b == 64 || b == 128 || b == 256
}

proof fn lemma_single_bits(a: u16, b: u16)
    requires
        is_method_bit(a),
        is_method_bit(b),
    ensures
        ((a & b) == b) == (a == b),
{
    assert(((a & b) == b) == (a == b)) by (bit_vector)
        requires
            a == 1 || a == 2 || a == 4 || a == 8 || a == 16 || a == 32 || a == 64 || a == 128 || a
                == 256,
            b == 1 || b == 2 || b == 4 || b == 8 || b == 16 || b == 32 || b == 64 || b == 128 || b
                == 256,
    ;
}

/// A route made for one method selects that method and no other: a request
/// method selects the route exactly when it is the route's method, and a
/// method outside the nine selects nothing.
pub proof fn lemma_routes_only_its_method(route: Seq<char>, method: Seq<char>)
    requires
        method_bit(route) != 0,
    ensures
        (method_bit(method) != 0 && mask_contains(method_bit(route), method_bit(method))) <==> method
            == route,
{
    if method_bit(method) != 0 {
        lemma_single_bits(method_bit(route), method_bit(method));
    }
}

/// The nine routable methods, in the order CONNECT, DELETE, GET, HEAD,
/// OPTIONS, PATCH, POST, PUT, TRACE, each have their own bit, the bit at their
/// position; a mask of that one bit is named back by the method's name, and
/// every other name has no bit.
pub proof fn lemma_method_bits(i: int, name: Seq<char>)
    requires
        0 <= i < METHOD_COUNT,
    ensures
        method_name_at(0) == "CONNECT"@,
        method_name_at(1) == "DELETE"@,
        method_name_at(2) == "GET"@,
        method_name_at(3) == "HEAD"@,
        method_name_at(4) == "OPTIONS"@,
        method_name_at(5) == "PATCH"@,
        method_name_at(6) == "POST"@,
        method_name_at(7) == "PUT"@,
        method_name_at(8) == "TRACE"@,
        method_bit(method_name_at(i)) == (1u16 << (i as u16)),
        single_name(method_bit(method_name_at(i))) == Some(method_name_at(i)),
        (forall|j: int| 0 <= j < METHOD_COUNT ==> name != #[trigger] method_name_at(j)) ==> method_bit(
            name,
        ) == 0,
{
        reveal_strlit("CONNECT");
        reveal_strlit("DELETE");
        reveal_strlit("GET");
        reveal_strlit("HEAD");
        reveal_strlit("OPTIONS");
        reveal_strlit("PATCH");
        reveal_strlit("POST");
        reveal_strlit("PUT");
        reveal_strlit("TRACE");
        assert("CONNECT"@.len() == 7 && "CONNECT"@[0] == 'C');
        assert("DELETE"@.len() == 6 && "DELETE"@[0] == 'D');
        assert("GET"@.len() == 3 && "GET"@[0] == 'G');
        assert("HEAD"@.len() == 4 && "HEAD"@[0] == 'H');
        assert("OPTIONS"@.len() == 7 && "OPTIONS"@[0] == 'O');
        assert("PATCH"@.len() == 5 && "PATCH"@[0] == 'P');
        assert("POST"@.len() == 4 && "POST"@[0] == 'P');
        assert("PUT"@.len() == 3 && "PUT"@[0] == 'P');
        assert("TRACE"@.len() == 5 && "TRACE"@[0] == 'T');
    if i == 0 {
        assert(1u16 << 0u16 == 1u16) by (bit_vector);
        assert((i as u16) == 0u16);
    } else if i == 1 {
        assert(1u16 << 1u16 == 2u16) by (bit_vector);
        assert((i as u16) == 1u16);
    } else if i == 2 {
        assert(1u16 << 2u16 == 4u16) by (bit_vector);
        assert((i as u16) == 2u16);
    } else if i == 3 {
        assert(1u16 << 3u16 == 8u16) by (bit_vector);
        assert((i as u16) == 3u16);
    } else if i == 4 {
        assert(1u16 << 4u16 == 16u16) by (bit_vector);
        assert((i as u16) == 4u16);
    } else if i == 5 {
        assert(1u16 << 5u16 == 32u16) by (bit_vector);
        assert((i as u16) == 5u16);
    } else if i == 6 {
        assert(1u16 << 6u16 == 64u16) by (bit_vector);
        assert((i as u16) == 6u16);
    } else if i == 7 {
        assert(1u16 << 7u16 == 128u16) by (bit_vector);
        assert((i as u16) == 7u16);
    } else if i == 8 {
        assert(1u16 << 8u16 == 256u16) by (bit_vector);
        assert((i as u16) == 8u16);
    }
    if method_bit(name) != 0 {
        if name == "CONNECT"@ {
            assert(name == method_name_at(0));
        } else if name == "DELETE"@ {
            assert(name == method_name_at(1));
        } else if name == "GET"@ {
            assert(name == method_name_at(2));
        } else if name == "HEAD"@ {
            assert(name == method_name_at(3));
        } else if name == "OPTIONS"@ {
            assert(name == method_name_at(4));
        } else if name == "PATCH"@ {
            assert(name == method_name_at(5));
        } else if name == "POST"@ {
            assert(name == method_name_at(6));
        } else if name == "PUT"@ {
            assert(name == method_name_at(7));
        } else {
            assert(name == method_name_at(8));
        }
    }
}

/// The message of a `405` answer names the refused method when it is one of
/// the nine, as `method not allowed: "NAME"`; any other method gets the bare
/// `method not allowed`.
pub proof fn lemma_not_allowed_message(i: int, name: Seq<char>)
    requires
        0 <= i < METHOD_COUNT,
    ensures
        not_allowed_message(method_bit(method_name_at(i))) == "method not allowed: \""@ + method_name_at(i)
            + "\""@,
        (forall|j: int| 0 <= j < METHOD_COUNT ==> name != #[trigger] method_name_at(j))
            ==> not_allowed_message(method_bit(name)) == "method not allowed"@,
{
    lemma_method_bits(i, name);
}

} // verus!
