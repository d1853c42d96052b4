//! Shared leaf values: operation kinds, connection bounds, identifiers, and
//! the character-level predicates their contracts are stated over.

use vstd::prelude::*;
use vstd::string::*;
use crate::error::{ShopifyGqlError, ShopifyResult};

verus! {

/// A decimal digit is one of the ten ASCII characters '0' through '9'.
pub open spec fn is_digit_char(c: char) -> bool {
    '0' <= c && c <= '9'
}

/// A non-empty run of decimal digits.
pub open spec fn all_digits(s: Seq<char>) -> bool {
    s.len() > 0 && (forall|i: int| 0 <= i < s.len() ==> is_digit_char(#[trigger] s[i]))
}

/// Character-for-character string equality, usable where no specification for
/// `str` equality is available.
pub fn str_eq(a: &str, b: &str) -> (r: bool)
    ensures
        r == (a@ == b@),
{
    let n = a.unicode_len();
    let m = b.unicode_len();
    if n != m {
        proof {
            assert(a@ != b@) by {
                assert(a@.len() != b@.len());
            }
        }
        return false;
    }
    let mut i: usize = 0;
    while i < n
        invariant
            n == a@.len(),
            n == b@.len(),
            0 <= i <= n,
            forall|j: int| 0 <= j < i ==> a@[j] == b@[j],
        decreases n - i,
    {
        if a.get_char(i) != b.get_char(i) {
            return false;
        }
        i += 1;
    }
    proof {
        assert(a@ =~= b@);
    }
    true
}

/// The five operations the remote endpoint answers, and therefore the five
/// success shapes a reply can take.
#[derive(Clone, Copy, Debug, PartialEq, Eq, Structural)]
pub enum OperationKind {
    Product,
    ProductUpdate,
    ProductVariant,
    ProductVariantUpdate,
    BulkOperationRunQuery,
}

impl OperationKind {
    /// The key under `data` that tags a reply for this operation.
    pub open spec fn name_spec(&self) -> Seq<char> {
        match self {
            OperationKind::Product => "product"@,
            OperationKind::ProductUpdate => "productUpdate"@,
            OperationKind::ProductVariant => "productVariant"@,
            OperationKind::ProductVariantUpdate => "productVariantUpdate"@,
            OperationKind::BulkOperationRunQuery => "bulkOperationRunQuery"@,
        }
    }

    pub fn name(&self) -> (r: &'static str)
        ensures
            r@ == self.name_spec(),
    {
        match self {
            OperationKind::Product => "product",
            OperationKind::ProductUpdate => "productUpdate",
            OperationKind::ProductVariant => "productVariant",
            OperationKind::ProductVariantUpdate => "productVariantUpdate",
            OperationKind::BulkOperationRunQuery => "bulkOperationRunQuery",
        }
    }
}

/// A bounded-list request selects either the first `n` or the last `n`
/// entities; carrying both bounds at once is unrepresentable by construction.
#[derive(Clone, Copy, Debug, PartialEq, Eq, Structural)]
pub enum ProductsConnection {
    First(u32),
    Last(u32),
}

impl ProductsConnection {
    /// The count carried by either bound.
    pub open spec fn count_spec(&self) -> u32 {
        match self {
            ProductsConnection::First(n) => *n,
            ProductsConnection::Last(n) => *n,
        }
    }

    /// A connection bound is valid when its count is positive.
    pub open spec fn valid(&self) -> bool {
        self.count_spec() > 0
    }
}

/// A globally-unique reference to a remote entity, held in its canonical
/// string form `gid://shopify/<Type>/<digits>`.
#[derive(Debug)]
pub struct Id {
    gid: String,
}

impl View for Id {
    type V = Seq<char>;

    closed spec fn view(&self) -> Seq<char> {
        self.gid@
    }
}

impl Clone for Id {
    fn clone(&self) -> (r: Id)
        ensures
            r@ == self@,
    {
        Id { gid: self.gid.clone() }
    }
}

impl PartialEq for Id {
    fn eq(&self, other: &Id) -> (r: bool) {
        self.gid == other.gid
    }
}

impl vstd::std_specs::cmp::PartialEqSpecImpl for Id {
    open spec fn obeys_eq_spec() -> bool {
        true
    }

    open spec fn eq_spec(&self, other: &Id) -> bool {
        self@ == other@
    }
}

impl Default for Id {
    /// The empty identifier, used as the placeholder of connection builders
    /// that address no single entity.
    fn default() -> (r: Id)
        ensures
            r@ == Seq::<char>::empty(),
    {
        Id { gid: String::new() }
    }
}

/// The payload of a canonical identifier string: the suffix after its last
/// `/`, or the whole string when it holds none.
pub open spec fn payload_spec(s: Seq<char>) -> Seq<char>
    decreases s.len(),
{
    if s.len() == 0 {
        s
    } else if s[s.len() - 1] == '/' {
        Seq::<char>::empty()
    } else {
        payload_spec(s.drop_last()).push(s.last())
    }
}

impl Id {
    /// Whether every character of `id` is a decimal digit (vacuously true of
    /// the empty string; the factories additionally demand non-emptiness).
    pub fn is_numeric(id: &str) -> (r: bool)
        ensures
            r == (forall|i: int| 0 <= i < id@.len() ==> is_digit_char(#[trigger] id@[i])),
    {
        let n = id.unicode_len();
        let mut i: usize = 0;
        while i < n
            invariant
                n == id@.len(),
                0 <= i <= n,
                forall|j: int| 0 <= j < i ==> is_digit_char(#[trigger] id@[j]),
            decreases n - i,
        {
            let c = id.get_char(i);
            if !('0' <= c && c <= '9') {
                return false;
            }
            i += 1;
        }
        true
    }

    /// Construct a Product identifier from a digits-only payload.
    pub fn product(id: &str) -> (r: ShopifyResult<Id>)
        ensures
            r is Ok <==> all_digits(id@),
            r matches Ok(v) ==> v@ == "gid://shopify/Product/"@ + id@,
            r matches Err(e) ==> e matches ShopifyGqlError::InvalidIdentifier(raw) && raw@ == id@,
    {
        if id.unicode_len() == 0 || !Id::is_numeric(id) {
            return Err(ShopifyGqlError::InvalidIdentifier(id.to_owned()));
        }
        Ok(Id { gid: String::from_str("gid://shopify/Product/").concat(id) })
    }

    /// Construct a ProductVariant identifier from a digits-only payload.
    pub fn product_variant(id: &str) -> (r: ShopifyResult<Id>)
        ensures
            r is Ok <==> all_digits(id@),
            r matches Ok(v) ==> v@ == "gid://shopify/ProductVariant/"@ + id@,
            r matches Err(e) ==> e matches ShopifyGqlError::InvalidIdentifier(raw) && raw@ == id@,
    {
        if id.unicode_len() == 0 || !Id::is_numeric(id) {
            return Err(ShopifyGqlError::InvalidIdentifier(id.to_owned()));
        }
        Ok(Id { gid: String::from_str("gid://shopify/ProductVariant/").concat(id) })
    }

    /// Construct a Location identifier from a digits-only payload.
    pub fn location(id: &str) -> (r: ShopifyResult<Id>)
        ensures
            r is Ok <==> all_digits(id@),
            r matches Ok(v) ==> v@ == "gid://shopify/Location/"@ + id@,
            r matches Err(e) ==> e matches ShopifyGqlError::InvalidIdentifier(raw) && raw@ == id@,
    {
        if id.unicode_len() == 0 || !Id::is_numeric(id) {
            return Err(ShopifyGqlError::InvalidIdentifier(id.to_owned()));
        }
        Ok(Id { gid: String::from_str("gid://shopify/Location/").concat(id) })
    }

    /// Wrap a canonical string exactly as the wire carried it; reply
    /// materialization performs no re-validation.
    pub fn from_wire(gid: String) -> (r: Id)
        ensures
            r@ == gid@,
    {
        Id { gid }
    }

    /// The canonical string form.
    pub fn inner(&self) -> (r: &String)
        ensures
            r@ == self@,
    {
        &self.gid
    }

    /// The numeric payload: the suffix of the canonical string after its
    /// last `/`.
    pub fn payload(&self) -> (r: String)
        ensures
            r@ == payload_spec(self@),
    {
        let s = self.gid.as_str();
        let n = s.unicode_len();
        let mut i: usize = n;
        while i > 0
            invariant
                s@ == self@,
                n == s@.len(),
                0 <= i <= n,
                forall|j: int| i <= j < n ==> s@[j] != '/',
            decreases i,
        {
            if s.get_char(i - 1) == '/' {
                proof {
                    lemma_payload_after_slash(s@, i as int - 1);
                    assert(payload_spec(s@) =~= s@.skip(i as int));
                    assert(s@.subrange(i as int, n as int) =~= s@.skip(i as int));
                }
                let part = s.substring_char(i, n);
                proof {
                    assert(part@ == s@.subrange(i as int, n as int));
                    assert(part@ == payload_spec(s@));
                    assert(s@ == self@);
                }
                return String::from_str(part);
            }
            i -= 1;
        }
        proof {
            lemma_payload_no_slash(s@);
            assert(s@.subrange(0, n as int) =~= s@);
        }
        let part = s.substring_char(0, n);
        String::from_str(part)
    }
}

/// When position `k` holds the last `/` of the string, the payload is exactly
/// the suffix after it.
proof fn lemma_payload_after_slash(s: Seq<char>, k: int)
    requires
        0 <= k < s.len(),
        s[k] == '/',
        forall|j: int| k < j < s.len() ==> s[j] != '/',
    ensures
        payload_spec(s) =~= s.skip(k + 1),
    decreases s.len(),
{
    if k == s.len() - 1 {
        assert(s.skip(k + 1) =~= Seq::<char>::empty());
    } else {
        assert(s.last() != '/');
        lemma_payload_after_slash(s.drop_last(), k);
        assert(s.drop_last().skip(k + 1).push(s.last()) =~= s.skip(k + 1));
    }
}

/// On a string with no `/` at all, the payload is the whole string.
proof fn lemma_payload_no_slash(s: Seq<char>)
    requires
        forall|j: int| 0 <= j < s.len() ==> s[j] != '/',
    ensures
        payload_spec(s) =~= s,
    decreases s.len(),
{
    if s.len() > 0 {
        lemma_payload_no_slash(s.drop_last());
        assert(payload_spec(s) =~= s);
    }
}

/// A plain decimal literal: an optional leading `-`, a non-empty run of
/// digits, and optionally a `.` followed by a non-empty run of digits.
pub open spec fn is_decimal_str(s: Seq<char>) -> bool {
    if s.len() > 0 && s[0] == '-' {
        is_decimal_body(s.skip(1))
    } else {
        is_decimal_body(s)
    }
}

/// The unsigned part of a decimal literal.
pub open spec fn is_decimal_body(u: Seq<char>) -> bool {
    all_digits(u) || (exists|p: int|
        0 <= p < u.len() && u[p] == '.' && all_digits(#[trigger] u.take(p)) && all_digits(
            u.skip(p + 1),
        ))
}

/// Decide whether a wire string is a plain decimal literal.
pub fn check_decimal(s: &str) -> (r: bool)
    ensures
        r == is_decimal_str(s@),
{
    let n = s.unicode_len();
    let start: usize = if n > 0 && s.get_char(0) == '-' {
        1
    } else {
        0
    };
    let ghost u = if start == 1 {
        s@.skip(1)
    } else {
        s@
    };
    if start >= n {
        return false;
    }
    let mut j = start;
    let mut dot: usize = n;
    while j < n && dot == n
        invariant
            n == s@.len(),
            start <= j <= n,
            start == 0 || start == 1,
            start == 1 ==> s@[0] == '-',
            start == 0 ==> s@[0] != '-',
            start < n,
            u == s@.skip(start as int),
            dot == n || (start <= dot && dot == j && j < n && s@[dot as int] == '.'),
            forall|q: int| start <= q < j ==> is_digit_char(#[trigger] s@[q]),
        decreases n - j, (if dot == n { 1int } else { 0int }),
    {
        let c = s.get_char(j);
        if c == '.' {
            dot = j;
        } else if !('0' <= c && c <= '9') {
            proof {
                lemma_not_decimal_bad_char(s@, start as int, j as int);
            }
            return false;
        } else {
            j += 1;
        }
    }
    if dot == n {
        proof {
            assert(all_digits(u)) by {
                assert(forall|q: int| 0 <= q < u.len() ==> #[trigger] u[q] == s@[q + start]);
            }
        }
        return true;
    }
    if dot == start {
        proof {
            assert(u[0] == '.');
            assert(!all_digits(u));
            assert forall|p: int|
                !(0 <= p < u.len() && u[p] == '.' && all_digits(#[trigger] u.take(p)) && all_digits(
                    u.skip(p + 1),
                )) by {
                if 0 < p < u.len() {
                    assert(u.take(p)[0] == '.');
                }
            }
        }
        return false;
    }
    let mut k = dot + 1;
    while k < n
        invariant
            n == s@.len(),
            start == 0 || start == 1,
            start == 1 ==> s@[0] == '-',
            start == 0 ==> s@[0] != '-',
            start < dot < n,
            dot < k <= n,
            u == s@.skip(start as int),
            s@[dot as int] == '.',
            forall|q: int| start <= q < dot ==> is_digit_char(#[trigger] s@[q]),
            forall|q: int| dot < q < k ==> is_digit_char(#[trigger] s@[q]),
        decreases n - k,
    {
        let c = s.get_char(k);
        if !('0' <= c && c <= '9') {
            proof {
                lemma_not_decimal_bad_frac(s@, start as int, dot as int, k as int);
            }
            return false;
        }
        k += 1;
    }
    if dot + 1 == n {
        proof {
            lemma_not_decimal_empty_frac(s@, start as int, dot as int);
        }
        return false;
    }
    proof {
        let p = dot - start;
        assert(u[p] == '.');
        assert(all_digits(u.take(p))) by {
            assert(forall|q: int| 0 <= q < p ==> #[trigger] u.take(p)[q] == s@[q + start]);
        }
        assert(all_digits(u.skip(p + 1))) by {
            assert(forall|q: int|
                0 <= q < u.len() - p - 1 ==> #[trigger] u.skip(p + 1)[q] == s@[q + dot + 1]);
        }
    }
    true
}

/// A non-digit, non-dot character in the integer part refutes every reading
/// of the string as a decimal literal.
proof fn lemma_not_decimal_bad_char(s: Seq<char>, start: int, j: int)
    requires
        start == 0 || start == 1,
        start == 1 ==> s.len() > 0 && s[0] == '-',
        start == 0 ==> s.len() == 0 || s[0] != '-',
        start <= j < s.len(),
        !is_digit_char(s[j]),
        s[j] != '.',
        forall|q: int| start <= q < j ==> is_digit_char(#[trigger] s[q]),
    ensures
        !is_decimal_str(s),
{
    let u = if start == 1 {
        s.skip(1)
    } else {
        s
    };
    assert(u == s.skip(start));
    assert(u[j - start] == s[j]);
    assert(!all_digits(u));
    assert forall|p: int|
        !(0 <= p < u.len() && u[p] == '.' && all_digits(#[trigger] u.take(p)) && all_digits(
            u.skip(p + 1),
        )) by {
        if 0 <= p < u.len() && u[p] == '.' {
            assert(p + start != j);
            if p + start < j {
                assert(is_digit_char(s[p + start]));
                assert(u[p] == s[p + start]);
            } else {
                assert(u.take(p)[j - start] == s[j]);
                assert(!all_digits(u.take(p)));
            }
        }
    }
}

/// A non-digit character after the dot refutes every reading of the string
/// as a decimal literal.
proof fn lemma_not_decimal_bad_frac(s: Seq<char>, start: int, dot: int, k: int)
    requires
        start == 0 || start == 1,
        start == 1 ==> s.len() > 0 && s[0] == '-',
        start == 0 ==> s.len() == 0 || s[0] != '-',
        start < dot < k < s.len(),
        s[dot] == '.',
        !is_digit_char(s[k]),
        forall|q: int| start <= q < dot ==> is_digit_char(#[trigger] s[q]),
        forall|q: int| dot < q < k ==> is_digit_char(#[trigger] s[q]),
    ensures
        !is_decimal_str(s),
{
    let u = if start == 1 {
        s.skip(1)
    } else {
        s
    };
    assert(u == s.skip(start));
    assert(u[dot - start] == '.');
    assert(!all_digits(u));
    assert forall|p: int|
        !(0 <= p < u.len() && u[p] == '.' && all_digits(#[trigger] u.take(p)) && all_digits(
            u.skip(p + 1),
        )) by {
        if 0 <= p < u.len() && u[p] == '.' {
            if p < dot - start {
                assert(is_digit_char(s[p + start]));
                assert(u[p] == s[p + start]);
            } else if p == dot - start {
                assert(u.skip(p + 1)[k - dot - 1] == s[k]);
                assert(!all_digits(u.skip(p + 1)));
            } else {
                assert(u.take(p)[dot - start] == '.');
                assert(!all_digits(u.take(p)));
            }
        }
    }
}

/// A dot with nothing after it refutes every reading of the string as a
/// decimal literal.
proof fn lemma_not_decimal_empty_frac(s: Seq<char>, start: int, dot: int)
    requires
        start == 0 || start == 1,
        start == 1 ==> s.len() > 0 && s[0] == '-',
        start == 0 ==> s.len() == 0 || s[0] != '-',
        start < dot < s.len(),
        dot + 1 == s.len(),
        s[dot] == '.',
        forall|q: int| start <= q < dot ==> is_digit_char(#[trigger] s[q]),
    ensures
        !is_decimal_str(s),
{
    let u = if start == 1 {
        s.skip(1)
    } else {
        s
    };
    assert(u == s.skip(start));
    assert(u[dot - start] == '.');
    assert(!all_digits(u));
    assert forall|p: int|
        !(0 <= p < u.len() && u[p] == '.' && all_digits(#[trigger] u.take(p)) && all_digits(
            u.skip(p + 1),
        )) by {
        if 0 <= p < u.len() && u[p] == '.' {
            if p < dot - start {
                assert(is_digit_char(s[p + start]));
                assert(u[p] == s[p + start]);
            } else {
                assert(u.skip(p + 1).len() == 0);
                assert(!all_digits(u.skip(p + 1)));
            }
        }
    }
}

/// The numeric value of one digit character (0 for anything below `'0'`).
pub open spec fn char_digit_val(c: char) -> nat {
    if c as int >= '0' as int {
        (c as int - '0' as int) as nat
    } else {
        0
    }
}

/// The numeric value of a run of decimal digits, most significant first.
pub open spec fn digits_val(s: Seq<char>) -> nat
    decreases s.len(),
{
    if s.len() == 0 {
        0
    } else {
        digits_val(s.drop_last()) * 10 + char_digit_val(s.last())
    }
}

/// The shape of an integer lexeme: an optional `-`, then digits only.
pub open spec fn is_int_str(s: Seq<char>) -> bool {
    if s.len() > 0 && s[0] == '-' {
        all_digits(s.skip(1))
    } else {
        all_digits(s)
    }
}

/// The value of an integer lexeme.
pub open spec fn int_str_val(s: Seq<char>) -> int {
    if s.len() > 0 && s[0] == '-' {
        -(digits_val(s.skip(1)) as int)
    } else {
        digits_val(s) as int
    }
}

/// A run of digits only grows in value as digits are appended.
proof fn lemma_digits_val_grows(s: Seq<char>, k: int)
    requires
        0 <= k <= s.len(),
    ensures
        digits_val(s) >= digits_val(s.take(k)),
    decreases s.len() - k,
{
    if k < s.len() {
        lemma_digits_val_grows(s, k + 1);
        assert(s.take(k + 1).drop_last() =~= s.take(k));
        assert(digits_val(s.take(k + 1)) == digits_val(s.take(k)) * 10 + char_digit_val(
            s.take(k + 1).last(),
        ));
        assert(digits_val(s.take(k)) * 10 >= digits_val(s.take(k)));
    } else {
        assert(s.take(k) =~= s);
    }
}

/// Parse a signed integer lexeme into a 32-bit value. Fails, carrying the
/// lexeme, when the shape is wrong or the value does not fit.
pub fn parse_i32(s: &str) -> (r: ShopifyResult<i32>)
    ensures
        r is Ok <==> (is_int_str(s@) && i32::MIN <= int_str_val(s@) <= i32::MAX),
        r matches Ok(v) ==> v as int == int_str_val(s@),
        r matches Err(e) ==> e matches ShopifyGqlError::InvalidScalar(raw) && raw@ == s@,
    {
    let n = s.unicode_len();
    let neg = n > 0 && s.get_char(0) == '-';
    let start: usize = if neg {
        1
    } else {
        0
    };
    let ghost u = s@.skip(start as int);
    if start >= n {
        return Err(ShopifyGqlError::InvalidScalar(String::from_str(s)));
    }
    let mut acc: u64 = 0;
    let mut i = start;
    while i < n
        invariant
            n == s@.len(),
            start == 0 || start == 1,
            start == 1 <==> (s@.len() > 0 && s@[0] == '-'),
            start <= i <= n,
            start < n,
            u == s@.skip(start as int),
            forall|q: int| start <= q < i ==> is_digit_char(#[trigger] s@[q]),
            acc == digits_val(u.take(i - start)),
            acc <= 0x8000_0000u64,
        decreases n - i,
    {
        let c = s.get_char(i);
        if !('0' <= c && c <= '9') {
            proof {
                assert(u[i - start as int] == s@[i as int]);
                assert(!all_digits(u));
            }
            return Err(ShopifyGqlError::InvalidScalar(String::from_str(s)));
        }
        let d = (c as u32) - ('0' as u32);
        proof {
            assert(u.take(i + 1 - start).drop_last() =~= u.take(i - start));
            assert(u.take(i + 1 - start).last() == s@[i as int]);
        }
        acc = acc * 10 + (d as u64);
        if acc > 0x8000_0000u64 {
            proof {
                assert(digits_val(u.take(i + 1 - start)) > 0x8000_0000) by {
                    assert(acc == digits_val(u.take(i + 1 - start)));
                }
                lemma_digits_val_grows(u, i + 1 - start);
                assert(digits_val(u) > 0x8000_0000);
                if start == 0 {
                    assert(u =~= s@);
                }
                if is_int_str(s@) {
                    if start == 1 {
                        assert(int_str_val(s@) < -0x8000_0000);
                    } else {
                        assert(int_str_val(s@) > 0x7FFF_FFFF);
                    }
                }
            }
            return Err(ShopifyGqlError::InvalidScalar(String::from_str(s)));
        }
        i += 1;
    }
    proof {
        assert(u.take(n - start as int) =~= u);
        assert(all_digits(u)) by {
            assert(forall|q: int| 0 <= q < u.len() ==> #[trigger] u[q] == s@[q + start]);
        }
        if start == 0 {
            assert(u =~= s@);
        }
        assert(is_int_str(s@));
        assert(acc == digits_val(u));
    }
    if neg {
        if acc > 0x8000_0000u64 {
            return Err(ShopifyGqlError::InvalidScalar(String::from_str(s)));
        }
        if acc == 0x8000_0000u64 {
            return Ok(i32::MIN);
        }
        Ok(-((acc as u32) as i32))
    } else {
        if acc > 0x7FFF_FFFFu64 {
            return Err(ShopifyGqlError::InvalidScalar(String::from_str(s)));
        }
        Ok((acc as u32) as i32)
    }
}

/// A typed money amount, held as the validated decimal wire string.
#[derive(Debug)]
pub struct Money {
    amount: String,
}

impl View for Money {
    type V = Seq<char>;

    closed spec fn view(&self) -> Seq<char> {
        self.amount@
    }
}

impl Clone for Money {
    fn clone(&self) -> (r: Money)
        ensures
            r@ == self@,
    {
        Money { amount: self.amount.clone() }
    }
}

impl PartialEq for Money {
    fn eq(&self, other: &Money) -> (r: bool) {
        self.amount == other.amount
    }
}

impl vstd::std_specs::cmp::PartialEqSpecImpl for Money {
    open spec fn obeys_eq_spec() -> bool {
        true
    }

    open spec fn eq_spec(&self, other: &Money) -> bool {
        self@ == other@
    }
}

impl Money {
    /// Parse a money amount from its wire string; fails on anything but a
    /// plain decimal literal, carrying the offending string.
    pub fn try_from(value: String) -> (r: ShopifyResult<Money>)
        ensures
            r is Ok <==> is_decimal_str(value@),
            r matches Ok(m) ==> m@ == value@,
            r matches Err(e) ==> e matches ShopifyGqlError::InvalidScalar(raw) && raw@ == value@,
    {
        if check_decimal(value.as_str()) {
            Ok(Money { amount: value })
        } else {
            Err(ShopifyGqlError::InvalidScalar(value))
        }
    }

    /// The decimal wire string.
    pub fn inner(&self) -> (r: &String)
        ensures
            r@ == self@,
    {
        &self.amount
    }
}

/// The closed enumeration of weight units the remote API speaks.
#[derive(Clone, Copy, Debug, PartialEq, Eq, Structural)]
#[allow(non_camel_case_types)]
pub enum WeightUnit {
    GRAMS,
    KILOGRAMS,
    OUNCES,
    POUNDS,
}

impl WeightUnit {
    /// The bare tag under which this unit travels on the wire.
    pub open spec fn tag_spec(&self) -> Seq<char> {
        match self {
            WeightUnit::GRAMS => "GRAMS"@,
            WeightUnit::KILOGRAMS => "KILOGRAMS"@,
            WeightUnit::OUNCES => "OUNCES"@,
            WeightUnit::POUNDS => "POUNDS"@,
        }
    }

    pub fn tag(&self) -> (r: &'static str)
        ensures
            r@ == self.tag_spec(),
    {
        match self {
            WeightUnit::GRAMS => "GRAMS",
            WeightUnit::KILOGRAMS => "KILOGRAMS",
            WeightUnit::OUNCES => "OUNCES",
            WeightUnit::POUNDS => "POUNDS",
        }
    }

    /// Decode a weight-unit tag; an unrecognized tag fails rather than
    /// defaulting.
    pub fn parse(tag: &str) -> (r: ShopifyResult<WeightUnit>)
        ensures
            r matches Ok(u) ==> u.tag_spec() == tag@,
            r is Err <==> (tag@ != "GRAMS"@ && tag@ != "KILOGRAMS"@ && tag@ != "OUNCES"@ && tag@
                != "POUNDS"@),
            r matches Err(e) ==> e matches ShopifyGqlError::InvalidScalar(raw) && raw@ == tag@,
    {
        if str_eq(tag, "GRAMS") {
            Ok(WeightUnit::GRAMS)
        } else if str_eq(tag, "KILOGRAMS") {
            Ok(WeightUnit::KILOGRAMS)
        } else if str_eq(tag, "OUNCES") {
            Ok(WeightUnit::OUNCES)
        } else if str_eq(tag, "POUNDS") {
            Ok(WeightUnit::POUNDS)
        } else {
            Err(ShopifyGqlError::InvalidScalar(String::from_str(tag)))
        }
    }
}

/// The nodes of a bounded-list reply, in reply order.
#[derive(Debug)]
pub struct Edges<T> {
    edges: Vec<T>,
}

impl<T> Edges<T> {
    /// The nodes, as a mathematical sequence.
    pub closed spec fn nodes_spec(&self) -> Seq<T> {
        self.edges@
    }

    pub fn new(edges: Vec<T>) -> (r: Edges<T>)
        ensures
            r.nodes_spec() == edges@,
    {
        Edges { edges }
    }

    pub fn len(&self) -> (r: usize)
        ensures
            r == self.nodes_spec().len(),
    {
        self.edges.len()
    }

    /// Borrow every node, in order.
    pub fn to_inner_vec(&self) -> (r: Vec<&T>)
        ensures
            r@.len() == self.nodes_spec().len(),
            forall|i: int| 0 <= i < r@.len() ==> *(#[trigger] r@[i]) == self.nodes_spec()[i],
    {
        let mut out: Vec<&T> = Vec::new();
        let mut i: usize = 0;
        while i < self.edges.len()
            invariant
                0 <= i <= self.edges.len(),
                out@.len() == i,
                forall|j: int| 0 <= j < i ==> *(#[trigger] out@[j]) == self.nodes_spec()[j],
            decreases self.edges.len() - i,
        {
            out.push(&self.edges[i]);
            i += 1;
        }
        out
    }

    /// Borrow the node at `idx`.
    pub fn get_node(&self, idx: usize) -> (r: &T)
        requires
            idx < self.nodes_spec().len(),
        ensures
            *r == self.nodes_spec()[idx as int],
    {
        &self.edges[idx]
    }
}

/// Identifier round trip: formatting any digits-only payload into a canonical
/// identifier string and parsing the payload back returns the same digits.
/// Holds for any canonical prefix that ends in `/`, and so for each of the
/// three identifier factories.
pub proof fn lemma_identifier_round_trip(prefix: Seq<char>, d: Seq<char>)
    requires
        prefix.len() > 0,
        prefix.last() == '/',
        all_digits(d),
    ensures
        payload_spec(prefix + d) =~= d,
{
    let s = prefix + d;
    assert(s[prefix.len() - 1] == '/');
    assert forall|j: int| prefix.len() - 1 < j < s.len() implies s[j] != '/' by {
        assert(s[j] == d[j - prefix.len()]);
        assert(is_digit_char(d[j - prefix.len()]));
    }
    lemma_payload_after_slash(s, prefix.len() - 1);
    assert(s.skip(prefix.len() as int) =~= d);
}

} // verus!
