//! Address configurations reported by the network daemon.
//!
//! The daemon reports addresses both as packed integers and as
//! dictionaries of dynamically typed values whose `address` entry is
//! dotted-decimal text; both readings are decoded here, including a
//! verified parser for the dotted-decimal form.

use vstd::prelude::*;

use crate::text::{digits_val, is_digit};
use crate::wire::WireValue;

verus! {

broadcast use vstd::std_specs::vec::group_vec_axioms, vstd::seq::group_seq_axioms;

/// A four-octet address.
#[derive(Debug, Clone, Copy, PartialEq, Eq)]
pub struct Ipv4Address {
    pub octets: [u8; 4],
}

impl Ipv4Address {
    /// The modelled octet tuple.
    pub open spec fn spec_octets(&self) -> (u8, u8, u8, u8) {
        (self.octets[0], self.octets[1], self.octets[2], self.octets[3])
    }

    /// The address with the given octets, most significant first.
    pub fn new(a: u8, b: u8, c: u8, d: u8) -> (r: Ipv4Address)
        ensures
            r.spec_octets() == (a, b, c, d),
    {
        Ipv4Address { octets: [a, b, c, d] }
    }

    /// The address packed in `x` most significant octet first.
    pub open spec fn from_be_spec(x: u32) -> Ipv4Address {
        Ipv4Address {
            octets: [
                (x >> 24) as u8,
                ((x >> 16) & 0xff) as u8,
                ((x >> 8) & 0xff) as u8,
                (x & 0xff) as u8,
            ],
        }
    }

    /// Unpacks an address stored most significant octet first.
    pub fn from_be(x: u32) -> (r: Ipv4Address)
        ensures
            r == Ipv4Address::from_be_spec(x),
    {
        proof {
            assert((x >> 24) <= 0xff && ((x >> 16) & 0xff) <= 0xff && ((x >> 8) & 0xff) <= 0xff
                && (x & 0xff) <= 0xff) by (bit_vector);
        }
        Ipv4Address {
            octets: [
                (x >> 24) as u8,
                ((x >> 16) & 0xff) as u8,
                ((x >> 8) & 0xff) as u8,
                (x & 0xff) as u8,
            ],
        }
    }

    /// The address packed in `x` least significant octet first.
    pub open spec fn from_le_spec(x: u32) -> Ipv4Address {
        Ipv4Address {
            octets: [
                (x & 0xff) as u8,
                ((x >> 8) & 0xff) as u8,
                ((x >> 16) & 0xff) as u8,
                (x >> 24) as u8,
            ],
        }
    }

    /// Unpacks an address stored least significant octet first.
    pub fn from_le(x: u32) -> (r: Ipv4Address)
        ensures
            r == Ipv4Address::from_le_spec(x),
    {
        proof {
            assert((x >> 24) <= 0xff && ((x >> 16) & 0xff) <= 0xff && ((x >> 8) & 0xff) <= 0xff
                && (x & 0xff) <= 0xff) by (bit_vector);
        }
        Ipv4Address {
            octets: [
                (x & 0xff) as u8,
                ((x >> 8) & 0xff) as u8,
                ((x >> 16) & 0xff) as u8,
                (x >> 24) as u8,
            ],
        }
    }
}

/// A sixteen-octet address.
#[derive(Debug, Clone, PartialEq, Eq)]
pub struct Ipv6Address {
    pub octets: Vec<u8>,
}

/// The length of the digit run in `s` starting at `from`.
pub open spec fn digits_run(s: Seq<char>, from: int) -> int
    decreases s.len() - from when from <= s.len()
{
    if from < s.len() && is_digit(s[from]) {
        1 + digits_run(s, from + 1)
    } else {
        0
    }
}

/// Whether a dotted-decimal octet starts at `from`: one to three digits,
/// no surplus leading zero, value within eight bits.
pub open spec fn octet_at(s: Seq<char>, from: int) -> bool {
    let l = digits_run(s, from);
    &&& 1 <= l <= 3
    &&& (l > 1 ==> s[from] != '0')
    &&& digits_val(s.subrange(from, from + l)) <= 255
}

/// The value of the octet starting at `from`.
pub open spec fn octet_val_at(s: Seq<char>, from: int) -> int {
    digits_val(s.subrange(from, from + digits_run(s, from)))
}

/// What parsing dotted-decimal address text yields: four octets
/// separated by dots, covering the whole text.
pub open spec fn ipv4_of(s: Seq<char>) -> Option<(u8, u8, u8, u8)> {
    let p0 = 0int;
    let p1 = p0 + digits_run(s, p0) + 1;
    let p2 = p1 + digits_run(s, p1) + 1;
    let p3 = p2 + digits_run(s, p2) + 1;
    if octet_at(s, p0) && p1 - 1 < s.len() && s[p1 - 1] == '.' && octet_at(s, p1) && p2 - 1
        < s.len() && s[p2 - 1] == '.' && octet_at(s, p2) && p3 - 1 < s.len() && s[p3 - 1] == '.'
        && octet_at(s, p3) && p3 + digits_run(s, p3) == s.len() {
        Some(
            (
                octet_val_at(s, p0) as u8,
                octet_val_at(s, p1) as u8,
                octet_val_at(s, p2) as u8,
                octet_val_at(s, p3) as u8,
            ),
        )
    } else {
        None
    }
}

proof fn lemma_digits_run_nonneg(s: Seq<char>, from: int)
    requires
        0 <= from <= s.len(),
    ensures
        digits_run(s, from) >= 0,
    decreases s.len() - from,
{
    if from < s.len() && is_digit(s[from]) {
        lemma_digits_run_nonneg(s, from + 1);
    }
}

proof fn lemma_digits_run_is(s: Seq<char>, from: int, l: int)
    requires
        0 <= from,
        from + l <= s.len(),
        0 <= l,
        forall|k: int| from <= k < from + l ==> is_digit(#[trigger] s[k]),
        from + l == s.len() || !is_digit(s[from + l]),
    ensures
        digits_run(s, from) == l,
    decreases l,
{
    if l > 0 {
        lemma_digits_run_is(s, from + 1, l - 1);
    }
}

proof fn lemma_digits_run_at_least(s: Seq<char>, from: int, l: int)
    requires
        0 <= from,
        from + l <= s.len(),
        0 <= l,
        forall|k: int| from <= k < from + l ==> is_digit(#[trigger] s[k]),
    ensures
        digits_run(s, from) >= l,
    decreases l,
{
    if l == 0 {
        lemma_digits_run_nonneg(s, from);
    } else {
        lemma_digits_run_at_least(s, from + 1, l - 1);
    }
}

/// Scans one dotted-decimal octet of `s` starting at `from`: its value
/// and the position just past its digits.
fn scan_octet(s: &str, from: usize) -> (r: Option<(u8, usize)>)
    requires
        from <= s@.len(),
    ensures
        match r {
            Some((v, end)) => {
                &&& octet_at(s@, from as int)
                &&& end == from + digits_run(s@, from as int)
                &&& v == octet_val_at(s@, from as int)
            },
            None => !octet_at(s@, from as int),
        },
{
    let n = s.unicode_len();
    let mut l: usize = 0;
    while from + l < n && l < 4 && '0' <= s.get_char(from + l) && s.get_char(from + l) <= '9'
        invariant
            0 <= l <= 4,
            from + l <= n,
            n == s@.len(),
            forall|k: int| from <= k < from + l ==> is_digit(#[trigger] s@[k]),
        decreases n - (from + l) + (4 - l),
    {
        l = l + 1;
    }
    if l == 4 {
        proof {
            lemma_digits_run_at_least(s@, from as int, 4);
        }
        return None;
    }
    proof {
        lemma_digits_run_is(s@, from as int, l as int);
    }
    if l == 0 {
        return None;
    }
    if l > 1 && s.get_char(from) == '0' {
        return None;
    }
    let mut v: u32 = 0;
    let mut k: usize = 0;
    let ghost seg = s@.subrange(from as int, from as int + l as int);
    while k < l
        invariant
            0 <= k <= l,
            l <= 3,
            n == s@.len(),
            from + l <= n,
            seg == s@.subrange(from as int, from as int + l as int),
            seg.len() == l,
            forall|j: int| from <= j < from + l ==> is_digit(#[trigger] s@[j]),
            v == digits_val(seg.subrange(0, k as int)),
            k == 0 ==> v == 0,
            k == 1 ==> v <= 9,
            k == 2 ==> v <= 99,
            k == 3 ==> v <= 999,
        decreases l - k,
    {
        let c = s.get_char(from + k);
        proof {
            assert(seg[k as int] == s@[from + k]);
            assert(is_digit(seg[k as int]));
            assert('0' <= c && c <= '9');
            assert(48 <= c as u8 && c as u8 <= 57);
            assert(seg.subrange(0, k as int + 1).drop_last() =~= seg.subrange(0, k as int));
            assert(seg.subrange(0, k as int + 1).last() == seg[k as int]);
            assert(digits_val(seg.subrange(0, k as int)) >= 0) by {
                crate::networkmanager::config::lemma_digits_nonneg(seg.subrange(0, k as int));
            }
        }
        v = v * 10 + ((c as u8) - 48) as u32;
        k = k + 1;
    }
    proof {
        assert(seg.subrange(0, l as int) =~= seg);
    }
    if v > 255 {
        return None;
    }
    Some((v as u8, from + l))
}

/// Digit text is never negative in value.
pub proof fn lemma_digits_nonneg(s: Seq<char>)
    requires
        forall|i: int| 0 <= i < s.len() ==> is_digit(#[trigger] s[i]),
    ensures
        digits_val(s) >= 0,
    decreases s.len(),
{
    if s.len() > 0 {
        lemma_digits_nonneg(s.drop_last());
    }
}

/// Parses dotted-decimal address text, as [`ipv4_of`] describes.
pub fn parse_ipv4(s: &str) -> (r: Option<Ipv4Address>)
    ensures
        match r {
            Some(a) => ipv4_of(s@) == Some(a.spec_octets()),
            None => ipv4_of(s@) is None,
        },
{
    let n = s.unicode_len();
    let (a, p1) = match scan_octet(s, 0) {
        Some(x) => x,
        None => {
            return None;
        }
    };
    if p1 >= n || s.get_char(p1) != '.' {
        return None;
    }
    let (b, p2) = match scan_octet(s, p1 + 1) {
        Some(x) => x,
        None => {
            return None;
        }
    };
    if p2 >= n || s.get_char(p2) != '.' {
        return None;
    }
    let (c, p3) = match scan_octet(s, p2 + 1) {
        Some(x) => x,
        None => {
            return None;
        }
    };
    if p3 >= n || s.get_char(p3) != '.' {
        return None;
    }
    let (d, p4) = match scan_octet(s, p3 + 1) {
        Some(x) => x,
        None => {
            return None;
        }
    };
    if p4 != n {
        return None;
    }
    Some(Ipv4Address::new(a, b, c, d))
}

/// One entry of the daemon's address-data listing.
#[derive(Debug, Clone, Copy, PartialEq, Eq)]
pub struct AddressData {
    pub address: Ipv4Address,
    pub prefix: u32,
}

/// A bound address-configuration surface for the four-octet family.
pub struct Ipv4Config {
    path: String,
}

impl View for Ipv4Config {
    type V = Seq<char>;

    closed spec fn view(&self) -> Seq<char> {
        self.path@
    }
}

/// The text stored under `key` in an address-data entry, when it is a
/// string.
pub open spec fn data_string(m: Seq<(Seq<char>, crate::wire::WireV)>, k: Seq<char>) -> Option<
    Seq<char>,
> {
    match first_value(m, k) {
        Some(crate::wire::WireV::Str(s)) => Some(s),
        _ => None,
    }
}

/// The count stored under `key` in an address-data entry, when it is an
/// unsigned 32-bit value.
pub open spec fn data_u32(m: Seq<(Seq<char>, crate::wire::WireV)>, k: Seq<char>) -> Option<u32> {
    match first_value(m, k) {
        Some(crate::wire::WireV::U32(u)) => Some(u),
        _ => None,
    }
}

/// First-match lookup over keyed wire entries.
pub open spec fn first_value(m: Seq<(Seq<char>, crate::wire::WireV)>, k: Seq<char>) -> Option<
    crate::wire::WireV,
>
    decreases m.len(),
{
    if m.len() == 0 {
        None
    } else if m[0].0 == k {
        Some(m[0].1)
    } else {
        first_value(m.drop_first(), k)
    }
}

/// What one address-data entry contributes: its dotted-decimal `address`
/// text parsed, with its `prefix` count, when both are present and well
/// shaped; nothing otherwise.
pub open spec fn address_data_of(m: Seq<(Seq<char>, crate::wire::WireV)>) -> Option<AddressData> {
    match data_string(m, "address"@) {
        Some(t) => match ipv4_of(t) {
            Some((a, b, c, d)) => match data_u32(m, "prefix"@) {
                Some(p) => Some(
                    AddressData { address: Ipv4Address { octets: [a, b, c, d] }, prefix: p },
                ),
                None => None,
            },
            None => None,
        },
        None => None,
    }
}

impl Ipv4Config {
    /// Binds the configuration at the given object path.
    pub fn new(path: String) -> (r: Ipv4Config)
        ensures
            r@ == path@,
    {
        Ipv4Config { path }
    }

    /// The object path this surface is bound to.
    pub fn path(&self) -> (r: &str)
        ensures
            r@ == self@,
    {
        self.path.as_str()
    }

    /// Decodes the daemon's packed address listing: each inner integer
    /// carries an address least significant octet first.
    pub fn addresses(&self, raw: Vec<Vec<u32>>) -> (r: Vec<Vec<Ipv4Address>>)
        ensures
            r@.len() == raw@.len(),
            forall|i: int| 0 <= i < raw@.len() ==> (#[trigger] r@[i])@.len() == raw@[i]@.len(),
            forall|i: int, j: int|
                0 <= i < raw@.len() && 0 <= j < raw@[i]@.len() ==> (#[trigger] r@[i]@[j])
                    == Ipv4Address::from_le_spec(raw@[i]@[j]),
    {
        let mut out: Vec<Vec<Ipv4Address>> = Vec::new();
        let n = raw.len();
        let mut i: usize = 0;
        while i < n
            invariant
                0 <= i <= n,
                n == raw@.len(),
                out@.len() == i,
                forall|p: int| 0 <= p < i ==> (#[trigger] out@[p])@.len() == raw@[p]@.len(),
                forall|p: int, q: int|
                    0 <= p < i && 0 <= q < raw@[p]@.len() ==> (#[trigger] out@[p]@[q])
                        == Ipv4Address::from_le_spec(raw@[p]@[q]),
            decreases n - i,
        {
            let inner = &raw[i];
            let m = inner.len();
            let mut row: Vec<Ipv4Address> = Vec::new();
            let mut j: usize = 0;
            while j < m
                invariant
                    0 <= j <= m,
                    m == inner@.len(),
                    inner@ == raw@[i as int]@,
                    row@.len() == j,
                    forall|q: int| 0 <= q < j ==> (#[trigger] row@[q])
                        == Ipv4Address::from_le_spec(inner@[q]),
                decreases m - j,
            {
                row.push(Ipv4Address::from_le(inner[j]));
                j = j + 1;
            }
            out.push(row);
            i = i + 1;
        }
        out
    }

    /// Decodes the daemon's address-data listing, passing over entries
    /// that lack a well-shaped address or prefix.
    pub fn address_data(&self, maps: Vec<Vec<(String, WireValue)>>) -> (r: Vec<AddressData>)
        ensures
            r@ == address_data_list(maps.deep_view()),
    {
        let ghost dv = maps.deep_view();
        let mut out: Vec<AddressData> = Vec::new();
        let n = maps.len();
        let mut i: usize = 0;
        proof {
            assert(dv.take(0) =~= Seq::<Seq<(Seq<char>, crate::wire::WireV)>>::empty());
        }
        while i < n
            invariant
                0 <= i <= n,
                n == maps@.len(),
                dv == maps.deep_view(),
                dv.len() == n,
                forall|p: int| 0 <= p < n ==> #[trigger] dv[p] == maps@[p].deep_view(),
                out@ =~= address_data_list(dv.take(i as int)),
            decreases n - i,
        {
            let ghost pre = dv.take(i as int);
            let ghost post = dv.take(i as int + 1);
            proof {
                assert(post.drop_last() =~= pre);
                assert(post.last() == dv[i as int]);
            }
            match Self::entry_address_data(&maps[i]) {
                Some(e) => {
                    out.push(e);
                }
                None => {
                }
            }
            i = i + 1;
        }
        proof {
            assert(dv.take(n as int) =~= dv);
        }
        out
    }

    /// Decodes one address-data entry, as [`address_data_of`] describes.
    fn entry_address_data(entries: &Vec<(String, WireValue)>) -> (r: Option<AddressData>)
        ensures
            r == address_data_of(entries.deep_view()),
    {
        let addr_text = match Self::entry_string(entries, "address") {
            Some(t) => t,
            None => {
                return None;
            }
        };
        let address = match parse_ipv4(addr_text.as_str()) {
            Some(a) => a,
            None => {
                return None;
            }
        };
        let prefix = match Self::entry_u32(entries, "prefix") {
            Some(p) => p,
            None => {
                return None;
            }
        };
        proof {
            broadcast use vstd::array::axiom_array_ext_equal;

            match ipv4_of(addr_text@) {
                Some((a, b, c, d)) => {
                    assert(address.octets =~= [a, b, c, d]);
                }
                None => {
                    assert(false);
                }
            }
        }
        Some(AddressData { address, prefix })
    }

    /// First string stored under `key` among the entries.
    fn entry_string(entries: &Vec<(String, WireValue)>, key: &str) -> (r: Option<String>)
        ensures
            match r {
                Some(t) => data_string(entries.deep_view(), key@) == Some(t@),
                None => data_string(entries.deep_view(), key@) is None,
            },
    {
        let ghost dv = entries.deep_view();
        let n = entries.len();
        let mut i: usize = 0;
        proof {
            assert(dv.skip(0) =~= dv);
        }
        while i < n
            invariant
                0 <= i <= n,
                n == entries@.len(),
                dv == entries.deep_view(),
                dv.len() == n,
                forall|p: int| 0 <= p < n ==> #[trigger] dv[p] == (entries@[p].0@,
                    crate::wire::wire_view(entries@[p].1)),
                first_value(dv, key@) == first_value(dv.skip(i as int), key@),
            decreases n - i,
        {
            proof {
                assert(dv.skip(i as int).drop_first() =~= dv.skip(i as int + 1));
                assert(dv.skip(i as int)[0] == dv[i as int]);
            }
            if crate::text::str_eq(entries[i].0.as_str(), key) {
                match &entries[i].1 {
                    WireValue::Str(t) => {
                        return Some(t.clone());
                    }
                    _ => {
                        return None;
                    }
                }
            }
            i = i + 1;
        }
        proof {
            assert(dv.skip(n as int) =~= Seq::<(Seq<char>, crate::wire::WireV)>::empty());
        }
        None
    }

    /// First unsigned 32-bit count stored under `key` among the entries.
    fn entry_u32(entries: &Vec<(String, WireValue)>, key: &str) -> (r: Option<u32>)
        ensures
            r == data_u32(entries.deep_view(), key@),
    {
        let ghost dv = entries.deep_view();
        let n = entries.len();
        let mut i: usize = 0;
        proof {
            assert(dv.skip(0) =~= dv);
        }
        while i < n
            invariant
                0 <= i <= n,
                n == entries@.len(),
                dv == entries.deep_view(),
                dv.len() == n,
                forall|p: int| 0 <= p < n ==> #[trigger] dv[p] == (entries@[p].0@,
                    crate::wire::wire_view(entries@[p].1)),
                first_value(dv, key@) == first_value(dv.skip(i as int), key@),
            decreases n - i,
        {
            proof {
                assert(dv.skip(i as int).drop_first() =~= dv.skip(i as int + 1));
                assert(dv.skip(i as int)[0] == dv[i as int]);
            }
            if crate::text::str_eq(entries[i].0.as_str(), key) {
                match &entries[i].1 {
                    WireValue::U32(u) => {
                        return Some(*u);
                    }
                    _ => {
                        return None;
                    }
                }
            }
            i = i + 1;
        }
        proof {
            assert(dv.skip(n as int) =~= Seq::<(Seq<char>, crate::wire::WireV)>::empty());
        }
        None
    }
}

/// The address-data entries a listing contributes, in order, entries
/// without a well-shaped address or prefix passed over.
pub open spec fn address_data_list(maps: Seq<Seq<(Seq<char>, crate::wire::WireV)>>) -> Seq<
    AddressData,
>
    decreases maps.len(),
{
    if maps.len() == 0 {
        Seq::empty()
    } else {
        let rest = address_data_list(maps.drop_last());
        match address_data_of(maps.last()) {
            Some(e) => rest.push(e),
            None => rest,
        }
    }
}

/// A bound address-configuration surface for the sixteen-octet family.
pub struct Ipv6Config {
    path: String,
}

impl View for Ipv6Config {
    type V = Seq<char>;

    closed spec fn view(&self) -> Seq<char> {
        self.path@
    }
}

impl Ipv6Config {
    /// Binds the configuration at the given object path.
    pub fn new(path: String) -> (r: Ipv6Config)
        ensures
            r@ == path@,
    {
        Ipv6Config { path }
    }

    /// The object path this surface is bound to.
    pub fn path(&self) -> (r: &str)
        ensures
            r@ == self@,
    {
        self.path.as_str()
    }

    /// Decodes the daemon's address listing; every reported address must
    /// carry exactly sixteen octets, as the daemon guarantees.
    pub fn addresses(&self, raw: Vec<(Vec<u8>, u32, Vec<u8>)>) -> (r: Vec<Ipv6Address>)
        requires
            forall|i: int| 0 <= i < raw@.len() ==> (#[trigger] raw@[i]).0@.len() == 16,
        ensures
            r@.len() == raw@.len(),
            forall|i: int| 0 <= i < raw@.len() ==> (#[trigger] r@[i]).octets@ == raw@[i].0@,
    {
        let mut out: Vec<Ipv6Address> = Vec::new();
        let n = raw.len();
        let mut i: usize = 0;
        let mut raw = raw;
        let ghost r0 = raw@;
        while i < n
            invariant
                0 <= i <= n,
                n == r0.len(),
                raw@ == r0,
                out@.len() == i,
                forall|p: int| 0 <= p < n ==> (#[trigger] r0[p]).0@.len() == 16,
                forall|p: int| 0 <= p < i ==> (#[trigger] out@[p]).octets@ == r0[p].0@,
            decreases n - i,
        {
            let octets = raw[i].0.clone();
            proof {
                assert(octets@ == r0[i as int].0@);
            }
            out.push(Ipv6Address { octets });
            i = i + 1;
        }
        out
    }
}

} // verus!
