//! The typed value tree and metadata map of the media-player protocol.
//!
//! Metadata arrives as a dictionary of dynamically typed wire values.
//! [`MetadataValue::from`] converts any wire value totally — every input
//! yields a value, with unsupported shapes collapsing to
//! [`MetadataValue::__Unsupported`] rather than failing — and [`Metadata`]
//! offers best-effort typed readings of the well-known keys, answering
//! "absent" rather than erring when a key is missing or oddly shaped.

use vstd::prelude::*;

use crate::dates::{rfc3339_nanos, parse_rfc3339, DateTime};
use crate::duration::Duration;
use crate::mpris2::error::{Error, ValueKind};
use crate::text::{parse_i64, parse_i64_spec};
use crate::wire::{
    WireV, WireValue, lemma_wire_view_entries, lemma_wire_view_seq, wire_view,
    wire_view_entries, wire_view_seq,
};

verus! {

broadcast use vstd::std_specs::vec::group_vec_axioms, vstd::seq::group_seq_axioms;

/// Mathematical model of a [`MetadataValue`].
pub enum MetaV {
    Str(Seq<char>),
    Double(u64),
    Int(i64),
    UInt(u64),
    Bool(bool),
    Array(Seq<MetaV>),
    Dict(Seq<(Seq<char>, MetaV)>),
    Unsupported,
}

/// A decoded metadata value.
///
/// Double-precision numbers are carried as their IEEE 754 bit pattern, as
/// in [`WireValue`].  Dictionary entries keep their wire order; a later
/// entry with the same key shadows an earlier one.
#[derive(Debug, PartialEq)]
pub enum MetadataValue {
    Str(String),
    Double(u64),
    Int(i64),
    UInt(u64),
    Bool(bool),
    Array(Vec<MetadataValue>),
    Dict(Vec<(String, MetadataValue)>),
    __Unsupported,
}

impl View for MetadataValue {
    type V = MetaV;

    open spec fn view(&self) -> MetaV {
        meta_view(*self)
    }
}

/// The [`MetaV`] that models a given [`MetadataValue`].
pub open spec fn meta_view(m: MetadataValue) -> MetaV
    decreases m,
{
    match m {
        MetadataValue::Str(s) => MetaV::Str(s@),
        MetadataValue::Double(b) => MetaV::Double(b),
        MetadataValue::Int(i) => MetaV::Int(i),
        MetadataValue::UInt(u) => MetaV::UInt(u),
        MetadataValue::Bool(b) => MetaV::Bool(b),
        MetadataValue::Array(xs) => {
            proof {
                assert(decreases_to!(m => xs));
                assert(decreases_to!(xs => xs@));
            }
            MetaV::Array(meta_view_seq(xs@))
        }
        MetadataValue::Dict(es) => {
            proof {
                assert(decreases_to!(m => es));
                assert(decreases_to!(es => es@));
            }
            MetaV::Dict(meta_view_entries(es@))
        }
        MetadataValue::__Unsupported => MetaV::Unsupported,
    }
}

/// Element-wise [`meta_view`] over a sequence of values.
pub open spec fn meta_view_seq(xs: Seq<MetadataValue>) -> Seq<MetaV>
    decreases xs,
{
    if xs.len() == 0 {
        Seq::empty()
    } else {
        seq![meta_view(xs[0])] + meta_view_seq(xs.drop_first())
    }
}

/// Entry-wise [`meta_view`] over keyed entries.
pub open spec fn meta_view_entries(es: Seq<(String, MetadataValue)>) -> Seq<(Seq<char>, MetaV)>
    decreases es,
{
    if es.len() == 0 {
        Seq::empty()
    } else {
        seq![(es[0].0@, meta_view(es[0].1))] + meta_view_entries(es.drop_first())
    }
}

/// [`meta_view_seq`] views each element in place.
pub proof fn lemma_meta_view_seq(xs: Seq<MetadataValue>)
    ensures
        meta_view_seq(xs).len() == xs.len(),
        forall|i: int| 0 <= i < xs.len() ==> meta_view_seq(xs)[i] == meta_view(xs[i]),
    decreases xs.len(),
{
    if xs.len() > 0 {
        lemma_meta_view_seq(xs.drop_first());
    }
}

/// [`meta_view_entries`] views each entry in place.
pub proof fn lemma_meta_view_entries(es: Seq<(String, MetadataValue)>)
    ensures
        meta_view_entries(es).len() == es.len(),
        forall|i: int| 0 <= i < es.len() ==> meta_view_entries(es)[i]
            == (es[i].0@, meta_view(es[i].1)),
    decreases es.len(),
{
    if es.len() > 0 {
        lemma_meta_view_entries(es.drop_first());
    }
}

/// The kind of a modelled value, as named in shape errors.
pub open spec fn kind_of(m: MetaV) -> ValueKind {
    match m {
        MetaV::Str(_) => ValueKind::Str,
        MetaV::Double(_) => ValueKind::Double,
        MetaV::Int(_) => ValueKind::Int,
        MetaV::UInt(_) => ValueKind::UInt,
        MetaV::Bool(_) => ValueKind::Bool,
        MetaV::Array(_) => ValueKind::Array,
        MetaV::Dict(_) => ValueKind::Dict,
        MetaV::Unsupported => ValueKind::Unsupported,
    }
}

/// Whether every key of a wire dictionary is a string.
pub open spec fn dict_keys_strings(es: Seq<(WireV, WireV)>) -> bool {
    forall|i: int| 0 <= i < es.len() ==> (#[trigger] es[i]).0 is Str
}

/// What decoding a whole wire value yields.  Total: every wire value maps
/// to exactly one [`MetaV`].
///
/// Numbers widen to 64 bits; strings and object paths both read as text;
/// arrays decode element-wise; a dictionary decodes entry-wise when all
/// its keys are strings and collapses to `Unsupported` otherwise; a boxed
/// variant unwraps one level; every remaining shape is `Unsupported`.
pub open spec fn decoded(w: WireV) -> MetaV
    decreases w,
{
    match w {
        WireV::U8(u) => MetaV::UInt(u as u64),
        WireV::Bool(b) => MetaV::Bool(b),
        WireV::I16(i) => MetaV::Int(i as i64),
        WireV::U16(u) => MetaV::UInt(u as u64),
        WireV::I32(i) => MetaV::Int(i as i64),
        WireV::U32(u) => MetaV::UInt(u as u64),
        WireV::I64(i) => MetaV::Int(i),
        WireV::U64(u) => MetaV::UInt(u),
        WireV::F64Bits(b) => MetaV::Double(b),
        WireV::Str(s) => MetaV::Str(s),
        WireV::ObjectPath(p) => MetaV::Str(p),
        WireV::Array(xs) => MetaV::Array(decoded_seq(xs)),
        WireV::Dict(es) => if dict_keys_strings(es) {
            MetaV::Dict(decoded_entries(es))
        } else {
            MetaV::Unsupported
        },
        WireV::Structure(_) => MetaV::Unsupported,
        WireV::Boxed(b) => decoded(*b),
        WireV::Other => MetaV::Unsupported,
    }
}

/// Element-wise [`decoded`] over a wire sequence.
pub open spec fn decoded_seq(xs: Seq<WireV>) -> Seq<MetaV>
    decreases xs,
{
    if xs.len() == 0 {
        Seq::empty()
    } else {
        seq![decoded(xs[0])] + decoded_seq(xs.drop_first())
    }
}

/// Entry-wise [`decoded`] over wire dictionary entries whose keys are
/// strings; an entry with any other key shape is passed over.
pub open spec fn decoded_entries(es: Seq<(WireV, WireV)>) -> Seq<(Seq<char>, MetaV)>
    decreases es,
{
    if es.len() == 0 {
        Seq::empty()
    } else {
        match es[0].0 {
            WireV::Str(k) => seq![(k, decoded(es[0].1))] + decoded_entries(es.drop_first()),
            _ => decoded_entries(es.drop_first()),
        }
    }
}

/// [`decoded_seq`] decodes each element in place.
pub proof fn lemma_decoded_seq(xs: Seq<WireV>)
    ensures
        decoded_seq(xs).len() == xs.len(),
        forall|i: int| 0 <= i < xs.len() ==> decoded_seq(xs)[i] == decoded(xs[i]),
    decreases xs.len(),
{
    if xs.len() > 0 {
        lemma_decoded_seq(xs.drop_first());
    }
}

/// Under all-string keys, [`decoded_entries`] decodes each entry in place.
pub proof fn lemma_decoded_entries(es: Seq<(WireV, WireV)>)
    requires
        dict_keys_strings(es),
    ensures
        decoded_entries(es).len() == es.len(),
        forall|i: int| 0 <= i < es.len() ==> decoded_entries(es)[i]
            == (es[i].0->Str_0, decoded(es[i].1)),
    decreases es.len(),
{
    if es.len() > 0 {
        assert(es[0].0 is Str);
        assert(dict_keys_strings(es.drop_first()));
        lemma_decoded_entries(es.drop_first());
    }
}

impl MetadataValue {
    /// Decodes a wire value, totally: every input yields a value and none
    /// yields an error.
    pub fn from(value: &WireValue) -> (r: MetadataValue)
        ensures
            r@ == decoded(value@),
        decreases *value,
    {
        match value {
            WireValue::U8(u) => MetadataValue::UInt(*u as u64),
            WireValue::Bool(b) => MetadataValue::Bool(*b),
            WireValue::I16(i) => MetadataValue::Int(*i as i64),
            WireValue::U16(u) => MetadataValue::UInt(*u as u64),
            WireValue::I32(i) => MetadataValue::Int(*i as i64),
            WireValue::U32(u) => MetadataValue::UInt(*u as u64),
            WireValue::I64(i) => MetadataValue::Int(*i),
            WireValue::U64(u) => MetadataValue::UInt(*u),
            WireValue::F64Bits(b) => MetadataValue::Double(*b),
            WireValue::Str(s) => MetadataValue::Str(s.clone()),
            WireValue::ObjectPath(p) => MetadataValue::Str(p.clone()),
            WireValue::Array(xs) => {
                proof {
                    assert(decreases_to!(*value => *xs));
                    assert(decreases_to!(*xs => xs@));
                }
                let out = Self::from_seq(xs);
                proof {
                    lemma_meta_view_seq(out@);
                    lemma_wire_view_seq(xs@);
                    lemma_decoded_seq(wire_view_seq(xs@));
                    assert(meta_view_seq(out@) =~= decoded_seq(wire_view_seq(xs@)));
                }
                MetadataValue::Array(out)
            }
            WireValue::Dict(es) => {
                proof {
                    assert(decreases_to!(*value => *es));
                    assert(decreases_to!(*es => es@));
                }
                match Self::from_entries(es) {
                    Some(out) => {
                        proof {
                            lemma_wire_view_entries(es@);
                            let wes = wire_view_entries(es@);
                            assert forall|j: int| 0 <= j < wes.len() implies (#[trigger] wes[j]).0
                                is Str by {
                                assert(wes[j].0 == wire_view(es@[j].0));
                            }
                            assert(dict_keys_strings(wes));
                            lemma_decoded_entries(wes);
                            lemma_meta_view_entries(out@);
                            assert forall|j: int| 0 <= j < es@.len() implies meta_view_entries(
                                out@,
                            )[j] == decoded_entries(wes)[j] by {
                                assert(wes[j].0 == wire_view(es@[j].0));
                                assert(wes[j].1 == wire_view(es@[j].1));
                            }
                            assert(meta_view_entries(out@) =~= decoded_entries(wes));
                        }
                        MetadataValue::Dict(out)
                    }
                    None => {
                        proof {
                            lemma_wire_view_entries(es@);
                            let wes = wire_view_entries(es@);
                            let j = choose|j: int|
                                0 <= j < es@.len() && !(wire_view((#[trigger] es@[j]).0) is Str);
                            assert(wes[j].0 == wire_view(es@[j].0));
                            assert(!dict_keys_strings(wes));
                        }
                        MetadataValue::__Unsupported
                    }
                }
            }
            WireValue::Structure(_) => MetadataValue::__Unsupported,
            WireValue::Boxed(b) => MetadataValue::from(&**b),
            WireValue::Other => MetadataValue::__Unsupported,
        }
    }

    /// Decodes each element of a wire array.
    fn from_seq(xs: &Vec<WireValue>) -> (r: Vec<MetadataValue>)
        ensures
            r@.len() == xs@.len(),
            forall|j: int| 0 <= j < xs@.len() ==> meta_view(#[trigger] r@[j])
                == decoded(wire_view(xs@[j])),
        decreases xs@,
    {
        let mut out: Vec<MetadataValue> = Vec::new();
        let n = xs.len();
        let mut i: usize = 0;
        while i < n
            invariant
                0 <= i <= n,
                n == xs@.len(),
                out@.len() == i,
                forall|j: int| 0 <= j < i ==> meta_view(#[trigger] out@[j])
                    == decoded(wire_view(xs@[j])),
            decreases n - i,
        {
            proof {
                assert(decreases_to!(xs@ => xs@[i as int]));
            }
            let d = MetadataValue::from(&xs[i]);
            out.push(d);
            i = i + 1;
        }
        out
    }

    /// Decodes each entry of a wire dictionary, or reports a key that is
    /// not a string.
    fn from_entries(es: &Vec<(WireValue, WireValue)>) -> (r: Option<
        Vec<(String, MetadataValue)>,
    >)
        ensures
            match r {
                Some(out) => {
                    &&& out@.len() == es@.len()
                    &&& forall|j: int| 0 <= j < es@.len() ==> wire_view(
                        (#[trigger] es@[j]).0,
                    ) is Str
                    &&& forall|j: int| 0 <= j < es@.len() ==> (#[trigger] out@[j]).0@
                        == wire_view(es@[j].0)->Str_0
                    &&& forall|j: int| 0 <= j < es@.len() ==> meta_view((#[trigger] out@[j]).1)
                        == decoded(wire_view(es@[j].1))
                },
                None => exists|j: int|
                    0 <= j < es@.len() && !(wire_view((#[trigger] es@[j]).0) is Str),
            },
        decreases es@,
    {
        let mut out: Vec<(String, MetadataValue)> = Vec::new();
        let n = es.len();
        let mut i: usize = 0;
        while i < n
            invariant
                0 <= i <= n,
                n == es@.len(),
                out@.len() == i,
                forall|j: int| 0 <= j < i ==> wire_view((#[trigger] es@[j]).0) is Str,
                forall|j: int| 0 <= j < i ==> (#[trigger] out@[j]).0@
                    == wire_view(es@[j].0)->Str_0,
                forall|j: int| 0 <= j < i ==> meta_view((#[trigger] out@[j]).1)
                    == decoded(wire_view(es@[j].1)),
            decreases n - i,
        {
            let k = match &es[i].0 {
                WireValue::Str(s) => s.clone(),
                _ => {
                    return None;
                }
            };
            proof {
                assert(decreases_to!(es@ => es@[i as int]));
                assert(decreases_to!(es@[i as int] => es@[i as int].1));
            }
            let d = MetadataValue::from(&es[i].1);
            out.push((k, d));
            i = i + 1;
        }
        Some(out)
    }

    /// The kind of this value, as used in shape errors.
    pub fn variant(&self) -> (r: ValueKind)
        ensures
            r == kind_of(self@),
    {
        match self {
            MetadataValue::Str(_) => ValueKind::Str,
            MetadataValue::Double(_) => ValueKind::Double,
            MetadataValue::Int(_) => ValueKind::Int,
            MetadataValue::UInt(_) => ValueKind::UInt,
            MetadataValue::Bool(_) => ValueKind::Bool,
            MetadataValue::Array(_) => ValueKind::Array,
            MetadataValue::Dict(_) => ValueKind::Dict,
            MetadataValue::__Unsupported => ValueKind::Unsupported,
        }
    }

    /// The text held by a string value, or a shape error.
    pub fn try_into_string(self) -> (r: Result<String, Error>)
        ensures
            match self@ {
                MetaV::Str(s) => r matches Ok(out) && out@ == s,
                _ => r == Err::<String, Error>(Error::IncorrectVariant {
                    wanted: ValueKind::Str,
                    actual: kind_of(self@),
                }),
            },
    {
        match self {
            MetadataValue::Str(s) => Ok(s),
            other => Err(Error::IncorrectVariant {
                wanted: ValueKind::Str,
                actual: other.variant(),
            }),
        }
    }

    /// The text held by a string value; the value must be a string.
    pub fn into_string(self) -> (r: String)
        requires
            self@ is Str,
        ensures
            self@ == MetaV::Str(r@),
    {
        match self {
            MetadataValue::Str(s) => s,
            _ => vstd::pervasive::unreached(),
        }
    }

    /// The instant encoded by a string value carrying RFC 3339 text, or a
    /// shape error.
    pub fn try_into_date(self) -> (r: Result<DateTime, Error>)
        ensures
            match self@ {
                MetaV::Str(s) => match rfc3339_nanos(s) {
                    Some(n) => r == Ok::<DateTime, Error>(DateTime { unix_nanos: n }),
                    None => r == Err::<DateTime, Error>(Error::IncorrectVariant {
                        wanted: ValueKind::DateText,
                        actual: ValueKind::Str,
                    }),
                },
                _ => r == Err::<DateTime, Error>(Error::IncorrectVariant {
                    wanted: ValueKind::DateText,
                    actual: kind_of(self@),
                }),
            },
    {
        match self {
            MetadataValue::Str(s) => match parse_rfc3339(s.as_str()) {
                Some(n) => Ok(DateTime { unix_nanos: n }),
                None => Err(Error::IncorrectVariant {
                    wanted: ValueKind::DateText,
                    actual: ValueKind::Str,
                }),
            },
            other => Err(Error::IncorrectVariant {
                wanted: ValueKind::DateText,
                actual: other.variant(),
            }),
        }
    }

    /// The instant encoded by a string value carrying RFC 3339 text; the
    /// value must be such a string.
    pub fn into_date(self) -> (r: DateTime)
        requires
            self@ is Str,
            rfc3339_nanos(self@->Str_0) is Some,
        ensures
            Some(r.unix_nanos) == rfc3339_nanos(self@->Str_0),
    {
        match self {
            MetadataValue::Str(s) => match parse_rfc3339(s.as_str()) {
                Some(n) => DateTime { unix_nanos: n },
                None => vstd::pervasive::unreached(),
            },
            _ => vstd::pervasive::unreached(),
        }
    }

    /// The instant encoded by a string value carrying RFC 3339 text,
    /// checked first: nothing when the value is not such a string.
    pub fn into_date_checked(self) -> (r: Option<DateTime>)
        ensures
            match self@ {
                MetaV::Str(s) => r == match rfc3339_nanos(s) {
                    Some(n) => Some(DateTime { unix_nanos: n }),
                    None => None::<DateTime>,
                },
                _ => r is None,
            },
    {
        match self {
            MetadataValue::Str(s) => {
                if parse_rfc3339(s.as_str()).is_some() {
                    Some(MetadataValue::Str(s).into_date())
                } else {
                    None
                }
            }
            _ => None,
        }
    }

    /// The bit pattern held by a double value, or a shape error.
    pub fn try_into_double(self) -> (r: Result<u64, Error>)
        ensures
            match self@ {
                MetaV::Double(b) => r == Ok::<u64, Error>(b),
                _ => r == Err::<u64, Error>(Error::IncorrectVariant {
                    wanted: ValueKind::Double,
                    actual: kind_of(self@),
                }),
            },
    {
        match self {
            MetadataValue::Double(b) => Ok(b),
            other => Err(Error::IncorrectVariant {
                wanted: ValueKind::Double,
                actual: other.variant(),
            }),
        }
    }

    /// The bit pattern held by a double value; the value must be a double.
    pub fn into_double(self) -> (r: u64)
        requires
            self@ is Double,
        ensures
            self@ == MetaV::Double(r),
    {
        match self {
            MetadataValue::Double(b) => b,
            _ => vstd::pervasive::unreached(),
        }
    }

    /// The integer held by a signed value, or a shape error.
    pub fn try_into_int(self) -> (r: Result<i64, Error>)
        ensures
            match self@ {
                MetaV::Int(i) => r == Ok::<i64, Error>(i),
                _ => r == Err::<i64, Error>(Error::IncorrectVariant {
                    wanted: ValueKind::Int,
                    actual: kind_of(self@),
                }),
            },
    {
        match self {
            MetadataValue::Int(i) => Ok(i),
            other => Err(Error::IncorrectVariant {
                wanted: ValueKind::Int,
                actual: other.variant(),
            }),
        }
    }

    /// The integer held by a signed value; the value must be signed.
    pub fn into_int(self) -> (r: i64)
        requires
            self@ is Int,
        ensures
            self@ == MetaV::Int(r),
    {
        match self {
            MetadataValue::Int(i) => i,
            _ => vstd::pervasive::unreached(),
        }
    }

    /// The integer held by an unsigned value, or a shape error.
    pub fn try_into_uint(self) -> (r: Result<u64, Error>)
        ensures
            match self@ {
                MetaV::UInt(u) => r == Ok::<u64, Error>(u),
                _ => r == Err::<u64, Error>(Error::IncorrectVariant {
                    wanted: ValueKind::UInt,
                    actual: kind_of(self@),
                }),
            },
    {
        match self {
            MetadataValue::UInt(u) => Ok(u),
            other => Err(Error::IncorrectVariant {
                wanted: ValueKind::UInt,
                actual: other.variant(),
            }),
        }
    }

    /// The integer held by an unsigned value; the value must be unsigned.
    pub fn into_uint(self) -> (r: u64)
        requires
            self@ is UInt,
        ensures
            self@ == MetaV::UInt(r),
    {
        match self {
            MetadataValue::UInt(u) => u,
            _ => vstd::pervasive::unreached(),
        }
    }

    /// The truth value held by a boolean, or a shape error.
    pub fn try_into_bool(self) -> (r: Result<bool, Error>)
        ensures
            match self@ {
                MetaV::Bool(b) => r == Ok::<bool, Error>(b),
                _ => r == Err::<bool, Error>(Error::IncorrectVariant {
                    wanted: ValueKind::Bool,
                    actual: kind_of(self@),
                }),
            },
    {
        match self {
            MetadataValue::Bool(b) => Ok(b),
            other => Err(Error::IncorrectVariant {
                wanted: ValueKind::Bool,
                actual: other.variant(),
            }),
        }
    }

    /// The truth value held by a boolean; the value must be a boolean.
    pub fn into_bool(self) -> (r: bool)
        requires
            self@ is Bool,
        ensures
            self@ == MetaV::Bool(r),
    {
        match self {
            MetadataValue::Bool(b) => b,
            _ => vstd::pervasive::unreached(),
        }
    }

    /// The elements held by an array value, or a shape error.
    pub fn try_into_array(self) -> (r: Result<Vec<MetadataValue>, Error>)
        ensures
            match self@ {
                MetaV::Array(xs) => r matches Ok(out) && meta_view_seq(out@) == xs,
                _ => r == Err::<Vec<MetadataValue>, Error>(Error::IncorrectVariant {
                    wanted: ValueKind::Array,
                    actual: kind_of(self@),
                }),
            },
    {
        match self {
            MetadataValue::Array(xs) => Ok(xs),
            other => Err(Error::IncorrectVariant {
                wanted: ValueKind::Array,
                actual: other.variant(),
            }),
        }
    }

    /// The elements held by an array value; the value must be an array.
    pub fn into_array(self) -> (r: Vec<MetadataValue>)
        requires
            self@ is Array,
        ensures
            self@ == MetaV::Array(meta_view_seq(r@)),
    {
        match self {
            MetadataValue::Array(xs) => xs,
            _ => vstd::pervasive::unreached(),
        }
    }

    /// The entries held by a dictionary value, or a shape error.
    pub fn try_into_dict(self) -> (r: Result<Vec<(String, MetadataValue)>, Error>)
        ensures
            match self@ {
                MetaV::Dict(es) => r matches Ok(out) && meta_view_entries(out@) == es,
                _ => r == Err::<Vec<(String, MetadataValue)>, Error>(Error::IncorrectVariant {
                    wanted: ValueKind::Dict,
                    actual: kind_of(self@),
                }),
            },
    {
        match self {
            MetadataValue::Dict(es) => Ok(es),
            other => Err(Error::IncorrectVariant {
                wanted: ValueKind::Dict,
                actual: other.variant(),
            }),
        }
    }

    /// The entries held by a dictionary value; the value must be a
    /// dictionary.
    pub fn into_dict(self) -> (r: Vec<(String, MetadataValue)>)
        requires
            self@ is Dict,
        ensures
            self@ == MetaV::Dict(meta_view_entries(r@)),
    {
        match self {
            MetadataValue::Dict(es) => es,
            _ => vstd::pervasive::unreached(),
        }
    }
}

/// Last-match lookup over keyed entries: a later entry shadows an earlier
/// one with the same key.
pub open spec fn assoc_last(m: Seq<(Seq<char>, MetaV)>, k: Seq<char>) -> Option<MetaV>
    decreases m.len(),
{
    if m.len() == 0 {
        None
    } else if m.last().0 == k {
        Some(m.last().1)
    } else {
        assoc_last(m.drop_last(), k)
    }
}

/// Whether any entry carries the key `k`.
pub open spec fn assoc_has(m: Seq<(Seq<char>, MetaV)>, k: Seq<char>) -> bool {
    exists|i: int| 0 <= i < m.len() && (#[trigger] m[i]).0 == k
}

/// A key is found exactly when some entry carries it.
pub proof fn lemma_assoc_last_some(m: Seq<(Seq<char>, MetaV)>, k: Seq<char>)
    ensures
        assoc_last(m, k) is Some <==> assoc_has(m, k),
    decreases m.len(),
{
    if m.len() == 0 {
    } else if m.last().0 == k {
        assert(m[m.len() - 1].0 == k);
    } else {
        lemma_assoc_last_some(m.drop_last(), k);
        if assoc_has(m, k) {
            let i = choose|i: int| 0 <= i < m.len() && (#[trigger] m[i]).0 == k;
            assert(i < m.len() - 1);
            assert(m.drop_last()[i] == m[i]);
            assert(assoc_has(m.drop_last(), k));
        }
        if assoc_has(m.drop_last(), k) {
            let i = choose|i: int|
                0 <= i < m.drop_last().len() && (#[trigger] m.drop_last()[i]).0 == k;
            assert(m[i] == m.drop_last()[i]);
            assert(assoc_has(m, k));
        }
    }
}

/// The text stored under `k`, when it is a string.
pub open spec fn string_entry(m: Seq<(Seq<char>, MetaV)>, k: Seq<char>) -> Option<Seq<char>> {
    match assoc_last(m, k) {
        Some(MetaV::Str(s)) => Some(s),
        _ => None,
    }
}

/// The count stored under `k`, when it is an unsigned integer.
pub open spec fn uint_entry(m: Seq<(Seq<char>, MetaV)>, k: Seq<char>) -> Option<u64> {
    match assoc_last(m, k) {
        Some(MetaV::UInt(u)) => Some(u),
        _ => None,
    }
}

/// The bit pattern stored under `k`, when it is a double.
pub open spec fn double_entry(m: Seq<(Seq<char>, MetaV)>, k: Seq<char>) -> Option<u64> {
    match assoc_last(m, k) {
        Some(MetaV::Double(b)) => Some(b),
        _ => None,
    }
}

/// The string elements of `xs`, in order, passing over other shapes.
pub open spec fn strings_of(xs: Seq<MetaV>) -> Seq<Seq<char>>
    decreases xs.len(),
{
    if xs.len() == 0 {
        Seq::empty()
    } else {
        strings_of(xs.drop_last()) + (match xs.last() {
            MetaV::Str(s) => seq![s],
            _ => Seq::empty(),
        })
    }
}

/// The list of strings stored under `k`, when it is an array: its string
/// elements in order, other element shapes passed over.
pub open spec fn string_list_entry(m: Seq<(Seq<char>, MetaV)>, k: Seq<char>) -> Option<
    Seq<Seq<char>>,
> {
    match assoc_last(m, k) {
        Some(MetaV::Array(xs)) => Some(strings_of(xs)),
        _ => None,
    }
}

/// The instant stored under `k`, when it is a string of valid RFC 3339
/// text.
pub open spec fn date_entry(m: Seq<(Seq<char>, MetaV)>, k: Seq<char>) -> Option<i128> {
    match assoc_last(m, k) {
        Some(MetaV::Str(s)) => rfc3339_nanos(s),
        _ => None,
    }
}

/// An unsigned 64-bit count reinterpreted as a signed one, two's
/// complement.
pub open spec fn wrap_u64(u: u64) -> i64 {
    if u <= i64::MAX as u64 {
        u as i64
    } else {
        ((u as int) - 0x1_0000_0000_0000_0000) as i64
    }
}

/// The track length in microseconds: a signed integer as stored, an
/// unsigned integer reinterpreted, or a decimal string parsed; any other
/// shape is absent.
pub open spec fn length_entry(m: Seq<(Seq<char>, MetaV)>) -> Option<i64> {
    match assoc_last(m, "mpris:length"@) {
        Some(MetaV::Int(i)) => Some(i),
        Some(MetaV::UInt(u)) => Some(wrap_u64(u)),
        Some(MetaV::Str(s)) => parse_i64_spec(s),
        _ => None,
    }
}

/// Whether an optional owned string carries exactly the optional text.
pub open spec fn opt_string_is(r: Option<String>, s: Option<Seq<char>>) -> bool {
    match (r, s) {
        (Some(a), Some(b)) => a@ == b,
        (None, None) => true,
        _ => false,
    }
}

/// Metadata absence: an accessor over a key that no entry carries reads
/// nothing, and never errs — each typed reading is `None`.
pub proof fn lemma_absent_key(m: Seq<(Seq<char>, MetaV)>, k: Seq<char>)
    requires
        !assoc_has(m, k),
    ensures
        assoc_last(m, k) is None,
        string_entry(m, k) is None,
        uint_entry(m, k) is None,
        double_entry(m, k) is None,
        string_list_entry(m, k) is None,
        date_entry(m, k) is None,
        k == "mpris:length"@ ==> length_entry(m) is None,
{
    lemma_assoc_last_some(m, k);
}

/// Length coercion: a microsecond count stored as a signed integer, as an
/// unsigned integer, or as a decimal string reads as the same length.
pub proof fn lemma_length_coercion(
    m_int: Seq<(Seq<char>, MetaV)>,
    m_uint: Seq<(Seq<char>, MetaV)>,
    m_str: Seq<(Seq<char>, MetaV)>,
    n: i64,
    s: Seq<char>,
)
    requires
        n >= 0,
        assoc_last(m_int, "mpris:length"@) == Some(MetaV::Int(n)),
        assoc_last(m_uint, "mpris:length"@) == Some(MetaV::UInt(n as u64)),
        assoc_last(m_str, "mpris:length"@) == Some(MetaV::Str(s)),
        parse_i64_spec(s) == Some(n),
    ensures
        length_entry(m_int) == Some(n),
        length_entry(m_uint) == Some(n),
        length_entry(m_str) == Some(n),
{
    assert(wrap_u64(n as u64) == n);
}

/// The decoded metadata map of a track: well-known string keys to decoded
/// values, in wire order, a later entry shadowing an earlier one.
#[derive(Debug)]
pub struct Metadata {
    inner: Vec<(String, MetadataValue)>,
}

impl View for Metadata {
    type V = Seq<(Seq<char>, MetaV)>;

    closed spec fn view(&self) -> Seq<(Seq<char>, MetaV)> {
        meta_view_entries(self.inner@)
    }
}

impl Metadata {
    /// An empty metadata map.
    pub fn new() -> (r: Metadata)
        ensures
            r@ =~= Seq::<(Seq<char>, MetaV)>::empty(),
    {
        Metadata { inner: Vec::new() }
    }

    /// Appends an entry; it shadows any earlier entry with the same key.
    pub fn insert(&mut self, key: String, value: MetadataValue)
        ensures
            final(self)@ =~= old(self)@.push((key@, value@)),
    {
        let ghost pre = self.inner@;
        self.inner.push((key, value));
        proof {
            lemma_meta_view_entries(pre);
            lemma_meta_view_entries(self.inner@);
            assert(self.inner@ =~= pre.push((key, value)));
        }
    }

    /// Decodes a batch of raw wire entries into a metadata map, in order.
    pub fn from(entries: Vec<(String, WireValue)>) -> (r: Metadata)
        ensures
            r@.len() == entries@.len(),
            forall|i: int| 0 <= i < entries@.len() ==> r@[i] == ((#[trigger] entries@[i]).0@,
                decoded(wire_view(entries@[i].1))),
    {
        let mut inner: Vec<(String, MetadataValue)> = Vec::new();
        let n = entries.len();
        let mut i: usize = 0;
        while i < n
            invariant
                0 <= i <= n,
                n == entries@.len(),
                inner@.len() == i,
                forall|j: int| 0 <= j < i ==> (#[trigger] inner@[j]).0@ == entries@[j].0@,
                forall|j: int| 0 <= j < i ==> meta_view((#[trigger] inner@[j]).1)
                    == decoded(wire_view(entries@[j].1)),
            decreases n - i,
        {
            let key = entries[i].0.clone();
            let value = MetadataValue::from(&entries[i].1);
            inner.push((key, value));
            i = i + 1;
        }
        proof {
            lemma_meta_view_entries(inner@);
        }
        Metadata { inner }
    }

    /// The number of entries held.
    pub fn len(&self) -> (r: usize)
        ensures
            r == self@.len(),
    {
        proof {
            lemma_meta_view_entries(self.inner@);
        }
        self.inner.len()
    }

    /// The value stored under `key`, reading the latest entry that
    /// carries it.
    pub fn get(&self, key: &str) -> (r: Option<&MetadataValue>)
        ensures
            match r {
                Some(v) => assoc_last(self@, key@) == Some(v@),
                None => assoc_last(self@, key@) is None,
            },
    {
        proof {
            lemma_meta_view_entries(self.inner@);
        }
        let n = self.inner.len();
        let mut i: usize = n;
        proof {
            assert(self@.take(n as int) =~= self@);
        }
        while i > 0
            invariant
                0 <= i <= n,
                n == self.inner@.len(),
                self@ == meta_view_entries(self.inner@),
                self@.len() == n,
                forall|j: int| 0 <= j < n ==> #[trigger] self@[j] == (self.inner@[j].0@,
                    meta_view(self.inner@[j].1)),
                assoc_last(self@, key@) == assoc_last(self@.take(i as int), key@),
            decreases i,
        {
            i = i - 1;
            let ghost prefix = self@.take(i as int + 1);
            proof {
                assert(prefix.last() == self@[i as int]);
                assert(prefix.drop_last() =~= self@.take(i as int));
            }
            if crate::text::str_eq(self.inner[i].0.as_str(), key) {
                proof {
                    assert(prefix.last().0 == key@);
                    assert(assoc_last(self@, key@) == Some(self@[i as int].1));
                }
                return Some(&self.inner[i].1);
            }
            proof {
                assert(prefix.last().0 != key@);
            }
        }
        proof {
            assert(self@.take(0) =~= Seq::<(Seq<char>, MetaV)>::empty());
        }
        None
    }
}


/// Whether an optional timestamp carries exactly the optional instant.
pub open spec fn opt_date_is(r: Option<DateTime>, n: Option<i128>) -> bool {
    match (r, n) {
        (Some(d), Some(v)) => d.unix_nanos == v,
        (None, None) => true,
        _ => false,
    }
}

impl Metadata {
    /// The text stored under `key`, when it is a string.
    fn read_string(&self, key: &str) -> (r: Option<String>)
        ensures
            opt_string_is(r, string_entry(self@, key@)),
    {
        match self.get(key) {
            Some(v) => match v {
                MetadataValue::Str(s) => Some(s.clone()),
                _ => None,
            },
            None => None,
        }
    }

    /// The count stored under `key`, when it is an unsigned integer.
    fn read_uint(&self, key: &str) -> (r: Option<u64>)
        ensures
            r == uint_entry(self@, key@),
    {
        match self.get(key) {
            Some(v) => match v {
                MetadataValue::UInt(u) => Some(*u),
                _ => None,
            },
            None => None,
        }
    }

    /// The bit pattern stored under `key`, when it is a double.
    fn read_double_bits(&self, key: &str) -> (r: Option<u64>)
        ensures
            r == double_entry(self@, key@),
    {
        match self.get(key) {
            Some(v) => match v {
                MetadataValue::Double(b) => Some(*b),
                _ => None,
            },
            None => None,
        }
    }

    /// The instant stored under `key`, when it is valid RFC 3339 text.
    fn read_date(&self, key: &str) -> (r: Option<DateTime>)
        ensures
            opt_date_is(r, date_entry(self@, key@)),
    {
        match self.get(key) {
            Some(v) => match v {
                MetadataValue::Str(s) => match parse_rfc3339(s.as_str()) {
                    Some(n) => Some(DateTime { unix_nanos: n }),
                    None => None,
                },
                _ => None,
            },
            None => None,
        }
    }

    /// The strings stored under `key`, when it is an array: its string
    /// elements in order, other shapes passed over.
    fn read_string_list(&self, key: &str) -> (r: Option<Vec<String>>)
        ensures
            r.deep_view() == string_list_entry(self@, key@),
    {
        match self.get(key) {
            Some(v) => match v {
                MetadataValue::Array(xs) => {
                    let ghost ms = meta_view_seq(xs@);
                    proof {
                        lemma_meta_view_seq(xs@);
                        assert(ms.take(0) =~= Seq::<MetaV>::empty());
                    }
                    let mut out: Vec<String> = Vec::new();
                    let n = xs.len();
                    let mut i: usize = 0;
                    while i < n
                        invariant
                            0 <= i <= n,
                            n == xs@.len(),
                            ms == meta_view_seq(xs@),
                            ms.len() == n,
                            forall|j: int| 0 <= j < n ==> #[trigger] ms[j]
                                == meta_view(xs@[j]),
                            out.deep_view() =~= strings_of(ms.take(i as int)),
                        decreases n - i,
                    {
                        let ghost pre = out.deep_view();
                        proof {
                            let p = ms.take(i as int + 1);
                            assert(p.drop_last() =~= ms.take(i as int));
                            assert(p.last() == ms[i as int]);
                        }
                        match &xs[i] {
                            MetadataValue::Str(t) => {
                                out.push(t.clone());
                                proof {
                                    assert(out.deep_view() =~= pre + seq![t@]);
                                    assert(strings_of(ms.take(i as int + 1)) =~= strings_of(
                                        ms.take(i as int),
                                    ) + seq![t@]);
                                }
                            }
                            _ => {
                                proof {
                                    assert(strings_of(ms.take(i as int + 1)) =~= strings_of(
                                        ms.take(i as int),
                                    ));
                                }
                            }
                        }
                        i = i + 1;
                    }
                    proof {
                        assert(ms.take(n as int) =~= ms);
                    }
                    Some(out)
                }
                _ => None,
            },
            None => None,
        }
    }

    /// `xesam:album`: the album name.
    pub fn album(&self) -> (r: Option<String>)
        ensures
            opt_string_is(r, string_entry(self@, "xesam:album"@)),
    {
        self.read_string("xesam:album")
    }

    /// `xesam:artist`: the track artist(s).
    pub fn artists(&self) -> (r: Option<Vec<String>>)
        ensures
            r.deep_view() == string_list_entry(self@, "xesam:artist"@),
    {
        self.read_string_list("xesam:artist")
    }

    /// `xesam:asText`: the track lyrics.
    pub fn lyrics(&self) -> (r: Option<String>)
        ensures
            opt_string_is(r, string_entry(self@, "xesam:asText"@)),
    {
        self.read_string("xesam:asText")
    }

    /// `xesam:albumArtist`: the album artist(s).
    pub fn album_artists(&self) -> (r: Option<Vec<String>>)
        ensures
            r.deep_view() == string_list_entry(self@, "xesam:albumArtist"@),
    {
        self.read_string_list("xesam:albumArtist")
    }

    /// `xesam:audioBPM`: the speed of the music, in beats per minute.
    pub fn bpm(&self) -> (r: Option<u64>)
        ensures
            r == uint_entry(self@, "xesam:audioBPM"@),
    {
        self.read_uint("xesam:audioBPM")
    }

    /// `xesam:autoRating`: an automatically generated rating, as the bit
    /// pattern of a double conventionally between 0.0 and 1.0.
    pub fn auto_rating(&self) -> (r: Option<u64>)
        ensures
            r == double_entry(self@, "xesam:autoRating"@),
    {
        self.read_double_bits("xesam:autoRating")
    }

    /// `xesam:composer`: the composer(s) of the track.
    pub fn composer(&self) -> (r: Option<Vec<String>>)
        ensures
            r.deep_view() == string_list_entry(self@, "xesam:composer"@),
    {
        self.read_string_list("xesam:composer")
    }

    /// `xesam:contentCreated`: when the track was created.
    pub fn created(&self) -> (r: Option<DateTime>)
        ensures
            opt_date_is(r, date_entry(self@, "xesam:contentCreated"@)),
    {
        self.read_date("xesam:contentCreated")
    }

    /// `xesam:discNumber`: the disc this track is on within its album.
    pub fn disc_number(&self) -> (r: Option<u64>)
        ensures
            r == uint_entry(self@, "xesam:discNumber"@),
    {
        self.read_uint("xesam:discNumber")
    }

    /// `xesam:firstUsed`: when the track was first played.
    pub fn first_played(&self) -> (r: Option<DateTime>)
        ensures
            opt_date_is(r, date_entry(self@, "xesam:firstUsed"@)),
    {
        self.read_date("xesam:firstUsed")
    }

    /// `xesam:genre`: the genre(s) of the track.
    pub fn genre(&self) -> (r: Option<Vec<String>>)
        ensures
            r.deep_view() == string_list_entry(self@, "xesam:genre"@),
    {
        self.read_string_list("xesam:genre")
    }

    /// `xesam:lastUsed`: when the track was last played.
    pub fn last_played(&self) -> (r: Option<DateTime>)
        ensures
            opt_date_is(r, date_entry(self@, "xesam:lastUsed"@)),
    {
        self.read_date("xesam:lastUsed")
    }

    /// `xesam:lyricist`: the lyricist(s) of the track.
    pub fn lyricist(&self) -> (r: Option<Vec<String>>)
        ensures
            r.deep_view() == string_list_entry(self@, "xesam:lyricist"@),
    {
        self.read_string_list("xesam:lyricist")
    }

    /// `xesam:title`: the track title.
    pub fn title(&self) -> (r: Option<String>)
        ensures
            opt_string_is(r, string_entry(self@, "xesam:title"@)),
    {
        self.read_string("xesam:title")
    }

    /// `xesam:trackNumber`: the track number within its album.
    pub fn track_number(&self) -> (r: Option<u64>)
        ensures
            r == uint_entry(self@, "xesam:trackNumber"@),
    {
        self.read_uint("xesam:trackNumber")
    }

    /// `xesam:url`: the location of the media file.
    pub fn url(&self) -> (r: Option<String>)
        ensures
            opt_string_is(r, string_entry(self@, "xesam:url"@)),
    {
        self.read_string("xesam:url")
    }

    /// `xesam:useCount`: how many times the track has been played.
    pub fn use_count(&self) -> (r: Option<u64>)
        ensures
            r == uint_entry(self@, "xesam:useCount"@),
    {
        self.read_uint("xesam:useCount")
    }

    /// `xesam:userRating`: the user's rating, as the bit pattern of a
    /// double.
    pub fn user_rating(&self) -> (r: Option<u64>)
        ensures
            r == double_entry(self@, "xesam:userRating"@),
    {
        self.read_double_bits("xesam:userRating")
    }

    /// `mpris:trackid`: the track's identity within its player, when it
    /// is stored as a well-formed object path.
    pub fn track_id(&self) -> (r: Option<crate::mpris2::track::TrackId>)
        ensures
            match r {
                Some(id) => string_entry(self@, "mpris:trackid"@) == Some(id@)
                    && crate::mpris2::track::is_object_path(id@),
                None => match string_entry(self@, "mpris:trackid"@) {
                    Some(s) => !crate::mpris2::track::is_object_path(s),
                    None => true,
                },
            },
    {
        match self.get("mpris:trackid") {
            Some(v) => match v {
                MetadataValue::Str(s) => crate::mpris2::track::TrackId::new(s.clone()),
                _ => None,
            },
            None => None,
        }
    }

    /// `mpris:length`: the track length, from a microsecond count stored
    /// as a signed integer, an unsigned integer, or a decimal string.
    pub fn length(&self) -> (r: Option<Duration>)
        ensures
            match r {
                Some(d) => length_entry(self@) == Some(d.microseconds),
                None => length_entry(self@) is None,
            },
    {
        let micros: Option<i64> = match self.get("mpris:length") {
            Some(v) => match v {
                MetadataValue::Int(i) => Some(*i),
                MetadataValue::UInt(u) => {
                    if *u <= 0x7fff_ffff_ffff_ffffu64 {
                        Some(*u as i64)
                    } else {
                        let low = *u - 0x8000_0000_0000_0000u64;
                        Some(i64::MIN + (low as i64))
                    }
                }
                MetadataValue::Str(s) => parse_i64(s.as_str()),
                _ => None,
            },
            None => None,
        };
        match micros {
            Some(m) => Some(Duration::microseconds(m)),
            None => None,
        }
    }

    /// `mpris:artUrl`: the location of an image for the track or album.
    pub fn art_url(&self) -> (r: Option<String>)
        ensures
            opt_string_is(r, string_entry(self@, "mpris:artUrl"@)),
    {
        self.read_string("mpris:artUrl")
    }
}


/// Clones a value; the copy models identically.
fn clone_value(v: &MetadataValue) -> (r: MetadataValue)
    ensures
        r@ == v@,
    decreases *v,
{
    match v {
        MetadataValue::Str(s) => MetadataValue::Str(s.clone()),
        MetadataValue::Double(b) => MetadataValue::Double(*b),
        MetadataValue::Int(i) => MetadataValue::Int(*i),
        MetadataValue::UInt(u) => MetadataValue::UInt(*u),
        MetadataValue::Bool(b) => MetadataValue::Bool(*b),
        MetadataValue::Array(xs) => {
            proof {
                assert(decreases_to!(*v => *xs));
                assert(decreases_to!(*xs => xs@));
            }
            let out = clone_values(xs);
            proof {
                lemma_meta_view_seq(out@);
                lemma_meta_view_seq(xs@);
                assert(meta_view_seq(out@) =~= meta_view_seq(xs@));
            }
            MetadataValue::Array(out)
        }
        MetadataValue::Dict(es) => {
            proof {
                assert(decreases_to!(*v => *es));
                assert(decreases_to!(*es => es@));
            }
            let out = clone_entries(es);
            proof {
                lemma_meta_view_entries(out@);
                lemma_meta_view_entries(es@);
                assert(meta_view_entries(out@) =~= meta_view_entries(es@));
            }
            MetadataValue::Dict(out)
        }
        MetadataValue::__Unsupported => MetadataValue::__Unsupported,
    }
}

/// Clones each element of a value sequence.
fn clone_values(xs: &Vec<MetadataValue>) -> (r: Vec<MetadataValue>)
    ensures
        r@.len() == xs@.len(),
        forall|j: int| 0 <= j < xs@.len() ==> meta_view(#[trigger] r@[j]) == meta_view(xs@[j]),
    decreases xs@,
{
    let mut out: Vec<MetadataValue> = Vec::new();
    let n = xs.len();
    let mut i: usize = 0;
    while i < n
        invariant
            0 <= i <= n,
            n == xs@.len(),
            out@.len() == i,
            forall|j: int| 0 <= j < i ==> meta_view(#[trigger] out@[j]) == meta_view(xs@[j]),
        decreases n - i,
    {
        proof {
            assert(decreases_to!(xs@ => xs@[i as int]));
        }
        let d = clone_value(&xs[i]);
        out.push(d);
        i = i + 1;
    }
    out
}

/// Clones each entry of a keyed entry list.
fn clone_entries(es: &Vec<(String, MetadataValue)>) -> (r: Vec<(String, MetadataValue)>)
    ensures
        r@.len() == es@.len(),
        forall|j: int| 0 <= j < es@.len() ==> (#[trigger] r@[j]).0@ == es@[j].0@,
        forall|j: int| 0 <= j < es@.len() ==> meta_view((#[trigger] r@[j]).1)
            == meta_view(es@[j].1),
    decreases es@,
{
    let mut out: Vec<(String, MetadataValue)> = Vec::new();
    let n = es.len();
    let mut i: usize = 0;
    while i < n
        invariant
            0 <= i <= n,
            n == es@.len(),
            out@.len() == i,
            forall|j: int| 0 <= j < i ==> (#[trigger] out@[j]).0@ == es@[j].0@,
            forall|j: int| 0 <= j < i ==> meta_view((#[trigger] out@[j]).1)
                == meta_view(es@[j].1),
        decreases n - i,
    {
        proof {
            assert(decreases_to!(es@ => es@[i as int]));
            assert(decreases_to!(es@[i as int] => es@[i as int].1));
        }
        let k = es[i].0.clone();
        let d = clone_value(&es[i].1);
        out.push((k, d));
        i = i + 1;
    }
    out
}

impl Clone for MetadataValue {
    /// The copy models identically to the value cloned.
    fn clone(&self) -> (r: MetadataValue)
        ensures
            r@ == self@,
    {
        clone_value(self)
    }
}

impl Clone for Metadata {
    /// The copy models identically to the value cloned.
    fn clone(&self) -> (r: Metadata)
        ensures
            r@ == self@,
    {
        let inner = clone_entries(&self.inner);
        proof {
            lemma_meta_view_entries(inner@);
            lemma_meta_view_entries(self.inner@);
            assert(meta_view_entries(inner@) =~= meta_view_entries(self.inner@));
        }
        Metadata { inner }
    }
}


} // verus!
