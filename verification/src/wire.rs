//! A self-contained model of a dynamically typed D-Bus wire value.
//!
//! A value read off the bus is self-describing: a primitive, a container
//! (array, dictionary, structure), or a boxed variant.  `WireValue` holds
//! exactly what the decoding logic of this crate inspects, as plain data;
//! the transport layer translates the connection library's value type into
//! it one constructor at a time.  Shapes the crate never inspects are
//! collapsed into `Other`.

use vstd::prelude::*;

verus! {

broadcast use vstd::std_specs::vec::group_vec_axioms, vstd::seq::group_seq_axioms;

/// Mathematical model of a [`WireValue`].
pub enum WireV {
    U8(u8),
    Bool(bool),
    I16(i16),
    U16(u16),
    I32(i32),
    U32(u32),
    I64(i64),
    U64(u64),
    F64Bits(u64),
    Str(Seq<char>),
    ObjectPath(Seq<char>),
    Array(Seq<WireV>),
    Dict(Seq<(WireV, WireV)>),
    Structure(Seq<WireV>),
    Boxed(Box<WireV>),
    Other,
}

/// A dynamically typed value as it arrives from the bus.
///
/// Double-precision numbers are carried as their IEEE 754 bit pattern
/// (`F64Bits`), so that the value tree stays within plain integer data.
#[derive(Debug)]
pub enum WireValue {
    U8(u8),
    Bool(bool),
    I16(i16),
    U16(u16),
    I32(i32),
    U32(u32),
    I64(i64),
    U64(u64),
    F64Bits(u64),
    Str(String),
    ObjectPath(String),
    Array(Vec<WireValue>),
    Dict(Vec<(WireValue, WireValue)>),
    Structure(Vec<WireValue>),
    Boxed(Box<WireValue>),
    Other,
}

impl View for WireValue {
    type V = WireV;

    open spec fn view(&self) -> WireV {
        wire_view(*self)
    }
}

impl DeepView for WireValue {
    type V = WireV;

    open spec fn deep_view(&self) -> WireV {
        wire_view(*self)
    }
}

/// The [`WireV`] that models a given [`WireValue`], container by container.
pub open spec fn wire_view(w: WireValue) -> WireV
    decreases w,
{
    match w {
        WireValue::U8(u) => WireV::U8(u),
        WireValue::Bool(b) => WireV::Bool(b),
        WireValue::I16(i) => WireV::I16(i),
        WireValue::U16(u) => WireV::U16(u),
        WireValue::I32(i) => WireV::I32(i),
        WireValue::U32(u) => WireV::U32(u),
        WireValue::I64(i) => WireV::I64(i),
        WireValue::U64(u) => WireV::U64(u),
        WireValue::F64Bits(b) => WireV::F64Bits(b),
        WireValue::Str(s) => WireV::Str(s@),
        WireValue::ObjectPath(p) => WireV::ObjectPath(p@),
        WireValue::Array(xs) => {
            proof {
                assert(decreases_to!(w => xs));
                assert(decreases_to!(xs => xs@));
            }
            WireV::Array(wire_view_seq(xs@))
        }
        WireValue::Dict(es) => {
            proof {
                assert(decreases_to!(w => es));
                assert(decreases_to!(es => es@));
            }
            WireV::Dict(wire_view_entries(es@))
        }
        WireValue::Structure(xs) => {
            proof {
                assert(decreases_to!(w => xs));
                assert(decreases_to!(xs => xs@));
            }
            WireV::Structure(wire_view_seq(xs@))
        }
        WireValue::Boxed(b) => WireV::Boxed(Box::new(wire_view(*b))),
        WireValue::Other => WireV::Other,
    }
}

/// Element-wise [`wire_view`] over a sequence of wire values.
pub open spec fn wire_view_seq(xs: Seq<WireValue>) -> Seq<WireV>
    decreases xs,
{
    if xs.len() == 0 {
        Seq::empty()
    } else {
        seq![wire_view(xs[0])] + wire_view_seq(xs.drop_first())
    }
}

/// Pair-wise [`wire_view`] over the entries of a wire dictionary.
pub open spec fn wire_view_entries(es: Seq<(WireValue, WireValue)>) -> Seq<(WireV, WireV)>
    decreases es,
{
    if es.len() == 0 {
        Seq::empty()
    } else {
        seq![(wire_view(es[0].0), wire_view(es[0].1))] + wire_view_entries(es.drop_first())
    }
}

/// [`wire_view_seq`] views each element in place.
pub proof fn lemma_wire_view_seq(xs: Seq<WireValue>)
    ensures
        wire_view_seq(xs).len() == xs.len(),
        forall|i: int| 0 <= i < xs.len() ==> wire_view_seq(xs)[i] == wire_view(xs[i]),
    decreases xs.len(),
{
    if xs.len() > 0 {
        lemma_wire_view_seq(xs.drop_first());
    }
}

/// [`wire_view_entries`] views each entry in place.
pub proof fn lemma_wire_view_entries(es: Seq<(WireValue, WireValue)>)
    ensures
        wire_view_entries(es).len() == es.len(),
        forall|i: int| 0 <= i < es.len() ==> wire_view_entries(es)[i]
            == (wire_view(es[i].0), wire_view(es[i].1)),
    decreases es.len(),
{
    if es.len() > 0 {
        lemma_wire_view_entries(es.drop_first());
    }
}

/// Clones a wire value; the copy models identically.
pub fn clone_wire(v: &WireValue) -> (r: WireValue)
    ensures
        r@ == v@,
    decreases *v,
{
    match v {
        WireValue::U8(u) => WireValue::U8(*u),
        WireValue::Bool(b) => WireValue::Bool(*b),
        WireValue::I16(i) => WireValue::I16(*i),
        WireValue::U16(u) => WireValue::U16(*u),
        WireValue::I32(i) => WireValue::I32(*i),
        WireValue::U32(u) => WireValue::U32(*u),
        WireValue::I64(i) => WireValue::I64(*i),
        WireValue::U64(u) => WireValue::U64(*u),
        WireValue::F64Bits(b) => WireValue::F64Bits(*b),
        WireValue::Str(t) => WireValue::Str(t.clone()),
        WireValue::ObjectPath(p) => WireValue::ObjectPath(p.clone()),
        WireValue::Array(xs) => {
            proof {
                assert(decreases_to!(*v => *xs));
                assert(decreases_to!(*xs => xs@));
            }
            let out = clone_wire_seq(xs);
            proof {
                lemma_wire_view_seq(out@);
                lemma_wire_view_seq(xs@);
                assert(wire_view_seq(out@) =~= wire_view_seq(xs@));
            }
            WireValue::Array(out)
        }
        WireValue::Dict(es) => {
            proof {
                assert(decreases_to!(*v => *es));
                assert(decreases_to!(*es => es@));
            }
            let out = clone_wire_pairs(es);
            proof {
                lemma_wire_view_entries(out@);
                lemma_wire_view_entries(es@);
                assert(wire_view_entries(out@) =~= wire_view_entries(es@));
            }
            WireValue::Dict(out)
        }
        WireValue::Structure(xs) => {
            proof {
                assert(decreases_to!(*v => *xs));
                assert(decreases_to!(*xs => xs@));
            }
            let out = clone_wire_seq(xs);
            proof {
                lemma_wire_view_seq(out@);
                lemma_wire_view_seq(xs@);
                assert(wire_view_seq(out@) =~= wire_view_seq(xs@));
            }
            WireValue::Structure(out)
        }
        WireValue::Boxed(b) => WireValue::Boxed(Box::new(clone_wire(&**b))),
        WireValue::Other => WireValue::Other,
    }
}

/// Clones each element of a wire sequence.
fn clone_wire_seq(xs: &Vec<WireValue>) -> (r: Vec<WireValue>)
    ensures
        r@.len() == xs@.len(),
        forall|j: int| 0 <= j < xs@.len() ==> wire_view(#[trigger] r@[j]) == wire_view(xs@[j]),
    decreases xs@,
{
    let mut out: Vec<WireValue> = Vec::new();
    let n = xs.len();
    let mut i: usize = 0;
    while i < n
        invariant
            0 <= i <= n,
            n == xs@.len(),
            out@.len() == i,
            forall|j: int| 0 <= j < i ==> wire_view(#[trigger] out@[j]) == wire_view(xs@[j]),
        decreases n - i,
    {
        proof {
            assert(decreases_to!(xs@ => xs@[i as int]));
        }
        let d = clone_wire(&xs[i]);
        out.push(d);
        i = i + 1;
    }
    out
}

/// Clones each pair of a wire dictionary.
fn clone_wire_pairs(es: &Vec<(WireValue, WireValue)>) -> (r: Vec<(WireValue, WireValue)>)
    ensures
        r@.len() == es@.len(),
        forall|j: int| 0 <= j < es@.len() ==> wire_view((#[trigger] r@[j]).0)
            == wire_view(es@[j].0),
        forall|j: int| 0 <= j < es@.len() ==> wire_view((#[trigger] r@[j]).1)
            == wire_view(es@[j].1),
    decreases es@,
{
    let mut out: Vec<(WireValue, WireValue)> = Vec::new();
    let n = es.len();
    let mut i: usize = 0;
    while i < n
        invariant
            0 <= i <= n,
            n == es@.len(),
            out@.len() == i,
            forall|j: int| 0 <= j < i ==> wire_view((#[trigger] out@[j]).0)
                == wire_view(es@[j].0),
            forall|j: int| 0 <= j < i ==> wire_view((#[trigger] out@[j]).1)
                == wire_view(es@[j].1),
        decreases n - i,
    {
        proof {
            assert(decreases_to!(es@ => es@[i as int]));
            assert(decreases_to!(es@[i as int] => es@[i as int].0));
            assert(decreases_to!(es@[i as int] => es@[i as int].1));
        }
        let k = clone_wire(&es[i].0);
        let v = clone_wire(&es[i].1);
        out.push((k, v));
        i = i + 1;
    }
    out
}

/// Clones each entry of a keyed wire listing.
pub fn clone_keyed_entries(es: &Vec<(String, WireValue)>) -> (r: Vec<(String, WireValue)>)
    ensures
        r.deep_view() == es.deep_view(),
{
    let mut out: Vec<(String, WireValue)> = Vec::new();
    let n = es.len();
    let mut i: usize = 0;
    while i < n
        invariant
            0 <= i <= n,
            n == es@.len(),
            out@.len() == i,
            forall|j: int| 0 <= j < i ==> (#[trigger] out@[j]).0@ == es@[j].0@,
            forall|j: int| 0 <= j < i ==> wire_view((#[trigger] out@[j]).1)
                == wire_view(es@[j].1),
        decreases n - i,
    {
        let k = es[i].0.clone();
        let v = clone_wire(&es[i].1);
        out.push((k, v));
        i = i + 1;
    }
    proof {
        assert(out.deep_view() =~= es.deep_view());
    }
    out
}

} // verus!
