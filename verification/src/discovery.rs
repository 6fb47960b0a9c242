//! Object discovery over the bus object-manager listing.
//!
//! Several services expose their objects through a managed-object listing:
//! each object path maps to the set of interfaces the object implements.
//! Discovery filters that listing down to the paths implementing one
//! interface, and gathers per-object results, failing with the last error
//! seen when any object failed.

use vstd::prelude::*;

use crate::text::str_eq;

verus! {

broadcast use vstd::std_specs::vec::group_vec_axioms, vstd::seq::group_seq_axioms;

/// Whether the interface list `ifaces` names `iface`.
pub open spec fn lists_interface(ifaces: Seq<Seq<char>>, iface: Seq<char>) -> bool {
    exists|i: int| 0 <= i < ifaces.len() && #[trigger] ifaces[i] == iface
}

/// Whether one managed object implements `iface`.
pub open spec fn object_implements(obj: (Seq<char>, Seq<Seq<char>>), iface: Seq<char>) -> bool {
    lists_interface(obj.1, iface)
}

/// Whether the interface list names the interface.
pub fn interfaces_contain(ifaces: &Vec<String>, iface: &str) -> (r: bool)
    ensures
        r == lists_interface(ifaces.deep_view(), iface@),
{
    let n = ifaces.len();
    let mut i: usize = 0;
    while i < n
        invariant
            0 <= i <= n,
            n == ifaces@.len(),
            ifaces.deep_view().len() == n,
            forall|j: int| 0 <= j < n ==> #[trigger] ifaces.deep_view()[j] == ifaces@[j]@,
            forall|j: int| 0 <= j < i ==> #[trigger] ifaces.deep_view()[j] != iface@,
        decreases n - i,
    {
        if str_eq(ifaces[i].as_str(), iface) {
            proof {
                assert(ifaces.deep_view()[i as int] == ifaces@[i as int]@);
                assert(lists_interface(ifaces.deep_view(), iface@));
            }
            return true;
        }
        i = i + 1;
    }
    proof {
        assert(!lists_interface(ifaces.deep_view(), iface@));
    }
    false
}

/// The paths, in listing order, of the objects that implement `iface`.
pub open spec fn implementing_paths(
    objs: Seq<(Seq<char>, Seq<Seq<char>>)>,
    iface: Seq<char>,
) -> Seq<Seq<char>>
    decreases objs.len(),
{
    if objs.len() == 0 {
        Seq::empty()
    } else {
        let rest = implementing_paths(objs.drop_last(), iface);
        if lists_interface(objs.last().1, iface) {
            rest.push(objs.last().0)
        } else {
            rest
        }
    }
}

/// The paths of the managed objects that implement `iface`, in listing
/// order.
pub fn paths_with_interface(objects: &Vec<(String, Vec<String>)>, iface: &str) -> (r: Vec<String>)
    ensures
        r.deep_view() == implementing_paths(objects.deep_view(), iface@),
{
    let ghost dv = objects.deep_view();
    let mut out: Vec<String> = Vec::new();
    let n = objects.len();
    let mut i: usize = 0;
    proof {
        assert(dv.take(0) =~= Seq::<(Seq<char>, Seq<Seq<char>>)>::empty());
    }
    while i < n
        invariant
            0 <= i <= n,
            n == objects@.len(),
            dv == objects.deep_view(),
            dv.len() == n,
            forall|j: int| 0 <= j < n ==> #[trigger] dv[j] == (objects@[j].0@,
                objects@[j].1.deep_view()),
            out.deep_view() =~= implementing_paths(dv.take(i as int), iface@),
        decreases n - i,
    {
        let ghost pre = dv.take(i as int);
        let ghost post = dv.take(i as int + 1);
        proof {
            assert(post =~= pre.push(dv[i as int]));
            assert(post.drop_last() =~= pre);
            assert(post.last() == dv[i as int]);
        }
        let has = interfaces_contain(&objects[i].1, iface);
        proof {
            assert(dv[i as int] == (objects@[i as int].0@, objects@[i as int].1.deep_view()));
            assert(has == lists_interface(dv[i as int].1, iface@));
        }
        if has {
            let ghost before = out.deep_view();
            out.push(objects[i].0.clone());
            proof {
                assert(out.deep_view() =~= before.push(objects@[i as int].0@));
                assert(implementing_paths(post, iface@) == implementing_paths(
                    pre,
                    iface@,
                ).push(dv[i as int].0));
            }
        } else {
            proof {
                assert(implementing_paths(post, iface@) == implementing_paths(pre, iface@));
            }
        }
        i = i + 1;
    }
    proof {
        assert(dv.take(n as int) =~= dv);
    }
    out
}

/// The path of the first managed object that implements `iface`, if any.
pub fn first_with_interface(objects: &Vec<(String, Vec<String>)>, iface: &str) -> (r: Option<
    String,
>)
    ensures
        match r {
            Some(p) => exists|i: int|
                0 <= i < objects.deep_view().len() && object_implements(
                    #[trigger] objects.deep_view()[i],
                    iface@,
                ) && p@ == objects.deep_view()[i].0,
            None => forall|i: int|
                0 <= i < objects.deep_view().len() ==> !object_implements(
                    #[trigger] objects.deep_view()[i],
                    iface@,
                ),
        },
{
    let ghost dv = objects.deep_view();
    let n = objects.len();
    let mut i: usize = 0;
    while i < n
        invariant
            0 <= i <= n,
            n == objects@.len(),
            dv == objects.deep_view(),
            dv.len() == n,
            forall|j: int| 0 <= j < n ==> #[trigger] dv[j] == (objects@[j].0@,
                objects@[j].1.deep_view()),
            forall|j: int| 0 <= j < i ==> !object_implements(#[trigger] dv[j], iface@),
        decreases n - i,
    {
        let has = interfaces_contain(&objects[i].1, iface);
        proof {
            assert(dv[i as int] == (objects@[i as int].0@, objects@[i as int].1.deep_view()));
        }
        if has {
            proof {
                assert(object_implements(dv[i as int], iface@));
            }
            return Some(objects[i].0.clone());
        }
        i = i + 1;
    }
    None
}

/// Collects per-object results: all values in order when every result
/// succeeded, and otherwise the last error seen.
pub fn collect_or_last_error<T, E>(items: Vec<Result<T, E>>) -> (r: Result<Vec<T>, E>)
    ensures
        match r {
            Ok(vs) => {
                &&& vs@.len() == items@.len()
                &&& forall|i: int| 0 <= i < items@.len() ==> ((#[trigger] items@[i]) matches Ok(v)
                    && vs@[i] == v)
            },
            Err(e) => {
                &&& last_err_index(items@) >= 0
                &&& items@[last_err_index(items@)] == Err::<T, E>(e)
            },
        },
{
    let ghost items0 = items@;
    let mut items = items;
    let n = items.len();
    let mut rev: Vec<Result<T, E>> = Vec::new();
    while items.len() > 0
        invariant
            items@.len() + rev@.len() == n,
            n == items0.len(),
            items@ =~= items0.take(items@.len() as int),
            forall|j: int| 0 <= j < rev@.len() ==> #[trigger] rev@[j] == items0[n - 1 - j],
        decreases items@.len(),
    {
        let x = match items.pop() {
            Some(x) => x,
            None => vstd::pervasive::unreached(),
        };
        proof {
            assert(items0.take(items@.len() as int + 1)[items@.len() as int]
                == items0[items@.len() as int]);
            assert(items0.take(items@.len() as int + 1).drop_last() =~= items0.take(
                items@.len() as int,
            ));
        }
        rev.push(x);
    }
    let mut out: Vec<T> = Vec::new();
    let mut last_err: Option<E> = None;
    let mut i: usize = 0;
    proof {
        assert(items0.take(0) =~= Seq::<Result<T, E>>::empty());
    }
    while i < n
        invariant
            0 <= i <= n,
            n == items0.len(),
            rev@.len() == n - i,
            forall|j: int| 0 <= j < rev@.len() ==> #[trigger] rev@[j] == items0[n - 1 - j],
            last_err is None ==> out@.len() == i && forall|j: int|
                0 <= j < i ==> ((#[trigger] items0[j]) matches Ok(v) && out@[j] == v),
            match last_err {
                Some(e) => last_err_index(items0.take(i as int)) >= 0 && items0.take(i as int)[
                    last_err_index(items0.take(i as int))
                ] == Err::<T, E>(e),
                None => last_err_index(items0.take(i as int)) < 0,
            },
        decreases n - i,
    {
        let x = match rev.pop() {
            Some(x) => x,
            None => vstd::pervasive::unreached(),
        };
        proof {
            assert(rev@.len() == n - 1 - i);
            assert(x == items0[i as int]);
            assert(items0.take(i as int + 1).drop_last() =~= items0.take(i as int));
            assert(items0.take(i as int + 1).last() == items0[i as int]);
        }
        proof {
            let post = items0.take(i as int + 1);
            if items0[i as int] is Err {
                assert(last_err_index(post) == i);
            } else {
                assert(last_err_index(post) == last_err_index(items0.take(i as int)));
                if last_err is Some {
                    lemma_last_err_index_bound::<T, E>(items0.take(i as int));
                    let k = last_err_index(items0.take(i as int));
                    assert(post[k] == items0.take(i as int)[k]);
                }
            }
        }
        match x {
            Ok(v) => {
                out.push(v);
            }
            Err(e) => {
                last_err = Some(e);
            }
        }
        i = i + 1;
    }
    proof {
        assert(items0.take(n as int) =~= items0);
    }
    match last_err {
        Some(e) => Err(e),
        None => Ok(out),
    }
}

/// The index of the last error among `items`; meaningful only when one
/// exists.
pub open spec fn last_err_index<T, E>(items: Seq<Result<T, E>>) -> int
    decreases items.len(),
{
    if items.len() == 0 {
        -1
    } else if items.last() is Err {
        items.len() - 1
    } else {
        last_err_index(items.drop_last())
    }
}

/// The last-error index always lies below the length.
pub proof fn lemma_last_err_index_bound<T, E>(items: Seq<Result<T, E>>)
    ensures
        last_err_index(items) < items.len(),
    decreases items.len(),
{
    if items.len() > 0 && !(items.last() is Err) {
        lemma_last_err_index_bound(items.drop_last());
    }
}

} // verus!
