//! Device resolver: turns a capability-interface name and the bus's object
//! listing into an ordered, reproducible list of device handles.
//!
//! Paths are ordered lexicographically by Unicode scalar value; the order
//! is what makes multi-device operations visit devices the same way on
//! every run.

use vstd::prelude::*;
use vstd::relations::{sorted_by, total_ordering};
use vstd::seq_lib::{lemma_multiset_commutative, lemma_sorted_unique};
use vstd::string::StrSliceExecFns;
use vstd::utf8::char_u32_cast;

use crate::error::CmdError;

verus! {

/// One object on the bus: its path and the interface names it implements.
#[derive(Clone, PartialEq, Eq, Debug)]
pub struct BusObject {
    pub path: String,
    pub interfaces: Vec<String>,
}

/// An addressable handle for one discovered device; the path is its stable
/// identity and sort key.
#[derive(Clone, PartialEq, Eq, Debug)]
pub struct DeviceHandle {
    pub path: String,
}

/// Strict lexicographic order on character sequences, by Unicode scalar
/// value at the first differing position, with a proper prefix ordered
/// first.
pub open spec fn lex_lt(a: Seq<char>, b: Seq<char>) -> bool
    decreases a.len(),
{
    if b.len() == 0 {
        false
    } else if a.len() == 0 {
        true
    } else if a[0] == b[0] {
        lex_lt(a.drop_first(), b.drop_first())
    } else {
        (a[0] as u32) < (b[0] as u32)
    }
}

/// Lexicographic order, reflexive closure of `lex_lt`.
pub open spec fn lex_le(a: Seq<char>, b: Seq<char>) -> bool {
    lex_lt(a, b) || a == b
}

/// `lex_le` as a relation value, for the sortedness predicates.
pub open spec fn lex_leq_fn() -> spec_fn(Seq<char>, Seq<char>) -> bool {
    |a: Seq<char>, b: Seq<char>| lex_le(a, b)
}

/// A shared prefix does not affect the comparison: it reduces to the
/// suffixes.
pub proof fn lemma_lex_skip(a: Seq<char>, b: Seq<char>, j: int)
    requires
        0 <= j <= a.len(),
        j <= b.len(),
        forall|k: int| 0 <= k < j ==> a[k] == b[k],
    ensures
        lex_lt(a, b) == lex_lt(a.skip(j), b.skip(j)),
    decreases j,
{
    if j == 0 {
        assert(a.skip(0) =~= a);
        assert(b.skip(0) =~= b);
    } else {
        assert(a[0] == b[0]);
        let a1 = a.drop_first();
        let b1 = b.drop_first();
        assert forall|k: int| 0 <= k < j - 1 implies a1[k] == b1[k] by {
            assert(a1[k] == a[k + 1]);
            assert(b1[k] == b[k + 1]);
        }
        lemma_lex_skip(a1, b1, j - 1);
        assert(a1.skip(j - 1) =~= a.skip(j));
        assert(b1.skip(j - 1) =~= b.skip(j));
    }
}

/// Any two character sequences compare one way or the other.
pub proof fn lemma_lex_total(a: Seq<char>, b: Seq<char>)
    ensures
        lex_le(a, b) || lex_le(b, a),
    decreases a.len(),
{
    if a.len() == 0 && b.len() == 0 {
        assert(a =~= b);
    } else if b.len() == 0 || a.len() == 0 {
    } else if a[0] == b[0] {
        let a1 = a.drop_first();
        let b1 = b.drop_first();
        lemma_lex_total(a1, b1);
        if !lex_lt(a, b) && !lex_lt(b, a) {
            assert(!lex_lt(a1, b1) && !lex_lt(b1, a1));
            if a1 == b1 {
                assert forall|i: int| 0 <= i < a.len() implies a[i] == b[i] by {
                    if i > 0 {
                        assert(a[i] == a1[i - 1]);
                        assert(b[i] == b1[i - 1]);
                    }
                }
                assert(a =~= b);
            }
        }
    } else {
        let au = a[0] as u32;
        let bu = b[0] as u32;
        if au == bu {
            char_u32_cast(a[0], au);
            char_u32_cast(b[0], bu);
        }
    }
}

/// `lex_lt` is transitive.
pub proof fn lemma_lex_lt_transitive(a: Seq<char>, b: Seq<char>, c: Seq<char>)
    requires
        lex_lt(a, b),
        lex_lt(b, c),
    ensures
        lex_lt(a, c),
    decreases a.len(),
{
    if a.len() == 0 {
    } else {
        if a[0] == b[0] && b[0] == c[0] {
            lemma_lex_lt_transitive(a.drop_first(), b.drop_first(), c.drop_first());
        }
    }
}

/// `lex_le` is antisymmetric: two sequences each at or before the other
/// are equal.
pub proof fn lemma_lex_antisymmetric(a: Seq<char>, b: Seq<char>)
    requires
        lex_le(a, b),
        lex_le(b, a),
    ensures
        a == b,
    decreases a.len(),
{
    if a != b {
        if a.len() > 0 && b.len() > 0 && a[0] == b[0] {
            let a1 = a.drop_first();
            let b1 = b.drop_first();
            lemma_lex_antisymmetric(a1, b1);
            assert(a1.len() == b1.len());
            assert(a.len() == b.len());
            assert forall|i: int| 0 <= i < a.len() implies a[i] == b[i] by {
                if i > 0 {
                    assert(a[i] == a1[i - 1]);
                    assert(b[i] == b1[i - 1]);
                }
            }
            assert(a =~= b);
        }
    }
}

/// `lex_le` is a total ordering on character sequences.
pub proof fn lemma_lex_le_total_ordering()
    ensures
        total_ordering(lex_leq_fn()),
{
    let leq = lex_leq_fn();
    assert forall|x: Seq<char>, y: Seq<char>| #[trigger] leq(x, y) && #[trigger] leq(y, x)
        implies x == y by {
        lemma_lex_antisymmetric(x, y);
    }
    assert forall|x: Seq<char>, y: Seq<char>, z: Seq<char>|
        #[trigger] leq(x, y) && #[trigger] leq(y, z) implies leq(x, z) by {
        if x != y && y != z {
            lemma_lex_lt_transitive(x, y, z);
        }
    }
    assert forall|x: Seq<char>, y: Seq<char>| #[trigger] leq(x, y) || #[trigger] leq(y, x) by {
        lemma_lex_total(x, y);
    }
}

/// Character-by-character string equality.
pub fn str_eq_chars(a: &str, b: &str) -> (r: bool)
    ensures
        r == (a@ == b@),
{
    let an = a.unicode_len();
    let bn = b.unicode_len();
    if an != bn {
        return false;
    }
    let mut i: usize = 0;
    while i < an
        invariant
            i <= an,
            an == a@.len(),
            bn == b@.len(),
            an == bn,
            forall|k: int| 0 <= k < i ==> a@[k] == b@[k],
        decreases an - i,
    {
        let ca = a.get_char(i);
        let cb = b.get_char(i);
        if ca != cb {
            return false;
        }
        i += 1;
    }
    proof {
        assert(a@ =~= b@);
    }
    true
}

/// Whether `a` orders at or before `b` lexicographically.
pub fn str_le(a: &str, b: &str) -> (r: bool)
    ensures
        r == lex_le(a@, b@),
{
    let an = a.unicode_len();
    let bn = b.unicode_len();
    let mut i: usize = 0;
    while i < an && i < bn
        invariant
            i <= an,
            i <= bn,
            an == a@.len(),
            bn == b@.len(),
            forall|k: int| 0 <= k < i ==> a@[k] == b@[k],
        decreases an - i,
    {
        let ca = a.get_char(i);
        let cb = b.get_char(i);
        if ca != cb {
            proof {
                lemma_lex_skip(a@, b@, i as int);
                assert(a@.skip(i as int)[0] == a@[i as int]);
                assert(b@.skip(i as int)[0] == b@[i as int]);
            }
            return (ca as u32) < (cb as u32);
        }
        i += 1;
    }
    proof {
        lemma_lex_skip(a@, b@, i as int);
    }
    if an <= bn {
        proof {
            if an == bn {
                assert(a@ =~= b@);
            } else {
                assert(a@.skip(i as int).len() == 0);
                assert(b@.skip(i as int).len() > 0);
            }
        }
        true
    } else {
        proof {
            assert(b@.skip(i as int).len() == 0);
        }
        false
    }
}

/// The character sequences of a sequence of strings.
pub open spec fn paths_view(v: Seq<String>) -> Seq<Seq<char>> {
    Seq::new(v.len(), |i: int| v[i]@)
}

/// The character sequences of the handles' paths.
pub open spec fn handle_paths(hs: Seq<DeviceHandle>) -> Seq<Seq<char>> {
    Seq::new(hs.len(), |i: int| hs[i].path@)
}

/// Whether an object's exposed interface set contains `name`.
pub open spec fn object_matches(o: BusObject, name: Seq<char>) -> bool {
    exists|i: int| 0 <= i < o.interfaces@.len() && o.interfaces@[i]@ == name
}

/// The paths of the objects implementing `name`, in enumeration order.
pub open spec fn matched_paths(objs: Seq<BusObject>, name: Seq<char>) -> Seq<Seq<char>>
    decreases objs.len(),
{
    if objs.len() == 0 {
        Seq::empty()
    } else {
        let rest = matched_paths(objs.drop_last(), name);
        if object_matches(objs.last(), name) {
            rest.push(objs.last().path@)
        } else {
            rest
        }
    }
}

/// Scans an object's interface names for `name`.
pub fn object_implements(o: &BusObject, name: &str) -> (r: bool)
    ensures
        r == object_matches(*o, name@),
{
    let m = o.interfaces.len();
    let mut j: usize = 0;
    while j < m
        invariant
            j <= m,
            m == o.interfaces@.len(),
            forall|k: int| 0 <= k < j ==> o.interfaces@[k]@ != name@,
        decreases m - j,
    {
        if str_eq_chars(o.interfaces[j].as_str(), name) {
            return true;
        }
        j += 1;
    }
    proof {
        if object_matches(*o, name@) {
            let k = choose|k: int| 0 <= k < o.interfaces@.len() && o.interfaces@[k]@ == name@;
            assert(o.interfaces@[k]@ != name@);
        }
    }
    false
}

/// Inserting anywhere adds exactly that element to the multiset.
proof fn lemma_to_multiset_insert<A>(s: Seq<A>, pos: int, x: A)
    requires
        0 <= pos <= s.len(),
    ensures
        s.insert(pos, x).to_multiset() == s.to_multiset().insert(x),
{
    broadcast use vstd::seq_lib::group_to_multiset_ensures;
    broadcast use vstd::multiset::group_multiset_axioms;

    let a = s.subrange(0, pos);
    let b = s.subrange(pos, s.len() as int);
    assert(s.insert(pos, x) == a.push(x) + b);
    lemma_multiset_commutative(a.push(x), b);
    lemma_multiset_commutative(a, b);
    assert(s =~= a + b);
    assert(s.insert(pos, x).to_multiset() =~= s.to_multiset().insert(x));
}

/// The first position whose element does not order before `x`, which is
/// where `x` belongs.
fn find_insert_pos(v: &Vec<String>, x: &str) -> (pos: usize)
    ensures
        pos <= v@.len(),
        forall|k: int| 0 <= k < pos ==> !lex_le(x@, paths_view(v@)[k]),
        pos < v@.len() ==> lex_le(x@, paths_view(v@)[pos as int]),
{
    let n = v.len();
    let mut i: usize = 0;
    while i < n
        invariant
            i <= n,
            n == v@.len(),
            forall|k: int| 0 <= k < i ==> !lex_le(x@, paths_view(v@)[k]),
        decreases n - i,
    {
        if str_le(x, v[i].as_str()) {
            return i;
        }
        i += 1;
    }
    i
}

/// Inserts `x` into a path list sorted by `lex_le`, keeping it sorted and
/// adding exactly `x` to its contents.
fn insert_sorted(v: &mut Vec<String>, x: String)
    requires
        sorted_by(paths_view(old(v)@), lex_leq_fn()),
    ensures
        sorted_by(paths_view(final(v)@), lex_leq_fn()),
        paths_view(final(v)@).to_multiset() == paths_view(old(v)@).to_multiset().insert(x@),
        final(v)@.len() == old(v)@.len() + 1,
{
    let ghost pv0 = paths_view(old(v)@);
    let ghost xv = x@;
    let pos = find_insert_pos(v, x.as_str());
    v.insert(pos, x);
    proof {
        let p = pos as int;
        let pvn = paths_view(v@);
        old(v)@.insert_ensures(p, x);
        pv0.insert_ensures(p, xv);
        assert(pvn =~= pv0.insert(p, xv));
        lemma_to_multiset_insert(pv0, p, xv);
        let leq = lex_leq_fn();
        assert forall|i: int, j: int| 0 <= i < j < pvn.len() implies #[trigger] leq(
            pvn[i],
            pvn[j],
        ) by {
            if j < p {
                assert(leq(pv0[i], pv0[j]));
            } else if i < p && j == p {
                assert(!lex_le(xv, pv0[i]));
                lemma_lex_total(xv, pv0[i]);
            } else if i < p && j > p {
                assert(leq(pv0[i], pv0[j - 1]));
            } else if i == p {
                assert(lex_le(xv, pv0[p]));
                if j - 1 > p {
                    assert(leq(pv0[p], pv0[j - 1]));
                    if xv != pv0[p] && pv0[p] != pv0[j - 1] {
                        lemma_lex_lt_transitive(xv, pv0[p], pv0[j - 1]);
                    }
                }
            } else {
                assert(leq(pv0[i - 1], pv0[j - 1]));
            }
        }
    }
}

/// Sorts the collected paths lexicographically; the result is a sorted
/// rearrangement of the input.
fn sort_paths(input: &Vec<String>) -> (out: Vec<String>)
    ensures
        sorted_by(paths_view(out@), lex_leq_fn()),
        paths_view(out@).to_multiset() == paths_view(input@).to_multiset(),
        out@.len() == input@.len(),
{
    broadcast use vstd::seq_lib::group_to_multiset_ensures;

    let n = input.len();
    let mut out: Vec<String> = Vec::new();
    let mut i: usize = 0;
    proof {
        assert(paths_view(out@) =~= Seq::<Seq<char>>::empty());
        assert(paths_view(input@.take(0)) =~= Seq::<Seq<char>>::empty());
        assert(paths_view(out@).to_multiset() =~= paths_view(input@.take(0)).to_multiset());
    }
    while i < n
        invariant
            i <= n,
            n == input@.len(),
            out@.len() == i,
            sorted_by(paths_view(out@), lex_leq_fn()),
            paths_view(out@).to_multiset() == paths_view(input@.take(i as int)).to_multiset(),
        decreases n - i,
    {
        let x = input[i].clone();
        insert_sorted(&mut out, x);
        proof {
            broadcast use vstd::seq_lib::group_to_multiset_ensures;

            let t1 = input@.take(i + 1);
            let t0 = input@.take(i as int);
            assert(paths_view(t1) =~= paths_view(t0).push(input@[i as int]@));
        }
        i += 1;
    }
    proof {
        assert(input@.take(n as int) =~= input@);
        assert(paths_view(input@.take(n as int)) =~= paths_view(input@));
    }
    out
}

/// Resolves a capability-interface name to one handle per implementing
/// object, ordered lexicographically by object path so that every run
/// visits devices in the same order. An empty result is the recoverable
/// `NoDeviceFound`, reported before any remote write.
pub fn resolve(iface_name: &str, objects: &Vec<BusObject>) -> (r: Result<Vec<DeviceHandle>, CmdError>)
    ensures
        match r {
            Ok(handles) => {
                &&& matched_paths(objects@, iface_name@).len() > 0
                &&& handles@.len() == matched_paths(objects@, iface_name@).len()
                &&& sorted_by(handle_paths(handles@), lex_leq_fn())
                &&& handle_paths(handles@).to_multiset() == matched_paths(
                    objects@,
                    iface_name@,
                ).to_multiset()
            },
            Err(e) => {
                &&& e == CmdError::NoDeviceFound
                &&& matched_paths(objects@, iface_name@).len() == 0
            },
        },
{
    broadcast use vstd::seq_lib::group_to_multiset_ensures;

    let n = objects.len();
    let mut matched: Vec<String> = Vec::new();
    let mut i: usize = 0;
    proof {
        assert(paths_view(matched@) =~= matched_paths(objects@.take(0), iface_name@));
    }
    while i < n
        invariant
            i <= n,
            n == objects@.len(),
            paths_view(matched@) == matched_paths(objects@.take(i as int), iface_name@),
        decreases n - i,
    {
        proof {
            assert(objects@.take(i + 1).drop_last() =~= objects@.take(i as int));
            assert(objects@.take(i + 1).last() == objects@[i as int]);
        }
        let is_match = object_implements(&objects[i], iface_name);
        if is_match {
            let ghost pv_before = paths_view(matched@);
            let p = objects[i].path.clone();
            matched.push(p);
            proof {
                assert(paths_view(matched@) =~= pv_before.push(objects@[i as int].path@));
            }
        }
        i += 1;
    }
    proof {
        assert(objects@.take(n as int) =~= objects@);
    }
    if matched.is_empty() {
        return Err(CmdError::NoDeviceFound);
    }
    let sorted = sort_paths(&matched);
    let m = sorted.len();
    let mut handles: Vec<DeviceHandle> = Vec::new();
    let mut j: usize = 0;
    while j < m
        invariant
            j <= m,
            m == sorted@.len(),
            handles@.len() == j,
            forall|k: int| 0 <= k < j ==> handles@[k].path@ == sorted@[k]@,
        decreases m - j,
    {
        let p = sorted[j].clone();
        handles.push(DeviceHandle { path: p });
        j += 1;
    }
    proof {
        assert(handle_paths(handles@) =~= paths_view(sorted@));
        assert(paths_view(matched@).len() == matched_paths(objects@, iface_name@).len());
    }
    Ok(handles)
}

/// Determinism of resolution: the resolver's contract pins the device
/// order, so any two results for the same object listing and interface
/// name list the same paths in the same order.
pub proof fn lemma_resolve_deterministic(
    objs: Seq<BusObject>,
    name: Seq<char>,
    r1: Seq<DeviceHandle>,
    r2: Seq<DeviceHandle>,
)
    requires
        sorted_by(handle_paths(r1), lex_leq_fn()),
        sorted_by(handle_paths(r2), lex_leq_fn()),
        handle_paths(r1).to_multiset() == matched_paths(objs, name).to_multiset(),
        handle_paths(r2).to_multiset() == matched_paths(objs, name).to_multiset(),
    ensures
        handle_paths(r1) == handle_paths(r2),
{
    lemma_lex_le_total_ordering();
    lemma_sorted_unique(handle_paths(r1), handle_paths(r2), lex_leq_fn());
}

} // verus!
