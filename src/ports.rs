use vstd::prelude::*;
use std::collections::HashSet;

use crate::error::Error;

verus! {

broadcast use vstd::std_specs::hash::group_hash_axioms;

/// The ports that are given, in order; absent ones are skipped.
pub open spec fn present(s: Seq<Option<u16>>) -> Seq<u16>
    decreases s.len(),
{
    if s.len() == 0 {
        seq![]
    } else {
        present(s.drop_last()) + match s.last() {
            Some(p) => seq![p],
            None => seq![],
        }
    }
}

/// Claiming the ports `s` in order, starting from the set `claimed`: the set
/// of all claimed ports, or the first port of `s` that is claimed already.
pub open spec fn scan(claimed: Set<u16>, s: Seq<u16>) -> Result<Set<u16>, u16>
    decreases s.len(),
{
    if s.len() == 0 {
        Ok(claimed)
    } else {
        match scan(claimed, s.drop_last()) {
            Err(p) => Err(p),
            Ok(set) => if set.contains(s.last()) {
                Err(s.last())
            } else {
                Ok(set.insert(s.last()))
            },
        }
    }
}

/// The verdict on a whole configuration's ports, in declaration order: the
/// first port declared a second time is in use.
pub open spec fn port_check(s: Seq<u16>) -> Result<(), Error> {
    match scan(Set::empty(), s) {
        Ok(_) => Ok(()),
        Err(p) => Err(Error::PortInUse(p)),
    }
}

/// Whether some port occurs twice in `s`.
pub open spec fn has_duplicate(s: Seq<u16>) -> bool {
    exists|i: int, j: int| 0 <= i < j < s.len() && s[i] == s[j]
}

/// Scanning `a + b` is scanning `a`, then `b` from what `a` claimed.
pub proof fn lemma_scan_concat(claimed: Set<u16>, a: Seq<u16>, b: Seq<u16>)
    ensures
        scan(claimed, a + b) == match scan(claimed, a) {
            Err(p) => Err(p),
            Ok(set) => scan(set, b),
        },
    decreases b.len(),
{
    if b.len() == 0 {
        assert(a + b =~= a);
    } else {
        lemma_scan_concat(claimed, a, b.drop_last());
        assert((a + b).drop_last() =~= a + b.drop_last());
    }
}

/// A scan from the empty set claims exactly the ports of `s`, and stops at a
/// port that occurs earlier in `s`; it stops whenever `s` has a duplicate.
proof fn lemma_scan_from_empty(s: Seq<u16>)
    ensures
        match scan(Set::empty(), s) {
            Ok(set) => !has_duplicate(s) && forall|p: u16| set.contains(p) <==> s.contains(p),
            Err(p) => exists|i: int, j: int| 0 <= i < j < s.len() && s[i] == p && s[j] == p,
        },
    decreases s.len(),
{
    if s.len() > 0 {
        let pre = s.drop_last();
        let x = s.last();
        lemma_scan_from_empty(pre);
        match scan(Set::empty(), pre) {
            Err(p) => {
                let (i, j) = choose|i: int, j: int| 0 <= i < j < pre.len() && pre[i] == p && pre[j] == p;
                assert(s[i] == p && s[j] == p);
            },
            Ok(set) => {
                if set.contains(x) {
                    let i = choose|i: int| 0 <= i < pre.len() && pre[i] == x;
                    assert(s[i] == x && s[s.len() - 1] == x);
                } else {
                    assert forall|p: u16| set.insert(x).contains(p) <==> s.contains(p) by {
                        if s.contains(p) {
                            let k = choose|k: int| 0 <= k < s.len() && s[k] == p;
                            if k < s.len() - 1 {
                                assert(pre[k] == p);
                            }
                        }
                        if pre.contains(p) {
                            let k = choose|k: int| 0 <= k < pre.len() && pre[k] == p;
                            assert(s[k] == p);
                        }
                    }
                    assert(!has_duplicate(s)) by {
                        if has_duplicate(s) {
                            let (i, j) = choose|i: int, j: int| 0 <= i < j < s.len() && s[i] == s[j];
                            if j < s.len() - 1 {
                                assert(pre[i] == pre[j]);
                            } else {
                                assert(pre[i] == x);
                                assert(pre.contains(x));
                            }
                        }
                    }
                }
            },
        }
    }
}

/// Port uniqueness: the check fails exactly when two declared ports are
/// equal, and the port it reports is one that is declared twice.
pub proof fn lemma_duplicate_port_rejected(s: Seq<u16>)
    ensures
        port_check(s) is Err <==> has_duplicate(s),
        port_check(s) matches Err(Error::PortInUse(p)) ==> exists|i: int, j: int|
            0 <= i < j < s.len() && s[i] == p && s[j] == p,
        port_check(s) is Err ==> port_check(s) matches Err(Error::PortInUse(_)),
{
    lemma_scan_from_empty(s);
    if let Err(p) = scan(Set::empty(), s) {
        let (i, j) = choose|i: int, j: int| 0 <= i < j < s.len() && s[i] == p && s[j] == p;
        assert(has_duplicate(s));
    }
}

/// Claims the ports that are given in `ports`, in order, into `claimed`; stops
/// at the first one claimed already and returns it.
pub fn claim_ports(claimed: &mut HashSet<u16>, ports: &Vec<Option<u16>>) -> (r: Result<(), u16>)
    ensures
        match scan(old(claimed)@, present(ports@)) {
            Ok(set) => r is Ok && final(claimed)@ == set,
            Err(p) => r == Err::<(), u16>(p),
        },
{
    let ghost start = claimed@;
    let mut j: usize = 0;
    while j < ports.len()
        invariant
            j <= ports@.len(),
            start == old(claimed)@,
            scan(start, present(ports@.subrange(0, j as int))) == Ok::<Set<u16>, u16>(claimed@),
        decreases ports@.len() - j,
    {
        let ghost before = ports@.subrange(0, j as int);
        assert(ports@.subrange(0, j + 1).drop_last() =~= before);
        if let Some(p) = ports[j] {
            assert(present(ports@.subrange(0, j + 1)) =~= present(before).push(p));
            assert(present(before).push(p).drop_last() =~= present(before));
            let ghost cur = claimed@;
            if !claimed.insert(p) {
                proof {
                    let done = present(ports@.subrange(0, j + 1));
                    assert(scan(start, done) == Err::<Set<u16>, u16>(p)) by {
                        assert(done.drop_last() =~= present(before));
                        assert(cur.contains(p));
                    }
                    lemma_present_split(ports@, j + 1);
                    lemma_scan_concat(start, done, present(ports@.subrange(j + 1, ports@.len() as int)));
                }
                return Err(p);
            }
        } else {
            assert(present(ports@.subrange(0, j + 1)) =~= present(before));
        }
        j = j + 1;
    }
    assert(ports@.subrange(0, ports@.len() as int) =~= ports@);
    Ok(())
}

/// The ports of a sequence are those of its two parts.
pub proof fn lemma_present_split(s: Seq<Option<u16>>, k: int)
    requires
        0 <= k <= s.len(),
    ensures
        present(s) == present(s.subrange(0, k)) + present(s.subrange(k, s.len() as int)),
    decreases s.len() - k,
{
    if k == s.len() {
        assert(s.subrange(0, k) =~= s);
        assert(present(s.subrange(k, s.len() as int)) =~= seq![]) by {
            assert(s.subrange(k, s.len() as int).len() == 0);
        }
        assert(present(s) + seq![] =~= present(s));
    } else {
        lemma_present_split(s, k + 1);
        lemma_present_concat(s.subrange(k, k + 1), s.subrange(k + 1, s.len() as int));
        assert(s.subrange(k, k + 1) + s.subrange(k + 1, s.len() as int) =~= s.subrange(k, s.len() as int));
        lemma_present_concat(s.subrange(0, k), s.subrange(k, k + 1));
        assert(s.subrange(0, k) + s.subrange(k, k + 1) =~= s.subrange(0, k + 1));
    }
}

/// The ports of a concatenation are the ports of its parts, in order.
pub proof fn lemma_present_concat(a: Seq<Option<u16>>, b: Seq<Option<u16>>)
    ensures
        present(a + b) == present(a) + present(b),
    decreases b.len(),
{
    if b.len() == 0 {
        assert(a + b =~= a);
        assert(present(b) =~= seq![]);
        assert(present(a) + seq![] =~= present(a));
    } else {
        lemma_present_concat(a, b.drop_last());
        assert((a + b).drop_last() =~= a + b.drop_last());
    }
}

} // verus!
