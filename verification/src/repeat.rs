//! Repetition of a record type: the record files of the cards hold a given
//! number of record slots, some of which may be empty or unreadable.
use crate::cursor::{Cursor, Parse, ParseError};
use vstd::prelude::*;

verus! {

/// Where the reader stands after `k` attempts to read a `T` from `p` on,
/// whether or not each attempt succeeded.
pub open spec fn attempt_pos<T: Parse>(d: Seq<u8>, p: int, k: nat) -> int
    decreases k,
{
    if k == 0 {
        p
    } else {
        T::parse_end(d, attempt_pos::<T>(d, p, (k - 1) as nat))
    }
}

/// The positions, among the first `n` attempts from `p`, of the attempts that succeed.
pub open spec fn kept_positions<T: Parse>(d: Seq<u8>, p: int, n: nat) -> Seq<int>
    decreases n,
{
    if n == 0 {
        Seq::empty()
    } else {
        let prev = kept_positions::<T>(d, p, (n - 1) as nat);
        let q = attempt_pos::<T>(d, p, (n - 1) as nat);
        if T::parse_ok(d, q) {
            prev.push(q)
        } else {
            prev
        }
    }
}

/// The number of attempts, among the first `n` from `p`, before the first one that fails.
pub open spec fn leading_successes<T: Parse>(d: Seq<u8>, p: int, n: nat) -> nat
    decreases n,
{
    if n == 0 {
        0
    } else {
        let k = leading_successes::<T>(d, p, (n - 1) as nat);
        if k == n - 1 && T::parse_ok(d, attempt_pos::<T>(d, p, (n - 1) as nat)) {
            n
        } else {
            k
        }
    }
}

/// `v` are the values read at the positions `ps`, in order.
pub open spec fn values_at<T: Parse>(d: Seq<u8>, ps: Seq<int>, v: Seq<T>) -> bool {
    &&& v.len() == ps.len()
    &&& forall|i: int| 0 <= i < v.len() ==> #[trigger] T::parsed_as(d, ps[i], v[i])
}

/// The positions of the first `k` attempts from `p`.
pub open spec fn attempt_positions<T: Parse>(d: Seq<u8>, p: int, k: nat) -> Seq<int> {
    Seq::new(k, |i: int| attempt_pos::<T>(d, p, i as nat))
}

/// Attempts `n` reads of a `T` one after another and keeps those that succeed.
pub fn parse_kept<T: Parse>(cursor: &mut Cursor, n: usize) -> (r: Vec<T>)
    ensures
        final(cursor).data() == old(cursor).data(),
        old(cursor).pos() <= final(cursor).pos(),
        final(cursor).pos() == attempt_pos::<T>(old(cursor).data(), old(cursor).pos(), n as nat),
        values_at(
            old(cursor).data(),
            kept_positions::<T>(old(cursor).data(), old(cursor).pos(), n as nat),
            r@,
        ),
{
    let ghost d = old(cursor).data();
    let ghost p = old(cursor).pos();
    let mut records: Vec<T> = Vec::new();
    let mut i: usize = 0;
    while i < n
        invariant
            i <= n,
            cursor.data() == d,
            d == old(cursor).data(),
            p == old(cursor).pos(),
            p <= cursor.pos(),
            cursor.pos() == attempt_pos::<T>(d, p, i as nat),
            values_at(d, kept_positions::<T>(d, p, i as nat), records@),
        decreases n - i,
    {
        let ghost before = records@;
        let ghost q = cursor.pos();
        if let Ok(record) = T::parse(cursor) {
            records.push(record);
            proof {
                let ps = kept_positions::<T>(d, p, (i + 1) as nat);
                assert(ps == kept_positions::<T>(d, p, i as nat).push(q));
                assert forall|j: int| 0 <= j < records@.len() implies #[trigger] T::parsed_as(
                    d,
                    ps[j],
                    records@[j],
                ) by {
                    if j < before.len() {
                        assert(records@[j] == before[j]);
                    }
                }
            }
        }
        i = i + 1;
    }
    records
}

/// Attempts up to `n` reads of a `T` one after another and stops at the first that fails.
pub fn parse_until_failure<T: Parse>(cursor: &mut Cursor, n: usize) -> (r: Vec<T>)
    ensures
        final(cursor).data() == old(cursor).data(),
        old(cursor).pos() <= final(cursor).pos(),
        final(cursor).pos() == attempt_pos::<T>(
            old(cursor).data(),
            old(cursor).pos(),
            if leading_successes::<T>(old(cursor).data(), old(cursor).pos(), n as nat) < n {
                leading_successes::<T>(old(cursor).data(), old(cursor).pos(), n as nat) + 1
            } else {
                n as nat
            },
        ),
        values_at(
            old(cursor).data(),
            attempt_positions::<T>(
                old(cursor).data(),
                old(cursor).pos(),
                leading_successes::<T>(old(cursor).data(), old(cursor).pos(), n as nat),
            ),
            r@,
        ),
{
    let ghost d = old(cursor).data();
    let ghost p = old(cursor).pos();
    let mut records: Vec<T> = Vec::new();
    let mut i: usize = 0;
    proof {
        lemma_leading_successes_bound::<T>(d, p, n as nat);
    }
    while i < n
        invariant_except_break
            leading_successes::<T>(d, p, i as nat) == i,
            cursor.pos() == attempt_pos::<T>(d, p, i as nat),
        invariant
            p <= cursor.pos(),
            i <= n,
            cursor.data() == d,
            d == old(cursor).data(),
            p == old(cursor).pos(),
            records@.len() == i,
            forall|j: int|
                0 <= j < i ==> #[trigger] T::parsed_as(d, attempt_pos::<T>(d, p, j as nat), records@[j]),
        ensures
            leading_successes::<T>(d, p, n as nat) == i,
            cursor.pos() == attempt_pos::<T>(d, p, if i < n { (i + 1) as nat } else { n as nat }),
        decreases n - i,
    {
        let ghost before = records@;
        match T::parse(cursor) {
            Ok(record) => {
                records.push(record);
                proof {
                    assert forall|j: int| 0 <= j < i + 1 implies #[trigger] T::parsed_as(
                        d,
                        attempt_pos::<T>(d, p, j as nat),
                        records@[j],
                    ) by {
                        if j < i {
                            assert(records@[j] == before[j]);
                        }
                    }
                }
                i = i + 1;
            },
            Err(_) => {
                proof {
                    lemma_leading_successes_stop::<T>(d, p, i as nat, n as nat);
                }
                break;
            },
        }
    }
    proof {
        let k = leading_successes::<T>(d, p, n as nat);
        assert(attempt_positions::<T>(d, p, k).len() == records@.len());
        assert forall|j: int| 0 <= j < records@.len() implies #[trigger] T::parsed_as(
            d,
            attempt_positions::<T>(d, p, k)[j],
            records@[j],
        ) by {
            assert(attempt_positions::<T>(d, p, k)[j] == attempt_pos::<T>(d, p, j as nat));
        }
    }
    records
}

proof fn lemma_leading_successes_bound<T: Parse>(d: Seq<u8>, p: int, n: nat)
    ensures
        leading_successes::<T>(d, p, n) <= n,
    decreases n,
{
    if n > 0 {
        lemma_leading_successes_bound::<T>(d, p, (n - 1) as nat);
    }
}

/// Once an attempt fails, the count of leading successes stays where it is.
proof fn lemma_leading_successes_stop<T: Parse>(d: Seq<u8>, p: int, i: nat, n: nat)
    requires
        i < n,
        leading_successes::<T>(d, p, i) == i,
        !T::parse_ok(d, attempt_pos::<T>(d, p, i)),
    ensures
        leading_successes::<T>(d, p, n) == i,
    decreases n - i,
{
    if n > i + 1 {
        lemma_leading_successes_stop::<T>(d, p, i, (n - 1) as nat);
        lemma_leading_successes_bound::<T>(d, p, (n - 1) as nat);
    }
}

/// Where the reader stands after reading up to `n` values of `T` from `p`,
/// stopping after the first that fails.
pub open spec fn counted_end<T: Parse>(d: Seq<u8>, p: int, n: nat) -> int {
    let k = leading_successes::<T>(d, p, n);
    attempt_pos::<T>(d, p, if k < n { k + 1 } else { n })
}

/// The error of the first of `n` reads of a `T` from `p` that fails.
pub open spec fn counted_err<T: Parse>(d: Seq<u8>, p: int, n: nat) -> ParseError {
    T::parse_err(d, attempt_pos::<T>(d, p, leading_successes::<T>(d, p, n)))
}

/// Reads exactly `n` values of `T` one after another; fails at the first that
/// fails, with its error.
pub fn parse_counted<T: Parse>(cursor: &mut Cursor, n: usize) -> (r: Result<Vec<T>, ParseError>)
    ensures
        final(cursor).data() == old(cursor).data(),
        old(cursor).pos() <= final(cursor).pos(),
        final(cursor).pos() == counted_end::<T>(old(cursor).data(), old(cursor).pos(), n as nat),
        r is Ok <==> leading_successes::<T>(old(cursor).data(), old(cursor).pos(), n as nat) == n,
        r matches Ok(v) ==> values_at(
            old(cursor).data(),
            attempt_positions::<T>(old(cursor).data(), old(cursor).pos(), n as nat),
            v@,
        ),
        r matches Err(e) ==> e == counted_err::<T>(old(cursor).data(), old(cursor).pos(), n as nat),
{
    let ghost d = old(cursor).data();
    let ghost p = old(cursor).pos();
    let mut records: Vec<T> = Vec::new();
    let mut i: usize = 0;
    while i < n
        invariant
            i <= n,
            cursor.data() == d,
            d == old(cursor).data(),
            p == old(cursor).pos(),
            p <= cursor.pos(),
            leading_successes::<T>(d, p, i as nat) == i,
            cursor.pos() == attempt_pos::<T>(d, p, i as nat),
            records@.len() == i,
            forall|j: int|
                0 <= j < i ==> #[trigger] T::parsed_as(d, attempt_pos::<T>(d, p, j as nat), records@[j]),
        decreases n - i,
    {
        let ghost before = records@;
        match T::parse(cursor) {
            Ok(record) => {
                records.push(record);
                proof {
                    assert forall|j: int| 0 <= j < i + 1 implies #[trigger] T::parsed_as(
                        d,
                        attempt_pos::<T>(d, p, j as nat),
                        records@[j],
                    ) by {
                        if j < i {
                            assert(records@[j] == before[j]);
                        }
                    }
                }
                i = i + 1;
            },
            Err(e) => {
                proof {
                    lemma_leading_successes_stop::<T>(d, p, i as nat, n as nat);
                }
                return Err(e);
            },
        }
    }
    proof {
        assert forall|j: int| 0 <= j < records@.len() implies #[trigger] T::parsed_as(
            d,
            attempt_positions::<T>(d, p, n as nat)[j],
            records@[j],
        ) by {
            assert(attempt_positions::<T>(d, p, n as nat)[j] == attempt_pos::<T>(d, p, j as nat));
        }
    }
    Ok(records)
}

/// Where group `o` of `inner` attempts starts, groups following one another from `p`.
pub open spec fn group_start<T: Parse>(d: Seq<u8>, p: int, inner: nat, o: nat) -> int
    decreases o,
{
    if o == 0 {
        p
    } else {
        attempt_pos::<T>(d, group_start::<T>(d, p, inner, (o - 1) as nat), inner)
    }
}

/// For `outer` groups of `inner` attempts each, the positions of the
/// successful attempts of every group that has any.
pub open spec fn nonempty_groups<T: Parse>(d: Seq<u8>, p: int, inner: nat, outer: nat) -> Seq<
    Seq<int>,
>
    decreases outer,
{
    if outer == 0 {
        Seq::empty()
    } else {
        let prev = nonempty_groups::<T>(d, p, inner, (outer - 1) as nat);
        let g = kept_positions::<T>(d, group_start::<T>(d, p, inner, (outer - 1) as nat), inner);
        if g.len() > 0 {
            prev.push(g)
        } else {
            prev
        }
    }
}

/// `v` holds, group by group, the values read at the positions `gs`.
pub open spec fn groups_as<T: Parse>(d: Seq<u8>, gs: Seq<Seq<int>>, v: Seq<Vec<T>>) -> bool {
    &&& v.len() == gs.len()
    &&& forall|g: int| 0 <= g < v.len() ==> #[trigger] values_at(d, gs[g], v[g]@)
}

/// Reads `outer` groups of `inner` attempts each; keeps the successful
/// attempts of each group, and the groups that kept any.
pub fn parse_grouped<T: Parse>(cursor: &mut Cursor, outer: usize, inner: usize) -> (r: Vec<Vec<T>>)
    ensures
        final(cursor).data() == old(cursor).data(),
        old(cursor).pos() <= final(cursor).pos(),
        final(cursor).pos() == group_start::<T>(
            old(cursor).data(),
            old(cursor).pos(),
            inner as nat,
            outer as nat,
        ),
        groups_as(
            old(cursor).data(),
            nonempty_groups::<T>(old(cursor).data(), old(cursor).pos(), inner as nat, outer as nat),
            r@,
        ),
{
    let ghost d = old(cursor).data();
    let ghost p = old(cursor).pos();
    let mut groups: Vec<Vec<T>> = Vec::new();
    let mut o: usize = 0;
    while o < outer
        invariant
            o <= outer,
            cursor.data() == d,
            d == old(cursor).data(),
            p == old(cursor).pos(),
            p <= cursor.pos(),
            cursor.pos() == group_start::<T>(d, p, inner as nat, o as nat),
            groups_as(d, nonempty_groups::<T>(d, p, inner as nat, o as nat), groups@),
        decreases outer - o,
    {
        let ghost before = groups@;
        let group = parse_kept::<T>(cursor, inner);
        if group.len() > 0 {
            groups.push(group);
            proof {
                let gs = nonempty_groups::<T>(d, p, inner as nat, (o + 1) as nat);
                assert forall|g: int| 0 <= g < groups@.len() implies #[trigger] values_at(
                    d,
                    gs[g],
                    groups@[g]@,
                ) by {
                    if g < before.len() {
                        assert(groups@[g] == before[g]);
                    }
                }
            }
        }
        o = o + 1;
    }
    groups
}

} // verus!
