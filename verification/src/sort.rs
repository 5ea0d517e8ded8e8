//! Stable ordering of records by their time stamp.
use crate::cursor::Parse;
use crate::repeat::values_at;
use vstd::prelude::*;

verus! {

/// A record with a time stamp to order by.
pub trait Timed {
    spec fn time_key(&self) -> int;

    fn time_of(&self) -> (r: u32)
        ensures
            r == self.time_key(),
    ;
}

/// `v` is ordered by time stamp, ascending or descending.
pub open spec fn sorted_by_time<T: Timed>(v: Seq<T>, descending: bool) -> bool {
    forall|i: int, j: int|
        0 <= i < j < v.len() ==> if descending {
            v[i].time_key() >= v[j].time_key()
        } else {
            v[i].time_key() <= v[j].time_key()
        }
}

/// `perm` lists each of `0..n` exactly once.
pub open spec fn is_permutation(perm: Seq<int>, n: nat) -> bool {
    &&& perm.len() == n
    &&& forall|i: int| 0 <= i < n ==> 0 <= #[trigger] perm[i] < n
    &&& forall|i: int, j: int| 0 <= i < j < n ==> perm[i] != perm[j]
}

/// `r` holds the elements of `s` as `perm` picks them, ordered by time stamp,
/// with elements of equal time stamp in their order in `s`.
pub open spec fn sorted_with<T: Timed>(s: Seq<T>, r: Seq<T>, perm: Seq<int>, descending: bool) -> bool {
    &&& is_permutation(perm, s.len())
    &&& r.len() == s.len()
    &&& forall|i: int| 0 <= i < r.len() ==> r[i] == s[#[trigger] perm[i]]
    &&& sorted_by_time(r, descending)
    &&& forall|i: int, j: int|
        0 <= i < j < r.len() && r[i].time_key() == r[j].time_key() ==> perm[i] < perm[j]
}

/// `r` is the stable sort of `s` by time stamp.
pub open spec fn stable_sort_of<T: Timed>(s: Seq<T>, r: Seq<T>, descending: bool) -> bool {
    exists|perm: Seq<int>| sorted_with(s, r, perm, descending)
}

/// `v` are the values read at the positions `ps`, stably sorted by time stamp.
pub open spec fn sorted_values_at<T: Parse + Timed>(d: Seq<u8>, ps: Seq<int>, v: Seq<T>, descending: bool) -> bool {
    exists|s: Seq<T>| #[trigger] values_at(d, ps, s) && stable_sort_of(s, v, descending)
}

/// Sorts by time stamp, keeping elements of equal time stamp in their order.
pub fn sort_by_time<T: Timed>(v: Vec<T>, descending: bool) -> (r: Vec<T>)
    ensures
        stable_sort_of(v@, r@, descending),
{
    let ghost s = v@;
    let mut src = v;
    let _ = src.len();
    let mut r: Vec<T> = Vec::new();
    let ghost mut perm: Seq<int> = Seq::empty();
    let mut k: usize = 0;
    while src.len() > 0
        invariant
            k + src@.len() == s.len(),
            s.len() <= usize::MAX,
            src@ == s.subrange(k as int, s.len() as int),
            r@.len() == k,
            perm.len() == k,
            forall|i: int| 0 <= i < k ==> 0 <= #[trigger] perm[i] < k,
            forall|i: int, j: int| 0 <= i < j < k ==> perm[i] != perm[j],
            forall|i: int| 0 <= i < k ==> r@[i] == s[#[trigger] perm[i]],
            sorted_by_time(r@, descending),
            forall|i: int, j: int|
                0 <= i < j < k && r@[i].time_key() == r@[j].time_key() ==> perm[i] < perm[j],
        decreases src@.len(),
    {
        let x = src.remove(0);
        let key = x.time_of();
        let mut j: usize = 0;
        while j < r.len()
            invariant
                j <= r@.len(),
                forall|i: int|
                    0 <= i < j ==> if descending {
                        #[trigger] r@[i].time_key() >= key
                    } else {
                        r@[i].time_key() <= key
                    },
            ensures
                j <= r@.len(),
                forall|i: int|
                    0 <= i < j ==> if descending {
                        #[trigger] r@[i].time_key() >= key
                    } else {
                        r@[i].time_key() <= key
                    },
                j < r@.len() ==> if descending {
                    r@[j as int].time_key() < key
                } else {
                    r@[j as int].time_key() > key
                },
            decreases r@.len() - j,
        {
            let kj = r[j].time_of();
            if descending {
                if kj < key {
                    break;
                }
            } else {
                if kj > key {
                    break;
                }
            }
            j = j + 1;
        }
        let ghost old_r = r@;
        let ghost old_perm = perm;
        proof {
            assert(x == s[k as int]);
        }
        r.insert(j, x);
        proof {
            perm = perm.insert(j as int, k as int);
            assert forall|i: int| 0 <= i < k + 1 implies 0 <= #[trigger] perm[i] < k + 1 by {
                if i < j {
                    assert(perm[i] == old_perm[i]);
                } else if i > j {
                    assert(perm[i] == old_perm[i - 1]);
                }
            }
            assert forall|a: int, b: int| 0 <= a < b < k + 1 implies perm[a] != perm[b] by {
                if a < j {
                    assert(perm[a] == old_perm[a]);
                } else if a > j {
                    assert(perm[a] == old_perm[a - 1]);
                }
                if b < j {
                    assert(perm[b] == old_perm[b]);
                } else if b > j {
                    assert(perm[b] == old_perm[b - 1]);
                }
            }
            assert forall|i: int| 0 <= i < k + 1 implies r@[i] == s[#[trigger] perm[i]] by {
                if i < j {
                    assert(perm[i] == old_perm[i]);
                    assert(r@[i] == old_r[i]);
                } else if i > j {
                    assert(perm[i] == old_perm[i - 1]);
                    assert(r@[i] == old_r[i - 1]);
                }
            }
            assert forall|a: int, b: int| 0 <= a < b < r@.len() implies if descending {
                r@[a].time_key() >= r@[b].time_key()
            } else {
                r@[a].time_key() <= r@[b].time_key()
            } by {
                if a < j && b < j {
                    assert(r@[a] == old_r[a] && r@[b] == old_r[b]);
                } else if a < j && b == j {
                    assert(r@[a] == old_r[a]);
                } else if a < j && b > j {
                    assert(r@[a] == old_r[a] && r@[b] == old_r[b - 1]);
                    if b - 1 > j {
                        assert(sorted_by_time(old_r, descending));
                        assert(if descending {
                            old_r[j as int].time_key() >= old_r[b - 1].time_key()
                        } else {
                            old_r[j as int].time_key() <= old_r[b - 1].time_key()
                        });
                    }
                } else if a == j {
                    assert(r@[b] == old_r[b - 1]);
                    if b - 1 > j {
                        assert(if descending {
                            old_r[j as int].time_key() >= old_r[b - 1].time_key()
                        } else {
                            old_r[j as int].time_key() <= old_r[b - 1].time_key()
                        });
                    }
                } else {
                    assert(r@[a] == old_r[a - 1] && r@[b] == old_r[b - 1]);
                }
            }
            assert forall|a: int, b: int|
                0 <= a < b < k + 1 && r@[a].time_key() == r@[b].time_key() implies perm[a]
                < perm[b] by {
                if a < j && b < j {
                    assert(r@[a] == old_r[a] && r@[b] == old_r[b]);
                    assert(perm[a] == old_perm[a] && perm[b] == old_perm[b]);
                } else if a < j && b == j {
                    assert(perm[a] == old_perm[a]);
                } else if a < j && b > j {
                    assert(r@[a] == old_r[a] && r@[b] == old_r[b - 1]);
                    assert(perm[a] == old_perm[a] && perm[b] == old_perm[b - 1]);
                    if b - 1 > j {
                        assert(if descending {
                            old_r[j as int].time_key() >= old_r[b - 1].time_key()
                        } else {
                            old_r[j as int].time_key() <= old_r[b - 1].time_key()
                        });
                    }
                } else if a == j {
                    assert(r@[b] == old_r[b - 1]);
                    if b - 1 > j {
                        assert(if descending {
                            old_r[j as int].time_key() >= old_r[b - 1].time_key()
                        } else {
                            old_r[j as int].time_key() <= old_r[b - 1].time_key()
                        });
                    }
                } else {
                    assert(r@[a] == old_r[a - 1] && r@[b] == old_r[b - 1]);
                    assert(perm[a] == old_perm[a - 1] && perm[b] == old_perm[b - 1]);
                }
            }
        }
        k = k + 1;
        proof {
            assert(src@ =~= s.subrange(k as int, s.len() as int));
        }
    }
    proof {
        assert(sorted_with(s, r@, perm, descending));
    }
    r
}

} // verus!
