use crate::config::FIRST_WORKER_PORT;
use vstd::prelude::*;
use vstd::relations::{sorted_by, total_ordering};

verus! {

broadcast use vstd::seq_lib::group_to_multiset_ensures;

/// Ports in ascending order.
pub open spec fn port_order() -> spec_fn(u16, u16) -> bool {
    |a: u16, b: u16| a <= b
}

/// The ports in use, in ascending order.
pub open spec fn ascending(ports: Seq<u16>) -> Seq<u16> {
    ports.sort_by(port_order())
}

/// Ports ordered by `<=` form a total order.
proof fn lemma_port_order_total()
    ensures
        total_ordering(port_order()),
{
    let le = port_order();
    assert(vstd::relations::reflexive(le));
    assert(vstd::relations::antisymmetric(le));
    assert(vstd::relations::transitive(le));
    assert(vstd::relations::strongly_connected(le));
}

/// A copy of `ports` in ascending order.
fn sorted_copy(ports: &[u16]) -> (s: Vec<u16>)
    ensures
        sorted_by(s@, port_order()),
        s@.to_multiset() == ports@.to_multiset(),
{
    let mut s: Vec<u16> = Vec::new();
    let mut i: usize = 0;
    while i < ports.len()
        invariant
            i <= ports@.len(),
            sorted_by(s@, port_order()),
            s@.to_multiset() == ports@.take(i as int).to_multiset(),
        decreases ports@.len() - i,
    {
        let x = ports[i];
        let mut j: usize = 0;
        while j < s.len() && s[j] <= x
            invariant
                j <= s@.len(),
                forall|k: int| 0 <= k < j ==> s@[k] <= x,
            decreases s@.len() - j,
        {
            j = j + 1;
        }
        let ghost before = s@;
        s.insert(j, x);
        proof {
            assert(s@ =~= before.insert(j as int, x));
            assert forall|a: int, b: int| 0 <= a < b < s@.len() implies #[trigger] (port_order())(
                s@[a],
                s@[b],
            ) by {
                if j < before.len() {
                    assert(before[j as int] > x);
                }
                if a < j && b > j {
                    assert(before[a] <= x);
                } else if a == j && b > j {
                    assert(before[b - 1] >= before[j as int]) by {
                        if b - 1 > j {
                            assert((port_order())(before[j as int], before[b - 1]));
                        }
                    }
                } else if a < j && b == j {
                    assert(before[a] <= x);
                } else if a > j {
                    assert((port_order())(before[a - 1], before[b - 1]));
                } else {
                    assert((port_order())(before[a], before[b]));
                }
            }
            assert(ports@.take(i + 1) =~= ports@.take(i as int).push(x));
        }
        i = i + 1;
    }
    assert(ports@.take(ports@.len() as int) =~= ports@);
    s
}

/// The first port from `FIRST_WORKER_PORT` on at which the ports in use,
/// taken in ascending order, stop running one after the other.
pub fn next_port(used_ports: &[u16]) -> (port: u32)
    ensures
        ({
            let s = ascending(used_ports@);
            let k = port - FIRST_WORKER_PORT;
            &&& FIRST_WORKER_PORT <= port
            &&& k <= s.len()
            &&& forall|j: int| 0 <= j < k ==> s[j] == FIRST_WORKER_PORT + j
            &&& k < s.len() ==> s[k] != port
        }),
{
    let used = sorted_copy(used_ports);
    proof {
        lemma_port_order_total();
        used_ports@.lemma_sort_by_ensures(port_order());
        vstd::seq_lib::lemma_sorted_unique(used@, ascending(used_ports@), port_order());
    }
    let mut port: u32 = FIRST_WORKER_PORT as u32;
    let mut k: usize = 0;
    while k < used.len()
        invariant
            k <= used@.len(),
            used@ == ascending(used_ports@),
            port == FIRST_WORKER_PORT + k,
            forall|j: int| 0 <= j < k ==> used@[j] == FIRST_WORKER_PORT + j,
        decreases used@.len() - k,
    {
        if used[k] as u32 != port {
            return port;
        }
        port = port + 1;
        k = k + 1;
    }
    port
}

} // verus!
