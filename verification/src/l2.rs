//! The multi-port, fully associative L2 cache with FIFO replacement and
//! static-priority miss arbitration toward the single-port L3.

use vstd::prelude::*;

use crate::block::Block;
use crate::l3::{l3_step, L3Cache};
use crate::vec3i::Vec3i;

verus! {

/// One cache line: a voxel coordinate and the block stored under it.
#[derive(Clone, Copy, Debug, PartialEq, Eq, Structural)]
pub struct L2Entry {
    pub key: Vec3i,
    pub value: Block,
}

/// The block a full scan of the entries yields for `key`: every matching
/// entry overwrites the previous one, so the last match wins; `None` when no
/// entry matches.
pub open spec fn l2_lookup(entries: Seq<Option<L2Entry>>, key: Vec3i) -> Option<Block>
    decreases entries.len(),
{
    if entries.len() == 0 {
        None
    } else {
        match entries.last() {
            Some(e) => if e.key == key {
                Some(e.value)
            } else {
                l2_lookup(entries.drop_last(), key)
            },
            None => l2_lookup(entries.drop_last(), key),
        }
    }
}

/// How many of the flags are set.
pub open spec fn count_true(s: Seq<bool>) -> int
    decreases s.len(),
{
    if s.len() == 0 {
        0
    } else {
        count_true(s.drop_last()) + if s.last() {
            1int
        } else {
            0int
        }
    }
}

/// A `P`-port, fully associative cache in front of the L3, shared by all the
/// traversal units; port `i` of a unit drives `addr_in[i]` and
/// `read_enable_in[i]` and watches `voxel_out[i]` / `valid_out[i]`.
pub struct L2Cache {
    /// Reset the cache to a known state on the next tick.
    pub reset: bool,
    /// Voxel index queried by each port.
    pub addr_in: Vec<Vec3i>,
    /// Whether each port's `addr_in` should actually be queried.
    pub read_enable_in: Vec<bool>,
    /// Voxel data answered to each port.
    pub voxel_out: Vec<Block>,
    /// Whether each port's `voxel_out` answers its `addr_in`.
    pub valid_out: Vec<bool>,
    /// The next cache level; only this cache drives its inputs.
    pub l3: L3Cache,
    /// The cache lines.
    pub entries: Vec<Option<L2Entry>>,
    /// The line that the next fill from L3 overwrites (FIFO replacement).
    pub next_replacement: usize,
    /// Benchmark counter: enabled port reads seen since the last counter
    /// reset.
    pub accesses: u64,
    /// Benchmark counter: enabled port reads that hit.
    pub hits: u64,
}

/// Whether port `i` hits this tick: it must be enabled and some entry must
/// hold its address.
pub open spec fn l2_port_valid(pre: L2Cache, i: int) -> bool {
    pre.read_enable_in@[i] && l2_lookup(pre.entries@, pre.addr_in@[i]) is Some
}

/// The voxel answered to port `i` this tick: the stored block on a hit, the
/// previous output otherwise.
pub open spec fn l2_port_voxel(pre: L2Cache, i: int) -> Block {
    if pre.read_enable_in@[i] {
        match l2_lookup(pre.entries@, pre.addr_in@[i]) {
            Some(b) => b,
            None => pre.voxel_out@[i],
        }
    } else {
        pre.voxel_out@[i]
    }
}

/// The cache lines after the fill phase: a valid L3 answer lands in the
/// FIFO replacement slot.
pub open spec fn l2_filled_entries(pre: L2Cache) -> Seq<Option<L2Entry>> {
    if pre.l3.valid_out {
        pre.entries@.update(
            pre.next_replacement as int,
            Some(L2Entry { key: pre.l3.addr_in, value: pre.l3.voxel_out }),
        )
    } else {
        pre.entries@
    }
}

/// The FIFO pointer after the fill phase.
pub open spec fn l2_next_replacement(pre: L2Cache) -> int {
    if pre.l3.valid_out {
        (pre.next_replacement + 1) % (pre.entries@.len() as int)
    } else {
        pre.next_replacement as int
    }
}

/// The lowest port index at or above `i` whose output is not valid this
/// tick.
pub open spec fn l2_first_miss_from(pre: L2Cache, i: int) -> Option<int>
    decreases pre.addr_in@.len() - i,
{
    if i < 0 || i >= pre.addr_in@.len() {
        None
    } else if !l2_port_valid(pre, i) {
        Some(i)
    } else {
        l2_first_miss_from(pre, i + 1)
    }
}

/// Static-priority arbitration: the lowest port whose output is not valid
/// this tick wins the L3, port 0 first.
pub open spec fn l2_first_miss(pre: L2Cache) -> Option<int> {
    l2_first_miss_from(pre, 0)
}

/// The flags of the ports that hit this tick.
pub open spec fn l2_hit_flags(pre: L2Cache) -> Seq<bool> {
    Seq::new(pre.addr_in@.len(), |i: int| l2_port_valid(pre, i))
}

/// How one rising clock edge transforms the cache. On reset the outputs and
/// every line clear and the FIFO pointer rewinds. Otherwise: each enabled
/// port is answered from the pre-tick lines; a valid L3 answer fills the
/// FIFO slot; and the L3 is driven with the lowest-indexed port whose output
/// stayed invalid, or disabled when every port is valid. The L3's own
/// outputs and backing store are untouched (the owner clocks the L3
/// separately), and the benchmark counters accumulate enabled reads and
/// hits.
pub open spec fn l2_step(pre: L2Cache, post: L2Cache) -> bool {
    &&& post.reset == pre.reset
    &&& post.addr_in == pre.addr_in
    &&& post.read_enable_in == pre.read_enable_in
    &&& if pre.reset {
        &&& post.voxel_out@.len() == pre.addr_in@.len()
        &&& forall|i: int| 0 <= i < post.voxel_out@.len() ==> post.voxel_out@[i] == Block::Air
        &&& post.valid_out@.len() == pre.addr_in@.len()
        &&& forall|i: int| 0 <= i < post.valid_out@.len() ==> !post.valid_out@[i]
        &&& post.entries@.len() == pre.entries@.len()
        &&& forall|i: int| 0 <= i < post.entries@.len() ==> post.entries@[i] is None
        &&& post.next_replacement == 0
        &&& post.l3 == pre.l3
        &&& post.accesses == pre.accesses
        &&& post.hits == pre.hits
    } else {
        &&& post.valid_out@.len() == pre.addr_in@.len()
        &&& forall|i: int|
            0 <= i < post.valid_out@.len() ==> post.valid_out@[i] == l2_port_valid(pre, i)
        &&& post.voxel_out@.len() == pre.addr_in@.len()
        &&& forall|i: int|
            0 <= i < post.voxel_out@.len() ==> post.voxel_out@[i] == l2_port_voxel(pre, i)
        &&& post.entries@ == l2_filled_entries(pre)
        &&& post.next_replacement == l2_next_replacement(pre)
        &&& post.l3.ddr_ram == pre.l3.ddr_ram
        &&& post.l3.reset == pre.l3.reset
        &&& post.l3.voxel_out == pre.l3.voxel_out
        &&& post.l3.valid_out == pre.l3.valid_out
        &&& match l2_first_miss(pre) {
            Some(i) => post.l3.read_enable_in && post.l3.addr_in == pre.addr_in@[i],
            None => !post.l3.read_enable_in && post.l3.addr_in == pre.l3.addr_in,
        }
        &&& post.accesses == vstd::wrapping::u64_specs::wrapping_add(
            pre.accesses,
            count_true(pre.read_enable_in@) as u64,
        )
        &&& post.hits == vstd::wrapping::u64_specs::wrapping_add(
            pre.hits,
            count_true(l2_hit_flags(pre)) as u64,
        )
    }
}

impl L2Cache {
    /// Number of ports.
    pub open spec fn ports(self) -> int {
        self.addr_in@.len() as int
    }

    /// The port vectors agree in length, at least one cache line exists,
    /// the FIFO pointer is in range, and the L3 below is well-formed.
    pub open spec fn wf(self) -> bool {
        &&& self.read_enable_in@.len() == self.ports()
        &&& self.voxel_out@.len() == self.ports()
        &&& self.valid_out@.len() == self.ports()
        &&& self.entries@.len() >= 1
        &&& self.next_replacement < self.entries@.len()
        &&& self.l3.wf()
    }

    /// A quiescent, empty cache with `num_ports` ports and `num_entries`
    /// lines in front of the given L3.
    pub fn new(num_ports: usize, num_entries: usize, l3: L3Cache) -> (r: L2Cache)
        requires
            num_entries >= 1,
            l3.wf(),
        ensures
            r.wf(),
            r.ports() == num_ports,
            r.entries@.len() == num_entries,
            forall|i: int| 0 <= i < num_entries ==> r.entries@[i] is None,
            forall|i: int| 0 <= i < num_ports ==> !r.read_enable_in@[i],
            forall|i: int| 0 <= i < num_ports ==> !r.valid_out@[i],
            forall|i: int| 0 <= i < num_ports ==> r.voxel_out@[i] == Block::Air,
            forall|i: int| 0 <= i < num_ports ==> r.addr_in@[i] == (Vec3i { x: 0, y: 0, z: 0 }),
            r.next_replacement == 0,
            !r.reset,
            r.l3 == l3,
            r.accesses == 0,
            r.hits == 0,
    {
        L2Cache {
            reset: false,
            addr_in: vec![Vec3i { x: 0, y: 0, z: 0 }; num_ports],
            read_enable_in: vec![false; num_ports],
            voxel_out: vec![Block::Air; num_ports],
            valid_out: vec![false; num_ports],
            l3,
            entries: vec![None; num_entries],
            next_replacement: 0,
            accesses: 0,
            hits: 0,
        }
    }

    /// Reset the benchmark counters on demand.
    pub fn benchmark_reset(&mut self)
        ensures
            *final(self) == (L2Cache { accesses: 0, hits: 0, ..*old(self) }),
    {
        self.accesses = 0;
        self.hits = 0;
    }

    /// Combinational read: scan every cache line for `key`, the last match
    /// winning. The clocked per-port path goes through `rising_clk_edge`;
    /// this direct read serves the level above.
    pub fn query(&self, key: Vec3i) -> (r: Option<Block>)
        ensures
            r == l2_lookup(self.entries@, key),
    {
        let mut r: Option<Block> = None;
        let mut i: usize = 0;
        while i < self.entries.len()
            invariant
                i <= self.entries@.len(),
                r == l2_lookup(self.entries@.take(i as int), key),
            decreases self.entries@.len() - i,
        {
            proof {
                assert(self.entries@.take(i + 1).drop_last() =~= self.entries@.take(i as int));
            }
            match self.entries[i] {
                Some(e) => {
                    if e.key.x == key.x && e.key.y == key.y && e.key.z == key.z {
                        r = Some(e.value);
                    }
                },
                None => {},
            }
            i = i + 1;
        }
        proof {
            assert(self.entries@.take(self.entries@.len() as int) =~= self.entries@);
        }
        r
    }

    /// Advance the cache by one clock cycle.
    pub fn rising_clk_edge(&mut self)
        requires
            old(self).wf(),
        ensures
            final(self).wf(),
            l2_step(*old(self), *final(self)),
    {
        if self.reset {
            let p = self.addr_in.len();
            let s = self.entries.len();
            self.voxel_out = vec![Block::Air; p];
            self.valid_out = vec![false; p];
            self.entries = vec![None; s];
            self.next_replacement = 0;
            return;
        }
        let ghost pre = *self;
        let p = self.addr_in.len();

        // Answer each port from the pre-tick cache lines.
        let mut new_valid: Vec<bool> = Vec::new();
        let mut new_voxel: Vec<Block> = Vec::new();
        let mut access_count: u64 = 0;
        let mut hit_count: u64 = 0;
        let mut i: usize = 0;
        while i < p
            invariant
                *self == pre,
                pre.wf(),
                !pre.reset,
                p == pre.addr_in@.len(),
                i <= p,
                new_valid@.len() == i,
                new_voxel@.len() == i,
                forall|j: int| 0 <= j < i ==> new_valid@[j] == l2_port_valid(pre, j),
                forall|j: int| 0 <= j < i ==> new_voxel@[j] == l2_port_voxel(pre, j),
                access_count == count_true(pre.read_enable_in@.take(i as int)),
                hit_count == count_true(l2_hit_flags(pre).take(i as int)),
                access_count <= i,
                hit_count <= i,
            decreases p - i,
        {
            proof {
                assert(pre.read_enable_in@.take(i + 1).drop_last() =~= pre.read_enable_in@.take(
                    i as int,
                ));
                assert(l2_hit_flags(pre).take(i + 1).drop_last() =~= l2_hit_flags(pre).take(
                    i as int,
                ));
            }
            if self.read_enable_in[i] {
                access_count = access_count + 1;
                let found = self.query(self.addr_in[i]);
                match found {
                    Some(b) => {
                        hit_count = hit_count + 1;
                        new_valid.push(true);
                        new_voxel.push(b);
                    },
                    None => {
                        new_valid.push(false);
                        new_voxel.push(self.voxel_out[i]);
                    },
                }
            } else {
                new_valid.push(false);
                new_voxel.push(self.voxel_out[i]);
            }
            i = i + 1;
        }
        proof {
            assert(pre.read_enable_in@.take(p as int) =~= pre.read_enable_in@);
            assert(l2_hit_flags(pre).take(p as int) =~= l2_hit_flags(pre));
        }
        self.valid_out = new_valid;
        self.voxel_out = new_voxel;
        self.accesses = self.accesses.wrapping_add(access_count);
        self.hits = self.hits.wrapping_add(hit_count);

        // Fill phase: a valid L3 answer lands in the FIFO slot.
        if self.l3.valid_out {
            let nr = self.next_replacement;
            self.entries[nr] = Some(L2Entry { key: self.l3.addr_in, value: self.l3.voxel_out });
            let s_len = self.entries.len();
            assert(nr < s_len);
            self.next_replacement = (nr + 1) % s_len;
        }

        // Miss arbitration: the lowest invalid port drives the L3.
        let mut miss: Option<usize> = None;
        let mut k: usize = 0;
        while k < p && miss.is_none()
            invariant
                p == pre.addr_in@.len(),
                k <= p,
                self.valid_out@.len() == p,
                forall|j: int| 0 <= j < p ==> self.valid_out@[j] == l2_port_valid(pre, j),
                forall|j: int| 0 <= j < k ==> l2_port_valid(pre, j),
                match miss {
                    Some(m) => m == k && k < p && !l2_port_valid(pre, k as int),
                    None => true,
                },
            decreases p - k + (if miss is None { 1int } else { 0int }),
        {
            if !self.valid_out[k] {
                miss = Some(k);
            } else {
                k = k + 1;
            }
        }
        proof {
            match miss {
                Some(m) => {
                    lemma_first_miss_found(pre, 0, m as int);
                },
                None => {
                    lemma_first_miss_none(pre, 0);
                },
            }
        }
        match miss {
            Some(m) => {
                self.l3.addr_in = self.addr_in[m];
                self.l3.read_enable_in = true;
            },
            None => {
                self.l3.read_enable_in = false;
            },
        }
    }
}

/// If every port below `m` is valid and `m` misses, the arbitration scan
/// from any index at or below `m` picks `m`.
proof fn lemma_first_miss_found(pre: L2Cache, k: int, m: int)
    requires
        0 <= k <= m < pre.addr_in@.len(),
        !l2_port_valid(pre, m),
        forall|j: int| 0 <= j < m ==> l2_port_valid(pre, j),
    ensures
        l2_first_miss_from(pre, k) == Some(m),
    decreases m - k,
{
    if k < m {
        lemma_first_miss_found(pre, k + 1, m);
    }
}

/// If every port is valid, the arbitration scan finds no miss.
proof fn lemma_first_miss_none(pre: L2Cache, k: int)
    requires
        0 <= k,
        forall|j: int| 0 <= j < pre.addr_in@.len() ==> l2_port_valid(pre, j),
    ensures
        l2_first_miss_from(pre, k) is None,
    decreases pre.addr_in@.len() - k,
{
    if k < pre.addr_in@.len() {
        lemma_first_miss_none(pre, k + 1);
    }
}

} // verus!

verus! {

/// A scan over lines that are all empty finds nothing.
proof fn lemma_lookup_all_empty(entries: Seq<Option<L2Entry>>, key: Vec3i)
    requires
        forall|i: int| 0 <= i < entries.len() ==> entries[i] is None,
    ensures
        l2_lookup(entries, key) is None,
    decreases entries.len(),
{
    if entries.len() > 0 {
        lemma_lookup_all_empty(entries.drop_last(), key);
    }
}

/// One combined cycle of the cache pair as the owner clocks it: the L2
/// first, then the L3 below it.
pub open spec fn l2_l3_tick(pre: L2Cache, post: L2Cache) -> bool {
    exists|mid: L2Cache, l3p: L3Cache|
        l2_step(pre, mid) && l3_step(mid.l3, l3p) && post == (L2Cache { l3: l3p, ..mid })
}

/// Law: a read that hits in the cache is answered with `valid_out` high on
/// the very next tick, carrying the stored block; and when every port hits,
/// the cache leaves the L3 alone (no lower-level traffic).
pub proof fn lemma_hit_answers_next_tick(pre: L2Cache, post: L2Cache, i: int)
    requires
        !pre.reset,
        0 <= i < pre.ports(),
        pre.read_enable_in@[i],
        l2_lookup(pre.entries@, pre.addr_in@[i]) is Some,
        l2_step(pre, post),
    ensures
        post.valid_out@[i],
        Some(post.voxel_out@[i]) == l2_lookup(pre.entries@, pre.addr_in@[i]),
        (forall|j: int| 0 <= j < pre.ports() ==> l2_port_valid(pre, j)) ==> !post.l3.read_enable_in,
{
    assert(l2_port_valid(pre, i));
    assert(post.valid_out@[i] == l2_port_valid(pre, i));
    assert(post.voxel_out@[i] == l2_port_voxel(pre, i));
    if forall|j: int| 0 <= j < pre.ports() ==> l2_port_valid(pre, j) {
        lemma_first_miss_none(pre, 0);
    }
}

/// Law: a reset tick empties every line, so a read on any port on the
/// following tick (with any addresses driven, while the L3 holds no answer
/// to fill from) misses. `s1` is the cache after the reset tick with the
/// next tick's inputs driven; `s2` is the state that next tick produces.
pub proof fn lemma_read_after_reset_misses(r: L2Cache, s0: L2Cache, s1: L2Cache, s2: L2Cache, i: int)
    requires
        r.reset,
        l2_step(r, s0),
        !s1.reset,
        !s1.l3.valid_out,
        s1.entries@ == s0.entries@,
        0 <= i < s1.ports(),
        l2_step(s1, s2),
    ensures
        !s2.valid_out@[i],
{
    lemma_lookup_all_empty(s1.entries@, s1.addr_in@[i]);
    assert(!l2_port_valid(s1, i));
    assert(s2.valid_out@[i] == l2_port_valid(s1, i));
}

} // verus!

verus! {

/// Inserting the key's line into a cache that does not hold it makes the
/// scan find exactly that line.
proof fn lemma_lookup_update_hit(entries: Seq<Option<L2Entry>>, k: int, e: L2Entry, key: Vec3i)
    requires
        0 <= k < entries.len(),
        e.key == key,
        l2_lookup(entries, key) is None,
    ensures
        l2_lookup(entries.update(k, Some(e)), key) == Some(e.value),
    decreases entries.len(),
{
    let u = entries.update(k, Some(e));
    if k == entries.len() - 1 {
        assert(u.last() == Some(e));
    } else {
        assert(u.last() == entries.last());
        assert(u.drop_last() =~= entries.drop_last().update(k, Some(e)));
        lemma_lookup_update_hit(entries.drop_last(), k, e, key);
    }
}

/// Law: under static priority, port 0 never starves. If port 0 is enabled
/// and misses while the L3 is quiet, then within three combined cache ticks
/// its `valid_out` rises, answering with the chunk's block for its address
/// (`Air` outside the chunk). The tick relation holds the inputs stable, as
/// callers awaiting `valid_out` must.
pub proof fn lemma_port0_progress(s0: L2Cache, s1: L2Cache, s2: L2Cache, s3: L2Cache)
    requires
        s0.wf(),
        !s0.reset,
        !s0.l3.reset,
        s0.ports() >= 1,
        s0.read_enable_in@[0],
        l2_lookup(s0.entries@, s0.addr_in@[0]) is None,
        !s0.l3.valid_out,
        l2_l3_tick(s0, s1),
        l2_l3_tick(s1, s2),
        l2_l3_tick(s2, s3),
    ensures
        s3.valid_out@[0],
        s3.voxel_out@[0] == crate::chunk::chunk_query_or_air(
            s0.l3.ddr_ram.blocks(),
            s0.addr_in@[0],
        ),
{
    let a = s0.addr_in@[0];
    let (m1, p1) = choose|m: L2Cache, p: L3Cache|
        l2_step(s0, m) && l3_step(m.l3, p) && s1 == (L2Cache { l3: p, ..m });
    lemma_first_miss_found(s0, 0, 0);
    assert(m1.l3.read_enable_in && m1.l3.addr_in == a);
    assert(p1.valid_out && p1.voxel_out == crate::chunk::chunk_query_or_air(
        s0.l3.ddr_ram.blocks(),
        a,
    ));
    assert(s1.entries@ == s0.entries@);
    assert(s1.addr_in@[0] == a && s1.read_enable_in@[0]);

    let (m2, p2) = choose|m: L2Cache, p: L3Cache|
        l2_step(s1, m) && l3_step(m.l3, p) && s2 == (L2Cache { l3: p, ..m });
    lemma_first_miss_found(s1, 0, 0);
    let nr = s1.next_replacement as int;
    let line = L2Entry { key: a, value: p1.voxel_out };
    assert(m2.entries@ == s1.entries@.update(nr, Some(line)));
    lemma_lookup_update_hit(s1.entries@, nr, line, a);
    assert(l2_lookup(s2.entries@, a) == Some(line.value));
    assert(s2.addr_in@[0] == a && s2.read_enable_in@[0]);

    let (m3, p3) = choose|m: L2Cache, p: L3Cache|
        l2_step(s2, m) && l3_step(m.l3, p) && s3 == (L2Cache { l3: p, ..m });
    assert(l2_port_valid(s2, 0));
    assert(m3.valid_out@[0] == l2_port_valid(s2, 0));
    assert(m3.voxel_out@[0] == l2_port_voxel(s2, 0));
}

} // verus!
