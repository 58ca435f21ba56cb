use crate::util::random_int_range;
use vstd::prelude::*;
use vstd::seq_lib::to_multiset_update;

verus! {

/// Number of lattice gradients, and length of each permutation table.
pub const POINT_COUNT: usize = 256;

/// The identity arrangement `0, 1, ..., n - 1`.
pub open spec fn identity_seq(n: nat) -> Seq<i32> {
    Seq::new(n, |i: int| i as i32)
}

/// `p` holds each of `0 .. POINT_COUNT` exactly once.
pub open spec fn is_perm_table(p: Seq<i32>) -> bool {
    &&& p.len() == POINT_COUNT
    &&& p.to_multiset() == identity_seq(POINT_COUNT as nat).to_multiset()
    &&& p.no_duplicates()
    &&& forall|i: int| 0 <= i < p.len() ==> 0 <= #[trigger] p[i] < POINT_COUNT
}

/// Swapping two entries keeps the multiset of entries.
proof fn lemma_swap_multiset(s: Seq<i32>, i: int, j: int)
    requires
        0 <= i < s.len(),
        0 <= j < s.len(),
    ensures
        s.update(i, s[j]).update(j, s[i]).to_multiset() == s.to_multiset(),
{
    broadcast use vstd::multiset::group_multiset_axioms;

    let s1 = s.update(i, s[j]);
    to_multiset_update(s, i, s[j]);
    to_multiset_update(s1, j, s[i]);
    if i == j {
        assert(s.update(i, s[j]) =~= s);
        assert(s1.update(j, s[i]) =~= s);
    } else {
        broadcast use vstd::seq_lib::group_to_multiset_ensures;

        assert(s1[j] == s[j]);
        assert(s.contains(s[i]));
        assert(s.to_multiset().count(s[i]) > 0);
        assert(s1.to_multiset().insert(s[i]).remove(s[j]) =~= s.to_multiset());
    }
}

/// `s` with entries `i` and `j` exchanged.
pub open spec fn swap_entries(s: Seq<i32>, i: int, j: int) -> Seq<i32> {
    s.update(i, s[j]).update(j, s[i])
}

/// Swap targets for shuffling the first `n` entries: position `i` may only
/// swap with a position at or below it.
pub open spec fn valid_targets(targets: Seq<usize>, n: nat) -> bool {
    &&& targets.len() >= n
    &&& forall|i: int| 1 <= i < n ==> #[trigger] targets[i] <= i
}

/// Fisher-Yates on the first `n` entries: position `n - 1` swaps with
/// `targets[n - 1]`, then position `n - 2` with `targets[n - 2]`, and so on
/// down to position 1.
pub open spec fn fisher_yates(s: Seq<i32>, n: int, targets: Seq<usize>) -> Seq<i32>
    decreases n,
{
    if n <= 1 {
        s
    } else {
        fisher_yates(swap_entries(s, n - 1, targets[n - 1] as int), n - 1, targets)
    }
}

/// Shuffles the first `n` entries of `p` with the given swap targets, as
/// `fisher_yates` says. The entries from `n` on stay where they are.
pub fn permute_with(p: &mut [i32; POINT_COUNT], n: usize, targets: &Vec<usize>)
    requires
        n <= POINT_COUNT,
        valid_targets(targets@, n as nat),
    ensures
        final(p)@ == fisher_yates(old(p)@, n as int, targets@),
        final(p)@.to_multiset() == old(p)@.to_multiset(),
        forall|k: int| n <= k < POINT_COUNT ==> final(p)@[k] == old(p)@[k],
{
    let mut i: usize = n;
    while i > 1
        invariant
            i <= n <= POINT_COUNT,
            valid_targets(targets@, n as nat),
            p@.len() == POINT_COUNT,
            fisher_yates(p@, i as int, targets@) == fisher_yates(old(p)@, n as int, targets@),
            p@.to_multiset() == old(p)@.to_multiset(),
            forall|k: int| n <= k < POINT_COUNT ==> p@[k] == old(p)@[k],
        decreases i,
    {
        i = i - 1;
        let target = targets[i];
        assert(target <= i);
        let ghost before = p@;
        let a = p[i];
        let b = p[target];
        p[i] = b;
        p[target] = a;
        proof {
            lemma_swap_multiset(before, i as int, target as int);
            assert(p@ =~= swap_entries(before, i as int, target as int));
        }
    }
}

/// Shuffles the first `n` entries of `p` in place: each position from the
/// top down swaps with a uniformly drawn position at or below it. Whatever
/// was drawn, the result is that Fisher-Yates shuffle for some valid targets.
pub fn permute(p: &mut [i32; POINT_COUNT], n: usize)
    requires
        n <= POINT_COUNT,
    ensures
        exists|targets: Seq<usize>|
            valid_targets(targets, n as nat) && final(p)@ == fisher_yates(
                old(p)@,
                n as int,
                targets,
            ),
        final(p)@.to_multiset() == old(p)@.to_multiset(),
        forall|k: int| n <= k < POINT_COUNT ==> final(p)@[k] == old(p)@[k],
{
    let mut targets: Vec<usize> = Vec::new();
    let mut k: usize = 0;
    while k < n
        invariant
            k <= n <= POINT_COUNT,
            targets@.len() == k,
            forall|m: int| 0 <= m < k ==> #[trigger] targets@[m] == 0,
        decreases n - k,
    {
        targets.push(0);
        k = k + 1;
    }
    let mut i: usize = n;
    while i > 1
        invariant
            i <= n <= POINT_COUNT,
            targets@.len() == n,
            forall|m: int| 0 <= m < n ==> #[trigger] targets@[m] <= m,
        decreases i,
    {
        i = i - 1;
        let target = random_int_range(0, i as i32) as usize;
        targets.set(i, target);
    }
    permute_with(p, n, &targets);
}

/// A fresh random permutation of `0 .. POINT_COUNT`.
pub fn perlin_generate_perm() -> (r: [i32; POINT_COUNT])
    ensures
        is_perm_table(r@),
{
    let mut p: [i32; POINT_COUNT] = [0i32; POINT_COUNT];
    let mut i: usize = 0;
    while i < POINT_COUNT
        invariant
            i <= POINT_COUNT,
            p@.len() == POINT_COUNT,
            forall|k: int| 0 <= k < i ==> p@[k] == k as i32,
        decreases POINT_COUNT - i,
    {
        p[i] = i as i32;
        i = i + 1;
    }
    let ghost ident = identity_seq(POINT_COUNT as nat);
    assert(p@ =~= ident);
    permute(&mut p, POINT_COUNT);
    proof {
        lemma_identity_table(POINT_COUNT as nat);
        lemma_same_multiset_table(ident, p@);
    }
    p
}

proof fn lemma_identity_table(n: nat)
    requires
        n <= POINT_COUNT,
    ensures
        identity_seq(n).no_duplicates(),
{
}

/// A sequence with the same multiset as the identity table is itself a table.
proof fn lemma_same_multiset_table(ident: Seq<i32>, s: Seq<i32>)
    requires
        ident == identity_seq(POINT_COUNT as nat),
        ident.no_duplicates(),
        s.to_multiset() == ident.to_multiset(),
    ensures
        is_perm_table(s),
{
    broadcast use vstd::seq_lib::group_to_multiset_ensures;

    ident.lemma_multiset_has_no_duplicates();
    s.lemma_multiset_has_no_duplicates_conv();
    assert(s.len() == ident.len()) by {
        s.to_multiset_ensures();
        ident.to_multiset_ensures();
    }
    assert forall|i: int| 0 <= i < s.len() implies 0 <= #[trigger] s[i] < POINT_COUNT by {
        assert(s.to_multiset().count(s[i]) > 0);
        assert(ident.contains(s[i]));
    }
}

/// The lattice coordinate `c` folded onto a table position.
pub open spec fn wrap_index(c: i32) -> int {
    (c & 255) as int
}

/// The three permutation tables that hash an integer lattice corner onto one
/// of the `POINT_COUNT` gradients of a noise generator.
pub struct PermTables {
    pub perm_x: [i32; POINT_COUNT],
    pub perm_y: [i32; POINT_COUNT],
    pub perm_z: [i32; POINT_COUNT],
}

impl PermTables {
    /// Each table holds every position exactly once.
    pub open spec fn wf(&self) -> bool {
        &&& is_perm_table(self.perm_x@)
        &&& is_perm_table(self.perm_y@)
        &&& is_perm_table(self.perm_z@)
    }

    /// The gradient slot of lattice corner `(i, j, k)`.
    pub open spec fn spec_lattice_index(&self, i: i32, j: i32, k: i32) -> int {
        (self.perm_x@[wrap_index(i)] ^ self.perm_y@[wrap_index(j)] ^ self.perm_z@[wrap_index(
            k,
        )]) as int
    }

    /// Three independent random tables.
    pub fn new() -> (r: PermTables)
        ensures
            r.wf(),
    {
        let perm_x = perlin_generate_perm();
        let perm_y = perlin_generate_perm();
        let perm_z = perlin_generate_perm();
        PermTables { perm_x, perm_y, perm_z }
    }

    /// Hashes lattice corner `(i, j, k)`: each coordinate is taken modulo
    /// `POINT_COUNT` (two's complement, so negative corners wrap too), looked
    /// up in its own table, and the three entries are combined by `^`.
    pub fn lattice_index(&self, i: i32, j: i32, k: i32) -> (r: usize)
        requires
            self.wf(),
        ensures
            r < POINT_COUNT,
            r as int == self.spec_lattice_index(i, j, k),
    {
        let ii = (i & 255) as usize;
        let jj = (j & 255) as usize;
        let kk = (k & 255) as usize;
        assert(0 <= (i & 255) < 256) by (bit_vector);
        assert(0 <= (j & 255) < 256) by (bit_vector);
        assert(0 <= (k & 255) < 256) by (bit_vector);
        let a = self.perm_x[ii];
        let b = self.perm_y[jj];
        let c = self.perm_z[kk];
        assert(0 <= a < 256);
        assert(0 <= b < 256);
        assert(0 <= c < 256);
        let h = a ^ b ^ c;
        assert(0 <= h < 256) by (bit_vector)
            requires
                0 <= a < 256,
                0 <= b < 256,
                0 <= c < 256,
                h == a ^ b ^ c,
        ;
        h as usize
    }
}

} // verus!
