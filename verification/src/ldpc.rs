//! The parity checks of the (174,91) code: the graph of checks and
//! variables, the test that a codeword meets every check, and what the
//! decoder does after each round of belief propagation.

use vstd::prelude::*;

verus! {

/// What stands in the seventh place of a check that has six variables.
pub const ABSENT: u8 = 255;

/// The graph of the code in four tables.
///
/// `nm[c]` lists the variables of check `c`; `nmc[c][i]` says which of the
/// three places of variable `nm[c][i]` the check `c` takes. `mn[v]` lists
/// the three checks of variable `v`; `mnv[v][k]` says which place of check
/// `mn[v][k]` the variable `v` takes.
#[derive(Debug, Clone, Copy)]
pub struct ParityGraph {
    pub nm: [[u8; 7]; 83],
    pub nmc: [[u8; 7]; 83],
    pub mn: [[u8; 3]; 174],
    pub mnv: [[u8; 3]; 174],
}

/// Whether an odd number of the first `upto` variables of a check are set
/// in `codeword`; an absent variable counts as not set.
pub open spec fn row_parity(row: Seq<u8>, codeword: Seq<bool>, upto: int) -> bool
    decreases upto,
{
    if upto <= 0 {
        false
    } else {
        row_parity(row, codeword, upto - 1) != (row[upto - 1] != ABSENT && codeword[row[upto
            - 1] as int])
    }
}

/// No bit of `codeword` is set.
pub open spec fn all_zero(codeword: Seq<bool>) -> bool {
    forall|i: int| 0 <= i < codeword.len() ==> !codeword[i]
}

impl ParityGraph {
    /// Place `i` of check `c` is in order: it holds a variable and one of
    /// its three places, and that place of the variable leads back here; or
    /// it is the seventh place and absent.
    pub open spec fn edge_ok(&self, c: int, i: int) -> bool {
        if self.nm[c][i] < 174 {
            &&& self.nmc[c][i] < 3
            &&& self.mn[self.nm[c][i] as int][self.nmc[c][i] as int] == c
            &&& self.mnv[self.nm[c][i] as int][self.nmc[c][i] as int] == i
        } else {
            i == 6 && self.nm[c][i] == ABSENT
        }
    }

    /// Place `k` of variable `v` is in order: it holds a check and one of
    /// its seven places, and that place of the check leads back here.
    pub open spec fn slot_ok(&self, v: int, k: int) -> bool {
        &&& self.mn[v][k] < 83
        &&& self.mnv[v][k] < 7
        &&& self.nm[self.mn[v][k] as int][self.mnv[v][k] as int] == v
        &&& self.nmc[self.mn[v][k] as int][self.mnv[v][k] as int] == k
    }

    /// The four tables describe one graph: every place of every check and
    /// of every variable is in order.
    pub open spec fn wf(&self) -> bool {
        &&& forall|c: int, i: int| 0 <= c < 83 && 0 <= i < 7 ==> #[trigger] self.edge_ok(c, i)
        &&& forall|v: int, k: int| 0 <= v < 174 && 0 <= k < 3 ==> #[trigger] self.slot_ok(v, k)
    }

    /// Check `c` fails on `codeword`: an odd number of its variables are
    /// set.
    pub open spec fn check_fails(&self, codeword: Seq<bool>, c: int) -> bool {
        row_parity(self.nm[c]@, codeword, 7)
    }

    /// Every check holds on `codeword`: its variables add up to zero.
    pub open spec fn parity_holds(&self, codeword: Seq<bool>) -> bool {
        forall|c: int| 0 <= c < 83 ==> !#[trigger] self.check_fails(codeword, c)
    }

    /// The four tables stand in `numbers` one behind the other, each row by
    /// row: `nm`, `nmc`, `mn`, `mnv`.
    pub open spec fn laid_out(&self, numbers: Seq<u8>) -> bool {
        &&& numbers.len() == 2206
        &&& forall|c: int, i: int|
            0 <= c < 83 && 0 <= i < 7 ==> #[trigger] self.nm[c][i] == numbers[7 * c + i]
        &&& forall|c: int, i: int|
            0 <= c < 83 && 0 <= i < 7 ==> #[trigger] self.nmc[c][i] == numbers[581 + 7 * c + i]
        &&& forall|v: int, k: int|
            0 <= v < 174 && 0 <= k < 3 ==> #[trigger] self.mn[v][k] == numbers[1162 + 3 * v + k]
        &&& forall|v: int, k: int|
            0 <= v < 174 && 0 <= k < 3 ==> #[trigger] self.mnv[v][k] == numbers[1684 + 3 * v + k]
    }

    /// The graph whose tables stand in `numbers`; `None` where the count of
    /// the numbers is wrong or the tables do not describe one graph.
    pub fn from_numbers(numbers: &[u8]) -> (graph: Option<ParityGraph>)
        ensures
            match graph {
                Some(g) => g.laid_out(numbers@) && g.wf(),
                None => forall|g: ParityGraph| g.laid_out(numbers@) ==> !g.wf(),
            },
    {
        if numbers.len() != 2206 {
            return None;
        }
        let mut graph = ParityGraph {
            nm: [[0u8; 7]; 83],
            nmc: [[0u8; 7]; 83],
            mn: [[0u8; 3]; 174],
            mnv: [[0u8; 3]; 174],
        };
        let mut c: usize = 0;
        while c < 83
            invariant
                c <= 83,
                numbers@.len() == 2206,
                forall|d: int, i: int|
                    0 <= d < c && 0 <= i < 7 ==> #[trigger] graph.nm[d][i] == numbers@[7 * d + i],
                forall|d: int, i: int|
                    0 <= d < c && 0 <= i < 7 ==> #[trigger] graph.nmc[d][i] == numbers@[581 + 7 * d
                        + i],
            decreases 83 - c,
        {
            let mut row = [0u8; 7];
            let mut places = [0u8; 7];
            let mut i: usize = 0;
            while i < 7
                invariant
                    i <= 7,
                    c < 83,
                    numbers@.len() == 2206,
                    forall|j: int| 0 <= j < i ==> row@[j] == numbers@[7 * c + j],
                    forall|j: int| 0 <= j < i ==> places@[j] == numbers@[581 + 7 * c + j],
                decreases 7 - i,
            {
                row[i] = numbers[7 * c + i];
                places[i] = numbers[581 + 7 * c + i];
                i += 1;
            }
            graph.nm[c] = row;
            graph.nmc[c] = places;
            c += 1;
        }
        let mut v: usize = 0;
        while v < 174
            invariant
                v <= 174,
                numbers@.len() == 2206,
                forall|d: int, i: int|
                    0 <= d < 83 && 0 <= i < 7 ==> #[trigger] graph.nm[d][i] == numbers@[7 * d + i],
                forall|d: int, i: int|
                    0 <= d < 83 && 0 <= i < 7 ==> #[trigger] graph.nmc[d][i] == numbers@[581 + 7 * d
                        + i],
                forall|w: int, k: int|
                    0 <= w < v && 0 <= k < 3 ==> #[trigger] graph.mn[w][k] == numbers@[1162 + 3 * w
                        + k],
                forall|w: int, k: int|
                    0 <= w < v && 0 <= k < 3 ==> #[trigger] graph.mnv[w][k] == numbers@[1684 + 3 * w
                        + k],
            decreases 174 - v,
        {
            let mut row = [0u8; 3];
            let mut places = [0u8; 3];
            let mut k: usize = 0;
            while k < 3
                invariant
                    k <= 3,
                    v < 174,
                    numbers@.len() == 2206,
                    forall|j: int| 0 <= j < k ==> row@[j] == numbers@[1162 + 3 * v + j],
                    forall|j: int| 0 <= j < k ==> places@[j] == numbers@[1684 + 3 * v + j],
                decreases 3 - k,
            {
                row[k] = numbers[1162 + 3 * v + k];
                places[k] = numbers[1684 + 3 * v + k];
                k += 1;
            }
            graph.mn[v] = row;
            graph.mnv[v] = places;
            v += 1;
        }
        if graph.is_well_formed() {
            Some(graph)
        } else {
            proof {
                assert forall|g: ParityGraph| g.laid_out(numbers@) implies !g.wf() by {
                    lemma_one_layout(graph, g, numbers@);
                }
            }
            None
        }
    }

    /// Tests that the four tables describe one graph.
    pub fn is_well_formed(&self) -> (ok: bool)
        ensures
            ok == self.wf(),
    {
        let mut c: usize = 0;
        while c < 83
            invariant
                c <= 83,
                forall|d: int, i: int| 0 <= d < c && 0 <= i < 7 ==> #[trigger] self.edge_ok(d, i),
            decreases 83 - c,
        {
            let mut i: usize = 0;
            while i < 7
                invariant
                    i <= 7,
                    c < 83,
                    forall|j: int| 0 <= j < i ==> #[trigger] self.edge_ok(c as int, j),
                decreases 7 - i,
            {
                let var = self.nm[c][i];
                let ok = if var < 174 {
                    let place = self.nmc[c][i];
                    place < 3 && self.mn[var as usize][place as usize] as usize == c
                        && self.mnv[var as usize][place as usize] as usize == i
                } else {
                    i == 6 && var == ABSENT
                };
                if !ok {
                    assert(!self.edge_ok(c as int, i as int));
                    return false;
                }
                i += 1;
            }
            c += 1;
        }
        let mut v: usize = 0;
        while v < 174
            invariant
                v <= 174,
                forall|d: int, i: int| 0 <= d < 83 && 0 <= i < 7 ==> #[trigger] self.edge_ok(d, i),
                forall|w: int, k: int| 0 <= w < v && 0 <= k < 3 ==> #[trigger] self.slot_ok(w, k),
            decreases 174 - v,
        {
            let mut k: usize = 0;
            while k < 3
                invariant
                    k <= 3,
                    v < 174,
                    forall|j: int| 0 <= j < k ==> #[trigger] self.slot_ok(v as int, j),
                decreases 3 - k,
            {
                let check = self.mn[v][k];
                let place = self.mnv[v][k];
                let ok = check < 83 && place < 7 && self.nm[check as usize][place as usize] as usize
                    == v && self.nmc[check as usize][place as usize] as usize == k;
                if !ok {
                    assert(!self.slot_ok(v as int, k as int));
                    return false;
                }
                k += 1;
            }
            v += 1;
        }
        true
    }
}

/// The numbers lay out one graph only.
proof fn lemma_one_layout(a: ParityGraph, b: ParityGraph, numbers: Seq<u8>)
    requires
        a.laid_out(numbers),
        b.laid_out(numbers),
    ensures
        a == b,
{
    assert forall|c: int| 0 <= c < 83 implies a.nm[c] == b.nm[c] by {
        assert forall|i: int| 0 <= i < 7 implies a.nm[c][i] == b.nm[c][i] by {}
        assert(a.nm[c] =~= b.nm[c]);
    }
    assert(a.nm =~= b.nm);
    assert forall|c: int| 0 <= c < 83 implies a.nmc[c] == b.nmc[c] by {
        assert forall|i: int| 0 <= i < 7 implies a.nmc[c][i] == b.nmc[c][i] by {}
        assert(a.nmc[c] =~= b.nmc[c]);
    }
    assert(a.nmc =~= b.nmc);
    assert forall|v: int| 0 <= v < 174 implies a.mn[v] == b.mn[v] by {
        assert forall|k: int| 0 <= k < 3 implies a.mn[v][k] == b.mn[v][k] by {}
        assert(a.mn[v] =~= b.mn[v]);
    }
    assert(a.mn =~= b.mn);
    assert forall|v: int| 0 <= v < 174 implies a.mnv[v] == b.mnv[v] by {
        assert forall|k: int| 0 <= k < 3 implies a.mnv[v][k] == b.mnv[v][k] by {}
        assert(a.mnv[v] =~= b.mnv[v]);
    }
    assert(a.mnv =~= b.mnv);
}

/// The codeword without a set bit meets every check, whatever the graph.
pub proof fn lemma_zero_meets_every_check(graph: &ParityGraph, codeword: Seq<bool>)
    requires
        codeword.len() == 174,
        graph.wf(),
        all_zero(codeword),
    ensures
        graph.parity_holds(codeword),
{
    assert forall|c: int| 0 <= c < 83 implies !#[trigger] graph.check_fails(codeword, c) by {
        lemma_zero_row(graph, codeword, c, 7);
    }
}

proof fn lemma_zero_row(graph: &ParityGraph, codeword: Seq<bool>, c: int, upto: int)
    requires
        codeword.len() == 174,
        graph.wf(),
        all_zero(codeword),
        0 <= c < 83,
        0 <= upto <= 7,
    ensures
        !row_parity(graph.nm[c]@, codeword, upto),
    decreases upto,
{
    if upto > 0 {
        lemma_zero_row(graph, codeword, c, upto - 1);
        assert(graph.edge_ok(c, upto - 1));
    }
}

/// Tests that every parity check holds on `codeword`.
pub fn ldpc_check(codeword: &[bool; 174], graph: &ParityGraph) -> (ok: bool)
    requires
        graph.wf(),
    ensures
        ok == graph.parity_holds(codeword@),
{
    let mut i: usize = 0;
    while i < 83
        invariant
            i <= 83,
            graph.wf(),
            forall|c: int| 0 <= c < i ==> !#[trigger] graph.check_fails(codeword@, c),
        decreases 83 - i,
    {
        let mut x = false;
        let mut j: usize = 0;
        while j < 6
            invariant
                j <= 6,
                i < 83,
                graph.wf(),
                x == row_parity(graph.nm[i as int]@, codeword@, j as int),
            decreases 6 - j,
        {
            assert(graph.edge_ok(i as int, j as int));
            let var = graph.nm[i][j];
            x ^= codeword[var as usize];
            j += 1;
        }
        assert(graph.edge_ok(i as int, 6));
        let var6 = graph.nm[i][6];
        if var6 != ABSENT {
            x ^= codeword[var6 as usize];
        }
        if x {
            assert(graph.check_fails(codeword@, i as int));
            return false;
        }
        i += 1;
    }
    true
}

/// What the decoder does after a round of belief propagation.
#[derive(Debug, Clone, Copy, PartialEq, Eq, Structural)]
pub enum DecodeStep {
    /// The hard decisions are the decoded codeword.
    Decoded,
    /// The candidate is given up.
    Failed,
    /// Another round follows.
    Again,
}

/// The step after the round with the number `round`, counted from 0, of at
/// most `decode_times` rounds, which left the hard decisions `codeword`:
/// a codeword that meets every check ends the decoding, as decoded where
/// any bit is set and as failed where none is; otherwise another round
/// follows as long as one is left.
pub open spec fn step_after(
    graph: &ParityGraph,
    codeword: Seq<bool>,
    round: u32,
    decode_times: u32,
) -> DecodeStep {
    if graph.parity_holds(codeword) {
        if all_zero(codeword) {
            DecodeStep::Failed
        } else {
            DecodeStep::Decoded
        }
    } else if round + 1 < decode_times {
        DecodeStep::Again
    } else {
        DecodeStep::Failed
    }
}

/// Decides what follows a round of belief propagation. Where the result is
/// `Decoded`, every parity check holds on `codeword`.
pub fn after_round(
    codeword: &[bool; 174],
    round: u32,
    decode_times: u32,
    graph: &ParityGraph,
) -> (step: DecodeStep)
    requires
        graph.wf(),
    ensures
        step == step_after(graph, codeword@, round, decode_times),
        step == DecodeStep::Decoded ==> graph.parity_holds(codeword@),
{
    if ldpc_check(codeword, graph) {
        if any_set(codeword) {
            DecodeStep::Decoded
        } else {
            DecodeStep::Failed
        }
    } else if round < u32::MAX && round + 1 < decode_times {
        DecodeStep::Again
    } else {
        DecodeStep::Failed
    }
}

/// Whether any bit of `codeword` is set.
pub fn any_set(codeword: &[bool; 174]) -> (any: bool)
    ensures
        any == !all_zero(codeword@),
{
    let mut i: usize = 0;
    while i < 174
        invariant
            i <= 174,
            forall|k: int| 0 <= k < i ==> !codeword@[k],
        decreases 174 - i,
    {
        if codeword[i] {
            return true;
        }
        i += 1;
    }
    false
}

} // verus!
