use vstd::prelude::*;

use crate::types::Color;
use crate::MAX_PLY;
use crate::MATE_IN;

verus! {

/// Quantization divisor: input clip times weight scale.
pub const QAB: i64 = 255 * 64;

/// Centipawn scale of the raw network output.
pub const SCALE: i64 = 400;

/// Feature toggle direction: the feature appears on the board.
pub const ACTIVATE: bool = true;

/// Feature toggle direction: the feature leaves the board.
pub const DEACTIVATE: bool = false;

/// 16-bit wrapping addition, as the accumulator updates compute it.
pub open spec fn wadd(a: i16, b: i16) -> i16 {
    vstd::wrapping::i16_specs::wrapping_add(a, b)
}

/// 16-bit wrapping subtraction, as the accumulator updates compute it.
pub open spec fn wsub(a: i16, b: i16) -> i16 {
    vstd::wrapping::i16_specs::wrapping_sub(a, b)
}

/// One perspective vector after toggling the feature whose weight column
/// starts at `off`: every activation gains (or loses) the matching weight.
pub open spec fn updated_col(acc: Seq<i16>, w: Seq<i16>, off: int, activate: bool) -> Seq<i16> {
    Seq::new(acc.len(), |k: int| if activate {
        wadd(acc[k], w[off + k])
    } else {
        wsub(acc[k], w[off + k])
    })
}

/// Start of the white-perspective weight column of a feature.
pub open spec fn spec_white_index(sq: u8, piece: u8, color: Color) -> int {
    (color.spec_idx() * 384 + piece * 64 + sq) * 256
}

/// Rank-mirrored square: a1 <-> a8, h1 <-> h8.
pub open spec fn spec_flip_rank(sq: u8) -> int {
    (7 - sq / 8) * 8 + sq % 8
}

/// Start of the black-perspective weight column of a feature: the colour is
/// swapped and the square is rank-mirrored.
pub open spec fn spec_black_index(sq: u8, piece: u8, color: Color) -> int {
    ((1 - color.spec_idx()) * 384 + piece * 64 + spec_flip_rank(sq)) * 256
}

/// Returns white's and black's feature weight column start respectively,
/// i.e. where the feature's weight column is in the weight matrix.
pub fn weight_column_index(sq: u8, piece: u8, color: Color) -> (r: (usize, usize))
    requires
        sq < 64,
        piece < 6,
    ensures
        r.0 == spec_white_index(sq, piece, color),
        r.1 == spec_black_index(sq, piece, color),
{
    let c: usize = Color::idx(color) as usize;
    let p: usize = piece as usize;
    let s: usize = sq as usize;
    let flipped: usize = (7 - s / 8) * 8 + s % 8;
    let white_idx: usize = c * 384 + p * 64 + s;
    let black_idx: usize = (1 - c) * 384 + p * 64 + flipped;
    (white_idx * 256, black_idx * 256)
}

/// The two perspectives of one feature swap places when the feature's colour
/// is flipped and its square is rank-mirrored.
pub proof fn lemma_perspective_symmetry(sq: u8, piece: u8, color: Color)
    requires
        sq < 64,
        piece < 6,
    ensures
        spec_black_index(sq, piece, color)
            == spec_white_index(spec_flip_rank(sq) as u8, piece, color.spec_opp()),
        spec_white_index(sq, piece, color)
            == spec_black_index(spec_flip_rank(sq) as u8, piece, color.spec_opp()),
{
    let f = spec_flip_rank(sq);
    assert(0 <= f < 64);
    assert(f as u8 % 8 == sq % 8) by {
        assert(f == (7 - sq / 8) * 8 + sq % 8);
    }
    assert(f as u8 / 8 == 7 - sq / 8) by {
        assert(f == (7 - sq / 8) * 8 + sq % 8);
    }
    assert(spec_flip_rank(f as u8) == sq);
}

/// The read-only network parameters, loaded once at program start.
pub struct Network {
    pub feature_weights: Vec<i16>,
    pub feature_bias: Vec<i16>,
    pub output_weights: Vec<i16>,
    pub output_bias: i16,
}

impl Network {
    /// The four arrays have the sizes the 768 -> 256x2 -> 1 shape dictates.
    pub open spec fn wf(self) -> bool {
        &&& self.feature_weights@.len() == 768 * 256
        &&& self.feature_bias@.len() == 256
        &&& self.output_weights@.len() == 512
    }

    /// Builds a network from its four raw arrays, refusing wrong lengths.
    pub fn from_parts(
        feature_weights: Vec<i16>,
        feature_bias: Vec<i16>,
        output_weights: Vec<i16>,
        output_bias: i16,
    ) -> (r: Option<Network>)
        ensures
            r is Some <==> feature_weights@.len() == 768 * 256 && feature_bias@.len() == 256
                && output_weights@.len() == 512,
            r matches Some(n) ==> n == (Network {
                feature_weights,
                feature_bias,
                output_weights,
                output_bias,
            }),
    {
        if feature_weights.len() == 768 * 256 && feature_bias.len() == 256
            && output_weights.len() == 512 {
            Some(Network { feature_weights, feature_bias, output_weights, output_bias })
        } else {
            None
        }
    }

    /// An all-zero network: every position evaluates to zero.
    pub fn zeroed() -> (r: Network)
        ensures
            r.wf(),
            forall|i: int| 0 <= i < r.feature_weights@.len() ==> r.feature_weights@[i] == 0i16,
            forall|i: int| 0 <= i < r.feature_bias@.len() ==> r.feature_bias@[i] == 0i16,
            forall|i: int| 0 <= i < r.output_weights@.len() ==> r.output_weights@[i] == 0i16,
            r.output_bias == 0i16,
    {
        Network {
            feature_weights: zeros(768 * 256),
            feature_bias: zeros(256),
            output_weights: zeros(512),
            output_bias: 0,
        }
    }
}

/// A vector of `n` zero weights.
fn zeros(n: usize) -> (r: Vec<i16>)
    ensures
        r@.len() == n,
        forall|i: int| 0 <= i < n ==> r@[i] == 0i16,
{
    let mut v: Vec<i16> = Vec::new();
    let mut i: usize = 0;
    while i < n
        invariant
            i <= n,
            v@.len() == i,
            forall|k: int| 0 <= k < i ==> v@[k] == 0i16,
        decreases n - i,
    {
        v.push(0);
        i += 1;
    }
    v
}

/// Both perspectives of an accumulator hold only zeros.
pub open spec fn spec_zeroed_acc(a: Accumulator) -> bool {
    &&& forall|k: int| 0 <= k < a.white@.len() ==> a.white@[k] == 0i16
    &&& forall|k: int| 0 <= k < a.black@.len() ==> a.black@[k] == 0i16
}

/// The hidden layer from both perspectives.
#[derive(Clone, Debug, PartialEq)]
pub struct Accumulator {
    pub white: Vec<i16>,
    pub black: Vec<i16>,
}

impl Accumulator {
    /// Both perspective vectors have the hidden width.
    pub open spec fn wf(self) -> bool {
        self.white@.len() == 256 && self.black@.len() == 256
    }

    /// A fresh accumulator: both perspectives start at the feature bias.
    pub fn from_bias(net: &Network) -> (r: Accumulator)
        requires
            net.wf(),
        ensures
            r.wf(),
            r.white@ == net.feature_bias@,
            r.black@ == net.feature_bias@,
    {
        let white = net.feature_bias.clone();
        let black = net.feature_bias.clone();
        proof {
            assert(white@ =~= net.feature_bias@);
            assert(black@ =~= net.feature_bias@);
        }
        Accumulator { white, black }
    }

    /// Toggles one feature: adds (or subtracts) its weight column to both
    /// perspective vectors.
    pub fn efficiently_update(&mut self, idx: (usize, usize), activate: bool, net: &Network)
        requires
            old(self).wf(),
            net.wf(),
            idx.0 + 256 <= net.feature_weights@.len(),
            idx.1 + 256 <= net.feature_weights@.len(),
        ensures
            final(self).wf(),
            final(self).white@ == updated_col(
                old(self).white@,
                net.feature_weights@,
                idx.0 as int,
                activate,
            ),
            final(self).black@ == updated_col(
                old(self).black@,
                net.feature_weights@,
                idx.1 as int,
                activate,
            ),
    {
        update_perspective(&mut self.white, &net.feature_weights, idx.0, activate);
        update_perspective(&mut self.black, &net.feature_weights, idx.1, activate);
    }
}

/// Adds or subtracts one weight column to one perspective vector, wrapping on
/// overflow exactly as 16-bit two's-complement addition does.
fn update_perspective(acc: &mut Vec<i16>, weights: &Vec<i16>, off: usize, activate: bool)
    requires
        old(acc)@.len() == 256,
        off + 256 <= weights.len(),
    ensures
        final(acc)@ == updated_col(old(acc)@, weights@, off as int, activate),
{
    let mut k: usize = 0;
    while k < 256
        invariant
            k <= 256,
            old(acc)@.len() == 256,
            acc@.len() == 256,
            off + 256 <= weights.len(),
            forall|j: int| k <= j < 256 ==> acc@[j] == old(acc)@[j],
            forall|j: int| 0 <= j < k ==> acc@[j] == updated_col(
                old(acc)@,
                weights@,
                off as int,
                activate,
            )[j],
        decreases 256 - k,
    {
        let w: i16 = weights[off + k];
        if activate {
            acc.set(k, acc[k].wrapping_add(w));
        } else {
            acc.set(k, acc[k].wrapping_sub(w));
        }
        k += 1;
    }
    proof {
        assert(acc@ =~= updated_col(old(acc)@, weights@, off as int, activate));
    }
}

/// Toggling a feature on and back off leaves a perspective vector unchanged,
/// even when the intermediate addition wrapped.
pub proof fn lemma_update_roundtrip(acc: Seq<i16>, w: Seq<i16>, off: int)
    requires
        0 <= off,
        off + acc.len() <= w.len(),
    ensures
        updated_col(updated_col(acc, w, off, true), w, off, false) == acc,
{
    let mid = updated_col(acc, w, off, true);
    assert forall|k: int| 0 <= k < acc.len() implies updated_col(mid, w, off, false)[k]
        == acc[k] by {
        lemma_wrap_roundtrip(acc[k], w[off + k]);
    }
    assert(updated_col(mid, w, off, false) =~= acc);
}

/// Wrapping subtraction undoes wrapping addition.
proof fn lemma_wrap_roundtrip(a: i16, b: i16)
    ensures
        wsub(wadd(a, b), b) == a,
{
}

/// Two feature toggles commute: the accumulator does not care in which order
/// the changed squares of a move are applied.
pub proof fn lemma_update_commutes(
    acc: Seq<i16>,
    w: Seq<i16>,
    off1: int,
    act1: bool,
    off2: int,
    act2: bool,
)
    requires
        0 <= off1,
        off1 + acc.len() <= w.len(),
        0 <= off2,
        off2 + acc.len() <= w.len(),
    ensures
        updated_col(updated_col(acc, w, off1, act1), w, off2, act2) == updated_col(
            updated_col(acc, w, off2, act2),
            w,
            off1,
            act1,
        ),
{
    let lhs = updated_col(updated_col(acc, w, off1, act1), w, off2, act2);
    let rhs = updated_col(updated_col(acc, w, off2, act2), w, off1, act1);
    assert forall|k: int| 0 <= k < acc.len() implies lhs[k] == rhs[k] by {
        lemma_wrap_assoc(acc[k], w[off1 + k], act1, w[off2 + k], act2);
    }
    assert(lhs =~= rhs);
}

/// Wrapping add and subtract reorder freely.
proof fn lemma_wrap_assoc(a: i16, b: i16, actb: bool, c: i16, actc: bool)
    ensures
        actb ==> actc ==> wadd(wadd(a, b), c) == wadd(wadd(a, c), b),
        actb ==> !actc ==> wsub(wadd(a, b), c) == wadd(wsub(a, c), b),
        !actb ==> actc ==> wadd(wsub(a, b), c) == wsub(wadd(a, c), b),
        !actb ==> !actc ==> wsub(wsub(a, b), c) == wsub(wsub(a, c), b),
{
}

/// Clipped ReLU: an activation contributes between 0 and 255.
pub open spec fn crelu(v: i16) -> int {
    if v < 0 {
        0
    } else if v > 255 {
        255
    } else {
        v as int
    }
}

/// Dot product of the first `n` clipped activations with the output weights
/// starting at `woff`.
pub open spec fn dot(acc: Seq<i16>, w: Seq<i16>, woff: int, n: int) -> int
    decreases n,
{
    if n <= 0 {
        0
    } else {
        dot(acc, w, woff, n - 1) + crelu(acc[n - 1]) * w[woff + n - 1]
    }
}

/// Scales the raw network sum to centipawns, rounding toward zero as the
/// machine division does.
pub open spec fn quantize(output: int) -> int {
    if output < 0 {
        -((-output) * (SCALE as int) / (QAB as int))
    } else {
        output * (SCALE as int) / (QAB as int)
    }
}

/// Keeps a static evaluation inside the band of normal scores, below every
/// mate score.
pub open spec fn clamp_eval(x: int) -> int {
    if x < -(MATE_IN - 1) {
        -(MATE_IN - 1)
    } else if x > MATE_IN - 1 {
        MATE_IN - 1
    } else {
        x
    }
}

/// A board occupancy entry: square, piece and colour.
pub open spec fn valid_entry(e: (u8, u8, Color)) -> bool {
    e.0 < 64 && e.1 < 6
}

/// White perspective after activating the features of `es[..n]` on top of
/// the bias, in order.
pub open spec fn refreshed_white(net: Network, es: Seq<(u8, u8, Color)>, n: int) -> Seq<i16>
    decreases n,
{
    if n <= 0 {
        net.feature_bias@
    } else {
        updated_col(
            refreshed_white(net, es, n - 1),
            net.feature_weights@,
            spec_white_index(es[n - 1].0, es[n - 1].1, es[n - 1].2),
            true,
        )
    }
}

/// Black perspective after activating the features of `es[..n]` on top of
/// the bias, in order.
pub open spec fn refreshed_black(net: Network, es: Seq<(u8, u8, Color)>, n: int) -> Seq<i16>
    decreases n,
{
    if n <= 0 {
        net.feature_bias@
    } else {
        updated_col(
            refreshed_black(net, es, n - 1),
            net.feature_weights@,
            spec_black_index(es[n - 1].0, es[n - 1].1, es[n - 1].2),
            true,
        )
    }
}

/// A perspective vector after the first `n` toggles of a list were applied
/// in order; a toggle is (square, piece, colour, activate).
pub open spec fn toggled_white(
    s: Seq<i16>,
    w: Seq<i16>,
    ts: Seq<(u8, u8, Color, bool)>,
    n: int,
) -> Seq<i16>
    decreases n,
{
    if n <= 0 {
        s
    } else {
        updated_col(
            toggled_white(s, w, ts, n - 1),
            w,
            spec_white_index(ts[n - 1].0, ts[n - 1].1, ts[n - 1].2),
            ts[n - 1].3,
        )
    }
}

/// The black half of a toggle-list application.
pub open spec fn toggled_black(
    s: Seq<i16>,
    w: Seq<i16>,
    ts: Seq<(u8, u8, Color, bool)>,
    n: int,
) -> Seq<i16>
    decreases n,
{
    if n <= 0 {
        s
    } else {
        updated_col(
            toggled_black(s, w, ts, n - 1),
            w,
            spec_black_index(ts[n - 1].0, ts[n - 1].1, ts[n - 1].2),
            ts[n - 1].3,
        )
    }
}

/// A valid entry's weight columns lie inside the weight matrix.
pub proof fn lemma_entry_offsets(net: Network, e: (u8, u8, Color))
    requires
        net.wf(),
        valid_entry(e),
    ensures
        0 <= spec_white_index(e.0, e.1, e.2),
        spec_white_index(e.0, e.1, e.2) + 256 <= net.feature_weights@.len(),
        0 <= spec_black_index(e.0, e.1, e.2),
        spec_black_index(e.0, e.1, e.2) + 256 <= net.feature_weights@.len(),
{
}

/// Both perspectives of a refresh keep the hidden width.
proof fn lemma_refreshed_len(net: Network, es: Seq<(u8, u8, Color)>, n: int)
    requires
        net.wf(),
        n <= es.len(),
    ensures
        refreshed_white(net, es, n).len() == 256,
        refreshed_black(net, es, n).len() == 256,
    decreases n,
{
    if n > 0 {
        lemma_refreshed_len(net, es, n - 1);
    }
}

/// A refresh reads only the first `n` entries.
proof fn lemma_refreshed_prefix(
    net: Network,
    es1: Seq<(u8, u8, Color)>,
    es2: Seq<(u8, u8, Color)>,
    n: int,
)
    requires
        n <= es1.len(),
        n <= es2.len(),
        forall|k: int| 0 <= k < n ==> es1[k] == es2[k],
    ensures
        refreshed_white(net, es1, n) == refreshed_white(net, es2, n),
        refreshed_black(net, es1, n) == refreshed_black(net, es2, n),
    decreases n,
{
    if n > 0 {
        lemma_refreshed_prefix(net, es1, es2, n - 1);
    }
}

/// Incremental update agrees with refresh: toggling one more feature onto a
/// refreshed accumulator gives exactly the accumulator a refresh of the
/// extended occupancy list would build.
pub proof fn lemma_refresh_step(net: Network, es: Seq<(u8, u8, Color)>, e: (u8, u8, Color))
    requires
        net.wf(),
    ensures
        refreshed_white(net, es.push(e), es.len() as int + 1) == updated_col(
            refreshed_white(net, es, es.len() as int),
            net.feature_weights@,
            spec_white_index(e.0, e.1, e.2),
            true,
        ),
        refreshed_black(net, es.push(e), es.len() as int + 1) == updated_col(
            refreshed_black(net, es, es.len() as int),
            net.feature_weights@,
            spec_black_index(e.0, e.1, e.2),
            true,
        ),
{
    let n = es.len() as int;
    assert(es.push(e)[n] == e);
    lemma_refreshed_prefix(net, es, es.push(e), n);
}

/// The accumulator a refresh builds does not depend on the order in which
/// the occupied squares are listed: swapping any two neighbouring entries
/// changes nothing, and every reordering is a chain of such swaps.
pub proof fn lemma_refresh_order_independent(
    net: Network,
    es: Seq<(u8, u8, Color)>,
    i: int,
    n: int,
)
    requires
        net.wf(),
        forall|k: int| 0 <= k < es.len() ==> valid_entry(#[trigger] es[k]),
        0 <= i,
        i + 2 <= n <= es.len(),
    ensures
        refreshed_white(net, es.update(i, es[i + 1]).update(i + 1, es[i]), n) == refreshed_white(
            net,
            es,
            n,
        ),
        refreshed_black(net, es.update(i, es[i + 1]).update(i + 1, es[i]), n) == refreshed_black(
            net,
            es,
            n,
        ),
    decreases n,
{
    let es2 = es.update(i, es[i + 1]).update(i + 1, es[i]);
    if n == i + 2 {
        lemma_refreshed_prefix(net, es, es2, i);
        lemma_refreshed_len(net, es, i);
        let base_w = refreshed_white(net, es, i);
        let base_b = refreshed_black(net, es, i);
        let e1 = es[i];
        let e2 = es[i + 1];
        let fw = net.feature_weights@;
        lemma_entry_offsets(net, e1);
        lemma_entry_offsets(net, e2);
        assert(es2[i] == e2 && es2[i + 1] == e1);
        assert(refreshed_white(net, es, i + 1) == updated_col(
            base_w,
            fw,
            spec_white_index(e1.0, e1.1, e1.2),
            true,
        ));
        assert(refreshed_white(net, es, i + 2) == updated_col(
            updated_col(base_w, fw, spec_white_index(e1.0, e1.1, e1.2), true),
            fw,
            spec_white_index(e2.0, e2.1, e2.2),
            true,
        ));
        assert(refreshed_white(net, es2, i + 1) == updated_col(
            base_w,
            fw,
            spec_white_index(e2.0, e2.1, e2.2),
            true,
        ));
        assert(refreshed_white(net, es2, i + 2) == updated_col(
            updated_col(base_w, fw, spec_white_index(e2.0, e2.1, e2.2), true),
            fw,
            spec_white_index(e1.0, e1.1, e1.2),
            true,
        ));
        assert(refreshed_black(net, es, i + 1) == updated_col(
            base_b,
            fw,
            spec_black_index(e1.0, e1.1, e1.2),
            true,
        ));
        assert(refreshed_black(net, es2, i + 1) == updated_col(
            base_b,
            fw,
            spec_black_index(e2.0, e2.1, e2.2),
            true,
        ));
        assert(refreshed_black(net, es, i + 2) == updated_col(
            updated_col(base_b, fw, spec_black_index(e1.0, e1.1, e1.2), true),
            fw,
            spec_black_index(e2.0, e2.1, e2.2),
            true,
        ));
        assert(refreshed_black(net, es2, i + 2) == updated_col(
            updated_col(base_b, fw, spec_black_index(e2.0, e2.1, e2.2), true),
            fw,
            spec_black_index(e1.0, e1.1, e1.2),
            true,
        ));
        lemma_update_commutes(
            base_w,
            net.feature_weights@,
            spec_white_index(e1.0, e1.1, e1.2),
            true,
            spec_white_index(e2.0, e2.1, e2.2),
            true,
        );
        lemma_update_commutes(
            base_b,
            net.feature_weights@,
            spec_black_index(e1.0, e1.1, e1.2),
            true,
            spec_black_index(e2.0, e2.1, e2.2),
            true,
        );
    } else {
        lemma_refresh_order_independent(net, es, i, n - 1);
        assert(es2[n - 1] == es[n - 1]);
    }
}

/// The stack of accumulators the search pushes and pops as it makes and
/// unmakes moves, together with the network that feeds them.
pub struct NNUEState {
    pub accumulators: Vec<Accumulator>,
    pub current_acc: usize,
    pub net: Network,
}

impl NNUEState {
    /// The stack always holds one slot more than the deepest ply, so a move
    /// made at the last ply still has a slot to push to.
    pub open spec fn wf(self) -> bool {
        &&& self.net.wf()
        &&& self.accumulators@.len() == MAX_PLY + 1
        &&& forall|i: int|
            0 <= i < self.accumulators@.len() ==> (#[trigger] self.accumulators@[i]).wf()
        &&& self.current_acc < self.accumulators@.len()
    }

    /// The perspective pair the evaluation currently reads.
    pub open spec fn live_white(self) -> Seq<i16> {
        self.accumulators@[self.current_acc as int].white@
    }

    /// The black half of the live perspective pair.
    pub open spec fn live_black(self) -> Seq<i16> {
        self.accumulators@[self.current_acc as int].black@
    }

    /// Builds the whole stack from a board: every slot is zeroed, then slot 0
    /// is refreshed from the occupancy the oracle reports.
    pub fn from_board(board: &cozy_chess::Board, net: Network) -> (r: NNUEState)
        requires
            net.wf(),
        ensures
            r.wf(),
            r.current_acc == 0,
            r.net == net,
            forall|i: int|
                1 <= i < r.accumulators@.len() ==> spec_zeroed_acc(#[trigger] r.accumulators@[i]),
    {
        let mut accumulators: Vec<Accumulator> = Vec::new();
        let mut i: usize = 0;
        while i < MAX_PLY + 1
            invariant
                i <= MAX_PLY + 1,
                accumulators@.len() == i,
                forall|k: int| 0 <= k < i ==> (#[trigger] accumulators@[k]).wf(),
                forall|k: int| 0 <= k < i ==> spec_zeroed_acc(#[trigger] accumulators@[k]),
            decreases MAX_PLY + 1 - i,
        {
            accumulators.push(Accumulator { white: zeros(256), black: zeros(256) });
            i += 1;
        }
        let mut state = NNUEState { accumulators, current_acc: 0, net };
        state.refresh(board);
        state
    }

    /// Resets the stack and rebuilds slot 0 from the board's occupancy.
    pub fn refresh(&mut self, board: &cozy_chess::Board)
        requires
            old(self).wf(),
        ensures
            final(self).wf(),
            final(self).current_acc == 0,
            final(self).net == old(self).net,
            forall|i: int|
                1 <= i < old(self).accumulators@.len() ==> final(self).accumulators@[i] == old(
                    self,
                ).accumulators@[i],
    {
        let entries = crate::board::occupancy(board);
        self.refresh_from_entries(&entries);
    }

    /// Resets the stack and rebuilds slot 0 by activating every listed
    /// feature on top of the bias.
    pub fn refresh_from_entries(&mut self, entries: &Vec<(u8, u8, Color)>)
        requires
            old(self).wf(),
            forall|i: int| 0 <= i < entries@.len() ==> valid_entry(#[trigger] entries@[i]),
        ensures
            final(self).wf(),
            final(self).current_acc == 0,
            final(self).net == old(self).net,
            final(self).live_white() == refreshed_white(
                old(self).net,
                entries@,
                entries@.len() as int,
            ),
            final(self).live_black() == refreshed_black(
                old(self).net,
                entries@,
                entries@.len() as int,
            ),
            forall|i: int|
                1 <= i < old(self).accumulators@.len() ==> final(self).accumulators@[i] == old(
                    self,
                ).accumulators@[i],
    {
        self.current_acc = 0;
        let fresh = Accumulator::from_bias(&self.net);
        self.accumulators.set(0, fresh);
        let mut i: usize = 0;
        while i < entries.len()
            invariant
                i <= entries@.len(),
                self.wf(),
                self.current_acc == 0,
                self.net == old(self).net,
                forall|k: int| 0 <= k < entries@.len() ==> valid_entry(#[trigger] entries@[k]),
                self.live_white() == refreshed_white(self.net, entries@, i as int),
                self.live_black() == refreshed_black(self.net, entries@, i as int),
                self.accumulators@.len() == old(self).accumulators@.len(),
                forall|k: int|
                    1 <= k < old(self).accumulators@.len() ==> self.accumulators@[k] == old(
                        self,
                    ).accumulators@[k],
            decreases entries@.len() - i,
        {
            let e = entries[i];
            self.toggle_feature(e.0, e.1, e.2, ACTIVATE);
            i += 1;
        }
    }

    /// Copies the live accumulator into the next slot and advances.
    pub fn push(&mut self)
        requires
            old(self).wf(),
            old(self).current_acc + 1 < old(self).accumulators@.len(),
        ensures
            final(self).wf(),
            final(self).net == old(self).net,
            final(self).current_acc == old(self).current_acc + 1,
            final(self).live_white() == old(self).live_white(),
            final(self).live_black() == old(self).live_black(),
            forall|i: int|
                0 <= i < old(self).accumulators@.len() && i != old(self).current_acc + 1
                    ==> final(self).accumulators@[i] == old(self).accumulators@[i],
    {
        let cur: usize = self.current_acc;
        let white = self.accumulators[cur].white.clone();
        let black = self.accumulators[cur].black.clone();
        proof {
            assert(white@ =~= self.accumulators@[cur as int].white@);
            assert(black@ =~= self.accumulators@[cur as int].black@);
        }
        self.accumulators.set(cur + 1, Accumulator { white, black });
        self.current_acc = cur + 1;
    }

    /// Steps back to the accumulator below, discarding the live one.
    pub fn pop(&mut self)
        requires
            old(self).wf(),
            old(self).current_acc > 0,
        ensures
            final(self).wf(),
            final(self).net == old(self).net,
            final(self).current_acc == old(self).current_acc - 1,
            final(self).accumulators == old(self).accumulators,
    {
        self.current_acc = self.current_acc - 1;
    }

    /// Toggles one feature on the live accumulator.
    pub fn update_feature<const ACT: bool>(&mut self, sq: u8, piece: u8, color: Color)
        requires
            old(self).wf(),
            sq < 64,
            piece < 6,
        ensures
            final(self).wf(),
            final(self).net == old(self).net,
            final(self).current_acc == old(self).current_acc,
            final(self).live_white() == updated_col(
                old(self).live_white(),
                old(self).net.feature_weights@,
                spec_white_index(sq, piece, color),
                ACT,
            ),
            final(self).live_black() == updated_col(
                old(self).live_black(),
                old(self).net.feature_weights@,
                spec_black_index(sq, piece, color),
                ACT,
            ),
            forall|i: int|
                0 <= i < old(self).accumulators@.len() && i != old(self).current_acc
                    ==> final(self).accumulators@[i] == old(self).accumulators@[i],
    {
        self.toggle_feature(sq, piece, color, ACT);
    }

    /// What the network says about the live position, from the side to
    /// move's perspective, clamped into the band of normal scores.
    pub open spec fn spec_evaluate(self, stm: Color) -> int {
        let us = if stm == Color::White {
            self.live_white()
        } else {
            self.live_black()
        };
        let them = if stm == Color::White {
            self.live_black()
        } else {
            self.live_white()
        };
        clamp_eval(
            quantize(
                self.net.output_bias + dot(us, self.net.output_weights@, 0, 256) + dot(
                    them,
                    self.net.output_weights@,
                    256,
                    256,
                ),
            ),
        )
    }

    /// Scores the live accumulator for the side to move, in centipawns.
    pub fn evaluate(&self, stm: Color) -> (r: i32)
        requires
            self.wf(),
        ensures
            r == self.spec_evaluate(stm),
            -MATE_IN < r < MATE_IN,
    {
        let cur: usize = self.current_acc;
        let acc = &self.accumulators[cur];
        let (us, them) = match stm {
            Color::White => (&acc.white, &acc.black),
            Color::Black => (&acc.black, &acc.white),
        };
        let ghost ow = self.net.output_weights@;
        let mut output: i64 = self.net.output_bias as i64;
        let mut k: usize = 0;
        while k < 256
            invariant
                k <= 256,
                us@.len() == 256,
                self.net.output_weights@.len() == 512,
                ow == self.net.output_weights@,
                output == self.net.output_bias + dot(us@, ow, 0, k as int),
                -32768 - k * 8355840 <= output <= 32767 + k * 8355840,
            decreases 256 - k,
        {
            let v: i16 = us[k];
            let c: i64 = if v < 0 {
                0
            } else if v > 255 {
                255
            } else {
                v as i64
            };
            let w: i64 = self.net.output_weights[k] as i64;
            proof {
                assert(-8355840 <= c * w <= 8355840) by (nonlinear_arith)
                    requires
                        0 <= c <= 255,
                        -32768 <= w <= 32767,
                ;
            }
            output = output + c * w;
            k += 1;
        }
        let mut j: usize = 0;
        while j < 256
            invariant
                j <= 256,
                them@.len() == 256,
                self.net.output_weights@.len() == 512,
                ow == self.net.output_weights@,
                output == self.net.output_bias + dot(us@, ow, 0, 256) + dot(them@, ow, 256, j as int),
                -32768 - (256 + j) * 8355840 <= output <= 32767 + (256 + j) * 8355840,
            decreases 256 - j,
        {
            let v: i16 = them[j];
            let c: i64 = if v < 0 {
                0
            } else if v > 255 {
                255
            } else {
                v as i64
            };
            let w: i64 = self.net.output_weights[256 + j] as i64;
            proof {
                assert(-8355840 <= c * w <= 8355840) by (nonlinear_arith)
                    requires
                        0 <= c <= 255,
                        -32768 <= w <= 32767,
                ;
            }
            output = output + c * w;
            j += 1;
        }
        let scaled: i64 = if output < 0 {
            -((-output) * SCALE / QAB)
        } else {
            output * SCALE / QAB
        };
        if scaled < -(MATE_IN as i64 - 1) {
            -(MATE_IN - 1)
        } else if scaled > MATE_IN as i64 - 1 {
            MATE_IN - 1
        } else {
            scaled as i32
        }
    }

    /// Toggles one feature on the live accumulator; run-time direction.
    pub fn toggle_feature(&mut self, sq: u8, piece: u8, color: Color, activate: bool)
        requires
            old(self).wf(),
            sq < 64,
            piece < 6,
        ensures
            final(self).wf(),
            final(self).net == old(self).net,
            final(self).current_acc == old(self).current_acc,
            final(self).live_white() == updated_col(
                old(self).live_white(),
                old(self).net.feature_weights@,
                spec_white_index(sq, piece, color),
                activate,
            ),
            final(self).live_black() == updated_col(
                old(self).live_black(),
                old(self).net.feature_weights@,
                spec_black_index(sq, piece, color),
                activate,
            ),
            forall|i: int|
                0 <= i < old(self).accumulators@.len() && i != old(self).current_acc
                    ==> final(self).accumulators@[i] == old(self).accumulators@[i],
    {
        let idx = weight_column_index(sq, piece, color);
        let cur: usize = self.current_acc;
        self.accumulators[cur].efficiently_update(idx, activate, &self.net);
    }
}

} // verus!
