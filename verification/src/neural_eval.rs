//! Quantized feed-forward neural evaluator.
//!
//! A model is a chain of dense layers over `i16` activations.  Every
//! product of an activation and a weight is divided (truncating) by the
//! fixed-point denominator; hidden layers apply ReLU; the output layer
//! does not; activations are clamped to the symmetric 16-bit band.  The
//! input is the 768-entry board encoding: one 64-square block per
//! (color, role) pair, occupied squares holding the fixed-point unit.
//!
//! Weights are supplied by the embedding application as plain integer
//! vectors; an empty model evaluates to zero.

use vstd::prelude::*;

use crate::evaluation::PositionFacts;
use crate::rules::observe;
use crate::tables::spec_bit;

verus! {

/// Fixed-point denominator: activations count in units of 1/32.
pub const FIXED_POINT: i16 = 32;

/// Width of the board encoding: 12 bitboards of 64 squares.
pub const NN_INPUTS: usize = 768;

/// Largest activation magnitude; the band is symmetric so that a score
/// can always be negated.
pub const ACT_LIMIT: i16 = 32_767;

pub struct NnLayer {
    /// Row-major weights: `weights[j * inputs + i]` feeds output `j`
    /// from input `i`.
    pub weights: Vec<i16>,
    pub biases: Vec<i16>,
    pub inputs: usize,
    pub outputs: usize,
}

impl NnLayer {
    pub open spec fn wf(&self) -> bool {
        &&& self.weights@.len() == self.inputs * self.outputs
        &&& self.biases@.len() == self.outputs
        &&& 1 <= self.inputs <= 768
        &&& 1 <= self.outputs <= 768
    }
}

pub struct NnModel {
    pub layers: Vec<NnLayer>,
}

impl NnModel {
    pub open spec fn wf(&self) -> bool {
        &&& forall|i: int| 0 <= i < self.layers@.len() ==> (#[trigger] self.layers@[i]).wf()
        &&& forall|i: int|
            0 <= i + 1 < self.layers@.len() ==> (#[trigger] self.layers@[i + 1]).inputs
                == self.layers@[i].outputs
        &&& (self.layers@.len() > 0 ==> self.layers@[0].inputs == NN_INPUTS
            && self.layers@[self.layers@.len() - 1].outputs == 1)
    }

    /// The model that evaluates everything to zero.
    pub fn empty() -> (r: NnModel)
        ensures
            r.wf(),
            r.layers@.len() == 0,
    {
        NnModel { layers: Vec::new() }
    }
}

/// Truncating division of a product by the fixed-point denominator.
pub open spec fn spec_fixed_div(p: int) -> int {
    if p >= 0 {
        p / 32
    } else {
        -((-p) / 32)
    }
}

/// Clamp into the symmetric activation band.
pub open spec fn spec_clamp_act(v: int) -> int {
    if v > ACT_LIMIT as int {
        ACT_LIMIT as int
    } else if v < -(ACT_LIMIT as int) {
        -(ACT_LIMIT as int)
    } else {
        v
    }
}

/// Fixed-point dot product of the first `n` activations with the weight
/// row starting at `off`.
pub open spec fn spec_dot(h: Seq<i16>, w: Seq<i16>, off: int, n: int) -> int
    decreases n,
{
    if n <= 0 {
        0
    } else {
        spec_dot(h, w, off, n - 1) + spec_fixed_div(h[n - 1] * w[off + n - 1])
    }
}

/// Pre-activation value of output neuron `j`.
pub open spec fn spec_neuron(h: Seq<i16>, layer: NnLayer, j: int) -> int {
    spec_dot(h, layer.weights@, j * layer.inputs, layer.inputs as int) + layer.biases@[j]
}

/// Activations a layer produces: neuron values, rectified when `relu`
/// is set, clamped into the activation band.
pub open spec fn spec_layer(h: Seq<i16>, layer: NnLayer, relu: bool) -> Seq<i16> {
    Seq::new(
        layer.outputs as nat,
        |j: int|
            {
                let z = spec_neuron(h, layer, j);
                let a = if relu && z < 0 {
                    0
                } else {
                    z
                };
                spec_clamp_act(a) as i16
            },
    )
}

/// Run the layers from index `k` on; ReLU everywhere but the last layer.
pub open spec fn spec_forward_from(h: Seq<i16>, layers: Seq<NnLayer>, k: int) -> Seq<i16>
    decreases layers.len() - k,
{
    if k < 0 || k >= layers.len() {
        h
    } else {
        spec_forward_from(spec_layer(h, layers[k], k + 1 < layers.len()), layers, k + 1)
    }
}

/// The network's score for an input vector: the single output neuron,
/// or zero for the empty model.
pub open spec fn spec_feed_forward(model: NnModel, input: Seq<i16>) -> int {
    if model.layers@.len() == 0 {
        0
    } else {
        let out = spec_forward_from(input, model.layers@, 0);
        if out.len() >= 1 {
            out[0] as int
        } else {
            0
        }
    }
}

fn apply_layer(h: &Vec<i16>, layer: &NnLayer, relu: bool) -> (r: Vec<i16>)
    requires
        layer.wf(),
        h@.len() == layer.inputs,
    ensures
        r@ == spec_layer(h@, *layer, relu),
{
    let mut out: Vec<i16> = Vec::new();
    let mut j: usize = 0;
    while j < layer.outputs
        invariant
            layer.wf(),
            h@.len() == layer.inputs,
            j <= layer.outputs,
            out@.len() == j,
            forall|k: int| 0 <= k < j ==> out@[k] == spec_layer(h@, *layer, relu)[k],
        decreases layer.outputs - j,
    {
        let mut acc: i64 = 0;
        let mut i: usize = 0;
        while i < layer.inputs
            invariant
                layer.wf(),
                h@.len() == layer.inputs,
                j < layer.outputs,
                i <= layer.inputs,
                acc as int == spec_dot(h@, layer.weights@, j as int * layer.inputs as int, i as int),
                -(i as int) * 0x2000001 <= acc as int <= (i as int) * 0x2000001,
            decreases layer.inputs - i,
        {
            assert(j as int * layer.inputs as int + i < layer.inputs * layer.outputs
                && j as int * layer.inputs as int <= 768 * 768) by (nonlinear_arith)
                requires
                    i < layer.inputs,
                    j < layer.outputs,
                    layer.inputs <= 768,
                    layer.outputs <= 768,
            ;
            let base: usize = j * layer.inputs;
            let w = layer.weights[base + i];
            let hv: i64 = h[i] as i64;
            let wv: i64 = w as i64;
            assert(-0x4000_0000 <= hv * wv <= 0x4000_0000) by (nonlinear_arith)
                requires
                    -0x8000 <= hv <= 0x8000,
                    -0x8000 <= wv <= 0x8000,
            ;
            let p: i64 = hv * wv;
            let q: i64 = if p >= 0 {
                p / 32
            } else {
                -((-p) / 32)
            };
            assert(-0x2000001 <= q <= 0x2000001);
            acc = acc + q;
            i += 1;
        }
        let z: i64 = acc + (layer.biases[j] as i64);
        let a: i64 = if relu && z < 0 {
            0
        } else {
            z
        };
        let clamped: i16 = if a > ACT_LIMIT as i64 {
            ACT_LIMIT
        } else if a < -(ACT_LIMIT as i64) {
            -ACT_LIMIT
        } else {
            a as i16
        };
        out.push(clamped);
        j += 1;
    }
    proof {
        assert(out@ =~= spec_layer(h@, *layer, relu));
    }
    out
}

/// Run the network on a 768-entry input vector.
pub fn feed_forward(model: &NnModel, input: &Vec<i16>) -> (r: i16)
    requires
        model.wf(),
        input@.len() == NN_INPUTS,
    ensures
        r as int == spec_feed_forward(*model, input@),
{
    if model.layers.len() == 0 {
        return 0;
    }
    let mut h: Vec<i16> = Vec::new();
    let mut c: usize = 0;
    while c < input.len()
        invariant
            c <= input@.len(),
            h@ == input@.subrange(0, c as int),
        decreases input@.len() - c,
    {
        h.push(input[c]);
        c += 1;
    }
    proof {
        assert(h@ =~= input@);
    }
    let mut k: usize = 0;
    while k < model.layers.len()
        invariant
            model.wf(),
            k <= model.layers@.len(),
            model.layers@.len() > 0,
            spec_forward_from(h@, model.layers@, k as int) == spec_forward_from(
                input@,
                model.layers@,
                0,
            ),
            k < model.layers@.len() ==> h@.len() == model.layers@[k as int].inputs,
            k == model.layers@.len() ==> h@.len() == 1,
        decreases model.layers@.len() - k,
    {
        let relu = k + 1 < model.layers.len();
        h = apply_layer(&h, &model.layers[k], relu);
        k += 1;
    }
    h[0]
}

/// The 768-entry fixed-point encoding of the piece bitboards: block `b`
/// covers `boards[b]`, square `s` of it is the fixed-point unit exactly
/// when the square is occupied.
pub open spec fn spec_serialize(boards: [u64; 12]) -> Seq<i16> {
    Seq::new(
        768,
        |i: int|
            if spec_bit(boards[i / 64], (i % 64) as u64) {
                FIXED_POINT
            } else {
                0i16
            },
    )
}

pub fn serialize(facts: &PositionFacts) -> (r: Vec<i16>)
    ensures
        r@ == spec_serialize(facts.boards),
{
    let mut out: Vec<i16> = Vec::new();
    let mut b: usize = 0;
    while b < 12
        invariant
            b <= 12,
            out@.len() == 64 * b,
            forall|k: int| 0 <= k < out@.len() ==> out@[k] == spec_serialize(facts.boards)[k],
        decreases 12 - b,
    {
        let bb = facts.boards[b];
        let mut sq: u64 = 0;
        while sq < 64
            invariant
                b < 12,
                0 <= sq <= 64,
                bb == facts.boards[b as int],
                out@.len() == 64 * b + sq,
                forall|k: int| 0 <= k < out@.len() ==> out@[k] == spec_serialize(facts.boards)[k],
            decreases 64 - sq,
        {
            let ghost pos = out@.len() as int;
            if (bb >> sq) & 1 == 1 {
                out.push(FIXED_POINT);
            } else {
                out.push(0);
            }
            proof {
                assert(pos / 64 == b && pos % 64 == sq) by (nonlinear_arith)
                    requires
                        pos == 64 * (b as int) + (sq as int),
                        0 <= sq < 64,
                        0 <= b < 12,
                ;
                assert(out@[pos] == spec_serialize(facts.boards)[pos]);
            }
            sq += 1;
        }
        b += 1;
    }
    proof {
        assert(out@ =~= spec_serialize(facts.boards));
    }
    out
}

/// The network's score of a position, side-to-move relative.
pub open spec fn spec_predict(f: PositionFacts, model: NnModel) -> int {
    let v = spec_feed_forward(model, spec_serialize(f.boards));
    if f.white_to_move {
        v
    } else {
        -v
    }
}

pub fn predict_facts(facts: &PositionFacts, model: &NnModel) -> (r: i16)
    requires
        model.wf(),
    ensures
        r as int == spec_predict(*facts, *model),
{
    let input = serialize(facts);
    let v = feed_forward(model, &input);
    proof {
        lemma_feed_forward_bounded(*model, input@);
    }
    if facts.white_to_move {
        v
    } else {
        -v
    }
}

/// The network output always lies in the symmetric activation band, so
/// it can be negated.
proof fn lemma_feed_forward_bounded(model: NnModel, input: Seq<i16>)
    ensures
        -(ACT_LIMIT as int) <= spec_feed_forward(model, input) <= ACT_LIMIT as int,
{
    if model.layers@.len() > 0 {
        let out = spec_forward_from(input, model.layers@, 0);
        lemma_forward_from_clamped(input, model.layers@, 0);
    }
}

/// Every activation a layer chain produces is clamped (when the chain is
/// nonempty, so the result went through at least one layer).
proof fn lemma_forward_from_clamped(h: Seq<i16>, layers: Seq<NnLayer>, k: int)
    requires
        0 <= k < layers.len(),
    ensures
        forall|j: int|
            0 <= j < spec_forward_from(h, layers, k).len() ==> -(ACT_LIMIT as int) <= (
            #[trigger] spec_forward_from(h, layers, k)[j]) as int <= ACT_LIMIT as int,
    decreases layers.len() - k,
{
    let next = spec_layer(h, layers[k], k + 1 < layers.len());
    assert forall|j: int| 0 <= j < next.len() implies -(ACT_LIMIT as int) <= (#[trigger] next[j])
        as int <= ACT_LIMIT as int by {
        let z = spec_neuron(h, layers[k], j);
        let a = if (k + 1 < layers.len()) && z < 0 {
            0int
        } else {
            z
        };
        assert(next[j] == spec_clamp_act(a) as i16);
        assert(-(ACT_LIMIT as int) <= spec_clamp_act(a) <= ACT_LIMIT as int);
    };
    assert(spec_forward_from(h, layers, k) == spec_forward_from(next, layers, k + 1));
    if k + 1 < layers.len() {
        lemma_forward_from_clamped(next, layers, k + 1);
    } else {
        assert(spec_forward_from(next, layers, k + 1) == next);
    }
}

/// The network's score of a position: positive favors the side to move.
pub fn predict(position: &shakmaty::Chess, model: &NnModel) -> (r: i16)
    requires
        model.wf(),
{
    let facts = observe(position);
    predict_facts(&facts, model)
}

} // verus!
