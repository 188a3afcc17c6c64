//! The wire label generator and the per-gate garbler: labels are pure functions
//! of the session seed and the wire index, and each gate becomes four
//! ciphertexts laid out by color-bit row index (point and permute).
//!
//! A shared-global-offset (free-XOR-style) formulation, which derives every
//! true label from its false label and one secret offset, would be a possible
//! future extension; only the four-ciphertext point-and-permute scheme is
//! implemented here.

use vstd::prelude::*;

use crate::bit::{lemma_xor_unmask, xor_bits, Bit, Bits};
use crate::crypto_primitives::{HashFn, HashFnError, PRFError, PRF};

verus! {

/// A garbling failure: the underlying hash or PRF reported an error, which
/// is passed on unchanged. Both are fatal to the operation in flight; no
/// partial wire encoding or gate table is ever produced.
#[derive(Debug)]
pub enum YaoGCError {
    HashFn(HashFnError),
    PRF(PRFError),
}

/// The two labels of one wire. `false_value` stands for logical false,
/// `true_value` for logical true, and their least-significant bits (the
/// color bits) always differ; `false_color_bit` caches the color bit of
/// `false_value`.
pub struct EncodedWire<B: Bits> {
    pub wire_index: usize,
    false_value: B,
    true_value: B,
    false_color_bit: B::Element,
}

impl<B: Bits> EncodedWire<B> {
    /// The index of the wire the labels belong to.
    pub closed spec fn spec_wire_index(&self) -> usize {
        self.wire_index
    }

    /// The bits of the label standing for logical false.
    pub closed spec fn false_bits(&self) -> Seq<bool> {
        self.false_value.bits()
    }

    /// The bits of the label standing for logical true.
    pub closed spec fn true_bits(&self) -> Seq<bool> {
        self.true_value.bits()
    }

    /// The color bit of the false label.
    pub closed spec fn color_bit(&self) -> bool {
        self.false_color_bit.bval()
    }

    /// The label standing for logical false.
    pub fn false_value(&self) -> (r: &B)
        ensures
            r.bits() == self.false_bits(),
    {
        &self.false_value
    }

    /// The label standing for logical true.
    pub fn true_value(&self) -> (r: &B)
        ensures
            r.bits() == self.true_bits(),
    {
        &self.true_value
    }

    /// The color bit of the false label.
    pub fn false_color_bit(&self) -> (r: B::Element)
        ensures
            r.bval() == self.color_bit(),
    {
        self.false_color_bit
    }
}

/// A gate of the circuit: two input wires, one output wire, an operator.
///
/// `Not` is unary: it reads only its left input's logical value. By the
/// convention adopted here `wire_r` is still populated (callers usually set
/// it to `wire_l`) and its labels still take part in the row layout of the
/// garbled table, so a `Not` gate has four rows like every other gate; the
/// truth table simply ignores the right input.
#[derive(Clone, Copy, PartialEq, Eq, Debug)]
pub struct Gate {
    pub wire_l: usize,
    pub wire_r: usize,
    pub wire_o: usize,
    pub gate_type: GateType,
}

/// The operator of a gate.
#[derive(Clone, Copy, PartialEq, Eq, Debug)]
pub enum GateType {
    Not,
    Xor,
    And,
    Or,
}

/// The logical truth table of an operator: `Not` complements its left input
/// and ignores the right one.
pub open spec fn truth_table(op: GateType, l: bool, r: bool) -> bool {
    match op {
        GateType::Not => !l,
        GateType::Xor => l != r,
        GateType::And => l && r,
        GateType::Or => l || r,
    }
}

/// The garbled table of one gate: exactly four ciphertexts, one per row
/// `(i, j)` of color bits, in canonical ascending row order
/// `(0,0), (0,1), (1,0), (1,1)` — never reordered by logical meaning.
#[derive(Clone)]
pub struct EncodedGate<B: Bits> {
    pub gate: Gate,
    ct00: B,
    ct01: B,
    ct10: B,
    ct11: B,
}

impl<B: Bits> EncodedGate<B> {
    /// Which gate this table belongs to.
    pub closed spec fn spec_gate(&self) -> Gate {
        self.gate
    }

    /// The bits of the ciphertext in row `(i, j)`.
    pub closed spec fn ct_bits(&self, i: bool, j: bool) -> Seq<bool> {
        if !i && !j {
            self.ct00.bits()
        } else if !i && j {
            self.ct01.bits()
        } else if i && !j {
            self.ct10.bits()
        } else {
            self.ct11.bits()
        }
    }

    /// The ciphertext in row `(i, j)`.
    pub fn ct(&self, i: bool, j: bool) -> (r: &B)
        ensures
            r.bits() == self.ct_bits(i, j),
    {
        if !i && !j {
            &self.ct00
        } else if !i && j {
            &self.ct01
        } else if i && !j {
            &self.ct10
        } else {
            &self.ct11
        }
    }

    /// The four ciphertexts in canonical ascending row order.
    pub fn rows(&self) -> (r: Vec<&B>)
        ensures
            r@.len() == 4,
            r@[0].bits() == self.ct_bits(false, false),
            r@[1].bits() == self.ct_bits(false, true),
            r@[2].bits() == self.ct_bits(true, false),
            r@[3].bits() == self.ct_bits(true, true),
    {
        let mut v: Vec<&B> = Vec::new();
        v.push(&self.ct00);
        v.push(&self.ct01);
        v.push(&self.ct10);
        v.push(&self.ct11);
        v
    }
}

/// The garbler of one session: holds the fixed session seed and the hash
/// and PRF collaborators. All operations are pure functions of the fields
/// and their arguments, so distinct wires and gates may be processed in any
/// order or in parallel.
#[derive(Clone)]
pub struct Garbler<B: Bits, H: HashFn<B>, R: PRF<B>> {
    fixed_prf_seed: B,
    hash_fn: H,
    prf: R,
}

impl<B: Bits, H: HashFn<B>, R: PRF<B>> Garbler<B, H, R> {
    /// The bits of the fixed per-session PRF seed.
    pub closed spec fn seed_bits(&self) -> Seq<bool> {
        self.fixed_prf_seed.bits()
    }

    /// The hash collaborator.
    pub closed spec fn hashf(&self) -> H {
        self.hash_fn
    }

    /// The PRF collaborator.
    pub closed spec fn prff(&self) -> R {
        self.prf
    }

    /// Well-formedness: the hash masks must be as wide as the labels they
    /// cover, and a label must have at least one bit to carry its color.
    pub open spec fn wf(&self) -> bool {
        &&& self.hashf().out_size() == self.prff().out_size()
        &&& self.prff().out_size() >= 1
    }

    /// Build a garbler for one session.
    pub fn new(fixed_prf_seed: B, hash_fn: H, prf: R) -> (r: Self)
        requires
            hash_fn.out_size() == prf.out_size(),
            prf.out_size() >= 1,
        ensures
            r.wf(),
            r.seed_bits() == fixed_prf_seed.bits(),
            r.hashf() == hash_fn,
            r.prff() == prf,
    {
        Garbler { fixed_prf_seed, hash_fn, prf }
    }

    /// The domain-separated per-wire PRF input: session seed then the
    /// fixed-width wire index.
    pub open spec fn wire_seed(&self, w: usize) -> Seq<bool> {
        self.seed_bits() + B::spec_index_bits(w)
    }

    /// The per-label PRF input: the per-wire input followed by a one-bit
    /// tag naming the logical value.
    pub open spec fn label_seed(&self, w: usize, v: bool) -> Seq<bool> {
        self.wire_seed(w).push(v)
    }

    /// The label of logical false on a wire: the raw PRF output.
    pub open spec fn false_label(&self, w: usize) -> Seq<bool> {
        self.prff().prf(self.label_seed(w, false))
    }

    /// The label of logical true on a wire: the raw PRF output with its
    /// color bit forced to the complement of the false label's color bit.
    pub open spec fn true_label(&self, w: usize) -> Seq<bool> {
        self.prff().prf(self.label_seed(w, true)).update(0, !self.false_label(w)[0])
    }

    /// The label carrying a given logical value on a wire.
    pub open spec fn label(&self, w: usize, v: bool) -> Seq<bool> {
        if v {
            self.true_label(w)
        } else {
            self.false_label(w)
        }
    }

    /// Whether both PRF evaluations of a wire succeed.
    pub open spec fn wire_ok(&self, w: usize) -> bool {
        &&& self.prff().prf_ok(self.label_seed(w, false))
        &&& self.prff().prf_ok(self.label_seed(w, true))
    }

    /// What `encode_wire` returns on success: the pair of labels of the
    /// wire, with the false label's color bit cached.
    pub open spec fn is_wire_encoding(&self, w: usize, ew: EncodedWire<B>) -> bool {
        &&& ew.spec_wire_index() == w
        &&& ew.false_bits() == self.false_label(w)
        &&& ew.true_bits() == self.true_label(w)
        &&& ew.color_bit() == self.false_label(w)[0]
    }

    /// Derive the two labels of a wire from the session seed and the wire
    /// index. Pure and deterministic: the result is a function of the
    /// garbler's fields and the index alone. Fails exactly when one of the
    /// two underlying PRF evaluations fails, and then returns no partial
    /// label.
    pub fn encode_wire(&self, wire_index: usize) -> (r: Result<
        EncodedWire<B>,
        YaoGCError,
    >)
        requires
            self.wf(),
        ensures
            r is Ok <==> self.wire_ok(wire_index),
            r matches Ok(ew) ==> self.is_wire_encoding(wire_index, ew)
                && ew.false_bits().len() == self.prff().out_size()
                && ew.true_bits().len() == self.prff().out_size(),
            r matches Err(e) ==> e is PRF,
    {
        let wire_bits = B::from_index(wire_index);
        let seed = self.fixed_prf_seed.concat(&wire_bits);
        let false_seed = seed.concat(&B::from_const_bit(false));
        proof {
            assert(false_seed.bits() =~= self.label_seed(wire_index, false));
        }
        let false_value = match self.prf.compute(&false_seed) {
            Ok(v) => v,
            Err(e) => {
                return Err(YaoGCError::PRF(e));
            },
        };
        let true_seed = seed.concat(&B::from_const_bit(true));
        proof {
            assert(true_seed.bits() =~= self.label_seed(wire_index, true));
        }
        let mut true_value = match self.prf.compute(&true_seed) {
            Ok(v) => v,
            Err(e) => {
                return Err(YaoGCError::PRF(e));
            },
        };
        proof {
            self.prff().lemma_prf_len(self.label_seed(wire_index, false));
            self.prff().lemma_prf_len(self.label_seed(wire_index, true));
        }
        let false_color_bit = false_value.get_lsb();
        true_value.modify_lsb(false_color_bit.not());
        Ok(EncodedWire { wire_index, false_value, true_value, false_color_bit })
    }

    /// The label of the row with color bit `i` on a wire: the one of the
    /// wire's two labels whose least-significant bit equals `i`.
    pub open spec fn row_label(&self, w: usize, i: bool) -> Seq<bool> {
        if self.false_label(w)[0] == i {
            self.false_label(w)
        } else {
            self.true_label(w)
        }
    }

    /// The logical value carried by the row-`i` label of a wire. It equals
    /// the false label's color bit for row 0 and its complement for row 1,
    /// so the garbler needs no lookup to recover it.
    pub open spec fn row_logical(&self, w: usize, i: bool) -> bool {
        i != self.false_label(w)[0]
    }

    /// The hash input of row `(i, j)` of a gate: the two row labels, the
    /// output wire index, and the row tag, concatenated in that order.
    pub open spec fn row_input(&self, gate: Gate, i: bool, j: bool) -> Seq<bool> {
        self.row_label(gate.wire_l, i) + self.row_label(gate.wire_r, j)
            + B::spec_index_bits(gate.wire_o) + seq![i, j]
    }

    /// The plaintext of row `(i, j)` of a gate: the output-wire label of
    /// the logical value its operator yields on that row's inputs.
    pub open spec fn row_output(&self, gate: Gate, i: bool, j: bool) -> Seq<bool> {
        self.label(
            gate.wire_o,
            truth_table(
                gate.gate_type,
                self.row_logical(gate.wire_l, i),
                self.row_logical(gate.wire_r, j),
            ),
        )
    }

    /// The ciphertext of row `(i, j)` of a gate: the row's plaintext masked
    /// with the hash of the row's input.
    pub open spec fn row_ct(&self, gate: Gate, i: bool, j: bool) -> Seq<bool> {
        xor_bits(self.hashf().hash(self.row_input(gate, i, j)), self.row_output(gate, i, j))
    }

    /// Whether every PRF evaluation a gate needs succeeds.
    pub open spec fn gate_wires_ok(&self, gate: Gate) -> bool {
        &&& self.wire_ok(gate.wire_l)
        &&& self.wire_ok(gate.wire_r)
        &&& self.wire_ok(gate.wire_o)
    }

    /// Whether every hash evaluation a gate needs succeeds.
    pub open spec fn gate_hashes_ok(&self, gate: Gate) -> bool {
        &&& self.hashf().hash_ok(self.row_input(gate, false, false))
        &&& self.hashf().hash_ok(self.row_input(gate, false, true))
        &&& self.hashf().hash_ok(self.row_input(gate, true, false))
        &&& self.hashf().hash_ok(self.row_input(gate, true, true))
    }

    /// What `encode_gate` returns on success: its gate and the four row
    /// ciphertexts in canonical order.
    pub open spec fn is_gate_encoding(&self, gate: Gate, eg: EncodedGate<B>) -> bool {
        &&& eg.spec_gate() == gate
        &&& eg.ct_bits(false, false) == self.row_ct(gate, false, false)
        &&& eg.ct_bits(false, true) == self.row_ct(gate, false, true)
        &&& eg.ct_bits(true, false) == self.row_ct(gate, true, false)
        &&& eg.ct_bits(true, true) == self.row_ct(gate, true, true)
    }

    /// The logical truth table of a gate's operator, evaluated over single
    /// bits of the label algebra.
    pub fn lookup_gate(gate: &Gate, l: B::Element, r: B::Element) -> (res: B::Element)
        ensures
            res.bval() == truth_table(gate.gate_type, l.bval(), r.bval()),
    {
        match gate.gate_type {
            GateType::Not => l.not(),
            GateType::And => l.and(&r),
            GateType::Xor => l.xor(&r),
            GateType::Or => l.or(&r),
        }
    }

    /// Garble one gate: derive the three wires' label pairs and produce the
    /// four-row encrypted truth table in canonical row order. Fails exactly
    /// when an underlying PRF or hash evaluation fails, and then produces
    /// no partial table; a PRF failure is reported before any hash runs.
    pub fn encode_gate(&self, gate: Gate) -> (r: Result<EncodedGate<B>, YaoGCError>)
        requires
            self.wf(),
        ensures
            r is Ok <==> self.gate_wires_ok(gate) && self.gate_hashes_ok(gate),
            r matches Ok(eg) ==> self.is_gate_encoding(gate, eg),
            r matches Err(e) ==> (e is PRF <==> !self.gate_wires_ok(gate)),
    {
        let false_bits = B::from_const_bit(false);
        let true_bits = B::from_const_bit(true);
        let encoded_wire_l = match self.encode_wire(gate.wire_l) {
            Ok(v) => v,
            Err(e) => {
                return Err(e);
            },
        };
        let l_color_false_bit = false_bits.mux(
            &true_bits,
            &encoded_wire_l.false_color_bit,
        ).get_lsb();
        let (l_color_false, l_color_true) = (
            encoded_wire_l.false_value.mux(&encoded_wire_l.true_value, &l_color_false_bit),
            encoded_wire_l.true_value.mux(&encoded_wire_l.false_value, &l_color_false_bit),
        );
        let encoded_wire_r = match self.encode_wire(gate.wire_r) {
            Ok(v) => v,
            Err(e) => {
                return Err(e);
            },
        };
        let r_color_false_bit = false_bits.mux(
            &true_bits,
            &encoded_wire_r.false_color_bit,
        ).get_lsb();
        let (r_color_false, r_color_true) = (
            encoded_wire_r.false_value.mux(&encoded_wire_r.true_value, &r_color_false_bit),
            encoded_wire_r.true_value.mux(&encoded_wire_r.false_value, &r_color_false_bit),
        );
        let encoded_wire_o = match self.encode_wire(gate.wire_o) {
            Ok(v) => v,
            Err(e) => {
                return Err(e);
            },
        };
        let s_false_false = Self::lookup_gate(&gate, l_color_false_bit, r_color_false_bit);
        let o_false_false = encoded_wire_o.false_value.mux(
            &encoded_wire_o.true_value,
            &s_false_false,
        );
        let s_false_true = Self::lookup_gate(&gate, l_color_false_bit, r_color_false_bit.not());
        let o_false_true = encoded_wire_o.false_value.mux(
            &encoded_wire_o.true_value,
            &s_false_true,
        );
        let s_true_false = Self::lookup_gate(&gate, l_color_false_bit.not(), r_color_false_bit);
        let o_true_false = encoded_wire_o.false_value.mux(
            &encoded_wire_o.true_value,
            &s_true_false,
        );
        let s_true_true = Self::lookup_gate(
            &gate,
            l_color_false_bit.not(),
            r_color_false_bit.not(),
        );
        let o_true_true = encoded_wire_o.false_value.mux(
            &encoded_wire_o.true_value,
            &s_true_true,
        );
        let wire_o_index_bits = B::from_index(gate.wire_o);
        let input_false_false = l_color_false.concat(&r_color_false).concat(
            &wire_o_index_bits,
        ).concat(&false_bits.concat(&false_bits));
        proof {
            assert(input_false_false.bits() =~= self.row_input(gate, false, false));
            assert(o_false_false.bits() == self.row_output(gate, false, false));
            self.hashf().lemma_hash_len(self.row_input(gate, false, false));
        }
        let h_false_false = match self.hash_fn.compute(&input_false_false) {
            Ok(h) => h,
            Err(e) => {
                return Err(YaoGCError::HashFn(e));
            },
        };
        let ct_false_false = h_false_false.xor(&o_false_false);
        let input_false_true = l_color_false.concat(&r_color_true).concat(
            &wire_o_index_bits,
        ).concat(&false_bits.concat(&true_bits));
        proof {
            assert(input_false_true.bits() =~= self.row_input(gate, false, true));
            assert(o_false_true.bits() == self.row_output(gate, false, true));
            self.hashf().lemma_hash_len(self.row_input(gate, false, true));
        }
        let h_false_true = match self.hash_fn.compute(&input_false_true) {
            Ok(h) => h,
            Err(e) => {
                return Err(YaoGCError::HashFn(e));
            },
        };
        let ct_false_true = h_false_true.xor(&o_false_true);
        let input_true_false = l_color_true.concat(&r_color_false).concat(
            &wire_o_index_bits,
        ).concat(&true_bits.concat(&false_bits));
        proof {
            assert(input_true_false.bits() =~= self.row_input(gate, true, false));
            assert(o_true_false.bits() == self.row_output(gate, true, false));
            self.hashf().lemma_hash_len(self.row_input(gate, true, false));
        }
        let h_true_false = match self.hash_fn.compute(&input_true_false) {
            Ok(h) => h,
            Err(e) => {
                return Err(YaoGCError::HashFn(e));
            },
        };
        let ct_true_false = h_true_false.xor(&o_true_false);
        let input_true_true = l_color_true.concat(&r_color_true).concat(
            &wire_o_index_bits,
        ).concat(&true_bits.concat(&true_bits));
        proof {
            assert(input_true_true.bits() =~= self.row_input(gate, true, true));
            assert(o_true_true.bits() == self.row_output(gate, true, true));
            self.hashf().lemma_hash_len(self.row_input(gate, true, true));
        }
        let h_true_true = match self.hash_fn.compute(&input_true_true) {
            Ok(h) => h,
            Err(e) => {
                return Err(YaoGCError::HashFn(e));
            },
        };
        let ct_true_true = h_true_true.xor(&o_true_true);
        Ok(
            EncodedGate {
                gate,
                ct00: ct_false_false,
                ct01: ct_false_true,
                ct10: ct_true_false,
                ct11: ct_true_true,
            },
        )
    }
}

/// The color-bit invariant: on every wire the true label's least-significant
/// bit is the complement of the false label's, so the two labels of a wire
/// never share a color bit.
pub proof fn lemma_color_bit_invariant<B: Bits, H: HashFn<B>, R: PRF<B>>(
    g: &Garbler<B, H, R>,
    w: usize,
)
    requires
        g.wf(),
    ensures
        g.true_label(w)[0] == !g.false_label(w)[0],
        g.label(w, true)[0] != g.label(w, false)[0],
{
    g.prff().lemma_prf_len(g.label_seed(w, true));
}

/// Determinism of label derivation: any two successful derivations for the
/// same garbler and the same wire index return bit-identical label pairs.
pub proof fn lemma_derive_deterministic<B: Bits, H: HashFn<B>, R: PRF<B>>(
    g: &Garbler<B, H, R>,
    w: usize,
    e1: EncodedWire<B>,
    e2: EncodedWire<B>,
)
    requires
        g.is_wire_encoding(w, e1),
        g.is_wire_encoding(w, e2),
    ensures
        e1.spec_wire_index() == e2.spec_wire_index(),
        e1.false_bits() == e2.false_bits(),
        e1.true_bits() == e2.true_bits(),
        e1.color_bit() == e2.color_bit(),
{
}

/// The operator truth tables: `And` is true only on two true inputs, `Or`
/// is false only on two false inputs, `Xor` is the parity of its inputs,
/// and `Not` complements its left input and ignores its right one.
pub proof fn lemma_truth_tables(l: bool, r: bool)
    ensures
        truth_table(GateType::And, l, r) == (l && r),
        truth_table(GateType::Or, l, r) == (l || r),
        truth_table(GateType::Xor, l, r) == (l != r),
        truth_table(GateType::Not, l, r) == !l,
{
}

/// Gate correctness (point and permute): an evaluator holding the labels
/// carrying logical `a` on the left wire and logical `b` on the right wire
/// reads the row `(i, j)` off their color bits — those rows hold exactly
/// the labels it holds — and unmasking that row's ciphertext with the hash
/// of that row's input yields exactly the output wire's label for
/// `truth_table(op, a, b)`, without revealing what the held labels denote.
pub proof fn lemma_gate_correctness<B: Bits, H: HashFn<B>, R: PRF<B>>(
    g: &Garbler<B, H, R>,
    gate: Gate,
    a: bool,
    b: bool,
)
    requires
        g.wf(),
    ensures
        ({
            let i = g.label(gate.wire_l, a)[0];
            let j = g.label(gate.wire_r, b)[0];
            &&& g.row_label(gate.wire_l, i) == g.label(gate.wire_l, a)
            &&& g.row_label(gate.wire_r, j) == g.label(gate.wire_r, b)
            &&& xor_bits(g.row_ct(gate, i, j), g.hashf().hash(g.row_input(gate, i, j)))
                == g.label(gate.wire_o, truth_table(gate.gate_type, a, b))
        }),
{
    lemma_color_bit_invariant(g, gate.wire_l);
    lemma_color_bit_invariant(g, gate.wire_r);
    lemma_color_bit_invariant(g, gate.wire_o);
    let i = g.label(gate.wire_l, a)[0];
    let j = g.label(gate.wire_r, b)[0];
    assert(g.row_logical(gate.wire_l, i) == a);
    assert(g.row_logical(gate.wire_r, j) == b);
    g.hashf().lemma_hash_len(g.row_input(gate, i, j));
    g.prff().lemma_prf_len(g.label_seed(gate.wire_o, false));
    g.prff().lemma_prf_len(g.label_seed(gate.wire_o, true));
    lemma_xor_unmask(g.hashf().hash(g.row_input(gate, i, j)), g.row_output(gate, i, j));
}

} // verus!
