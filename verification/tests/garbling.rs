use vstd::prelude::{nat, Seq};
use yao_gc::{
    Bit, BitString, Bits, BoolBit, EncodedGate, Garbler, Gate, GateType, HashFn, HashFnError,
    PRFError, YaoGCError, PRF,
};

// The spec and proof members of `HashFn` and `PRF` are ghost: they give the
// implementations below no runtime behaviour and are never called here, but
// the compiled trait still lists them, so each impl stubs them out.

const WIDTH: usize = 16;

fn bits_of(b: &BitString) -> Vec<bool> {
    b.clone().to_elements().iter().map(|e| e.value()).collect()
}

/// A deterministic stand-in for a hash or PRF backend: folds the input bits
/// into an accumulator and spreads it over a fixed-width output.
fn scramble(input: &BitString, salt: u64) -> BitString {
    let mut acc: u64 = salt;
    for bit in bits_of(input) {
        acc = acc
            .wrapping_mul(6364136223846793005)
            .wrapping_add(if bit { 1442695040888963407 } else { 12345 });
    }
    let mut out = Vec::new();
    for k in 0..WIDTH {
        out.push(((acc >> (k + 8)) & 1) == 1);
    }
    BitString::from_const_bits(&out)
}

struct TestHash;

impl HashFn<BitString> for TestHash {
    fn hash_ok(&self, _input: Seq<bool>) -> bool {
        unreachable!()
    }
    fn hash(&self, _input: Seq<bool>) -> Seq<bool> {
        unreachable!()
    }
    fn out_size(&self) -> nat {
        unreachable!()
    }
    fn lemma_hash_len(&self, _input: Seq<bool>) {
        unreachable!()
    }
    fn compute(&self, input: &BitString) -> Result<BitString, HashFnError> {
        Ok(scramble(input, 0x9e3779b97f4a7c15))
    }
}

struct TestPrf;

impl PRF<BitString> for TestPrf {
    fn prf_ok(&self, _seed: Seq<bool>) -> bool {
        unreachable!()
    }
    fn prf(&self, _seed: Seq<bool>) -> Seq<bool> {
        unreachable!()
    }
    fn out_size(&self) -> nat {
        unreachable!()
    }
    fn lemma_prf_len(&self, _seed: Seq<bool>) {
        unreachable!()
    }
    fn compute(&self, seed: &BitString) -> Result<BitString, PRFError> {
        Ok(scramble(seed, 0x517cc1b727220a95))
    }
}

struct FailingHash;

impl HashFn<BitString> for FailingHash {
    fn hash_ok(&self, _input: Seq<bool>) -> bool {
        unreachable!()
    }
    fn hash(&self, _input: Seq<bool>) -> Seq<bool> {
        unreachable!()
    }
    fn out_size(&self) -> nat {
        unreachable!()
    }
    fn lemma_hash_len(&self, _input: Seq<bool>) {
        unreachable!()
    }
    fn compute(&self, _input: &BitString) -> Result<BitString, HashFnError> {
        Err(HashFnError::InnerHashFnError(String::from("hash backend down")))
    }
}

struct FailingPrf;

impl PRF<BitString> for FailingPrf {
    fn prf_ok(&self, _seed: Seq<bool>) -> bool {
        unreachable!()
    }
    fn prf(&self, _seed: Seq<bool>) -> Seq<bool> {
        unreachable!()
    }
    fn out_size(&self) -> nat {
        unreachable!()
    }
    fn lemma_prf_len(&self, _seed: Seq<bool>) {
        unreachable!()
    }
    fn compute(&self, _seed: &BitString) -> Result<BitString, PRFError> {
        Err(PRFError::InnerPRFError(String::from("prf backend down")))
    }
}

fn session_seed() -> BitString {
    BitString::from_const_bits(&[true, false, true, true, false, false, true, false])
}

fn garbler() -> Garbler<BitString, TestHash, TestPrf> {
    Garbler::new(session_seed(), TestHash, TestPrf)
}

/// What an evaluator does with one held label per input wire: read the row
/// off the color bits, rebuild the row's hash input, and unmask.
fn evaluate_row(
    eg: &EncodedGate<BitString>,
    la: &BitString,
    lb: &BitString,
    wire_o: usize,
) -> BitString {
    let i = bits_of(la)[0];
    let j = bits_of(lb)[0];
    let input = la
        .concat(lb)
        .concat(&BitString::from_index(wire_o))
        .concat(&BitString::from_const_bit(i).concat(&BitString::from_const_bit(j)));
    let mask = TestHash.compute(&input).unwrap();
    eg.ct(i, j).xor(&mask)
}

#[test]
fn color_bits_always_differ() {
    let g = garbler();
    for w in 0..8 {
        let ew = g.encode_wire(w).unwrap();
        let f = bits_of(ew.false_value());
        let t = bits_of(ew.true_value());
        assert_eq!(f.len(), WIDTH);
        assert_eq!(t.len(), WIDTH);
        assert_ne!(f[0], t[0]);
        assert_eq!(ew.false_color_bit().value(), f[0]);
        assert_eq!(ew.wire_index, w);
    }
}

#[test]
fn derive_labels_is_deterministic() {
    let g = garbler();
    let e1 = g.encode_wire(3).unwrap();
    let e2 = g.encode_wire(3).unwrap();
    assert_eq!(e1.wire_index, e2.wire_index);
    assert_eq!(bits_of(e1.false_value()), bits_of(e2.false_value()));
    assert_eq!(bits_of(e1.true_value()), bits_of(e2.true_value()));
    assert_eq!(e1.false_color_bit().value(), e2.false_color_bit().value());
}

#[test]
fn truth_tables_exact() {
    type G = Garbler<BitString, TestHash, TestPrf>;
    let gate_of = |op| Gate { wire_l: 0, wire_r: 1, wire_o: 2, gate_type: op };
    let lookup = |op, a, b| {
        G::lookup_gate(
            &gate_of(op),
            BoolBit::from_const_bit(a),
            BoolBit::from_const_bit(b),
        )
        .value()
    };
    assert!(lookup(GateType::And, true, true));
    assert!(!lookup(GateType::And, true, false));
    assert!(!lookup(GateType::And, false, true));
    assert!(!lookup(GateType::And, false, false));
    assert!(!lookup(GateType::Or, false, false));
    assert!(lookup(GateType::Or, false, true));
    assert!(lookup(GateType::Or, true, false));
    assert!(lookup(GateType::Or, true, true));
    for a in [false, true] {
        for b in [false, true] {
            assert_eq!(lookup(GateType::Xor, a, b), a != b);
            assert_eq!(lookup(GateType::Not, a, b), !a);
        }
    }
}

#[test]
fn and_gate_scenario() {
    let g = garbler();
    let w0 = g.encode_wire(0).unwrap();
    let w1 = g.encode_wire(1).unwrap();
    let w2 = g.encode_wire(2).unwrap();
    let gate = Gate { wire_l: 0, wire_r: 1, wire_o: 2, gate_type: GateType::And };
    let eg = g.encode_gate(gate).unwrap();
    assert_eq!(eg.gate, gate);
    for (a, b) in [(false, false), (false, true), (true, false), (true, true)] {
        let la = if a { w0.true_value() } else { w0.false_value() };
        let lb = if b { w1.true_value() } else { w1.false_value() };
        let out = evaluate_row(&eg, la, lb, 2);
        let expected = if a && b { w2.true_value() } else { w2.false_value() };
        let other = if a && b { w2.false_value() } else { w2.true_value() };
        assert!(out.equals(expected));
        assert!(!out.equals(other));
    }
}

#[test]
fn gate_correctness_all_operators() {
    let g = garbler();
    let expected_value = |op, a: bool, b: bool| match op {
        GateType::Not => !a,
        GateType::Xor => a != b,
        GateType::And => a && b,
        GateType::Or => a || b,
    };
    for op in [GateType::Not, GateType::Xor, GateType::And, GateType::Or] {
        let gate = Gate { wire_l: 4, wire_r: 7, wire_o: 9, gate_type: op };
        let wl = g.encode_wire(gate.wire_l).unwrap();
        let wr = g.encode_wire(gate.wire_r).unwrap();
        let wo = g.encode_wire(gate.wire_o).unwrap();
        let eg = g.encode_gate(gate).unwrap();
        for (a, b) in [(false, false), (false, true), (true, false), (true, true)] {
            let la = if a { wl.true_value() } else { wl.false_value() };
            let lb = if b { wr.true_value() } else { wr.false_value() };
            let out = evaluate_row(&eg, la, lb, gate.wire_o);
            let expected = if expected_value(op, a, b) {
                wo.true_value()
            } else {
                wo.false_value()
            };
            assert!(out.equals(expected));
        }
    }
}

#[test]
fn not_gate_with_repeated_input_wire() {
    let g = garbler();
    let gate = Gate { wire_l: 6, wire_r: 6, wire_o: 8, gate_type: GateType::Not };
    let w6 = g.encode_wire(6).unwrap();
    let w8 = g.encode_wire(8).unwrap();
    let eg = g.encode_gate(gate).unwrap();
    for a in [false, true] {
        let la = if a { w6.true_value() } else { w6.false_value() };
        let out = evaluate_row(&eg, la, la, 8);
        let expected = if !a { w8.true_value() } else { w8.false_value() };
        assert!(out.equals(expected));
    }
}

#[test]
fn table_always_has_four_rows() {
    let g = garbler();
    for op in [GateType::Not, GateType::Xor, GateType::And, GateType::Or] {
        let gate = Gate { wire_l: 3, wire_r: 4, wire_o: 5, gate_type: op };
        let eg = g.encode_gate(gate).unwrap();
        let rows = eg.rows();
        assert_eq!(rows.len(), 4);
        for row in &rows {
            assert_eq!(row.len(), WIDTH);
        }
        assert!(rows[0].equals(eg.ct(false, false)));
        assert!(rows[1].equals(eg.ct(false, true)));
        assert!(rows[2].equals(eg.ct(true, false)));
        assert!(rows[3].equals(eg.ct(true, true)));
    }
}

#[test]
fn hash_failure_propagates() {
    let g = Garbler::new(session_seed(), FailingHash, TestPrf);
    let gate = Gate { wire_l: 0, wire_r: 1, wire_o: 2, gate_type: GateType::And };
    let r = g.encode_gate(gate);
    match r {
        Err(YaoGCError::HashFn(e)) => assert_eq!(e.message(), "hash backend down"),
        _ => panic!("expected a hash failure"),
    }
}

#[test]
fn prf_failure_propagates() {
    let g = Garbler::new(session_seed(), TestHash, FailingPrf);
    assert!(matches!(g.encode_wire(0), Err(YaoGCError::PRF(_))));
    let gate = Gate { wire_l: 0, wire_r: 1, wire_o: 2, gate_type: GateType::Or };
    match g.encode_gate(gate) {
        Err(YaoGCError::PRF(e)) => assert_eq!(e.message(), "prf backend down"),
        _ => panic!("expected a prf failure"),
    }
}
