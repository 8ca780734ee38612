//! Streaming splitter for the Annex-B byte-stream framing of H.264.
//!
//! NAL units are carried between `00 00 01` start codes. Bytes before the
//! first start code are discarded, a run of three or more zero bytes ends the
//! current unit, and the zeros that belong to a terminating start code are not
//! part of the unit's payload. The unit that is still open when the input
//! stops is reported separately as incomplete: its payload can never be
//! trusted to be whole.
//!
//! The splitter is a byte-level state machine, so feeding it one window at a
//! time gives the same result as feeding the whole buffer at once; this is
//! stated and proved as [`lemma_scan_bytes_append`].

use vstd::prelude::*;

verus! {

/// Position of the scanner within the byte stream, named for the bytes most
/// recently examined.
#[derive(Clone, Copy, Debug, PartialEq, Eq, Structural)]
pub enum ScanPhase {
    /// Between units, not inside a candidate start code.
    Gap,
    /// Between units, one `00` seen.
    GapOne,
    /// Between units, at least two `00` seen.
    GapTwo,
    /// Inside a unit.
    Unit,
    /// Inside a unit, one pending `00` that may open a start code.
    UnitOne,
    /// Inside a unit, two pending `00` that may open a start code.
    UnitTwo,
}

impl ScanPhase {
    /// Whether a unit is currently open.
    pub open spec fn in_unit(self) -> bool {
        self is Unit || self is UnitOne || self is UnitTwo
    }
}

/// Mathematical state of the splitter: the phase, the payload of the open
/// unit (pending zeros excluded), and the finished units in stream order.
pub struct ScanModel {
    pub phase: ScanPhase,
    pub cur: Seq<u8>,
    pub units: Seq<Seq<u8>>,
}

/// State of the splitter before any byte has been seen.
pub open spec fn scan_init() -> ScanModel {
    ScanModel { phase: ScanPhase::Gap, cur: Seq::empty(), units: Seq::empty() }
}

/// One step of the splitter on byte `b`.
///
/// Within a unit, a lone zero is held back until the next byte decides
/// whether it opens a start code; `00 00 01` finishes the unit and opens the
/// next one, `00 00 00` finishes the unit and returns to the gap. Outside a
/// unit, any byte other than a start-code byte abandons the candidate prefix.
pub open spec fn scan_byte(m: ScanModel, b: u8) -> ScanModel {
    match m.phase {
        ScanPhase::Gap => {
            if b == 0 {
                ScanModel { phase: ScanPhase::GapOne, ..m }
            } else {
                ScanModel { phase: ScanPhase::Gap, ..m }
            }
        },
        ScanPhase::GapOne => {
            if b == 0 {
                ScanModel { phase: ScanPhase::GapTwo, ..m }
            } else {
                ScanModel { phase: ScanPhase::Gap, ..m }
            }
        },
        ScanPhase::GapTwo => {
            if b == 0 {
                ScanModel { phase: ScanPhase::GapTwo, ..m }
            } else if b == 1 {
                ScanModel { phase: ScanPhase::Unit, cur: Seq::empty(), ..m }
            } else {
                ScanModel { phase: ScanPhase::Gap, ..m }
            }
        },
        ScanPhase::Unit => {
            if b == 0 {
                ScanModel { phase: ScanPhase::UnitOne, ..m }
            } else {
                ScanModel { phase: ScanPhase::Unit, cur: m.cur.push(b), ..m }
            }
        },
        ScanPhase::UnitOne => {
            if b == 0 {
                ScanModel { phase: ScanPhase::UnitTwo, ..m }
            } else {
                ScanModel { phase: ScanPhase::Unit, cur: m.cur.push(0).push(b), ..m }
            }
        },
        ScanPhase::UnitTwo => {
            if b == 0 {
                ScanModel {
                    phase: ScanPhase::GapTwo,
                    cur: Seq::empty(),
                    units: m.units.push(m.cur),
                }
            } else if b == 1 {
                ScanModel {
                    phase: ScanPhase::Unit,
                    cur: Seq::empty(),
                    units: m.units.push(m.cur),
                }
            } else {
                ScanModel { phase: ScanPhase::Unit, cur: m.cur.push(0).push(0).push(b), ..m }
            }
        },
    }
}

/// The splitter folded over a whole byte sequence.
pub open spec fn scan_bytes(m: ScanModel, bs: Seq<u8>) -> ScanModel
    decreases bs.len(),
{
    if bs.len() == 0 {
        m
    } else {
        scan_bytes(scan_byte(m, bs.first()), bs.drop_first())
    }
}

/// Feeding a stream in two pieces equals feeding it whole: window boundaries
/// cannot change which units are discovered or where they end.
pub proof fn lemma_scan_bytes_append(m: ScanModel, a: Seq<u8>, b: Seq<u8>)
    ensures
        scan_bytes(m, a + b) == scan_bytes(scan_bytes(m, a), b),
    decreases a.len(),
{
    if a.len() == 0 {
        assert(a + b =~= b);
    } else {
        assert((a + b).first() == a.first());
        assert((a + b).drop_first() =~= a.drop_first() + b);
        lemma_scan_bytes_append(scan_byte(m, a.first()), a.drop_first(), b);
    }
}

/// Extending the input by one byte runs one more step of the splitter.
pub proof fn lemma_scan_bytes_snoc(m: ScanModel, a: Seq<u8>, b: u8)
    ensures
        scan_bytes(m, a.push(b)) == scan_byte(scan_bytes(m, a), b),
{
    lemma_scan_bytes_append(m, a, seq![b]);
    assert(a.push(b) =~= a + seq![b]);
    assert(seq![b].drop_first() =~= Seq::<u8>::empty());
    assert(scan_bytes(scan_byte(scan_bytes(m, a), b), Seq::<u8>::empty()) == scan_byte(
        scan_bytes(m, a),
        b,
    ));
}

/// Weight of the open unit: the bytes consumed for it so far, start-code `01`
/// and pending zeros included.
pub open spec fn phase_cost(m: ScanModel) -> nat {
    match m.phase {
        ScanPhase::Gap => 0,
        ScanPhase::GapOne => 0,
        ScanPhase::GapTwo => 0,
        ScanPhase::Unit => m.cur.len() + 1,
        ScanPhase::UnitOne => m.cur.len() + 2,
        ScanPhase::UnitTwo => m.cur.len() + 3,
    }
}

/// Every finished unit accounts for at least three distinct input bytes, so
/// the number of units is bounded by the input length.
pub proof fn lemma_scan_byte_cost(m: ScanModel, b: u8)
    ensures
        3 * scan_byte(m, b).units.len() + phase_cost(scan_byte(m, b)) <= 3 * m.units.len()
            + phase_cost(m) + 1,
{
}

/// Bound on the unit count over a whole input: see [`lemma_scan_byte_cost`].
pub proof fn lemma_scan_bytes_cost(m: ScanModel, bs: Seq<u8>)
    ensures
        3 * scan_bytes(m, bs).units.len() + phase_cost(scan_bytes(m, bs)) <= 3 * m.units.len()
            + phase_cost(m) + bs.len(),
    decreases bs.len(),
{
    if bs.len() > 0 {
        lemma_scan_byte_cost(m, bs.first());
        lemma_scan_bytes_cost(scan_byte(m, bs.first()), bs.drop_first());
    }
}

/// Executable streaming splitter. Bytes are pushed in windows of any size;
/// the view is the [`ScanModel`] reached on everything pushed so far.
pub struct NalSplitter {
    phase: ScanPhase,
    cur: Vec<u8>,
    units: Vec<Vec<u8>>,
}

impl View for NalSplitter {
    type V = ScanModel;

    closed spec fn view(&self) -> ScanModel {
        ScanModel {
            phase: self.phase,
            cur: self.cur@,
            units: Seq::new(self.units@.len(), |i: int| self.units@[i]@),
        }
    }
}

impl NalSplitter {
    /// A splitter that has seen no bytes yet.
    pub fn new() -> (r: Self)
        ensures
            r@ == scan_init(),
    {
        let r = NalSplitter { phase: ScanPhase::Gap, cur: Vec::new(), units: Vec::new() };
        proof {
            assert(r@.cur =~= scan_init().cur);
            assert(r@.units =~= scan_init().units);
        }
        r
    }

    /// Advance the splitter by a single byte.
    pub fn push_byte(&mut self, b: u8)
        ensures
            final(self)@ == scan_byte(old(self)@, b),
    {
        let ghost pre = self@;
        match self.phase {
            ScanPhase::Gap => {
                self.phase = if b == 0 { ScanPhase::GapOne } else { ScanPhase::Gap };
            },
            ScanPhase::GapOne => {
                self.phase = if b == 0 { ScanPhase::GapTwo } else { ScanPhase::Gap };
            },
            ScanPhase::GapTwo => {
                if b == 0 {
                    self.phase = ScanPhase::GapTwo;
                } else if b == 1 {
                    self.phase = ScanPhase::Unit;
                    self.cur = Vec::new();
                } else {
                    self.phase = ScanPhase::Gap;
                }
            },
            ScanPhase::Unit => {
                if b == 0 {
                    self.phase = ScanPhase::UnitOne;
                } else {
                    self.cur.push(b);
                }
            },
            ScanPhase::UnitOne => {
                if b == 0 {
                    self.phase = ScanPhase::UnitTwo;
                } else {
                    self.phase = ScanPhase::Unit;
                    self.cur.push(0);
                    self.cur.push(b);
                }
            },
            ScanPhase::UnitTwo => {
                if b == 0 || b == 1 {
                    let done = self.cur.clone();
                    self.cur.clear();
                    self.units.push(done);
                    self.phase = if b == 0 { ScanPhase::GapTwo } else { ScanPhase::Unit };
                } else {
                    self.phase = ScanPhase::Unit;
                    self.cur.push(0);
                    self.cur.push(0);
                    self.cur.push(b);
                }
            },
        }
        proof {
            assert(self@.units =~= scan_byte(pre, b).units);
            assert(self@.cur =~= scan_byte(pre, b).cur);
        }
    }

    /// Feed one window of the stream.
    pub fn push(&mut self, data: &[u8])
        ensures
            final(self)@ == scan_bytes(old(self)@, data@),
    {
        let ghost pre = self@;
        let mut i: usize = 0;
        while i < data.len()
            invariant
                i <= data.len(),
                self@ == scan_bytes(pre, data@.take(i as int)),
            decreases data.len() - i,
        {
            let b = data[i];
            self.push_byte(b);
            proof {
                lemma_scan_bytes_snoc(pre, data@.take(i as int), b);
                assert(data@.take(i as int).push(b) =~= data@.take(i + 1 as int));
            }
            i = i + 1;
        }
        proof {
            assert(data@.take(data@.len() as int) =~= data@);
        }
    }

    /// Take the splitter apart: the finished units in stream order, and the
    /// payload of the unit still open when the input stopped, if any.
    pub fn into_parts(self) -> (r: (Vec<Vec<u8>>, Option<Vec<u8>>))
        ensures
            Seq::new(r.0@.len(), |i: int| r.0@[i]@) == self@.units,
            self@.phase.in_unit() ==> (r.1 matches Some(t) && t@ == self@.cur),
            !self@.phase.in_unit() ==> r.1 is None,
    {
        let NalSplitter { phase, cur, units } = self;
        let trailing = match phase {
            ScanPhase::Unit | ScanPhase::UnitOne | ScanPhase::UnitTwo => Some(cur),
            _ => None,
        };
        (units, trailing)
    }
}

} // verus!
