//! Turning filtered lines into decoded JSON items.
//!
//! Each surviving line of an NDJSON stream should be one self-contained
//! JSON document of the shape the caller asked for. The lenient decoder
//! drops a line that is not; the strict decoder reports the fate of every
//! line, so callers that care about corruption can see it.

use vstd::prelude::*;
use crate::json::{json_model, json_of, parse_json, shape_matches, JsonModel, Shape};
use crate::lines::{line_views, lines_of, residue_of, LineSplitter};

verus! {

/// The fate of one line under the strict decoder.
pub enum LineOutcome {
    /// The line parsed and matches the target shape.
    Decoded(serde_json::Value),
    /// The line is not one valid JSON document.
    NotJson,
    /// The line is valid JSON but of another shape.
    WrongShape(serde_json::Value),
}

/// Decodes one line and reports its fate.
pub fn decode_line_strict(line: &[u8], shape: &Shape) -> (r: LineOutcome)
    ensures
        match r {
            LineOutcome::Decoded(v) => json_of(line@) == Some(json_model(v)) && shape_matches(
                json_model(v),
                *shape,
            ),
            LineOutcome::NotJson => json_of(line@) is None,
            LineOutcome::WrongShape(v) => json_of(line@) == Some(json_model(v)) && !shape_matches(
                json_model(v),
                *shape,
            ),
        },
{
    match parse_json(line) {
        None => LineOutcome::NotJson,
        Some(v) => {
            if shape.matches(&v) {
                LineOutcome::Decoded(v)
            } else {
                LineOutcome::WrongShape(v)
            }
        },
    }
}

/// Decodes one line, dropping it silently when it is not valid JSON of
/// the target shape.
pub fn decode_line(line: &[u8], shape: &Shape) -> (r: Option<serde_json::Value>)
    ensures
        match r {
            Some(v) => json_of(line@) == Some(json_model(v)) && shape_matches(
                json_model(v),
                *shape,
            ),
            None => !(json_of(line@) matches Some(m) && shape_matches(m, *shape)),
        },
{
    match decode_line_strict(line, shape) {
        LineOutcome::Decoded(v) => Some(v),
        LineOutcome::NotJson => None,
        LineOutcome::WrongShape(_) => None,
    }
}

/// What one line contributes to the decoded stream: nothing when it is
/// blank (a keep-alive heartbeat), not valid JSON, or of another shape;
/// otherwise its document.
pub open spec fn decoded_model(shape: Shape) -> spec_fn(Seq<u8>) -> Option<JsonModel> {
    |line: Seq<u8>|
        if line.len() == 0 {
            None
        } else {
            match json_of(line) {
                Some(m) => if shape_matches(m, shape) {
                    Some(m)
                } else {
                    None
                },
                None => None,
            }
        }
}

/// The documents a sequence of lines decodes to, in order.
pub open spec fn decoded_items(lines: Seq<Seq<u8>>, shape: Shape) -> Seq<JsonModel> {
    lines.filter_map(decoded_model(shape))
}

/// The models of a vector of decoded items.
pub open spec fn item_models(items: Seq<serde_json::Value>) -> Seq<JsonModel> {
    items.map_values(|v: serde_json::Value| json_model(v))
}

/// The fate of one line, at the level of the model.
pub ghost enum LineFate {
    /// A document of the target shape.
    Decoded(JsonModel),
    /// Not one valid JSON document.
    NotJson,
    /// A valid document of another shape.
    WrongShape(JsonModel),
}

/// The fate a strict outcome reports.
pub open spec fn outcome_fate(o: LineOutcome) -> LineFate {
    match o {
        LineOutcome::Decoded(v) => LineFate::Decoded(json_model(v)),
        LineOutcome::NotJson => LineFate::NotJson,
        LineOutcome::WrongShape(v) => LineFate::WrongShape(json_model(v)),
    }
}

/// What one line contributes to the strict stream: a blank keep-alive line
/// contributes nothing, and the fate of every other line is reported.
pub open spec fn fate_model(shape: Shape) -> spec_fn(Seq<u8>) -> Option<LineFate> {
    |line: Seq<u8>|
        if line.len() == 0 {
            None
        } else {
            match json_of(line) {
                Some(m) => if shape_matches(m, shape) {
                    Some(LineFate::Decoded(m))
                } else {
                    Some(LineFate::WrongShape(m))
                },
                None => Some(LineFate::NotJson),
            }
        }
}

/// The fates a sequence of lines reports, in order.
pub open spec fn reported_fates(lines: Seq<Seq<u8>>, shape: Shape) -> Seq<LineFate> {
    lines.filter_map(fate_model(shape))
}

/// The fates of a vector of strict outcomes.
pub open spec fn outcome_models(outcomes: Seq<LineOutcome>) -> Seq<LineFate> {
    outcomes.map_values(|o: LineOutcome| outcome_fate(o))
}

/// The full streaming pipeline: reassembles lines from byte chunks, drops
/// blank keep-alive lines, and decodes every surviving line that is valid
/// JSON of the target shape, silently skipping the rest.
pub struct NdjsonDecoder {
    splitter: LineSplitter,
    shape: Shape,
}

impl NdjsonDecoder {
    /// The bytes of the trailing partial line, still awaiting a
    /// terminator.
    pub closed spec fn buffered(self) -> Seq<u8> {
        self.splitter.buffered()
    }

    /// The shape this decoder was built for.
    pub closed spec fn target(self) -> Shape {
        self.shape
    }

    /// The internal splitter never buffers a complete terminator.
    pub closed spec fn wf(self) -> bool {
        self.splitter.wf()
    }

    /// A decoder for a fresh stream of items of the given shape.
    pub fn new(shape: Shape) -> (d: Self)
        ensures
            d.wf(),
            d.buffered() == Seq::<u8>::empty(),
            d.target() == shape,
    {
        NdjsonDecoder { splitter: LineSplitter::new(), shape }
    }

    /// Consumes one chunk of the stream and returns the items it
    /// completes, in wire order.
    pub fn push_chunk(&mut self, chunk: &[u8]) -> (items: Vec<serde_json::Value>)
        requires
            old(self).wf(),
        ensures
            final(self).wf(),
            final(self).target() == old(self).target(),
            item_models(items@) == decoded_items(
                lines_of(old(self).buffered(), chunk@),
                old(self).target(),
            ),
            final(self).buffered() == residue_of(old(self).buffered(), chunk@),
    {
        let lines = self.splitter.push_chunk(chunk);
        let ghost all = line_views(lines@);
        let ghost shape = self.shape;
        let ghost f = decoded_model(shape);
        let ghost snap = *self;
        let mut rest = lines;
        let mut items: Vec<serde_json::Value> = Vec::new();
        let ghost k: int = 0;
        while rest.len() > 0
            invariant
                0 <= k <= all.len(),
                *self == snap,
                self.shape == shape,
                f == decoded_model(shape),
                all == line_views(lines@),
                line_views(rest@) =~= all.skip(k),
                item_models(items@) == all.take(k).filter_map(f),
            decreases rest.len(),
        {
            proof {
                assert(line_views(rest@).len() == rest@.len());
                assert(k < all.len());
                all.lemma_filter_map_take_succ(f, k);
            }
            let ghost rest0 = rest@;
            let line = rest.remove(0);
            proof {
                assert(line@ == line_views(rest0)[0]);
                assert(line_views(rest0)[0] == all.skip(k)[0]);
                assert(all.skip(k)[0] == all[k]);
            }
            if line.len() > 0 {
                match decode_line(line.as_slice(), &self.shape) {
                    Some(v) => {
                        proof {
                            assert(f(line@) == Some(json_model(v)));
                        }
                        items.push(v);
                        assert(item_models(items@) =~= all.take(k).filter_map(f) + seq![
                            json_model(v),
                        ]);
                    },
                    None => {
                        proof {
                            assert(f(line@) is None);
                        }
                    },
                }
            } else {
                proof {
                    assert(f(line@) is None);
                }
            }
            proof {
                k = k + 1;
                assert(rest@ =~= rest0.skip(1));
                assert forall|j: int| 0 <= j < rest@.len() implies line_views(rest@)[j]
                    == all.skip(k)[j] by {
                    assert(rest@[j] == rest0[j + 1]);
                    assert(line_views(rest0)[j + 1] == all.skip(k - 1)[j + 1]);
                }
                assert(line_views(rest@) =~= all.skip(k));
            }
        }
        proof {
            assert(all.take(k) =~= all);
        }
        items
    }

    /// Consumes one chunk and reports the fate of every non-blank line it
    /// completes, in wire order: the strict face of the pipeline, for
    /// callers that must see corrupt lines rather than skip them.
    pub fn push_chunk_strict(&mut self, chunk: &[u8]) -> (outcomes: Vec<LineOutcome>)
        requires
            old(self).wf(),
        ensures
            final(self).wf(),
            final(self).target() == old(self).target(),
            outcome_models(outcomes@) == reported_fates(
                lines_of(old(self).buffered(), chunk@),
                old(self).target(),
            ),
            final(self).buffered() == residue_of(old(self).buffered(), chunk@),
    {
        let lines = self.splitter.push_chunk(chunk);
        let ghost all = line_views(lines@);
        let ghost shape = self.shape;
        let ghost f = fate_model(shape);
        let ghost snap = *self;
        let mut rest = lines;
        let mut outcomes: Vec<LineOutcome> = Vec::new();
        let ghost k: int = 0;
        while rest.len() > 0
            invariant
                0 <= k <= all.len(),
                *self == snap,
                self.shape == shape,
                f == fate_model(shape),
                all == line_views(lines@),
                line_views(rest@) =~= all.skip(k),
                outcome_models(outcomes@) == all.take(k).filter_map(f),
            decreases rest.len(),
        {
            proof {
                assert(line_views(rest@).len() == rest@.len());
                assert(k < all.len());
                all.lemma_filter_map_take_succ(f, k);
            }
            let ghost rest0 = rest@;
            let line = rest.remove(0);
            proof {
                assert(line@ == line_views(rest0)[0]);
                assert(line_views(rest0)[0] == all.skip(k)[0]);
                assert(all.skip(k)[0] == all[k]);
            }
            if line.len() > 0 {
                let o = decode_line_strict(line.as_slice(), &self.shape);
                proof {
                    assert(f(line@) == Some(outcome_fate(o)));
                }
                outcomes.push(o);
                assert(outcome_models(outcomes@) =~= all.take(k).filter_map(f) + seq![
                    outcome_fate(o),
                ]);
            } else {
                proof {
                    assert(f(line@) is None);
                }
            }
            proof {
                k = k + 1;
                assert(rest@ =~= rest0.skip(1));
                assert forall|j: int| 0 <= j < rest@.len() implies line_views(rest@)[j]
                    == all.skip(k)[j] by {
                    assert(rest@[j] == rest0[j + 1]);
                    assert(line_views(rest0)[j + 1] == all.skip(k - 1)[j + 1]);
                }
                assert(line_views(rest@) =~= all.skip(k));
            }
        }
        proof {
            assert(all.take(k) =~= all);
        }
        outcomes
    }

    /// Ends the stream. A trailing line that no terminator completed is
    /// discarded: the stream's producer never ends a record without one.
    pub fn finish(self) -> (residue: Vec<u8>)
        ensures
            residue@ == self.buffered(),
    {
        self.splitter.finish()
    }
}

} // verus!
