//! The counted references that a value holds. Each live reference handle in a
//! value is one counted reference to its object: whoever duplicates the value
//! owes an increment on each of them, and whoever ends it a decrement on each.
//! An array that is not owned holds none: they are its owner's.

use vstd::prelude::*;
use crate::cell::{cell_fits, CellView};
use crate::safearray::SafeArrayView;
use crate::value::{Value, ValueView};
use crate::variant::{spec_value, PayloadView, VariantView};
use crate::vartype::array_tag;

verus! {

/// The live reference in a cell, and those of a dynamic value in it.
pub open spec fn cell_references(c: CellView) -> Seq<usize>
    decreases c,
{
    match c {
        CellView::Object(h) => if h != 0 {
            seq![h]
        } else {
            Seq::empty()
        },
        CellView::Nested(v) => references_of(v),
        _ => Seq::empty(),
    }
}

/// The live references in the first `n` cells, in order.
pub open spec fn cells_references(cells: Seq<CellView>, n: nat) -> Seq<usize>
    decreases cells, n,
{
    if n == 0 || n > cells.len() {
        Seq::empty()
    } else {
        cells_references(cells, (n - 1) as nat) + cell_references(cells[n - 1])
    }
}

/// The live references that an array holds for itself: those in its cells,
/// in storage order, where it is owned; none where it is not.
pub open spec fn array_references(a: SafeArrayView) -> Seq<usize>
    decreases a,
{
    match a.buffer {
        Some(b) => if a.owned {
            cells_references(b.cells, b.cells.len())
        } else {
            Seq::empty()
        },
        None => Seq::empty(),
    }
}

/// The live references that a dynamic value holds: its own reference handle,
/// those of a value nested in it, and those of an array in it.
pub open spec fn references_of(v: VariantView) -> Seq<usize>
    decreases v,
{
    match v.data {
        PayloadView::Object(h) => if h != 0 {
            seq![h]
        } else {
            Seq::empty()
        },
        PayloadView::Nested(inner) => references_of(*inner),
        PayloadView::Array(a) => array_references(a),
        _ => Seq::empty(),
    }
}

/// The live references that a value holds.
pub open spec fn value_references(val: ValueView) -> Seq<usize> {
    match val {
        ValueView::UNKNOWN(h) => if h != 0 {
            seq![h]
        } else {
            Seq::empty()
        },
        ValueView::DISPATCH(h) => if h != 0 {
            seq![h]
        } else {
            Seq::empty()
        },
        ValueView::VARIANT(v) => references_of(v),
        ValueView::SAFEARRAY(a) => array_references(a),
        ValueView::ARRAY(a) => array_references(a),
        _ => Seq::empty(),
    }
}

impl Value {
    /// The addresses of the live references that the value holds, one entry
    /// for each reference.
    pub fn references(&self) -> (r: Vec<usize>)
        ensures
            r@ == value_references(self@),
    {
        match self {
            Value::UNKNOWN(h) => {
                let mut out: Vec<usize> = Vec::new();
                out.push(h.addr());
                out
            },
            Value::DISPATCH(h) => {
                let mut out: Vec<usize> = Vec::new();
                out.push(h.addr());
                out
            },
            Value::VARIANT(v) => v.references(),
            Value::SAFEARRAY(a) => a.references(),
            Value::ARRAY(a) => a.references(),
            _ => Vec::new(),
        }
    }
}

/// The value that a dynamic value decomposes into holds counted copies of the
/// references of the dynamic value, but for an array, which is handed out as
/// a view that is not owned and holds none.
pub proof fn lemma_decomposed_holds_the_same(v: VariantView)
    requires
        v.wf(),
        spec_value(v) is Ok,
    ensures
        value_references(spec_value(v)->Ok_0) == if array_tag(v.vt as int) {
            Seq::<usize>::empty()
        } else {
            references_of(v)
        },
{
    match v.data {
        PayloadView::Nested(inner) => {
            lemma_duplicate_holds_the_same(*inner);
        },
        _ => {},
    }
}

/// A duplicate holds as many references as what it duplicates, to the same
/// objects in the same order: each is a counted copy, on which one increment
/// is due.
pub proof fn lemma_duplicate_holds_the_same(v: VariantView)
    requires
        v.wf(),
    ensures
        references_of(v.copied()) == references_of(v),
    decreases v,
{
    match v.data {
        PayloadView::Nested(inner) => {
            lemma_duplicate_holds_the_same(*inner);
        },
        PayloadView::Array(a) => {
            lemma_array_duplicate_holds_the_same(a);
        },
        _ => {},
    }
}

/// The same, of an array.
pub proof fn lemma_array_duplicate_holds_the_same(a: SafeArrayView)
    requires
        a.wf(),
    ensures
        array_references(a.copied()) == array_references(a),
    decreases a,
{
    if a.owned && a.buffer is Some {
        let b = a.buffer->0;
        let c = a.copied().buffer->0;
        lemma_cells_duplicate_holds_the_same(a, b.cells.len());
    }
}

/// The same, of the first `n` cells of an owned array.
pub proof fn lemma_cells_duplicate_holds_the_same(a: SafeArrayView, n: nat)
    requires
        a.wf(),
        a.owned,
        a.buffer is Some,
        n <= a.buffer->0.cells.len(),
    ensures
        cells_references(a.copied().buffer->0.cells, n) == cells_references(a.buffer->0.cells, n),
    decreases a, n,
{
    if n > 0 {
        let b = a.buffer->0;
        let c = a.copied().buffer->0;
        lemma_cells_duplicate_holds_the_same(a, (n - 1) as nat);
        assert(c.cells.len() == b.cells.len());
        assert(c.cells[n - 1] == b.cells[n - 1].copied());
        match b.cells[n - 1] {
            CellView::Nested(inner) => {
                assert(cell_fits(b.vt as int, b.cells[n - 1]));
                lemma_duplicate_holds_the_same(inner);
            },
            _ => {},
        }
        assert(cell_references(c.cells[n - 1]) == cell_references(b.cells[n - 1]));
        assert(cells_references(c.cells, n) == cells_references(c.cells, (n - 1) as nat)
            + cell_references(c.cells[n - 1]));
        assert(cells_references(b.cells, n) == cells_references(b.cells, (n - 1) as nat)
            + cell_references(b.cells[n - 1]));
    }
}

} // verus!
