//! The collection of all symbols found by one scan.
//!
//! A `ZBarSymbolSet` is a shared-ownership handle onto a scan's result
//! records, like [`crate::symbol::ZBarSymbol`]: clones share the records,
//! which stay alive as long as any handle survives. Iteration walks the
//! symbols in scan order, sibling by sibling, and is restartable by asking
//! for a fresh iterator.

use std::rc::Rc;
use vstd::prelude::*;
use crate::symbol::{share_rc, spec_min, views_of, SymbolData, SymbolModel, ZBarSymbol};

verus! {

/// A handle onto the full result list of one scan.
pub struct ZBarSymbolSet {
    /// The scan's records, shared with every other handle into them.
    pub(crate) records: Rc<Vec<SymbolData>>,
}

impl View for ZBarSymbolSet {
    type V = Seq<SymbolModel>;

    closed spec fn view(&self) -> Seq<SymbolModel> {
        views_of(self.records@)
    }
}

impl ZBarSymbolSet {
    /// Wraps freshly produced scan records into a shared handle.
    pub(crate) fn from_records(records: Vec<SymbolData>) -> (r: ZBarSymbolSet)
        ensures
            r@ == views_of(records@),
    {
        ZBarSymbolSet { records: Rc::new(records) }
    }

    /// How many symbols the scan found, saturated to the widest count the
    /// interface can report.
    pub fn size(&self) -> (r: i32)
        ensures
            r as int == spec_min(self@.len() as int, i32::MAX as int),
    {
        let n = self.records.len();
        if n > i32::MAX as usize {
            i32::MAX
        } else {
            n as i32
        }
    }

    /// The first symbol of the scan, if it found any.
    pub fn first_symbol(&self) -> (r: Option<ZBarSymbol>)
        ensures
            match r {
                Some(s) => self@.len() > 0 && s.rest() == self@,
                None => self@.len() == 0,
            },
    {
        if self.records.len() > 0 {
            let s = ZBarSymbol::from_shared(&self.records, 0);
            proof {
                assert(views_of(self.records@).skip(0) =~= self@);
            }
            Some(s)
        } else {
            None
        }
    }

    /// The first symbol, with no engine-side filtering applied: the
    /// modeled engine reports every record unfiltered, so this is the
    /// first symbol itself.
    pub fn first_symbol_unfiltered(&self) -> (r: Option<ZBarSymbol>)
        ensures
            match r {
                Some(s) => self@.len() > 0 && s.rest() == self@,
                None => self@.len() == 0,
            },
    {
        self.first_symbol()
    }

    /// A fresh iterator over the symbols, starting at the first: calling
    /// this again restarts the walk from the first symbol.
    pub fn iter(&self) -> (r: SymbolIter)
        ensures
            r.set_view() == self@,
            r.position() == 0,
    {
        SymbolIter { records: share_rc(&self.records), index: 0 }
    }
}

impl Clone for ZBarSymbolSet {
    /// Shares the underlying records: the clone denotes the same set.
    fn clone(&self) -> (r: Self)
        ensures
            r == self,
    {
        ZBarSymbolSet { records: share_rc(&self.records) }
    }
}

/// A finite, single-pass walk over a scan's symbols; restartable by
/// asking the set for a fresh iterator.
pub struct SymbolIter {
    records: Rc<Vec<SymbolData>>,
    index: usize,
}

impl SymbolIter {
    /// The symbols being walked, in scan order.
    pub closed spec fn set_view(&self) -> Seq<SymbolModel> {
        views_of(self.records@)
    }

    /// How many symbols have been yielded so far.
    pub closed spec fn position(&self) -> int {
        self.index as int
    }

    /// Yields the next symbol, or nothing once every symbol of the scan
    /// has been yielded.
    pub fn next(&mut self) -> (r: Option<ZBarSymbol>)
        ensures
            final(self).set_view() == old(self).set_view(),
            match r {
                Some(s) => old(self).position() < old(self).set_view().len() && s.rest() == old(
                    self,
                ).set_view().skip(old(self).position()) && final(self).position() == old(
                    self,
                ).position() + 1,
                None => old(self).position() >= old(self).set_view().len() && final(self).position()
                    == old(self).position(),
            },
    {
        if self.index < self.records.len() {
            let s = ZBarSymbol::from_shared(&self.records, self.index);
            self.index = self.index + 1;
            Some(s)
        } else {
            None
        }
    }
}

} // verus!
