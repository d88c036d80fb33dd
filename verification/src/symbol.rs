//! One decoded barcode result.
//!
//! A `ZBarSymbol` is a shared-ownership handle into the list of results of
//! one scan: the listed records stay alive as long as any handle into the
//! list survives, and cloning a handle shares the records instead of
//! copying them. A symbol exposes its symbology, decoded text, quality,
//! duplicate count and location polygon, and links to the next sibling of
//! the same scan.

use std::rc::Rc;
use vstd::prelude::*;
use crate::config::{symbol_name, symbol_name_view, ZBarOrientation, ZBarSymbolType};
use crate::symbol_set::ZBarSymbolSet;
use crate::text::{int_dec_view, i32_to_dec};

verus! {

/// One decoded record: what the engine reports of a single barcode.
pub struct SymbolData {
    /// The symbology the barcode was decoded as.
    pub symbol_type: ZBarSymbolType,
    /// The decoded payload text.
    pub data: String,
    /// A decode quality score.
    pub quality: i32,
    /// The cache count: negative while still uncertain, zero when newly
    /// confirmed, positive for a confirmed duplicate.
    pub count: i32,
    /// The corner points of the barcode's location polygon.
    pub loc: Vec<(u32, u32)>,
    /// The decoder configuration bits in effect for this decode.
    pub configs: u32,
    /// The decode modifier bits reported for this decode.
    pub modifiers: u32,
    /// The coarse orientation the symbol was read in.
    pub orientation: ZBarOrientation,
}

/// The spec-level state of one decoded record.
pub ghost struct SymbolModel {
    pub symbol_type: ZBarSymbolType,
    pub data: Seq<char>,
    pub quality: int,
    pub count: int,
    pub loc: Seq<(u32, u32)>,
    pub configs: u32,
    pub modifiers: u32,
    pub orientation: ZBarOrientation,
}

impl View for SymbolData {
    type V = SymbolModel;

    open spec fn view(&self) -> SymbolModel {
        SymbolModel {
            symbol_type: self.symbol_type,
            data: self.data@,
            quality: self.quality as int,
            count: self.count as int,
            loc: self.loc@,
            configs: self.configs,
            modifiers: self.modifiers,
            orientation: self.orientation,
        }
    }
}

/// The spec-level states of a sequence of records.
pub open spec fn views_of(s: Seq<SymbolData>) -> Seq<SymbolModel> {
    s.map_values(|d: SymbolData| d@)
}

impl SymbolData {
    /// A record with the given attributes, a zero cache count, no
    /// configuration or modifier bits, and upward orientation.
    pub fn new(
        symbol_type: ZBarSymbolType,
        data: String,
        quality: i32,
        loc: Vec<(u32, u32)>,
    ) -> (r: SymbolData)
        ensures
            r@ == (SymbolModel {
                symbol_type,
                data: data@,
                quality: quality as int,
                count: 0,
                loc: loc@,
                configs: 0u32,
                modifiers: 0u32,
                orientation: ZBarOrientation::ZBAR_ORIENT_UP,
            }),
    {
        SymbolData {
            symbol_type,
            data,
            quality,
            count: 0,
            loc,
            configs: 0,
            modifiers: 0,
            orientation: ZBarOrientation::ZBAR_ORIENT_UP,
        }
    }
}

impl Clone for SymbolData {
    /// Copies the record field by field.
    fn clone(&self) -> (r: Self)
        ensures
            r@ == self@,
    {
        SymbolData {
            symbol_type: self.symbol_type,
            data: self.data.clone(),
            quality: self.quality,
            count: self.count,
            loc: copy_points(&self.loc),
            configs: self.configs,
            modifiers: self.modifiers,
            orientation: self.orientation,
        }
    }
}

/// Copies a point vector element by element.
pub(crate) fn copy_points(points: &Vec<(u32, u32)>) -> (r: Vec<(u32, u32)>)
    ensures
        r@ == points@,
{
    let mut out: Vec<(u32, u32)> = Vec::new();
    let mut i: usize = 0;
    while i < points.len()
        invariant
            i <= points@.len(),
            out@ =~= points@.take(i as int),
        decreases points@.len() - i,
    {
        out.push(points[i]);
        i = i + 1;
    }
    proof {
        assert(points@.take(points@.len() as int) =~= points@);
    }
    out
}

/// Relies on std's `Rc::clone`: the returned handle shares the same
/// allocation as the argument, raising its reference count by one.
#[verifier::external_body]
pub(crate) fn share_rc<T>(rc: &Rc<T>) -> (r: Rc<T>)
    ensures
        r == rc,
{
    Rc::clone(rc)
}

/// A handle onto one decoded symbol of a scan's result list.
pub struct ZBarSymbol {
    /// The scan's records, shared with every other handle into them.
    pub(crate) records: Rc<Vec<SymbolData>>,
    /// Which record this handle denotes.
    pub(crate) index: usize,
}

impl ZBarSymbol {
    /// A handle always denotes a record inside the shared list.
    #[verifier::type_invariant]
    pub closed spec fn inv(&self) -> bool {
        self.index < self.records@.len()
    }

    /// This symbol and its remaining siblings, in scan order.
    pub closed spec fn rest(&self) -> Seq<SymbolModel> {
        views_of(self.records@).skip(self.index as int)
    }

    /// The spec-level state of this symbol.
    pub open spec fn model(&self) -> SymbolModel {
        self.rest()[0]
    }

    /// Wraps a shared record list into a handle onto record `index`.
    pub(crate) fn from_shared(records: &Rc<Vec<SymbolData>>, index: usize) -> (r: ZBarSymbol)
        requires
            index < records@.len(),
        ensures
            r.rest() == views_of(records@).skip(index as int),
    {
        ZBarSymbol { records: share_rc(records), index }
    }

    /// The symbology this symbol was decoded as.
    pub fn symbol_type(&self) -> (r: ZBarSymbolType)
        ensures
            r == self.model().symbol_type,
    {
        proof {
            use_type_invariant(self);
        }
        self.records[self.index].symbol_type
    }

    /// The decoded payload text, borrowed from the shared records.
    pub fn data(&self) -> (r: &str)
        ensures
            r@ == self.model().data,
    {
        proof {
            use_type_invariant(self);
        }
        self.records[self.index].data.as_str()
    }

    /// The decode quality score.
    pub fn quality(&self) -> (r: i32)
        ensures
            r as int == self.model().quality,
    {
        proof {
            use_type_invariant(self);
        }
        self.records[self.index].quality
    }

    /// The cache count: negative while the engine is still uncertain,
    /// zero when newly confirmed, positive for a confirmed duplicate.
    pub fn count(&self) -> (r: i32)
        ensures
            r as int == self.model().count,
    {
        proof {
            use_type_invariant(self);
        }
        self.records[self.index].count
    }

    /// How many corner points the location polygon has, saturated to the
    /// widest count the interface can report.
    pub fn loc_size(&self) -> (r: u32)
        ensures
            r as int == spec_min(self.model().loc.len() as int, u32::MAX as int),
    {
        proof {
            use_type_invariant(self);
        }
        let n = self.records[self.index].loc.len();
        if n > u32::MAX as usize {
            u32::MAX
        } else {
            n as u32
        }
    }

    /// The x coordinate of polygon point `index`, or nothing beyond the
    /// polygon's end.
    pub fn loc_x(&self, index: u32) -> (r: Option<u32>)
        ensures
            r == (if (index as int) < self.model().loc.len() {
                Some(self.model().loc[index as int].0)
            } else {
                None::<u32>
            }),
    {
        proof {
            use_type_invariant(self);
        }
        let points = &self.records[self.index].loc;
        if (index as usize) < points.len() {
            Some(points[index as usize].0)
        } else {
            None
        }
    }

    /// The y coordinate of polygon point `index`, or nothing beyond the
    /// polygon's end.
    pub fn loc_y(&self, index: u32) -> (r: Option<u32>)
        ensures
            r == (if (index as int) < self.model().loc.len() {
                Some(self.model().loc[index as int].1)
            } else {
                None::<u32>
            }),
    {
        proof {
            use_type_invariant(self);
        }
        let points = &self.records[self.index].loc;
        if (index as usize) < points.len() {
            Some(points[index as usize].1)
        } else {
            None
        }
    }

    /// Polygon point `index` as an `(x, y)` pair, or nothing beyond the
    /// polygon's end.
    pub fn loc(&self, index: u32) -> (r: Option<(u32, u32)>)
        ensures
            r == (if (index as int) < self.model().loc.len() {
                Some(self.model().loc[index as int])
            } else {
                None::<(u32, u32)>
            }),
    {
        proof {
            use_type_invariant(self);
        }
        let points = &self.records[self.index].loc;
        if (index as usize) < points.len() {
            Some(points[index as usize])
        } else {
            None
        }
    }

    /// The next sibling decoded by the same scan, if any.
    pub fn next(&self) -> (r: Option<ZBarSymbol>)
        ensures
            match r {
                Some(s) => self.rest().len() > 1 && s.rest() == self.rest().skip(1),
                None => self.rest().len() == 1,
            },
    {
        proof {
            use_type_invariant(self);
        }
        let n = self.records.len();
        if self.index + 1 < n {
            let s = ZBarSymbol { records: share_rc(&self.records), index: self.index + 1 };
            proof {
                assert(s.rest() =~= self.rest().skip(1));
            }
            Some(s)
        } else {
            None
        }
    }

    /// The decoder configuration bits in effect for this decode.
    pub fn configs(&self) -> (r: u32)
        ensures
            r == self.model().configs,
    {
        proof {
            use_type_invariant(self);
        }
        self.records[self.index].configs
    }

    /// The decode modifier bits reported for this decode.
    pub fn modifiers(&self) -> (r: u32)
        ensures
            r == self.model().modifiers,
    {
        proof {
            use_type_invariant(self);
        }
        self.records[self.index].modifiers
    }

    /// The coarse orientation the symbol was read in.
    pub fn orientation(&self) -> (r: ZBarOrientation)
        ensures
            r == self.model().orientation,
    {
        proof {
            use_type_invariant(self);
        }
        self.records[self.index].orientation
    }

    /// The sub-symbols of a composite decode. The modeled engine decodes
    /// no composite symbologies, so no symbol carries components.
    pub fn components(&self) -> (r: Option<ZBarSymbolSet>)
        ensures
            r is None,
    {
        None
    }

    /// The first sub-symbol of a composite decode. The modeled engine
    /// decodes no composite symbologies, so there is none.
    pub fn first_component(&self) -> (r: Option<ZBarSymbol>)
        ensures
            r is None,
    {
        None
    }

    /// A structured text dump of this symbol, for debugging and interop.
    pub fn xml(&self) -> (r: String)
        ensures
            r@ == xml_view(self.model()),
    {
        let mut s = String::new();
        s.append("<symbol type='");
        s.append(symbol_name(self.symbol_type()));
        s.append("' quality='");
        let quality = i32_to_dec(self.quality());
        s.append(quality.as_str());
        s.append("'><data><![CDATA[");
        s.append(self.data());
        s.append("]]></data></symbol>");
        proof {
            assert(s@ =~= xml_view(self.model()));
        }
        s
    }

    /// The location polygon of this symbol.
    pub fn polygon(&self) -> (r: Polygon)
        ensures
            r.model() == self.model(),
    {
        Polygon { symbol: self.clone() }
    }
}

/// The smaller of two integers.
pub open spec fn spec_min(a: int, b: int) -> int {
    if a < b {
        a
    } else {
        b
    }
}

/// The text `xml` renders for a symbol.
pub open spec fn xml_view(m: SymbolModel) -> Seq<char> {
    "<symbol type='"@ + symbol_name_view(m.symbol_type) + "' quality='"@ + int_dec_view(m.quality)
        + "'><data><![CDATA["@ + m.data + "]]></data></symbol>"@
}

impl Clone for ZBarSymbol {
    /// Shares the underlying records: the clone denotes the same symbol.
    fn clone(&self) -> (r: Self)
        ensures
            r == self,
    {
        proof {
            use_type_invariant(self);
        }
        ZBarSymbol { records: share_rc(&self.records), index: self.index }
    }
}

/// The location polygon of one symbol, indexable by corner.
pub struct Polygon {
    symbol: ZBarSymbol,
}

impl Polygon {
    /// The symbol this polygon belongs to.
    pub closed spec fn model(&self) -> SymbolModel {
        self.symbol.model()
    }

    /// Corner `index` as an `(x, y)` pair, or nothing beyond the end.
    pub fn point(&self, index: u32) -> (r: Option<(u32, u32)>)
        ensures
            r == (if (index as int) < self.model().loc.len() {
                Some(self.model().loc[index as int])
            } else {
                None::<(u32, u32)>
            }),
    {
        self.symbol.loc(index)
    }

    /// A fresh iterator over the corners, starting at the first.
    pub fn iter(&self) -> (r: PolygonIter)
        ensures
            r.model() == self.model(),
            r.position() == 0,
    {
        PolygonIter { symbol: self.symbol.clone(), index: 0 }
    }
}

/// A finite, restartable walk over a symbol's polygon corners.
pub struct PolygonIter {
    symbol: ZBarSymbol,
    index: usize,
}

impl PolygonIter {
    /// The symbol whose corners are walked.
    pub closed spec fn model(&self) -> SymbolModel {
        self.symbol.model()
    }

    /// The corner the next call will yield.
    pub closed spec fn position(&self) -> int {
        self.index as int
    }

    /// Yields the next corner, or nothing once the polygon is exhausted.
    pub fn next(&mut self) -> (r: Option<(u32, u32)>)
        ensures
            final(self).model() == old(self).model(),
            r == (if old(self).position() < old(self).model().loc.len() {
                Some(old(self).model().loc[old(self).position()])
            } else {
                None::<(u32, u32)>
            }),
            r is Some ==> final(self).position() == old(self).position() + 1,
            r is None ==> final(self).position() == old(self).position(),
    {
        proof {
            use_type_invariant(&self.symbol);
        }
        let points = &self.symbol.records[self.symbol.index].loc;
        if self.index < points.len() {
            let p = points[self.index];
            self.index = self.index + 1;
            Some(p)
        } else {
            None
        }
    }
}

} // verus!
