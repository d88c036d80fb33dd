//! The image scanner: a configurable scanning context.
//!
//! A scanner holds which symbologies it decodes and an optional
//! cross-frame duplicate cache. Scanning an image recognizes the symbols
//! its pixel content encodes, keeps those whose symbology is enabled,
//! suppresses cached duplicates, attaches the result set to the image and
//! returns it: after a successful scan the image's symbols are always
//! present.

use vstd::prelude::*;
use crate::config::{SymbologyConfig, SymbologyConfigModel, ZBarConfig, ZBarSymbolType};
use crate::img::{ImageModel, ZBarImage};
use crate::symbol::{copy_points, views_of, SymbolData, SymbolModel};
use crate::symbol_set::ZBarSymbolSet;
use crate::text::str_eq;
use crate::ZBarResult;

verus! {

/// The spec-level states of a sequence of payload strings.
pub open spec fn seen_views(s: Seq<String>) -> Seq<Seq<char>> {
    s.map_values(|x: String| x@)
}

/// Whether a payload is among the already reported ones.
pub open spec fn seen_contains(seen: Seq<Seq<char>>, data: Seq<char>) -> bool {
    exists|i: int| 0 <= i < seen.len() && seen[i] == data
}

/// Whether a scan reports an encoded symbol: its symbology must be
/// enabled, and, with the cache on, its payload must not have been
/// reported before.
pub open spec fn reports(
    config: SymbologyConfigModel,
    cache: bool,
    seen: Seq<Seq<char>>,
    m: SymbolModel,
) -> bool {
    config.enabled(m.symbol_type) && (!cache || !seen_contains(seen, m.data))
}

/// A reported symbol, as the scan confirms it: the cache count is zero.
pub open spec fn confirmed(m: SymbolModel) -> SymbolModel {
    SymbolModel { count: 0, ..m }
}

/// What one scan reports for an image's encoded symbols, in order.
pub open spec fn scan_results(
    encoded: Seq<SymbolModel>,
    config: SymbologyConfigModel,
    cache: bool,
    seen: Seq<Seq<char>>,
) -> Seq<SymbolModel>
    decreases encoded.len(),
{
    if encoded.len() == 0 {
        Seq::empty()
    } else {
        let prefix = scan_results(encoded.drop_last(), config, cache, seen);
        if reports(config, cache, seen, encoded.last()) {
            prefix.push(confirmed(encoded.last()))
        } else {
            prefix
        }
    }
}

/// The payloads of a result sequence, in order.
pub open spec fn payloads_of(results: Seq<SymbolModel>) -> Seq<Seq<char>> {
    results.map_values(|m: SymbolModel| m.data)
}

/// A configuration in the state a fresh scanner starts from: every
/// symbology disabled, so explicit enables are additive and
/// deterministic.
pub open spec fn fresh_config() -> SymbologyConfigModel {
    SymbologyConfigModel {
        base: false,
        overrides: Seq::empty(),
        tuning: Seq::empty(),
    }
}

/// The spec-level state of a scanner.
pub ghost struct ScannerModel {
    /// Which symbologies are decoded, and recorded tuning.
    pub config: SymbologyConfigModel,
    /// Whether cross-frame duplicate suppression is on.
    pub cache: bool,
    /// The payloads reported by earlier scans of this scanner.
    pub seen: Seq<Seq<char>>,
    /// The results of the latest scan, if any.
    pub results: Option<Seq<SymbolModel>>,
}

/// A scanning context: configured symbologies, the duplicate cache, and
/// the results of its latest scan.
pub struct ZBarImageScanner {
    config: SymbologyConfig,
    cache: bool,
    seen: Vec<String>,
    results: Option<ZBarSymbolSet>,
}

impl View for ZBarImageScanner {
    type V = ScannerModel;

    closed spec fn view(&self) -> ScannerModel {
        ScannerModel {
            config: self.config@,
            cache: self.cache,
            seen: seen_views(self.seen@),
            results: match self.results {
                Some(s) => Some(s@),
                None => None,
            },
        }
    }
}

impl ZBarImageScanner {
    /// Creates a scanner with every symbology disabled, the cache off and
    /// no results.
    pub fn new() -> (r: ZBarImageScanner)
        ensures
            r@ == (ScannerModel {
                config: fresh_config(),
                cache: false,
                seen: Seq::<Seq<char>>::empty(),
                results: None::<Seq<SymbolModel>>,
            }),
    {
        let r = ZBarImageScanner {
            config: SymbologyConfig::with_base(false),
            cache: false,
            seen: Vec::new(),
            results: None,
        };
        proof {
            assert(seen_views(r.seen@) =~= Seq::<Seq<char>>::empty());
        }
        r
    }

    /// A builder that accumulates configuration and produces a configured
    /// scanner in one step.
    pub fn builder() -> (r: ImageScannerBuilder)
        ensures
            r.cache_view() == false,
            r.requests_view() == Seq::<(ZBarSymbolType, ZBarConfig, i32)>::empty(),
    {
        ImageScannerBuilder::new()
    }

    /// Records one configuration request. Every request the enumerations
    /// can express is understood, so this always succeeds.
    pub fn set_config(
        &mut self,
        symbol_type: ZBarSymbolType,
        config: ZBarConfig,
        value: i32,
    ) -> (r: ZBarResult<()>)
        ensures
            r is Ok,
            final(self)@ == (ScannerModel {
                config: old(self)@.config.with_config(symbol_type, config, value),
                ..old(self)@
            }),
    {
        self.config.apply(symbol_type, config, value);
        Ok(())
    }

    /// Toggles cross-frame duplicate suppression.
    pub fn enable_cache(&mut self, enable: bool)
        ensures
            final(self)@ == (ScannerModel { cache: enable, ..old(self)@ }),
    {
        self.cache = enable;
    }

    /// Detaches the image's scan results and drops the scanner's retained
    /// ones, so the image can be reused in a tight loop.
    pub fn recycle_image(&mut self, image: &mut ZBarImage)
        ensures
            final(image)@ == (ImageModel { symbols: None::<Seq<SymbolModel>>, ..old(image)@ }),
            final(self)@ == (ScannerModel { results: None::<Seq<SymbolModel>>, ..old(self)@ }),
    {
        image.clear_symbols();
        self.results = None;
    }

    /// The result set of the latest scan, if any.
    pub fn results(&self) -> (r: Option<ZBarSymbolSet>)
        ensures
            match r {
                Some(s) => self@.results == Some(s@),
                None => self@.results is None,
            },
    {
        match &self.results {
            Some(s) => Some(s.clone()),
            None => None,
        }
    }

    /// Scans an image: recognizes the symbols its content encodes, keeps
    /// those of enabled symbologies, suppresses cached duplicates,
    /// attaches the result set to the image and returns it.
    ///
    /// Scanning itself always succeeds — finding nothing is an empty
    /// result, not an error — and afterwards the image's symbols are
    /// guaranteed present.
    pub fn scan_image(&mut self, image: &mut ZBarImage) -> (r: ZBarResult<ZBarSymbolSet>)
        ensures
            ({
                let found = scan_results(
                    old(image)@.encoded,
                    old(self)@.config,
                    old(self)@.cache,
                    old(self)@.seen,
                );
                match r {
                    Ok(set) => set@ == found && final(image)@ == (ImageModel {
                        symbols: Some(found),
                        ..old(image)@
                    }) && final(self)@ == (ScannerModel {
                        seen: if old(self)@.cache {
                            old(self)@.seen + payloads_of(found)
                        } else {
                            old(self)@.seen
                        },
                        results: Some(found),
                        ..old(self)@
                    }),
                    Err(_) => false,
                }
            }),
    {
        let found = scan_records(&self.config, self.cache, &self.seen, image.encoded_records());
        if self.cache {
            let mut i: usize = 0;
            while i < found.len()
                invariant
                    i <= found@.len(),
                    self.config == old(self).config,
                    self.cache == old(self).cache,
                    self.results == old(self).results,
                    seen_views(self.seen@) =~= seen_views(old(self).seen@) + payloads_of(
                        views_of(found@).take(i as int),
                    ),
                decreases found@.len() - i,
            {
                let ghost pre_seen = self.seen@;
                self.seen.push(found[i].data.clone());
                proof {
                    assert(seen_views(self.seen@) =~= seen_views(pre_seen).push(
                        found@[i as int]@.data,
                    ));
                    assert(payloads_of(views_of(found@).take(i as int + 1)) =~= payloads_of(
                        views_of(found@).take(i as int),
                    ).push(found@[i as int]@.data));
                    assert(seen_views(self.seen@) =~= seen_views(old(self).seen@) + payloads_of(
                        views_of(found@).take(i as int + 1),
                    ));
                }
                i = i + 1;
            }
            proof {
                assert(views_of(found@).take(found@.len() as int) =~= views_of(found@));
            }
        }
        let set = ZBarSymbolSet::from_records(found);
        image.attach_symbols(set.clone());
        self.results = Some(set.clone());
        Ok(set)
    }
}

impl Default for ZBarImageScanner {
    /// The same state `new` creates: every symbology disabled, the cache
    /// off and no results.
    fn default() -> (r: ZBarImageScanner)
        ensures
            r@ == (ScannerModel {
                config: fresh_config(),
                cache: false,
                seen: Seq::<Seq<char>>::empty(),
                results: None::<Seq<SymbolModel>>,
            }),
    {
        ZBarImageScanner::new()
    }
}

/// The records one scan reports, given the scanner's state.
pub(crate) fn scan_records(
    config: &SymbologyConfig,
    cache: bool,
    seen: &Vec<String>,
    encoded: &Vec<SymbolData>,
) -> (r: Vec<SymbolData>)
    ensures
        views_of(r@) == scan_results(views_of(encoded@), config@, cache, seen_views(seen@)),
{
    let mut out: Vec<SymbolData> = Vec::new();
    let mut i: usize = 0;
    while i < encoded.len()
        invariant
            i <= encoded@.len(),
            views_of(out@) =~= scan_results(
                views_of(encoded@).take(i as int),
                config@,
                cache,
                seen_views(seen@),
            ),
        decreases encoded@.len() - i,
    {
        let enabled = config.is_enabled(encoded[i].symbol_type);
        let suppressed = cache && seen_lookup(seen, encoded[i].data.as_str());
        if enabled && !suppressed {
            let rec = SymbolData {
                symbol_type: encoded[i].symbol_type,
                data: encoded[i].data.clone(),
                quality: encoded[i].quality,
                count: 0,
                loc: copy_points(&encoded[i].loc),
                configs: encoded[i].configs,
                modifiers: encoded[i].modifiers,
                orientation: encoded[i].orientation,
            };
            out.push(rec);
            proof {
                assert(views_of(out@) =~= views_of(out@.drop_last()).push(out@.last()@));
            }
        }
        proof {
            assert(views_of(encoded@).take(i as int + 1).drop_last() =~= views_of(
                encoded@,
            ).take(i as int));
            assert(views_of(encoded@).take(i as int + 1).last() == encoded@[i as int]@);
        }
        i = i + 1;
    }
    proof {
        assert(views_of(encoded@).take(encoded@.len() as int) =~= views_of(encoded@));
    }
    out
}

/// Whether a payload is among the already reported ones.
fn seen_lookup(seen: &Vec<String>, data: &str) -> (r: bool)
    ensures
        r == seen_contains(seen_views(seen@), data@),
{
    let mut i: usize = 0;
    while i < seen.len()
        invariant
            i <= seen@.len(),
            forall|j: int| 0 <= j < i ==> seen@[j]@ != data@,
        decreases seen@.len() - i,
    {
        if str_eq(seen[i].as_str(), data) {
            proof {
                assert(seen_views(seen@)[i as int] == data@);
            }
            return true;
        }
        i = i + 1;
    }
    false
}

/// A builder that accumulates `(symbology, option, value)` requests and a
/// cache flag, and applies them to a fresh scanner in one step.
pub struct ImageScannerBuilder {
    cache: bool,
    requests: Vec<(ZBarSymbolType, ZBarConfig, i32)>,
}

impl ImageScannerBuilder {
    /// Whether the built scanner will cache duplicates.
    pub closed spec fn cache_view(&self) -> bool {
        self.cache
    }

    /// The accumulated configuration requests, in order.
    pub closed spec fn requests_view(&self) -> Seq<(ZBarSymbolType, ZBarConfig, i32)> {
        self.requests@
    }

    /// An empty builder: no requests, cache off.
    pub fn new() -> (r: ImageScannerBuilder)
        ensures
            r.cache_view() == false,
            r.requests_view() == Seq::<(ZBarSymbolType, ZBarConfig, i32)>::empty(),
    {
        let r = ImageScannerBuilder { cache: false, requests: Vec::new() };
        proof {
            assert(r.requests@ =~= Seq::<(ZBarSymbolType, ZBarConfig, i32)>::empty());
        }
        r
    }

    /// Appends one configuration request.
    pub fn with_config(self, symbol_type: ZBarSymbolType, config: ZBarConfig, value: i32) -> (r:
        ImageScannerBuilder)
        ensures
            r.cache_view() == self.cache_view(),
            r.requests_view() == self.requests_view().push((symbol_type, config, value)),
    {
        let mut requests = self.requests;
        requests.push((symbol_type, config, value));
        ImageScannerBuilder { cache: self.cache, requests }
    }

    /// Sets the cache flag of the scanner to build.
    pub fn with_cache(self, cache: bool) -> (r: ImageScannerBuilder)
        ensures
            r.cache_view() == cache,
            r.requests_view() == self.requests_view(),
    {
        ImageScannerBuilder { cache, requests: self.requests }
    }

    /// Builds the scanner: starts from the fresh all-disabled state and
    /// applies every accumulated request in order, then the cache flag.
    /// Every expressible request is understood, so this always succeeds.
    pub fn build(self) -> (r: ZBarResult<ZBarImageScanner>)
        ensures
            match r {
                Ok(scanner) => scanner@ == (ScannerModel {
                    config: fresh_config().with_config_seq(self.requests_view()),
                    cache: self.cache_view(),
                    seen: Seq::<Seq<char>>::empty(),
                    results: None::<Seq<SymbolModel>>,
                }),
                Err(_) => false,
            },
    {
        let mut scanner = ZBarImageScanner::new();
        let mut i: usize = 0;
        while i < self.requests.len()
            invariant
                i <= self.requests@.len(),
                scanner@ == (ScannerModel {
                    config: fresh_config().with_config_seq(self.requests@.take(i as int)),
                    cache: false,
                    seen: Seq::<Seq<char>>::empty(),
                    results: None::<Seq<SymbolModel>>,
                }),
            decreases self.requests@.len() - i,
        {
            let request = self.requests[i];
            match scanner.set_config(request.0, request.1, request.2) {
                Ok(()) => {},
                Err(e) => {
                    return Err(e);
                },
            }
            proof {
                assert(self.requests@.take(i as int + 1).drop_last() =~= self.requests@.take(
                    i as int,
                ));
                assert(self.requests@.take(i as int + 1).last() == self.requests@[i as int]);
            }
            i = i + 1;
        }
        scanner.enable_cache(self.cache);
        proof {
            assert(self.requests@.take(self.requests@.len() as int) =~= self.requests@);
        }
        Ok(scanner)
    }
}

impl Default for ImageScannerBuilder {
    /// The same state `new` creates: no requests, cache off.
    fn default() -> (r: ImageScannerBuilder)
        ensures
            r.cache_view() == false,
            r.requests_view() == Seq::<(ZBarSymbolType, ZBarConfig, i32)>::empty(),
    {
        ImageScannerBuilder::new()
    }
}

/// A scan finds what is there: if the image encodes a symbol whose
/// symbology the scanner has enabled and whose payload the cache does not
/// suppress, the scan's result set is not empty.
pub proof fn lemma_scan_finds_enabled(
    encoded: Seq<SymbolModel>,
    config: SymbologyConfigModel,
    cache: bool,
    seen: Seq<Seq<char>>,
    i: int,
)
    requires
        0 <= i < encoded.len(),
        reports(config, cache, seen, encoded[i]),
    ensures
        scan_results(encoded, config, cache, seen).len() > 0,
    decreases encoded.len(),
{
    if i == encoded.len() - 1 {
    } else {
        lemma_scan_finds_enabled(encoded.drop_last(), config, cache, seen, i);
    }
}

/// A scan of a fully disabled scanner finds nothing: if no encoded
/// symbol's symbology is enabled, the result set is empty.
pub proof fn lemma_scan_all_disabled(
    encoded: Seq<SymbolModel>,
    config: SymbologyConfigModel,
    cache: bool,
    seen: Seq<Seq<char>>,
)
    requires
        forall|i: int|
            0 <= i < encoded.len() ==> !config.enabled((#[trigger] encoded[i]).symbol_type),
    ensures
        scan_results(encoded, config, cache, seen).len() == 0,
    decreases encoded.len(),
{
    if encoded.len() > 0 {
        lemma_scan_all_disabled(encoded.drop_last(), config, cache, seen);
    }
}

} // verus!
