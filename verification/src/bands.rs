//! Structural comparison of raster bands and whole-dataset band layouts.

use vstd::prelude::*;

verus! {

/// The pixel sample type of a raster band: a closed enumeration of the
/// supported sample types, compared by value equality.
#[derive(Clone, Copy, Debug, PartialEq, Eq, Structural)]
pub enum PixelType {
    Unknown,
    Byte,
    Int8,
    UInt16,
    Int16,
    UInt32,
    Int32,
    UInt64,
    Int64,
    Float32,
    Float64,
    CInt16,
    CInt32,
    CFloat32,
    CFloat64,
}

/// A read-only structural snapshot of one raster band: its pixel sample
/// type and the block size (tile width and height) the format uses for
/// chunked I/O access to the band.
///
/// Nodata value, statistics, metadata, color interpretation, pixel
/// checksums, overviews and masks are deliberately not part of the
/// snapshot: comparing them is an acknowledged future extension, not a
/// silent omission.
#[derive(Clone, Copy, Debug, PartialEq, Eq, Structural)]
pub struct BandDescriptor {
    pub pixel_type: PixelType,
    pub block_width: usize,
    pub block_height: usize,
}

/// A read-only structural snapshot of one raster dataset: its raster size
/// in pixels and one [`BandDescriptor`] per band, in band order. The band
/// count is the length of `bands`.
#[derive(Clone, Debug)]
pub struct DatasetDescriptor {
    pub raster_width: usize,
    pub raster_height: usize,
    pub bands: Vec<BandDescriptor>,
}

/// The first structural difference a comparison found, identifying which
/// field differs and, for per-band fields, which band (1-based).
///
/// A mismatch is a legitimate `false` verdict, never an error: the
/// comparator reports it and returns, so that a batch of comparisons is
/// never aborted because two rasters differ.
#[derive(Clone, Copy, Debug, PartialEq, Eq, Structural)]
pub enum Mismatch {
    /// The two datasets have different numbers of bands.
    BandCount { golden: usize, new: usize },
    /// The two datasets have different raster sizes in pixels.
    RasterSize {
        golden_width: usize,
        golden_height: usize,
        new_width: usize,
        new_height: usize,
    },
    /// The bands at the given index have different pixel sample types.
    PixelType { band: usize, golden: PixelType, new: PixelType },
    /// The bands at the given index have different block sizes.
    BlockSize {
        band: usize,
        golden_width: usize,
        golden_height: usize,
        new_width: usize,
        new_height: usize,
    },
}

impl DatasetDescriptor {
    /// The number of bands the dataset holds.
    pub fn band_count(&self) -> (r: usize)
        ensures
            r == self.bands@.len(),
    {
        self.bands.len()
    }

    /// The raster size as a (width, height) pair of pixel counts.
    pub fn raster_size(&self) -> (r: (usize, usize))
        ensures
            r == (self.raster_width, self.raster_height),
    {
        (self.raster_width, self.raster_height)
    }

    /// The band at a 1-based index. Callers must have established that the
    /// index is in range, so an out-of-range fetch can never happen.
    pub fn band(&self, index: usize) -> (r: &BandDescriptor)
        requires
            1 <= index <= self.bands@.len(),
        ensures
            *r == self.bands@[index - 1],
    {
        &self.bands[index - 1]
    }
}

/// Two bands match when their pixel types and block sizes are equal.
pub open spec fn band_matches(golden: BandDescriptor, new: BandDescriptor) -> bool {
    &&& golden.pixel_type == new.pixel_type
    &&& golden.block_width == new.block_width
    &&& golden.block_height == new.block_height
}

/// The mismatch a band comparison at the given 1-based index owes: the
/// pixel types are compared first, the block sizes second, and the first
/// difference is the one reported.
pub open spec fn spec_band_mismatch(
    golden: BandDescriptor,
    new: BandDescriptor,
    band: usize,
) -> Option<Mismatch> {
    if golden.pixel_type != new.pixel_type {
        Some(
            Mismatch::PixelType { band, golden: golden.pixel_type, new: new.pixel_type },
        )
    } else if golden.block_width != new.block_width || golden.block_height != new.block_height {
        Some(
            Mismatch::BlockSize {
                band,
                golden_width: golden.block_width,
                golden_height: golden.block_height,
                new_width: new.block_width,
                new_height: new.block_height,
            },
        )
    } else {
        None
    }
}

/// Compare one golden band against its candidate counterpart, reporting the
/// first mismatching field, or `None` when the bands match. `band` is the
/// 1-based index the diagnostic names.
pub fn diagnose_band(golden: &BandDescriptor, new: &BandDescriptor, band: usize) -> (r: Option<
    Mismatch,
>)
    ensures
        r == spec_band_mismatch(*golden, *new, band),
        r is None <==> band_matches(*golden, *new),
{
    if golden.pixel_type != new.pixel_type {
        return Some(
            Mismatch::PixelType { band, golden: golden.pixel_type, new: new.pixel_type },
        );
    }
    if golden.block_width != new.block_width || golden.block_height != new.block_height {
        return Some(
            Mismatch::BlockSize {
                band,
                golden_width: golden.block_width,
                golden_height: golden.block_height,
                new_width: new.block_width,
                new_height: new.block_height,
            },
        );
    }
    None
}

/// Compare one golden band against its candidate counterpart: true iff
/// pixel type and block size both match. `band` is the 1-based index a
/// diagnostic would name.
pub fn compare_band(golden: &BandDescriptor, new: &BandDescriptor, band: usize) -> (r: bool)
    ensures
        r == band_matches(*golden, *new),
{
    diagnose_band(golden, new, band).is_none()
}

/// Two datasets match when they have the same band count, the same raster
/// size, and every pair of corresponding bands matches.
pub open spec fn datasets_match(golden: DatasetDescriptor, new: DatasetDescriptor) -> bool {
    &&& golden.bands@.len() == new.bands@.len()
    &&& golden.raster_width == new.raster_width
    &&& golden.raster_height == new.raster_height
    &&& forall|i: int|
        0 <= i < golden.bands@.len() ==> band_matches(
            #[trigger] golden.bands@[i],
            new.bands@[i],
        )
}

/// The diagnostic of the first mismatching band pair at or after position
/// `i` (0-based), or `None` when every remaining pair matches. The
/// diagnostic names the band by its 1-based index.
pub open spec fn spec_first_band_mismatch(
    golden: Seq<BandDescriptor>,
    new: Seq<BandDescriptor>,
    i: int,
) -> Option<Mismatch>
    decreases golden.len() - i,
{
    if i < 0 || i >= golden.len() || i >= new.len() {
        None
    } else if !band_matches(golden[i], new[i]) {
        spec_band_mismatch(golden[i], new[i], (i + 1) as usize)
    } else {
        spec_first_band_mismatch(golden, new, i + 1)
    }
}

/// The diagnostic a whole-dataset comparison owes: band counts are checked
/// first, raster sizes second, and only then the bands in order, the first
/// mismatching band deciding the report.
pub open spec fn spec_dataset_mismatch(
    golden: DatasetDescriptor,
    new: DatasetDescriptor,
) -> Option<Mismatch> {
    if golden.bands@.len() != new.bands@.len() {
        Some(
            Mismatch::BandCount {
                golden: golden.bands@.len() as usize,
                new: new.bands@.len() as usize,
            },
        )
    } else if golden.raster_width != new.raster_width || golden.raster_height
        != new.raster_height {
        Some(
            Mismatch::RasterSize {
                golden_width: golden.raster_width,
                golden_height: golden.raster_height,
                new_width: new.raster_width,
                new_height: new.raster_height,
            },
        )
    } else {
        spec_first_band_mismatch(golden.bands@, new.bands@, 0)
    }
}

/// A run of band pairs is mismatch-free iff every pair in it matches.
proof fn lemma_first_band_mismatch_none(
    golden: Seq<BandDescriptor>,
    new: Seq<BandDescriptor>,
    i: int,
)
    requires
        golden.len() == new.len(),
        0 <= i <= golden.len(),
    ensures
        (spec_first_band_mismatch(golden, new, i) is None) <==> (forall|j: int|
            i <= j < golden.len() ==> band_matches(#[trigger] golden[j], new[j])),
    decreases golden.len() - i,
{
    if i < golden.len() {
        lemma_first_band_mismatch_none(golden, new, i + 1);
        if !band_matches(golden[i], new[i]) {
            assert(spec_band_mismatch(golden[i], new[i], (i + 1) as usize) is Some);
        }
    }
}

/// Compare all bands of two datasets, reporting the first structural
/// difference in the order the comparison proceeds: band count, then
/// raster size, then each band pair in ascending band order. `None` means
/// the datasets match.
///
/// The shape checks come first on purpose: a band is only ever fetched
/// once both datasets are known to hold it, so per-band iteration is safe
/// by construction.
pub fn diagnose_bands(golden: &DatasetDescriptor, new: &DatasetDescriptor) -> (r: Option<
    Mismatch,
>)
    ensures
        r == spec_dataset_mismatch(*golden, *new),
        r is None <==> datasets_match(*golden, *new),
{
    let golden_count = golden.band_count();
    let new_count = new.band_count();
    if golden_count != new_count {
        return Some(Mismatch::BandCount { golden: golden_count, new: new_count });
    }
    if golden.raster_width != new.raster_width || golden.raster_height != new.raster_height {
        return Some(
            Mismatch::RasterSize {
                golden_width: golden.raster_width,
                golden_height: golden.raster_height,
                new_width: new.raster_width,
                new_height: new.raster_height,
            },
        );
    }
    let mut i: usize = 0;
    while i < golden_count
        invariant
            golden.bands@.len() == golden_count,
            new.bands@.len() == golden_count,
            golden.raster_width == new.raster_width,
            golden.raster_height == new.raster_height,
            i <= golden_count,
            forall|j: int|
                0 <= j < i ==> band_matches(#[trigger] golden.bands@[j], new.bands@[j]),
            spec_first_band_mismatch(golden.bands@, new.bands@, 0) == spec_first_band_mismatch(
                golden.bands@,
                new.bands@,
                i as int,
            ),
        decreases golden_count - i,
    {
        let band = i + 1;
        let golden_band = golden.band(band);
        let new_band = new.band(band);
        if let Some(mismatch) = diagnose_band(golden_band, new_band, band) {
            proof {
                assert(!band_matches(golden.bands@[i as int], new.bands@[i as int]));
                assert(spec_first_band_mismatch(golden.bands@, new.bands@, i as int)
                    == spec_band_mismatch(
                    golden.bands@[i as int],
                    new.bands@[i as int],
                    (i + 1) as usize,
                ));
            }
            return Some(mismatch);
        }
        proof {
            assert(spec_first_band_mismatch(golden.bands@, new.bands@, i as int)
                == spec_first_band_mismatch(golden.bands@, new.bands@, i + 1));
        }
        i = band;
    }
    proof {
        lemma_first_band_mismatch_none(golden.bands@, new.bands@, 0);
    }
    None
}

/// Compare all bands of two datasets: true iff band counts, raster sizes,
/// and every pair of corresponding bands match.
pub fn compare_bands(golden: &DatasetDescriptor, new: &DatasetDescriptor) -> (r: bool)
    ensures
        r == datasets_match(*golden, *new),
{
    diagnose_bands(golden, new).is_none()
}

/// Datasets with different band counts never match, and the diagnostic
/// reports the two counts — before any band would be fetched.
pub proof fn lemma_band_count_mismatch_first(golden: DatasetDescriptor, new: DatasetDescriptor)
    requires
        golden.bands@.len() != new.bands@.len(),
    ensures
        !datasets_match(golden, new),
        spec_dataset_mismatch(golden, new) == Some(
            Mismatch::BandCount {
                golden: golden.bands@.len() as usize,
                new: new.bands@.len() as usize,
            },
        ),
{
}

/// Datasets with equal band counts but different raster sizes never match,
/// and the diagnostic reports the two sizes.
pub proof fn lemma_raster_size_mismatch(golden: DatasetDescriptor, new: DatasetDescriptor)
    requires
        golden.bands@.len() == new.bands@.len(),
        golden.raster_width != new.raster_width || golden.raster_height != new.raster_height,
    ensures
        !datasets_match(golden, new),
        spec_dataset_mismatch(golden, new) == Some(
            Mismatch::RasterSize {
                golden_width: golden.raster_width,
                golden_height: golden.raster_height,
                new_width: new.raster_width,
                new_height: new.raster_height,
            },
        ),
{
}

/// The comparison short-circuits at the first mismatching band pair: when
/// the bands before 0-based position `k` all match and the pair at `k`
/// does not, the diagnostic is that pair's, naming band `k + 1` — the
/// bands after `k` play no part in the verdict.
pub proof fn lemma_first_band_mismatch_prefix(
    golden: Seq<BandDescriptor>,
    new: Seq<BandDescriptor>,
    k: int,
)
    requires
        golden.len() == new.len(),
        0 <= k < golden.len(),
        forall|j: int| 0 <= j < k ==> band_matches(#[trigger] golden[j], new[j]),
        !band_matches(golden[k], new[k]),
    ensures
        spec_first_band_mismatch(golden, new, 0) == spec_band_mismatch(
            golden[k],
            new[k],
            (k + 1) as usize,
        ),
{
    lemma_first_band_mismatch_stops(golden, new, 0, k);
}

/// Helper for the short-circuit law: walking from position `i` past
/// matching pairs reaches the first mismatching pair `k`.
proof fn lemma_first_band_mismatch_stops(
    golden: Seq<BandDescriptor>,
    new: Seq<BandDescriptor>,
    i: int,
    k: int,
)
    requires
        golden.len() == new.len(),
        0 <= i <= k < golden.len(),
        forall|j: int| i <= j < k ==> band_matches(#[trigger] golden[j], new[j]),
        !band_matches(golden[k], new[k]),
    ensures
        spec_first_band_mismatch(golden, new, i) == spec_band_mismatch(
            golden[k],
            new[k],
            (k + 1) as usize,
        ),
    decreases k - i,
{
    if i < k {
        lemma_first_band_mismatch_stops(golden, new, i + 1, k);
    }
}

} // verus!
