//! Exact comparison of affine georeferencing transforms.

use vstd::prelude::*;

verus! {

broadcast use vstd::array::group_array_axioms;

/// The six coefficients of the affine transform mapping pixel/line raster
/// coordinates to georeferenced map coordinates, in the order origin x,
/// pixel width, row rotation, origin y, column rotation, pixel height.
///
/// Each coefficient is held as the IEEE-754 bit pattern of the
/// double-precision value the raster library reports, so that the comparison
/// below is the defined contract: an exact bit-for-bit match, with no
/// tolerance. Golden and candidate rasters are expected to share an
/// identical georeferencing definition, not merely a numerically close one.
#[derive(Clone, Copy, Debug)]
pub struct GeoTransform {
    pub coefficients: [u64; 6],
}

impl View for GeoTransform {
    type V = Seq<u64>;

    open spec fn view(&self) -> Seq<u64> {
        self.coefficients@
    }
}

/// Two transforms match exactly when their coefficient sequences are equal.
pub open spec fn geo_transforms_match(golden: Seq<u64>, new: Seq<u64>) -> bool {
    golden == new
}

/// Element-wise exact equality across all six coefficients: true iff every
/// coefficient of the golden transform matches the candidate's bit for bit.
pub fn compare_geo_transform(golden: GeoTransform, new: GeoTransform) -> (r: bool)
    ensures
        r == geo_transforms_match(golden@, new@),
{
    let g = &golden.coefficients;
    let n = &new.coefficients;
    let r = g[0] == n[0] && g[1] == n[1] && g[2] == n[2] && g[3] == n[3] && g[4] == n[4]
        && g[5] == n[5];
    proof {
        if r {
            assert(golden@ =~= new@);
        } else {
            assert(golden@ != new@);
        }
    }
    r
}

/// Reflexivity: every transform matches itself.
pub proof fn lemma_geo_transform_reflexive(g: GeoTransform)
    ensures
        geo_transforms_match(g@, g@),
{
}

/// Discrimination: transforms that differ in at least one coefficient never
/// match.
pub proof fn lemma_geo_transform_discriminates(g1: GeoTransform, g2: GeoTransform, i: int)
    requires
        0 <= i < 6,
        g1@[i] != g2@[i],
    ensures
        !geo_transforms_match(g1@, g2@),
{
}

} // verus!
