//! Equivalence of spatial-reference descriptions across textual encodings.
//!
//! A projection may be written as standard Well-Known Text (WKT) or as the
//! ESRI WKT dialect; two different texts can describe the same coordinate
//! system. Deciding whether two parsed spatial references denote the same
//! coordinate system is the business of an external spatial-reference
//! parser; its answers enter the comparator as [`CrossParseOutcome`] values,
//! one per cross-format parse direction.

use vstd::prelude::*;

verus! {

/// Which parse attempt failed, in the order the comparator tries them:
/// golden as WKT, new as ESRI WKT, golden as ESRI WKT, new as WKT.
///
/// An unparseable spatial reference is a data-quality problem distinct from
/// "these are different projections", so it is surfaced as a typed error,
/// never silently downgraded to a `false` verdict.
#[derive(Clone, Copy, Debug, PartialEq, Eq, Structural)]
pub enum ProjectionParseError {
    GoldenAsWkt,
    NewAsEsri,
    GoldenAsEsri,
    NewAsWkt,
}

/// The answer of the external spatial-reference parser for one cross-format
/// direction: parse one side under one encoding, the other side under the
/// other encoding, and compare the two parses for coordinate-system
/// equality.
#[derive(Clone, Copy, Debug, PartialEq, Eq, Structural)]
pub enum CrossParseOutcome {
    /// The golden text failed to parse under its assumed encoding.
    GoldenUnparsable,
    /// The new text failed to parse under its assumed encoding.
    NewUnparsable,
    /// Both texts parsed; the payload says whether the two parsed spatial
    /// references describe the same coordinate system.
    Compared(bool),
}

/// The verdict the comparator owes for a pair of projection texts and the
/// parser's two cross-format answers.
///
/// Byte-for-byte identical texts match outright, before any parsing. Texts
/// that differ match iff *both* cross-format directions agree; a parse
/// failure in either direction is a hard error, reported for the first
/// failing parse in the order golden-as-WKT, new-as-ESRI, golden-as-ESRI,
/// new-as-WKT.
pub open spec fn projection_verdict(
    golden: Seq<char>,
    new: Seq<char>,
    wkt_golden_vs_esri_new: CrossParseOutcome,
    esri_golden_vs_wkt_new: CrossParseOutcome,
) -> Result<bool, ProjectionParseError> {
    if golden == new {
        Ok(true)
    } else {
        match wkt_golden_vs_esri_new {
            CrossParseOutcome::GoldenUnparsable => Err(ProjectionParseError::GoldenAsWkt),
            CrossParseOutcome::NewUnparsable => Err(ProjectionParseError::NewAsEsri),
            CrossParseOutcome::Compared(first_agrees) => match esri_golden_vs_wkt_new {
                CrossParseOutcome::GoldenUnparsable => Err(ProjectionParseError::GoldenAsEsri),
                CrossParseOutcome::NewUnparsable => Err(ProjectionParseError::NewAsWkt),
                CrossParseOutcome::Compared(second_agrees) => Ok(first_agrees && second_agrees),
            },
        }
    }
}

/// Compare two projection texts for coordinate-system equivalence.
///
/// `wkt_golden_vs_esri_new` is the parser's answer for golden read as WKT
/// against new read as ESRI WKT; `esri_golden_vs_wkt_new` for golden read as
/// ESRI WKT against new read as WKT. The outcomes are consulted only when
/// the two texts differ: identical texts are equivalent outright.
///
/// Testing both directions guards against falsely equating two different
/// coordinate systems that happen to parse without error under the "wrong"
/// encoding: the verdict is `Ok(true)` iff both directions agree.
pub fn compare_projection(
    golden: &String,
    new: &String,
    wkt_golden_vs_esri_new: CrossParseOutcome,
    esri_golden_vs_wkt_new: CrossParseOutcome,
) -> (r: Result<bool, ProjectionParseError>)
    ensures
        r == projection_verdict(golden@, new@, wkt_golden_vs_esri_new, esri_golden_vs_wkt_new),
        golden@ == new@ ==> r == Ok::<bool, ProjectionParseError>(true),
{
    if golden.eq(new) {
        return Ok(true);
    }
    match wkt_golden_vs_esri_new {
        CrossParseOutcome::GoldenUnparsable => Err(ProjectionParseError::GoldenAsWkt),
        CrossParseOutcome::NewUnparsable => Err(ProjectionParseError::NewAsEsri),
        CrossParseOutcome::Compared(first_agrees) => match esri_golden_vs_wkt_new {
            CrossParseOutcome::GoldenUnparsable => Err(ProjectionParseError::GoldenAsEsri),
            CrossParseOutcome::NewUnparsable => Err(ProjectionParseError::NewAsWkt),
            CrossParseOutcome::Compared(second_agrees) => Ok(first_agrees && second_agrees),
        },
    }
}

/// Identity fast path: a projection text is always equivalent to itself,
/// whatever the parser would have answered.
pub proof fn lemma_projection_identity(
    s: Seq<char>,
    first: CrossParseOutcome,
    second: CrossParseOutcome,
)
    ensures
        projection_verdict(s, s, first, second) == Ok::<bool, ProjectionParseError>(true),
{
}

/// Symmetry: swapping golden and new does not change the verdict, provided
/// every parse succeeds.
///
/// Swapping the sides turns the golden-as-WKT-versus-new-as-ESRI direction
/// into the new-as-WKT-versus-golden-as-ESRI direction and vice versa, and
/// coordinate-system equality of two parsed spatial references does not
/// depend on the order of its operands; so the swapped call sees the same
/// two agreement bits, in the opposite order.
pub proof fn lemma_compare_projection_symmetric(
    golden: Seq<char>,
    new: Seq<char>,
    first_agrees: bool,
    second_agrees: bool,
)
    ensures
        projection_verdict(
            golden,
            new,
            CrossParseOutcome::Compared(first_agrees),
            CrossParseOutcome::Compared(second_agrees),
        ) == projection_verdict(
            new,
            golden,
            CrossParseOutcome::Compared(second_agrees),
            CrossParseOutcome::Compared(first_agrees),
        ),
{
}

} // verus!
