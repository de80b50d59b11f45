use raster_compare::projection::{CrossParseOutcome, ProjectionParseError, compare_projection};

fn wgs84_wkt() -> String {
    String::from(
        "GEOGCS[\"WGS 84\",DATUM[\"WGS_1984\",SPHEROID[\"WGS 84\",6378137,298.257223563,AUTHORITY[\"EPSG\",\"7030\"]],AUTHORITY[\"EPSG\",\"6326\"]],PRIMEM[\"Greenwich\",0,AUTHORITY[\"EPSG\",\"8901\"]],UNIT[\"degree\",0.01745329251994328,AUTHORITY[\"EPSG\",\"9122\"]],AUTHORITY[\"EPSG\",\"4326\"]]",
    )
}

fn wgs84_esri() -> String {
    String::from(
        "GEOGCS[\"GCS_WGS_1984\",DATUM[\"D_WGS_1984\",SPHEROID[\"WGS_1984\",6378137.0,298.257223563]],PRIMEM[\"Greenwich\",0.0],UNIT[\"Degree\",0.0174532925199433]]",
    )
}

fn sirgas_wkt() -> String {
    String::from(
        "GEOGCS[\"SIRGAS 2000\",DATUM[\"Sistema_de_Referencia_Geocentrico_para_America_del_Sur_2000\",SPHEROID[\"GRS 1980\",6378137,298.257222101,AUTHORITY[\"EPSG\",\"7019\"]],TOWGS84[0,0,0,0,0,0,0],AUTHORITY[\"EPSG\",\"6674\"]],PRIMEM[\"Greenwich\",0, AUTHORITY[\"EPSG\",\"8901\"]],UNIT[\"degree\",0.01745329251994328,AUTHORITY[\"EPSG\",\"9122\"]],AUTHORITY[\"EPSG\",\"4674\"]]",
    )
}

fn sirgas_esri() -> String {
    String::from(
        "GEOGCS[\"GCS_SIRGAS_2000\",DATUM[\"D_SIRGAS_2000\",SPHEROID[\"GRS_1980\",6378137.0,298.257222101]],PRIMEM[\"Greenwich\",0.0],UNIT[\"Degree\",0.0174532925199433]]",
    )
}

#[test]
fn test_projection_eq() {
    let golden = wgs84_wkt();
    let new = wgs84_wkt();

    let verdict = compare_projection(
        &golden,
        &new,
        CrossParseOutcome::Compared(true),
        CrossParseOutcome::Compared(true),
    );
    assert_eq!(true, verdict.unwrap());
}

#[test]
fn test_projection_diff() {
    // WGS84 and SIRGAS 2000 are different coordinate systems, so both
    // cross-format parses disagree.
    let golden = wgs84_wkt();
    let new = sirgas_wkt();

    let verdict = compare_projection(
        &golden,
        &new,
        CrossParseOutcome::Compared(false),
        CrossParseOutcome::Compared(false),
    );
    assert_eq!(false, verdict.unwrap());
}

#[test]
fn test_projection_dataset_eq() {
    let golden = sirgas_wkt();
    let new = sirgas_wkt();

    let verdict = compare_projection(
        &golden,
        &new,
        CrossParseOutcome::Compared(true),
        CrossParseOutcome::Compared(true),
    );
    assert_eq!(true, verdict.unwrap());
}

#[test]
fn test_projection_dataset_diff() {
    let golden = wgs84_wkt();
    let new = sirgas_wkt();

    let verdict = compare_projection(
        &golden,
        &new,
        CrossParseOutcome::Compared(false),
        CrossParseOutcome::Compared(false),
    );
    assert_eq!(false, verdict.unwrap());
}

#[test]
fn test_projection_spatial_ref_eq() {
    // The same coordinate system written in the two encodings: both
    // cross-format directions agree, in either argument order.
    let golden = wgs84_wkt();
    let new = wgs84_esri();

    let verdict = compare_projection(
        &golden,
        &new,
        CrossParseOutcome::Compared(true),
        CrossParseOutcome::Compared(true),
    );
    assert_eq!(true, verdict.unwrap());

    let verdict = compare_projection(
        &new,
        &golden,
        CrossParseOutcome::Compared(true),
        CrossParseOutcome::Compared(true),
    );
    assert_eq!(true, verdict.unwrap());
}

#[test]
fn test_projection_cross_format_not_equivalent() {
    // A WKT text for WGS84 against the ESRI text for SIRGAS 2000: both
    // texts parse, and both directions report different coordinate systems.
    let golden = wgs84_wkt();
    let new = sirgas_esri();

    let verdict = compare_projection(
        &golden,
        &new,
        CrossParseOutcome::Compared(false),
        CrossParseOutcome::Compared(false),
    );
    assert_eq!(false, verdict.unwrap());
}

#[test]
fn test_projection_one_direction_disagrees() {
    // Equivalence requires both cross-format directions to agree.
    let golden = wgs84_wkt();
    let new = sirgas_esri();

    let verdict = compare_projection(
        &golden,
        &new,
        CrossParseOutcome::Compared(true),
        CrossParseOutcome::Compared(false),
    );
    assert_eq!(false, verdict.unwrap());
}

#[test]
fn test_projection_identity_skips_parsing() {
    // Identical texts match outright: the parser's answers, even failures,
    // play no part.
    let golden = wgs84_wkt();
    let new = wgs84_wkt();

    let verdict = compare_projection(
        &golden,
        &new,
        CrossParseOutcome::GoldenUnparsable,
        CrossParseOutcome::NewUnparsable,
    );
    assert_eq!(true, verdict.unwrap());
}

#[test]
fn test_projection_empty_texts_match() {
    let golden = String::new();
    let new = String::new();

    let verdict = compare_projection(
        &golden,
        &new,
        CrossParseOutcome::Compared(false),
        CrossParseOutcome::Compared(false),
    );
    assert_eq!(true, verdict.unwrap());
}

#[test]
fn test_projection_error_golden_as_wkt() {
    let golden = String::from("not a projection");
    let new = wgs84_esri();

    let verdict = compare_projection(
        &golden,
        &new,
        CrossParseOutcome::GoldenUnparsable,
        CrossParseOutcome::Compared(true),
    );
    assert_eq!(Err(ProjectionParseError::GoldenAsWkt), verdict);
}

#[test]
fn test_projection_error_new_as_esri() {
    let golden = wgs84_wkt();
    let new = String::from("not a projection");

    let verdict = compare_projection(
        &golden,
        &new,
        CrossParseOutcome::NewUnparsable,
        CrossParseOutcome::Compared(true),
    );
    assert_eq!(Err(ProjectionParseError::NewAsEsri), verdict);
}

#[test]
fn test_projection_error_golden_as_esri() {
    let golden = wgs84_wkt();
    let new = wgs84_esri();

    let verdict = compare_projection(
        &golden,
        &new,
        CrossParseOutcome::Compared(true),
        CrossParseOutcome::GoldenUnparsable,
    );
    assert_eq!(Err(ProjectionParseError::GoldenAsEsri), verdict);
}

#[test]
fn test_projection_error_new_as_wkt() {
    let golden = wgs84_wkt();
    let new = wgs84_esri();

    let verdict = compare_projection(
        &golden,
        &new,
        CrossParseOutcome::Compared(true),
        CrossParseOutcome::NewUnparsable,
    );
    assert_eq!(Err(ProjectionParseError::NewAsWkt), verdict);
}
