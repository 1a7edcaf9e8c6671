use geotiff::decoder_ext::geo_key_directory;
use geotiff::geo_key_directory::KeyKind;
use geotiff::{GeoKeyDirectory, GeoKeyDirectoryTag, GeoKeyError, RasterType};

const DOUBLES: u16 = 34736;
const ASCII: u16 = 34737;

fn read(
    directory: &[u16],
    doubles: &[f64],
    ascii: &str,
) -> Result<GeoKeyDirectory<f64>, GeoKeyError> {
    GeoKeyDirectory::from_tag_data(directory.to_vec(), doubles.to_vec(), ascii.to_string())
}

#[test]
fn default_directory_is_of_version_1_1_1() {
    let directory = GeoKeyDirectory::<f64>::default();
    assert_eq!(directory.key_directory_version, 1);
    assert_eq!(directory.key_revision, 1);
    assert_eq!(directory.minor_revision, 1);
    assert_eq!(directory.model_type, None);
    assert_eq!(directory.raster_type, None);
    assert_eq!(directory.citation, None);
    assert_eq!(directory.proj_linear_unit_size, None);
    assert_eq!(directory.vertical_units, None);
}

#[test]
fn directory_without_keys_keeps_its_header() {
    let directory = read(&[1, 2, 3, 0], &[], "").unwrap();
    let mut expected = GeoKeyDirectory::default();
    expected.key_directory_version = 1;
    expected.key_revision = 2;
    expected.minor_revision = 3;
    assert_eq!(directory, expected);
}

#[test]
fn directory_reads_keys_of_each_kind() {
    let data = [
        1, 1, 0, 7, //
        1024, 0, 1, 1, //
        1025, 0, 1, 2, //
        1026, ASCII, 5, 0, //
        2049, ASCII, 6, 5, //
        2057, DOUBLES, 1, 1, //
        3072, 0, 1, 32767, //
        3092, DOUBLES, 1, 0,
    ];
    let directory = read(&data, &[0.9996, 6378137.0], "WGS8|NAD27|").unwrap();
    let mut expected = GeoKeyDirectory::default();
    expected.minor_revision = 0;
    expected.model_type = Some(1);
    expected.raster_type = Some(RasterType::RasterPixelIsPoint);
    expected.citation = Some("WGS8".to_string());
    expected.geog_citation = Some("NAD27".to_string());
    expected.geog_semi_major_axis = Some(6378137.0);
    expected.projected_type = Some(32767);
    expected.proj_scale_at_nat_origin = Some(0.9996);
    assert_eq!(directory, expected);
}

#[test]
fn directory_reads_every_short_key() {
    let keys: [(u16, fn(&GeoKeyDirectory<f64>) -> Option<u16>); 15] = [
        (1024, |d| d.model_type),
        (2048, |d| d.geographic_type),
        (2050, |d| d.geog_geodetic_datum),
        (2051, |d| d.geog_prime_meridian),
        (2052, |d| d.geog_linear_units),
        (2054, |d| d.geog_angular_units),
        (2056, |d| d.geog_ellipsoid),
        (2060, |d| d.geog_azimuth_units),
        (3072, |d| d.projected_type),
        (3074, |d| d.projection),
        (3075, |d| d.proj_coord_trans),
        (3076, |d| d.proj_linear_units),
        (4096, |d| d.vertical),
        (4098, |d| d.vertical_datum),
        (4099, |d| d.vertical_units),
    ];
    for (n, (key, field)) in keys.iter().enumerate() {
        let value = 100 + n as u16;
        let directory = read(&[1, 1, 1, 1, *key, 0, 1, value], &[], "").unwrap();
        assert_eq!(field(&directory), Some(value));
        let mut expected = GeoKeyDirectory::default();
        match n {
            0 => expected.model_type = Some(value),
            1 => expected.geographic_type = Some(value),
            2 => expected.geog_geodetic_datum = Some(value),
            3 => expected.geog_prime_meridian = Some(value),
            4 => expected.geog_linear_units = Some(value),
            5 => expected.geog_angular_units = Some(value),
            6 => expected.geog_ellipsoid = Some(value),
            7 => expected.geog_azimuth_units = Some(value),
            8 => expected.projected_type = Some(value),
            9 => expected.projection = Some(value),
            10 => expected.proj_coord_trans = Some(value),
            11 => expected.proj_linear_units = Some(value),
            12 => expected.vertical = Some(value),
            13 => expected.vertical_datum = Some(value),
            _ => expected.vertical_units = Some(value),
        }
        assert_eq!(directory, expected);
    }
}

#[test]
fn directory_reads_every_double_key() {
    let keys: [(u16, fn(&GeoKeyDirectory<f64>) -> Option<f64>); 26] = [
        (2053, |d| d.geog_linear_unit_size),
        (2055, |d| d.geog_angular_unit_size),
        (2057, |d| d.geog_semi_major_axis),
        (2058, |d| d.geog_semi_minor_axis),
        (2059, |d| d.geog_inv_flattening),
        (2061, |d| d.geog_prime_meridian_long),
        (3077, |d| d.proj_linear_unit_size),
        (3078, |d| d.proj_std_parallel1),
        (3079, |d| d.proj_std_parallel2),
        (3080, |d| d.proj_nat_origin_long),
        (3081, |d| d.proj_nat_origin_lat),
        (3082, |d| d.proj_false_easting),
        (3083, |d| d.proj_false_northing),
        (3084, |d| d.proj_false_origin_long),
        (3085, |d| d.proj_false_origin_lat),
        (3086, |d| d.proj_false_origin_easting),
        (3087, |d| d.proj_false_origin_northing),
        (3088, |d| d.proj_center_long),
        (3089, |d| d.proj_center_lat),
        (3090, |d| d.proj_center_easting),
        (3091, |d| d.proj_center_northing),
        (3092, |d| d.proj_scale_at_nat_origin),
        (3093, |d| d.proj_scale_at_center),
        (3094, |d| d.proj_azimuth_angle),
        (3095, |d| d.proj_straight_vert_pole_long),
        (2057, |d| d.geog_semi_major_axis),
    ];
    for (n, (key, field)) in keys.iter().enumerate() {
        let directory = read(&[1, 1, 1, 1, *key, DOUBLES, 1, 2], &[1.5, 2.5, 3.5 + n as f64], "").unwrap();
        assert_eq!(field(&directory), Some(3.5 + n as f64));
        // no other key of the directory has a value
        let others = keys.iter().filter(|(other, _)| other != key);
        for (_, other) in others {
            assert_eq!(other(&directory), None);
        }
        assert_eq!(directory.model_type, None);
        assert_eq!(directory.citation, None);
    }
}

#[test]
fn directory_reads_every_text_key() {
    let directory = read(
        &[
            1, 1, 1, 4, //
            1026, ASCII, 2, 0, //
            2049, ASCII, 3, 2, //
            3073, ASCII, 4, 5, //
            4097, ASCII, 5, 9,
        ],
        &[],
        "a|bc|def|ghij|",
    )
    .unwrap();
    let mut expected = GeoKeyDirectory::<f64>::default();
    expected.citation = Some("a".to_string());
    expected.geog_citation = Some("bc".to_string());
    expected.proj_citation = Some("def".to_string());
    expected.vertical_citation = Some("ghij".to_string());
    assert_eq!(directory, expected);
}

#[test]
fn directory_takes_the_last_entry_of_a_key() {
    let directory = read(&[1, 1, 1, 3, 1024, 0, 1, 1, 3072, 0, 1, 7, 1024, 0, 1, 2], &[], "").unwrap();
    assert_eq!(directory.model_type, Some(2));
    assert_eq!(directory.projected_type, Some(7));
}

#[test]
fn directory_rejects_a_short_header() {
    assert_eq!(read(&[], &[], ""), Err(GeoKeyError::DirectoryTooShort));
    assert_eq!(read(&[1, 1, 1], &[], ""), Err(GeoKeyError::DirectoryTooShort));
}

#[test]
fn directory_rejects_a_wrong_number_of_keys() {
    assert_eq!(read(&[1, 1, 1, 1], &[], ""), Err(GeoKeyError::DirectoryLength));
    assert_eq!(read(&[1, 1, 1, 0, 1024, 0, 1, 1], &[], ""), Err(GeoKeyError::DirectoryLength));
    assert_eq!(read(&[1, 1, 1, 1, 1024, 0, 1], &[], ""), Err(GeoKeyError::DirectoryLength));
    assert_eq!(read(&[1, 1, 1, 1, 1024, 0, 1, 1, 0], &[], ""), Err(GeoKeyError::DirectoryLength));
}

#[test]
fn directory_rejects_an_unknown_key() {
    assert_eq!(read(&[1, 1, 1, 1, 1027, 0, 1, 1], &[], ""), Err(GeoKeyError::UnknownKey { key_id: 1027 }));
    assert_eq!(read(&[1, 1, 1, 1, 0, 0, 1, 1], &[], ""), Err(GeoKeyError::UnknownKey { key_id: 0 }));
}

#[test]
fn directory_rejects_an_unknown_raster_type() {
    assert_eq!(
        read(&[1, 1, 1, 1, 1025, 0, 1, 3], &[], ""),
        Err(GeoKeyError::UnknownRasterType { raster_type: 3 })
    );
    assert_eq!(
        read(&[1, 1, 1, 1, 1025, 0, 1, 0], &[], ""),
        Err(GeoKeyError::UnknownRasterType { raster_type: 0 })
    );
    assert_eq!(
        read(&[1, 1, 1, 1, 1025, 0, 1, 1], &[], "").unwrap().raster_type,
        Some(RasterType::RasterPixelIsArea)
    );
}

#[test]
fn directory_rejects_a_value_of_the_wrong_kind() {
    assert_eq!(
        read(&[1, 1, 1, 1, 1024, DOUBLES, 1, 0], &[1.0], ""),
        Err(GeoKeyError::NotShort { key: GeoKeyDirectoryTag::ModelType })
    );
    assert_eq!(
        read(&[1, 1, 1, 1, 2057, 0, 1, 0], &[1.0], ""),
        Err(GeoKeyError::NotDouble { key: GeoKeyDirectoryTag::GeogSemiMajorAxis })
    );
    assert_eq!(
        read(&[1, 1, 1, 1, 2057, ASCII, 1, 0], &[1.0], "a|"),
        Err(GeoKeyError::NotDouble { key: GeoKeyDirectoryTag::GeogSemiMajorAxis })
    );
    assert_eq!(
        read(&[1, 1, 1, 1, 1026, DOUBLES, 2, 0], &[1.0], "a|"),
        Err(GeoKeyError::NotAscii { key: GeoKeyDirectoryTag::Citation })
    );
    assert_eq!(
        read(&[1, 1, 1, 1, 1026, 0, 2, 0], &[1.0], "a|"),
        Err(GeoKeyError::NotAscii { key: GeoKeyDirectoryTag::Citation })
    );
}

#[test]
fn directory_takes_a_location_that_is_no_tag_for_a_number() {
    // 5 is the ID of no tag: the entry holds its value itself
    assert_eq!(read(&[1, 1, 1, 1, 1024, 5, 1, 9], &[], "").unwrap().model_type, Some(9));
    // 256 is the ID of the image width tag
    assert_eq!(
        read(&[1, 1, 1, 1, 1024, 256, 1, 9], &[], ""),
        Err(GeoKeyError::NotShort { key: GeoKeyDirectoryTag::ModelType })
    );
    assert_eq!(
        read(&[1, 1, 1, 1, 1024, ASCII, 1, 9], &[], ""),
        Err(GeoKeyError::NotShort { key: GeoKeyDirectoryTag::ModelType })
    );
}

#[test]
fn directory_rejects_a_count_other_than_one() {
    assert_eq!(read(&[1, 1, 1, 1, 1024, 0, 2, 1], &[], ""), Err(GeoKeyError::UnexpectedCount { count: 2 }));
    assert_eq!(read(&[1, 1, 1, 1, 1024, 0, 0, 1], &[], ""), Err(GeoKeyError::UnexpectedCount { count: 0 }));
    assert_eq!(
        read(&[1, 1, 1, 1, 2057, DOUBLES, 3, 0], &[1.0, 2.0, 3.0], ""),
        Err(GeoKeyError::UnexpectedCount { count: 3 })
    );
}

#[test]
fn directory_rejects_an_offset_behind_the_doubles() {
    assert_eq!(
        read(&[1, 1, 1, 1, 2057, DOUBLES, 1, 2], &[1.0, 2.0], ""),
        Err(GeoKeyError::OffsetOutOfBounds { len: 2, offset: 2 })
    );
    assert_eq!(
        read(&[1, 1, 1, 1, 2057, DOUBLES, 1, 0], &[], ""),
        Err(GeoKeyError::OffsetOutOfBounds { len: 0, offset: 0 })
    );
}

#[test]
fn directory_rejects_a_text_outside_the_ascii_parameters() {
    assert_eq!(
        read(&[1, 1, 1, 1, 1026, ASCII, 2, 3], &[], "ab|"),
        Err(GeoKeyError::StartOffsetOutOfBounds { len: 3, offset: 3 })
    );
    assert_eq!(
        read(&[1, 1, 1, 1, 1026, ASCII, 4, 0], &[], "ab|"),
        Err(GeoKeyError::EndOffsetOutOfBounds { len: 3, offset: 0 })
    );
    assert_eq!(
        read(&[1, 1, 1, 1, 1026, ASCII, 0, 1], &[], "ab|"),
        Err(GeoKeyError::EndOffsetOutOfBounds { len: 3, offset: 1 })
    );
    assert_eq!(
        read(&[1, 1, 1, 1, 1026, ASCII, 65535, 65535], &[], "ab|"),
        Err(GeoKeyError::StartOffsetOutOfBounds { len: 3, offset: 65535 })
    );
    assert_eq!(read(&[1, 1, 1, 1, 1026, ASCII, 3, 0], &[], "ab|").unwrap().citation, Some("ab".to_string()));
    assert_eq!(read(&[1, 1, 1, 1, 1026, ASCII, 1, 2], &[], "ab|").unwrap().citation, Some(String::new()));
}

#[test]
fn directory_rejects_a_text_from_parameters_that_are_not_ascii() {
    assert_eq!(read(&[1, 1, 1, 1, 1026, ASCII, 2, 0], &[], "\u{e4}b|"), Err(GeoKeyError::AsciiParamsNotAscii));
    // parameters that no key refers to are not looked at
    assert_eq!(read(&[1, 1, 1, 1, 1024, 0, 1, 1], &[], "\u{e4}b|").unwrap().model_type, Some(1));
}

#[test]
fn directory_reports_the_first_entry_that_is_not_in_order() {
    assert_eq!(
        read(&[1, 1, 1, 3, 1024, 0, 1, 1, 1025, 0, 1, 9, 7, 0, 1, 1], &[], ""),
        Err(GeoKeyError::UnknownRasterType { raster_type: 9 })
    );
    assert_eq!(
        read(&[1, 1, 1, 2, 7, 0, 1, 1, 1025, 0, 1, 9], &[], ""),
        Err(GeoKeyError::UnknownKey { key_id: 7 })
    );
}

#[test]
fn get_short_checks_location_and_count() {
    let key = GeoKeyDirectoryTag::ModelType;
    assert_eq!(GeoKeyDirectory::<f64>::get_short(key, None, 1, 42), Ok(42));
    assert_eq!(
        GeoKeyDirectory::<f64>::get_short(key, Some(DOUBLES), 1, 42),
        Err(GeoKeyError::NotShort { key })
    );
    assert_eq!(
        GeoKeyDirectory::<f64>::get_short(key, None, 2, 42),
        Err(GeoKeyError::UnexpectedCount { count: 2 })
    );
}

#[test]
fn get_double_reads_at_the_offset() {
    let key = GeoKeyDirectoryTag::ProjAzimuthAngle;
    let doubles = [1.5, 2.5, 3.5];
    assert_eq!(GeoKeyDirectory::get_double(&doubles, key, Some(DOUBLES), 1, 1), Ok(2.5));
    assert_eq!(GeoKeyDirectory::get_double(&doubles, key, Some(DOUBLES), 1, 2), Ok(3.5));
    assert_eq!(
        GeoKeyDirectory::get_double(&doubles, key, Some(DOUBLES), 1, 3),
        Err(GeoKeyError::OffsetOutOfBounds { len: 3, offset: 3 })
    );
    assert_eq!(
        GeoKeyDirectory::get_double(&doubles, key, Some(ASCII), 1, 1),
        Err(GeoKeyError::NotDouble { key })
    );
    assert_eq!(GeoKeyDirectory::get_double(&doubles, key, None, 1, 1), Err(GeoKeyError::NotDouble { key }));
}

#[test]
fn get_string_leaves_the_last_character_out() {
    let key = GeoKeyDirectoryTag::Citation;
    let ascii = Some(ASCII);
    assert_eq!(
        GeoKeyDirectory::<f64>::get_string("Mercator North American 1927|", key, ascii, 29, 0),
        Ok("Mercator North American 1927".to_string())
    );
    assert_eq!(GeoKeyDirectory::<f64>::get_string("abc|de|", key, ascii, 3, 4), Ok("de".to_string()));
    assert_eq!(GeoKeyDirectory::<f64>::get_string("abc|de|", key, None, 3, 4), Err(GeoKeyError::NotAscii { key }));
}

#[test]
fn geo_key_directory_of_an_image_without_one_is_the_default() {
    assert_eq!(geo_key_directory::<f64>(None, None, None), Ok(GeoKeyDirectory::default()));
    assert_eq!(
        geo_key_directory(None, Some(vec![1.0]), Some("a|".to_string())),
        Ok(GeoKeyDirectory::default())
    );
}

#[test]
fn geo_key_directory_of_an_image_reads_its_tags() {
    let directory =
        geo_key_directory(Some(vec![1, 1, 0, 1, 2057, DOUBLES, 1, 0]), Some(vec![6378137.0]), None).unwrap();
    assert_eq!(directory.geog_semi_major_axis, Some(6378137.0));
    assert_eq!(directory.minor_revision, 0);
    // tags that are absent hold nothing
    assert_eq!(
        geo_key_directory::<f64>(Some(vec![1, 1, 0, 1, 2057, DOUBLES, 1, 0]), None, None),
        Err(GeoKeyError::OffsetOutOfBounds { len: 0, offset: 0 })
    );
    assert_eq!(
        geo_key_directory::<f64>(Some(vec![1, 1, 0, 1, 1026, ASCII, 1, 0]), None, None),
        Err(GeoKeyError::StartOffsetOutOfBounds { len: 0, offset: 0 })
    );
}

#[test]
fn key_ids_and_kinds() {
    assert_eq!(GeoKeyDirectoryTag::ModelType.code(), 1024);
    assert_eq!(GeoKeyDirectoryTag::VerticalUnits.code(), 4099);
    assert_eq!(GeoKeyDirectoryTag::from_u16(3095), Some(GeoKeyDirectoryTag::ProjStraightVertPoleLong));
    assert_eq!(GeoKeyDirectoryTag::from_u16(3096), None);
    assert_eq!(GeoKeyDirectoryTag::RasterType.value_kind(), KeyKind::Short);
    assert_eq!(GeoKeyDirectoryTag::GeogInvFlattening.value_kind(), KeyKind::Double);
    assert_eq!(GeoKeyDirectoryTag::VerticalCitation.value_kind(), KeyKind::Ascii);
    let mut known = 0;
    for code in 0..=u16::MAX {
        if let Some(key) = GeoKeyDirectoryTag::from_u16(code) {
            assert_eq!(key.code(), code);
            known += 1;
        }
    }
    assert_eq!(known, 45);
    assert_eq!(RasterType::RasterPixelIsArea.code(), 1);
    assert_eq!(RasterType::RasterPixelIsPoint.code(), 2);
    assert_eq!(RasterType::from_u16(2), Some(RasterType::RasterPixelIsPoint));
    assert_eq!(RasterType::from_u16(0), None);
}

#[test]
fn directory_of_a_mercator_image() {
    let data = [
        1, 1, 2, 15, //
        1024, 0, 1, 1, //
        1025, 0, 1, 1, //
        2050, 0, 1, 6267, //
        2056, 0, 1, 7008, //
        3072, 0, 1, 32767, //
        3073, ASCII, 29, 0, //
        3074, 0, 1, 32767, //
        3075, 0, 1, 7, //
        3076, 0, 1, 9001, //
        3080, DOUBLES, 1, 0, //
        3081, DOUBLES, 1, 1, //
        3082, DOUBLES, 1, 2, //
        3083, DOUBLES, 1, 3, //
        3089, DOUBLES, 1, 4, //
        3092, DOUBLES, 1, 5,
    ];
    let doubles = [-90.0, 30.0, 0.001, 0.002, 34.0, 0.829916312080482];
    let directory = read(&data, &doubles, "Mercator North American 1927|").unwrap();
    assert_eq!(
        directory,
        GeoKeyDirectory {
            key_directory_version: 1,
            key_revision: 1,
            minor_revision: 2,
            model_type: Some(1),
            raster_type: Some(RasterType::RasterPixelIsArea),
            geog_geodetic_datum: Some(6267),
            geog_ellipsoid: Some(7008),
            projected_type: Some(32767),
            proj_citation: Some("Mercator North American 1927".into()),
            projection: Some(32767),
            proj_coord_trans: Some(7),
            proj_linear_units: Some(9001),
            proj_nat_origin_long: Some(-90.0),
            proj_nat_origin_lat: Some(30.0),
            proj_false_easting: Some(0.001),
            proj_false_northing: Some(0.002),
            proj_center_lat: Some(34.0),
            proj_scale_at_nat_origin: Some(0.829916312080482),
            ..Default::default()
        }
    );
}
