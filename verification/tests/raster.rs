use geotiff::image_data::ImageData;
use geotiff::{GeoKeyDirectory, GeoTiff, RasterData, RasterDataType, RasterValue};

type Value = RasterValue<f32, f64>;
type Data = RasterData<f32, f64>;

fn image(width: usize, height: usize, samples: usize, data: Data) -> Option<GeoTiff<f32, f64>> {
    GeoTiff::new(GeoKeyDirectory::default(), width, height, samples, None, data)
}

#[test]
fn raster_value_is_of_one_type() {
    let value: Value = RasterValue::U8(7);
    assert_eq!(value.as_u8(), Some(7));
    assert_eq!(value.as_u16(), None);
    assert_eq!(value.as_u32(), None);
    assert_eq!(value.as_u64(), None);
    assert_eq!(value.as_f32(), None);
    assert_eq!(value.as_f64(), None);
    assert_eq!(value.as_i8(), None);
    assert_eq!(value.as_i16(), None);
    assert_eq!(value.as_i32(), None);
    assert_eq!(value.as_i64(), None);
}

#[test]
fn raster_value_gives_its_value() {
    assert_eq!(Value::U16(500).as_u16(), Some(500));
    assert_eq!(Value::U32(70_000).as_u32(), Some(70_000));
    assert_eq!(Value::U64(1 << 40).as_u64(), Some(1 << 40));
    assert_eq!(Value::F32(1.5).as_f32(), Some(1.5));
    assert_eq!(Value::F64(-2.25).as_f64(), Some(-2.25));
    assert_eq!(Value::I8(-7).as_i8(), Some(-7));
    assert_eq!(Value::I16(-500).as_i16(), Some(-500));
    assert_eq!(Value::I32(-70_000).as_i32(), Some(-70_000));
    assert_eq!(Value::I64(-(1 << 40)).as_i64(), Some(-(1 << 40)));
    assert_eq!(Value::I64(1).as_u64(), None);
    assert_eq!(Value::F32(1.5).as_f64(), None);
}

#[test]
fn raster_data_gives_typed_values() {
    let data: Data = RasterData::I16(vec![-1, 2, -3]);
    assert_eq!(data.len(), 3);
    assert_eq!(data.get_value(0), RasterValue::I16(-1));
    assert_eq!(data.get_value(2), RasterValue::I16(-3));
    let data: Data = RasterData::F64(vec![0.5, 1.5]);
    assert_eq!(data.len(), 2);
    assert_eq!(data.get_value(1), RasterValue::F64(1.5));
    let data: Data = RasterData::U8(vec![]);
    assert_eq!(data.len(), 0);
}

#[test]
fn image_data_counts_its_samples() {
    assert_eq!(ImageData::<f32, f64>::U8(vec![1, 2, 3]).len(), 3);
    assert_eq!(ImageData::<f32, f64>::U16(vec![1, 2]).len(), 2);
    assert_eq!(ImageData::<f32, f64>::U32(vec![1]).len(), 1);
    assert_eq!(ImageData::<f32, f64>::U64(vec![]).len(), 0);
    assert_eq!(ImageData::<f32, f64>::F32(vec![1.0; 4]).len(), 4);
    assert_eq!(ImageData::<f32, f64>::F64(vec![1.0; 5]).len(), 5);
    assert_eq!(ImageData::<f32, f64>::I8(vec![1; 6]).len(), 6);
    assert_eq!(ImageData::<f32, f64>::I16(vec![1; 7]).len(), 7);
    assert_eq!(ImageData::<f32, f64>::I32(vec![1; 8]).len(), 8);
    assert_eq!(ImageData::<f32, f64>::I64(vec![1; 9]).len(), 9);
}

#[test]
fn geotiff_needs_a_sample_for_each_sample_of_each_pixel() {
    assert!(image(3, 2, 2, RasterData::U8((0..12).collect())).is_some());
    assert!(image(3, 2, 2, RasterData::U8((0..11).collect())).is_none());
    assert!(image(3, 2, 2, RasterData::U8((0..13).collect())).is_none());
    assert!(image(0, 5, 1, RasterData::U8(vec![])).is_some());
    assert!(image(0, 5, 1, RasterData::U8(vec![1])).is_none());
    assert!(image(usize::MAX, 2, 0, RasterData::U8(vec![])).is_some());
    assert!(image(usize::MAX, 2, 1, RasterData::U8(vec![])).is_none());
    assert!(image(usize::MAX, 1, 2, RasterData::U8(vec![])).is_none());
}

#[test]
fn geotiff_keeps_its_parts() {
    let geotiff = image(3, 2, 2, RasterData::U16((0..12).collect())).unwrap();
    assert_eq!(geotiff.raster_width, 3);
    assert_eq!(geotiff.raster_height, 2);
    assert_eq!(geotiff.num_samples, 2);
    assert_eq!(geotiff.geo_key_directory, GeoKeyDirectory::default());
    assert!(geotiff.coordinate_transform.is_none());
    assert_eq!(geotiff.raster_data.len(), 12);
}

#[test]
fn sample_type_is_that_of_the_raster_data() {
    assert_eq!(image(1, 1, 1, RasterData::U8(vec![0])).unwrap().sample_type(), RasterDataType::U8);
    assert_eq!(image(1, 1, 1, RasterData::U16(vec![0])).unwrap().sample_type(), RasterDataType::U16);
    assert_eq!(image(1, 1, 1, RasterData::U32(vec![0])).unwrap().sample_type(), RasterDataType::U32);
    assert_eq!(image(1, 1, 1, RasterData::U64(vec![0])).unwrap().sample_type(), RasterDataType::U64);
    assert_eq!(image(1, 1, 1, RasterData::F32(vec![0.0])).unwrap().sample_type(), RasterDataType::F32);
    assert_eq!(image(1, 1, 1, RasterData::F64(vec![0.0])).unwrap().sample_type(), RasterDataType::F64);
    assert_eq!(image(1, 1, 1, RasterData::I8(vec![0])).unwrap().sample_type(), RasterDataType::I8);
    assert_eq!(image(1, 1, 1, RasterData::I16(vec![0])).unwrap().sample_type(), RasterDataType::I16);
    assert_eq!(image(1, 1, 1, RasterData::I32(vec![0])).unwrap().sample_type(), RasterDataType::I32);
    assert_eq!(image(1, 1, 1, RasterData::I64(vec![0])).unwrap().sample_type(), RasterDataType::I64);
}

#[test]
fn get_value_at_pixel_finds_the_sample() {
    // 3 pixels a row, 2 rows, 2 samples a pixel: the sample at (x, y, s) is (y * 3 + x) * 2 + s
    let geotiff = image(3, 2, 2, RasterData::U8((0..12).collect())).unwrap();
    assert_eq!(geotiff.get_value_at_pixel(0, 0, 0), Some(RasterValue::U8(0)));
    assert_eq!(geotiff.get_value_at_pixel(0, 0, 1), Some(RasterValue::U8(1)));
    assert_eq!(geotiff.get_value_at_pixel(1, 0, 0), Some(RasterValue::U8(2)));
    assert_eq!(geotiff.get_value_at_pixel(2, 0, 1), Some(RasterValue::U8(5)));
    assert_eq!(geotiff.get_value_at_pixel(0, 1, 0), Some(RasterValue::U8(6)));
    assert_eq!(geotiff.get_value_at_pixel(1, 1, 1), Some(RasterValue::U8(9)));
    assert_eq!(geotiff.get_value_at_pixel(2, 1, 1), Some(RasterValue::U8(11)));
}

#[test]
fn get_value_at_pixel_has_nothing_outside_the_raster() {
    let geotiff = image(3, 2, 2, RasterData::U8((0..12).collect())).unwrap();
    assert_eq!(geotiff.get_value_at_pixel(3, 0, 0), None);
    assert_eq!(geotiff.get_value_at_pixel(0, 2, 0), None);
    assert_eq!(geotiff.get_value_at_pixel(3, 2, 5), None);
    assert_eq!(geotiff.get_value_at_pixel(usize::MAX, usize::MAX, 0), None);
}
