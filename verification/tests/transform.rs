use geotiff::coordinate_transform::tie_points::{
    angle_bisectors, contains_sequence, edge_on_hull, hull_corner, Boundary, Face, Meshes, Triangulation,
};
use geotiff::decoder_ext::coordinate_transform;
use geotiff::{Coord, CoordinateTransform, FormatError};

fn identity_matrix() -> Vec<f64> {
    vec![
        1.0, 0.0, 0.0, 0.0, //
        0.0, 1.0, 0.0, 0.0, //
        0.0, 0.0, 1.0, 0.0, //
        0.0, 0.0, 0.0, 1.0,
    ]
}

fn square_tie_points() -> Vec<f64> {
    vec![
        0.0, 0.0, 0.0, 10.0, 20.0, 0.0, //
        1.0, 0.0, 0.0, 11.0, 20.0, 0.0, //
        1.0, 1.0, 0.0, 11.0, 21.0, 0.0, //
        0.0, 1.0, 0.0, 10.0, 21.0, 0.0,
    ]
}

#[test]
fn from_tag_data_rejects_pixel_scale_of_length_two() {
    let result = CoordinateTransform::from_tag_data(
        Some(vec![2.0, 2.0]),
        Some(vec![0.0, 0.0, 0.0, 100.0, 200.0, 0.0]),
        None,
        true,
    );
    assert_eq!(result, Err(FormatError::PixelScaleLength));
}

#[test]
fn from_tag_data_rejects_pixel_scale_of_length_four() {
    let result = CoordinateTransform::from_tag_data(Some(vec![2.0, 2.0, 0.0, 0.0]), None, None, true);
    assert_eq!(result, Err(FormatError::PixelScaleLength));
}

#[test]
fn from_tag_data_rejects_tie_points_of_length_five() {
    let result = CoordinateTransform::from_tag_data(
        Some(vec![2.0, 2.0, 0.0]),
        Some(vec![0.0, 0.0, 0.0, 100.0, 200.0]),
        None,
        true,
    );
    assert_eq!(result, Err(FormatError::TiePointsNotDivisible));
}

#[test]
fn from_tag_data_rejects_tie_points_of_length_seven() {
    let result = CoordinateTransform::from_tag_data(
        Some(vec![2.0, 2.0, 0.0]),
        Some(vec![0.0, 0.0, 0.0, 100.0, 200.0, 0.0, 1.0]),
        None,
        true,
    );
    assert_eq!(result, Err(FormatError::TiePointsNotDivisible));
}

#[test]
fn from_tag_data_rejects_empty_tie_points() {
    let result = CoordinateTransform::<f64>::from_tag_data(None, Some(vec![]), None, true);
    assert_eq!(result, Err(FormatError::TiePointsEmpty));
}

#[test]
fn from_tag_data_rejects_transformation_of_length_fifteen() {
    let mut matrix = identity_matrix();
    matrix.pop();
    let result = CoordinateTransform::from_tag_data(None, None, Some(matrix), true);
    assert_eq!(result, Err(FormatError::TransformationLength));
}

#[test]
fn from_tag_data_rejects_transformation_with_pixel_scale() {
    let result =
        CoordinateTransform::from_tag_data(Some(vec![2.0, 2.0, 0.0]), None, Some(identity_matrix()), true);
    assert_eq!(result, Err(FormatError::PixelScaleWithTransformation));
}

#[test]
fn from_tag_data_rejects_transformation_with_tie_points() {
    let result = CoordinateTransform::from_tag_data(
        None,
        Some(vec![0.0, 0.0, 0.0, 100.0, 200.0, 0.0]),
        Some(identity_matrix()),
        true,
    );
    assert_eq!(result, Err(FormatError::TiePointsWithTransformation));
}

#[test]
fn from_tag_data_judges_lengths_before_exclusions() {
    let result = CoordinateTransform::from_tag_data(Some(vec![2.0, 2.0]), None, Some(identity_matrix()), true);
    assert_eq!(result, Err(FormatError::PixelScaleLength));
    let mut matrix = identity_matrix();
    matrix.push(0.0);
    let result = CoordinateTransform::from_tag_data(Some(vec![2.0, 2.0, 0.0]), None, Some(matrix), true);
    assert_eq!(result, Err(FormatError::TransformationLength));
}

#[test]
fn from_tag_data_requires_tie_points_without_transformation() {
    let result = CoordinateTransform::<f64>::from_tag_data(None, None, None, true);
    assert_eq!(result, Err(FormatError::TiePointsMissing));
    let result = CoordinateTransform::from_tag_data(Some(vec![2.0, 2.0, 0.0]), None, None, true);
    assert_eq!(result, Err(FormatError::TiePointsMissing));
}

#[test]
fn from_tag_data_requires_pixel_scale_beside_one_tie_point() {
    let result =
        CoordinateTransform::from_tag_data(None, Some(vec![0.0, 0.0, 0.0, 100.0, 200.0, 0.0]), None, true);
    assert_eq!(result, Err(FormatError::PixelScaleMissing));
}

#[test]
fn from_tag_data_reports_unsupported_tie_points() {
    let result = CoordinateTransform::from_tag_data(None, Some(square_tie_points()), None, false);
    assert_eq!(result, Err(FormatError::TiePointsUnsupported));
}

#[test]
fn from_tag_data_selects_affine_transform() {
    let matrix: Vec<f64> = (0..16).map(|i| i as f64).collect();
    let result = CoordinateTransform::from_tag_data(None, None, Some(matrix), false);
    assert_eq!(
        result,
        Ok(CoordinateTransform::AffineTransform { transform: [0.0, 1.0, 3.0, 4.0, 5.0, 7.0] })
    );
}

#[test]
fn from_tag_data_selects_tie_point_and_pixel_scale() {
    let result = CoordinateTransform::from_tag_data(
        Some(vec![2.0, 2.0, 0.0]),
        Some(vec![0.0, 0.0, 0.0, 100.0, 200.0, 0.0]),
        None,
        false,
    );
    assert_eq!(
        result,
        Ok(CoordinateTransform::TiePointAndPixelScale {
            raster_point: Coord { x: 0.0, y: 0.0 },
            model_point: Coord { x: 100.0, y: 200.0 },
            pixel_scale: Coord { x: 2.0, y: 2.0 },
        })
    );
}

#[test]
fn from_tag_data_selects_tie_points() {
    let result = CoordinateTransform::from_tag_data(Some(vec![1.0, 1.0, 0.0]), Some(square_tie_points()), None, true);
    assert_eq!(
        result,
        Ok(CoordinateTransform::TiePoints {
            raster_points: vec![
                Coord { x: 0.0, y: 0.0 },
                Coord { x: 1.0, y: 0.0 },
                Coord { x: 1.0, y: 1.0 },
                Coord { x: 0.0, y: 1.0 },
            ],
            model_points: vec![
                Coord { x: 10.0, y: 20.0 },
                Coord { x: 11.0, y: 20.0 },
                Coord { x: 11.0, y: 21.0 },
                Coord { x: 10.0, y: 21.0 },
            ],
        })
    );
}

#[test]
fn from_transformation_matrix_takes_the_planar_block() {
    let matrix: [i32; 16] = [100, 101, 102, 103, 104, 105, 106, 107, 108, 109, 110, 111, 112, 113, 114, 115];
    assert_eq!(
        CoordinateTransform::from_transformation_matrix(matrix),
        CoordinateTransform::AffineTransform { transform: [100, 101, 103, 104, 105, 107] }
    );
}

#[test]
fn from_tie_point_and_pixel_scale_ignores_z() {
    let transform = CoordinateTransform::from_tie_point_and_pixel_scale(
        &[1.5, 2.5, 99.0, 3.5, 4.5, 98.0],
        &[0.25, 0.5, 97.0],
    );
    assert_eq!(
        transform,
        CoordinateTransform::TiePointAndPixelScale {
            raster_point: Coord { x: 1.5, y: 2.5 },
            model_point: Coord { x: 3.5, y: 4.5 },
            pixel_scale: Coord { x: 0.25, y: 0.5 },
        }
    );
}

#[test]
fn from_tie_points_keeps_points_aligned() {
    let values: Vec<u32> = (0..12).collect();
    assert_eq!(
        CoordinateTransform::from_tie_points(&values),
        CoordinateTransform::TiePoints {
            raster_points: vec![Coord { x: 0, y: 1 }, Coord { x: 6, y: 7 }],
            model_points: vec![Coord { x: 3, y: 4 }, Coord { x: 9, y: 10 }],
        }
    );
}

#[test]
fn image_without_tags_has_no_transform() {
    let result = coordinate_transform::<f64>(None, None, None, true);
    assert_eq!(result, Ok(None));
}

#[test]
fn image_with_tags_has_the_selected_transform() {
    let result = coordinate_transform(
        Some(vec![2.0, 2.0, 0.0]),
        Some(vec![0.0, 0.0, 0.0, 100.0, 200.0, 0.0]),
        None,
        true,
    );
    assert_eq!(
        result,
        Ok(Some(CoordinateTransform::TiePointAndPixelScale {
            raster_point: Coord { x: 0.0, y: 0.0 },
            model_point: Coord { x: 100.0, y: 200.0 },
            pixel_scale: Coord { x: 2.0, y: 2.0 },
        }))
    );
    let result = coordinate_transform(Some(vec![2.0, 2.0]), None, None, true);
    assert_eq!(result, Err(FormatError::PixelScaleLength));
    let result = coordinate_transform(Some(vec![2.0, 2.0, 0.0]), None, None, true);
    assert_eq!(result, Err(FormatError::TiePointsMissing));
}

#[test]
fn messages_name_the_offending_tag() {
    assert_eq!(
        FormatError::PixelScaleLength.message(),
        "Number values in ModelPixelScaleTag must be equal to 3"
    );
    assert_eq!(
        FormatError::TiePointsEmpty.message(),
        "Number of values in ModelTiePointTag must be greater than 0"
    );
    assert_eq!(
        FormatError::TiePointsNotDivisible.message(),
        "Number of values in ModelTiePointTag must be divisible by 6"
    );
    assert_eq!(
        FormatError::TransformationLength.message(),
        "Number of values in ModelTransformationTag must be equal to 16"
    );
    assert_eq!(
        FormatError::PixelScaleWithTransformation.message(),
        "ModelPixelScaleTag must not be specified when ModelTransformationTag is present"
    );
    assert_eq!(
        FormatError::TiePointsWithTransformation.message(),
        "ModelTiePointTag must not be specified when ModelTransformationTag is present"
    );
    assert_eq!(
        FormatError::TiePointsMissing.message(),
        "ModelTiePointTag must be present when ModelTransformationTag is missing"
    );
    assert_eq!(
        FormatError::PixelScaleMissing.message(),
        "ModelPixelScaleTag must be specified when ModelTiePointTag contains 6 values"
    );
    assert_eq!(FormatError::TiePointsUnsupported.message(), "Transformation by tie points is not supported");
    assert_eq!(
        FormatError::TransformationNotInvertible.message(),
        "Provided transformation matrix is not invertible"
    );
}

#[test]
fn contains_sequence_reads_the_hull_as_a_cycle() {
    let hull = [4, 7, 1, 3];
    assert!(contains_sequence(&hull, &[4, 7]));
    assert!(contains_sequence(&hull, &[7, 1, 3]));
    assert!(contains_sequence(&hull, &[3, 4]));
    assert!(contains_sequence(&hull, &[1, 3, 4, 7]));
    assert!(contains_sequence(&hull, &[3, 4, 7, 1, 3]));
    assert!(contains_sequence(&hull, &[4, 7, 1, 3, 4, 7, 1, 3]));
    assert!(!contains_sequence(&hull, &[3, 4, 7, 1, 3, 4]));
    assert!(contains_sequence(&hull, &[]));
    assert!(!contains_sequence(&hull, &[7, 4]));
    assert!(!contains_sequence(&hull, &[4, 1]));
    assert!(!contains_sequence(&hull, &[9]));
    assert!(!contains_sequence(&hull, &[4, 7, 1, 3, 4, 7, 1, 3, 4]));
    assert!(!contains_sequence(&[], &[]));
    assert!(!contains_sequence(&[], &[1]));
    assert!(contains_sequence(&[5], &[5, 5]));
    assert!(!contains_sequence(&[5], &[5, 5, 5]));
}

#[test]
fn edge_on_hull_goes_either_way() {
    let hull = [4, 7, 1, 3];
    assert!(edge_on_hull(&hull, 4, 7));
    assert!(edge_on_hull(&hull, 7, 4));
    assert!(edge_on_hull(&hull, 3, 4));
    assert!(edge_on_hull(&hull, 4, 3));
    assert!(!edge_on_hull(&hull, 4, 1));
    assert!(!edge_on_hull(&hull, 7, 3));
    assert!(!edge_on_hull(&hull, 4, 9));
}

#[test]
fn hull_corner_wraps_around() {
    let hull = [4, 7, 1, 3];
    assert_eq!(hull_corner(&hull, 0), (4, 7, 1));
    assert_eq!(hull_corner(&hull, 1), (7, 1, 3));
    assert_eq!(hull_corner(&hull, 2), (1, 3, 4));
    assert_eq!(hull_corner(&hull, 3), (3, 4, 7));
    assert_eq!(hull_corner(&[8, 9], 0), (8, 9, 8));
    assert_eq!(hull_corner(&[8, 9], 1), (9, 8, 9));
    assert_eq!(hull_corner(&[8], 0), (8, 8, 8));
}

#[test]
fn angle_bisectors_go_to_the_corner_points() {
    let hull = [2, 0, 3];
    let directions = [Coord { x: 1, y: 10 }, Coord { x: 2, y: 20 }, Coord { x: 3, y: 30 }];
    assert_eq!(
        angle_bisectors(5, &hull, &directions),
        vec![
            Some(Coord { x: 1, y: 10 }),
            None,
            Some(Coord { x: 3, y: 30 }),
            Some(Coord { x: 2, y: 20 }),
            None,
        ]
    );
}

#[test]
fn angle_bisectors_keep_the_last_direction_of_a_repeated_corner() {
    let hull = [1, 1, 0];
    let directions = [Coord { x: 1, y: 1 }, Coord { x: 2, y: 2 }, Coord { x: 3, y: 3 }];
    assert_eq!(
        angle_bisectors(2, &hull, &directions),
        vec![Some(Coord { x: 2, y: 2 }), Some(Coord { x: 3, y: 3 })]
    );
}

#[test]
fn fits_points_checks_every_index() {
    let triangulation = Triangulation { triangles: vec![0, 2, 1, 0, 3, 2], hull: vec![2, 1, 0, 3] };
    assert!(triangulation.fits_points(4));
    assert!(triangulation.fits_points(5));
    assert!(!triangulation.fits_points(3));
    assert!(!Triangulation { triangles: vec![0, 1], hull: vec![] }.fits_points(4));
    assert!(!Triangulation { triangles: vec![], hull: vec![4] }.fits_points(4));
    assert!(Triangulation { triangles: vec![], hull: vec![] }.fits_points(0));
}

fn labelled_points() -> Vec<Coord<i32>> {
    (0..6).map(|i| Coord { x: 10 * i, y: 10 * i + 1 }).collect()
}

fn labelled_directions(count: i32) -> Vec<Coord<i32>> {
    (0..count).map(|i| Coord { x: 100 + i, y: 200 + i }).collect()
}

#[test]
fn build_faces_of_a_single_triangle_is_unbounded() {
    let points = labelled_points();
    let triangulation = Triangulation { triangles: vec![0, 1, 2], hull: vec![0, 1, 2] };
    let faces = CoordinateTransform::build_faces(&points[..3], &triangulation, &labelled_directions(3));
    assert_eq!(faces, vec![Face { boundary: None, support_points: [points[0], points[1], points[2]] }]);
}

#[test]
fn build_faces_of_a_square_gives_two_wedges() {
    let points = labelled_points();
    let triangulation = Triangulation { triangles: vec![0, 2, 1, 0, 3, 2], hull: vec![2, 1, 0, 3] };
    let directions = labelled_directions(4);
    let faces = CoordinateTransform::build_faces(&points[..4], &triangulation, &directions);
    // corner i lies at hull[(i + 1) % 4]: point 1 has direction 0, point 0 has 1, point 3 has 2, point 2 has 3
    assert_eq!(
        faces,
        vec![
            Face {
                boundary: Some(Boundary::Open {
                    coords: vec![points[0], points[2]],
                    from_direction: directions[1],
                    to_direction: directions[3],
                }),
                support_points: [points[0], points[2], points[1]],
            },
            Face {
                boundary: Some(Boundary::Open {
                    coords: vec![points[2], points[0]],
                    from_direction: directions[3],
                    to_direction: directions[1],
                }),
                support_points: [points[0], points[3], points[2]],
            },
        ]
    );
}

#[test]
fn build_faces_tells_the_three_kinds_of_boundary_apart() {
    // a triangle 0 1 2 around the inner triangle 3 4 5
    let points = labelled_points();
    let triangulation = Triangulation {
        triangles: vec![3, 4, 5, 0, 1, 3, 1, 4, 3, 1, 2, 4, 2, 5, 4, 2, 0, 5, 0, 3, 5],
        hull: vec![0, 1, 2],
    };
    let directions = labelled_directions(3);
    let faces = CoordinateTransform::build_faces(&points, &triangulation, &directions);
    assert_eq!(faces.len(), 7);
    assert_eq!(
        faces[0],
        Face {
            boundary: Some(Boundary::Closed { coords: vec![points[3], points[4], points[5], points[3]] }),
            support_points: [points[3], points[4], points[5]],
        }
    );
    // the edge 0 1 lies on the hull: the chain runs 1 3 0
    assert_eq!(
        faces[1],
        Face {
            boundary: Some(Boundary::Open {
                coords: vec![points[1], points[3], points[0]],
                from_direction: directions[0],
                to_direction: directions[2],
            }),
            support_points: [points[0], points[1], points[3]],
        }
    );
    // no edge of 1 4 3 lies on the hull
    assert_eq!(
        faces[2],
        Face {
            boundary: Some(Boundary::Closed { coords: vec![points[1], points[4], points[3], points[1]] }),
            support_points: [points[1], points[4], points[3]],
        }
    );
    // the edge 2 0 lies on the hull: the chain runs 0 5 2
    assert_eq!(
        faces[5],
        Face {
            boundary: Some(Boundary::Open {
                coords: vec![points[0], points[5], points[2]],
                from_direction: directions[2],
                to_direction: directions[1],
            }),
            support_points: [points[2], points[0], points[5]],
        }
    );
}

#[test]
fn build_faces_of_both_spaces_share_their_topology() {
    let raster: Vec<Coord<i32>> = labelled_points();
    let model: Vec<Coord<i32>> = raster.iter().map(|p| Coord { x: -p.x, y: 7 * p.y }).collect();
    let triangulation = Triangulation {
        triangles: vec![3, 4, 5, 0, 1, 3, 1, 4, 3, 1, 2, 4, 2, 5, 4, 2, 0, 5, 0, 3, 5],
        hull: vec![0, 1, 2],
    };
    let raster_mesh = CoordinateTransform::build_faces(&raster, &triangulation, &labelled_directions(3));
    let model_mesh = CoordinateTransform::build_faces(&model, &triangulation, &labelled_directions(3));
    assert_eq!(raster_mesh.len(), model_mesh.len());
    for (raster_face, model_face) in raster_mesh.iter().zip(model_mesh.iter()) {
        match (&raster_face.boundary, &model_face.boundary) {
            (None, None) => {}
            (Some(Boundary::Open { coords: mine, .. }), Some(Boundary::Open { coords: theirs, .. })) => {
                assert_eq!(mine.len(), theirs.len())
            }
            (Some(Boundary::Closed { coords: mine }), Some(Boundary::Closed { coords: theirs })) => {
                assert_eq!(mine.len(), theirs.len())
            }
            _ => panic!("the faces differ in kind"),
        }
    }
}

#[test]
fn build_faces_over_a_real_triangulation_of_a_square() {
    let tie_points = square_tie_points();
    let Ok(CoordinateTransform::TiePoints { raster_points, model_points }) =
        CoordinateTransform::from_tag_data(None, Some(tie_points), None, true)
    else {
        panic!("tie points were expected");
    };
    let input: Vec<delaunator::Point> =
        raster_points.iter().map(|p| delaunator::Point { x: p.x, y: p.y }).collect();
    let found = delaunator::triangulate(&input);
    let triangulation = Triangulation { triangles: found.triangles, hull: found.hull };
    assert!(triangulation.fits_points(raster_points.len()));
    assert_eq!(triangulation.triangles.len(), 6);
    assert_eq!(triangulation.hull.len(), 4);
    let directions = vec![Coord { x: 0.0, y: 0.0 }; 4];
    let raster_mesh = CoordinateTransform::build_faces(&raster_points, &triangulation, &directions);
    let model_mesh = CoordinateTransform::build_faces(&model_points, &triangulation, &directions);
    assert_eq!(raster_mesh.len(), 2);
    assert_eq!(model_mesh.len(), 2);
    for (k, face) in raster_mesh.iter().enumerate() {
        let corners = &triangulation.triangles[3 * k..3 * k + 3];
        assert_eq!(
            face.support_points,
            [raster_points[corners[0]], raster_points[corners[1]], raster_points[corners[2]]]
        );
        assert_eq!(
            model_mesh[k].support_points,
            [model_points[corners[0]], model_points[corners[1]], model_points[corners[2]]]
        );
        // both triangles of a square have two edges on the hull and the diagonal inside
        match &face.boundary {
            Some(Boundary::Open { coords, .. }) => assert_eq!(coords.len(), 2),
            other => panic!("a wedge was expected, not {:?}", other),
        }
    }
}

#[test]
fn build_meshes_builds_one_mesh_for_each_space() {
    let raster: Vec<Coord<i32>> = labelled_points();
    let model: Vec<Coord<i32>> = raster.iter().map(|p| Coord { x: -p.x, y: 7 * p.y }).collect();
    let triangulation = Triangulation {
        triangles: vec![3, 4, 5, 0, 1, 3, 1, 4, 3, 1, 2, 4, 2, 5, 4, 2, 0, 5, 0, 3, 5],
        hull: vec![0, 1, 2],
    };
    let raster_directions = labelled_directions(3);
    let model_directions: Vec<Coord<i32>> = raster_directions.iter().map(|d| Coord { x: d.y, y: d.x }).collect();
    let meshes =
        CoordinateTransform::build_meshes(&raster, &model, &triangulation, &raster_directions, &model_directions);
    assert_eq!(
        meshes,
        Meshes {
            raster_mesh: CoordinateTransform::build_faces(&raster, &triangulation, &raster_directions),
            model_mesh: CoordinateTransform::build_faces(&model, &triangulation, &model_directions),
        }
    );
    assert_eq!(meshes.raster_mesh.len(), 7);
    assert_eq!(meshes.model_mesh.len(), 7);
    assert_eq!(
        meshes.model_mesh[1],
        Face {
            boundary: Some(Boundary::Open {
                coords: vec![model[1], model[3], model[0]],
                from_direction: model_directions[0],
                to_direction: model_directions[2],
            }),
            support_points: [model[0], model[1], model[3]],
        }
    );
}

#[test]
fn one_tie_point_and_a_pixel_scale_anchor_the_raster() {
    let Ok(CoordinateTransform::TiePointAndPixelScale { raster_point, model_point, pixel_scale }) =
        CoordinateTransform::from_tag_data(
            Some(vec![2.0, 2.0, 0.0]),
            Some(vec![0.0, 0.0, 0.0, 100.0, 200.0, 0.0]),
            None,
            true,
        )
    else {
        panic!("a tie point with a pixel scale was expected");
    };
    // the pixel (10, 10) lies 20 to the east and 20 to the south of the anchor
    let x = (10.0 - raster_point.x) * pixel_scale.x + model_point.x;
    let y = (10.0 - raster_point.y) * -pixel_scale.y + model_point.y;
    assert_eq!((x, y), (120.0, 180.0));
}
