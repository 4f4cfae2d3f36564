use gdal_errors::errors::{
    CplErrType, GdalError, IntoStringErrorInfo, NulErrorInfo, ShapeErrorInfo, ShapeErrorKind,
    Utf8ErrorInfo,
};

#[test]
fn from_raw_maps_each_ordinal() {
    assert_eq!(CplErrType::from_raw(0), CplErrType::CeNone);
    assert_eq!(CplErrType::from_raw(1), CplErrType::CeDebug);
    assert_eq!(CplErrType::from_raw(2), CplErrType::CeWarning);
    assert_eq!(CplErrType::from_raw(3), CplErrType::CeFailure);
    assert_eq!(CplErrType::from_raw(4), CplErrType::CeFatal);
}

#[test]
fn from_raw_is_injective_on_the_scale() {
    let levels = [
        CplErrType::from_raw(0),
        CplErrType::from_raw(1),
        CplErrType::from_raw(2),
        CplErrType::from_raw(3),
        CplErrType::from_raw(4),
    ];
    for i in 0..levels.len() {
        for j in 0..levels.len() {
            if i != j {
                assert_ne!(levels[i], levels[j]);
            }
        }
    }
}

#[test]
fn from_raw_out_of_range_falls_back_to_none() {
    assert_eq!(CplErrType::from_raw(5), CplErrType::CeNone);
    assert_eq!(CplErrType::from_raw(7), CplErrType::CeNone);
    assert_eq!(CplErrType::from_raw(100), CplErrType::CeNone);
    assert_eq!(CplErrType::from_raw(u32::MAX), CplErrType::CeNone);
}

#[test]
fn from_raw_concrete_scenarios() {
    assert_eq!(CplErrType::from_raw(7), CplErrType::CeNone);
    assert_eq!(CplErrType::from_raw(3), CplErrType::CeFailure);
}

#[test]
fn from_trait_agrees_with_from_raw() {
    assert_eq!(CplErrType::from(0u32), CplErrType::CeNone);
    assert_eq!(CplErrType::from(3u32), CplErrType::CeFailure);
    assert_eq!(CplErrType::from(9u32), CplErrType::CeNone);
}

#[test]
fn severity_names() {
    assert_eq!(CplErrType::CeNone.name(), "None");
    assert_eq!(CplErrType::CeDebug.name(), "Debug");
    assert_eq!(CplErrType::CeWarning.name(), "Warning");
    assert_eq!(CplErrType::CeFailure.name(), "Failure");
    assert_eq!(CplErrType::CeFatal.name(), "Fatal");
}

#[test]
fn cpl_error_message_exact() {
    let e = GdalError::CplError {
        class: CplErrType::CeFailure,
        number: 42,
        msg: "boom".to_string(),
    };
    assert_eq!(
        e.message(),
        "CPL error class: 'Failure', error number: '42', error msg: 'boom'"
    );
}

#[test]
fn cpl_error_message_negative_number() {
    let e = GdalError::CplError {
        class: CplErrType::CeWarning,
        number: -7,
        msg: "looks off".to_string(),
    };
    let m = e.message();
    assert!(m.contains("Warning"));
    assert!(m.contains("-7"));
    assert!(m.contains("looks off"));
}

#[test]
fn null_pointer_message_exact() {
    let e = GdalError::NullPointer {
        method_name: "GDALOpen",
        msg: "no such dataset".to_string(),
    };
    assert_eq!(
        e.message(),
        "GDAL method 'GDALOpen' returned a NULL pointer. Error msg: 'no such dataset'"
    );
}

#[test]
fn cast_to_f64_message_exact() {
    assert_eq!(GdalError::CastToF64Error.message(), "Can't cast to f64");
}

#[test]
fn ogr_error_message_exact() {
    let e = GdalError::OgrError {
        err: 6,
        method_name: "OGR_L_GetExtent",
    };
    assert_eq!(
        e.message(),
        "OGR method 'OGR_L_GetExtent' returned error: '6'"
    );
}

#[test]
fn unhandled_field_type_message_interpolates() {
    let e = GdalError::UnhandledFieldType {
        field_type: 11,
        method_name: "OGR_Fld_GetType",
    };
    let m = e.message();
    assert!(m.contains("11"));
    assert!(m.contains("OGR_Fld_GetType"));
}

#[test]
fn invalid_field_name_message_interpolates() {
    let e = GdalError::InvalidFieldName {
        field_name: "elevation".to_string(),
        method_name: "GetFieldIndex",
    };
    let m = e.message();
    assert!(m.contains("elevation"));
    assert!(m.contains("GetFieldIndex"));
}

#[test]
fn invalid_field_index_message_exact() {
    let e = GdalError::InvalidFieldIndex {
        index: 5,
        method_name: "GetField",
    };
    let m = e.message();
    assert!(m.contains("5"));
    assert!(m.contains("GetField"));
    assert_eq!(m, "Invalid field index '5' used on method 'GetField'");
}

#[test]
fn invalid_field_index_message_large_index() {
    let e = GdalError::InvalidFieldIndex {
        index: usize::MAX,
        method_name: "GetField",
    };
    assert!(e.message().contains("18446744073709551615"));
}

#[test]
fn unlinked_geometry_message_exact() {
    let e = GdalError::UnlinkedGeometry {
        method_name: "OGR_G_Area",
    };
    assert_eq!(e.message(), "Unlinked Geometry on method 'OGR_G_Area'");
}

#[test]
fn invalid_coordinate_range_message_with_detail() {
    let e = GdalError::InvalidCoordinateRange {
        from: "EPSG:4326".to_string(),
        to: "EPSG:3857".to_string(),
        msg: Some("latitude out of bounds".to_string()),
    };
    let m = e.message();
    assert!(m.contains("EPSG:4326"));
    assert!(m.contains("EPSG:3857"));
    assert!(m.contains("Some(\"latitude out of bounds\")"));
}

#[test]
fn invalid_coordinate_range_message_without_detail() {
    let e = GdalError::InvalidCoordinateRange {
        from: "EPSG:4326".to_string(),
        to: "EPSG:3857".to_string(),
        msg: None,
    };
    assert_eq!(
        e.message(),
        "Invalid coordinate range while transforming points from 'EPSG:4326' to 'EPSG:3857': 'None'"
    );
}

#[test]
fn axis_not_found_message_interpolates() {
    let e = GdalError::AxisNotFoundError {
        key: "UP".to_string(),
        method_name: "GetAxis",
    };
    let m = e.message();
    assert!(m.contains("UP"));
    assert!(m.contains("GetAxis"));
}

#[test]
fn unsupported_geometry_type_message_interpolates() {
    let e = GdalError::UnsupportedGdalGeometryType(3000001);
    assert!(e.message().contains("3000001"));
}

#[test]
fn unlink_mem_file_message_exact() {
    let e = GdalError::UnlinkMemFile {
        file_name: "/vsimem/scratch.tif".to_string(),
    };
    assert_eq!(
        e.message(),
        "Unable to unlink mem file: /vsimem/scratch.tif"
    );
}

#[test]
fn bad_argument_message_interpolates() {
    let e = GdalError::BadArgument("band index must be positive".to_string());
    assert!(e.message().contains("band index must be positive"));
}

#[test]
fn ffi_nul_error_message_interpolates() {
    let e = GdalError::FfiNulError(NulErrorInfo { nul_position: 9 });
    assert!(e.message().contains("9"));
}

#[test]
fn utf8_error_message_interpolates() {
    let e = GdalError::StrUtf8Error(Utf8ErrorInfo {
        valid_up_to: 2,
        error_len: Some(1),
    });
    let m = e.message();
    assert!(m.contains("2"));
    assert!(m.contains("Some(1)"));
}

#[test]
fn into_string_error_message_interpolates() {
    let e = GdalError::FfiIntoStringError(IntoStringErrorInfo {
        utf8_error: Utf8ErrorInfo {
            valid_up_to: 4,
            error_len: None,
        },
    });
    let m = e.message();
    assert!(m.contains("4"));
    assert!(m.contains("None"));
}

#[test]
fn shape_error_message_interpolates() {
    let e = GdalError::NdarrayShapeError(ShapeErrorInfo {
        kind: ShapeErrorKind::IncompatibleShape,
    });
    assert!(e.message().contains("IncompatibleShape"));
}

#[test]
fn wrapping_utf8_failure_round_trips() {
    let raw: &[u8] = &[104, 105, 0xFF, 104];
    let std_error = std::str::from_utf8(raw).unwrap_err();
    let cause = Utf8ErrorInfo {
        valid_up_to: std_error.valid_up_to(),
        error_len: std_error.error_len(),
    };
    let wrapped = GdalError::from_utf8_error(cause);
    assert!(matches!(wrapped, GdalError::StrUtf8Error(_)));
    let recovered = wrapped.utf8_error_cause().unwrap();
    assert_eq!(recovered, cause);
    assert_eq!(recovered.valid_up_to, std_error.valid_up_to());
    assert_eq!(recovered.error_len, std_error.error_len());
}

#[test]
fn wrapping_nul_failure_round_trips() {
    let cause = NulErrorInfo { nul_position: 3 };
    let wrapped = GdalError::from_nul_error(cause);
    assert!(matches!(wrapped, GdalError::FfiNulError(_)));
    assert_eq!(wrapped.nul_error_cause(), Some(cause));
    assert_eq!(wrapped.utf8_error_cause(), None);
}

#[test]
fn wrapping_into_string_failure_round_trips() {
    let cause = IntoStringErrorInfo {
        utf8_error: Utf8ErrorInfo {
            valid_up_to: 0,
            error_len: Some(2),
        },
    };
    let wrapped = GdalError::from_into_string_error(cause);
    assert!(matches!(wrapped, GdalError::FfiIntoStringError(_)));
    assert_eq!(wrapped.into_string_error_cause(), Some(cause));
    assert_eq!(wrapped.nul_error_cause(), None);
}

#[test]
fn wrapping_shape_failure_round_trips() {
    let cause = ShapeErrorInfo {
        kind: ShapeErrorKind::OutOfBounds,
    };
    let wrapped = GdalError::from_shape_error(cause);
    assert!(matches!(wrapped, GdalError::NdarrayShapeError(_)));
    assert_eq!(wrapped.shape_error_cause(), Some(cause));
    assert_eq!(wrapped.into_string_error_cause(), None);
}

#[test]
fn identical_construction_compares_equal() {
    let a = GdalError::CplError {
        class: CplErrType::CeFatal,
        number: 1,
        msg: "driver failed".to_string(),
    };
    let b = GdalError::CplError {
        class: CplErrType::CeFatal,
        number: 1,
        msg: "driver failed".to_string(),
    };
    assert_eq!(a, b);

    let c = GdalError::AxisNotFoundError {
        key: "UP".to_string(),
        method_name: "GetAxis",
    };
    let d = GdalError::AxisNotFoundError {
        key: "UP".to_string(),
        method_name: "GetAxis",
    };
    assert_eq!(c, d);
}

#[test]
fn different_payload_compares_unequal() {
    let a = GdalError::InvalidFieldIndex {
        index: 5,
        method_name: "GetField",
    };
    let b = GdalError::InvalidFieldIndex {
        index: 6,
        method_name: "GetField",
    };
    assert_ne!(a, b);
}

#[test]
fn different_variant_compares_unequal() {
    let a = GdalError::BadArgument("x".to_string());
    let b = GdalError::UnlinkMemFile {
        file_name: "x".to_string(),
    };
    assert_ne!(a, b);
    assert_ne!(GdalError::CastToF64Error, a);
}

#[test]
fn callers_can_dispatch_on_the_variant() {
    let e = GdalError::InvalidFieldName {
        field_name: "elevation".to_string(),
        method_name: "GetFieldIndex",
    };
    let schema_mismatch = matches!(
        e,
        GdalError::InvalidFieldName { .. } | GdalError::InvalidFieldIndex { .. }
    );
    assert!(schema_mismatch);
    assert!(!matches!(e, GdalError::CplError { .. }));
}
