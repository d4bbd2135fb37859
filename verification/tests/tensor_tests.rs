use rknn_driver::tensor::{
    core_mask_code, format_from_code, format_label, merge_shapes, quant_from_code, quant_label,
    target_dims, type_from_code, type_label, CoreMask, QuantType, ShapeRange, TensorAttr,
    TensorFormat, TensorType, MAX_DIMS,
};

fn attr(n_dims: u32, dims_prefix: &[u32], fmt: TensorFormat) -> TensorAttr {
    let mut dims = vec![0u32; MAX_DIMS];
    for (i, d) in dims_prefix.iter().enumerate() {
        dims[i] = *d;
    }
    TensorAttr {
        index: 0,
        name: b"data".to_vec(),
        n_dims,
        dims,
        n_elems: 0,
        size: 0,
        fmt,
        ty: TensorType::Uint8,
        qnt: QuantType::AffineAsymmetric,
        zp: 0,
        scale_bits: 1.0f32.to_bits(),
    }
}

#[test]
fn format_codes_round_to_enum() {
    assert_eq!(format_from_code(0), TensorFormat::Nchw);
    assert_eq!(format_from_code(1), TensorFormat::Nhwc);
    assert_eq!(format_from_code(2), TensorFormat::Nc1hwc2);
    assert_eq!(format_from_code(3), TensorFormat::Undefined);
    assert_eq!(format_from_code(77), TensorFormat::Unrecognized);
}

#[test]
fn type_codes_round_to_enum() {
    assert_eq!(type_from_code(0), TensorType::Float32);
    assert_eq!(type_from_code(3), TensorType::Uint8);
    assert_eq!(type_from_code(10), TensorType::Int4);
    assert_eq!(type_from_code(11), TensorType::Unrecognized);
}

#[test]
fn quant_codes_round_to_enum() {
    assert_eq!(quant_from_code(0), QuantType::Unquantized);
    assert_eq!(quant_from_code(1), QuantType::Dfp);
    assert_eq!(quant_from_code(2), QuantType::AffineAsymmetric);
    assert_eq!(quant_from_code(9), QuantType::Unrecognized);
}

#[test]
fn core_mask_codes() {
    assert_eq!(core_mask_code(CoreMask::Auto), 0);
    assert_eq!(core_mask_code(CoreMask::Npu0), 1);
    assert_eq!(core_mask_code(CoreMask::Npu1), 2);
    assert_eq!(core_mask_code(CoreMask::Npu2), 4);
    assert_eq!(core_mask_code(CoreMask::Npu0_1), 3);
    assert_eq!(core_mask_code(CoreMask::Npu0_1_2), 7);
    assert_eq!(core_mask_code(CoreMask::All), 0xffff);
    assert_eq!(core_mask_code(CoreMask::Undefined), 0x10000);
}

#[test]
fn labels_match_report_strings() {
    assert_eq!(type_label(TensorType::Float32), "FP32");
    assert_eq!(type_label(TensorType::Unrecognized), "UNKNOWN");
    assert_eq!(format_label(TensorFormat::Nhwc), "NHWC");
    assert_eq!(quant_label(QuantType::Unquantized), "NONE");
    assert_eq!(quant_label(QuantType::AffineAsymmetric), "AFFINE");
}

#[test]
fn merge_overwrites_valid_prefix_only() {
    let mut base = attr(4, &[1, 224, 224, 3], TensorFormat::Nhwc);
    base.dims[15] = 42;
    let range = ShapeRange {
        index: 0,
        name: b"data".to_vec(),
        n_dims: 4,
        entries: vec![vec![1, 112, 112, 3], vec![1, 56, 56, 3]],
        fmt: TensorFormat::Nhwc,
    };
    let merged = merge_shapes(&vec![base], &vec![range], 1);
    assert_eq!(merged.len(), 1);
    assert_eq!(&merged[0].dims[..4], &[1, 56, 56, 3]);
    assert_eq!(merged[0].dims[15], 42);
    assert_eq!(merged[0].n_dims, 4);
}

#[test]
fn target_dims_honours_layout() {
    let nhwc = attr(4, &[1, 224, 112, 3], TensorFormat::Nhwc);
    assert_eq!(target_dims(&nhwc), (112, 224));
    let nchw = attr(4, &[1, 3, 224, 112], TensorFormat::Nchw);
    assert_eq!(target_dims(&nchw), (112, 224));
}

#[test]
fn range_wf_check_rejects_wrong_rank() {
    let good = ShapeRange {
        index: 0,
        name: Vec::new(),
        n_dims: 2,
        entries: vec![vec![4, 4], vec![8, 8]],
        fmt: TensorFormat::Nhwc,
    };
    assert!(good.check_wf());
    let bad = ShapeRange {
        index: 0,
        name: Vec::new(),
        n_dims: 2,
        entries: vec![vec![4, 4], vec![8]],
        fmt: TensorFormat::Nhwc,
    };
    assert!(!bad.check_wf());
}
