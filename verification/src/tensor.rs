//! Tensor descriptors as the runtime reports them, with the closed
//! enumerations for its format, element-type and quantization codes,
//! and the pure shape arithmetic of dynamic-shape negotiation.

use vstd::prelude::*;

verus! {

/// Number of dimension slots in a tensor descriptor.
pub const MAX_DIMS: usize = 16;

/// The storage layout of a tensor, decoded from the runtime's format code.
#[derive(Clone, Copy, Debug, PartialEq, Eq, Structural)]
pub enum TensorFormat {
    Nchw,
    Nhwc,
    Nc1hwc2,
    Undefined,
    Unrecognized,
}

/// The element type of a tensor, decoded from the runtime's type code.
#[derive(Clone, Copy, Debug, PartialEq, Eq, Structural)]
pub enum TensorType {
    Float32,
    Float16,
    Int8,
    Uint8,
    Int16,
    Uint16,
    Int32,
    Uint32,
    Int64,
    Bool,
    Int4,
    Unrecognized,
}

/// The quantization scheme of a tensor, decoded from the runtime's code.
#[derive(Clone, Copy, Debug, PartialEq, Eq, Structural)]
pub enum QuantType {
    Unquantized,
    Dfp,
    AffineAsymmetric,
    Unrecognized,
}

/// The processing-unit affinity choices the runtime accepts.
#[derive(Clone, Copy, Debug, PartialEq, Eq, Structural)]
pub enum CoreMask {
    Auto,
    Npu0,
    Npu1,
    Npu2,
    Npu0_1,
    Npu0_1_2,
    All,
    Undefined,
}

/// Decodes the runtime's tensor format code; unknown codes map to
/// `Unrecognized` rather than silently defaulting.
pub fn format_from_code(code: u32) -> (r: TensorFormat)
    ensures
        r == (match code {
            0u32 => TensorFormat::Nchw,
            1u32 => TensorFormat::Nhwc,
            2u32 => TensorFormat::Nc1hwc2,
            3u32 => TensorFormat::Undefined,
            _ => TensorFormat::Unrecognized,
        }),
{
    match code {
        0u32 => TensorFormat::Nchw,
        1u32 => TensorFormat::Nhwc,
        2u32 => TensorFormat::Nc1hwc2,
        3u32 => TensorFormat::Undefined,
        _ => TensorFormat::Unrecognized,
    }
}

/// Decodes the runtime's element-type code.
pub fn type_from_code(code: u32) -> (r: TensorType)
    ensures
        r == (match code {
            0u32 => TensorType::Float32,
            1u32 => TensorType::Float16,
            2u32 => TensorType::Int8,
            3u32 => TensorType::Uint8,
            4u32 => TensorType::Int16,
            5u32 => TensorType::Uint16,
            6u32 => TensorType::Int32,
            7u32 => TensorType::Uint32,
            8u32 => TensorType::Int64,
            9u32 => TensorType::Bool,
            10u32 => TensorType::Int4,
            _ => TensorType::Unrecognized,
        }),
{
    match code {
        0u32 => TensorType::Float32,
        1u32 => TensorType::Float16,
        2u32 => TensorType::Int8,
        3u32 => TensorType::Uint8,
        4u32 => TensorType::Int16,
        5u32 => TensorType::Uint16,
        6u32 => TensorType::Int32,
        7u32 => TensorType::Uint32,
        8u32 => TensorType::Int64,
        9u32 => TensorType::Bool,
        10u32 => TensorType::Int4,
        _ => TensorType::Unrecognized,
    }
}

/// Decodes the runtime's quantization-scheme code.
pub fn quant_from_code(code: u32) -> (r: QuantType)
    ensures
        r == (match code {
            0u32 => QuantType::Unquantized,
            1u32 => QuantType::Dfp,
            2u32 => QuantType::AffineAsymmetric,
            _ => QuantType::Unrecognized,
        }),
{
    match code {
        0u32 => QuantType::Unquantized,
        1u32 => QuantType::Dfp,
        2u32 => QuantType::AffineAsymmetric,
        _ => QuantType::Unrecognized,
    }
}

/// The affinity mask code the runtime expects for each core selection.
pub fn core_mask_code(mask: CoreMask) -> (r: u32)
    ensures
        r == (match mask {
            CoreMask::Auto => 0u32,
            CoreMask::Npu0 => 1u32,
            CoreMask::Npu1 => 2u32,
            CoreMask::Npu2 => 4u32,
            CoreMask::Npu0_1 => 3u32,
            CoreMask::Npu0_1_2 => 7u32,
            CoreMask::All => 0xffffu32,
            CoreMask::Undefined => 0x10000u32,
        }),
{
    match mask {
        CoreMask::Auto => 0u32,
        CoreMask::Npu0 => 1u32,
        CoreMask::Npu1 => 2u32,
        CoreMask::Npu2 => 4u32,
        CoreMask::Npu0_1 => 3u32,
        CoreMask::Npu0_1_2 => 7u32,
        CoreMask::All => 0xffffu32,
        CoreMask::Undefined => 0x10000u32,
    }
}

/// Short display label for an element type.
pub fn type_label(t: TensorType) -> (r: &'static str)
    ensures
        t == TensorType::Float32 ==> r@ == "FP32"@,
        t == TensorType::Uint8 ==> r@ == "UINT8"@,
        t == TensorType::Unrecognized ==> r@ == "UNKNOWN"@,
{
    match t {
        TensorType::Float32 => "FP32",
        TensorType::Float16 => "FP16",
        TensorType::Int8 => "INT8",
        TensorType::Uint8 => "UINT8",
        TensorType::Int16 => "INT16",
        TensorType::Uint16 => "UINT16",
        TensorType::Int32 => "INT32",
        TensorType::Uint32 => "UINT32",
        TensorType::Int64 => "INT64",
        TensorType::Bool => "BOOL",
        TensorType::Int4 => "INT4",
        TensorType::Unrecognized => "UNKNOWN",
    }
}

/// Short display label for a storage layout.
pub fn format_label(f: TensorFormat) -> (r: &'static str)
    ensures
        f == TensorFormat::Nchw ==> r@ == "NCHW"@,
        f == TensorFormat::Nhwc ==> r@ == "NHWC"@,
        f == TensorFormat::Unrecognized ==> r@ == "UNKNOWN"@,
{
    match f {
        TensorFormat::Nchw => "NCHW",
        TensorFormat::Nhwc => "NHWC",
        TensorFormat::Nc1hwc2 => "NC1HWC2",
        TensorFormat::Undefined => "UNDEFINED",
        TensorFormat::Unrecognized => "UNKNOWN",
    }
}

/// Short display label for a quantization scheme.
pub fn quant_label(q: QuantType) -> (r: &'static str)
    ensures
        q == QuantType::Unquantized ==> r@ == "NONE"@,
        q == QuantType::AffineAsymmetric ==> r@ == "AFFINE"@,
        q == QuantType::Unrecognized ==> r@ == "UNKNOWN"@,
{
    match q {
        QuantType::Unquantized => "NONE",
        QuantType::Dfp => "DFP",
        QuantType::AffineAsymmetric => "AFFINE",
        QuantType::Unrecognized => "UNKNOWN",
    }
}

/// One tensor slot as the runtime describes it.  The dimension vector is a
/// fixed-size array in the foreign descriptor, so `dims` always holds
/// `MAX_DIMS` entries of which the first `n_dims` are meaningful.  A
/// floating-point quantization scale crosses the boundary as its raw bits.
#[derive(Clone, Debug)]
pub struct TensorAttr {
    pub index: u32,
    pub name: Vec<u8>,
    pub n_dims: u32,
    pub dims: Vec<u32>,
    pub n_elems: u32,
    pub size: u32,
    pub fmt: TensorFormat,
    pub ty: TensorType,
    pub qnt: QuantType,
    pub zp: i32,
    pub scale_bits: u32,
}

/// Mathematical image of a `TensorAttr`.
pub struct AttrV {
    pub index: u32,
    pub name: Seq<u8>,
    pub n_dims: u32,
    pub dims: Seq<u32>,
    pub n_elems: u32,
    pub size: u32,
    pub fmt: TensorFormat,
    pub ty: TensorType,
    pub qnt: QuantType,
    pub zp: i32,
    pub scale_bits: u32,
}

impl View for TensorAttr {
    type V = AttrV;

    open spec fn view(&self) -> AttrV {
        AttrV {
            index: self.index,
            name: self.name@,
            n_dims: self.n_dims,
            dims: self.dims@,
            n_elems: self.n_elems,
            size: self.size,
            fmt: self.fmt,
            ty: self.ty,
            qnt: self.qnt,
            zp: self.zp,
            scale_bits: self.scale_bits,
        }
    }
}

impl AttrV {
    /// The descriptor carries a full fixed-size dimension array and a valid
    /// prefix length.
    pub open spec fn wf(self) -> bool {
        &&& self.dims.len() == MAX_DIMS
        &&& self.n_dims <= MAX_DIMS
    }
}

impl TensorAttr {
    pub open spec fn wf(&self) -> bool {
        self@.wf()
    }
}

/// The mathematical image of a sequence of descriptors.
pub open spec fn attrs_view(s: Seq<TensorAttr>) -> Seq<AttrV> {
    s.map_values(|a: TensorAttr| a@)
}

/// For one input slot, the ordered list of alternative shapes the runtime
/// will accept; every entry has exactly the rank the slot declares.
#[derive(Clone, Debug)]
pub struct ShapeRange {
    pub index: u32,
    pub name: Vec<u8>,
    pub n_dims: u32,
    pub entries: Vec<Vec<u32>>,
    pub fmt: TensorFormat,
}

/// Mathematical image of a `ShapeRange`.
pub struct RangeV {
    pub index: u32,
    pub name: Seq<u8>,
    pub n_dims: u32,
    pub entries: Seq<Seq<u32>>,
    pub fmt: TensorFormat,
}

impl View for ShapeRange {
    type V = RangeV;

    open spec fn view(&self) -> RangeV {
        RangeV {
            index: self.index,
            name: self.name@,
            n_dims: self.n_dims,
            entries: self.entries@.map_values(|e: Vec<u32>| e@),
            fmt: self.fmt,
        }
    }
}

impl RangeV {
    /// Every alternative shape has the rank the slot declares.
    pub open spec fn wf(self) -> bool {
        &&& self.n_dims <= MAX_DIMS
        &&& forall|k: int|
            0 <= k < self.entries.len() ==> (#[trigger] self.entries[k]).len() == self.n_dims
    }
}

impl ShapeRange {
    pub open spec fn wf(&self) -> bool {
        self@.wf()
    }

    /// Checks the rank invariant on a freshly received range.
    pub fn check_wf(&self) -> (r: bool)
        ensures
            r == self.wf(),
    {
        if self.n_dims as usize > MAX_DIMS {
            return false;
        }
        let mut k: usize = 0;
        while k < self.entries.len()
            invariant
                k <= self.entries@.len(),
                self.n_dims <= MAX_DIMS,
                forall|i: int| 0 <= i < k ==> (#[trigger] self@.entries[i]).len() == self.n_dims,
            decreases self.entries@.len() - k,
        {
            if self.entries[k].len() != self.n_dims as usize {
                assert(self@.entries[k as int].len() != self.n_dims);
                return false;
            }
            k = k + 1;
        }
        true
    }
}

/// The dimension vector after candidate shape `entry` overwrites the first
/// `n_dims` axes and the remaining slots keep their old contents.
pub open spec fn merged_dims(dims: Seq<u32>, entry: Seq<u32>, n_dims: u32) -> Seq<u32> {
    Seq::new(dims.len(), |j: int| if j < n_dims { entry[j] } else { dims[j] })
}

/// A descriptor after its dimensions were overwritten by a candidate shape.
pub open spec fn merged_attr(a: AttrV, entry: Seq<u32>) -> AttrV {
    (AttrV { dims: merged_dims(a.dims, entry, a.n_dims), ..a })
}

/// Whether descriptors and ranges line up slot by slot and all hold
/// candidate entry `s`: the precondition of one negotiation round.
pub open spec fn ranges_match_attrs(attrs: Seq<AttrV>, ranges: Seq<RangeV>, s: int) -> bool {
    &&& attrs.len() == ranges.len()
    &&& forall|i: int| 0 <= i < attrs.len() ==> (#[trigger] attrs[i]).wf()
    &&& forall|i: int| 0 <= i < ranges.len() ==> (#[trigger] ranges[i]).wf()
    &&& forall|i: int| 0 <= i < ranges.len() ==> (#[trigger] ranges[i]).n_dims == attrs[i].n_dims
    &&& forall|i: int| 0 <= i < ranges.len() ==> 0 <= s < (#[trigger] ranges[i]).entries.len()
}

/// Overwrites each input descriptor's dimension vector with entry `s` of its
/// shape range, producing the shapes to submit for this negotiation round.
pub fn merge_shapes(attrs: &Vec<TensorAttr>, ranges: &Vec<ShapeRange>, s: usize) -> (r: Vec<
    TensorAttr,
>)
    requires
        ranges_match_attrs(attrs_view(attrs@), ranges@.map_values(|g: ShapeRange| g@), s as int),
    ensures
        r@.len() == attrs@.len(),
        forall|i: int|
            0 <= i < attrs@.len() ==> (#[trigger] r@[i])@ == merged_attr(
                attrs@[i]@,
                ranges@[i]@.entries[s as int],
            ),
{
    let ghost rangevs = ranges@.map_values(|g: ShapeRange| g@);
    let mut out: Vec<TensorAttr> = Vec::new();
    let mut i: usize = 0;
    while i < attrs.len()
        invariant
            i <= attrs@.len(),
            ranges_match_attrs(attrs_view(attrs@), rangevs, s as int),
            rangevs == ranges@.map_values(|g: ShapeRange| g@),
            out@.len() == i,
            forall|t: int|
                0 <= t < i ==> (#[trigger] out@[t])@ == merged_attr(
                    attrs@[t]@,
                    ranges@[t]@.entries[s as int],
                ),
        decreases attrs@.len() - i,
    {
        assert(attrs_view(attrs@)[i as int] == attrs@[i as int]@);
        assert(rangevs[i as int] == ranges@[i as int]@);
        let a = &attrs[i];
        let entry = &ranges[i].entries[s];
        let mut dims: Vec<u32> = Vec::new();
        let mut j: usize = 0;
        while j < a.dims.len()
            invariant
                j <= a.dims@.len(),
                a@.wf(),
                entry@ == ranges@[i as int]@.entries[s as int],
                entry@.len() == a.n_dims,
                dims@.len() == j,
                forall|t: int|
                    0 <= t < j ==> dims@[t] == merged_dims(a@.dims, entry@, a.n_dims)[t],
            decreases a.dims@.len() - j,
        {
            if (j as u64) < a.n_dims as u64 {
                dims.push(entry[j]);
            } else {
                dims.push(a.dims[j]);
            }
            j = j + 1;
        }
        let merged = TensorAttr {
            index: a.index,
            name: a.name.clone(),
            n_dims: a.n_dims,
            dims,
            n_elems: a.n_elems,
            size: a.size,
            fmt: a.fmt,
            ty: a.ty,
            qnt: a.qnt,
            zp: a.zp,
            scale_bits: a.scale_bits,
        };
        assert(merged@.dims =~= merged_dims(a@.dims, entry@, a.n_dims));
        assert(merged@ == merged_attr(attrs@[i as int]@, ranges@[i as int]@.entries[s as int]));
        out.push(merged);
        i = i + 1;
    }
    out
}

/// The width and height an input image must be brought to for this slot:
/// channel-last layouts keep height and width in axes 1 and 2, all others
/// in axes 2 and 3.
pub fn target_dims(attr: &TensorAttr) -> (r: (u32, u32))
    requires
        attr.wf(),
    ensures
        attr.fmt == TensorFormat::Nhwc ==> r == (attr@.dims[2], attr@.dims[1]),
        attr.fmt != TensorFormat::Nhwc ==> r == (attr@.dims[3], attr@.dims[2]),
{
    if attr.fmt == TensorFormat::Nhwc {
        (attr.dims[2], attr.dims[1])
    } else {
        (attr.dims[3], attr.dims[2])
    }
}

} // verus!
