//! The TensorFlow protocol buffer messages that records and summaries are
//! made of, as plain data.
//!
//! Floating-point fields hold the bit patterns of their values.
use std::collections::HashMap;
pub mod feature;
pub mod tensor_shape_proto;
pub mod resource_handle_proto;
pub mod feature_configuration;
pub mod attr_value;
pub mod api_def;
pub mod cost_graph_def;
pub mod full_type_def;
pub mod node_def;
pub mod op_def;
pub mod function_def;
pub mod graph_transfer_info;
pub mod kernel_def;
pub mod summary_metadata;
pub mod summary;
pub mod summary_value;
pub mod tensor_slice_proto;
pub mod event;
pub mod log_message;
pub mod session_log;

use vstd::prelude::*;

verus! {

/// Containers to hold repeated fundamental values.
#[derive(Clone, Debug, PartialEq, Default)]
pub struct BytesList {
    pub value: Vec<Vec<u8>>,
}

#[derive(Clone, Debug, PartialEq, Default)]
pub struct FloatList {
    /// Each value is the bit pattern of an IEEE 754 binary32 number.
    pub value: Vec<u32>,
}

#[derive(Clone, Debug, PartialEq, Default)]
pub struct Int64List {
    pub value: Vec<i64>,
}

/// Containers for non-sequential data.
#[derive(Clone, Debug, PartialEq, Default)]
pub struct Feature {
    /// Each feature can be exactly one kind.
    pub kind: Option<feature::Kind>,
}

#[derive(Clone, Debug, PartialEq, Default)]
pub struct Features {
    /// Map from feature name to feature.
    pub feature: HashMap<String, Feature>,
}

/// Containers for sequential data.
///
/// A FeatureList contains lists of Features.  These may hold zero or more
/// Feature values.
///
/// FeatureLists are organized into categories by name.  The FeatureLists message
/// contains the mapping from name to FeatureList.
///
#[derive(Clone, Debug, PartialEq, Default)]
pub struct FeatureList {
    pub feature: Vec<Feature>,
}

#[derive(Clone, Debug, PartialEq, Default)]
pub struct FeatureLists {
    /// Map from feature name to feature list.
    pub feature_list: HashMap<String, FeatureList>,
}

#[derive(Clone, Debug, PartialEq, Default)]
pub struct Example {
    pub features: Option<Features>,
}

#[derive(Clone, Debug, PartialEq, Default)]
pub struct SequenceExample {
    pub context: Option<Features>,
    pub feature_lists: Option<FeatureLists>,
}

/// Dimensions of a tensor.
#[derive(Clone, Debug, PartialEq, Default)]
pub struct TensorShapeProto {
    /// Dimensions of the tensor, such as {"input", 30}, {"output", 40}
    /// for a 30 x 40 2D tensor.  If an entry has size -1, this
    /// corresponds to a dimension of unknown size. The names are
    /// optional.
    ///
    /// The order of entries in "dim" matters: It indicates the layout of the
    /// values in the tensor in-memory representation.
    ///
    /// The first entry in "dim" is the outermost dimension used to layout the
    /// values, the last entry is the innermost dimension.  This matches the
    /// in-memory layout of RowMajor Eigen tensors.
    ///
    /// If "dim.size()" > 0, "unknown_rank" must be false.
    pub dim: Vec<tensor_shape_proto::Dim>,
    /// If true, the number of dimensions in the shape is unknown.
    ///
    /// If true, "dim.size()" must be 0.
    pub unknown_rank: bool,
}

#[derive(Clone, Copy, Debug, PartialEq, Eq, Hash, PartialOrd, Ord, Default)]
pub enum DataType {
    /// Not a legal value for DataType.  Used to indicate a DataType field
    /// has not been set.
    #[default]
    DtInvalid,
    /// Data types that all computation devices are expected to be
    /// capable to support.
    DtFloat,
    DtDouble,
    DtInt32,
    DtUint8,
    DtInt16,
    DtInt8,
    DtString,
    /// Single-precision complex
    DtComplex64,
    DtInt64,
    DtBool,
    /// Quantized int8
    DtQint8,
    /// Quantized uint8
    DtQuint8,
    /// Quantized int32
    DtQint32,
    /// Float32 truncated to 16 bits.  Only for cast ops.
    DtBfloat16,
    /// Quantized int16
    DtQint16,
    /// Quantized uint16
    DtQuint16,
    DtUint16,
    /// Double-precision complex
    DtComplex128,
    DtHalf,
    DtResource,
    /// Arbitrary C++ data types
    DtVariant,
    DtUint32,
    DtUint64,
    /// Do not use!  These are only for parameters.  Every enum above
    /// should have a corresponding value below (verified by types_test).
    DtFloatRef,
    DtDoubleRef,
    DtInt32Ref,
    DtUint8Ref,
    DtInt16Ref,
    DtInt8Ref,
    DtStringRef,
    DtComplex64Ref,
    DtInt64Ref,
    DtBoolRef,
    DtQint8Ref,
    DtQuint8Ref,
    DtQint32Ref,
    DtBfloat16Ref,
    DtQint16Ref,
    DtQuint16Ref,
    DtUint16Ref,
    DtComplex128Ref,
    DtHalfRef,
    DtResourceRef,
    DtVariantRef,
    DtUint32Ref,
    DtUint64Ref,
}

/// Protocol buffer representing a handle to a tensorflow resource. Handles are
/// not valid across executions, but can be serialized back and forth from within
/// a single run.
#[derive(Clone, Debug, PartialEq, Default)]
pub struct ResourceHandleProto {
    /// Unique name for the device containing the resource.
    pub device: String,
    /// Container in which this resource is placed.
    pub container: String,
    /// Unique name of this resource.
    pub name: String,
    /// Hash code for the type of the resource. Is only valid in the same device
    /// and in the same execution.
    pub hash_code: u64,
    /// For debug-only, the name of the type pointed to by this handle, if
    /// available.
    pub maybe_type_name: String,
    /// Data types and shapes for the underlying resource.
    pub dtypes_and_shapes: Vec<resource_handle_proto::DtypeAndShape>,
}

/// Protocol buffer representing a tensor.
#[derive(Debug, PartialEq, Default)]
pub struct TensorProto {
    pub dtype: i32,
    /// Shape of the tensor.  TODO(touts): sort out the 0-rank issues.
    pub tensor_shape: Option<TensorShapeProto>,
    /// Version number.
    ///
    /// In version 0, if the "repeated xxx" representations contain only one
    /// element, that element is repeated to fill the shape.  This makes it easy
    /// to represent a constant Tensor with a single value.
    pub version_number: i32,
    /// Serialized raw tensor content from either Tensor::AsProtoTensorContent or
    /// memcpy in tensorflow::grpc::EncodeTensorToByteBuffer. This representation
    /// can be used for all tensor types. The purpose of this representation is to
    /// reduce serialization overhead during RPC call by avoiding serialization of
    /// many repeated small items.
    pub tensor_content: Vec<u8>,
    /// DT_HALF, DT_BFLOAT16. Note that since protobuf has no int16 type, we'll
    /// have some pointless zero padding for each value here.
    pub half_val: Vec<i32>,
    /// DT_FLOAT.
    /// Each value is the bit pattern of an IEEE 754 binary32 number.
    pub float_val: Vec<u32>,
    /// DT_DOUBLE.
    /// Each value is the bit pattern of an IEEE 754 binary64 number.
    pub double_val: Vec<u64>,
    /// DT_INT32, DT_INT16, DT_UINT16, DT_INT8, DT_UINT8.
    pub int_val: Vec<i32>,
    /// DT_STRING
    pub string_val: Vec<Vec<u8>>,
    /// DT_COMPLEX64. scomplex_val(2*i) and scomplex_val(2*i+1) are real
    /// and imaginary parts of i-th single precision complex.
    /// Each value is the bit pattern of an IEEE 754 binary32 number.
    pub scomplex_val: Vec<u32>,
    /// DT_INT64
    pub int64_val: Vec<i64>,
    /// DT_BOOL
    pub bool_val: Vec<bool>,
    /// DT_COMPLEX128. dcomplex_val(2*i) and dcomplex_val(2*i+1) are real
    /// and imaginary parts of i-th double precision complex.
    /// Each value is the bit pattern of an IEEE 754 binary64 number.
    pub dcomplex_val: Vec<u64>,
    /// DT_RESOURCE
    pub resource_handle_val: Vec<ResourceHandleProto>,
    /// DT_VARIANT
    pub variant_val: Vec<VariantTensorDataProto>,
    /// DT_UINT32
    pub uint32_val: Vec<u32>,
    /// DT_UINT64
    pub uint64_val: Vec<u64>,
}

/// Protocol buffer representing the serialization format of DT_VARIANT tensors.
#[derive(Debug, PartialEq, Default)]
pub struct VariantTensorDataProto {
    /// Name of the type of objects being serialized.
    pub object_type: String,
    /// Portions of the object that are not Tensors.
    pub metadata: Vec<u8>,
    /// Tensors contained within objects being serialized.
    pub tensors: Vec<TensorProto>,
}

#[derive(Clone, Debug, PartialEq, Default)]
pub struct VarLenFeatureProto {
    pub dtype: i32,
    pub values_output_tensor_name: String,
    pub indices_output_tensor_name: String,
    pub shapes_output_tensor_name: String,
}

#[derive(Debug, PartialEq, Default)]
pub struct FixedLenFeatureProto {
    pub dtype: i32,
    pub shape: Option<TensorShapeProto>,
    pub default_value: Option<TensorProto>,
    pub values_output_tensor_name: String,
}

#[derive(Debug, PartialEq, Default)]
pub struct FeatureConfiguration {
    pub config: Option<feature_configuration::Config>,
}

#[derive(Debug, PartialEq, Default)]
pub struct ExampleParserConfiguration {
    pub feature_map: HashMap<String, FeatureConfiguration>,
}

#[derive(Clone, Debug, PartialEq, Default)]
pub struct AllocationDescription {
    /// Total number of bytes requested
    pub requested_bytes: i64,
    /// Total number of bytes allocated if known
    pub allocated_bytes: i64,
    /// Name of the allocator used
    pub allocator_name: String,
    /// Identifier of the allocated buffer if known
    pub allocation_id: i64,
    /// Set if this tensor only has one remaining reference
    pub has_single_reference: bool,
    /// Address of the allocation.
    pub ptr: u64,
}

/// Protocol buffer representing the value for an attr used to configure an Op.
/// Comment indicates the corresponding attr type.  Only the field matching the
/// attr type may be filled.
#[derive(Debug, PartialEq, Default)]
pub struct AttrValue {
    pub value: Option<attr_value::Value>,
}

/// A list of attr names and their values. The whole list is attached
/// with a string name.  E.g., MatMul\[T=float\].
#[derive(Debug, PartialEq, Default)]
pub struct NameAttrList {
    pub name: String,
    pub attr: HashMap<String, AttrValue>,
}

/// Used to specify and override the default API & behavior in the
/// generated code for client languages, from what you would get from
/// the OpDef alone. There will be a set of ApiDefs that are common
/// to all client languages, and another set per client language.
/// The per-client-language ApiDefs will inherit values from the
/// common ApiDefs which it can either replace or modify.
///
/// We separate the API definition from the OpDef so we can evolve the
/// API while remaining backwards compatible when interpreting old
/// graphs.  Overrides go in an "api_def.pbtxt" file with a text-format
/// ApiDefs message.
///
/// WARNING: Be *very* careful changing the API for any existing op --
/// you can change the semantics of existing code.  These changes may
/// need to wait until a major release of TensorFlow to avoid breaking
/// our compatibility promises.
#[derive(Debug, PartialEq, Default)]
pub struct ApiDef {
    /// Name of the op (in the OpDef) to specify the API for.
    pub graph_op_name: String,
    /// If this op is deprecated, set deprecation message to the message
    /// that should be logged when this op is used.
    /// The message should indicate alternative op to use, if any.
    pub deprecation_message: String,
    /// Major version when the op will be deleted. For e.g. set this
    /// value to 2 if op API should be removed in TensorFlow 2.0 and
    /// deprecated in versions before that.
    pub deprecation_version: i32,
    pub visibility: i32,
    pub endpoint: Vec<api_def::Endpoint>,
    pub in_arg: Vec<api_def::Arg>,
    pub out_arg: Vec<api_def::Arg>,
    /// List of original in_arg names to specify new argument order.
    /// Length of arg_order should be either empty to keep current order
    /// or match size of in_arg.
    pub arg_order: Vec<String>,
    pub attr: Vec<api_def::Attr>,
    /// One-line human-readable description of what the Op does.
    pub summary: String,
    /// Additional, longer human-readable description of what the Op does.
    pub description: String,
    /// Modify an existing/inherited description by adding text to the beginning
    /// or end.
    pub description_prefix: String,
    pub description_suffix: String,
}

#[derive(Debug, PartialEq, Default)]
pub struct ApiDefs {
    pub op: Vec<ApiDef>,
}

#[derive(Clone, Debug, PartialEq, Default)]
pub struct CostGraphDef {
    pub node: Vec<cost_graph_def::Node>,
    pub cost: Vec<cost_graph_def::AggregatedCost>,
}

#[derive(Clone, Debug, PartialEq, Default)]
pub struct InterconnectLink {
    pub device_id: i32,
    pub type_: String,
    pub strength: i32,
}

#[derive(Clone, Debug, PartialEq, Default)]
pub struct LocalLinks {
    pub link: Vec<InterconnectLink>,
}

#[derive(Clone, Debug, PartialEq, Default)]
pub struct DeviceLocality {
    /// Optional bus locality of device.  Default value of 0 means
    /// no specific locality.  Specific localities are indexed from 1.
    pub bus_id: i32,
    /// Optional NUMA locality of device.
    pub numa_node: i32,
    /// Optional local interconnect links to other devices.
    pub links: Option<LocalLinks>,
}

#[derive(Clone, Debug, PartialEq, Default)]
pub struct DeviceAttributes {
    /// Fully specified name of the device within a cluster.
    pub name: String,
    /// String representation of device_type.
    pub device_type: String,
    /// Memory capacity of device in bytes.
    pub memory_limit: i64,
    /// Platform-specific data about device that may be useful
    /// for supporting efficient data transfers.
    pub locality: Option<DeviceLocality>,
    /// A device is assigned a global unique number each time it is
    /// initialized. "incarnation" should never be 0.
    pub incarnation: u64,
    /// String representation of the physical device that this device maps to.
    pub physical_device_desc: String,
    /// A physical device ID for use in XLA DeviceAssignments, unique across
    /// clients in a multi-client setup. Set to -1 if unavailable, non-negative
    /// otherwise.
    pub xla_global_id: i64,
}

/// Highly experimental and very likely to change.
/// This encoding uses tags instead of dedicated messages for regularity. In
/// particular the encoding imposes no restrictions on what the parameters of any
/// type should be, which in particular needs to be true for type symbols.
#[derive(Debug, PartialEq, Default)]
pub struct FullTypeDef {
    /// The principal type represented by this object. This may be a concrete type
    /// (Tensor, Dataset) a type variable (used for dependent types) a type
    /// symbol (Any, Union). See FullTypeId for details.
    pub type_id: i32,
    pub args: Vec<FullTypeDef>,
    /// Literal values of this type object, if the the type admits one.
    /// For example, a type variable admits a string attribute - its name.
    /// Shape-related types may admit int attributes - their static shape values.
    /// Fields for more data types to be added as needed.
    pub attr: Option<full_type_def::Attr>,
}

/// Experimental. Represents the complete type information of a TensorFlow value.
#[derive(Clone, Copy, Debug, PartialEq, Eq, Hash, PartialOrd, Ord, Default)]
pub enum FullTypeId {
    /// The default represents an uninitialized values.
    #[default]
    TftUnset,
    /// Type variables may serve as placeholder for any other type ID in type
    /// templates.
    ///
    /// Examples:
    ///   TFT_DATASET\[TFT_VAR["T"]\] is a Dataset returning a type indicated by "T".
    ///   TFT_TENSOR\[TFT_VAR["T"]\] is a Tensor of n element type indicated by "T".
    ///   TFT_TENSOR\[TFT_VAR["T"]\], TFT_TENSOR\[TFT_VAR["T"]\] are two tensors of
    ///     identical element types.
    ///   TFT_TENSOR\[TFT_VAR["P"]\], TFT_TENSOR\[TFT_VAR["Q"]\] are two tensors of
    ///     potentially different element types.
    ///
    TftVar,
    /// Wildcard type. Describes a parameter of unknown type. In TensorFlow, that
    /// can mean either a "Top" type (accepts any type), or a dynamically typed
    /// object whose type is unknown in context.
    /// Important: "unknown" does not necessarily mean undeterminable!
    TftAny,
    /// The algebraic product type. This is an algebraic type that may be used just
    /// for logical grouping. Not to confused with TFT_TUPLE which describes a
    /// concrete object of several elements.
    ///
    /// Example:
    ///   TFT_DATASET\[TFT_PRODUCT[TFT_TENSOR[TFT_INT32\], TFT_TENSOR\[TFT_FLOAT64]]\]
    ///     is a Dataset producing two tensors, an integer one and a float one.
    ///
    TftProduct,
    /// Represents a named field, with the name stored in the attribute.
    ///
    /// Parametrization:
    ///   TFT_NAMED\[<type>\]{<name>}
    ///   * <type> is the type of the field
    ///   * <name> is the field name, as string (thpugh can theoretically be an int
    ///     as well)
    ///
    /// Example:
    ///   TFT_RECORD[
    ///     TFT_NAMED\[TFT_TENSOR[TFT_INT32]\]{'foo'},
    ///     TFT_NAMED\[TFT_TENSOR[TFT_FLOAT32]\]{'bar'},
    ///   ]
    ///     is a structure with two fields, an int tensor "foo" and a float tensor
    ///     "bar".
    TftNamed,
    /// Callable types describe functions and ops.
    ///
    /// Parametrization:
    ///   TFT_CALLABLE[<arg type>, <return type>]
    ///   * <arg type> is the type of the arguments; TFT_PRODUCT represents
    ///   multiple
    ///     arguments.
    ///   * <return type> is the return type; TFT_PRODUCT represents multiple
    ///     return values (that means that callables returning multiple things
    ///     don't necessarily return a single tuple).
    ///
    /// Example:
    ///   TFT_CALLABLE[
    ///     TFT_ANY,
    ///     TFT_PRODUCT\[TFT_TENSOR[TFT_INT32\], TFT_TENSOR\[TFT_FLOAT64]\],
    ///   ]
    ///     is a callable with unspecified (for now) input arguments, and
    ///     two return values of type tensor.
    ///
    TftCallable,
    /// The usual Tensor. This is a parametric type.
    ///
    /// Parametrization:
    ///   TFT_TENSOR[<element type>, <shape type>]
    ///   * <element type> is currently limited to one of the element types
    ///     defined below.
    ///   * <shape type> is not yet defined, and may only be TFT_UNKNOWN for now.
    ///
    /// A TFT_SHAPE type will be defined in the future.
    ///
    /// Example:
    ///   TFT_TENSOR[TFT_INT32, TFT_UNKNOWN]
    ///     is a Tensor of int32 element type and unknown shape.
    ///
    /// TODO(mdan): Define TFT_SHAPE and add more examples.
    TftTensor,
    /// Array (or tensorflow::TensorList in the variant type registry).
    /// Note: this is not to be confused with the deprecated `TensorArray*` ops
    /// which are not supported by FullType.
    /// This type represents a random-access list whose elements can be
    /// described by a single type. Although immutable, Array is expected to
    /// support efficient mutation semantics (i.e. element update) in the
    /// user-facing API.
    /// The element type may be generic or even TFT_ANY for a heterogenous list.
    ///
    /// Parametrization:
    ///   TFT_ARRAY[<element type>]
    ///   * <element type> may be any concrete type.
    ///
    /// Examples:
    ///   TFT_ARRAY\[TFT_TENSOR[TFT_INT32]\] is a TensorArray holding int32 Tensors
    ///     of any shape.
    ///   TFT_ARRAY\[TFT_TENSOR[TFT_UNKNOWN]\] is a TensorArray holding Tensors of
    ///     mixed element types.
    ///   TFT_ARRAY\[TFT_UNKNOWN\] is a TensorArray holding any element type.
    ///   TFT_ARRAY[] is equivalent to TFT_ARRAY\[TFT_UNKNOWN\].
    ///   TFT_ARRAY\[TFT_ARRAY[]\] is an array or arrays (of unknown types).
    TftArray,
    /// Optional (or tensorflow::OptionalVariant in the variant type registry).
    /// This type represents a value that may either hold an element of a single
    /// specified type, or nothing at all.
    ///
    /// Parametrization:
    ///   TFT_OPTIONAL[<element type>]
    ///   * <element type> may be any concrete type.
    ///
    /// Examples:
    ///   TFT_OPTIONAL\[TFT_TENSOR[TFT_INT32]\] is an Optional holding an int32
    ///     Tensor of any shape.
    TftOptional,
    /// Literal types describe compile-time constant values.
    /// Literal types may also participate in dependent types.
    ///
    /// Parametrization:
    ///   TFT_LITERAL[<value type>]{<value>}
    ///   * <value type> may be any concrete type compatible that can hold <value>
    ///   * <value> is the type's attribute, and holds the actual literal value
    ///
    /// Examples:
    ///   TFT_LITERAL\[TFT_INT32\]{1} is the compile-time constant 1.
    TftLiteral,
    /// Datasets created by tf.data ops and APIs. Datasets have generator/iterable
    /// semantics, that is, one can construct an iterator from them. Like
    /// Array, they are considered to return elements that can be described
    /// by a single type. Unlike Array, they do not support random access or
    /// mutation, and can potentially produce an infinite number of elements.
    /// A datasets can produce logical structures (e.g. multiple elements). This
    /// is expressed using TFT_PRODUCT.
    ///
    ///
    /// Parametrization: TFT_ARRAY[<element type>].
    ///   * <element type> may be a concrete type or a type symbol. It represents
    ///     the data type of the elements produced by the dataset.
    ///
    /// Examples:
    ///   TFT_DATSET\[TFT_TENSOR[TFT_INT32]\] is a Dataset producing single int32
    ///     Tensors of unknown shape.
    ///   TFT_DATSET\[TFT_PRODUCT[TFT_TENSOR[TFT_INT32\], TFT_TENSOR\[TFT_FLOAT32]\] is
    ///     a Dataset producing pairs of Tensors, one integer and one float.
    /// Note: The high ID number is to prepare for the eventuality that Datasets
    /// will be supported by user types in the future.
    TftDataset,
    /// A mutex lock tensor, produced by tf.raw_ops.MutexLock.
    /// Unlike strict execution models, where ownership of a lock is denoted by
    /// "running after the lock has been acquired", in non-strict mode, lock
    /// ownership is in the true sense: "the op argument representing the lock is
    /// available".
    /// Mutex locks are the dynamic counterpart of control dependencies.
    /// TODO(mdan): Properly document this thing.
    ///
    /// Parametrization: TFT_MUTEX_LOCK[].
    TftMutexLock,
    /// The bool element type.
    /// TODO(mdan): Quantized types, legacy representations (e.g. ref)
    TftBool,
    /// Integer element types.
    TftUint8,
    TftUint16,
    TftUint32,
    TftUint64,
    TftInt8,
    TftInt16,
    TftInt32,
    TftInt64,
    /// Floating-point element types.
    TftHalf,
    TftFloat,
    TftDouble,
    TftBfloat16,
    /// Complex element types.
    /// TODO(mdan): Represent as TFT_COMPLEX\[TFT_DOUBLE\] instead?
    TftComplex64,
    TftComplex128,
    /// The string element type.
    TftString,
}

#[derive(Debug, PartialEq, Default)]
pub struct NodeDef {
    /// The name given to this operator. Used for naming inputs,
    /// logging, visualization, etc.  Unique within a single GraphDef.
    /// Must match the regexp "\[A-Za-z0-9.][A-Za-z0-9_>./\]*".
    pub name: String,
    /// The operation name.  There may be custom parameters in attrs.
    /// Op names starting with an underscore are reserved for internal use.
    pub op: String,
    /// Each input is "node:src_output" with "node" being a string name and
    /// "src_output" indicating which output tensor to use from "node". If
    /// "src_output" is 0 the ":0" suffix can be omitted.  Regular inputs
    /// may optionally be followed by control inputs that have the format
    /// "^node".
    pub input: Vec<String>,
    /// A (possibly partial) specification for the device on which this
    /// node should be placed.
    /// The expected syntax for this string is as follows:
    ///
    /// DEVICE_SPEC ::= PARTIAL_SPEC
    ///
    /// PARTIAL_SPEC ::= ("/" CONSTRAINT) *
    /// CONSTRAINT ::= ("job:" JOB_NAME)
    ///              | ("replica:" \[1-9][0-9\]*)
    ///              | ("task:" \[1-9][0-9\]*)
    ///              | ("device:" \[A-Za-z\]* ":" (\[1-9][0-9\]* | "*") )
    ///
    /// Valid values for this string include:
    /// * "/job:worker/replica:0/task:1/device:GPU:3"  (full specification)
    /// * "/job:worker/device:GPU:3"                   (partial specification)
    /// * ""                                    (no specification)
    ///
    /// If the constraints do not resolve to a single device (or if this
    /// field is empty or not present), the runtime will attempt to
    /// choose a device automatically.
    pub device: String,
    /// Operation-specific graph-construction-time configuration.
    /// Note that this should include all attrs defined in the
    /// corresponding OpDef, including those with a value matching
    /// the default -- this allows the default to change and makes
    /// NodeDefs easier to interpret on their own.  However, if
    /// an attr with a default is not specified in this list, the
    /// default will be used.
    /// The "names" (keys) must match the regexp "\[a-z][a-z0-9_\]+" (and
    /// one of the names from the corresponding OpDef's attr field).
    /// The values must have a type matching the corresponding OpDef
    /// attr's type field.
    /// TODO(josh11b): Add some examples here showing best practices.
    pub attr: HashMap<String, AttrValue>,
    /// This stores debug information associated with the node.
    pub experimental_debug_info: Option<node_def::ExperimentalDebugInfo>,
    /// The complete type of this node. Experimental and subject to change.
    /// Currently, the field only contains the return types of the node. That will
    /// extend in the future to contain the entire signature of the node, as a
    /// function type.
    pub experimental_type: Option<FullTypeDef>,
}

/// Defines an operation. A NodeDef in a GraphDef specifies an Op by
/// using the "op" field which should match the name of a OpDef.
#[derive(Debug, PartialEq, Default)]
pub struct OpDef {
    /// Op names starting with an underscore are reserved for internal use.
    /// Names should be CamelCase and match the regexp "\[A-Z][a-zA-Z0-9>_\]*".
    pub name: String,
    /// Description of the input(s).
    pub input_arg: Vec<op_def::ArgDef>,
    /// Description of the output(s).
    pub output_arg: Vec<op_def::ArgDef>,
    /// Named control outputs for this operation. Useful only for composite
    /// operations (i.e. functions) which want to name different control outputs.
    pub control_output: Vec<String>,
    pub attr: Vec<op_def::AttrDef>,
    /// Optional deprecation based on GraphDef versions.
    pub deprecation: Option<OpDeprecation>,
    /// One-line human-readable description of what the Op does.
    pub summary: String,
    /// Additional, longer human-readable description of what the Op does.
    pub description: String,
    /// True if the operation is commutative ("op(a,b) == op(b,a)" for all inputs)
    pub is_commutative: bool,
    /// If is_aggregate is true, then this operation accepts N >= 2
    /// inputs and produces 1 output all of the same type.  Should be
    /// associative and commutative, and produce output with the same
    /// shape as the input.  The optimizer may replace an aggregate op
    /// taking input from multiple devices with a tree of aggregate ops
    /// that aggregate locally within each device (and possibly within
    /// groups of nearby devices) before communicating.
    /// TODO(josh11b): Implement that optimization.
    ///
    /// for things like add
    pub is_aggregate: bool,
    /// Ops are marked as stateful if their behavior depends on some state beyond
    /// their input tensors (e.g. variable reading op) or if they have
    /// a side-effect (e.g. printing or asserting ops). Equivalently, stateless ops
    /// must always produce the same output for the same input and have
    /// no side-effects.
    ///
    /// By default Ops may be moved between devices.  Stateful ops should
    /// either not be moved, or should only be moved if that state can also
    /// be moved (e.g. via some sort of save / restore).
    /// Stateful ops are guaranteed to never be optimized away by Common
    /// Subexpression Elimination (CSE).
    ///
    /// for things like variables, queue
    pub is_stateful: bool,
    /// By default, all inputs to an Op must be initialized Tensors.  Ops
    /// that may initialize tensors for the first time should set this
    /// field to true, to allow the Op to take an uninitialized Tensor as
    /// input.
    ///
    /// for Assign, etc.
    pub allows_uninitialized_input: bool,
    /// Indicates whether the op implementation uses distributed communication.
    /// If True, the op is allowed to return errors for network disconnection and
    /// trigger TF network failure handling logics.
    pub is_distributed_communication: bool,
}

/// Information about version-dependent deprecation of an op
#[derive(Clone, Debug, PartialEq, Default)]
pub struct OpDeprecation {
    /// First GraphDef version at which the op is disallowed.
    pub version: i32,
    /// Explanation of why it was deprecated and what to use instead.
    pub explanation: String,
}

/// A collection of OpDefs
#[derive(Debug, PartialEq, Default)]
pub struct OpList {
    pub op: Vec<OpDef>,
}

/// A library is a set of named functions.
#[derive(Debug, PartialEq, Default)]
pub struct FunctionDefLibrary {
    pub function: Vec<FunctionDef>,
    pub gradient: Vec<GradientDef>,
    pub registered_gradients: Vec<RegisteredGradient>,
}

/// A function can be instantiated when the runtime can bind every attr
/// with a value. When a GraphDef has a call to a function, it must
/// have binding for every attr defined in the signature.
///
/// TODO(zhifengc):
///   * device spec, etc.
#[derive(Debug, PartialEq, Default)]
pub struct FunctionDef {
    /// The definition of the function's name, arguments, return values,
    /// attrs etc.
    pub signature: Option<OpDef>,
    /// Attributes specific to this function definition.
    pub attr: HashMap<String, AttrValue>,
    pub arg_attr: HashMap<u32, function_def::ArgAttrs>,
    /// Unique IDs for each resource argument, used to track aliasing resources. If
    /// Argument A and Argument B alias each other, then
    /// resource_arg_unique_ids\[A.index\] == resource_arg_unique_ids\[B.index\].
    ///
    /// If this field is empty, none of the arguments could alias; otherwise, every
    /// resource argument should have an entry in this field.
    ///
    /// When instantiated, the unique IDs will be attached to the _Arg nodes'
    /// "_resource_arg_unique_id" attribute.
    pub resource_arg_unique_id: HashMap<u32, u32>,
    /// By convention, "op" in node_def is resolved by consulting with a
    /// user-defined library first. If not resolved, "func" is assumed to
    /// be a builtin op.
    pub node_def: Vec<NodeDef>,
    /// A mapping from the output arg names from `signature` to the
    /// outputs from `node_def` that should be returned by the function.
    pub ret: HashMap<String, String>,
    /// A mapping from control output names from `signature` to node names in
    /// `node_def` which should be control outputs of this function.
    pub control_ret: HashMap<String, String>,
}

/// GradientDef defines the gradient function of a function defined in
/// a function library.
///
/// A gradient function g (specified by gradient_func) for a function f
/// (specified by function_name) must follow the following:
///
/// The function 'f' must be a numerical function which takes N inputs
/// and produces M outputs. Its gradient function 'g', which is a
/// function taking N + M inputs and produces N outputs.
///
/// I.e. if we have
///    (y1, y2, ..., y_M) = f(x1, x2, ..., x_N),
/// then, g is
///    (dL/dx1, dL/dx2, ..., dL/dx_N) = g(x1, x2, ..., x_N,
///                                      dL/dy1, dL/dy2, ..., dL/dy_M),
/// where L is a scalar-value function of (x1, x2, ..., xN) (e.g., the
/// loss function). dL/dx_i is the partial derivative of L with respect
/// to x_i.
#[derive(Clone, Debug, PartialEq, Default)]
pub struct GradientDef {
    /// The function name.
    pub function_name: String,
    /// The gradient function's name.
    pub gradient_func: String,
}

/// RegisteredGradient stores a gradient function that is registered in the
/// gradients library and used in the ops of a function in the function library.
/// Unlike GradientDef, these gradients are identified by op type, and not
/// directly linked to any function.
#[derive(Clone, Debug, PartialEq, Default)]
pub struct RegisteredGradient {
    /// The gradient function's name.
    pub gradient_func: String,
    /// The gradient function's registered op type.
    pub registered_op_type: String,
}

/// Version information for a piece of serialized data
///
/// There are different types of versions for each type of data
/// (GraphDef, etc.), but they all have the same common shape
/// described here.
///
/// Each consumer has "consumer" and "min_producer" versions (specified
/// elsewhere).  A consumer is allowed to consume this data if
///
///   producer >= min_producer
///   consumer >= min_consumer
///   consumer not in bad_consumers
///
#[derive(Clone, Debug, PartialEq, Default)]
pub struct VersionDef {
    /// The version of the code that produced this data.
    pub producer: i32,
    /// Any consumer below this version is not allowed to consume this data.
    pub min_consumer: i32,
    /// Specific consumer versions which are disallowed (e.g. due to bugs).
    pub bad_consumers: Vec<i32>,
}

/// Represents the graph of operations
#[derive(Debug, PartialEq, Default)]
pub struct GraphDef {
    pub node: Vec<NodeDef>,
    /// Compatibility versions of the graph.  See core/public/version.h for version
    /// history.  The GraphDef version is distinct from the TensorFlow version, and
    /// each release of TensorFlow will support a range of GraphDef versions.
    pub versions: Option<VersionDef>,
    /// Deprecated single version field; use versions above instead.  Since all
    /// GraphDef changes before "versions" was introduced were forward
    /// compatible, this field is entirely ignored.
    /// Deprecated.
    pub version: i32,
    /// "library" provides user-defined functions.
    ///
    /// Naming:
    ///   * library.function.name are in a flat namespace.
    ///     NOTE: We may need to change it to be hierarchical to support
    ///     different orgs. E.g.,
    ///     { "/google/nn", { ... }},
    ///     { "/google/vision", { ... }}
    ///     { "/org_foo/module_bar", { ... }}
    ///     map<string, FunctionDefLib> named_lib;
    ///   * If node\[i\].op is the name of one function in "library",
    ///     node\[i\] is deemed as a function call. Otherwise, node\[i\].op
    ///     must be a primitive operation supported by the runtime.
    ///
    ///
    /// Function call semantics:
    ///
    ///   * The callee may start execution as soon as some of its inputs
    ///     are ready. The caller may want to use Tuple() mechanism to
    ///     ensure all inputs are ready in the same time.
    ///
    ///   * The consumer of return values may start executing as soon as
    ///     the return values the consumer depends on are ready.  The
    ///     consumer may want to use Tuple() mechanism to ensure the
    ///     consumer does not start until all return values of the callee
    ///     function are ready.
    pub library: Option<FunctionDefLibrary>,
}

#[derive(Clone, Debug, PartialEq, Default)]
pub struct GraphTransferNodeInput {
    pub node_id: i32,
    pub output_port: i32,
}

#[derive(Clone, Debug, PartialEq, Default)]
pub struct GraphTransferNodeInfo {
    pub name: String,
    pub node_id: i32,
    /// The node's type name.
    pub node_type: String,
    pub soc_op_id: i32,
    pub padding_id: i32,
    pub input_count: i32,
    pub output_count: i32,
}

#[derive(Clone, Debug, PartialEq, Default)]
pub struct GraphTransferConstNodeInfo {
    pub name: String,
    pub node_id: i32,
    pub shape: Vec<i64>,
    pub data: Vec<u8>,
    pub dtype: i32,
}

#[derive(Clone, Debug, PartialEq, Default)]
pub struct GraphTransferNodeInputInfo {
    pub node_id: i32,
    pub node_input: Vec<GraphTransferNodeInput>,
}

#[derive(Clone, Debug, PartialEq, Default)]
pub struct GraphTransferNodeOutputInfo {
    pub node_id: i32,
    pub max_byte_size: Vec<i32>,
}

#[derive(Clone, Debug, PartialEq, Default)]
pub struct GraphTransferGraphInputNodeInfo {
    pub name: String,
    pub shape: Vec<i64>,
    pub dtype: i32,
}

#[derive(Clone, Debug, PartialEq, Default)]
pub struct GraphTransferGraphOutputNodeInfo {
    pub name: String,
    pub shape: Vec<i64>,
    pub dtype: i32,
}

/// Protocol buffer representing a handle to a tensorflow resource. Handles are
/// not valid across executions, but can be serialized back and forth from within
/// a single run.
#[derive(Clone, Debug, PartialEq, Default)]
pub struct GraphTransferInfo {
    pub node_info: Vec<GraphTransferNodeInfo>,
    pub const_node_info: Vec<GraphTransferConstNodeInfo>,
    pub node_input_info: Vec<GraphTransferNodeInputInfo>,
    pub node_output_info: Vec<GraphTransferNodeOutputInfo>,
    /// Input Node parameters of transferred graph
    pub graph_input_node_info: Vec<GraphTransferGraphInputNodeInfo>,
    pub graph_output_node_info: Vec<GraphTransferGraphOutputNodeInfo>,
    /// Destination of graph transfer
    pub destination: i32,
}

#[derive(Debug, PartialEq, Default)]
pub struct KernelDef {
    /// Must match the name of an Op.
    pub op: String,
    /// Type of device this kernel runs on.
    pub device_type: String,
    pub constraint: Vec<kernel_def::AttrConstraint>,
    /// Names of the Op's input_/output_args that reside in host memory
    /// instead of device memory.
    pub host_memory_arg: Vec<String>,
    /// This allows experimental kernels to be registered for an op that
    /// won't be used unless the user specifies a "_kernel" attr with
    /// value matching this.
    pub label: String,
    /// Prioritization of kernel amongst different devices. By default we assume
    /// priority is 0. The higher the priority the better. By default (i.e. if
    /// this is not set), we prefer GPU kernels over CPU.
    pub priority: i32,
}

/// A collection of KernelDefs
#[derive(Debug, PartialEq, Default)]
pub struct KernelList {
    pub kernel: Vec<KernelDef>,
}

#[derive(Clone, Debug, PartialEq, Default)]
pub struct TensorDescription {
    /// Data type of tensor elements
    pub dtype: i32,
    /// Shape of the tensor.
    pub shape: Option<TensorShapeProto>,
    /// Information about the size and allocator used for the data
    pub allocation_description: Option<AllocationDescription>,
}

#[derive(Clone, Debug, PartialEq, Default)]
pub struct MemoryLogStep {
    /// Process-unique step id.
    pub step_id: i64,
    /// Handle describing the feeds and fetches of the step.
    pub handle: String,
}

#[derive(Clone, Debug, PartialEq, Default)]
pub struct MemoryLogTensorAllocation {
    /// Process-unique step id.
    pub step_id: i64,
    /// Name of the kernel making the allocation as set in GraphDef,
    /// e.g., "affine2/weights/Assign".
    pub kernel_name: String,
    /// Allocated tensor details.
    pub tensor: Option<TensorDescription>,
}

#[derive(Clone, Debug, PartialEq, Default)]
pub struct MemoryLogTensorDeallocation {
    /// Id of the tensor buffer being deallocated, used to match to a
    /// corresponding allocation.
    pub allocation_id: i64,
    /// Name of the allocator used.
    pub allocator_name: String,
}

#[derive(Clone, Debug, PartialEq, Default)]
pub struct MemoryLogTensorOutput {
    /// Process-unique step id.
    pub step_id: i64,
    /// Name of the kernel producing an output as set in GraphDef, e.g.,
    /// "affine2/weights/Assign".
    pub kernel_name: String,
    /// Index of the output being set.
    pub index: i32,
    /// Output tensor details.
    pub tensor: Option<TensorDescription>,
}

#[derive(Clone, Debug, PartialEq, Default)]
pub struct MemoryLogRawAllocation {
    /// Process-unique step id.
    pub step_id: i64,
    /// Name of the operation making the allocation.
    pub operation: String,
    /// Number of bytes in the allocation.
    pub num_bytes: i64,
    /// Address of the allocation.
    pub ptr: u64,
    /// Id of the tensor buffer being allocated, used to match to a
    /// corresponding deallocation.
    pub allocation_id: i64,
    /// Name of the allocator used.
    pub allocator_name: String,
}

#[derive(Clone, Debug, PartialEq, Default)]
pub struct MemoryLogRawDeallocation {
    /// Process-unique step id.
    pub step_id: i64,
    /// Name of the operation making the deallocation.
    pub operation: String,
    /// Id of the tensor buffer being deallocated, used to match to a
    /// corresponding allocation.
    pub allocation_id: i64,
    /// Name of the allocator used.
    pub allocator_name: String,
    /// True if the deallocation is queued and will be performed later,
    /// e.g. for GPU lazy freeing of buffers.
    pub deferred: bool,
}

/// For serializing and restoring the state of ReaderBase, see
/// reader_base.h for details.
#[derive(Clone, Debug, PartialEq, Default)]
pub struct ReaderBaseState {
    pub work_started: i64,
    pub work_finished: i64,
    pub num_records_produced: i64,
    pub current_work: Vec<u8>,
}

/// An allocation/de-allocation operation performed by the allocator.
#[derive(Clone, Debug, PartialEq, Default)]
pub struct AllocationRecord {
    /// The timestamp of the operation.
    pub alloc_micros: i64,
    /// Number of bytes allocated, or de-allocated if negative.
    pub alloc_bytes: i64,
}

#[derive(Clone, Debug, PartialEq, Default)]
pub struct AllocatorMemoryUsed {
    pub allocator_name: String,
    /// These are per-node allocator memory stats.
    pub total_bytes: i64,
    pub peak_bytes: i64,
    /// The bytes that are not deallocated.
    pub live_bytes: i64,
    /// The allocation and deallocation timeline.
    pub allocation_records: Vec<AllocationRecord>,
    /// These are snapshots of the overall allocator memory stats.
    /// The number of live bytes currently allocated by the allocator.
    pub allocator_bytes_in_use: i64,
}

/// Output sizes recorded for a single execution of a graph node.
#[derive(Clone, Debug, PartialEq, Default)]
pub struct NodeOutput {
    pub slot: i32,
    pub tensor_description: Option<TensorDescription>,
}

/// For memory tracking.
#[derive(Clone, Debug, PartialEq, Default)]
pub struct MemoryStats {
    pub temp_memory_size: i64,
    pub persistent_memory_size: i64,
    pub persistent_tensor_alloc_ids: Vec<i64>,
    /// Deprecated.
    pub device_temp_memory_size: i64,
    /// Deprecated.
    pub device_persistent_memory_size: i64,
    /// Deprecated.
    pub device_persistent_tensor_alloc_ids: Vec<i64>,
}

/// Time/size stats recorded for a single execution of a graph node.
#[derive(Clone, Debug, PartialEq, Default)]
pub struct NodeExecStats {
    /// TODO(tucker): Use some more compact form of node identity than
    /// the full string name.  Either all processes should agree on a
    /// global id (cost_id?) for each node, or we should use a hash of
    /// the name.
    pub node_name: String,
    pub all_start_micros: i64,
    pub op_start_rel_micros: i64,
    pub op_end_rel_micros: i64,
    pub all_end_rel_micros: i64,
    pub memory: Vec<AllocatorMemoryUsed>,
    pub output: Vec<NodeOutput>,
    pub timeline_label: String,
    pub scheduled_micros: i64,
    pub thread_id: u32,
    pub referenced_tensor: Vec<AllocationDescription>,
    pub memory_stats: Option<MemoryStats>,
    pub all_start_nanos: i64,
    pub op_start_rel_nanos: i64,
    pub op_end_rel_nanos: i64,
    pub all_end_rel_nanos: i64,
    pub scheduled_nanos: i64,
}

#[derive(Clone, Debug, PartialEq, Default)]
pub struct DeviceStepStats {
    pub device: String,
    pub node_stats: Vec<NodeExecStats>,
    /// Its key is thread id.
    pub thread_names: HashMap<u32, String>,
}

#[derive(Clone, Debug, PartialEq, Default)]
pub struct StepStats {
    pub dev_stats: Vec<DeviceStepStats>,
}

/// Metadata associated with a series of Summary data
#[derive(Clone, Debug, PartialEq, Default)]
pub struct SummaryDescription {
    /// Hint on how plugins should process the data in this series.
    /// Supported values include "scalar", "histogram", "image", "audio"
    pub type_hint: String,
}

/// Serialization format for histogram module in
/// core/lib/histogram/histogram.h
#[derive(Clone, Debug, PartialEq, Default)]
pub struct HistogramProto {
    /// Each value is the bit pattern of an IEEE 754 binary64 number.
    pub min: u64,
    /// Each value is the bit pattern of an IEEE 754 binary64 number.
    pub max: u64,
    /// Each value is the bit pattern of an IEEE 754 binary64 number.
    pub num: u64,
    /// Each value is the bit pattern of an IEEE 754 binary64 number.
    pub sum: u64,
    /// Each value is the bit pattern of an IEEE 754 binary64 number.
    pub sum_squares: u64,
    /// Parallel arrays encoding the bucket boundaries and the bucket values.
    /// bucket(i) is the count for the bucket i.  The range for
    /// a bucket is:
    ///   i == 0:  -DBL_MAX .. bucket_limit(0)
    ///   i != 0:  bucket_limit(i-1) .. bucket_limit(i)
    /// Each value is the bit pattern of an IEEE 754 binary64 number.
    pub bucket_limit: Vec<u64>,
    /// Each value is the bit pattern of an IEEE 754 binary64 number.
    pub bucket: Vec<u64>,
}

/// A SummaryMetadata encapsulates information on which plugins are able to make
/// use of a certain summary value.
#[derive(Clone, Debug, PartialEq, Default)]
pub struct SummaryMetadata {
    /// Data that associates a summary with a certain plugin.
    pub plugin_data: Option<summary_metadata::PluginData>,
    /// Display name for viewing in TensorBoard.
    pub display_name: String,
    /// Longform readable description of the summary sequence. Markdown supported.
    pub summary_description: String,
    /// Class of data stored in this time series. Required for compatibility with
    /// TensorBoard's generic data facilities (`DataProvider`, et al.). This value
    /// imposes constraints on the dtype and shape of the corresponding tensor
    /// values. See `DataClass` docs for details.
    pub data_class: i32,
}

/// A Summary is a set of named values to be displayed by the
/// visualizer.
///
/// Summaries are produced regularly during training, as controlled by
/// the "summary_interval_secs" attribute of the training operation.
/// Summaries are also produced at the end of an evaluation.
#[derive(Debug, PartialEq, Default)]
pub struct Summary {
    /// Set of values for the summary.
    pub value: Vec<summary::Value>,
}

#[derive(Clone, Copy, Debug, PartialEq, Eq, Hash, PartialOrd, Ord, Default)]
pub enum DataClass {
    /// Unknown data class, used (implicitly) for legacy data. Will not be
    /// processed by data ingestion pipelines.
    #[default]
    Unknown,
    /// Scalar time series. Each `Value` for the corresponding tag must have
    /// `tensor` set to a rank-0 tensor of type `DT_FLOAT` (float32).
    Scalar,
    /// Tensor time series. Each `Value` for the corresponding tag must have
    /// `tensor` set. The tensor value is arbitrary, but should be small to
    /// accommodate direct storage in database backends: an upper bound of a few
    /// kilobytes is a reasonable rule of thumb.
    Tensor,
    /// Blob sequence time series. Each `Value` for the corresponding tag must
    /// have `tensor` set to a rank-1 tensor of bytestring dtype.
    BlobSequence,
}

/// Can only be interpreted if you know the corresponding TensorShape.
#[derive(Clone, Debug, PartialEq, Default)]
pub struct TensorSliceProto {
    /// Extent of the slice in all tensor dimensions.
    ///
    /// Must have one entry for each of the dimension of the tensor that this
    /// slice belongs to.  The order of sizes is the same as the order of
    /// dimensions in the TensorShape.
    pub extent: Vec<tensor_slice_proto::Extent>,
}

/// Protocol buffer representing a Variable.
#[derive(Clone, Debug, PartialEq, Default)]
pub struct VariableDef {
    /// Name of the variable tensor.
    pub variable_name: String,
    /// Name of the tensor holding the variable's initial value.
    pub initial_value_name: String,
    /// Name of the initializer op.
    pub initializer_name: String,
    /// Name of the snapshot tensor.
    pub snapshot_name: String,
    /// Support for saving variables as slices of a larger variable.
    pub save_slice_info_def: Option<SaveSliceInfoDef>,
    /// Whether to represent this as a ResourceVariable.
    pub is_resource: bool,
    /// Whether this variable should be trained.
    pub trainable: bool,
    /// Indicates when a distributed variable will be synced.
    pub synchronization: i32,
    /// Indicates how a distributed variable will be aggregated.
    pub aggregation: i32,
}

#[derive(Clone, Debug, PartialEq, Default)]
pub struct SaveSliceInfoDef {
    /// Name of the full variable of which this is a slice.
    pub full_name: String,
    /// Shape of the full variable.
    pub full_shape: Vec<i64>,
    /// Offset of this variable into the full variable.
    pub var_offset: Vec<i64>,
    /// Shape of this variable.
    pub var_shape: Vec<i64>,
}

/// Indicates when a distributed variable will be synced.
#[derive(Clone, Copy, Debug, PartialEq, Eq, Hash, PartialOrd, Ord, Default)]
pub enum VariableSynchronization {
    /// `AUTO`: Indicates that the synchronization will be determined by the
    /// current `DistributionStrategy` (eg. With `MirroredStrategy` this would be
    /// `ON_WRITE`).
    #[default]
    Auto,
    /// `NONE`: Indicates that there will only be one copy of the variable, so
    /// there is no need to sync.
    NoSync,
    /// `ON_WRITE`: Indicates that the variable will be updated across devices
    /// every time it is written.
    OnWrite,
    /// `ON_READ`: Indicates that the variable will be aggregated across devices
    /// when it is read (eg. when checkpointing or when evaluating an op that uses
    /// the variable).
    OnRead,
}

/// Indicates how a distributed variable will be aggregated.
#[derive(Clone, Copy, Debug, PartialEq, Eq, Hash, PartialOrd, Ord, Default)]
pub enum VariableAggregation {
    /// `NONE`: This is the default, giving an error if you use a
    /// variable-update operation with multiple replicas.
    #[default]
    NoAggregation,
    /// `SUM`: Add the updates across replicas.
    Sum,
    /// `MEAN`: Take the arithmetic mean ("average") of the updates across
    /// replicas.
    Mean,
    /// `ONLY_FIRST_REPLICA`: This is for when every replica is performing the same
    /// update, but we only want to perform the update once. Used, e.g., for the
    /// global step counter.
    OnlyFirstReplica,
}

/// Protocol buffer representing an event that happened during
/// the execution of a Brain model.
#[derive(Debug, PartialEq, Default)]
pub struct Event {
    /// Timestamp of the event.
    /// Each value is the bit pattern of an IEEE 754 binary64 number.
    pub wall_time: u64,
    /// Global step of the event.
    pub step: i64,
    pub what: Option<event::What>,
}

/// Protocol buffer used for logging messages to the events file.
///
/// This was theoretically used by the defunct tensorboard_logging module, which
/// has been removed; this message is now deprecated and should not be used.
#[derive(Clone, Debug, PartialEq, Default)]
pub struct LogMessage {
    pub level: i32,
    pub message: String,
}

/// Protocol buffer used for logging session state.
#[derive(Clone, Debug, PartialEq, Default)]
pub struct SessionLog {
    pub status: i32,
    /// This checkpoint_path contains both the path and filename.
    pub checkpoint_path: String,
    pub msg: String,
}

/// For logging the metadata output for a single session.run() call.
#[derive(Clone, Debug, PartialEq, Default)]
pub struct TaggedRunMetadata {
    /// Tag name associated with this metadata.
    pub tag: String,
    /// Byte-encoded version of the `RunMetadata` proto in order to allow lazy
    /// deserialization.
    pub run_metadata: Vec<u8>,
}

#[derive(Clone, Debug, PartialEq, Default)]
pub struct WatchdogConfig {
    pub timeout_ms: i64,
}

#[derive(Clone, Debug, PartialEq, Default)]
pub struct RequestedExitCode {
    pub exit_code: i32,
}

#[derive(Clone, Debug, PartialEq, Default)]
pub struct WorkerHeartbeatRequest {
    pub shutdown_mode: i32,
    pub watchdog_config: Option<WatchdogConfig>,
    pub exit_code: Option<RequestedExitCode>,
}

#[derive(Debug, PartialEq, Default)]
pub struct WorkerHeartbeatResponse {
    pub health_status: i32,
    pub worker_log: Vec<Event>,
    pub hostname: String,
}

/// Current health status of a worker.
#[derive(Clone, Copy, Debug, PartialEq, Eq, Hash, PartialOrd, Ord, Default)]
pub enum WorkerHealth {
    /// By default a worker is healthy.
    #[default]
    Healthy,
    ReceivedShutdownSignal,
    InternalError,
    /// Worker has been instructed to shutdown after a timeout.
    ShuttingDown,
}

/// Indicates the behavior of the worker when an internal error or shutdown
/// signal is received.
#[derive(Clone, Copy, Debug, PartialEq, Eq, Hash, PartialOrd, Ord, Default)]
pub enum WorkerShutdownMode {
    #[default]
    Default,
    NotConfigured,
    WaitForCoordinator,
    ShutdownAfterTimeout,
}

} // verus!
