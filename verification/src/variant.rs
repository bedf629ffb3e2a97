//! Variants: what the client reads of a `UA_Variant`.

use vstd::prelude::*;
use crate::data_type::DataType;
use crate::types::{date_time, spec_date_time};

verus! {

/// What a variant says of the type of its contents.
#[derive(Clone, Copy, Debug, PartialEq, Eq, Structural)]
pub enum VariantType {
    /// No type is set: the variant is empty.
    Empty,
    /// A data type that the library names.
    Named(DataType),
    /// A data type that the library does not name.
    Unnamed,
}

/// What a variant's data pointer refers to.
#[derive(Clone, Copy, Debug, PartialEq, Eq, Structural)]
pub enum VariantData {
    /// The data pointer is null.
    Null,
    /// The data pointer is the sentinel of an empty array (`UA_EMPTY_ARRAY_SENTINEL`).
    EmptyArray,
    /// The data are `DateTime` values; this is the first of them.
    DateTime(i64),
    /// The data are values of another type, which the library does not read.
    Unread,
}

impl VariantData {
    /// Whether the data pointer refers to values, rather than being null or the sentinel of an
    /// empty array (the test `data > UA_EMPTY_ARRAY_SENTINEL`).
    pub open spec fn spec_holds_values(self) -> bool {
        self is DateTime || self is Unread
    }
}

/// Whether a variant's type, array length and data fit together: `DateTime` data are read
/// exactly when the type is `DateTime` and the data pointer refers to values.
pub open spec fn spec_parts_consistent(variant_type: VariantType, data: VariantData) -> bool {
    (data is DateTime) <==> (variant_type == VariantType::Named(spec_date_time())
        && data.spec_holds_values())
}

/// The contents of a `UA_Variant` as the client reads them: the type, the array length (0 for a
/// scalar), and what the data pointer refers to.
#[derive(Debug)]
pub struct Variant {
    variant_type: VariantType,
    array_length: usize,
    data: VariantData,
}

impl Variant {
    #[verifier::type_invariant]
    spec fn parts_fit(self) -> bool {
        spec_parts_consistent(self.variant_type, self.data)
    }

    /// The type of this variant's contents.
    pub closed spec fn spec_type(self) -> VariantType {
        self.variant_type
    }

    /// The array length of this variant (0 for a scalar or an empty variant).
    pub closed spec fn spec_array_length(self) -> usize {
        self.array_length
    }

    /// What this variant's data pointer refers to.
    pub closed spec fn spec_data(self) -> VariantData {
        self.data
    }

    /// Whether this variant holds a scalar (`UA_Variant_isScalar`): its array length is 0 and its
    /// data pointer refers to a value.
    pub open spec fn spec_is_scalar(self) -> bool {
        self.spec_array_length() == 0 && self.spec_data().spec_holds_values()
    }

    /// Whether this variant holds a scalar of type `data_type` (`UA_Variant_hasScalarType`).
    pub open spec fn spec_has_scalar_type(self, data_type: DataType) -> bool {
        self.spec_is_scalar() && self.spec_type() == VariantType::Named(data_type)
    }

    /// The `DateTime` that this variant holds as a scalar, if it holds one.
    pub open spec fn spec_date_time_value(self) -> Option<i64> {
        if self.spec_has_scalar_type(spec_date_time()) {
            match self.spec_data() {
                VariantData::DateTime(ticks) => Some(ticks),
                _ => None,
            }
        } else {
            None
        }
    }

    /// An empty variant, as `UA_Variant_init` leaves it: no type, array length 0, null data.
    pub fn new() -> (variant: Variant)
        ensures
            variant.spec_type() == VariantType::Empty,
            variant.spec_array_length() == 0,
            variant.spec_data() == VariantData::Null,
    {
        Variant { variant_type: VariantType::Empty, array_length: 0, data: VariantData::Null }
    }

    /// The variant with the given parts, or `None` where they do not fit together (see
    /// [`spec_parts_consistent`]).
    pub fn from_parts(variant_type: VariantType, array_length: usize, data: VariantData) -> (result:
        Option<Variant>)
        ensures
            result is Some <==> spec_parts_consistent(variant_type, data),
            result matches Some(variant) ==> variant.spec_type() == variant_type
                && variant.spec_array_length() == array_length && variant.spec_data() == data,
    {
        let named_date_time = match variant_type {
            VariantType::Named(data_type) => data_type == date_time(),
            _ => false,
        };
        let holds_values = match data {
            VariantData::DateTime(_) | VariantData::Unread => true,
            _ => false,
        };
        let is_date_time = match data {
            VariantData::DateTime(_) => true,
            _ => false,
        };
        if is_date_time == (named_date_time && holds_values) {
            Some(Variant { variant_type, array_length, data })
        } else {
            None
        }
    }

    /// The type of this variant's contents.
    pub fn variant_type(&self) -> (variant_type: VariantType)
        ensures
            variant_type == self.spec_type(),
    {
        self.variant_type
    }

    /// The array length of this variant.
    pub fn array_length(&self) -> (array_length: usize)
        ensures
            array_length == self.spec_array_length(),
    {
        self.array_length
    }

    /// What this variant's data pointer refers to.
    pub fn data(&self) -> (data: VariantData)
        ensures
            data == self.spec_data(),
    {
        self.data
    }

    /// Whether this variant holds a scalar of type `data_type`.
    pub fn has_scalar_type(&self, data_type: &DataType) -> (has_type: bool)
        ensures
            has_type == self.spec_has_scalar_type(*data_type),
    {
        let holds_values = match self.data {
            VariantData::DateTime(_) | VariantData::Unread => true,
            _ => false,
        };
        let same_type = match self.variant_type {
            VariantType::Named(own) => own == *data_type,
            _ => false,
        };
        self.array_length == 0 && holds_values && same_type
    }

    /// The `DateTime` that this variant holds as a scalar, as a count of 100 nanosecond
    /// intervals since 1601-01-01 00:00 UTC (`UA_DateTime`), or `None` where the variant does
    /// not hold a scalar `DateTime`.
    pub fn into_date_time(self) -> (ticks: Option<i64>)
        ensures
            ticks == self.spec_date_time_value(),
            ticks is Some <==> self.spec_has_scalar_type(spec_date_time()),
    {
        proof {
            use_type_invariant(&self);
        }
        if self.has_scalar_type(&date_time()) {
            match self.data {
                VariantData::DateTime(ticks) => Some(ticks),
                _ => None,
            }
        } else {
            None
        }
    }
}

/// An empty variant holds no scalar, of any data type.
pub proof fn empty_variant_has_no_scalar_type(variant: Variant, data_type: DataType)
    requires
        variant.spec_type() == VariantType::Empty,
    ensures
        !variant.spec_has_scalar_type(data_type),
{
}

/// A variant holds a scalar of at most one data type.
pub proof fn scalar_type_is_unique(variant: Variant, first: DataType, second: DataType)
    requires
        variant.spec_has_scalar_type(first),
        variant.spec_has_scalar_type(second),
    ensures
        first == second,
{
}

/// A variant holds a scalar of a data type exactly when its array length is 0, its data pointer
/// refers to a value (neither null nor the empty-array sentinel) and its type is that data type.
pub proof fn scalar_type_needs_array_length_zero(variant: Variant, data_type: DataType)
    ensures
        variant.spec_has_scalar_type(data_type) <==> (variant.spec_array_length() == 0
            && variant.spec_data() != VariantData::Null && variant.spec_data()
            != VariantData::EmptyArray && variant.spec_type() == VariantType::Named(data_type)),
{
}

/// A variant yields the `DateTime` `ticks` exactly when it is a scalar (array length 0) of type
/// `DateTime` (data type node 13) whose value is `ticks`; arrays, other types and absent data
/// yield none.
pub proof fn date_time_value_is_the_scalar(variant: Variant, ticks: i64)
    ensures
        variant.spec_date_time_value() == Some(ticks) <==> (variant.spec_array_length() == 0
            && variant.spec_type() == VariantType::Named(DataType::spec_from_type_id(13))
            && variant.spec_data() == VariantData::DateTime(ticks)),
        variant.spec_array_length() != 0 ==> variant.spec_date_time_value() is None,
{
}

/// Parts fit together exactly when `DateTime` data come with the `DateTime` type (data type node
/// 13), and the `DateTime` type with data present comes with `DateTime` data.
pub proof fn parts_fit_exactly(variant_type: VariantType, data: VariantData)
    ensures
        spec_parts_consistent(variant_type, data) <==> ((data is DateTime) == (variant_type
            == VariantType::Named(DataType::spec_from_type_id(13)) && data != VariantData::Null
            && data != VariantData::EmptyArray)),
{
}

} // verus!
