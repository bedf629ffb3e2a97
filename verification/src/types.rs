//! The data types that the client names.

use vstd::prelude::*;
use crate::data_type::DataType;

verus! {

broadcast use crate::data_type::data_type_round_trip;

/// The numeric identifier of the `DateTime` data type node in namespace 0 (`UA_NS0ID_DATETIME`).
pub const DATE_TIME_TYPE_ID: u32 = 13;

/// The data type `DateTime`: a signed 64-bit count of 100 nanosecond intervals since
/// 1601-01-01 00:00 UTC.
pub open spec fn spec_date_time() -> DataType {
    DataType::spec_from_type_id(DATE_TIME_TYPE_ID)
}

/// The data type `DateTime` (`UA_TYPES[UA_TYPES_DATETIME]`).
pub fn date_time() -> (data_type: DataType)
    ensures
        data_type == spec_date_time(),
        data_type.spec_type_id() == DATE_TIME_TYPE_ID,
{
    DataType::from_type_id(DATE_TIME_TYPE_ID)
}

} // verus!
