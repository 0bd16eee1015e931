//! Element types: what one item of a tensor is made of.

use vstd::prelude::*;
use vstd::std_specs::convert::FromSpecImpl;
use vstd::std_specs::convert::TryFromSpecImpl;
use crate::errors::UnsupportedDataTypeCode;
use crate::text::decimal;
use crate::text::to_decimal;
use crate::wire::DLDataType;
use crate::wire::DLDataTypeCode;

verus! {

/// The kind of number an element holds.
#[derive(Debug, Clone, Copy, PartialEq, Eq, Hash, Structural)]
pub enum DataTypeCode {
    Int,
    UInt,
    Float,
    OpaqueHandle,
    Bfloat,
    Complex,
}

impl DataTypeCode {
    /// The number that stands for this kind in a record.
    pub open spec fn wire_code(self) -> nat {
        match self {
            DataTypeCode::Int => 0,
            DataTypeCode::UInt => 1,
            DataTypeCode::Float => 2,
            DataTypeCode::OpaqueHandle => 3,
            DataTypeCode::Bfloat => 4,
            DataTypeCode::Complex => 5,
        }
    }

    /// The kind that a number found in a record stands for, if any.
    pub open spec fn of_wire_code(code: nat) -> Option<DataTypeCode> {
        if code == 0 {
            Some(DataTypeCode::Int)
        } else if code == 1 {
            Some(DataTypeCode::UInt)
        } else if code == 2 {
            Some(DataTypeCode::Float)
        } else if code == 3 {
            Some(DataTypeCode::OpaqueHandle)
        } else if code == 4 {
            Some(DataTypeCode::Bfloat)
        } else if code == 5 {
            Some(DataTypeCode::Complex)
        } else {
            None
        }
    }

    /// Every kind is found again from its own number.
    pub proof fn lemma_wire_round_trip(kind: DataTypeCode)
        ensures
            Self::of_wire_code(kind.wire_code()) == Some(kind),
    {
    }

    /// A number stands for at most one kind, and that kind gives the number
    /// back.
    pub proof fn lemma_from_wire_exact(code: nat, kind: DataTypeCode)
        ensures
            Self::of_wire_code(code) == Some(kind) <==> kind.wire_code() == code,
    {
    }
}

impl From<DataTypeCode> for u8 {
    fn from(code: DataTypeCode) -> (ret: u8) {
        match code {
            DataTypeCode::Int => 0,
            DataTypeCode::UInt => 1,
            DataTypeCode::Float => 2,
            DataTypeCode::OpaqueHandle => 3,
            DataTypeCode::Bfloat => 4,
            DataTypeCode::Complex => 5,
        }
    }
}

impl FromSpecImpl<DataTypeCode> for u8 {
    open spec fn obeys_from_spec() -> bool {
        true
    }

    open spec fn from_spec(code: DataTypeCode) -> u8 {
        code.wire_code() as u8
    }
}

impl<'a> From<&'a DataTypeCode> for DLDataTypeCode {
    fn from(code: &'a DataTypeCode) -> (ret: DLDataTypeCode) {
        match code {
            DataTypeCode::Int => crate::wire::DL_INT,
            DataTypeCode::UInt => crate::wire::DL_UINT,
            DataTypeCode::Float => crate::wire::DL_FLOAT,
            DataTypeCode::OpaqueHandle => crate::wire::DL_OPAQUE_HANDLE,
            DataTypeCode::Bfloat => crate::wire::DL_BFLOAT,
            DataTypeCode::Complex => crate::wire::DL_COMPLEX,
        }
    }
}

impl<'a> FromSpecImpl<&'a DataTypeCode> for DLDataTypeCode {
    open spec fn obeys_from_spec() -> bool {
        true
    }

    open spec fn from_spec(code: &'a DataTypeCode) -> DLDataTypeCode {
        code.wire_code() as DLDataTypeCode
    }
}

impl TryFrom<DLDataTypeCode> for DataTypeCode {
    type Error = UnsupportedDataTypeCode;

    /// Reads a kind from the number found in a record. A number outside the
    /// known set is reported with its decimal numeral.
    fn try_from(code: DLDataTypeCode) -> (res: Result<Self, Self::Error>)
        ensures
            match res {
                Ok(kind) => DataTypeCode::of_wire_code(code as nat) == Some(kind),
                Err(e) => DataTypeCode::of_wire_code(code as nat) is None && e.0@ == decimal(
                    code as nat,
                ),
            },
    {
        if code == crate::wire::DL_INT {
            Ok(DataTypeCode::Int)
        } else if code == crate::wire::DL_UINT {
            Ok(DataTypeCode::UInt)
        } else if code == crate::wire::DL_FLOAT {
            Ok(DataTypeCode::Float)
        } else if code == crate::wire::DL_OPAQUE_HANDLE {
            Ok(DataTypeCode::OpaqueHandle)
        } else if code == crate::wire::DL_BFLOAT {
            Ok(DataTypeCode::Bfloat)
        } else if code == crate::wire::DL_COMPLEX {
            Ok(DataTypeCode::Complex)
        } else {
            Err(UnsupportedDataTypeCode(to_decimal(code as u64)))
        }
    }
}

impl TryFromSpecImpl<DLDataTypeCode> for DataTypeCode {
    /// The error holds a string, which no specification value can build:
    /// what `try_from` returns is stated on the function itself.
    open spec fn obeys_try_from_spec() -> bool {
        false
    }

    open spec fn try_from_spec(code: DLDataTypeCode) -> Result<Self, Self::Error> {
        match DataTypeCode::of_wire_code(code as nat) {
            Some(kind) => Ok(kind),
            None => Err(arbitrary()),
        }
    }
}

/// Element type of a tensor: kind code, width in bits, and vector lanes.
///
/// One element takes `bits * lanes` bits.
#[derive(Debug, Clone, Copy, PartialEq, Eq, Hash, Structural)]
pub struct DataType {
    pub code: u8,
    pub bits: u8,
    pub lanes: u16,
}

impl From<DataType> for DLDataType {
    fn from(dtype: DataType) -> (ret: DLDataType) {
        DLDataType { code: dtype.code, bits: dtype.bits, lanes: dtype.lanes }
    }
}

impl FromSpecImpl<DataType> for DLDataType {
    open spec fn obeys_from_spec() -> bool {
        true
    }

    open spec fn from_spec(dtype: DataType) -> DLDataType {
        dtype.to_wire()
    }
}

impl From<DLDataType> for DataType {
    fn from(dtype: DLDataType) -> (ret: DataType) {
        DataType { code: dtype.code, bits: dtype.bits, lanes: dtype.lanes }
    }
}

impl FromSpecImpl<DLDataType> for DataType {
    open spec fn obeys_from_spec() -> bool {
        true
    }

    open spec fn from_spec(dtype: DLDataType) -> DataType {
        DataType::of_wire(dtype)
    }
}

impl DataType {
    /// Whole bytes of one element when its bits fill them exactly:
    /// `lanes * bits / 8`, rounded down.
    pub open spec fn spec_itemsize(self) -> nat {
        ((self.lanes as nat) * (self.bits as nat)) / 8
    }

    /// Bytes that hold one element: `bits * lanes` bits rounded up to whole
    /// bytes.
    pub open spec fn spec_storage_bytes(self) -> nat {
        ((self.bits as nat) * (self.lanes as nat) + 7) / 8
    }

    /// The record that holds this data type.
    pub open spec fn to_wire(self) -> DLDataType {
        DLDataType { code: self.code, bits: self.bits, lanes: self.lanes }
    }

    /// The data type that a record holds.
    pub open spec fn of_wire(record: DLDataType) -> DataType {
        DataType { code: record.code, bits: record.bits, lanes: record.lanes }
    }

    /// Going to the record and back changes no field, whatever code, width
    /// and lane count the data type holds.
    pub proof fn lemma_wire_round_trip(dtype: DataType)
        ensures
            DataType::of_wire(dtype.to_wire()) == dtype,
    {
    }

    /// Going from a record to a data type and back changes no field.
    pub proof fn lemma_record_round_trip(record: DLDataType)
        ensures
            DataType::of_wire(record).to_wire() == record,
    {
    }

    pub fn new(code: u8, bits: u8, lanes: u16) -> (dt: DataType)
        ensures
            dt == (DataType { code, bits, lanes }),
    {
        DataType { code, bits, lanes }
    }

    pub fn code(&self) -> (code: usize)
        ensures
            code == self.code,
    {
        self.code as usize
    }

    pub fn bits(&self) -> (bits: usize)
        ensures
            bits == self.bits,
    {
        self.bits as usize
    }

    pub fn lanes(&self) -> (lanes: usize)
        ensures
            lanes == self.lanes,
    {
        self.lanes as usize
    }

    /// Signed integers of `bits` bits, `lanes` to an element.
    pub fn signed(bits: u8, lanes: u16) -> (dt: DataType)
        ensures
            dt == (DataType { code: DataTypeCode::Int.wire_code() as u8, bits, lanes }),
    {
        DataType::new(u8::from(DataTypeCode::Int), bits, lanes)
    }

    pub fn i8() -> (dt: DataType)
        ensures
            dt == (DataType { code: DataTypeCode::Int.wire_code() as u8, bits: 8, lanes: 1 }),
    {
        Self::signed(8, 1)
    }

    pub fn i16() -> (dt: DataType)
        ensures
            dt == (DataType { code: DataTypeCode::Int.wire_code() as u8, bits: 16, lanes: 1 }),
    {
        Self::signed(16, 1)
    }

    pub fn i32() -> (dt: DataType)
        ensures
            dt == (DataType { code: DataTypeCode::Int.wire_code() as u8, bits: 32, lanes: 1 }),
    {
        Self::signed(32, 1)
    }

    pub fn i64() -> (dt: DataType)
        ensures
            dt == (DataType { code: DataTypeCode::Int.wire_code() as u8, bits: 64, lanes: 1 }),
    {
        Self::signed(64, 1)
    }

    /// Unsigned integers of `bits` bits, `lanes` to an element.
    pub fn uint(bits: u8, lanes: u16) -> (dt: DataType)
        ensures
            dt == (DataType { code: DataTypeCode::UInt.wire_code() as u8, bits, lanes }),
    {
        DataType::new(u8::from(DataTypeCode::UInt), bits, lanes)
    }

    pub fn u8() -> (dt: DataType)
        ensures
            dt == (DataType { code: DataTypeCode::UInt.wire_code() as u8, bits: 8, lanes: 1 }),
    {
        Self::uint(8, 1)
    }

    pub fn u16() -> (dt: DataType)
        ensures
            dt == (DataType { code: DataTypeCode::UInt.wire_code() as u8, bits: 16, lanes: 1 }),
    {
        Self::uint(16, 1)
    }

    pub fn u32() -> (dt: DataType)
        ensures
            dt == (DataType { code: DataTypeCode::UInt.wire_code() as u8, bits: 32, lanes: 1 }),
    {
        Self::uint(32, 1)
    }

    pub fn u64() -> (dt: DataType)
        ensures
            dt == (DataType { code: DataTypeCode::UInt.wire_code() as u8, bits: 64, lanes: 1 }),
    {
        Self::uint(64, 1)
    }

    /// Floating point numbers of `bits` bits, `lanes` to an element.
    pub fn float(bits: u8, lanes: u16) -> (dt: DataType)
        ensures
            dt == (DataType { code: DataTypeCode::Float.wire_code() as u8, bits, lanes }),
    {
        DataType::new(u8::from(DataTypeCode::Float), bits, lanes)
    }

    /// Single precision floating point, one lane.
    pub fn float32() -> (dt: DataType)
        ensures
            dt == (DataType { code: DataTypeCode::Float.wire_code() as u8, bits: 32, lanes: 1 }),
    {
        Self::float(32, 1)
    }

    /// Double precision floating point, one lane.
    pub fn float64() -> (dt: DataType)
        ensures
            dt == (DataType { code: DataTypeCode::Float.wire_code() as u8, bits: 64, lanes: 1 }),
    {
        Self::float(64, 1)
    }

    /// Opaque handles of `bits` bits, `lanes` to an element.
    pub fn opaque_handle(bits: u8, lanes: u16) -> (dt: DataType)
        ensures
            dt == (DataType { code: DataTypeCode::OpaqueHandle.wire_code() as u8, bits, lanes }),
    {
        DataType::new(u8::from(DataTypeCode::OpaqueHandle), bits, lanes)
    }

    /// Brain floating point numbers of `bits` bits, `lanes` to an element.
    pub fn bfloat(bits: u8, lanes: u16) -> (dt: DataType)
        ensures
            dt == (DataType { code: DataTypeCode::Bfloat.wire_code() as u8, bits, lanes }),
    {
        DataType::new(u8::from(DataTypeCode::Bfloat), bits, lanes)
    }

    /// Complex numbers of `bits` bits, `lanes` to an element.
    pub fn complex(bits: u8, lanes: u16) -> (dt: DataType)
        ensures
            dt == (DataType { code: DataTypeCode::Complex.wire_code() as u8, bits, lanes }),
    {
        DataType::new(u8::from(DataTypeCode::Complex), bits, lanes)
    }
}

} // verus!
