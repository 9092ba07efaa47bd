//! What libfabric's encoded values mean, and the laws that tie each enumeration of this
//! library to them.
//!
//! The tables keyed by `code` follow the numbering of the C headers (`enum fi_op` in
//! `fi_atomic.h`, `enum fi_cq_format` in `fi_eq.h`, `enum fi_progress` in `fabric.h`) and
//! the behaviour the man pages fi_atomic(3), fi_collective(3), fi_cq(3) and fi_domain(3)
//! give each value. They are written with number literals, so that they stand apart from
//! the constants and the encodings that the library computes with.
use vstd::prelude::*;
use crate::cq::Completion;
use crate::datatype::AsFiType;
use crate::enums::{
    AddressVectorType, AtomicOp, CollAtomicOp, CollectiveOp, CompareAtomicOp, CqFormat, DataType, EndpointType,
    CounterEvents, FetchAtomicOp, HmemP2p, ParamType, Progress, ResourceMgmt, Threading, TrafficClass, WaitCond,
    WaitObj, WaitObj2,
};

verus! {

//================== Atomic operations ==================//

/// The effect of an atomic operation on a target word.
pub enum OpEffect {
    /// The target is written with this value.
    Update(int),
    /// The target is read and left as it is.
    Read,
    /// Nothing is done to the target.
    Nothing,
}

/// `min(a, b)`.
pub open spec fn min_of(a: u64, b: u64) -> int {
    if a <= b { a as int } else { b as int }
}

/// `max(a, b)`.
pub open spec fn max_of(a: u64, b: u64) -> int {
    if a >= b { a as int } else { b as int }
}

/// The truth value of a word, as C reads it in `||`, `&&` and logical exclusive or.
pub open spec fn truth(a: u64) -> bool {
    a != 0
}

/// The C value of a truth value.
pub open spec fn truth_value(b: bool) -> int {
    if b { 1 } else { 0 }
}

/// What the `fi_op` with number `code` does to a target word holding `target`, with the
/// operand `operand` (`*addr = *addr OP *buf`); `None` for a number that names no such
/// operation: 0 `FI_MIN`, 1 `FI_MAX`, 2 `FI_SUM`, 3 `FI_PROD`, 4 `FI_LOR`, 5 `FI_LAND`,
/// 6 `FI_BOR`, 7 `FI_BAND`, 8 `FI_LXOR`, 9 `FI_BXOR`, 10 `FI_ATOMIC_READ`,
/// 11 `FI_ATOMIC_WRITE`, and 256 `FI_NOOP`, the first collective operation.
pub open spec fn fi_op_effect(code: u32, target: u64, operand: u64) -> Option<OpEffect> {
    if code == 0 {
        Some(OpEffect::Update(min_of(target, operand)))
    } else if code == 1 {
        Some(OpEffect::Update(max_of(target, operand)))
    } else if code == 2 {
        Some(OpEffect::Update(target + operand))
    } else if code == 3 {
        Some(OpEffect::Update(target * operand))
    } else if code == 4 {
        Some(OpEffect::Update(truth_value(truth(target) || truth(operand))))
    } else if code == 5 {
        Some(OpEffect::Update(truth_value(truth(target) && truth(operand))))
    } else if code == 6 {
        Some(OpEffect::Update((target | operand) as int))
    } else if code == 7 {
        Some(OpEffect::Update((target & operand) as int))
    } else if code == 8 {
        Some(OpEffect::Update(truth_value(truth(target) != truth(operand))))
    } else if code == 9 {
        Some(OpEffect::Update((target ^ operand) as int))
    } else if code == 10 {
        Some(OpEffect::Read)
    } else if code == 11 {
        Some(OpEffect::Update(operand as int))
    } else if code == 256 {
        Some(OpEffect::Nothing)
    } else {
        None
    }
}

/// What the compare-and-swap `fi_op` with number `code` makes of a target word holding
/// `target`, given the compare value `compare` and the operand `operand`; `None` for a
/// number that names no such operation: 12 `FI_CSWAP` (swap if `compare == target`),
/// 13 `FI_CSWAP_NE` (`!=`), 14 `FI_CSWAP_LE` (`compare <= target`), 15 `FI_CSWAP_LT` (`<`),
/// 16 `FI_CSWAP_GE` (`>=`), 17 `FI_CSWAP_GT` (`>`), and 18 `FI_MSWAP`, which takes the bits
/// of `operand` where `compare` has a one and those of `target` elsewhere.
pub open spec fn fi_cswap_target_after(code: u32, target: u64, compare: u64, operand: u64) -> Option<int> {
    if code == 12 {
        Some(if compare == target { operand as int } else { target as int })
    } else if code == 13 {
        Some(if compare != target { operand as int } else { target as int })
    } else if code == 14 {
        Some(if compare <= target { operand as int } else { target as int })
    } else if code == 15 {
        Some(if compare < target { operand as int } else { target as int })
    } else if code == 16 {
        Some(if compare >= target { operand as int } else { target as int })
    } else if code == 17 {
        Some(if compare > target { operand as int } else { target as int })
    } else if code == 18 {
        Some(((operand & compare) | (target & !compare)) as int)
    } else {
        None
    }
}

impl AtomicOp {
    /// What the operation does to a target word holding `target`, with operand `operand`:
    /// the minimum or maximum of the two, their sum or product, their logical or, and or
    /// exclusive or, their bitwise or, and or exclusive or, or (`AtomicWrite`) the operand.
    pub open spec fn effect(self, target: u64, operand: u64) -> OpEffect {
        match self {
            AtomicOp::Min => OpEffect::Update(min_of(target, operand)),
            AtomicOp::Max => OpEffect::Update(max_of(target, operand)),
            AtomicOp::Sum => OpEffect::Update(target + operand),
            AtomicOp::Prod => OpEffect::Update(target * operand),
            AtomicOp::Lor => OpEffect::Update(truth_value(truth(target) || truth(operand))),
            AtomicOp::Land => OpEffect::Update(truth_value(truth(target) && truth(operand))),
            AtomicOp::Bor => OpEffect::Update((target | operand) as int),
            AtomicOp::Band => OpEffect::Update((target & operand) as int),
            AtomicOp::Lxor => OpEffect::Update(truth_value(truth(target) != truth(operand))),
            AtomicOp::Bxor => OpEffect::Update((target ^ operand) as int),
            AtomicOp::AtomicWrite => OpEffect::Update(operand as int),
        }
    }
}

impl FetchAtomicOp {
    /// What the operation does to a target word (its old value is fetched in every case):
    /// as for [AtomicOp::effect], and `AtomicRead` only reads it.
    pub open spec fn effect(self, target: u64, operand: u64) -> OpEffect {
        match self {
            FetchAtomicOp::Min => OpEffect::Update(min_of(target, operand)),
            FetchAtomicOp::Max => OpEffect::Update(max_of(target, operand)),
            FetchAtomicOp::Sum => OpEffect::Update(target + operand),
            FetchAtomicOp::Prod => OpEffect::Update(target * operand),
            FetchAtomicOp::Lor => OpEffect::Update(truth_value(truth(target) || truth(operand))),
            FetchAtomicOp::Land => OpEffect::Update(truth_value(truth(target) && truth(operand))),
            FetchAtomicOp::Bor => OpEffect::Update((target | operand) as int),
            FetchAtomicOp::Band => OpEffect::Update((target & operand) as int),
            FetchAtomicOp::Lxor => OpEffect::Update(truth_value(truth(target) != truth(operand))),
            FetchAtomicOp::Bxor => OpEffect::Update((target ^ operand) as int),
            FetchAtomicOp::AtomicRead => OpEffect::Read,
            FetchAtomicOp::AtomicWrite => OpEffect::Update(operand as int),
        }
    }
}

impl CollAtomicOp {
    /// How the operation combines a member's value `target` with another's `operand` in a
    /// reduction: as for [FetchAtomicOp::effect], and `Noop` does nothing.
    pub open spec fn effect(self, target: u64, operand: u64) -> OpEffect {
        match self {
            CollAtomicOp::Min => OpEffect::Update(min_of(target, operand)),
            CollAtomicOp::Max => OpEffect::Update(max_of(target, operand)),
            CollAtomicOp::Sum => OpEffect::Update(target + operand),
            CollAtomicOp::Prod => OpEffect::Update(target * operand),
            CollAtomicOp::Lor => OpEffect::Update(truth_value(truth(target) || truth(operand))),
            CollAtomicOp::Land => OpEffect::Update(truth_value(truth(target) && truth(operand))),
            CollAtomicOp::Bor => OpEffect::Update((target | operand) as int),
            CollAtomicOp::Band => OpEffect::Update((target & operand) as int),
            CollAtomicOp::Lxor => OpEffect::Update(truth_value(truth(target) != truth(operand))),
            CollAtomicOp::Bxor => OpEffect::Update((target ^ operand) as int),
            CollAtomicOp::AtomicWrite => OpEffect::Update(operand as int),
            CollAtomicOp::AtomicRead => OpEffect::Read,
            CollAtomicOp::Noop => OpEffect::Nothing,
        }
    }
}

impl CompareAtomicOp {
    /// What the operation makes of a target word holding `target`: the conditional swaps
    /// write `operand` when `compare` is equal, unequal, at most, below, at least or above
    /// `target`, and keep `target` otherwise; `Mswap` takes the bits of `operand` where
    /// `compare` has a one and those of `target` elsewhere.
    pub open spec fn target_after(self, target: u64, compare: u64, operand: u64) -> int {
        match self {
            CompareAtomicOp::Cswap => if compare == target { operand as int } else { target as int },
            CompareAtomicOp::CswapNe => if compare != target { operand as int } else { target as int },
            CompareAtomicOp::CswapLe => if compare <= target { operand as int } else { target as int },
            CompareAtomicOp::CswapLt => if compare < target { operand as int } else { target as int },
            CompareAtomicOp::CswapGe => if compare >= target { operand as int } else { target as int },
            CompareAtomicOp::CswapGt => if compare > target { operand as int } else { target as int },
            CompareAtomicOp::Mswap => ((operand & compare) | (target & !compare)) as int,
        }
    }
}

/// Every atomic operation is sent as the `fi_op` that does what it does: for every
/// operation and all values of the target and the operand, the `fi_op` its encoding names
/// has the operation's effect; and every number that decodes to an operation names an
/// `fi_op` with that operation's effect.
pub proof fn law_atomic_op_encoding(op: AtomicOp, code: u32, target: u64, operand: u64)
    ensures
        fi_op_effect(op.raw_value(), target, operand) == Some(op.effect(target, operand)),
        AtomicOp::decode(code) matches Some(d) ==> fi_op_effect(code, target, operand) == Some(d.effect(target, operand)),
{
}

/// Every fetching atomic operation is sent as the `fi_op` that does what it does, as
/// [law_atomic_op_encoding] says of the plain ones.
pub proof fn law_fetch_atomic_op_encoding(op: FetchAtomicOp, code: u32, target: u64, operand: u64)
    ensures
        fi_op_effect(op.raw_value(), target, operand) == Some(op.effect(target, operand)),
        FetchAtomicOp::decode(code) matches Some(d) ==> fi_op_effect(code, target, operand) == Some(d.effect(target, operand)),
{
}

/// Every reduction of a collective is sent as the `fi_op` that combines values as it does,
/// as [law_atomic_op_encoding] says of the atomic operations.
pub proof fn law_coll_atomic_op_encoding(op: CollAtomicOp, code: u32, target: u64, operand: u64)
    ensures
        fi_op_effect(op.raw_value(), target, operand) == Some(op.effect(target, operand)),
        CollAtomicOp::decode(code) matches Some(d) ==> fi_op_effect(code, target, operand) == Some(d.effect(target, operand)),
{
}

/// Every compare-and-swap operation is sent as the `fi_op` that swaps under the same
/// condition: for every operation and all values of the target, the compare value and the
/// operand, the `fi_op` its encoding names leaves the target as the operation does; and
/// every number that decodes to an operation names such an `fi_op`.
pub proof fn law_compare_atomic_op_encoding(op: CompareAtomicOp, code: u32, target: u64, compare: u64, operand: u64)
    ensures
        fi_cswap_target_after(op.raw_value(), target, compare, operand) == Some(op.target_after(target, compare, operand)),
        CompareAtomicOp::decode(code) matches Some(d) ==> fi_cswap_target_after(code, target, compare, operand) == Some(
            d.target_after(target, compare, operand),
        ),
{
}

//================== Completion queue formats ==================//

/// The number of fields of the entries a queue of `fi_cq_format` number `code` reports:
/// 0 `FI_CQ_FORMAT_UNSPEC` leaves the layout to the provider (no fixed fields),
/// 1 `FI_CQ_FORMAT_CONTEXT` reports `fi_cq_entry` (the context), 2 `FI_CQ_FORMAT_MSG`
/// `fi_cq_msg_entry` (and flags and length), 3 `FI_CQ_FORMAT_DATA` `fi_cq_data_entry` (and
/// buffer and data), 4 `FI_CQ_FORMAT_TAGGED` `fi_cq_tagged_entry` (and tag); `None` for a
/// number that names no format.
pub open spec fn fi_cq_format_fields(code: u32) -> Option<nat> {
    if code == 0 {
        Some(0)
    } else if code == 1 {
        Some(1)
    } else if code == 2 {
        Some(3)
    } else if code == 3 {
        Some(5)
    } else if code == 4 {
        Some(6)
    } else {
        None
    }
}

impl CqFormat {
    /// The number of fields of this format's entries: none fixed for `Unspec`, the context
    /// for `Context`, with flags and length for `Msg`, with buffer and data too for `Data`,
    /// with the tag too for `Tagged`.
    pub open spec fn entry_fields(self) -> nat {
        match self {
            CqFormat::Unspec => 0,
            CqFormat::Context => 1,
            CqFormat::Msg => 3,
            CqFormat::Data => 5,
            CqFormat::Tagged => 6,
        }
    }
}

impl Completion {
    /// The number of fields of the entries the buffer holds, as its entry type has them:
    /// `CtxEntry` 1, `MsgEntry` 3, `DataEntry` 5, `TaggedEntry` 6.
    pub open spec fn entry_field_count(self) -> nat {
        match self {
            Completion::Unspec(_) => 1,
            Completion::Ctx(_) => 1,
            Completion::Msg(_) => 3,
            Completion::Data(_) => 5,
            Completion::Tagged(_) => 6,
        }
    }
}

/// Every queue format is opened as the `fi_cq_format` with its entry layout, and every
/// number that decodes to a format names the format with that layout; a read buffer of a
/// fixed format holds entries of the layout that the format's encoding names.
pub proof fn law_cq_format_encoding(format: CqFormat, code: u32, buffer: Completion)
    ensures
        fi_cq_format_fields(format.raw_value()) == Some(format.entry_fields()),
        CqFormat::decode(code) matches Some(d) ==> fi_cq_format_fields(code) == Some(d.entry_fields()),
        fi_cq_format_fields(code) is Some ==> CqFormat::decode(code) is Some,
        buffer.format() != CqFormat::Unspec ==> fi_cq_format_fields(buffer.format().raw_value()) == Some(
            buffer.entry_field_count(),
        ),
{
}

//================== Progress models ==================//

/// Who drives the progress of operations.
#[derive(Clone, Copy, Debug, PartialEq, Eq, Structural)]
pub enum ProgressDriver {
    /// The provider chooses.
    Unspecified,
    /// The provider makes progress without the application calling into it.
    Provider,
    /// The application must call into the provider for operations to progress.
    Application,
}

/// The progress model of `fi_progress` number `code`: 0 `FI_PROGRESS_UNSPEC`,
/// 1 `FI_PROGRESS_AUTO` (the provider drives progress), 2 `FI_PROGRESS_MANUAL` (the
/// application drives it); `None` for a number that names no model.
pub open spec fn fi_progress_driver(code: u32) -> Option<ProgressDriver> {
    if code == 0 {
        Some(ProgressDriver::Unspecified)
    } else if code == 1 {
        Some(ProgressDriver::Provider)
    } else if code == 2 {
        Some(ProgressDriver::Application)
    } else {
        None
    }
}

impl Progress {
    /// Who drives progress under this model: the provider under `Auto`, the application
    /// under `Manual`.
    pub open spec fn driver(self) -> ProgressDriver {
        match self {
            Progress::Unspec => ProgressDriver::Unspecified,
            Progress::Auto => ProgressDriver::Provider,
            Progress::Manual => ProgressDriver::Application,
        }
    }
}

/// Every progress model is encoded as the `fi_progress` with the same driver, and a number
/// that a provider reports decodes to the model with the driver the number names.
pub proof fn law_progress_encoding(p: Progress, code: u32)
    ensures
        fi_progress_driver(p.raw_value()) == Some(p.driver()),
        Progress::decode(code) matches Some(d) ==> fi_progress_driver(code) == Some(d.driver()),
        fi_progress_driver(code) is Some ==> Progress::decode(code) is Some,
{
}

//================== Data types ==================//

/// The kind of number an element is.
#[derive(Clone, Copy, Debug, PartialEq, Eq, Structural)]
pub enum NumberKind {
    Signed,
    Unsigned,
    Real,
    Complex,
    /// C's `long double`, whose width the platform decides.
    LongReal,
    /// A complex number of two `long double`s.
    LongComplex,
    /// No element at all (`FI_VOID`).
    Nothing,
}

/// The elements an `fi_datatype` describes: their kind and width in bits (0 where the
/// platform decides or there is no element).
#[derive(Clone, Copy, Debug, PartialEq, Eq, Structural)]
pub struct Element {
    pub kind: NumberKind,
    pub bits: u32,
}

/// The elements of `fi_datatype` number `code`: 0 `FI_INT8`, 1 `FI_UINT8`, 2 `FI_INT16`,
/// 3 `FI_UINT16`, 4 `FI_INT32`, 5 `FI_UINT32`, 6 `FI_INT64`, 7 `FI_UINT64`, 8 `FI_FLOAT`,
/// 9 `FI_DOUBLE`, 10 `FI_FLOAT_COMPLEX`, 11 `FI_DOUBLE_COMPLEX`, 12 `FI_LONG_DOUBLE`,
/// 13 `FI_LONG_DOUBLE_COMPLEX`, 14 `FI_INT128` (which took the number of
/// `FI_DATATYPE_LAST`), 15 `FI_UINT128`, 256 `FI_VOID`; `None` for a number that names no
/// data type.
pub open spec fn fi_datatype_element(code: u32) -> Option<Element> {
    if code == 0 {
        Some(Element { kind: NumberKind::Signed, bits: 8 })
    } else if code == 1 {
        Some(Element { kind: NumberKind::Unsigned, bits: 8 })
    } else if code == 2 {
        Some(Element { kind: NumberKind::Signed, bits: 16 })
    } else if code == 3 {
        Some(Element { kind: NumberKind::Unsigned, bits: 16 })
    } else if code == 4 {
        Some(Element { kind: NumberKind::Signed, bits: 32 })
    } else if code == 5 {
        Some(Element { kind: NumberKind::Unsigned, bits: 32 })
    } else if code == 6 {
        Some(Element { kind: NumberKind::Signed, bits: 64 })
    } else if code == 7 {
        Some(Element { kind: NumberKind::Unsigned, bits: 64 })
    } else if code == 8 {
        Some(Element { kind: NumberKind::Real, bits: 32 })
    } else if code == 9 {
        Some(Element { kind: NumberKind::Real, bits: 64 })
    } else if code == 10 {
        Some(Element { kind: NumberKind::Complex, bits: 64 })
    } else if code == 11 {
        Some(Element { kind: NumberKind::Complex, bits: 128 })
    } else if code == 12 {
        Some(Element { kind: NumberKind::LongReal, bits: 0 })
    } else if code == 13 {
        Some(Element { kind: NumberKind::LongComplex, bits: 0 })
    } else if code == 14 {
        Some(Element { kind: NumberKind::Signed, bits: 128 })
    } else if code == 15 {
        Some(Element { kind: NumberKind::Unsigned, bits: 128 })
    } else if code == 256 {
        Some(Element { kind: NumberKind::Nothing, bits: 0 })
    } else {
        None
    }
}

impl DataType {
    /// The elements the data type describes: signed or unsigned integers of 8 to 128 bits,
    /// single and double precision reals and complex numbers (two of them), `long double`
    /// reals and complex numbers, or nothing (`Void`). `DatatypeLast` names the signed
    /// 128-bit integers, whose number it shares.
    pub open spec fn element(self) -> Element {
        match self {
            DataType::Int8 => Element { kind: NumberKind::Signed, bits: 8 },
            DataType::Uint8 => Element { kind: NumberKind::Unsigned, bits: 8 },
            DataType::Int16 => Element { kind: NumberKind::Signed, bits: 16 },
            DataType::Uint16 => Element { kind: NumberKind::Unsigned, bits: 16 },
            DataType::Int32 => Element { kind: NumberKind::Signed, bits: 32 },
            DataType::Uint32 => Element { kind: NumberKind::Unsigned, bits: 32 },
            DataType::Int64 => Element { kind: NumberKind::Signed, bits: 64 },
            DataType::Uint64 => Element { kind: NumberKind::Unsigned, bits: 64 },
            DataType::Float => Element { kind: NumberKind::Real, bits: 32 },
            DataType::Double => Element { kind: NumberKind::Real, bits: 64 },
            DataType::FloatComplex => Element { kind: NumberKind::Complex, bits: 64 },
            DataType::DoubleComplex => Element { kind: NumberKind::Complex, bits: 128 },
            DataType::LongDouble => Element { kind: NumberKind::LongReal, bits: 0 },
            DataType::LongDoubleComplex => Element { kind: NumberKind::LongComplex, bits: 0 },
            DataType::DatatypeLast => Element { kind: NumberKind::Signed, bits: 128 },
            DataType::Int128 => Element { kind: NumberKind::Signed, bits: 128 },
            DataType::Uint28 => Element { kind: NumberKind::Unsigned, bits: 128 },
            DataType::Void => Element { kind: NumberKind::Nothing, bits: 0 },
        }
    }
}

/// Every data type is sent as the `fi_datatype` of the same elements, and every number that
/// decodes to a data type names that type's elements.
pub proof fn law_datatype_encoding(t: DataType, code: u32)
    ensures
        fi_datatype_element(t.raw_value()) == Some(t.element()),
        DataType::decode(code) matches Some(d) ==> fi_datatype_element(code) == Some(d.element()),
        fi_datatype_element(code) is Some ==> DataType::decode(code) is Some,
{
}

/// The `fi_datatype` of a Rust integer describes integers of its signedness and of its
/// size in bits; a `bool` travels as an unsigned byte.
pub proof fn law_rust_integer_datatypes()
    ensures
        fi_datatype_element(<i8 as AsFiType>::fi_datatype().raw_value())
            == Some(Element { kind: NumberKind::Signed, bits: (8 * vstd::layout::size_of::<i8>()) as u32 }),
        fi_datatype_element(<u8 as AsFiType>::fi_datatype().raw_value())
            == Some(Element { kind: NumberKind::Unsigned, bits: (8 * vstd::layout::size_of::<u8>()) as u32 }),
        fi_datatype_element(<i16 as AsFiType>::fi_datatype().raw_value())
            == Some(Element { kind: NumberKind::Signed, bits: (8 * vstd::layout::size_of::<i16>()) as u32 }),
        fi_datatype_element(<u16 as AsFiType>::fi_datatype().raw_value())
            == Some(Element { kind: NumberKind::Unsigned, bits: (8 * vstd::layout::size_of::<u16>()) as u32 }),
        fi_datatype_element(<i32 as AsFiType>::fi_datatype().raw_value())
            == Some(Element { kind: NumberKind::Signed, bits: (8 * vstd::layout::size_of::<i32>()) as u32 }),
        fi_datatype_element(<u32 as AsFiType>::fi_datatype().raw_value())
            == Some(Element { kind: NumberKind::Unsigned, bits: (8 * vstd::layout::size_of::<u32>()) as u32 }),
        fi_datatype_element(<i64 as AsFiType>::fi_datatype().raw_value())
            == Some(Element { kind: NumberKind::Signed, bits: (8 * vstd::layout::size_of::<i64>()) as u32 }),
        fi_datatype_element(<u64 as AsFiType>::fi_datatype().raw_value())
            == Some(Element { kind: NumberKind::Unsigned, bits: (8 * vstd::layout::size_of::<u64>()) as u32 }),
        fi_datatype_element(<i128 as AsFiType>::fi_datatype().raw_value())
            == Some(Element { kind: NumberKind::Signed, bits: (8 * vstd::layout::size_of::<i128>()) as u32 }),
        fi_datatype_element(<u128 as AsFiType>::fi_datatype().raw_value())
            == Some(Element { kind: NumberKind::Unsigned, bits: (8 * vstd::layout::size_of::<u128>()) as u32 }),
        fi_datatype_element(<bool as AsFiType>::fi_datatype().raw_value())
            == Some(Element { kind: NumberKind::Unsigned, bits: (8 * vstd::layout::size_of::<bool>()) as u32 }),
{
    broadcast use vstd::layout::layout_of_primitives;
}

//================== Collective operations ==================//

/// How a collective moves data among the members of a group.
#[derive(Clone, Copy, Debug, PartialEq, Eq, Structural)]
pub struct DataFlow {
    /// Data moves at all (a barrier only synchronises).
    pub moves_data: bool,
    /// One member, the root, is the source or the destination of the data.
    pub rooted: bool,
    /// The root sends (rather than receives) the data.
    pub root_sends: bool,
    /// Values are combined by a reduction.
    pub combines: bool,
    /// Each member gets its own part of the data rather than all of it.
    pub splits: bool,
}

/// The data flow of the collective `fi_collective_op` number `code`: 0 `FI_BARRIER`,
/// 1 `FI_BROADCAST`, 2 `FI_ALLTOALL`, 3 `FI_ALLREDUCE`, 4 `FI_ALLGATHER`,
/// 5 `FI_REDUCE_SCATTER`, 6 `FI_REDUCE`, 7 `FI_SCATTER`, 8 `FI_GATHER`; `None` for a number
/// that names no collective.
pub open spec fn fi_collective_flow(code: u32) -> Option<DataFlow> {
    if code == 0 {
        Some(DataFlow { moves_data: false, rooted: false, root_sends: false, combines: false, splits: false })
    } else if code == 1 {
        Some(DataFlow { moves_data: true, rooted: true, root_sends: true, combines: false, splits: false })
    } else if code == 2 {
        Some(DataFlow { moves_data: true, rooted: false, root_sends: false, combines: false, splits: true })
    } else if code == 3 {
        Some(DataFlow { moves_data: true, rooted: false, root_sends: false, combines: true, splits: false })
    } else if code == 4 {
        Some(DataFlow { moves_data: true, rooted: false, root_sends: false, combines: false, splits: false })
    } else if code == 5 {
        Some(DataFlow { moves_data: true, rooted: false, root_sends: false, combines: true, splits: true })
    } else if code == 6 {
        Some(DataFlow { moves_data: true, rooted: true, root_sends: false, combines: true, splits: false })
    } else if code == 7 {
        Some(DataFlow { moves_data: true, rooted: true, root_sends: true, combines: false, splits: true })
    } else if code == 8 {
        Some(DataFlow { moves_data: true, rooted: true, root_sends: false, combines: false, splits: false })
    } else {
        None
    }
}

impl CollectiveOp {
    /// How the collective moves data: a barrier moves none; a broadcast sends the root's
    /// data to all and a scatter a part to each; a gather and a reduce bring every member's
    /// data, the latter combined, to the root; an all-to-all sends each member a part from
    /// every other; an all-gather gives every member all the data, an all-reduce all of it
    /// combined, and a reduce-scatter a part of it combined.
    pub open spec fn flow(self) -> DataFlow {
        match self {
            CollectiveOp::Barrier => DataFlow { moves_data: false, rooted: false, root_sends: false, combines: false, splits: false },
            CollectiveOp::Broadcast => DataFlow { moves_data: true, rooted: true, root_sends: true, combines: false, splits: false },
            CollectiveOp::AllToAll => DataFlow { moves_data: true, rooted: false, root_sends: false, combines: false, splits: true },
            CollectiveOp::AllReduce => DataFlow { moves_data: true, rooted: false, root_sends: false, combines: true, splits: false },
            CollectiveOp::AllGather => DataFlow { moves_data: true, rooted: false, root_sends: false, combines: false, splits: false },
            CollectiveOp::ReduceScatter => DataFlow { moves_data: true, rooted: false, root_sends: false, combines: true, splits: true },
            CollectiveOp::Reduce => DataFlow { moves_data: true, rooted: true, root_sends: false, combines: true, splits: false },
            CollectiveOp::Scatter => DataFlow { moves_data: true, rooted: true, root_sends: true, combines: false, splits: true },
            CollectiveOp::Gather => DataFlow { moves_data: true, rooted: true, root_sends: false, combines: false, splits: false },
        }
    }
}

/// Every collective is sent as the `fi_collective_op` that moves data the same way, and
/// every number that decodes to a collective names that collective's data flow.
pub proof fn law_collective_op_encoding(op: CollectiveOp, code: u32)
    ensures
        fi_collective_flow(op.raw_value()) == Some(op.flow()),
        CollectiveOp::decode(code) matches Some(d) ==> fi_collective_flow(code) == Some(d.flow()),
        fi_collective_flow(code) is Some ==> CollectiveOp::decode(code) is Some,
{
}

//================== Domain attributes ==================//

/// What the application must serialise under a threading model.
#[derive(Clone, Copy, Debug, PartialEq, Eq, Structural)]
pub enum Serialization {
    /// The provider chooses.
    Unspecified,
    /// Nothing: every object may be used from any thread at once.
    Nothing,
    /// Calls on the same object.
    PerObject,
    /// Calls within the same domain.
    PerDomain,
    /// Calls that share a completion context.
    PerCompletion,
    /// Calls on the same endpoint.
    PerEndpoint,
}

/// What `fi_threading` number `code` asks the application to serialise: 0
/// `FI_THREAD_UNSPEC`, 1 `FI_THREAD_SAFE`, 2 `FI_THREAD_FID`, 3 `FI_THREAD_DOMAIN`,
/// 4 `FI_THREAD_COMPLETION`, 5 `FI_THREAD_ENDPOINT`; `None` for a number that names no
/// model.
pub open spec fn fi_threading_serialization(code: u32) -> Option<Serialization> {
    if code == 0 {
        Some(Serialization::Unspecified)
    } else if code == 1 {
        Some(Serialization::Nothing)
    } else if code == 2 {
        Some(Serialization::PerObject)
    } else if code == 3 {
        Some(Serialization::PerDomain)
    } else if code == 4 {
        Some(Serialization::PerCompletion)
    } else if code == 5 {
        Some(Serialization::PerEndpoint)
    } else {
        None
    }
}

impl Threading {
    /// What the application must serialise: nothing under `Safe`, calls on one object
    /// under `Fid`, within one domain under `Domain`, sharing a completion context under
    /// `Completion`, on one endpoint under `Endpoint`.
    pub open spec fn serialization(self) -> Serialization {
        match self {
            Threading::Unspec => Serialization::Unspecified,
            Threading::Safe => Serialization::Nothing,
            Threading::Fid => Serialization::PerObject,
            Threading::Domain => Serialization::PerDomain,
            Threading::Completion => Serialization::PerCompletion,
            Threading::Endpoint => Serialization::PerEndpoint,
        }
    }
}

/// Every threading model is encoded as the `fi_threading` that asks the same
/// serialisation, and a number a provider reports decodes to the model it names.
pub proof fn law_threading_encoding(t: Threading, code: u32)
    ensures
        fi_threading_serialization(t.raw_value()) == Some(t.serialization()),
        Threading::decode(code) matches Some(d) ==> fi_threading_serialization(code) == Some(d.serialization()),
        fi_threading_serialization(code) is Some ==> Threading::decode(code) is Some,
{
}

/// Whether the provider protects the application against overruns under
/// `fi_resource_mgmt` number `code`: 0 `FI_RM_UNSPEC` (the provider chooses, `None`),
/// 1 `FI_RM_DISABLED` (no), 2 `FI_RM_ENABLED` (yes); `None` for a number that names no
/// setting.
pub open spec fn fi_rm_protects(code: u32) -> Option<Option<bool>> {
    if code == 0 {
        Some(None)
    } else if code == 1 {
        Some(Some(false))
    } else if code == 2 {
        Some(Some(true))
    } else {
        None
    }
}

impl ResourceMgmt {
    /// Whether the provider protects against overruns: yes when `Enabled`, no when
    /// `Disabled`, the provider's choice when `Unspec`.
    pub open spec fn protects(self) -> Option<bool> {
        match self {
            ResourceMgmt::Unspec => None,
            ResourceMgmt::Disabled => Some(false),
            ResourceMgmt::Enabled => Some(true),
        }
    }
}

/// Every resource-management setting is encoded as the `fi_resource_mgmt` with the same
/// protection, and a number a provider reports decodes to the setting it names.
pub proof fn law_resource_mgmt_encoding(r: ResourceMgmt, code: u32)
    ensures
        fi_rm_protects(r.raw_value()) == Some(r.protects()),
        ResourceMgmt::decode(code) matches Some(d) ==> fi_rm_protects(code) == Some(d.protects()),
        fi_rm_protects(code) is Some ==> ResourceMgmt::decode(code) is Some,
{
}

/// How an address vector names its peers.
#[derive(Clone, Copy, Debug, PartialEq, Eq, Structural)]
pub enum PeerNaming {
    /// The provider chooses.
    Unspecified,
    /// By provider-specific addresses that the insertion maps to.
    MappedAddresses,
    /// By consecutive indices in the order of insertion.
    Indices,
}

/// How an address vector of `fi_av_type` number `code` names peers: 0 `FI_AV_UNSPEC`,
/// 1 `FI_AV_MAP`, 2 `FI_AV_TABLE`; `None` for a number that names no type.
pub open spec fn fi_av_naming(code: u32) -> Option<PeerNaming> {
    if code == 0 {
        Some(PeerNaming::Unspecified)
    } else if code == 1 {
        Some(PeerNaming::MappedAddresses)
    } else if code == 2 {
        Some(PeerNaming::Indices)
    } else {
        None
    }
}

impl AddressVectorType {
    /// How the address vector names peers: by mapped addresses (`AvMap`) or by indices
    /// (`Table`).
    pub open spec fn naming(self) -> PeerNaming {
        match self {
            AddressVectorType::Unspec => PeerNaming::Unspecified,
            AddressVectorType::AvMap => PeerNaming::MappedAddresses,
            AddressVectorType::Table => PeerNaming::Indices,
        }
    }
}

/// Every address vector type is encoded as the `fi_av_type` that names peers the same way,
/// and a number a provider reports decodes to the type it names.
pub proof fn law_av_type_encoding(t: AddressVectorType, code: u32)
    ensures
        fi_av_naming(t.raw_value()) == Some(t.naming()),
        AddressVectorType::decode(code) matches Some(d) ==> fi_av_naming(code) == Some(d.naming()),
        fi_av_naming(code) is Some ==> AddressVectorType::decode(code) is Some,
{
}

/// The service a traffic class asks for.
#[derive(Clone, Copy, Debug, PartialEq, Eq, Structural)]
pub enum Service {
    /// The provider chooses.
    Unspecified,
    /// A DSCP value carried in the low bits.
    Dscp,
    /// A provider-defined label, or best effort.
    BestEffort,
    LowLatency,
    DedicatedAccess,
    BulkData,
    Scavenger,
    NetworkControl,
}

/// The service of `fi_tc` number `code`: 0 `FI_TC_UNSPEC`, 0x100 `FI_TC_DSCP`, 0x200
/// `FI_TC_LABEL` (also `FI_TC_BEST_EFFORT`), 0x201 `FI_TC_LOW_LATENCY`, 0x202
/// `FI_TC_DEDICATED_ACCESS`, 0x203 `FI_TC_BULK_DATA`, 0x204 `FI_TC_SCAVENGER`, 0x205
/// `FI_TC_NETWORK_CTRL`; `None` for a number that names no class.
pub open spec fn fi_tc_service(code: u32) -> Option<Service> {
    if code == 0 {
        Some(Service::Unspecified)
    } else if code == 0x100 {
        Some(Service::Dscp)
    } else if code == 0x200 {
        Some(Service::BestEffort)
    } else if code == 0x201 {
        Some(Service::LowLatency)
    } else if code == 0x202 {
        Some(Service::DedicatedAccess)
    } else if code == 0x203 {
        Some(Service::BulkData)
    } else if code == 0x204 {
        Some(Service::Scavenger)
    } else if code == 0x205 {
        Some(Service::NetworkControl)
    } else {
        None
    }
}

impl TrafficClass {
    /// The service the class asks for; `Label` and `BestEffort` share theirs.
    pub open spec fn service(self) -> Service {
        match self {
            TrafficClass::Unspec => Service::Unspecified,
            TrafficClass::Dscp => Service::Dscp,
            TrafficClass::Label => Service::BestEffort,
            TrafficClass::BestEffort => Service::BestEffort,
            TrafficClass::LowLatency => Service::LowLatency,
            TrafficClass::DedicatedAccess => Service::DedicatedAccess,
            TrafficClass::BulkData => Service::BulkData,
            TrafficClass::Scavenger => Service::Scavenger,
            TrafficClass::NetworkCtrl => Service::NetworkControl,
        }
    }
}

/// Every traffic class is encoded as the `fi_tc` of the same service, and a number a
/// provider reports decodes to a class of the service it names.
pub proof fn law_traffic_class_encoding(t: TrafficClass, code: u32)
    ensures
        fi_tc_service(t.raw_value()) == Some(t.service()),
        TrafficClass::decode(code) matches Some(d) ==> fi_tc_service(code) == Some(d.service()),
        fi_tc_service(code) is Some ==> TrafficClass::decode(code) is Some,
{
}

//================== Endpoints and waiting ==================//

/// The kind of communication an endpoint type provides.
#[derive(Clone, Copy, Debug, PartialEq, Eq, Structural)]
pub struct Transport {
    /// The provider chooses.
    pub unspecified: bool,
    /// The endpoint is connected to one peer.
    pub connected: bool,
    /// Delivery is reliable.
    pub reliable: bool,
}

/// The transport of `fi_ep_type` number `code`: 0 `FI_EP_UNSPEC`, 1 `FI_EP_MSG` (connected
/// and reliable), 2 `FI_EP_DGRAM` (connectionless, unreliable), 3 `FI_EP_RDM`
/// (connectionless, reliable); `None` for a number that names no type.
pub open spec fn fi_ep_transport(code: u32) -> Option<Transport> {
    if code == 0 {
        Some(Transport { unspecified: true, connected: false, reliable: false })
    } else if code == 1 {
        Some(Transport { unspecified: false, connected: true, reliable: true })
    } else if code == 2 {
        Some(Transport { unspecified: false, connected: false, reliable: false })
    } else if code == 3 {
        Some(Transport { unspecified: false, connected: false, reliable: true })
    } else {
        None
    }
}

impl EndpointType {
    /// The transport: connected and reliable for `Msg`, connectionless and unreliable for
    /// `Dgram`, connectionless and reliable for `Rdm`.
    pub open spec fn transport(self) -> Transport {
        match self {
            EndpointType::Unspec => Transport { unspecified: true, connected: false, reliable: false },
            EndpointType::Msg => Transport { unspecified: false, connected: true, reliable: true },
            EndpointType::Dgram => Transport { unspecified: false, connected: false, reliable: false },
            EndpointType::Rdm => Transport { unspecified: false, connected: false, reliable: true },
        }
    }
}

/// Every endpoint type is encoded as the `fi_ep_type` of the same transport, and every
/// number that decodes to a type names its transport.
pub proof fn law_endpoint_type_encoding(t: EndpointType, code: u32)
    ensures
        fi_ep_transport(t.raw_value()) == Some(t.transport()),
        EndpointType::decode(code) matches Some(d) ==> fi_ep_transport(code) == Some(d.transport()),
        fi_ep_transport(code) is Some ==> EndpointType::decode(code) is Some,
{
}

/// How a blocking call waits.
#[derive(Clone, Copy, Debug, PartialEq, Eq, Structural)]
pub enum Waiting {
    /// It does not: blocking calls are not supported.
    NotAtAll,
    /// The provider chooses.
    Unspecified,
    /// On a wait set shared with other objects.
    OnWaitSet,
    /// On a file descriptor.
    OnFd,
    /// On a pthread mutex and condition.
    OnMutexCond,
    /// By yielding the processor.
    ByYielding,
    /// On a set of file descriptors to poll.
    OnPollFds,
}

/// How an object with `fi_wait_obj` number `code` waits: 0 `FI_WAIT_NONE`,
/// 1 `FI_WAIT_UNSPEC`, 2 `FI_WAIT_SET`, 3 `FI_WAIT_FD`, 4 `FI_WAIT_MUTEX_COND`,
/// 5 `FI_WAIT_YIELD`, 6 `FI_WAIT_POLLFD`; `None` for a number that names no wait object.
pub open spec fn fi_wait_obj_waiting(code: u32) -> Option<Waiting> {
    if code == 0 {
        Some(Waiting::NotAtAll)
    } else if code == 1 {
        Some(Waiting::Unspecified)
    } else if code == 2 {
        Some(Waiting::OnWaitSet)
    } else if code == 3 {
        Some(Waiting::OnFd)
    } else if code == 4 {
        Some(Waiting::OnMutexCond)
    } else if code == 5 {
        Some(Waiting::ByYielding)
    } else if code == 6 {
        Some(Waiting::OnPollFds)
    } else {
        None
    }
}

impl WaitObj {
    /// How an object with this wait object waits.
    pub open spec fn waiting(self) -> Waiting {
        match self {
            WaitObj::NoWait => Waiting::NotAtAll,
            WaitObj::Unspec => Waiting::Unspecified,
            WaitObj::WaitSet(_) => Waiting::OnWaitSet,
            WaitObj::Fd => Waiting::OnFd,
            WaitObj::MutexCond => Waiting::OnMutexCond,
            WaitObj::Yield => Waiting::ByYielding,
            WaitObj::PollFd => Waiting::OnPollFds,
        }
    }
}

/// Every wait object is encoded as the `fi_wait_obj` that waits the same way.
pub proof fn law_wait_obj_encoding(w: WaitObj)
    ensures
        fi_wait_obj_waiting(w.raw_value()) == Some(w.waiting()),
{
}

/// Whether a blocking read under `fi_cq_wait_cond` number `code` waits for a threshold of
/// entries: 0 `FI_CQ_COND_NONE` (no: it returns on the first), 1 `FI_CQ_COND_THRESHOLD`
/// (yes); `None` for a number that names no condition.
pub open spec fn fi_cq_cond_thresholded(code: u32) -> Option<bool> {
    if code == 0 {
        Some(false)
    } else if code == 1 {
        Some(true)
    } else {
        None
    }
}

impl WaitCond {
    /// Whether a blocking read waits for a threshold of entries (`Threshold`) rather than
    /// returning on the first (`CondNone`).
    pub open spec fn thresholded(self) -> bool {
        match self {
            WaitCond::CondNone => false,
            WaitCond::Threshold => true,
        }
    }
}

/// Every wait condition is encoded as the `fi_cq_wait_cond` with the same threshold
/// behaviour, and every number that decodes to a condition names that behaviour.
pub proof fn law_wait_cond_encoding(c: WaitCond, code: u32)
    ensures
        fi_cq_cond_thresholded(c.raw_value()) == Some(c.thresholded()),
        WaitCond::decode(code) matches Some(d) ==> fi_cq_cond_thresholded(code) == Some(d.thresholded()),
        fi_cq_cond_thresholded(code) is Some ==> WaitCond::decode(code) is Some,
{
}

impl WaitObj2 {
    /// How an object with this wait object waits.
    pub open spec fn waiting(self) -> Waiting {
        match self {
            WaitObj2::Unspec => Waiting::Unspecified,
            WaitObj2::Fd => Waiting::OnFd,
            WaitObj2::MutexCond => Waiting::OnMutexCond,
            WaitObj2::Yield => Waiting::ByYielding,
            WaitObj2::PollFd => Waiting::OnPollFds,
        }
    }
}

/// Every wait object of a counter, event queue or wait set is encoded as the
/// `fi_wait_obj` that waits the same way, and every number that decodes to one names how it
/// waits.
pub proof fn law_wait_obj2_encoding(w: WaitObj2, code: u32)
    ensures
        fi_wait_obj_waiting(w.raw_value()) == Some(w.waiting()),
        WaitObj2::decode(code) matches Some(d) ==> fi_wait_obj_waiting(code) == Some(d.waiting()),
{
}

//================== Options ==================//

/// Whether peer-to-peer transfers between device memories are used.
#[derive(Clone, Copy, Debug, PartialEq, Eq, Structural)]
pub enum P2pUse {
    /// The provider may use them.
    Allowed,
    /// The provider must use them, or fail.
    Required,
    /// The provider should use them where it can.
    Preferred,
    /// The provider must not use them.
    Forbidden,
}

/// The peer-to-peer policy of `FI_OPT_FI_HMEM_P2P` value `code`: 0 `FI_HMEM_P2P_ENABLED`,
/// 1 `FI_HMEM_P2P_REQUIRED`, 2 `FI_HMEM_P2P_PREFERRED`, 3 `FI_HMEM_P2P_DISABLED`; `None`
/// for a number that names no policy.
pub open spec fn fi_hmem_p2p_use(code: u32) -> Option<P2pUse> {
    if code == 0 {
        Some(P2pUse::Allowed)
    } else if code == 1 {
        Some(P2pUse::Required)
    } else if code == 2 {
        Some(P2pUse::Preferred)
    } else if code == 3 {
        Some(P2pUse::Forbidden)
    } else {
        None
    }
}

impl HmemP2p {
    /// The peer-to-peer policy: allowed when `Enabled`, required, preferred, or forbidden
    /// when `Disabled`.
    pub open spec fn p2p_use(self) -> P2pUse {
        match self {
            HmemP2p::Enabled => P2pUse::Allowed,
            HmemP2p::Required => P2pUse::Required,
            HmemP2p::Preferred => P2pUse::Preferred,
            HmemP2p::Disabled => P2pUse::Forbidden,
        }
    }
}

/// Every peer-to-peer setting is encoded as the value with the same policy, and every
/// number that decodes to a setting names its policy.
pub proof fn law_hmem_p2p_encoding(p: HmemP2p, code: u32)
    ensures
        fi_hmem_p2p_use(p.raw_value()) == Some(p.p2p_use()),
        HmemP2p::decode(code) matches Some(d) ==> fi_hmem_p2p_use(code) == Some(d.p2p_use()),
        fi_hmem_p2p_use(code) is Some ==> HmemP2p::decode(code) is Some,
{
}

/// Whether a counter of `fi_cntr_events` number `code` counts bytes (1
/// `FI_CNTR_EVENTS_BYTES`) rather than completed operations (0 `FI_CNTR_EVENTS_COMP`);
/// `None` for a number that names no event kind.
pub open spec fn fi_cntr_counts_bytes(code: u32) -> Option<bool> {
    if code == 0 {
        Some(false)
    } else if code == 1 {
        Some(true)
    } else {
        None
    }
}

impl CounterEvents {
    /// Whether the counter counts bytes (`Bytes`) rather than completions (`Comp`).
    pub open spec fn counts_bytes(self) -> bool {
        match self {
            CounterEvents::Comp => false,
            CounterEvents::Bytes => true,
        }
    }
}

/// Every counter event kind is encoded as the `fi_cntr_events` that counts the same thing,
/// and every number that decodes to a kind names what it counts.
pub proof fn law_counter_events_encoding(e: CounterEvents, code: u32)
    ensures
        fi_cntr_counts_bytes(e.raw_value()) == Some(e.counts_bytes()),
        CounterEvents::decode(code) matches Some(d) ==> fi_cntr_counts_bytes(code) == Some(d.counts_bytes()),
        fi_cntr_counts_bytes(code) is Some ==> CounterEvents::decode(code) is Some,
{
}

/// The C type of a parameter's value.
#[derive(Clone, Copy, Debug, PartialEq, Eq, Structural)]
pub enum ParamValue {
    CString,
    CInt,
    CBool,
    CSize,
}

/// The value type of `fi_param_type` number `code`: 0 `FI_PARAM_STRING` (`char *`),
/// 1 `FI_PARAM_INT` (`int`), 2 `FI_PARAM_BOOL` (`int` read as a truth value),
/// 3 `FI_PARAM_SIZE_T` (`size_t`); `None` for a number that names no type.
pub open spec fn fi_param_value(code: u32) -> Option<ParamValue> {
    if code == 0 {
        Some(ParamValue::CString)
    } else if code == 1 {
        Some(ParamValue::CInt)
    } else if code == 2 {
        Some(ParamValue::CBool)
    } else if code == 3 {
        Some(ParamValue::CSize)
    } else {
        None
    }
}

impl ParamType {
    /// The C type of a parameter of this type.
    pub open spec fn value(self) -> ParamValue {
        match self {
            ParamType::String => ParamValue::CString,
            ParamType::Int => ParamValue::CInt,
            ParamType::Bool => ParamValue::CBool,
            ParamType::SizeT => ParamValue::CSize,
        }
    }
}

/// Every parameter type is encoded as the `fi_param_type` of the same C type, and every
/// number that decodes to a type names that C type.
pub proof fn law_param_type_encoding(t: ParamType, code: u32)
    ensures
        fi_param_value(t.raw_value()) == Some(t.value()),
        ParamType::decode(code) matches Some(d) ==> fi_param_value(code) == Some(d.value()),
        fi_param_value(code) is Some ==> ParamType::decode(code) is Some,
{
}

} // verus!
