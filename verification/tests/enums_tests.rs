use libfabric::enums::{
    AtomicOp, CollAtomicOp, CompareAtomicOp, CqFormat, DataType, Dscp, FetchAtomicOp, HmemIface, Threading,
    TrafficClass, TriggerEvent, TriggerThreshold, WaitObj,
};

#[test]
fn atomic_op_encodings() {
    assert_eq!(AtomicOp::Min.as_raw(), 0);
    assert_eq!(AtomicOp::Max.as_raw(), 1);
    assert_eq!(AtomicOp::Sum.as_raw(), 2);
    assert_eq!(AtomicOp::Bxor.as_raw(), 9);
    assert_eq!(FetchAtomicOp::AtomicRead.as_raw(), 10);
    assert_eq!(CompareAtomicOp::Cswap.as_raw(), 12);
    assert_eq!(CompareAtomicOp::Mswap.as_raw(), 18);
    assert_eq!(CollAtomicOp::Sum.as_raw(), 2);
}

#[test]
fn enum_round_trips() {
    for v in [Dscp::CS0, Dscp::AF11, Dscp::EF, Dscp::LowerEffort] {
        assert_eq!(Dscp::from_raw(v.as_raw()), v);
    }
    assert_eq!(Dscp::EF.as_raw(), 46);
    for v in [CqFormat::Unspec, CqFormat::Context, CqFormat::Msg, CqFormat::Data, CqFormat::Tagged] {
        assert_eq!(CqFormat::from_raw(v.as_raw()), v);
    }
    assert_eq!(Threading::from_raw(Threading::Domain.as_raw()), Threading::Domain);
}

#[test]
fn unknown_encodings_do_not_decode() {
    assert_eq!(Dscp::try_from_raw(2), None);
    assert_eq!(Dscp::try_from_raw(46), Some(Dscp::EF));
    assert_eq!(CqFormat::try_from_raw(99), None);
    assert_eq!(AtomicOp::try_from_raw(12), None);
}

#[test]
fn data_type_encodings_and_aliases() {
    assert_eq!(DataType::Int8.as_raw(), 0);
    assert_eq!(DataType::Uint8.as_raw(), 1);
    assert_eq!(DataType::Uint64.as_raw(), 7);
    assert_eq!(DataType::Int128.as_raw(), DataType::DatatypeLast.as_raw());
    assert_eq!(DataType::from_raw(DataType::Int128.as_raw()), DataType::DatatypeLast);
}

#[test]
fn traffic_class_from_dscp_and_back() {
    let tc = TrafficClass::from_dscp(Dscp::CS0);
    assert_eq!(Dscp::from_traffic_class(tc), Dscp::CS0);
    assert_eq!(Dscp::from_traffic_class(TrafficClass::LowLatency), Dscp::CS0);
}

#[test]
fn wait_obj_and_trigger_encodings() {
    assert_eq!(WaitObj::NoWait.as_raw(), libfabric::consts::FI_WAIT_NONE);
    assert_eq!(WaitObj::WaitSet(7).as_raw(), libfabric::consts::FI_WAIT_SET);
    let t = TriggerEvent::Threshold(TriggerThreshold { cntr: 5, threshold: 3 });
    assert_eq!(t.as_raw(), libfabric::consts::FI_TRIGGER_THRESHOLD);
}

#[test]
fn hmem_iface_keeps_device_ids() {
    assert_eq!(HmemIface::from_raw(HmemIface::Cuda(3).as_raw(), 3, 0), HmemIface::Cuda(3));
    assert_eq!(HmemIface::from_raw(HmemIface::Ze(1, 2).as_raw(), 1, 2), HmemIface::Ze(1, 2));
    assert_eq!(HmemIface::System.as_raw(), libfabric::consts::FI_HMEM_SYSTEM);
}

#[test]
fn dscp_from_traffic_class_conversion() {
    let d: Dscp = TrafficClass::Label.into();
    assert_eq!(d, Dscp::CS0);
    assert_eq!(Dscp::from(TrafficClass::Dscp), Dscp::CS0);
    assert_eq!(TrafficClass::from_dscp(Dscp::CS0), TrafficClass::Dscp);
}
