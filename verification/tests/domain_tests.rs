use libfabric::consts::{FI_PEER, FI_REG_MR, FI_SCATTER};
use libfabric::domain::{
    domain_open_call, mapped_key_result, AtomicAttr, CollectiveAttr, DomainAttr, DomainBuilder, DomainCall, DomainOpenCall, MapRawStep,
    OwnedMemoryRegionKey, PeerDomainCtx, RawDomainAttr,
};
use libfabric::enums::{AddressVectorType, AtomicOp, CollAtomicOp, CollectiveOp, DataType, Progress, Threading, TrafficClass};
use libfabric::error::Error;

fn raw_attr() -> RawDomainAttr {
    RawDomainAttr {
        domain: 0x55,
        name: String::from("verbs;ofi_rxm"),
        threading: Threading::Domain.as_raw(),
        control_progress: Progress::Auto.as_raw(),
        data_progress: Progress::Manual.as_raw(),
        resource_mgmt: 1,
        av_type: AddressVectorType::Table.as_raw(),
        mr_mode: 4,
        mr_key_size: 8,
        cq_data_size: 4,
        cq_cnt: 32,
        ep_cnt: 128,
        tx_ctx_cnt: 2,
        rx_ctx_cnt: 3,
        max_ep_tx_ctx: 4,
        max_ep_rx_ctx: 5,
        max_ep_stx_ctx: 6,
        max_ep_srx_ctx: 7,
        cntr_cnt: 9,
        mr_iov_limit: 1,
        caps: 0,
        mode: 0,
        auth_key: Some(vec![1, 2, 3]),
        max_err_data: 10,
        mr_cnt: 11,
        tclass: TrafficClass::LowLatency.as_raw(),
        max_ep_auth_key: 12,
    }
}

#[test]
fn domain_test() {
    let attr = DomainAttr::from_raw(raw_attr());
    let fab = 0x1000;
    let count = 10;
    let mut doms = Vec::new();
    for i in 0..count {
        let domain = DomainBuilder::new(fab).build(&attr, 0, 0x2000 + i).unwrap();
        assert_eq!(domain.as_raw_typed_fid(), 0x2000 + i);
        doms.push(domain);
    }
    assert_eq!(doms.len(), 10);
}

#[test]
fn domain_drops_before_fabric() {
    let attr = DomainAttr::from_raw(raw_attr());
    let fab = 0x1000u64;
    let count = 10;
    let mut doms = Vec::new();
    for i in 0..count {
        let domain = DomainBuilder::new(fab).build(&attr, 0, 0x2000 + i).unwrap();
        doms.push(domain);
    }
    drop(fab);
    assert_eq!(doms.len(), 10);
}

#[test]
fn domain_attr_decodes_every_field() {
    let attr = DomainAttr::from_raw(raw_attr());
    assert_eq!(attr.domain_id(), 0x55);
    assert_eq!(attr.name(), "verbs;ofi_rxm");
    assert_eq!(*attr.threading(), Threading::Domain);
    assert_eq!(*attr.control_progress(), Progress::Auto);
    assert_eq!(*attr.data_progress(), Progress::Manual);
    assert_eq!(*attr.av_type(), AddressVectorType::Table);
    assert_eq!(attr.mr_mode().as_raw(), 4);
    assert_eq!(attr.mr_key_size(), 8);
    assert_eq!(attr.cq_data_size(), 4);
    assert_eq!(attr.cq_cnt(), 32);
    assert_eq!(attr.ep_cnt(), 128);
    assert_eq!(attr.tx_ctx_cnt(), 2);
    assert_eq!(attr.rx_ctx_cnt(), 3);
    assert_eq!(attr.max_ep_tx_ctx(), 4);
    assert_eq!(attr.max_ep_rx_ctx(), 5);
    assert_eq!(attr.max_ep_stx_ctx(), 6);
    assert_eq!(attr.max_ep_srx_ctx(), 7);
    assert_eq!(attr.cntr_cnt(), 9);
    assert_eq!(attr.mr_iov_limit(), 1);
    assert_eq!(attr.max_err_data(), 10);
    assert_eq!(attr.mr_cnt(), 11);
    assert_eq!(attr.auth_key(), &Some(vec![1, 2, 3]));
    assert_eq!(*attr.traffic_class(), TrafficClass::LowLatency);
}

#[test]
fn domain_keeps_mode_and_key_size_of_its_attribute() {
    let attr = DomainAttr::from_raw(raw_attr());
    let d = DomainBuilder::new(1).build(&attr, 0, 2).unwrap();
    assert_eq!(d.mr_mode().as_raw(), 4);
    assert_eq!(d.mr_key_size(), 8);
}

#[test]
fn failed_open_is_an_error() {
    let attr = DomainAttr::from_raw(raw_attr());
    let r = DomainBuilder::new(1).build(&attr, -61, 0);
    assert!(matches!(r, Err(Error { c_err: 61 })));
}

#[test]
fn open_call_depends_on_flags() {
    assert_eq!(DomainBuilder::new(1).open_call(), DomainOpenCall::Domain { context: None });
    assert_eq!(DomainBuilder::new(1).context(0x40).open_call(), DomainOpenCall::Domain { context: Some(0x40) });
    let attr = DomainAttr::from_raw(raw_attr());
    let peer = PeerDomainCtx::new(16, &DomainBuilder::new(1).build(&attr, 0, 9).unwrap());
    assert_eq!(peer, PeerDomainCtx { domain: 9, size: 16 });
    assert_eq!(
        DomainBuilder::new_with_peer(1, peer).open_call(),
        DomainOpenCall::PeerDomain { flags: FI_PEER, peer: PeerDomainCtx { domain: 9, size: 16 } }
    );
    assert_eq!(domain_open_call(0, Some(3)), DomainOpenCall::Domain { context: Some(3) });
    assert_eq!(domain_open_call(FI_PEER, None), DomainOpenCall::Domain2 { flags: FI_PEER, context: None });
}

#[test]
fn queries_name_the_domain() {
    let attr = DomainAttr::from_raw(raw_attr());
    let d = DomainBuilder::new(1).build(&attr, 0, 0x77).unwrap();
    assert_eq!(
        d.query_atomic_call::<u32, AtomicOp>(&AtomicOp::Sum, 0),
        DomainCall::QueryAtomic { domain: 0x77, datatype: DataType::Uint32.as_raw(), op: 2, flags: 0 }
    );
    assert_eq!(d.query_atomic(AtomicAttr::new(), 0), Ok(()));
    assert_eq!(d.query_atomic(AtomicAttr::new(), -95), Err(Error { c_err: 95 }));
    assert_eq!(
        d.query_collective_call(CollectiveOp::AllReduce),
        DomainCall::QueryCollective { domain: 0x77, coll: CollectiveOp::AllReduce.as_raw(), flags: 0 }
    );
    assert_eq!(
        d.query_collective_scatter_call(CollectiveOp::ReduceScatter),
        DomainCall::QueryCollective { domain: 0x77, coll: CollectiveOp::ReduceScatter.as_raw(), flags: FI_SCATTER as u64 }
    );
    let mut cattr = CollectiveAttr::<u64>::new().op(&CollAtomicOp::Sum).max_members(8);
    assert_eq!(cattr.datatype, DataType::Uint64.as_raw());
    assert_eq!(cattr.op, 2);
    assert_eq!(cattr.max_members, 8);
    let reported = AtomicAttr { count: 1, size: 8 };
    assert_eq!(d.query_collective(CollectiveOp::AllReduce, &mut cattr, 0, reported, 64, 3), Ok(true));
    assert_eq!(cattr.datatype_attr, reported);
    assert_eq!(cattr.max_members, 64);
    assert_eq!(cattr.mode, 3);
    assert_eq!(cattr.op, 2);
    assert_eq!(
        d.query_collective_scatter(CollectiveOp::AllReduce, &mut cattr, -22, AtomicAttr::new(), 1, 1),
        Err(Error { c_err: 22 })
    );
    assert_eq!(cattr.max_members, 64);
    assert_eq!(cattr.mode, 3);
}

#[test]
fn collective_attr_default_matches_new() {
    let a: CollectiveAttr<u32> = Default::default();
    let b = CollectiveAttr::<u32>::new();
    assert_eq!(a.datatype, DataType::Uint32.as_raw());
    assert_eq!(a.datatype, b.datatype);
    assert_eq!(a.op, 0);
    assert_eq!(a.max_members, 0);
    assert_eq!(a.mode, 0);
    assert_eq!(a.datatype_attr, AtomicAttr { count: 0, size: 0 });
}

#[test]
fn keys_are_mapped_only_when_raw() {
    let attr = DomainAttr::from_raw(raw_attr());
    let d = DomainBuilder::new(1).build(&attr, 0, 0x77).unwrap();
    assert_eq!(d.map_raw(&OwnedMemoryRegionKey::Key(5), 0), MapRawStep::Mapped(5));
    assert_eq!(
        d.map_raw(&OwnedMemoryRegionKey::RawKey(vec![1, 2, 3, 4], 0x9000), 0),
        MapRawStep::Call(DomainCall::MapRaw { domain: 0x77, base_addr: 0x9000, key_size: 4, flags: 0 })
    );
    assert_eq!(mapped_key_result(0, 42), Ok(42));
    assert_eq!(mapped_key_result(-2, 42), Err(Error { c_err: 2 }));
    assert_eq!(d.unmap_key_call(42), DomainCall::UnmapKey { domain: 0x77, key: 42 });
    assert_eq!(d.unmap_key(42, 0), Ok(()));
}

#[test]
fn binding_an_event_queue() {
    let attr = DomainAttr::from_raw(raw_attr());
    let d = DomainBuilder::new(1).build_and_bind(&attr, 0, 0x77, 0x88, true, 0).unwrap();
    assert_eq!(d.bind_call(0x88, true), DomainCall::Bind { domain: 0x77, eq: 0x88, flags: FI_REG_MR });
    assert_eq!(d.bind_call(0x88, false), DomainCall::Bind { domain: 0x77, eq: 0x88, flags: 0 });
    let r = DomainBuilder::new(1).build_and_bind(&attr, 0, 0x77, 0x88, false, -16);
    assert!(matches!(r, Err(Error { c_err: 16 })));
    let r = DomainBuilder::new(1).build_and_bind(&attr, -12, 0, 0x88, false, 0);
    assert!(matches!(r, Err(Error { c_err: 12 })));
}

#[test]
fn attribute_encodes_back_to_its_fields() {
    let mut raw = raw_attr();
    raw.mr_mode = -1;
    raw.caps = 0x30;
    raw.mode = 0x4;
    let back = DomainAttr::from_raw(raw.clone()).to_raw();
    assert_eq!(back.domain, raw.domain);
    assert_eq!(back.name, raw.name);
    assert_eq!(back.threading, raw.threading);
    assert_eq!(back.control_progress, raw.control_progress);
    assert_eq!(back.data_progress, raw.data_progress);
    assert_eq!(back.resource_mgmt, raw.resource_mgmt);
    assert_eq!(back.av_type, raw.av_type);
    assert_eq!(back.mr_mode, -1);
    assert_eq!(back.mr_key_size, 8);
    assert_eq!(back.cq_cnt, 32);
    assert_eq!(back.max_ep_srx_ctx, 7);
    assert_eq!(back.max_ep_auth_key, 12);
    assert_eq!(back.caps, 0x30);
    assert_eq!(back.mode, 0x4);
    assert_eq!(back.auth_key, Some(vec![1, 2, 3]));
    assert_eq!(back.tclass, TrafficClass::LowLatency.as_raw());
    let mut no_key = raw_attr();
    no_key.auth_key = None;
    assert_eq!(DomainAttr::from_raw(no_key).to_raw().auth_key, None);
}
