use libfabric::consts::{FI_ADDR_NOTAVAIL, FI_WAIT_FD};
use libfabric::cq::{
    read_count, readfrom_result, signal_result, sread_result, wait_object_query, Completion, CompletionEntry,
    CompletionError, CompletionQueueAttr, CompletionQueueBuilder, CompletionQueueImpl, CqCall, CqErrEntry, CtxEntry, DataEntry, MsgEntry, TaggedEntry, UnspecEntry,
    WaitObjType, WaitObjectQuery,
    wait_object_result,
};
use libfabric::domain::{DomainAttr, DomainBuilder, RawDomainAttr};
use libfabric::enums::CqFormat;
use libfabric::error::Error;

const FI_EAGAIN: i32 = 11;
const FI_ECANCELED: i32 = 125;

fn raw_attr() -> RawDomainAttr {
    RawDomainAttr {
        domain: 0,
        name: String::from("mlx5_0"),
        threading: 0,
        control_progress: 0,
        data_progress: 0,
        resource_mgmt: 0,
        av_type: 0,
        mr_mode: 0,
        mr_key_size: 8,
        cq_data_size: 8,
        cq_cnt: 64,
        ep_cnt: 64,
        tx_ctx_cnt: 1,
        rx_ctx_cnt: 1,
        max_ep_tx_ctx: 1,
        max_ep_rx_ctx: 1,
        max_ep_stx_ctx: 0,
        max_ep_srx_ctx: 0,
        cntr_cnt: 0,
        mr_iov_limit: 1,
        caps: 0,
        mode: 0,
        auth_key: None,
        max_err_data: 0,
        mr_cnt: 0,
        tclass: 0,
        max_ep_auth_key: 0,
    }
}

#[test]
fn cq_open_close_simultaneous() {
    let attr = DomainAttr::from_raw(raw_attr());
    let count = 10;
    let domain = DomainBuilder::new(0x1000).build(&attr, 0, 0x2000).unwrap();
    for i in 0..count {
        let cq = CompletionQueueBuilder::new().wait_fd().build(domain.as_raw_typed_fid(), 0, 0x3000 + i).unwrap();
        assert_eq!(cq.as_raw_fid(), 0x3000 + i);
    }
}

#[test]
fn cq_signal() {
    let attr = DomainAttr::from_raw(raw_attr());
    let domain = DomainBuilder::new(0x1000).build(&attr, 0, 0x2000).unwrap();
    let cq = CompletionQueueBuilder::new().size(1).wait_fd().build(domain.as_raw_typed_fid(), 0, 0x3000).unwrap();
    assert_eq!(cq.signal_call(), CqCall::Signal { cq: 0x3000 });
    cq.signal(0).unwrap();
    assert_eq!(cq.sread_call(1, 0, 2000), CqCall::Sread { cq: 0x3000, count: 1, cond: 0, timeout: 2000 });
    let ret = cq.sread(1, -(FI_EAGAIN as isize), Completion::for_format(CqFormat::Context.as_raw(), 1));
    if let Err(ref err) = ret {
        if !(err.c_err == FI_EAGAIN as u32 || err.c_err == FI_ECANCELED as u32) {
            assert!(ret.is_ok());
        }
    }
}

#[test]
fn cq_open_close_sizes() {
    let attr = DomainAttr::from_raw(raw_attr());
    let domain = DomainBuilder::new(0x1000).build(&attr, 0, 0x2000).unwrap();
    for i in -1..17 {
        let size = if i == -1 { 0 } else { 1usize << i };
        let builder = CompletionQueueBuilder::new().size(size).wait_fd();
        assert_eq!(builder.attr().size, size);
        let _cq = builder.build(domain.as_raw_typed_fid(), 0, 0x3000).unwrap();
    }
}

#[test]
fn cq_drops_before_domain() {
    let attr = DomainAttr::from_raw(raw_attr());
    let count = 10;
    let domain = DomainBuilder::new(0x1000).build(&attr, 0, 0x2000).unwrap();
    let mut cqs = Vec::new();
    for i in 0..count {
        let cq = CompletionQueueBuilder::new().wait_fd().build(domain.as_raw_typed_fid(), 0, 0x3000 + i).unwrap();
        cqs.push(cq);
    }
    drop(domain);
    assert_eq!(cqs.len(), 10);
}

#[test]
fn builder_defaults_and_setters() {
    let b = CompletionQueueBuilder::new();
    let a = b.attr();
    assert_eq!(a.size, 0);
    assert_eq!(a.format, CqFormat::Unspec.as_raw());
    assert_eq!(b.ctx(), None);
    let b = b.size(64).format(CqFormat::Tagged).context(0xabc);
    assert_eq!(b.attr().size, 64);
    assert_eq!(b.attr().format, CqFormat::Tagged.as_raw());
    assert_eq!(b.ctx(), Some(0xabc));
    let b = b.wait_fd();
    assert_eq!(b.attr().wait_obj, FI_WAIT_FD);
}

#[test]
fn failed_open_reports_the_error() {
    let r = CompletionQueueBuilder::new().build(0x2000, -12, 0);
    assert_eq!(r.err(), Some(Error { c_err: 12 }));
    let mut attr = CompletionQueueAttr::new();
    attr.format = 99;
    let r = CompletionQueueImpl::<false, false, false>::new(0x2000, attr, -22, 0, 4);
    assert!(matches!(r, Err(Error { c_err: 22 })));
}

#[test]
fn read_buffers_follow_the_queue() {
    let cq = CompletionQueueBuilder::new().format(CqFormat::Data).build(0x2000, 0, 0x3000).unwrap();
    assert!(matches!(cq.entry_buffer(), Completion::Data(v) if v.is_empty()));
}

#[test]
fn fd_queue_retrieves_an_fd() {
    let cq = CompletionQueueBuilder::new().wait_fd().build(0x2000, 0, 0x3000).unwrap();
    assert_eq!(cq.wait_object_kind(), WaitObjectQuery::Fd);
    assert_eq!(cq.wait_object_call(), Some(CqCall::GetWait { cq: 0x3000, kind: WaitObjectQuery::Fd }));
    assert_eq!(cq.wait_object(0, 17, 0, 0), Ok(WaitObjType::Fd(17)));
    assert_eq!(cq.wait_object(-38, 17, 0, 0), Err(Error { c_err: 38 }));
    let cq = CompletionQueueBuilder::new().wait_mutex().build(0x2000, 0, 0x3001).unwrap();
    assert_eq!(cq.wait_object_kind(), WaitObjectQuery::MutexCond);
    assert_eq!(cq.wait_object(0, 0, 0x10, 0x20), Ok(WaitObjType::MutexCond(0x10, 0x20)));
    assert_eq!(wait_object_result(WaitObjectQuery::Unspec, -5, 0, 0, 0), Ok(WaitObjType::Unspec));
    assert_eq!(wait_object_query(Some(FI_WAIT_FD)), WaitObjectQuery::Fd);
}

#[test]
fn read_results() {
    assert_eq!(read_count(3), Ok(3));
    assert_eq!(read_count(-11), Err(Error { c_err: 11 }));
    assert_eq!(sread_result(0), Ok(()));
    assert_eq!(sread_result(-110), Err(Error { c_err: 110 }));
    assert_eq!(readfrom_result(1, FI_ADDR_NOTAVAIL), Ok(None));
    assert_eq!(readfrom_result(1, 42), Ok(Some(42)));
    assert_eq!(readfrom_result(-5, 42), Err(Error { c_err: 5 }));
    assert_eq!(signal_result(-4), Err(Error { c_err: 4 }));
}

#[test]
fn read_returns_the_entries_of_the_queue_format() {
    let cq = CompletionQueueBuilder::new().format(CqFormat::Context).build(0x2000, 0, 0x3000).unwrap();
    assert_eq!(cq.read_call(4), CqCall::Read { cq: 0x3000, count: 4 });
    let entries = Completion::Ctx(vec![CompletionEntry::from_raw(CtxEntry { op_context: 7 })]);
    match cq.read(4, 1, entries) {
        Ok(Completion::Ctx(v)) => {
            assert_eq!(v.len(), 1);
            assert!(v[0].is_op_context_equal(&libfabric::ep::Context::from_raw(7)));
        }
        _ => panic!("expected one context entry"),
    }
    let r = cq.read(4, -11, Completion::for_format(CqFormat::Context.as_raw(), 4));
    assert!(matches!(r, Err(Error { c_err: 11 })));
}

#[test]
fn readerr_returns_the_error_entry() {
    let cq = CompletionQueueBuilder::new().build(0x2000, 0, 0x3000).unwrap();
    let entry = CqErrEntry {
        op_context: 9,
        flags: 0,
        len: 0,
        buf: 0,
        data: 3,
        tag: 4,
        olen: 16,
        err: 5,
        prov_errno: -2,
        err_data: 0,
        err_data_size: 0,
    };
    let e = cq.readerr(0, 0, entry).unwrap();
    assert_eq!(e.error(), Error { c_err: 5 });
    assert_eq!(e.prov_errno(), -2);
    assert_eq!(e.overflow_length(), 16);
    assert!(e.is_op_context_equal(&libfabric::ep::Context::from_raw(9)));
    assert!(cq.readerr(0, -11, entry).is_err());
}

#[test]
fn entries_report_their_fields() {
    let e = CompletionEntry::from_raw(TaggedEntry { op_context: 1, flags: 0x800, len: 8, buf: 0, data: 77, tag: 99 });
    assert_eq!(e.tag(), 99);
    assert_eq!(e.data(), 77);
    assert!(e.flags().is_send());
    let m = CompletionEntry::<MsgEntry>::new();
    assert!(m.is_op_context_equal(&libfabric::ep::Context::from_raw(0)));
    let d = CompletionError::new();
    assert_eq!(d.error(), Error { c_err: 0 });
}

#[test]
fn default_entries_are_empty() {
    let c: CompletionEntry<CtxEntry> = Default::default();
    assert!(c.is_op_context_equal(&libfabric::ep::Context::from_raw(0)));
    let m: CompletionEntry<MsgEntry> = Default::default();
    assert!(!m.flags().is_send() && !m.flags().is_recv());
    let d: CompletionEntry<DataEntry> = Default::default();
    assert_eq!(d.data(), 0);
    assert!(!d.flags().is_rma());
    let t: CompletionEntry<TaggedEntry> = Default::default();
    assert_eq!(t.tag(), 0);
    assert_eq!(t.data(), 0);
    let _u: CompletionEntry<UnspecEntry> = Default::default();
}

#[test]
fn completion_buffers_follow_the_format() {
    assert!(matches!(Completion::for_format(CqFormat::Msg.as_raw(), 4), Completion::Msg(v) if v.is_empty()));
    assert!(matches!(Completion::for_format(CqFormat::Unspec.as_raw(), 4), Completion::Unspec(_)));
    assert!(matches!(Completion::for_format(CqFormat::Tagged.as_raw(), 0), Completion::Tagged(_)));
}
