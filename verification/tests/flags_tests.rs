use libfabric::consts::FI_MR_VIRT_ADDR;
use libfabric::consts::{FI_COMPLETION, FI_CONTEXT, FI_MORE, FI_MR_BASIC, FI_MR_LOCAL, FI_RECV, FI_SEND, FI_SYNC_ERR};
use libfabric::flags::{
    AVOptions, AVSetOptions, CompletionFlags, DomainCaps, JoinOptions, Mode, MrAccess, MrMode, RecvMsgOptions,
    SendMsgOptions, TransferOptions,
};

#[test]
fn mode_starts_empty_and_raises_one_bit_per_setter() {
    let m = Mode::new();
    assert_eq!(m.as_raw(), 0);
    let m = m.context();
    assert!(m.is_context());
    assert_eq!(m.as_raw(), FI_CONTEXT);
    assert_eq!(FI_CONTEXT, 1u64 << 59);
    assert!(!m.is_local_mr());
    assert_eq!(u64::from(m), FI_CONTEXT);
}

#[test]
fn mode_setters_are_idempotent_and_commute() {
    let a = Mode::new().context().msg_prefix();
    let b = Mode::new().msg_prefix().context().context();
    assert_eq!(a.as_raw(), b.as_raw());
}

#[test]
fn mode_all_raises_every_bit() {
    let m = Mode::all();
    assert_eq!(m.as_raw(), u64::MAX);
    assert!(m.is_context() && m.is_local_mr() && m.is_buffered_recv());
}

#[test]
fn mr_mode_inverse_flips_every_bit_and_is_an_involution() {
    let m = MrMode::new().basic().local();
    assert_eq!(m.as_raw(), FI_MR_BASIC | FI_MR_LOCAL);
    let inv = m.inverse();
    assert_eq!(inv.as_raw(), !(FI_MR_BASIC | FI_MR_LOCAL));
    assert!(!inv.is_basic());
    assert_eq!(inv.inverse().as_raw(), m.as_raw());
}

#[test]
fn mr_mode_unspec_only_when_empty() {
    assert!(MrMode::new().is_unspec());
    assert!(!MrMode::new().basic().is_unspec());
}

#[test]
fn av_options_raise_their_bits() {
    let o = AVOptions::new();
    assert_eq!(o.as_raw(), 0);
    let o = o.more();
    assert!(o.is_more());
    assert!(!o.is_sync_err());
    assert_eq!(o.as_raw(), FI_MORE as u64);
    let o = o.sync_err();
    assert_eq!(o.as_raw(), FI_MORE as u64 | FI_SYNC_ERR);
}

#[test]
fn join_options_receive_raises_the_send_bit() {
    let s = JoinOptions::new().send();
    let r = JoinOptions::new().receive();
    assert_eq!(s.as_raw(), FI_SEND as u64);
    assert_eq!(r.as_raw(), FI_SEND as u64);
    assert!(r.is_send() && r.is_receive());
    assert_eq!(FI_SEND, 1 << 11);
    assert_eq!(FI_RECV, 1 << 10);
}

#[test]
fn transfer_options_transmit_and_recv() {
    let t = TransferOptions::new().transmit().recv();
    assert_eq!(t.as_raw(), FI_SEND | FI_RECV);
}

#[test]
fn msg_options_completion_flag() {
    let s = SendMsgOptions::new().completion();
    assert!(s.is_completion());
    assert_eq!(s.as_raw(), FI_COMPLETION as u64);
    let r = RecvMsgOptions::new();
    assert!(!r.is_completion());
    assert_eq!(r.as_raw(), 0);
}

#[test]
fn completion_flags_report_raised_bits() {
    let f = CompletionFlags::from_raw((FI_SEND | FI_RECV) as u64);
    assert!(f.is_send());
    assert!(f.is_recv());
    assert!(!f.is_rma());
}

#[test]
fn mr_access_and_av_set_defaults() {
    assert_eq!(MrAccess::new().as_raw(), 0);
    assert!(MrAccess::new().send().is_send());
    assert_eq!(AVSetOptions::new().as_raw(), 0);
    assert!(AVSetOptions::new().universe().is_universe());
}

#[test]
fn domain_caps_convert_to_raw_bits() {
    let c = DomainCaps::new();
    assert_eq!(u64::from(c.clone()), 0);
    let c = c.local_comm().remote_comm();
    assert!(c.is_local_comm() && c.is_remote_comm() && !c.is_shared_av());
}

#[test]
fn mr_mode_setters_commute_and_repeat() {
    assert_eq!(MrMode::new().local().virt_addr().as_raw(), FI_MR_LOCAL | FI_MR_VIRT_ADDR);
    assert_eq!(MrMode::new().local().virt_addr().as_raw(), MrMode::new().virt_addr().local().as_raw());
    assert_eq!(MrMode::new().hmem().hmem().as_raw(), MrMode::new().hmem().as_raw());
    let m = MrMode::from_raw(0x1000);
    assert_eq!(m.as_raw(), 0x1000);
    assert_eq!(m.endpoint().collective().as_raw(), m.collective().endpoint().as_raw());
    assert_eq!(m.endpoint().as_raw(), 0x1000 | 0x200);
}
