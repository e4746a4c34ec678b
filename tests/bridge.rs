use usb_net_bridge::channel::{PacketChannel, RecvPoll, CHANNEL_CAPACITY};
use usb_net_bridge::device::{Device, Medium, TransmitOutcome};
use usb_net_bridge::echo::{EchoAction, EchoEvent, EchoServer, EchoState, ECHO_PORT};
use usb_net_bridge::link::{LinkFlag, LinkState};
use usb_net_bridge::pool::{Packet, PacketPool, POOL_SLOTS};
use usb_net_bridge::pump::{RxAction, RxOutcome, RxPump, RxState, TxPump};
use usb_net_bridge::sched::{preempts, Phase, Scheduler, SpawnError, TaskId};
use usb_net_bridge::MAX_TRANSMISSION_UNIT;

fn pkt(slot: usize, len: usize) -> Packet {
    Packet { slot, len }
}

#[test]
fn ninth_send_fails_and_first_eight_come_out_in_order() {
    let mut ch = PacketChannel::new();
    for i in 0..8 {
        assert_eq!(ch.try_send(pkt(i, 100 + i)), Ok(()));
    }
    assert!(ch.is_full());
    assert_eq!(ch.try_send(pkt(8, 108)), Err(pkt(8, 108)));
    assert_eq!(ch.len(), 8);
    for i in 0..8 {
        assert_eq!(ch.poll_receive(), RecvPoll::Ready(pkt(i, 100 + i)));
    }
    assert_eq!(ch.poll_receive(), RecvPoll::Pending);
}

#[test]
fn full_channel_keeps_its_contents() {
    let mut ch = PacketChannel::new();
    for i in 0..CHANNEL_CAPACITY {
        ch.try_send(pkt(i, 60)).unwrap();
    }
    assert_eq!(ch.try_send(pkt(99, 1)), Err(pkt(99, 1)));
    assert_eq!(ch.try_send(pkt(98, 2)), Err(pkt(98, 2)));
    let mut out = Vec::new();
    while let Some(p) = ch.try_receive() {
        out.push(p.slot);
    }
    assert_eq!(out, (0..CHANNEL_CAPACITY).collect::<Vec<_>>());
}

#[test]
fn receive_waits_until_a_packet_is_sent() {
    let mut ch = PacketChannel::new();
    assert!(ch.is_empty());
    assert_eq!(ch.poll_receive(), RecvPoll::Pending);
    assert_eq!(ch.poll_receive(), RecvPoll::Pending);
    ch.try_send(pkt(3, 42)).unwrap();
    assert_eq!(ch.poll_receive(), RecvPoll::Ready(pkt(3, 42)));
    assert_eq!(ch.poll_receive(), RecvPoll::Pending);
    assert_eq!(ch.capacity(), 8);
}

#[test]
fn interleaved_sends_and_receives_stay_in_order() {
    let mut ch = PacketChannel::new();
    ch.try_send(pkt(1, 1)).unwrap();
    ch.try_send(pkt(2, 2)).unwrap();
    assert_eq!(ch.try_receive(), Some(pkt(1, 1)));
    ch.try_send(pkt(3, 3)).unwrap();
    assert_eq!(ch.try_receive(), Some(pkt(2, 2)));
    assert_eq!(ch.try_receive(), Some(pkt(3, 3)));
    assert_eq!(ch.try_receive(), None);
}

#[test]
fn device_poll_operations_return_at_once() {
    let mut dev = Device::new([0xCC; 6]);
    let mut tx = PacketChannel::new();
    let mut rx = PacketChannel::new();
    let mut pool = PacketPool::new();
    assert_eq!(dev.receive(&mut rx), None);
    let mut slots = Vec::new();
    for _ in 0..9 {
        slots.push(pool.acquire().unwrap());
    }
    for &s in &slots[..8] {
        assert_eq!(dev.transmit(&mut tx, &mut pool, pkt(s, 64)), TransmitOutcome::Queued);
    }
    assert!(pool.is_held(slots[8]));
    assert_eq!(dev.transmit(&mut tx, &mut pool, pkt(slots[8], 64)), TransmitOutcome::Dropped);
    assert!(!pool.is_held(slots[8]));
    assert_eq!(tx.len(), 8);
    rx.try_send(pkt(5, 70)).unwrap();
    assert_eq!(dev.receive(&mut rx), Some(pkt(5, 70)));
    assert!(dev.is_transmit_ready());
    assert!(dev.register_waker());
}

#[test]
fn device_description_is_fixed() {
    let dev = Device::new([0xCC, 0xCC, 0xCC, 0xCC, 0xCC, 0xCC]);
    let caps = dev.capabilities();
    assert_eq!(caps.max_transmission_unit, 1514);
    assert_eq!(MAX_TRANSMISSION_UNIT, 1514);
    assert_eq!(caps.medium, Medium::Ethernet);
    assert_eq!(dev.ethernet_address(), [0xCC; 6]);
}

#[test]
fn link_follows_connect_and_disconnect_cycles() {
    let mut pump = RxPump::new();
    let mut link = LinkFlag::new();
    let mut pool = PacketPool::new();
    let mut rx = PacketChannel::new();
    let dev = Device::new([0xCC; 6]);
    assert_eq!(dev.link_state(&link), LinkState::Down);
    for _ in 0..3 {
        assert_eq!(pump.next_action(&mut pool, &mut link), RxAction::WaitConnection);
        assert_eq!(dev.link_state(&link), LinkState::Down);
        pump.on_connected(&mut link);
        assert_eq!(dev.link_state(&link), LinkState::Up);
        let slot = match pump.next_action(&mut pool, &mut link) {
            RxAction::ReadInto(s) => s,
            other => panic!("unexpected {:?}", other),
        };
        assert_eq!(pump.on_read(slot, Ok(60), &mut pool, &mut rx, &mut link), RxOutcome::Queued);
        assert_eq!(dev.link_state(&link), LinkState::Up);
        let slot = match pump.next_action(&mut pool, &mut link) {
            RxAction::ReadInto(s) => s,
            other => panic!("unexpected {:?}", other),
        };
        assert_eq!(pump.on_read(slot, Err(()), &mut pool, &mut rx, &mut link), RxOutcome::Disconnected);
        assert_eq!(dev.link_state(&link), LinkState::Down);
        assert!(!link.get());
        assert_eq!(pump.state, RxState::WaitConnection);
        assert!(!pool.is_held(slot));
    }
}

#[test]
fn disconnect_keeps_queued_packets() {
    let mut pump = RxPump::new();
    let mut link = LinkFlag::new();
    let mut pool = PacketPool::new();
    let mut rx = PacketChannel::new();
    pump.on_connected(&mut link);
    let mut queued = Vec::new();
    for n in [60usize, 61, 62] {
        if let RxAction::ReadInto(s) = pump.next_action(&mut pool, &mut link) {
            assert_eq!(pump.on_read(s, Ok(n), &mut pool, &mut rx, &mut link), RxOutcome::Queued);
            queued.push(pkt(s, n));
        } else {
            panic!("expected a read");
        }
    }
    if let RxAction::ReadInto(s) = pump.next_action(&mut pool, &mut link) {
        pump.on_read(s, Err(()), &mut pool, &mut rx, &mut link);
    }
    assert_eq!(link.state(), LinkState::Down);
    assert_eq!(pump.next_action(&mut pool, &mut link), RxAction::WaitConnection);
    for p in queued {
        assert_eq!(rx.try_receive(), Some(p));
        assert!(pool.is_held(p.slot));
    }
}

#[test]
fn full_receive_channel_drops_the_frame() {
    let mut pump = RxPump::new();
    let mut link = LinkFlag::new();
    let mut pool = PacketPool::new();
    let mut rx = PacketChannel::new();
    pump.on_connected(&mut link);
    for _ in 0..8 {
        if let RxAction::ReadInto(s) = pump.next_action(&mut pool, &mut link) {
            assert_eq!(pump.on_read(s, Ok(100), &mut pool, &mut rx, &mut link), RxOutcome::Queued);
        }
    }
    let s = match pump.next_action(&mut pool, &mut link) {
        RxAction::ReadInto(s) => s,
        other => panic!("unexpected {:?}", other),
    };
    assert_eq!(pump.on_read(s, Ok(100), &mut pool, &mut rx, &mut link), RxOutcome::Dropped);
    assert!(!pool.is_held(s));
    assert_eq!(pump.state, RxState::Receiving);
    assert!(link.get());
}

#[test]
fn exhausted_pool_takes_the_link_down() {
    let mut pump = RxPump::new();
    let mut link = LinkFlag::new();
    let mut pool = PacketPool::new();
    for _ in 0..POOL_SLOTS {
        assert!(pool.acquire().is_some());
    }
    assert_eq!(pool.acquire(), None);
    pump.on_connected(&mut link);
    assert_eq!(pump.next_action(&mut pool, &mut link), RxAction::WaitConnection);
    assert_eq!(pump.state, RxState::WaitConnection);
    assert!(!link.get());
}

#[test]
fn pool_hands_out_lowest_free_slot() {
    let mut pool = PacketPool::new();
    assert_eq!(pool.acquire(), Some(0));
    assert_eq!(pool.acquire(), Some(1));
    assert_eq!(pool.acquire(), Some(2));
    pool.release(1);
    assert_eq!(pool.acquire(), Some(1));
    assert_eq!(pool.acquire(), Some(3));
    pool.release(POOL_SLOTS + 5);
    assert!(!pool.is_held(POOL_SLOTS + 5));
}

#[test]
fn transmit_pump_frees_slot_on_success_and_failure() {
    let mut txp = TxPump::new();
    let mut tx = PacketChannel::new();
    let mut pool = PacketPool::new();
    assert_eq!(txp.next_packet(&mut tx), RecvPoll::Pending);
    let a = pool.acquire().unwrap();
    let b = pool.acquire().unwrap();
    tx.try_send(pkt(a, 10)).unwrap();
    tx.try_send(pkt(b, 20)).unwrap();
    let first = match txp.next_packet(&mut tx) {
        RecvPoll::Ready(p) => p,
        RecvPoll::Pending => panic!("expected a packet"),
    };
    assert_eq!(first, pkt(a, 10));
    assert!(txp.on_written(first, Ok(()), &mut pool));
    assert!(!pool.is_held(a));
    let second = match txp.next_packet(&mut tx) {
        RecvPoll::Ready(p) => p,
        RecvPoll::Pending => panic!("expected a packet"),
    };
    assert!(!txp.on_written(second, Err(()), &mut pool));
    assert!(!pool.is_held(b));
}

#[test]
fn echo_writes_back_exactly_what_was_read() {
    let mut srv = EchoServer::new();
    assert!(matches!(srv.start(), EchoAction::Accept(1234)));
    assert!(matches!(srv.step(EchoEvent::Accepted), EchoAction::Read));
    match srv.step(EchoEvent::Read(vec![0x01, 0x02, 0x03])) {
        EchoAction::WriteAll(b) => assert_eq!(b, vec![0x01, 0x02, 0x03]),
        other => panic!("unexpected {:?}", other),
    }
    assert_eq!(srv.state, EchoState::Writing);
    assert!(matches!(srv.step(EchoEvent::Written), EchoAction::Read));
    assert_eq!(srv.state, EchoState::Echoing);
}

#[test]
fn echo_zero_length_read_returns_to_listening() {
    let mut srv = EchoServer::new();
    srv.step(EchoEvent::Accepted);
    match srv.step(EchoEvent::Read(Vec::new())) {
        EchoAction::Accept(port) => assert_eq!(port, ECHO_PORT),
        other => panic!("unexpected {:?}", other),
    }
    assert!(srv.is_listening());
}

#[test]
fn echo_errors_return_to_listening() {
    let mut srv = EchoServer::new();
    assert!(matches!(srv.step(EchoEvent::AcceptFailed), EchoAction::Accept(1234)));
    assert!(srv.is_listening());
    srv.step(EchoEvent::Accepted);
    assert!(matches!(srv.step(EchoEvent::ReadFailed), EchoAction::Accept(1234)));
    assert!(srv.is_listening());
    srv.step(EchoEvent::Accepted);
    srv.step(EchoEvent::Read(vec![9]));
    assert!(matches!(srv.step(EchoEvent::WriteFailed), EchoAction::Accept(1234)));
    assert!(srv.is_listening());
}

#[test]
fn scheduler_lifecycle_and_spawning() {
    let mut s = Scheduler::new();
    assert_eq!(s.phase(), Phase::Boot);
    assert_eq!(s.spawn(TaskId::EchoServer), Err(SpawnError::NotAllowed));
    s.begin_init();
    assert_eq!(s.phase(), Phase::Init);
    assert_eq!(s.spawn(TaskId::Hello), Ok(()));
    assert_eq!(s.spawn(TaskId::Hello), Err(SpawnError::AlreadySpawned));
    assert_eq!(s.spawn(TaskId::MonotonicTick), Err(SpawnError::NotAllowed));
    assert_eq!(s.next(), None);
    s.finish_init();
    assert_eq!(s.phase(), Phase::Dispatch);
    assert_eq!(s.spawn(TaskId::NcmRx), Err(SpawnError::NotAllowed));
    assert_eq!(s.next(), Some(TaskId::Hello));
}

#[test]
fn scheduler_runs_hardware_task_first() {
    let mut s = Scheduler::new();
    s.begin_init();
    s.spawn(TaskId::NcmRx).unwrap();
    s.spawn(TaskId::NetStack).unwrap();
    s.finish_init();
    assert_eq!(s.next(), Some(TaskId::NcmRx));
    s.wake(TaskId::MonotonicTick);
    assert_eq!(s.next(), Some(TaskId::MonotonicTick));
    assert!(preempts(TaskId::MonotonicTick, TaskId::NcmRx));
    assert!(!preempts(TaskId::NcmRx, TaskId::NetStack));
    s.park(TaskId::MonotonicTick);
    s.park(TaskId::NcmRx);
    assert_eq!(s.next(), Some(TaskId::NetStack));
    s.park(TaskId::NetStack);
    assert_eq!(s.next(), None);
    s.wake(TaskId::EchoServer);
    assert_eq!(s.next(), None);
}
