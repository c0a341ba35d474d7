use embassy_usb_driver::{Direction, EndpointError, EndpointType, Event};
use py32_hal::usb::{
    calc_max_fifo_size_btyes, max_fifo_size_btyes, ControlPipe, Driver, EndpointSetup,
    InterruptHandler, IrqFlags, UsbInterrupt, In, Out,
};

#[test]
fn second_endpoint_without_sharing_goes_elsewhere() {
    let mut d = Driver::new(false);
    let a = d.alloc_endpoint_in(EndpointType::Bulk, 64, 0).unwrap();
    let b = d.alloc_endpoint_out(EndpointType::Bulk, 64, 0).unwrap();
    assert_eq!(a.info.index, 1);
    assert_eq!(b.info.index, 2);
    for _ in 0..3 {
        d.alloc_endpoint_in(EndpointType::Interrupt, 8, 10).unwrap();
    }
    assert!(d.alloc_endpoint_out(EndpointType::Bulk, 8, 0).is_err());
}

#[test]
fn sharing_allows_opposite_direction_of_same_type() {
    let mut d = Driver::new(true);
    let a = d.alloc_endpoint_in(EndpointType::Bulk, 64, 0).unwrap();
    let b = d.alloc_endpoint_out(EndpointType::Bulk, 64, 0).unwrap();
    assert_eq!(a.info.index, 1);
    assert_eq!(b.info.index, 1);
    assert_eq!(b.info.direction, Direction::Out);
    let c = d.alloc_endpoint_out(EndpointType::Interrupt, 16, 1).unwrap();
    assert_eq!(c.info.index, 2);
    let data = d.endpoint_data(1);
    assert!(data.used_in && data.used_out);
    assert_eq!(data.ep_conf.in_max_fifo_size_btyes, 8);
}

#[test]
fn large_packets_go_to_large_fifos() {
    let mut d = Driver::new(true);
    let a = d.alloc_endpoint_in(EndpointType::Bulk, 65, 0).unwrap();
    assert_eq!(a.info.index, 2);
    let b = d.alloc_endpoint_in(EndpointType::Bulk, 512, 0).unwrap();
    assert_eq!(b.info.index, 5);
    assert_eq!(d.endpoint_data(5).ep_conf.in_max_fifo_size_btyes, 64);
    assert!(d.alloc_endpoint_in(EndpointType::Bulk, 513, 0).is_err());
    assert_eq!(calc_max_fifo_size_btyes(512), 64);
    assert_eq!(calc_max_fifo_size_btyes(64), 8);
    assert_eq!(calc_max_fifo_size_btyes(1), 1);
    assert_eq!(calc_max_fifo_size_btyes(0), 0);
    assert_eq!(max_fifo_size_btyes(5), 64);
    assert_eq!(In::dir(), Direction::In);
    assert_eq!(Out::dir(), Direction::Out);
}

#[test]
fn start_and_bus_events() {
    let mut d = Driver::new(false);
    d.alloc_endpoint_in(EndpointType::Isochronous, 32, 1).unwrap();
    let (mut bus, pipe) = d.start(64);
    assert_eq!(pipe.max_packet_size(), 64);
    assert_eq!(pipe.ep_in.info.index, 0);
    let mut flags = IrqFlags { reset: true, suspend: true, resume: true };
    assert_eq!(bus.poll(&mut flags), Some(Event::PowerDetected));
    assert_eq!(bus.poll(&mut flags), Some(Event::Resume));
    assert_eq!(bus.poll(&mut flags), Some(Event::Reset));
    assert_eq!(bus.poll(&mut flags), Some(Event::Suspend));
    assert_eq!(bus.poll(&mut flags), None);
    assert_eq!(
        bus.endpoint_set_enabled(1, Direction::In, true),
        Some(EndpointSetup { max_fifo_size_btyes: 4, iso: true })
    );
    assert!(bus.is_enabled(1, Direction::In));
    assert!(!bus.is_enabled(1, Direction::Out));
    assert_eq!(bus.endpoint_set_enabled(1, Direction::In, false), None);
    assert!(!bus.is_enabled(1, Direction::In));
}

#[test]
fn transfer_length_checks() {
    let d = Driver::new(false);
    let (_, pipe) = d.start(16);
    assert!(ControlPipe::is_setup_packet(8));
    assert!(!ControlPipe::is_setup_packet(7));
    assert_eq!(pipe.data_out(10, 8), Err(EndpointError::BufferOverflow));
    assert_eq!(pipe.data_out(17, 64), Err(EndpointError::BufferOverflow));
    assert_eq!(pipe.data_out(12, 64), Ok(12));
    assert_eq!(pipe.data_in(17), Err(EndpointError::BufferOverflow));
    assert_eq!(pipe.data_in(0), Ok(()));
    let mut d = Driver::new(false);
    let ep = d.alloc_endpoint_out(EndpointType::Bulk, 32, 0).unwrap();
    assert_eq!(ep.read(40, 32), Err(EndpointError::BufferOverflow));
    assert_eq!(ep.read(20, 32), Ok(20));
    assert_eq!(ep.write(33), Err(EndpointError::BufferOverflow));
    assert_eq!(ep.write(0), Ok(()));
    assert_eq!(ep.info().max_packet_size, 32);
}

#[test]
fn interrupt_dispatch() {
    let mut flags = IrqFlags { reset: false, suspend: false, resume: false };
    let status = UsbInterrupt { reset: true, suspend: false, resume: false, int_in: 0b0000_0101, int_out: 0b0000_1001 };
    let w = InterruptHandler::on_interrupt(status, &mut flags);
    assert!(flags.reset && !flags.suspend);
    assert!(w.bus);
    assert_eq!(w.ep_in, vec![true, false, true, false, false, false]);
    assert_eq!(w.ep_out, vec![true, false, false, true, false, false]);
}

#[test]
fn shared_fifo_takes_128_byte_endpoints_in_both_directions() {
    let mut d = Driver::new(true);
    let out = d.alloc_endpoint_out(EndpointType::Bulk, 128, 0).unwrap();
    let inn = d.alloc_endpoint_in(EndpointType::Bulk, 128, 0).unwrap();
    assert_eq!(out.info.index, 2);
    assert_eq!(inn.info.index, 2);
    let data = d.endpoint_data(2);
    assert!(data.used_in && data.used_out);
    assert_eq!(data.ep_conf.in_max_fifo_size_btyes, 16);
    assert_eq!(data.ep_conf.out_max_fifo_size_btyes, 16);
}

#[test]
fn without_sharing_128_byte_endpoints_take_separate_indices() {
    let mut d = Driver::new(false);
    let out = d.alloc_endpoint_out(EndpointType::Bulk, 128, 0).unwrap();
    let inn = d.alloc_endpoint_in(EndpointType::Bulk, 128, 0).unwrap();
    assert_eq!(out.info.index, 2);
    assert_eq!(inn.info.index, 3);
}
