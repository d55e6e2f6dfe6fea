use libc::{sa_family_t, AF_INET, AF_NETLINK};
use netlink_rs::socket::{sockaddr_to_netlinkaddr, AddressError, NetlinkAddr, SockAddr};

#[test]
fn netlink_addr_and_sockaddr() {
    let nladdr = NetlinkAddr::new(0, 10);
    let sockaddr = nladdr.as_sockaddr();
    assert_eq!(sockaddr.sa_family, AF_NETLINK as sa_family_t);
    let nl2 = sockaddr_to_netlinkaddr(&sockaddr).unwrap();
    assert_eq!(nladdr.pid(), nl2.pid());
    assert_eq!(nladdr.groups(), nl2.groups());
}

#[test]
fn address_netlink_addr_and_sockaddr() {
    let nladdr = NetlinkAddr::new(0, 10);
    let sockaddr = nladdr.as_sockaddr();
    assert_eq!(sockaddr.sa_family, AF_NETLINK as sa_family_t);
    let nl2 = sockaddr_to_netlinkaddr(&sockaddr).unwrap();
    assert_eq!(nladdr.pid(), nl2.pid());
    assert_eq!(nladdr.groups(), nl2.groups());
    assert_eq!(nl2.groups(), 10);
}

#[test]
fn address_round_trips_through_the_generic_form() {
    let addr = NetlinkAddr::new(7, 3);
    let back = sockaddr_to_netlinkaddr(&addr.as_sockaddr()).unwrap();
    assert_eq!(back.pid(), 7);
    assert_eq!(back.groups(), 3);
    assert_eq!(back, addr);
}

#[test]
fn address_round_trips_at_the_extremes() {
    for (pid, groups) in [(0, 0), (u32::MAX, 0), (0, u32::MAX), (0x0102_0304, 0x8070_6050)] {
        let addr = NetlinkAddr::new(pid, groups);
        assert_eq!(addr.pid(), pid);
        assert_eq!(addr.groups(), groups);
        assert_eq!(sockaddr_to_netlinkaddr(&addr.as_sockaddr()), Ok(addr));
    }
}

#[test]
fn generic_form_is_tagged_and_laid_out_in_host_order() {
    let sa = NetlinkAddr::new(0x0102_0304, 0x0a0b_0c0d).as_sockaddr();
    assert_eq!(sa.sa_family, 16);
    let mut data = vec![0u8, 0];
    data.extend_from_slice(&0x0102_0304u32.to_ne_bytes());
    data.extend_from_slice(&0x0a0b_0c0du32.to_ne_bytes());
    data.extend_from_slice(&[0, 0, 0, 0]);
    assert_eq!(sa.sa_data.to_vec(), data);
}

#[test]
fn generic_form_does_not_swap_bytes() {
    // Little endian only right now
    let sa = NetlinkAddr::new(7, 3).as_sockaddr();
    assert_eq!(sa.sa_data, [0, 0, 7, 0, 0, 0, 3, 0, 0, 0, 0, 0, 0, 0]);
}

#[test]
fn reading_takes_pid_and_groups_from_their_offsets() {
    let mut data = [0xffu8; 14];
    data[2..6].copy_from_slice(&99u32.to_ne_bytes());
    data[6..10].copy_from_slice(&5u32.to_ne_bytes());
    let sa = SockAddr { sa_family: AF_NETLINK as sa_family_t, sa_data: data };
    let addr = sockaddr_to_netlinkaddr(&sa).unwrap();
    assert_eq!(addr.pid(), 99);
    assert_eq!(addr.groups(), 5);
}

#[test]
fn another_family_is_refused() {
    let mut sa = NetlinkAddr::new(7, 3).as_sockaddr();
    sa.sa_family = AF_INET as sa_family_t;
    assert_eq!(sockaddr_to_netlinkaddr(&sa), Err(AddressError::NotNetlink));
    sa.sa_family = 0;
    assert_eq!(sockaddr_to_netlinkaddr(&sa), Err(AddressError::NotNetlink));
    sa.sa_family = 17;
    assert_eq!(sockaddr_to_netlinkaddr(&sa), Err(AddressError::NotNetlink));
    sa.sa_family = 16;
    assert!(sockaddr_to_netlinkaddr(&sa).is_ok());
}
