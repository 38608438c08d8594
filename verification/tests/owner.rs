use tun::mio_wrapper::{Tap, Tun};

#[test]
fn tun_owner_hands_the_descriptor_out_once() {
    let mut owner = Tun::from_fd(7);
    assert_eq!(owner.fd(), Some(7));
    assert_eq!(owner.close(), Some(7));
    assert_eq!(owner.fd(), None);
    assert_eq!(owner.close(), None);
    assert_eq!(owner.close(), None);
}

#[test]
fn tap_owner_hands_the_descriptor_out_once() {
    let mut owner = Tap::from_fd(0);
    assert_eq!(owner.fd(), Some(0));
    assert_eq!(owner.close(), Some(0));
    assert_eq!(owner.close(), None);
    assert_eq!(owner.fd(), None);
}
