use proxmox::errno::Errno;
use proxmox::xattr::{
    fgetxattr, flistxattr, fsetxattr, fsetxattr_fcaps, is_acl, is_security_capability,
    is_valid_xattr_name, xattr_acl_access, xattr_acl_default, xattr_name_fcaps, GetXAttrStep,
    ListXAttr, ListXAttrStep, XAttrName,
};

fn name(bytes: &[u8]) -> XAttrName<'_> {
    XAttrName::from_bytes_with_nul(bytes).unwrap()
}

#[test]
fn test_is_valid_xattr_name() {
    let mut too_long = vec![b'a'; 265];
    too_long.push(0);

    assert!(!is_valid_xattr_name(&name(&too_long)));
    assert!(!is_valid_xattr_name(&name(b"system.attr\0")));
    assert!(is_valid_xattr_name(&name(b"user.attr\0")));
    assert!(is_valid_xattr_name(&name(b"trusted.attr\0")));
    assert!(is_valid_xattr_name(&xattr_name_fcaps()));
}

#[test]
fn length_limit_is_255_bytes() {
    let mut long = b"user.".to_vec();
    long.resize(255, b'x');
    long.push(0);
    assert!(is_valid_xattr_name(&name(&long)));
    long.insert(5, b'x');
    assert!(!is_valid_xattr_name(&name(&long)));
    assert!(!is_valid_xattr_name(&name(b"\0")));
}

#[test]
fn whole_names_and_prefixes() {
    assert!(is_valid_xattr_name(&name(b"security.NTACL\0")));
    assert!(!is_valid_xattr_name(&name(b"security.NTACL2\0")));
    assert!(!is_valid_xattr_name(&name(b"security.NTAC\0")));
    assert!(!is_valid_xattr_name(&name(b"security.capability2\0")));
    assert!(is_valid_xattr_name(&name(b"user.\0")));
    assert!(!is_valid_xattr_name(&name(b"user\0")));
    assert!(is_valid_xattr_name(&name(b"trusted.\0")));
}

#[test]
fn well_known_names() {
    assert_eq!(xattr_name_fcaps().to_bytes(), b"security.capability");
    assert_eq!(xattr_acl_access().to_bytes(), b"system.posix_acl_access");
    assert_eq!(xattr_acl_default().to_bytes(), b"system.posix_acl_default");
    assert!(is_security_capability(&name(b"security.capability\0")));
    assert!(!is_security_capability(&name(b"security.Capability\0")));
    assert!(is_acl(&xattr_acl_access()));
    assert!(is_acl(&xattr_acl_default()));
    assert!(!is_acl(&xattr_name_fcaps()));
    assert!(!is_valid_xattr_name(&xattr_acl_access()));
    assert!(!is_valid_xattr_name(&xattr_acl_default()));
}

#[test]
fn names_end_in_their_only_zero() {
    assert!(XAttrName::from_bytes_with_nul(b"user.\0x\0").is_none());
    assert!(XAttrName::from_bytes_with_nul(b"user.x\0\0").is_none());
    assert!(XAttrName::from_bytes_with_nul(b"user.x").is_none());
    assert!(XAttrName::from_bytes_with_nul(b"").is_none());
    assert_eq!(name(b"\0").to_bytes(), b"");
    assert_eq!(name(b"user.x\0").to_bytes(), b"user.x");
    assert_eq!(name(b"user.x\0").to_bytes_with_nul(), b"user.x\0");
    assert_eq!(xattr_name_fcaps().to_bytes_with_nul(), b"security.capability\0");
    assert_eq!(xattr_acl_access().to_bytes_with_nul(), b"system.posix_acl_access\0");
    assert_eq!(xattr_acl_default().to_bytes_with_nul(), b"system.posix_acl_default\0");
}

fn all_names(list: &ListXAttr) -> Vec<Vec<u8>> {
    let mut iter = list.into_iter();
    let mut names = Vec::new();
    while let Some(name) = iter.next() {
        assert_eq!(name.to_bytes_with_nul().last(), Some(&0));
        names.push(name.to_bytes().to_vec());
    }
    assert!(iter.next().is_none());
    names
}

#[test]
fn list_gives_its_names_back() {
    let list = ListXAttr::new(b"user.a\0security.capability\0\0trusted.b\0".to_vec());
    assert_eq!(
        all_names(&list),
        vec![
            b"user.a".to_vec(),
            b"security.capability".to_vec(),
            b"".to_vec(),
            b"trusted.b".to_vec(),
        ]
    );
}

#[test]
fn bytes_after_the_last_zero_are_no_name() {
    assert_eq!(all_names(&ListXAttr::new(b"user.a\0rest".to_vec())), vec![b"user.a".to_vec()]);
    assert!(all_names(&ListXAttr::new(b"rest".to_vec())).is_empty());
    assert!(all_names(&ListXAttr::new(Vec::new())).is_empty());
}

#[test]
fn listing_doubles_the_buffer_until_it_fits() {
    let mut call = flistxattr(7);
    assert_eq!(call.fd, 7);
    assert_eq!(call.buffer.len(), 256);
    for room in [512, 1024, 2048] {
        call = match call.step(-1, 34) {
            ListXAttrStep::Retry(call) => call,
            ListXAttrStep::Done(_) => panic!("the call has to be made again"),
        };
        assert_eq!(call.fd, 7);
        assert_eq!(call.buffer.len(), room);
    }
    call.buffer[..7].copy_from_slice(b"user.x\0");
    match call.step(7, 0) {
        ListXAttrStep::Done(Ok(list)) => assert_eq!(all_names(&list), vec![b"user.x".to_vec()]),
        _ => panic!("the list is complete"),
    }
}

#[test]
fn listing_fails_with_the_errno() {
    assert!(matches!(flistxattr(7).step(-1, 9), ListXAttrStep::Done(Err(Errno::Other(9)))));
    assert!(matches!(flistxattr(7).step(-1, 2), ListXAttrStep::Done(Err(Errno::ENOENT))));
    assert!(matches!(flistxattr(7).step(-1, 4000), ListXAttrStep::Done(Err(Errno::Other(0)))));
}

#[test]
fn reading_doubles_the_buffer_until_it_fits() {
    let call = fgetxattr(5, name(b"user.x\0"));
    assert_eq!(call.fd, 5);
    assert_eq!(call.buffer.len(), 256);
    let mut call = match call.step(-1, 34) {
        GetXAttrStep::Retry(call) => call,
        GetXAttrStep::Done(_) => panic!("the call has to be made again"),
    };
    assert_eq!(call.buffer.len(), 512);
    assert_eq!(call.name.to_bytes(), b"user.x");
    call.buffer[..3].copy_from_slice(b"abc");
    match call.step(3, 0) {
        GetXAttrStep::Done(Ok(value)) => assert_eq!(value, b"abc"),
        _ => panic!("the value is complete"),
    }
}

#[test]
fn more_bytes_than_room() {
    let mut call = flistxattr(7);
    call.buffer.fill(b'x');
    call.buffer[255] = 0;
    match call.step(300, 0) {
        ListXAttrStep::Done(Ok(list)) => assert_eq!(all_names(&list), vec![vec![b'x'; 255]]),
        _ => panic!("the list is complete"),
    }
    let mut call = fgetxattr(5, name(b"user.x\0"));
    call.buffer.fill(b'x');
    match call.step(300, 0) {
        GetXAttrStep::Done(Ok(value)) => {
            assert_eq!(value[..256], [b'x'; 256]);
            assert_eq!(value[256..], [0; 44]);
        }
        _ => panic!("the value is complete"),
    }
}

#[test]
fn reading_fails_with_the_errno() {
    assert!(matches!(
        fgetxattr(5, name(b"user.x\0")).step(-1, 61),
        GetXAttrStep::Done(Err(Errno::Other(61)))
    ));
}

#[test]
fn setting_hands_on_its_arguments() {
    let call = fsetxattr(4, name(b"user.x\0"), b"value");
    assert_eq!((call.fd, call.flags), (4, 0));
    assert_eq!(call.name.to_bytes(), b"user.x");
    assert_eq!(call.data, b"value");
    assert_eq!(call.finish(0, 17), Ok(()));
    assert_eq!(fsetxattr(4, name(b"user.x\0"), b"value").finish(-1, 17), Err(Errno::EEXIST));
}

#[test]
fn setting_capabilities_uses_their_name() {
    let call = fsetxattr_fcaps(4, b"caps");
    assert_eq!((call.fd, call.flags), (4, 0));
    assert_eq!(call.name.to_bytes(), b"security.capability");
    assert_eq!(call.data, b"caps");
    assert_eq!(call.finish(-1, 95), Err(Errno::Other(95)));
}

/// Reads an attribute as the kernel would answer for one that has this value.
fn read_back(value: &[u8]) -> (Vec<u8>, usize) {
    let mut call = fgetxattr(3, name(b"user.x\0"));
    let mut retries = 0;
    loop {
        let room = call.buffer.len();
        let step = if value.len() <= room {
            call.buffer[..value.len()].copy_from_slice(value);
            call.step(value.len() as isize, 0)
        } else {
            call.step(-1, 34)
        };
        match step {
            GetXAttrStep::Retry(again) => call = again,
            GetXAttrStep::Done(Ok(read)) => return (read, retries),
            GetXAttrStep::Done(Err(_)) => panic!("the attribute is there"),
        }
        retries += 1;
    }
}

#[test]
fn what_was_set_is_read() {
    for (len, retries) in [(0, 0), (1, 0), (256, 0), (257, 1), (512, 1), (513, 2), (65536, 8)] {
        let value: Vec<u8> = (0..len).map(|i| (i % 251) as u8).collect();
        let set = fsetxattr(3, name(b"user.x\0"), &value);
        let kept = set.data.to_vec();
        assert_eq!(set.finish(0, 0), Ok(()));
        assert_eq!(read_back(&kept), (value, retries));
    }
}

#[test]
fn long_lists_give_all_names() {
    let names: Vec<Vec<u8>> = (0..100).map(|i| format!("user.attribute{}", i).into_bytes()).collect();
    let mut kept = Vec::new();
    for name in &names {
        kept.extend_from_slice(name);
        kept.push(0);
    }
    let mut call = flistxattr(3);
    loop {
        let step = if kept.len() <= call.buffer.len() {
            call.buffer[..kept.len()].copy_from_slice(&kept);
            call.step(kept.len() as isize, 0)
        } else {
            call.step(-1, 34)
        };
        match step {
            ListXAttrStep::Retry(again) => call = again,
            ListXAttrStep::Done(Ok(list)) => {
                assert_eq!(all_names(&list), names);
                return;
            }
            ListXAttrStep::Done(Err(_)) => panic!("the list is there"),
        }
    }
}
