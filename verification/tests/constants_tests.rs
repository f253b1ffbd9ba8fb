//! The constants table: fixed kernel values and the permission-bit layout.

use keyutils::constants::KEYCTL_ASSUME_AUTHORITY;
use keyutils::constants::KEYCTL_CHOWN;
use keyutils::constants::KEYCTL_CLEAR;
use keyutils::constants::KEYCTL_DESCRIBE;
use keyutils::constants::KEYCTL_DH_COMPUTE;
use keyutils::constants::KEYCTL_GET_KEYRING_ID;
use keyutils::constants::KEYCTL_GET_PERSISTENT;
use keyutils::constants::KEYCTL_GET_SECURITY;
use keyutils::constants::KEYCTL_INSTANTIATE;
use keyutils::constants::KEYCTL_INVALIDATE;
use keyutils::constants::KEYCTL_JOIN_SESSION_KEYRING;
use keyutils::constants::KEYCTL_LINK;
use keyutils::constants::KEYCTL_NEGATE;
use keyutils::constants::KEYCTL_PKEY_DECRYPT;
use keyutils::constants::KEYCTL_PKEY_ENCRYPT;
use keyutils::constants::KEYCTL_PKEY_QUERY;
use keyutils::constants::KEYCTL_PKEY_SIGN;
use keyutils::constants::KEYCTL_PKEY_VERIFY;
use keyutils::constants::KEYCTL_READ;
use keyutils::constants::KEYCTL_REJECT;
use keyutils::constants::KEYCTL_RESTRICT_KEYRING;
use keyutils::constants::KEYCTL_REVOKE;
use keyutils::constants::KEYCTL_SEARCH;
use keyutils::constants::KEYCTL_SESSION_TO_PARENT;
use keyutils::constants::KEYCTL_SETPERM;
use keyutils::constants::KEYCTL_SET_REQKEY_KEYRING;
use keyutils::constants::KEYCTL_SET_TIMEOUT;
use keyutils::constants::KEYCTL_UNLINK;
use keyutils::constants::KEYCTL_UPDATE;
use keyutils::constants::KEY_GRP_ALL;
use keyutils::constants::KEY_GRP_LINK;
use keyutils::constants::KEY_GRP_READ;
use keyutils::constants::KEY_GRP_SEARCH;
use keyutils::constants::KEY_GRP_SETATTR;
use keyutils::constants::KEY_GRP_VIEW;
use keyutils::constants::KEY_GRP_WRITE;
use keyutils::constants::KEY_OTH_ALL;
use keyutils::constants::KEY_OTH_LINK;
use keyutils::constants::KEY_OTH_READ;
use keyutils::constants::KEY_OTH_SEARCH;
use keyutils::constants::KEY_OTH_SETATTR;
use keyutils::constants::KEY_OTH_VIEW;
use keyutils::constants::KEY_OTH_WRITE;
use keyutils::constants::KEY_POS_ALL;
use keyutils::constants::KEY_POS_LINK;
use keyutils::constants::KEY_POS_READ;
use keyutils::constants::KEY_POS_SEARCH;
use keyutils::constants::KEY_POS_SETATTR;
use keyutils::constants::KEY_POS_VIEW;
use keyutils::constants::KEY_POS_WRITE;
use keyutils::constants::KEY_REQKEY_DEFL_DEFAULT;
use keyutils::constants::KEY_REQKEY_DEFL_GROUP_KEYRING;
use keyutils::constants::KEY_REQKEY_DEFL_NO_CHANGE;
use keyutils::constants::KEY_REQKEY_DEFL_PROCESS_KEYRING;
use keyutils::constants::KEY_REQKEY_DEFL_SESSION_KEYRING;
use keyutils::constants::KEY_REQKEY_DEFL_THREAD_KEYRING;
use keyutils::constants::KEY_REQKEY_DEFL_USER_KEYRING;
use keyutils::constants::KEY_REQKEY_DEFL_USER_SESSION_KEYRING;
use keyutils::constants::KEY_SPEC_GROUP_KEYRING;
use keyutils::constants::KEY_SPEC_PROCESS_KEYRING;
use keyutils::constants::KEY_SPEC_REQKEY_AUTH_KEY;
use keyutils::constants::KEY_SPEC_SESSION_KEYRING;
use keyutils::constants::KEY_SPEC_THREAD_KEYRING;
use keyutils::constants::KEY_SPEC_USER_KEYRING;
use keyutils::constants::KEY_SPEC_USER_SESSION_KEYRING;
use keyutils::constants::KEY_TYPE_LOGON;
use keyutils::constants::KEY_TYPE_USER;
use keyutils::constants::KEY_USR_ALL;
use keyutils::constants::KEY_USR_LINK;
use keyutils::constants::KEY_USR_READ;
use keyutils::constants::KEY_USR_SEARCH;
use keyutils::constants::KEY_USR_SETATTR;
use keyutils::constants::KEY_USR_VIEW;
use keyutils::constants::KEY_USR_WRITE;

#[test]
fn special_keyring_values() {
    assert_eq!(KEY_SPEC_THREAD_KEYRING, -1);
    assert_eq!(KEY_SPEC_PROCESS_KEYRING, -2);
    assert_eq!(KEY_SPEC_SESSION_KEYRING, -3);
    assert_eq!(KEY_SPEC_USER_KEYRING, -4);
    assert_eq!(KEY_SPEC_USER_SESSION_KEYRING, -5);
    assert_eq!(KEY_SPEC_GROUP_KEYRING, -6);
    assert_eq!(KEY_SPEC_REQKEY_AUTH_KEY, -7);
}

#[test]
fn default_keyring_selector_values() {
    assert_eq!(KEY_REQKEY_DEFL_NO_CHANGE, -1);
    assert_eq!(KEY_REQKEY_DEFL_DEFAULT, 0);
    assert_eq!(KEY_REQKEY_DEFL_THREAD_KEYRING, 1);
    assert_eq!(KEY_REQKEY_DEFL_PROCESS_KEYRING, 2);
    assert_eq!(KEY_REQKEY_DEFL_SESSION_KEYRING, 3);
    assert_eq!(KEY_REQKEY_DEFL_USER_KEYRING, 4);
    assert_eq!(KEY_REQKEY_DEFL_USER_SESSION_KEYRING, 5);
    assert_eq!(KEY_REQKEY_DEFL_GROUP_KEYRING, 6);
}

#[test]
fn key_type_names() {
    assert_eq!(KEY_TYPE_USER, "user");
    assert_eq!(KEY_TYPE_LOGON, "logon");
}

#[test]
fn permission_all_is_union_of_bits() {
    assert_eq!(
        KEY_POS_ALL,
        KEY_POS_VIEW | KEY_POS_READ | KEY_POS_WRITE | KEY_POS_SEARCH | KEY_POS_LINK
            | KEY_POS_SETATTR
    );
    assert_eq!(
        KEY_USR_ALL,
        KEY_USR_VIEW | KEY_USR_READ | KEY_USR_WRITE | KEY_USR_SEARCH | KEY_USR_LINK
            | KEY_USR_SETATTR
    );
    assert_eq!(
        KEY_GRP_ALL,
        KEY_GRP_VIEW | KEY_GRP_READ | KEY_GRP_WRITE | KEY_GRP_SEARCH | KEY_GRP_LINK
            | KEY_GRP_SETATTR
    );
    assert_eq!(
        KEY_OTH_ALL,
        KEY_OTH_VIEW | KEY_OTH_READ | KEY_OTH_WRITE | KEY_OTH_SEARCH | KEY_OTH_LINK
            | KEY_OTH_SETATTR
    );
}

#[test]
fn permission_classes_are_disjoint() {
    assert_eq!(KEY_POS_ALL & KEY_USR_ALL, 0);
    assert_eq!(KEY_POS_ALL & KEY_GRP_ALL, 0);
    assert_eq!(KEY_POS_ALL & KEY_OTH_ALL, 0);
    assert_eq!(KEY_USR_ALL & KEY_GRP_ALL, 0);
    assert_eq!(KEY_USR_ALL & KEY_OTH_ALL, 0);
    assert_eq!(KEY_GRP_ALL & KEY_OTH_ALL, 0);
}

#[test]
fn permission_classes_are_shifted_copies() {
    let oth = [
        KEY_OTH_VIEW,
        KEY_OTH_READ,
        KEY_OTH_WRITE,
        KEY_OTH_SEARCH,
        KEY_OTH_LINK,
        KEY_OTH_SETATTR,
        KEY_OTH_ALL,
    ];
    let grp = [
        KEY_GRP_VIEW,
        KEY_GRP_READ,
        KEY_GRP_WRITE,
        KEY_GRP_SEARCH,
        KEY_GRP_LINK,
        KEY_GRP_SETATTR,
        KEY_GRP_ALL,
    ];
    let usr = [
        KEY_USR_VIEW,
        KEY_USR_READ,
        KEY_USR_WRITE,
        KEY_USR_SEARCH,
        KEY_USR_LINK,
        KEY_USR_SETATTR,
        KEY_USR_ALL,
    ];
    let pos = [
        KEY_POS_VIEW,
        KEY_POS_READ,
        KEY_POS_WRITE,
        KEY_POS_SEARCH,
        KEY_POS_LINK,
        KEY_POS_SETATTR,
        KEY_POS_ALL,
    ];
    for i in 0..7 {
        assert_eq!(grp[i], oth[i] << 8);
        assert_eq!(usr[i], oth[i] << 16);
        assert_eq!(pos[i], oth[i] << 24);
    }
    for (i, bit) in oth[..6].iter().enumerate() {
        assert_eq!(*bit, 1u32 << i);
    }
}

#[test]
fn keyctl_command_codes() {
    assert_eq!(KEYCTL_GET_KEYRING_ID, 0);
    assert_eq!(KEYCTL_JOIN_SESSION_KEYRING, 1);
    assert_eq!(KEYCTL_UPDATE, 2);
    assert_eq!(KEYCTL_REVOKE, 3);
    assert_eq!(KEYCTL_CHOWN, 4);
    assert_eq!(KEYCTL_SETPERM, 5);
    assert_eq!(KEYCTL_DESCRIBE, 6);
    assert_eq!(KEYCTL_CLEAR, 7);
    assert_eq!(KEYCTL_LINK, 8);
    assert_eq!(KEYCTL_UNLINK, 9);
    assert_eq!(KEYCTL_SEARCH, 10);
    assert_eq!(KEYCTL_READ, 11);
    assert_eq!(KEYCTL_INSTANTIATE, 12);
    assert_eq!(KEYCTL_NEGATE, 13);
    assert_eq!(KEYCTL_SET_REQKEY_KEYRING, 14);
    assert_eq!(KEYCTL_SET_TIMEOUT, 15);
    assert_eq!(KEYCTL_ASSUME_AUTHORITY, 16);
    assert_eq!(KEYCTL_GET_SECURITY, 17);
    assert_eq!(KEYCTL_SESSION_TO_PARENT, 18);
    assert_eq!(KEYCTL_REJECT, 19);
    assert_eq!(KEYCTL_INVALIDATE, 21);
    assert_eq!(KEYCTL_GET_PERSISTENT, 22);
    assert_eq!(KEYCTL_DH_COMPUTE, 23);
    assert_eq!(KEYCTL_PKEY_QUERY, 24);
    assert_eq!(KEYCTL_PKEY_ENCRYPT, 25);
    assert_eq!(KEYCTL_PKEY_DECRYPT, 26);
    assert_eq!(KEYCTL_PKEY_SIGN, 27);
    assert_eq!(KEYCTL_PKEY_VERIFY, 28);
    assert_eq!(KEYCTL_RESTRICT_KEYRING, 29);
}
