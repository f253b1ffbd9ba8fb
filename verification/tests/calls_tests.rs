//! Marshaling: exact argument values, sentinels, and NUL rejection.

use keyutils::KeyError;
use keyutils::KeyringSerial;
use keyutils::calls;
use keyutils::calls::Restriction;
use keyutils::constants::KEYCTL_ASSUME_AUTHORITY;
use keyutils::constants::KEYCTL_CHOWN;
use keyutils::constants::KEYCTL_CLEAR;
use keyutils::constants::KEYCTL_DESCRIBE;
use keyutils::constants::KEYCTL_DH_COMPUTE;
use keyutils::constants::KEYCTL_GET_KEYRING_ID;
use keyutils::constants::KEYCTL_GET_PERSISTENT;
use keyutils::constants::KEYCTL_GET_SECURITY;
use keyutils::constants::KEYCTL_INSTANTIATE;
use keyutils::constants::KEYCTL_INVALIDATE;
use keyutils::constants::KEYCTL_JOIN_SESSION_KEYRING;
use keyutils::constants::KEYCTL_LINK;
use keyutils::constants::KEYCTL_NEGATE;
use keyutils::constants::KEYCTL_PKEY_DECRYPT;
use keyutils::constants::KEYCTL_PKEY_ENCRYPT;
use keyutils::constants::KEYCTL_PKEY_QUERY;
use keyutils::constants::KEYCTL_PKEY_SIGN;
use keyutils::constants::KEYCTL_PKEY_VERIFY;
use keyutils::constants::KEYCTL_READ;
use keyutils::constants::KEYCTL_REJECT;
use keyutils::constants::KEYCTL_RESTRICT_KEYRING;
use keyutils::constants::KEYCTL_REVOKE;
use keyutils::constants::KEYCTL_SEARCH;
use keyutils::constants::KEYCTL_SESSION_TO_PARENT;
use keyutils::constants::KEYCTL_SETPERM;
use keyutils::constants::KEYCTL_SET_REQKEY_KEYRING;
use keyutils::constants::KEYCTL_SET_TIMEOUT;
use keyutils::constants::KEYCTL_UNLINK;
use keyutils::constants::KEYCTL_UPDATE;
use keyutils::constants::KEY_POS_ALL;
use keyutils::constants::KEY_REQKEY_DEFL_SESSION_KEYRING;
use keyutils::constants::KEY_USR_VIEW;
use keyutils::dh;
use keyutils::error::EINVAL;
use keyutils::pkey;

fn ser(v: i32) -> KeyringSerial {
    KeyringSerial::new(v).unwrap()
}

#[test]
fn add_key_marshals_terminated_strings() {
    let c = calls::add_key("user", "test", b"secret", ser(-3)).unwrap();
    assert_eq!(c.key_type.as_bytes(), b"user\0");
    assert_eq!(c.description.as_bytes(), b"test\0");
    assert_eq!(c.payload_len, 6);
    assert_eq!(c.keyring, -3);
}

#[test]
fn add_key_rejects_embedded_nul() {
    assert!(matches!(
        calls::add_key("us\0er", "test", b"", ser(1)),
        Err(KeyError::Errno(EINVAL))
    ));
    assert!(matches!(
        calls::add_key("user", "te\0st", b"", ser(1)),
        Err(KeyError::Errno(EINVAL))
    ));
}

#[test]
fn request_key_marshals_optional_callout() {
    let c = calls::request_key("user", "test", Some("info"), Some(ser(5))).unwrap();
    assert_eq!(c.key_type.as_bytes(), b"user\0");
    assert_eq!(c.description.as_bytes(), b"test\0");
    assert_eq!(c.callout.as_ref().unwrap().as_bytes(), b"info\0");
    assert_eq!(c.keyring, 5);

    let c = calls::request_key("user", "test", None, None).unwrap();
    assert!(c.callout.is_none());
    assert_eq!(c.keyring, 0);
}

#[test]
fn request_key_rejects_embedded_nul_in_callout() {
    assert!(matches!(
        calls::request_key("user", "test", Some("in\0fo"), None),
        Err(KeyError::Errno(EINVAL))
    ));
}

#[test]
fn get_keyring_id_encodes_create_flag() {
    let c = calls::keyctl_get_keyring_id(ser(-3), true);
    assert_eq!(c.command, KEYCTL_GET_KEYRING_ID);
    assert_eq!(c.id, -3);
    assert_eq!(c.create, 1);
    let c = calls::keyctl_get_keyring_id(ser(-3), false);
    assert_eq!(c.create, 0);
}

#[test]
fn join_session_keyring_takes_optional_name() {
    let c = calls::keyctl_join_session_keyring(Some("build")).unwrap();
    assert_eq!(c.command, KEYCTL_JOIN_SESSION_KEYRING);
    assert_eq!(c.name.as_ref().unwrap().as_bytes(), b"build\0");
    let c = calls::keyctl_join_session_keyring(None).unwrap();
    assert!(c.name.is_none());
    assert!(matches!(
        calls::keyctl_join_session_keyring(Some("bu\0ild")),
        Err(KeyError::Errno(EINVAL))
    ));
}

#[test]
fn single_serial_calls_carry_their_command() {
    assert_eq!(calls::keyctl_revoke(ser(8)).command, KEYCTL_REVOKE);
    assert_eq!(calls::keyctl_revoke(ser(8)).id, 8);
    assert_eq!(calls::keyctl_clear(ser(9)).command, KEYCTL_CLEAR);
    assert_eq!(calls::keyctl_invalidate(ser(10)).command, KEYCTL_INVALIDATE);
}

#[test]
fn update_carries_payload_length() {
    let c = calls::keyctl_update(ser(4), b"abc");
    assert_eq!(c.command, KEYCTL_UPDATE);
    assert_eq!(c.id, 4);
    assert_eq!(c.payload_len, 3);
}

#[test]
fn chown_maps_absent_halves_to_all_ones() {
    let c = calls::keyctl_chown(ser(4), Some(1000), None);
    assert_eq!(c.command, KEYCTL_CHOWN);
    assert_eq!(c.uid, 1000);
    assert_eq!(c.gid, u32::MAX);
    let c = calls::keyctl_chown(ser(4), None, Some(100));
    assert_eq!(c.uid, u32::MAX);
    assert_eq!(c.gid, 100);
}

#[test]
fn setperm_passes_the_mask() {
    let c = calls::keyctl_setperm(ser(4), KEY_POS_ALL | KEY_USR_VIEW);
    assert_eq!(c.command, KEYCTL_SETPERM);
    assert_eq!(c.perm, 0x3f010000);
}

#[test]
fn size_probe_calls_carry_no_buffer() {
    let c = calls::keyctl_read(ser(4), None);
    assert_eq!(c.command, KEYCTL_READ);
    assert!(!c.has_buffer);
    assert_eq!(c.capacity, 0);
    let c = calls::keyctl_describe(ser(4), Some(64));
    assert_eq!(c.command, KEYCTL_DESCRIBE);
    assert!(c.has_buffer);
    assert_eq!(c.capacity, 64);
    let c = calls::keyctl_get_security(ser(4), None);
    assert_eq!(c.command, KEYCTL_GET_SECURITY);
    assert_eq!(c.capacity, 0);
}

#[test]
fn link_and_unlink_name_both_serials() {
    let c = calls::keyctl_link(ser(2), ser(3));
    assert_eq!((c.command, c.id, c.ringid), (KEYCTL_LINK, 2, 3));
    let c = calls::keyctl_unlink(ser(2), ser(3));
    assert_eq!((c.command, c.id, c.ringid), (KEYCTL_UNLINK, 2, 3));
}

#[test]
fn search_marshals_and_rejects_nul() {
    let c = calls::keyctl_search(ser(-3), "user", "test", None).unwrap();
    assert_eq!(c.command, KEYCTL_SEARCH);
    assert_eq!(c.ringid, -3);
    assert_eq!(c.key_type.as_bytes(), b"user\0");
    assert_eq!(c.description.as_bytes(), b"test\0");
    assert_eq!(c.destringid, 0);
    assert!(matches!(
        calls::keyctl_search(ser(-3), "user", "te\0st", None),
        Err(KeyError::Errno(EINVAL))
    ));
}

#[test]
fn instantiate_and_negate_and_reject() {
    let c = calls::keyctl_instantiate(ser(5), b"payload", Some(ser(6)));
    assert_eq!(c.command, KEYCTL_INSTANTIATE);
    assert_eq!(c.payload_len, 7);
    assert_eq!(c.ringid, 6);
    let c = calls::keyctl_negate(ser(5), 30, None);
    assert_eq!(c.command, KEYCTL_NEGATE);
    assert_eq!(c.timeout, 30);
    assert_eq!(c.ringid, 0);
    let c = calls::keyctl_reject(ser(5), 30, 128, Some(ser(6)));
    assert_eq!(c.command, KEYCTL_REJECT);
    assert_eq!(c.error, 128);
    assert_eq!(c.ringid, 6);
}

#[test]
fn set_reqkey_keyring_encodes_the_selector() {
    let c = calls::keyctl_set_reqkey_keyring(keyutils::DefaultKeyring::Session);
    assert_eq!(c.command, KEYCTL_SET_REQKEY_KEYRING);
    assert_eq!(c.reqkey_defl, KEY_REQKEY_DEFL_SESSION_KEYRING);
}

#[test]
fn small_calls_carry_their_arguments() {
    let c = calls::keyctl_set_timeout(ser(5), 60);
    assert_eq!((c.command, c.key, c.timeout), (KEYCTL_SET_TIMEOUT, 5, 60));
    let c = calls::keyctl_assume_authority(Some(ser(7)));
    assert_eq!((c.command, c.key), (KEYCTL_ASSUME_AUTHORITY, 7));
    let c = calls::keyctl_assume_authority(None);
    assert_eq!(c.key, 0);
    let c = calls::keyctl_get_persistent(1000, ser(-4));
    assert_eq!((c.command, c.uid, c.id), (KEYCTL_GET_PERSISTENT, 1000, -4));
    let c = calls::keyctl_session_to_parent();
    assert_eq!(c.command, KEYCTL_SESSION_TO_PARENT);
}

#[test]
fn restrict_keyring_marshals_both_forms() {
    let c = calls::keyctl_restrict_keyring(ser(2), Restriction::AllLinks).unwrap();
    assert_eq!(c.command, KEYCTL_RESTRICT_KEYRING);
    assert_eq!(c.keyring, 2);
    assert!(c.key_type.is_none());
    assert!(c.restriction.is_none());

    let c = calls::keyctl_restrict_keyring(
        ser(2),
        Restriction::ByType { type_: "asymmetric", restriction: "builtin_trusted" },
    )
    .unwrap();
    assert_eq!(c.key_type.as_ref().unwrap().as_bytes(), b"asymmetric\0");
    assert_eq!(
        c.restriction.as_ref().unwrap().as_bytes(),
        b"builtin_trusted\0"
    );

    assert!(matches!(
        calls::keyctl_restrict_keyring(
            ser(2),
            Restriction::ByType { type_: "asym\0metric", restriction: "x" },
        ),
        Err(KeyError::Errno(EINVAL))
    ));
}

#[test]
fn dh_compute_marshals_three_serials() {
    let c = dh::keyctl_dh_compute(ser(11), ser(12), ser(13), Some(32));
    assert_eq!(c.command, KEYCTL_DH_COMPUTE);
    assert_eq!(c.params.private, 11);
    assert_eq!(c.params.prime, 12);
    assert_eq!(c.params.base, 13);
    assert!(c.has_buffer);
    assert_eq!(c.capacity, 32);
    let c = dh::keyctl_dh_compute(ser(11), ser(12), ser(13), None);
    assert!(!c.has_buffer);
    assert_eq!(c.capacity, 0);
}

#[test]
fn dh_compute_kdf_zeroes_reserved_words() {
    let c =
        dh::keyctl_dh_compute_kdf(ser(11), ser(12), ser(13), "sha256", Some(b"ctx"), Some(64))
            .unwrap();
    assert_eq!(c.command, KEYCTL_DH_COMPUTE);
    assert_eq!(c.kdf.hashname.as_bytes(), b"sha256\0");
    assert_eq!(c.kdf.otherinfo_len, 3);
    assert_eq!(c.kdf.spare, [0u32; 8]);
    assert!(c.has_otherinfo);
    assert!(c.has_buffer);
    assert_eq!(c.capacity, 64);

    let c = dh::keyctl_dh_compute_kdf(ser(11), ser(12), ser(13), "sha256", None, None).unwrap();
    assert_eq!(c.kdf.otherinfo_len, 0);
    assert!(!c.has_otherinfo);

    assert!(matches!(
        dh::keyctl_dh_compute_kdf(ser(11), ser(12), ser(13), "sha\0256", None, None),
        Err(KeyError::Errno(EINVAL))
    ));
}

#[test]
fn pkey_query_marshals_info_string() {
    let c = pkey::keyctl_pkey_query(ser(21), "enc=pkcs1").unwrap();
    assert_eq!(c.command, KEYCTL_PKEY_QUERY);
    assert_eq!(c.key, 21);
    assert_eq!(c.info.as_bytes(), b"enc=pkcs1\0");
    assert!(matches!(
        pkey::keyctl_pkey_query(ser(21), "enc=\0pkcs1"),
        Err(KeyError::Errno(EINVAL))
    ));
}

#[test]
fn pkey_ops_fill_the_length_fields() {
    let c = pkey::keyctl_pkey_encrypt(ser(21), "enc=pkcs1", b"data!", 256).unwrap();
    assert_eq!(c.command, KEYCTL_PKEY_ENCRYPT);
    assert_eq!(c.params.key_id, 21);
    assert_eq!(c.params.in_len, 5);
    assert_eq!(c.params.out_len, 256);
    assert_eq!(c.params.in2_len, 0);

    let c = pkey::keyctl_pkey_decrypt(ser(21), "enc=pkcs1", b"0123456789", 128).unwrap();
    assert_eq!(c.command, KEYCTL_PKEY_DECRYPT);
    assert_eq!(c.params.in_len, 10);
    assert_eq!(c.params.out_len, 128);

    let c = pkey::keyctl_pkey_sign(ser(21), "enc=pkcs1 hash=sha256", b"digest", 512).unwrap();
    assert_eq!(c.command, KEYCTL_PKEY_SIGN);
    assert_eq!(c.info.as_bytes(), b"enc=pkcs1 hash=sha256\0");
    assert_eq!(c.params.out_len, 512);

    let c = pkey::keyctl_pkey_verify(ser(21), "enc=pkcs1", b"digest", b"signature").unwrap();
    assert_eq!(c.command, KEYCTL_PKEY_VERIFY);
    assert_eq!(c.params.in_len, 6);
    assert_eq!(c.params.out_len, 0);
    assert_eq!(c.params.in2_len, 9);

    assert!(matches!(
        pkey::keyctl_pkey_sign(ser(21), "hash=\0", b"d", 16),
        Err(KeyError::Errno(EINVAL))
    ));
}

#[test]
fn pkey_query_kernel_starts_zeroed_and_converts() {
    let z = pkey::PKeyQueryKernel::zeroed();
    assert_eq!(z.supported_ops, 0);
    assert_eq!(z.key_size, 0);
    assert_eq!(z.spare, [0u32; 10]);

    let mut k = pkey::PKeyQueryKernel::zeroed();
    k.supported_ops = 0x7;
    k.key_size = 2048;
    k.max_data_size = 256;
    k.max_sig_size = 256;
    k.max_enc_size = 256;
    k.max_dec_size = 256;
    k.spare = [0xdead_beef; 10];
    let q: pkey::PKeyQuery = k.into();
    assert_eq!(
        q,
        pkey::PKeyQuery {
            supported_ops: 0x7,
            key_size: 2048,
            max_data_size: 256,
            max_sig_size: 256,
            max_enc_size: 256,
            max_dec_size: 256,
        }
    );
}
