use aes::cipher::{BlockEncryptMut, KeyIvInit};
use gancube::crypt::{CryptKey, Decryptor};

// One fresh single-block CBC encryption, the inverse of the decryptor's
// single-block step.
fn encrypt_block_at(buf: &mut [u8], off: usize, key: &[u8], iv: &[u8]) {
    let mut cipher = cbc::Encryptor::<aes::Aes128Enc>::new_from_slices(key, iv).unwrap();
    let block = aes::cipher::Block::<cbc::Encryptor<aes::Aes128Enc>>::from_mut_slice(
        &mut buf[off..off + 16],
    );
    cipher.encrypt_block_mut(block);
}

// Encrypts the way the device does: first block first, last block second,
// each as an independent single-block encryption with the same key and IV.
fn encrypt_like_device(plain: &[u8], key: &[u8], iv: &[u8]) -> Vec<u8> {
    let mut c = plain.to_vec();
    encrypt_block_at(&mut c, 0, key, iv);
    let len = c.len();
    encrypt_block_at(&mut c, len - 16, key, iv);
    c
}

fn salt_reference(base: &[u8], addr: &[u8; 6]) -> Vec<u8> {
    let mut out = base.to_vec();
    let mut rev = *addr;
    rev.reverse();
    for n in 0..6 {
        out[n] = ((base[n] as u16 + rev[n] as u16) % 255) as u8;
    }
    out
}

#[test]
fn effective_key_differs_only_in_first_six_bytes() {
    let addr = [0xA1, 0xB2, 0xC3, 0xD4, 0xE5, 0xF6];
    for family in [CryptKey::Gan, CryptKey::MoYu] {
        let (base_key, base_iv) = family.bytes();
        let dec = Decryptor::new(family, addr);
        let key = dec.effective_key();
        let iv = dec.effective_iv();
        assert_eq!(key.len(), 16);
        assert_eq!(iv.len(), 16);
        assert_eq!(&key[6..], &base_key[6..]);
        assert_eq!(&iv[6..], &base_iv[6..]);
        assert_eq!(key, salt_reference(&base_key, &addr));
        assert_eq!(iv, salt_reference(&base_iv, &addr));
    }
}

#[test]
fn derivation_is_deterministic() {
    let addr = [0x01, 0x23, 0x45, 0x67, 0x89, 0xAB];
    let a = Decryptor::new(CryptKey::Gan, addr);
    let b = Decryptor::new(CryptKey::Gan, addr);
    assert_eq!(a.effective_key(), b.effective_key());
    assert_eq!(a.effective_iv(), b.effective_iv());
}

#[test]
fn round_trip_recovers_plaintext() {
    // 20 bytes: the two 16-byte blocks overlap, as in a real notification.
    let plain: Vec<u8> = (0u8..20).collect();
    let addr = [0x10, 0x20, 0x30, 0x40, 0x50, 0x60];
    for family in [CryptKey::Gan, CryptKey::MoYu] {
        let dec = Decryptor::new(family, addr);
        let cipher = encrypt_like_device(&plain, &dec.effective_key(), &dec.effective_iv());
        assert_ne!(cipher, plain);
        assert_eq!(dec.decrypt(&cipher), plain);
    }
}

#[test]
fn round_trip_without_block_overlap() {
    let plain: Vec<u8> = (0u8..40).map(|b| b.wrapping_mul(7)).collect();
    let addr = [0x00, 0x00, 0x00, 0x00, 0x00, 0x01];
    let dec = Decryptor::new(CryptKey::Gan, addr);
    let cipher = encrypt_like_device(&plain, &dec.effective_key(), &dec.effective_iv());
    assert_eq!(dec.decrypt(&cipher), plain);
}

#[test]
fn bytes_between_the_blocks_stay_untouched() {
    // 40 bytes: only [0,16) and [24,40) are blocks; [16,24) must pass through.
    let data: Vec<u8> = (100u8..140).collect();
    let addr = [0x99, 0x88, 0x77, 0x66, 0x55, 0x44];
    let dec = Decryptor::new(CryptKey::MoYu, addr);
    let out = dec.decrypt(&data);
    assert_eq!(out.len(), data.len());
    assert_eq!(&out[16..24], &data[16..24]);
}
