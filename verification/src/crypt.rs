//! Address-salted decryption of cube notifications.
//!
//! Each device family ships one fixed AES-128 key/IV pair. A session key is
//! derived by salting the first six bytes of both with the device's hardware
//! address, and every notification is decrypted as two independent 16-byte
//! blocks taken from the two ends of the buffer — not as one chained stream.

use vstd::prelude::*;

use crate::stream::PollNext;

verus! {

/// The two supported device families, each with its own base key material.
#[derive(Clone, Copy, Debug)]
pub enum CryptKey {
    /// Key used by GAN Gen2, Gen3 and Gen4 cubes.
    Gan,
    /// Key used by MoYu AI 2023.
    MoYu,
}

/// Base AES-128 key of a device family.
pub open spec fn base_key(k: CryptKey) -> Seq<u8> {
    match k {
        CryptKey::Gan => seq![
            0x01u8, 0x02, 0x42, 0x28, 0x31, 0x91, 0x16, 0x07, 0x20, 0x05, 0x18, 0x54, 0x42, 0x11,
            0x12, 0x53,
        ],
        CryptKey::MoYu => seq![
            0x05u8, 0x12, 0x02, 0x45, 0x02, 0x01, 0x29, 0x56, 0x12, 0x78, 0x12, 0x76, 0x81, 0x01,
            0x08, 0x03,
        ],
    }
}

/// Base AES-128 initialization vector of a device family.
pub open spec fn base_iv(k: CryptKey) -> Seq<u8> {
    match k {
        CryptKey::Gan => seq![
            0x11u8, 0x03, 0x32, 0x28, 0x21, 0x01, 0x76, 0x27, 0x20, 0x95, 0x78, 0x14, 0x32, 0x12,
            0x02, 0x43,
        ],
        CryptKey::MoYu => seq![
            0x01u8, 0x44, 0x28, 0x06, 0x86, 0x21, 0x22, 0x28, 0x51, 0x05, 0x08, 0x31, 0x82, 0x02,
            0x21, 0x06,
        ],
    }
}

/// The effective key material for one device: the hardware address is
/// reversed, and each of its six bytes is added modulo 255 to the matching
/// byte of the base material; bytes 6 to 15 stay as they are.
pub open spec fn salted_bytes(base: Seq<u8>, mac: Seq<u8>) -> Seq<u8>
    recommends
        base.len() == 16,
        mac.len() == 6,
{
    Seq::new(
        base.len(),
        |n: int|
            if n < 6 {
                ((base[n] + mac[5 - n]) % 255) as u8
            } else {
                base[n]
            },
    )
}

/// What one fresh AES-128-CBC decryption of a single 16-byte block yields.
/// The value depends on the key, the IV and the block alone.
pub uninterp spec fn aes128_cbc_decrypt_block(key: Seq<u8>, iv: Seq<u8>, block: Seq<u8>) -> Seq<u8>;

/// Relies on `cbc::Decryptor<aes::Aes128Dec>`: a cipher built fresh from a
/// key and IV and asked to decrypt exactly one block writes 16 bytes that are
/// a function of the key, the IV and the block alone.
#[verifier::external_body]
fn decrypt_block(key: &Vec<u8>, iv: &Vec<u8>, block: &Vec<u8>) -> (r: Vec<u8>)
    requires
        key@.len() == 16,
        iv@.len() == 16,
        block@.len() == 16,
    ensures
        r@ == aes128_cbc_decrypt_block(key@, iv@, block@),
        r@.len() == 16,
{
    let mut out = block.clone();
    let mut cipher = <cbc::Decryptor<aes::Aes128Dec> as aes::cipher::KeyIvInit>::new(
        aes::cipher::Key::<cbc::Decryptor<aes::Aes128Dec>>::from_slice(key.as_slice()),
        aes::cipher::Iv::<cbc::Decryptor<aes::Aes128Dec>>::from_slice(iv.as_slice()),
    );
    aes::cipher::BlockDecryptMut::decrypt_block_mut(
        &mut cipher,
        aes::cipher::Block::<cbc::Decryptor<aes::Aes128Dec>>::from_mut_slice(out.as_mut_slice()),
    );
    out
}

/// `data` with the 16 bytes at `off` replaced by their fresh single-block
/// decryption.
pub open spec fn block_decrypted(key: Seq<u8>, iv: Seq<u8>, data: Seq<u8>, off: int) -> Seq<u8>
    recommends
        0 <= off,
        off + 16 <= data.len(),
{
    data.subrange(0, off) + aes128_cbc_decrypt_block(key, iv, data.subrange(off, off + 16))
        + data.subrange(off + 16, data.len() as int)
}

/// The whole decryption scheme: first the last 16 bytes are decrypted as one
/// independent block, then the first 16 bytes of the result are decrypted as
/// a second independent block with the same key and IV. Bytes strictly
/// between the two blocks are untouched.
pub open spec fn decrypt_spec(key: Seq<u8>, iv: Seq<u8>, data: Seq<u8>) -> Seq<u8>
    recommends
        data.len() > 16,
{
    block_decrypted(key, iv, block_decrypted(key, iv, data, data.len() - 16), 0)
}

/// A decryptor bound to one device session: the family key and IV already
/// salted with the device's hardware address.
pub struct Decryptor {
    key: Vec<u8>,
    iv: Vec<u8>,
}

impl CryptKey {
    /// The family's base (key, IV) pair.
    pub fn bytes(&self) -> (r: (Vec<u8>, Vec<u8>))
        ensures
            r.0@ == base_key(*self),
            r.1@ == base_iv(*self),
    {
        match self {
            CryptKey::Gan => {
                let k = byte_vec16(
                    0x01, 0x02, 0x42, 0x28, 0x31, 0x91, 0x16, 0x07, 0x20, 0x05, 0x18, 0x54, 0x42,
                    0x11, 0x12, 0x53,
                );
                let iv = byte_vec16(
                    0x11, 0x03, 0x32, 0x28, 0x21, 0x01, 0x76, 0x27, 0x20, 0x95, 0x78, 0x14, 0x32,
                    0x12, 0x02, 0x43,
                );
                proof {
                    assert(k@ =~= base_key(CryptKey::Gan));
                    assert(iv@ =~= base_iv(CryptKey::Gan));
                }
                (k, iv)
            },
            CryptKey::MoYu => {
                let k = byte_vec16(
                    0x05, 0x12, 0x02, 0x45, 0x02, 0x01, 0x29, 0x56, 0x12, 0x78, 0x12, 0x76, 0x81,
                    0x01, 0x08, 0x03,
                );
                let iv = byte_vec16(
                    0x01, 0x44, 0x28, 0x06, 0x86, 0x21, 0x22, 0x28, 0x51, 0x05, 0x08, 0x31, 0x82,
                    0x02, 0x21, 0x06,
                );
                proof {
                    assert(k@ =~= base_key(CryptKey::MoYu));
                    assert(iv@ =~= base_iv(CryptKey::MoYu));
                }
                (k, iv)
            },
        }
    }
}

/// A 16-byte vector from its bytes.
fn byte_vec16(
    b0: u8,
    b1: u8,
    b2: u8,
    b3: u8,
    b4: u8,
    b5: u8,
    b6: u8,
    b7: u8,
    b8: u8,
    b9: u8,
    b10: u8,
    b11: u8,
    b12: u8,
    b13: u8,
    b14: u8,
    b15: u8,
) -> (v: Vec<u8>)
    ensures
        v@ =~= seq![b0, b1, b2, b3, b4, b5, b6, b7, b8, b9, b10, b11, b12, b13, b14, b15],
{
    let mut v: Vec<u8> = Vec::new();
    v.push(b0);
    v.push(b1);
    v.push(b2);
    v.push(b3);
    v.push(b4);
    v.push(b5);
    v.push(b6);
    v.push(b7);
    v.push(b8);
    v.push(b9);
    v.push(b10);
    v.push(b11);
    v.push(b12);
    v.push(b13);
    v.push(b14);
    v.push(b15);
    v
}

/// Copies `v`.
fn clone_bytes(v: &Vec<u8>) -> (r: Vec<u8>)
    ensures
        r@ == v@,
{
    let mut r: Vec<u8> = Vec::new();
    let mut i: usize = 0;
    while i < v.len()
        invariant
            i <= v@.len(),
            r@ == v@.subrange(0, i as int),
        decreases v@.len() - i,
    {
        r.push(v[i]);
        proof {
            assert(r@ =~= v@.subrange(0, i + 1 as int));
        }
        i = i + 1;
    }
    proof {
        assert(r@ =~= v@);
    }
    r
}

/// The 16 bytes of `v` starting at `off`.
fn take_block(v: &Vec<u8>, off: usize) -> (b: Vec<u8>)
    requires
        off + 16 <= v@.len(),
    ensures
        b@ == v@.subrange(off as int, off + 16),
{
    let n = v.len();
    let mut b: Vec<u8> = Vec::new();
    let mut j: usize = 0;
    proof {
        assert(b@ =~= v@.subrange(off as int, off as int));
    }
    while j < 16
        invariant
            j <= 16,
            off + 16 <= n,
            n == v@.len(),
            b@ == v@.subrange(off as int, off + j),
        decreases 16 - j,
    {
        b.push(v[off + j]);
        proof {
            assert(b@ =~= v@.subrange(off as int, off + j + 1));
        }
        j = j + 1;
    }
    b
}

/// Overwrites the bytes of `out` at `off` with `block`.
fn put_block(out: &mut Vec<u8>, off: usize, block: &Vec<u8>)
    requires
        off + block@.len() <= old(out)@.len(),
    ensures
        final(out)@ == old(out)@.subrange(0, off as int) + block@ + old(out)@.subrange(
            off + block@.len(),
            old(out)@.len() as int,
        ),
{
    let n = out.len();
    let mut j: usize = 0;
    while j < block.len()
        invariant
            j <= block@.len(),
            off + block@.len() <= out@.len(),
            out@.len() == n,
            out@.len() == old(out)@.len(),
            forall|i: int|
                0 <= i < out@.len() && !(off <= i < off + j) ==> out@[i] == old(out)@[i],
            forall|i: int| 0 <= i < j ==> out@[off + i] == block@[i],
        decreases block@.len() - j,
    {
        out[off + j] = block[j];
        j = j + 1;
    }
    proof {
        assert(out@ =~= old(out)@.subrange(0, off as int) + block@ + old(out)@.subrange(
            off + block@.len(),
            old(out)@.len() as int,
        ));
    }
}

/// The salted front: six address-salted bytes, then the rest of `base`.
fn salt_front(base: &Vec<u8>, mac: &[u8; 6]) -> (r: Vec<u8>)
    requires
        base@.len() == 16,
    ensures
        r@ == salted_bytes(base@, mac@),
{
    let mut r: Vec<u8> = Vec::new();
    let mut n: usize = 0;
    while n < 6
        invariant
            n <= 6,
            base@.len() == 16,
            mac@.len() == 6,
            r@.len() == n,
            forall|j: int| 0 <= j < n ==> r@[j] == salted_bytes(base@, mac@)[j],
        decreases 6 - n,
    {
        let sum: u16 = base[n] as u16 + mac[5 - n] as u16;
        r.push((sum % 255) as u8);
        n = n + 1;
    }
    while n < 16
        invariant
            6 <= n <= 16,
            base@.len() == 16,
            mac@.len() == 6,
            r@.len() == n,
            forall|j: int| 0 <= j < n ==> r@[j] == salted_bytes(base@, mac@)[j],
        decreases 16 - n,
    {
        r.push(base[n]);
        n = n + 1;
    }
    proof {
        assert(r@ =~= salted_bytes(base@, mac@));
    }
    r
}

impl Decryptor {
    /// The effective key of this session.
    pub closed spec fn key_spec(&self) -> Seq<u8> {
        self.key@
    }

    /// The effective IV of this session.
    pub closed spec fn iv_spec(&self) -> Seq<u8> {
        self.iv@
    }

    /// Key and IV are whole AES-128 blocks.
    pub open spec fn wf(&self) -> bool {
        self.key_spec().len() == 16 && self.iv_spec().len() == 16
    }

    /// A decryptor for one device session: the family's base key and IV,
    /// each salted with the reversed hardware address.
    pub fn new(key: CryptKey, mac_addr: [u8; 6]) -> (r: Decryptor)
        ensures
            r.wf(),
            r.key_spec() == salted_bytes(base_key(key), mac_addr@),
            r.iv_spec() == salted_bytes(base_iv(key), mac_addr@),
    {
        let (base_k, base_i) = key.bytes();
        let k = salt_front(&base_k, &mac_addr);
        let iv = salt_front(&base_i, &mac_addr);
        Decryptor { key: k, iv }
    }

    /// The effective key, for callers that must encrypt test data the same
    /// way the device does.
    pub fn effective_key(&self) -> (k: Vec<u8>)
        ensures
            k@ == self.key_spec(),
    {
        clone_bytes(&self.key)
    }

    /// The effective IV.
    pub fn effective_iv(&self) -> (iv: Vec<u8>)
        ensures
            iv@ == self.iv_spec(),
    {
        clone_bytes(&self.iv)
    }

    /// Decrypts one notification buffer: the last 16 bytes as one fresh
    /// single-block decryption, then the first 16 bytes of the result as a
    /// second fresh single-block decryption with the same key and IV.
    ///
    /// A buffer of 16 bytes or fewer is a contract violation, not a
    /// recoverable error: unverified callers must check the length first.
    pub fn decrypt(&self, data: &Vec<u8>) -> (out: Vec<u8>)
        requires
            self.wf(),
            data@.len() > 16,
        ensures
            out@ == decrypt_spec(self.key_spec(), self.iv_spec(), data@),
            out@.len() == data@.len(),
    {
        let len = data.len();
        let b1 = take_block(data, len - 16);
        let d1 = decrypt_block(&self.key, &self.iv, &b1);
        let mut out = clone_bytes(data);
        put_block(&mut out, len - 16, &d1);
        proof {
            assert(out@ =~= block_decrypted(self.key_spec(), self.iv_spec(), data@, len - 16));
        }
        let ghost mid = out@;
        let b2 = take_block(&out, 0);
        let d2 = decrypt_block(&self.key, &self.iv, &b2);
        put_block(&mut out, 0, &d2);
        proof {
            assert(out@ =~= block_decrypted(self.key_spec(), self.iv_spec(), mid, 0));
        }
        out
    }

    /// The decrypting transform: answers one pull by its consumer. "Not
    /// ready" and "no more items" pass through unchanged; an item is
    /// decrypted. The upstream producer guarantees decryptable lengths, so
    /// an undersized item is a contract violation here, as in `decrypt`.
    pub fn decrypt_next(&self, upstream: PollNext<Vec<u8>>) -> (r: PollNext<Vec<u8>>)
        requires
            self.wf(),
            upstream matches PollNext::Item(buf) ==> buf@.len() > 16,
        ensures
            match upstream {
                PollNext::Item(buf) => r matches PollNext::Item(out) && out@ == decrypt_spec(
                    self.key_spec(),
                    self.iv_spec(),
                    buf@,
                ),
                PollNext::Pending => r is Pending,
                PollNext::Exhausted => r is Exhausted,
            },
    {
        match upstream {
            PollNext::Item(buf) => PollNext::Item(self.decrypt(&buf)),
            PollNext::Pending => PollNext::Pending,
            PollNext::Exhausted => PollNext::Exhausted,
        }
    }
}

/// Law: salting touches only the first six bytes. For every hardware address
/// and both families, the effective key and IV agree with the base key and
/// IV on bytes 6 to 15, and the derivation is a function of family and
/// address alone.
pub proof fn lemma_salting_touches_first_six_only(k: CryptKey, mac: Seq<u8>)
    requires
        mac.len() == 6,
    ensures
        salted_bytes(base_key(k), mac).len() == 16,
        salted_bytes(base_iv(k), mac).len() == 16,
        forall|n: int| 6 <= n < 16 ==> salted_bytes(base_key(k), mac)[n] == base_key(k)[n],
        forall|n: int| 6 <= n < 16 ==> salted_bytes(base_iv(k), mac)[n] == base_iv(k)[n],
{
}

} // verus!
