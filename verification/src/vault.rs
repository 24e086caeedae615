//! The worker-side key vault: a store mapping a key handle to a secret key,
//! serving generate, seal and open against it. Entries are added only by
//! keypair generation, never removed and never serialized; the secret-key
//! bytes live nowhere but here. A handle is the public key of the stored
//! secret key: knowing a public value grants no capability beyond what the
//! vault already serves, since it holds no notion of a client identity —
//! the handle deliberately carries no authority beyond naming the key.

use vstd::prelude::*;

use crate::crypto::crypto_gen_keypair;
use crate::crypto::crypto_init;
use crate::crypto::crypto_open;
use crate::crypto::crypto_seal;
use crate::crypto::open_bytes;
use crate::crypto::pk_of;
use crate::crypto::seal_bytes;
use crate::wire::bytes_eq;
use crate::wire::copy_bytes;
use crate::wire::Error;
use crate::wire::KEY_BYTES;
use crate::wire::MAC_BYTES;
use crate::wire::NONCE_BYTES;

verus! {

/// The handle-to-secret-key mapping a sequence of vault entries stands for;
/// a later entry for the same handle overrides an earlier one.
pub open spec fn entries_map(s: Seq<(Vec<u8>, Vec<u8>)>) -> Map<Seq<u8>, Seq<u8>>
    decreases s.len(),
{
    if s.len() == 0 {
        Map::empty()
    } else {
        entries_map(s.drop_last()).insert(s.last().0@, s.last().1@)
    }
}

/// A well-formed entry: a 32-byte handle, a 32-byte secret key, and the
/// handle is that key's public key.
pub open spec fn entry_wf(e: (Vec<u8>, Vec<u8>)) -> bool {
    e.0@.len() == KEY_BYTES && e.1@.len() == KEY_BYTES && e.0@ == pk_of(e.1@)
}

/// The in-worker key store. Its view is the map from handle to secret key.
pub struct Vault {
    entries: Vec<(Vec<u8>, Vec<u8>)>,
}

impl View for Vault {
    type V = Map<Seq<u8>, Seq<u8>>;

    closed spec fn view(&self) -> Map<Seq<u8>, Seq<u8>> {
        entries_map(self.entries@)
    }
}

/// Looking up a handle in a prefix of the entries agrees with looking it up
/// in the whole, when no entry from the cut onward carries that handle.
proof fn lemma_entries_map_prefix(s: Seq<(Vec<u8>, Vec<u8>)>, h: Seq<u8>, i: int)
    requires
        0 <= i <= s.len(),
        forall|j: int| i <= j < s.len() ==> (#[trigger] s[j]).0@ != h,
    ensures
        entries_map(s).contains_key(h) == entries_map(s.take(i)).contains_key(h),
        entries_map(s).contains_key(h) ==> entries_map(s)[h] == entries_map(s.take(i))[h],
    decreases s.len() - i,
{
    if i == s.len() {
        assert(s.take(i) =~= s);
    } else {
        let s1 = s.drop_last();
        assert(s[s.len() - 1].0@ != h);
        assert(forall|j: int| i <= j < s1.len() ==> (#[trigger] s1[j]).0@ != h) by {
            assert(forall|j: int| 0 <= j < s1.len() ==> s1[j] == s[j]);
        }
        lemma_entries_map_prefix(s1, h, i);
        assert(s1.take(i) =~= s.take(i));
    }
}

impl Vault {
    /// The vault's internal invariant: every entry is well-formed.
    pub closed spec fn wf(self) -> bool {
        forall|i: int| 0 <= i < self.entries@.len() ==> entry_wf(#[trigger] self.entries@[i])
    }

    /// Creates an empty vault, readying the cryptographic primitive first;
    /// if the primitive cannot be readied the worker must not serve, which
    /// surfaces as `InitFailure`.
    pub fn new() -> (r: Result<Vault, Error>)
        ensures
            match r {
                Ok(v) => v.wf() && v@ == Map::<Seq<u8>, Seq<u8>>::empty(),
                Err(e) => e == Error::InitFailure,
            },
    {
        match crypto_init() {
            Ok(()) => {
                let v = Vault { entries: Vec::new() };
                proof {
                    assert(v.entries@.len() == 0);
                }
                Ok(v)
            },
            Err(()) => Err(Error::InitFailure),
        }
    }

    /// The secret key a handle resolves to, if the handle was ever issued;
    /// private: secret-key bytes are served only through seal and open.
    fn lookup(&self, h: &[u8]) -> (r: Option<Vec<u8>>)
        requires
            self.wf(),
        ensures
            match r {
                Some(sk) => self@.contains_key(h@) && sk@ == self@[h@] && sk@.len() == KEY_BYTES
                    && h@ == pk_of(sk@),
                None => !self@.contains_key(h@),
            },
    {
        let ghost s = self.entries@;
        let n = self.entries.len();
        let mut i: usize = n;
        while i > 0
            invariant
                0 <= i <= n,
                n == s.len(),
                s == self.entries@,
                self.wf(),
                forall|j: int| i <= j < n ==> (#[trigger] s[j]).0@ != h@,
            decreases i,
        {
            i = i - 1;
            if bytes_eq(self.entries[i].0.as_slice(), h) {
                proof {
                    lemma_entries_map_prefix(s, h@, i + 1);
                    assert(s.take(i + 1).drop_last() =~= s.take(i as int));
                    assert(s.take(i + 1).last() == s[i as int]);
                    assert(entries_map(s.take(i + 1)) == entries_map(s.take(i as int)).insert(
                        s[i as int].0@,
                        s[i as int].1@,
                    ));
                    assert(entry_wf(s[i as int]));
                }
                return Some(copy_bytes(self.entries[i].1.as_slice()));
            }
        }
        proof {
            lemma_entries_map_prefix(s, h@, 0);
            assert(s.take(0) =~= Seq::<(Vec<u8>, Vec<u8>)>::empty());
        }
        None
    }

    /// Derives a fresh keypair from the primitive, stores the secret key
    /// under its handle — the matching public key — and returns that public
    /// key. Handles issued earlier remain resolvable, to the same keys
    /// (a fresh public key equal to an existing handle re-keys that handle;
    /// distinct keys leave every handle intact).
    pub fn gen_keypair(&mut self) -> (pk: Vec<u8>)
        requires
            old(self).wf(),
        ensures
            final(self).wf(),
            pk@.len() == KEY_BYTES,
            final(self)@.contains_key(pk@),
            exists|sk: Seq<u8>|
                sk.len() == KEY_BYTES && pk@ == pk_of(sk) && final(self)@ == old(self)@.insert(
                    pk@,
                    sk,
                ),
            forall|h: Seq<u8>|
                old(self)@.contains_key(h) ==> final(self)@.contains_key(h),
            forall|h: Seq<u8>|
                old(self)@.contains_key(h) && h != pk@ ==> final(self)@[h] == old(self)@[h],
    {
        let (pk, sk) = crypto_gen_keypair();
        let ghost pkv = pk@;
        let ghost skv = sk@;
        let out = copy_bytes(pk.as_slice());
        let ghost s0 = self.entries@;
        self.entries.push((pk, sk));
        proof {
            let s = self.entries@;
            assert(s.drop_last() =~= s0);
            assert(s.last().0@ == pkv && s.last().1@ == skv);
            assert(entries_map(s) == entries_map(s0).insert(pkv, skv));
            assert(forall|i: int| 0 <= i < s.len() ==> entry_wf(#[trigger] s[i])) by {
                assert(forall|i: int| 0 <= i < s0.len() ==> s[i] == s0[i]);
                assert(entry_wf(s[s.len() - 1]));
            }
        }
        out
    }

    /// Encrypts `m` under nonce `n` for recipient `pk` with the secret key
    /// the handle `skh` resolves to; `HandleNotFound` — fatal to this
    /// request, not to the worker — whenever the handle was never issued,
    /// with no panic for any input. A plaintext so large that the machine
    /// cannot even hold its ciphertext (it is over any size the protocol
    /// admits) is rejected as `MalformedMessage` rather than attempted. The
    /// ciphertext always has the plaintext's length plus the tag; it is the
    /// deterministic box ciphertext when the recipient key is a genuine
    /// public key — for any other 32-byte string the primitive leaves the
    /// contents unspecified, and only the length is promised.
    pub fn seal(&self, m: &[u8], n: &[u8], pk: &[u8], skh: &[u8]) -> (r: Result<Vec<u8>, Error>)
        requires
            self.wf(),
            n@.len() == NONCE_BYTES,
            pk@.len() == KEY_BYTES,
        ensures
            !self@.contains_key(skh@) ==> r == Err::<Vec<u8>, Error>(Error::HandleNotFound),
            self@.contains_key(skh@) && m@.len() + MAC_BYTES <= usize::MAX ==> (r matches Ok(c)
                && c@.len() == m@.len() + MAC_BYTES),
            self@.contains_key(skh@) && m@.len() + MAC_BYTES <= usize::MAX && (exists|
                sks: Seq<u8>,
            |
                sks.len() == KEY_BYTES && pk@ == pk_of(sks)) ==> (r matches Ok(c) && c@
                == seal_bytes(m@, n@, pk@, self@[skh@])),
            self@.contains_key(skh@) && m@.len() + MAC_BYTES > usize::MAX ==> r == Err::<
                Vec<u8>,
                Error,
            >(Error::MalformedMessage),
    {
        match self.lookup(skh) {
            Some(sk) => {
                if m.len() > usize::MAX - MAC_BYTES {
                    Err(Error::MalformedMessage)
                } else {
                    Ok(crypto_seal(m, n, pk, sk.as_slice()))
                }
            },
            None => Err(Error::HandleNotFound),
        }
    }

    /// Verifies and decrypts `c` under nonce `n` from sender `pk` with the
    /// secret key the handle `skh` resolves to. `HandleNotFound` if the
    /// handle was never issued; `AuthFailure` — an expected outcome, not a
    /// crash — when verification fails. A ciphertext sealed to this vault
    /// key under the same nonce by the sender whose public key is given
    /// opens to exactly the plaintext it was sealed from.
    pub fn open(&self, c: &[u8], n: &[u8], pk: &[u8], skh: &[u8]) -> (r: Result<Vec<u8>, Error>)
        requires
            self.wf(),
            n@.len() == NONCE_BYTES,
            pk@.len() == KEY_BYTES,
        ensures
            match r {
                Ok(m) => self@.contains_key(skh@) && open_bytes(c@, n@, pk@, self@[skh@])
                    == Some(m@) && m@.len() + MAC_BYTES == c@.len(),
                Err(e) => (e == Error::HandleNotFound && !self@.contains_key(skh@)) || (e
                    == Error::AuthFailure && self@.contains_key(skh@) && open_bytes(
                    c@,
                    n@,
                    pk@,
                    self@[skh@],
                ) is None),
            },
            self@.contains_key(skh@) ==> forall|m: Seq<u8>, sks: Seq<u8>|
                sks.len() == KEY_BYTES && pk@ == pk_of(sks) && c@ == #[trigger] seal_bytes(
                    m,
                    n@,
                    pk_of(self@[skh@]),
                    sks,
                ) ==> (r matches Ok(p) && p@ == m),
    {
        match self.lookup(skh) {
            Some(sk) => match crypto_open(c, n, pk, sk.as_slice()) {
                Ok(m) => Ok(m),
                Err(()) => Err(Error::AuthFailure),
            },
            None => Err(Error::HandleNotFound),
        }
    }
}


/// Two consecutive keypair generations leave both handles independently
/// resolvable: when the two public keys differ, after the second insertion
/// each handle still resolves to its own secret key, and an earlier handle
/// distinct from both is untouched.
pub proof fn lemma_two_keypairs_resolvable(
    m0: Map<Seq<u8>, Seq<u8>>,
    pk1: Seq<u8>,
    sk1: Seq<u8>,
    pk2: Seq<u8>,
    sk2: Seq<u8>,
)
    requires
        pk1 != pk2,
    ensures
        m0.insert(pk1, sk1).insert(pk2, sk2).contains_key(pk1),
        m0.insert(pk1, sk1).insert(pk2, sk2).contains_key(pk2),
        m0.insert(pk1, sk1).insert(pk2, sk2)[pk1] == sk1,
        m0.insert(pk1, sk1).insert(pk2, sk2)[pk2] == sk2,
        forall|h: Seq<u8>|
            m0.contains_key(h) && h != pk1 && h != pk2 ==> m0.insert(pk1, sk1).insert(
                pk2,
                sk2,
            ).contains_key(h) && m0.insert(pk1, sk1).insert(pk2, sk2)[h] == m0[h],
{
}

} // verus!
