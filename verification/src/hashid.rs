//! Obfuscated capsule identifiers.
//!
//! Every capsule id exposed through a URL is encoded by a reversible,
//! salted obfuscator into a short alphanumeric string.  The obfuscator is
//! an immutable value built once at startup and passed explicitly.

use vstd::prelude::*;

use crate::error::{Error, ErrorKind};

use vstd::string::StringSliceAdditionalSpecFns;

verus! {

#[verifier::external_type_specification]
#[verifier::external_body]
pub struct ExHarsh(harsh::Harsh);

/// The hashid encoding of a sequence of values under a salt and a minimum
/// length, with the default alphabet and separators.
pub uninterp spec fn harsh_encode(salt: Seq<u8>, length: int, values: Seq<u64>) -> Seq<char>;

/// The id obfuscator: a hashid encoder together with the salt and minimum
/// length it was built from.
pub struct Obfuscator {
    harsh: harsh::Harsh,
    salt: Vec<u8>,
    length: usize,
}

impl Obfuscator {
    /// The salt the obfuscator was built from.
    pub closed spec fn salt_view(&self) -> Seq<u8> {
        self.salt@
    }

    /// The minimum length the obfuscator was built from.
    pub closed spec fn length_view(&self) -> int {
        self.length as int
    }

    /// Relies on `harsh::HarshBuilder`: builds an encoder from the salt
    /// and minimum length.  With the default alphabet and separators the
    /// builder always succeeds: it fails only on a short or illegal custom
    /// alphabet.
    #[verifier::external_body]
    pub fn new(salt: Vec<u8>, length: usize) -> (r: Option<Obfuscator>)
        ensures
            r is Some,
            r matches Some(o) ==> o.salt_view() == salt@ && o.length_view() == length,
    {
        match harsh::Harsh::builder().salt(salt.clone()).length(length).build() {
            Ok(h) => Some(Obfuscator { harsh: h, salt, length }),
            Err(_) => None,
        }
    }

    /// Relies on `harsh::Harsh::encode`: with a fixed alphabet and
    /// separators, the encoding is a function of the salt, the minimum
    /// length and the values alone.
    #[verifier::external_body]
    pub fn encode(&self, value: i32) -> (r: String)
        ensures
            r@ == harsh_encode(self.salt_view(), self.length_view(), seq![value as u64]),
    {
        self.harsh.encode(&[value as u64])
    }

    /// Relies on `harsh::Harsh::decode`: a decode succeeds only when
    /// re-encoding its result reproduces the input exactly, and it accepts
    /// every string that the deterministic encode produces for a nonempty
    /// value sequence, returning that sequence.
    #[verifier::external_body]
    fn decode_raw(&self, input: &str) -> (r: Option<Vec<u64>>)
        ensures
            match r {
                Some(v) => input@ == harsh_encode(self.salt_view(), self.length_view(), v@)
                    && forall|vs: Seq<u64>|
                    vs.len() > 0 && input@ == #[trigger] harsh_encode(
                        self.salt_view(),
                        self.length_view(),
                        vs,
                    ) ==> v@ == vs,
                None => forall|vs: Seq<u64>|
                    vs.len() > 0 ==> input@ != #[trigger] harsh_encode(
                        self.salt_view(),
                        self.length_view(),
                        vs,
                    ),
            },
    {
        match self.harsh.decode(input) {
            Ok(v) => Some(v),
            Err(_) => None,
        }
    }

    /// Decodes an obfuscated capsule id: the encoding of any id decodes
    /// back to that id, and any failure surfaces as not found.
    pub fn decode(&self, input: &str) -> (r: Result<i32, Error>)
        ensures
            match r {
                Ok(id) => input@ == harsh_encode(
                    self.salt_view(),
                    self.length_view(),
                    seq![id as u64],
                ),
                Err(e) => e == Error(ErrorKind::NotFound),
            },
            forall|n: i32|
                0 <= n && input@ == #[trigger] harsh_encode(
                    self.salt_view(),
                    self.length_view(),
                    seq![n as u64],
                ) ==> r == Ok::<i32, Error>(n),
    {
        match self.decode_raw(input) {
            Some(v) => {
                if v.len() == 1 {
                    let value = v[0];
                    if value <= 2147483647 {
                        proof {
                            assert(v@ =~= seq![v@[0]]);
                        }
                        Ok(value as i32)
                    } else {
                        proof {
                            assert forall|n: i32|
                                !(0 <= n && input@ == #[trigger] harsh_encode(
                                    self.salt_view(),
                                    self.length_view(),
                                    seq![n as u64],
                                )) by {
                                if 0 <= n && input@ == harsh_encode(
                                    self.salt_view(),
                                    self.length_view(),
                                    seq![n as u64],
                                ) {
                                    assert(v@ == seq![n as u64]);
                                    assert(v@[0] == n as u64);
                                }
                            }
                        }
                        Err(Error(ErrorKind::NotFound))
                    }
                } else {
                    proof {
                        assert forall|n: i32|
                            !(0 <= n && input@ == #[trigger] harsh_encode(
                                self.salt_view(),
                                self.length_view(),
                                seq![n as u64],
                            )) by {
                            if 0 <= n && input@ == harsh_encode(
                                self.salt_view(),
                                self.length_view(),
                                seq![n as u64],
                            ) {
                                assert(v@ == seq![n as u64]);
                            }
                        }
                    }
                    Err(Error(ErrorKind::NotFound))
                }
            },
            None => {
                proof {
                    assert forall|n: i32|
                        !(0 <= n && input@ == #[trigger] harsh_encode(
                            self.salt_view(),
                            self.length_view(),
                            seq![n as u64],
                        )) by {
                        if 0 <= n && input@ == harsh_encode(
                            self.salt_view(),
                            self.length_view(),
                            seq![n as u64],
                        ) {
                            assert(seq![n as u64].len() > 0);
                        }
                    }
                }
                Err(Error(ErrorKind::NotFound))
            },
        }
    }
}

/// A capsule id as it travels through routes.
#[derive(Debug, Clone, Copy, PartialEq, Eq, Structural)]
pub struct HashId(pub i32);

impl HashId {
    /// The obfuscated form of the id.
    pub fn hash(self, obfuscator: &Obfuscator) -> (r: String)
        ensures
            r@ == harsh_encode(
                obfuscator.salt_view(),
                obfuscator.length_view(),
                seq![self.0 as u64],
            ),
    {
        obfuscator.encode(self.0)
    }

    /// The obfuscated form of the id under an explicit secret and length,
    /// for use outside a configured server.
    pub fn hash_with_secret(self, secret: &str, length: usize) -> (r: Result<String, Error>)
        ensures
            r matches Ok(s) && s@ == harsh_encode(secret.spec_bytes(), length as int, seq![
                self.0 as u64,
            ]),
    {
        match Obfuscator::new(secret.as_bytes_vec(), length) {
            Some(o) => Ok(o.encode(self.0)),
            None => {
                proof {
                    assert(false);
                }
                Err(Error(ErrorKind::Persistence))
            },
        }
    }
}

} // verus!
