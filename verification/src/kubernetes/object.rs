//! Object metadata, secret data and the pod fragments that pass through
//! the operator unread.

use crate::text::utf8_text;
use vstd::prelude::*;
use vstd::utf8::*;

verus! {

/// `k8s_openapi::api::core::v1::Container`: a container definition that the
/// user supplies. It is carried through unread; nothing is claimed of it.
#[verifier::external_type_specification]
#[verifier::external_body]
pub struct ExContainer(k8s_openapi::api::core::v1::Container);

/// `k8s_openapi::api::core::v1::Volume`: a volume that the user supplies.
/// It is carried through unread; nothing is claimed of it.
#[verifier::external_type_specification]
#[verifier::external_body]
pub struct ExVolume(k8s_openapi::api::core::v1::Volume);

/// `k8s_openapi::api::core::v1::VolumeMount`: a volume mount that the user
/// supplies. It is carried through unread; nothing is claimed of it.
#[verifier::external_type_specification]
#[verifier::external_body]
pub struct ExVolumeMount(k8s_openapi::api::core::v1::VolumeMount);

/// `k8s_openapi::api::core::v1::EnvVar`: an environment variable that the
/// user supplies. It is carried through unread; nothing is claimed of it.
#[verifier::external_type_specification]
#[verifier::external_body]
pub struct ExEnvVar(k8s_openapi::api::core::v1::EnvVar);

/// The part of an object's metadata that the operator reads.
#[derive(Debug)]
pub struct ObjectMeta {
    pub name: Option<String>,
    pub namespace: Option<String>,
    pub finalizers: Option<Vec<String>>,
    pub deletion_timestamp: Option<String>,
}

/// Mathematical content of [`ObjectMeta`].
pub struct ObjectMetaView {
    pub name: Option<Seq<char>>,
    pub namespace: Option<Seq<char>>,
    pub finalizers: Option<Seq<Seq<char>>>,
    pub deletion_timestamp: Option<Seq<char>>,
}

impl View for ObjectMeta {
    type V = ObjectMetaView;

    open spec fn view(&self) -> ObjectMetaView {
        ObjectMetaView {
            name: self.name.deep_view(),
            namespace: self.namespace.deep_view(),
            finalizers: self.finalizers.deep_view(),
            deletion_timestamp: self.deletion_timestamp.deep_view(),
        }
    }
}

impl ObjectMetaView {
    /// Whether the finalizer list names `finalizer`.
    pub open spec fn has_finalizer(self, finalizer: Seq<char>) -> bool {
        self.finalizers is Some && self.finalizers->0.contains(finalizer)
    }

    /// Whether deletion of the object has been requested.
    pub open spec fn is_terminating(self) -> bool {
        self.deletion_timestamp is Some
    }
}

/// The data of a secret: keys with their bytes, in the order given. A
/// secret of the cluster holds each key once; of two entries under one key
/// the first counts.
#[derive(Debug)]
pub struct SecretData {
    pub entries: Vec<(String, Vec<u8>)>,
}

/// The bytes under `key` among the first `upto` entries, if any.
pub open spec fn first_match(entries: Seq<(String, Vec<u8>)>, key: Seq<char>, upto: int) -> Option<
    Seq<u8>,
>
    decreases upto,
{
    if upto <= 0 || upto > entries.len() {
        None
    } else if first_match(entries, key, upto - 1) is Some {
        first_match(entries, key, upto - 1)
    } else if entries[upto - 1].0@ == key {
        Some(entries[upto - 1].1@)
    } else {
        None
    }
}

impl SecretData {
    /// The bytes stored under `key`, if the secret has that key.
    pub open spec fn lookup(&self, key: Seq<char>) -> Option<Seq<u8>> {
        first_match(self.entries@, key, self.entries@.len() as int)
    }

    /// The text stored under `key`: absent without the key or when its
    /// bytes are not UTF-8.
    pub open spec fn lookup_text(&self, key: Seq<char>) -> Option<Seq<char>> {
        match self.lookup(key) {
            Some(bytes) => if valid_utf8(bytes) {
                Some(decode_utf8(bytes))
            } else {
                None
            },
            None => None,
        }
    }

    /// Whether `key` is present with bytes that are not UTF-8.
    pub open spec fn garbled(&self, key: Seq<char>) -> bool {
        self.lookup(key) is Some && !valid_utf8(self.lookup(key)->0)
    }

    /// A copy of the bytes stored under `key`.
    pub fn get(&self, key: &str) -> (found: Option<Vec<u8>>)
        ensures
            match found {
                Some(bytes) => self.lookup(key@) == Some(bytes@),
                None => self.lookup(key@) is None,
            },
    {
        let wanted = String::from_str(key);
        let mut i: usize = 0;
        while i < self.entries.len()
            invariant
                i <= self.entries.len(),
                wanted@ == key@,
                first_match(self.entries@, key@, i as int) is None,
            decreases self.entries.len() - i,
        {
            if self.entries[i].0 == wanted {
                let bytes = self.entries[i].1.clone();
                proof {
                    assert(bytes@ =~= self.entries[i as int].1@);
                    lemma_first_match_stays(self.entries@, key@, i as int + 1);
                }
                return Some(bytes);
            }
            i += 1;
        }
        None
    }

    /// The text stored under `key`.
    ///
    /// `Ok(None)` without the key, `Ok(Some(..))` with the decoded text,
    /// `Err(())` when the bytes are not UTF-8.
    pub fn get_text(&self, key: &str) -> (found: Result<Option<String>, ()>)
        ensures
            match found {
                Ok(Some(s)) => self.lookup_text(key@) == Some(s@),
                Ok(None) => self.lookup(key@) is None,
                Err(_) => self.garbled(key@),
            },
    {
        match self.get(key) {
            Some(bytes) => match utf8_text(bytes) {
                Some(s) => Ok(Some(s)),
                None => Err(()),
            },
            None => Ok(None),
        }
    }
}

/// Once a key has matched among the first `upto` entries, the same bytes
/// match in the whole list.
pub proof fn lemma_first_match_stays(entries: Seq<(String, Vec<u8>)>, key: Seq<char>, upto: int)
    requires
        0 <= upto <= entries.len(),
        first_match(entries, key, upto) is Some,
    ensures
        first_match(entries, key, entries.len() as int) == first_match(entries, key, upto),
    decreases entries.len() - upto,
{
    if upto < entries.len() {
        lemma_first_match_stays(entries, key, upto + 1);
    }
}

} // verus!
