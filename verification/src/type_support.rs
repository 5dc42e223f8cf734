//! The type-support descriptor: what the core knows about a user type. A
//! sample is an opaque byte buffer whose key is a fixed-length prefix; the
//! descriptor extracts the key and derives the instance handle from it.

use vstd::prelude::*;

use crate::codec::{get_instance_handle_from_key, spec_instance_handle_of_key};
use crate::error::DdsError;
use crate::types::InstanceHandle;

verus! {

/// The serialized key of a sample: its first `key_len` bytes.
pub open spec fn spec_key_of_serialized(data: Seq<u8>, key_len: int) -> Seq<u8> {
    if data.len() <= key_len {
        data
    } else {
        data.take(key_len)
    }
}

/// The registered description of one user type: whether it carries a key,
/// how long the key prefix of a serialized sample is, and its type text.
pub struct FooTypeSupport {
    pub has_key: bool,
    pub key_len: usize,
    pub type_xml: String,
}

impl FooTypeSupport {
    /// Describe one user type.
    pub fn new(has_key: bool, key_len: usize, type_xml: String) -> (r: FooTypeSupport)
        ensures
            r.has_key == has_key,
            r.key_len == key_len,
            r.type_xml@ == type_xml@,
    {
        FooTypeSupport { has_key, key_len, type_xml }
    }

    /// Whether samples of the type carry a key.
    pub fn has_key(&self) -> (r: bool)
        ensures
            r == self.has_key,
    {
        self.has_key
    }

    /// The type text registered for discovery.
    pub fn xml_type(&self) -> (r: &String)
        ensures
            r == self.type_xml,
    {
        &self.type_xml
    }

    /// The serialized key of one serialized sample.
    pub fn get_serialized_key_from_serialized_foo(&self, serialized_foo: &[u8]) -> (r: Result<
        Vec<u8>,
        DdsError,
    >)
        ensures
            r matches Ok(k) && k@ == spec_key_of_serialized(serialized_foo@, self.key_len as int),
    {
        let mut k: Vec<u8> = Vec::new();
        let end = if serialized_foo.len() <= self.key_len {
            serialized_foo.len()
        } else {
            self.key_len
        };
        let mut i: usize = 0;
        while i < end
            invariant
                0 <= i <= end <= serialized_foo@.len(),
                k@ == serialized_foo@.take(i as int),
            decreases end - i,
        {
            k.push(serialized_foo[i]);
            i = i + 1;
            proof {
                assert(k@ =~= serialized_foo@.take(i as int));
            }
        }
        proof {
            if serialized_foo@.len() <= self.key_len {
                assert(k@ =~= serialized_foo@);
            }
        }
        Ok(k)
    }

    /// The instance handle of one serialized sample: the pure handle of its
    /// key prefix.
    pub fn instance_handle_from_serialized_foo(&self, serialized_foo: &[u8]) -> (r: Result<
        InstanceHandle,
        DdsError,
    >)
        ensures
            r matches Ok(h) && h.0@ == spec_instance_handle_of_key(
                spec_key_of_serialized(serialized_foo@, self.key_len as int),
            ),
    {
        let key = match self.get_serialized_key_from_serialized_foo(serialized_foo) {
            Ok(k) => k,
            Err(e) => {
                return Err(e);
            },
        };
        Ok(get_instance_handle_from_key(key.as_slice()))
    }

    /// The instance handle of one serialized key.
    pub fn instance_handle_from_serialized_key(&self, serialized_key: &[u8]) -> (r: Result<
        InstanceHandle,
        DdsError,
    >)
        ensures
            r matches Ok(h) && h.0@ == spec_instance_handle_of_key(serialized_key@),
    {
        Ok(get_instance_handle_from_key(serialized_key))
    }
}

} // verus!
